use sockprim::error::Error;
use sockprim::sockopt::{
    get_keepalive, get_linger, get_reuseaddr, keepalive_value, linger_value, reuseaddr_value,
    KeepAlive, Linger, FALSE, MAX_KEEPALIVE_MILLIS, TRUE,
};
use sockprim::time::Duration;

#[test]
fn reuseaddr_round_trip() {
    assert_eq!(reuseaddr_value(true), TRUE);
    assert_eq!(reuseaddr_value(false), FALSE);
    assert_eq!(reuseaddr_value(true), 1);
    assert_eq!(reuseaddr_value(false), 0);
    assert_eq!(get_reuseaddr(0, 0, reuseaddr_value(true)), Ok(true));
    assert_eq!(get_reuseaddr(0, 0, reuseaddr_value(false)), Ok(false));
}

#[test]
fn reuseaddr_reads_any_flag_but_zero_as_on() {
    assert_eq!(get_reuseaddr(0, 0, -1), Ok(true));
    assert_eq!(get_reuseaddr(0, 0, 255), Ok(true));
    assert_eq!(get_reuseaddr(0, 0, 0), Ok(false));
}

#[test]
fn failed_queries_give_the_os_error() {
    assert_eq!(get_reuseaddr(-1, 10038, 1), Err(Error::Os(10038)));
    assert_eq!(get_linger(-1, 10038, Linger { l_onoff: 1, l_linger: 5 }), Err(Error::Os(10038)));
    assert_eq!(
        get_keepalive(
            -1,
            10022,
            KeepAlive { onoff: 1, keepalivetime: 5, keepaliveinterval: 5 }
        ),
        Err(Error::Os(10022))
    );
    assert_eq!(get_reuseaddr(7, 10038, 1), Err(Error::Os(10038)));
}

#[test]
fn linger_of_five_seconds() {
    let val = linger_value(Some(Duration::from_secs(5)));
    assert_eq!(val, Linger { l_onoff: 1, l_linger: 5 });
    assert_eq!(get_linger(0, 0, val), Ok(Some(Duration::from_secs(5))));
}

#[test]
fn linger_of_none_is_off() {
    let val = linger_value(None);
    assert_eq!(val, Linger { l_onoff: 0, l_linger: 0 });
    assert_eq!(get_linger(0, 0, val), Ok(None));
}

#[test]
fn linger_loses_the_part_of_a_second() {
    let val = linger_value(Some(Duration::new(2, 999_999_999).unwrap()));
    assert_eq!(val, Linger { l_onoff: 1, l_linger: 2 });
    let val = linger_value(Some(Duration::from_millis(999)));
    assert_eq!(val, Linger { l_onoff: 1, l_linger: 0 });
    assert_eq!(get_linger(0, 0, val), Ok(Some(Duration::from_secs(0))));
}

#[test]
fn linger_keeps_sixteen_bits_of_the_seconds() {
    assert_eq!(
        linger_value(Some(Duration::from_secs(65_535))),
        Linger { l_onoff: 1, l_linger: 65_535 }
    );
    assert_eq!(
        linger_value(Some(Duration::from_secs(65_536))),
        Linger { l_onoff: 1, l_linger: 0 }
    );
    assert_eq!(
        linger_value(Some(Duration::from_secs(65_536 + 7))),
        Linger { l_onoff: 1, l_linger: 7 }
    );
}

#[test]
fn linger_read_back_ignores_the_time_when_off() {
    assert_eq!(get_linger(0, 0, Linger { l_onoff: 0, l_linger: 9 }), Ok(None));
    assert_eq!(
        get_linger(0, 0, Linger { l_onoff: 2, l_linger: 9 }),
        Ok(Some(Duration::from_secs(9)))
    );
}

#[test]
fn keepalive_round_trip_in_milliseconds() {
    let d = Duration::new(7, 250_999_999).unwrap();
    let val = keepalive_value(Some(d));
    assert_eq!(val, KeepAlive { onoff: 1, keepalivetime: 7_250, keepaliveinterval: 7_250 });
    assert_eq!(get_keepalive(0, 0, val), Ok(Some(Duration::from_millis(7_250))));
}

#[test]
fn keepalive_of_none_is_off() {
    let val = keepalive_value(None);
    assert_eq!(val, KeepAlive { onoff: 0, keepalivetime: 0, keepaliveinterval: 0 });
    assert_eq!(get_keepalive(0, 0, val), Ok(None));
}

#[test]
fn keepalive_is_clamped() {
    let val = keepalive_value(Some(Duration::from_millis(4_294_967_295)));
    assert_eq!(val.keepalivetime, 4_294_967_295);
    assert_eq!(val.keepaliveinterval, 4_294_967_295);
    let val = keepalive_value(Some(Duration::from_millis(4_294_967_296)));
    assert_eq!(
        val,
        KeepAlive {
            onoff: 1,
            keepalivetime: MAX_KEEPALIVE_MILLIS,
            keepaliveinterval: MAX_KEEPALIVE_MILLIS
        }
    );
    assert_eq!(MAX_KEEPALIVE_MILLIS, u32::MAX);
    let val = keepalive_value(Some(Duration::from_secs(u64::MAX)));
    assert_eq!(val.keepaliveinterval, 4_294_967_295);
    assert_eq!(get_keepalive(0, 0, val), Ok(Some(Duration::from_millis(4_294_967_295))));
}

#[test]
fn keepalive_that_fits_the_field_is_handed_on_as_it_is() {
    let d = Duration::from_millis(3_000_000_000);
    let val = keepalive_value(Some(d));
    assert_eq!(
        val,
        KeepAlive { onoff: 1, keepalivetime: 3_000_000_000, keepaliveinterval: 3_000_000_000 }
    );
    assert_eq!(get_keepalive(0, 0, val), Ok(Some(d)));
    let d = Duration::from_millis(2_147_483_648);
    let val = keepalive_value(Some(d));
    assert_eq!(val.keepalivetime, 2_147_483_648);
    assert_eq!(get_keepalive(0, 0, val), Ok(Some(d)));
}

#[test]
fn keepalive_below_a_millisecond_reads_back_as_off() {
    let val = keepalive_value(Some(Duration::new(0, 999_999).unwrap()));
    assert_eq!(val, KeepAlive { onoff: 1, keepalivetime: 0, keepaliveinterval: 0 });
    assert_eq!(get_keepalive(0, 0, val), Ok(None));
}

#[test]
fn keepalive_with_zero_interval_is_off() {
    assert_eq!(
        get_keepalive(0, 0, KeepAlive { onoff: 1, keepalivetime: 500, keepaliveinterval: 0 }),
        Ok(None)
    );
    assert_eq!(
        get_keepalive(0, 0, KeepAlive { onoff: 0, keepalivetime: 500, keepaliveinterval: 500 }),
        Ok(None)
    );
    assert_eq!(
        get_keepalive(
            0,
            0,
            KeepAlive { onoff: 1, keepalivetime: 9, keepaliveinterval: u32::MAX }
        ),
        Ok(Some(Duration::from_millis(u32::MAX as u64)))
    );
}
