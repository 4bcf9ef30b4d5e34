use sockprim::error::{status, Error, ErrorKind, InvalidInput, SUCCESS, WSAEWOULDBLOCK};

#[test]
fn zero_is_success() {
    assert_eq!(status(0, 0), Ok(()));
    assert_eq!(status(SUCCESS, 10048), Ok(()));
}

#[test]
fn any_other_return_is_the_os_error() {
    assert_eq!(status(-1, 10048), Err(Error::Os(10048)));
    assert_eq!(status(1, 10048), Err(Error::Os(10048)));
    assert_eq!(status(i32::MIN, 5), Err(Error::Os(5)));
}

#[test]
fn kinds_of_error() {
    assert_eq!(
        Error::InvalidInput(InvalidInput::AbstractTooLong).kind(),
        ErrorKind::InvalidInput
    );
    assert_eq!(
        Error::InvalidInput(InvalidInput::UnknownFamily).kind(),
        ErrorKind::InvalidInput
    );
    assert_eq!(Error::Os(WSAEWOULDBLOCK).kind(), ErrorKind::WouldBlock);
    assert_eq!(Error::Os(10035).kind(), ErrorKind::WouldBlock);
    assert_eq!(Error::Os(10061).kind(), ErrorKind::Os);
    assert_eq!(Error::Os(0).kind(), ErrorKind::Os);
}

#[test]
fn os_errors_carry_their_code() {
    assert_eq!(Error::Os(10061).raw_os_error(), Some(10061));
    assert_eq!(Error::InvalidInput(InvalidInput::PathnameTooLong).raw_os_error(), None);
}

#[test]
fn messages_of_refusals() {
    assert_eq!(
        InvalidInput::AbstractTooLong.message(),
        "address too long for abstract namespace"
    );
    assert_eq!(
        InvalidInput::PathnameTooLong.message(),
        "address too long for pathname namespace"
    );
    assert_eq!(InvalidInput::UnknownFamily.message(), "address family is neither IPv4 nor IPv6");
    assert_eq!(
        InvalidInput::ShortAddress.message(),
        "address is shorter than its family's structure"
    );
}
