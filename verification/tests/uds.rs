use sockprim::error::{Error, InvalidInput};
use sockprim::uds::{
    encode, path_offset, socket_addr, Layout, AF_UNIX, SOCKADDR_UN_LEN, SUN_PATH_LEN,
    SUN_PATH_OFFSET,
};
use std::str;

// Assert `socklen` equals 16 (on Linux):
//   - 13 bytes for path length
//   - `path_offset` bytes for the `sun_path` offset (2 on Linux)
//   - 1 for the null terminator
#[test]
fn pathname_address() {
    const PATH: &str = "./foo/bar.txt";
    const PATH_LEN: usize = 13;

    // Pathname addresses do have a null terminator, so `socklen` is
    // expected to be `PATH_LEN` + `offset` + 1.
    let (sockaddr, actual) = socket_addr(PATH.as_bytes()).unwrap();
    let offset = path_offset(&sockaddr);
    let expected = PATH_LEN + offset + 1;
    assert_eq!(expected as libc::socklen_t, actual)
}

#[test]
fn abstract_address() {
    const PATH: &[u8] = &[0, 116, 111, 107, 105, 111];
    const PATH_LEN: usize = 6;

    // Abstract addresses do not have a null terminator, so `socklen` is
    // expected to be `PATH_LEN` + `offset`.
    let abstract_path = str::from_utf8(PATH).unwrap();
    let (sockaddr, actual) = socket_addr(abstract_path.as_bytes()).unwrap();
    let offset = path_offset(&sockaddr);
    let expected = PATH_LEN + offset;
    assert_eq!(expected as libc::socklen_t, actual)
}

fn linux() -> Layout {
    Layout::new(1, 2, 108).unwrap()
}

#[test]
fn native_layout_measures_the_native_structure() {
    let layout = Layout::native();
    assert_eq!(layout.family() as libc::c_int, libc::AF_UNIX);
    assert_eq!(
        layout.path_offset() + layout.path_capacity(),
        std::mem::size_of::<libc::sockaddr_un>()
    );
    assert_eq!(layout.path_offset(), std::mem::size_of::<libc::sa_family_t>());
}

#[test]
fn native_layout_is_the_one_stated() {
    let layout = Layout::native();
    assert_eq!(layout.family(), 1);
    assert_eq!(layout.path_offset(), 2);
    assert_eq!(layout.path_capacity(), 108);
    assert_eq!(AF_UNIX as libc::c_int, libc::AF_UNIX);
    assert_eq!(SOCKADDR_UN_LEN, std::mem::size_of::<libc::sockaddr_un>());
    assert_eq!(SOCKADDR_UN_LEN, 110);
    assert_eq!(SUN_PATH_LEN, 108);
    assert_eq!(SUN_PATH_OFFSET, SOCKADDR_UN_LEN - SUN_PATH_LEN);
}

#[test]
fn native_encoding_takes_names_of_up_to_107_bytes() {
    let (addr, len) = socket_addr(&[b'a'; 107]).unwrap();
    assert_eq!(len, 110);
    assert_eq!(addr.family(), 1);
    assert_eq!(path_offset(&addr), 2);
    assert_eq!(&addr.path()[..107], &[b'a'; 107][..]);
    assert_eq!(addr.path()[107], 0);
    let mut name = [b'a'; 107];
    name[0] = 0;
    let (_, len) = socket_addr(&name).unwrap();
    assert_eq!(len, 109);
    assert_eq!(
        socket_addr(&[b'a'; 108]).unwrap_err(),
        Error::InvalidInput(InvalidInput::PathnameTooLong)
    );
    let mut name = [b'a'; 108];
    name[0] = 0;
    assert_eq!(
        socket_addr(&name).unwrap_err(),
        Error::InvalidInput(InvalidInput::PathnameTooLong)
    );
    let mut name = [b'a'; 109];
    name[0] = 0;
    assert_eq!(
        socket_addr(&name).unwrap_err(),
        Error::InvalidInput(InvalidInput::AbstractTooLong)
    );
    let (_, len) = socket_addr(b"").unwrap();
    assert_eq!(len, 2);
}

#[test]
fn native_address_carries_the_native_layout() {
    let (addr, len) = socket_addr(b"/tmp/sock").unwrap();
    let native = Layout::native();
    assert_eq!(addr.family(), native.family());
    assert_eq!(addr.layout().path_capacity(), native.path_capacity());
    assert_eq!(path_offset(&addr), native.path_offset());
    assert_eq!(addr.path().len(), native.path_capacity());
    assert_eq!(&addr.path()[..9], b"/tmp/sock");
    assert!(addr.path()[9..].iter().all(|b| *b == 0));
    assert_eq!(len as usize, native.path_offset() + 9 + 1);
}

#[test]
fn layout_new_refuses_what_exceeds_a_socket_length() {
    assert!(Layout::new(1, 2, 108).is_some());
    assert!(Layout::new(1, 0, u32::MAX as usize).is_some());
    assert!(Layout::new(1, 1, u32::MAX as usize).is_none());
    assert!(Layout::new(1, usize::MAX, 1).is_none());
    assert!(Layout::new(1, usize::MAX, usize::MAX).is_none());
    let layout = Layout::new(7, 3, 20).unwrap();
    assert_eq!(layout.family(), 7);
    assert_eq!(layout.path_offset(), 3);
    assert_eq!(layout.path_capacity(), 20);
}

#[test]
fn pathname_is_copied_and_terminated() {
    let (addr, len) = encode(linux(), b"./foo/bar.txt").unwrap();
    assert_eq!(len, 16);
    assert_eq!(addr.family(), 1);
    assert_eq!(path_offset(&addr), 2);
    assert_eq!(addr.path().len(), 108);
    assert_eq!(&addr.path()[..13], b"./foo/bar.txt");
    assert!(addr.path()[13..].iter().all(|b| *b == 0));
}

#[test]
fn abstract_name_has_no_terminator() {
    let (addr, len) = encode(linux(), &[0, 116, 111, 107, 105, 111]).unwrap();
    assert_eq!(len, 8);
    assert_eq!(&addr.path()[..6], &[0, 116, 111, 107, 105, 111]);
    assert!(addr.path()[6..].iter().all(|b| *b == 0));
}

#[test]
fn empty_name_has_the_header_length() {
    let (addr, len) = encode(linux(), b"").unwrap();
    assert_eq!(len, 2);
    assert!(addr.path().iter().all(|b| *b == 0));
}

#[test]
fn longest_pathname_leaves_room_for_the_terminator() {
    let name = [b'a'; 107];
    let (addr, len) = encode(linux(), &name).unwrap();
    assert_eq!(len, 2 + 107 + 1);
    assert_eq!(&addr.path()[..107], &name[..]);
    assert_eq!(addr.path()[107], 0);
}

#[test]
fn pathname_as_long_as_the_buffer_is_refused() {
    let name = [b'a'; 108];
    assert_eq!(
        encode(linux(), &name).unwrap_err(),
        Error::InvalidInput(InvalidInput::PathnameTooLong)
    );
    let name = [b'a'; 200];
    assert_eq!(
        encode(linux(), &name).unwrap_err(),
        Error::InvalidInput(InvalidInput::PathnameTooLong)
    );
}

#[test]
fn abstract_name_longer_than_the_buffer_is_refused() {
    let mut name = [b'x'; 109];
    name[0] = 0;
    assert_eq!(
        encode(linux(), &name).unwrap_err(),
        Error::InvalidInput(InvalidInput::AbstractTooLong)
    );
}

#[test]
fn abstract_name_that_fills_the_buffer_is_refused_as_a_pathname_is() {
    let mut name = [b'x'; 108];
    name[0] = 0;
    assert_eq!(
        encode(linux(), &name).unwrap_err(),
        Error::InvalidInput(InvalidInput::PathnameTooLong)
    );
    name[0] = 0;
    let (_, len) = encode(linux(), &name[..107]).unwrap();
    assert_eq!(len, 2 + 107);
}

#[test]
fn native_encoding_refuses_long_names() {
    let capacity = Layout::native().path_capacity();
    let name = vec![b'a'; capacity];
    assert_eq!(
        socket_addr(&name).unwrap_err(),
        Error::InvalidInput(InvalidInput::PathnameTooLong)
    );
    let mut name = vec![b'a'; capacity + 1];
    name[0] = 0;
    assert_eq!(
        socket_addr(&name).unwrap_err(),
        Error::InvalidInput(InvalidInput::AbstractTooLong)
    );
    assert!(socket_addr(&vec![b'a'; capacity - 1]).is_ok());
}

#[test]
fn other_layouts_are_encoded_alike() {
    let bsd = Layout::new(1, 2, 104).unwrap();
    let (addr, len) = encode(bsd, b"/var/run/x").unwrap();
    assert_eq!(len, 2 + 10 + 1);
    assert_eq!(addr.path().len(), 104);
    assert!(encode(bsd, &[b'a'; 104]).is_err());
    let wide = Layout::new(9, 8, 16).unwrap();
    let (addr, len) = encode(wide, b"abc").unwrap();
    assert_eq!(len, 8 + 3 + 1);
    assert_eq!(addr.family(), 9);
    assert_eq!(addr.path(), b"abc\0\0\0\0\0\0\0\0\0\0\0\0\0");
    let none = Layout::new(1, 2, 0).unwrap();
    assert_eq!(
        encode(none, b"").unwrap_err(),
        Error::InvalidInput(InvalidInput::PathnameTooLong)
    );
}

#[test]
fn name_reads_back_what_was_encoded() {
    let (addr, len) = encode(linux(), b"./foo/bar.txt").unwrap();
    assert_eq!(addr.name(len).unwrap(), b"./foo/bar.txt");
    let (addr, len) = encode(linux(), &[0, 116, 111, 107, 105, 111]).unwrap();
    assert_eq!(addr.name(len).unwrap(), &[0, 116, 111, 107, 105, 111]);
    let (addr, len) = encode(linux(), b"").unwrap();
    assert_eq!(addr.name(len).unwrap(), b"");
    let (addr, len) = encode(linux(), b"a\0b").unwrap();
    assert_eq!(len, 2 + 3 + 1);
    assert_eq!(addr.name(len).unwrap(), b"a\0b");
}

#[test]
fn name_refuses_a_length_outside_the_buffer() {
    let (addr, _) = encode(linux(), b"abc").unwrap();
    assert!(addr.name(1).is_none());
    assert!(addr.name(111).is_none());
    assert_eq!(addr.name(2).unwrap(), b"");
    assert_eq!(addr.name(3).unwrap(), b"");
    assert_eq!(addr.name(4).unwrap(), b"a");
    assert_eq!(addr.name(110).unwrap().len(), 107);
}
