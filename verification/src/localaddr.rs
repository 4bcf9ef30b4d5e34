//! The local address of a socket, read from the bytes of the native address
//! storage.
//!
//! The storage begins with a family tag in the byte order of the machine,
//! least significant byte first. The tag says whether an IPv4 or an IPv6
//! address structure follows; port and address bytes are in network order.
//! Storage with any other tag is refused, and so is storage too short for
//! the structure that its tag announces: no byte is read as what it is not.

use crate::error::{Error, InvalidInput, SUCCESS};
use vstd::prelude::*;

verus! {

/// The family tag of an IPv4 address.
pub const AF_INET: u16 = 2;

/// The family tag of an IPv6 address.
pub const AF_INET6: u16 = 23;

/// The size of the native IPv4 address structure.
pub const SOCKADDR_IN_LEN: usize = 16;

/// The size of the native IPv6 address structure.
pub const SOCKADDR_IN6_LEN: usize = 28;

/// A socket address.
#[derive(Clone, Copy, Debug, PartialEq, Eq)]
pub enum SocketAddr {
    V4 { ip: [u8; 4], port: u16 },
    V6 { ip: [u8; 16], port: u16, flowinfo: u32, scope_id: u32 },
}

/// What a [`SocketAddr`] is, its address bytes as a sequence.
pub enum SocketAddrView {
    V4 { ip: Seq<u8>, port: u16 },
    V6 { ip: Seq<u8>, port: u16, flowinfo: u32, scope_id: u32 },
}

impl View for SocketAddr {
    type V = SocketAddrView;

    open spec fn view(&self) -> SocketAddrView {
        match *self {
            SocketAddr::V4 { ip, port } => SocketAddrView::V4 { ip: ip@, port },
            SocketAddr::V6 { ip, port, flowinfo, scope_id } => SocketAddrView::V6 {
                ip: ip@,
                port,
                flowinfo,
                scope_id,
            },
        }
    }
}

/// The two bytes at `at`, least significant first.
pub open spec fn le16(bytes: Seq<u8>, at: int) -> u16 {
    (bytes[at] + 0x100 * bytes[at + 1]) as u16
}

/// The two bytes at `at`, most significant first.
pub open spec fn be16(bytes: Seq<u8>, at: int) -> u16 {
    (0x100 * bytes[at] + bytes[at + 1]) as u16
}

/// The four bytes at `at`, least significant first.
pub open spec fn le32(bytes: Seq<u8>, at: int) -> u32 {
    (bytes[at] + 0x100 * bytes[at + 1] + 0x1_0000 * bytes[at + 2] + 0x100_0000 * bytes[at
        + 3]) as u32
}

/// The address that the storage holds, or the reason for which it holds
/// none.
pub open spec fn address_in(storage: Seq<u8>) -> Result<SocketAddrView, InvalidInput> {
    if storage.len() < 2 {
        Err(InvalidInput::ShortAddress)
    } else if le16(storage, 0) == AF_INET {
        if storage.len() < SOCKADDR_IN_LEN {
            Err(InvalidInput::ShortAddress)
        } else {
            Ok(SocketAddrView::V4 { ip: storage.subrange(4, 8), port: be16(storage, 2) })
        }
    } else if le16(storage, 0) == AF_INET6 {
        if storage.len() < SOCKADDR_IN6_LEN {
            Err(InvalidInput::ShortAddress)
        } else {
            Ok(
                SocketAddrView::V6 {
                    ip: storage.subrange(8, 24),
                    port: be16(storage, 2),
                    flowinfo: le32(storage, 4),
                    scope_id: le32(storage, 24),
                },
            )
        }
    } else {
        Err(InvalidInput::UnknownFamily)
    }
}

/// Reads two bytes, least significant first.
fn read_le16(bytes: &[u8], at: usize) -> (r: u16)
    requires
        at + 2 <= bytes@.len(),
    ensures
        r == le16(bytes@, at as int),
{
    bytes[at] as u16 + 0x100 * (bytes[at + 1] as u16)
}

/// Reads two bytes, most significant first.
fn read_be16(bytes: &[u8], at: usize) -> (r: u16)
    requires
        at + 2 <= bytes@.len(),
    ensures
        r == be16(bytes@, at as int),
{
    0x100 * (bytes[at] as u16) + bytes[at + 1] as u16
}

/// Reads four bytes, least significant first.
fn read_le32(bytes: &[u8], at: usize) -> (r: u32)
    requires
        at + 4 <= bytes@.len(),
    ensures
        r == le32(bytes@, at as int),
{
    bytes[at] as u32 + 0x100 * (bytes[at + 1] as u32) + 0x1_0000 * (bytes[at + 2] as u32)
        + 0x100_0000 * (bytes[at + 3] as u32)
}

/// Reads the address that the storage holds.
pub fn parse(storage: &[u8]) -> (r: Result<SocketAddr, Error>)
    ensures
        r.is_ok() <==> address_in(storage@).is_ok(),
        r matches Ok(addr) ==> Ok::<SocketAddrView, InvalidInput>(addr@) == address_in(storage@),
        r matches Err(e) ==> address_in(storage@) matches Err(kind) && e == Error::InvalidInput(
            kind,
        ),
{
    if storage.len() < 2 {
        return Err(Error::InvalidInput(InvalidInput::ShortAddress));
    }
    let family: u16 = read_le16(storage, 0);
    if family == AF_INET {
        if storage.len() < SOCKADDR_IN_LEN {
            return Err(Error::InvalidInput(InvalidInput::ShortAddress));
        }
        let ip: [u8; 4] = [storage[4], storage[5], storage[6], storage[7]];
        assert(ip@ =~= storage@.subrange(4, 8));
        Ok(SocketAddr::V4 { ip, port: read_be16(storage, 2) })
    } else if family == AF_INET6 {
        if storage.len() < SOCKADDR_IN6_LEN {
            return Err(Error::InvalidInput(InvalidInput::ShortAddress));
        }
        let ip: [u8; 16] = [
            storage[8],
            storage[9],
            storage[10],
            storage[11],
            storage[12],
            storage[13],
            storage[14],
            storage[15],
            storage[16],
            storage[17],
            storage[18],
            storage[19],
            storage[20],
            storage[21],
            storage[22],
            storage[23],
        ];
        assert(ip@ =~= storage@.subrange(8, 24));
        Ok(
            SocketAddr::V6 {
                ip,
                port: read_be16(storage, 2),
                flowinfo: read_le32(storage, 4),
                scope_id: read_le32(storage, 24),
            },
        )
    } else {
        Err(Error::InvalidInput(InvalidInput::UnknownFamily))
    }
}

/// The length of the native structure that holds the address.
pub open spec fn encoded_len(addr: SocketAddrView) -> nat {
    match addr {
        SocketAddrView::V4 { .. } => SOCKADDR_IN_LEN as nat,
        SocketAddrView::V6 { .. } => SOCKADDR_IN6_LEN as nat,
    }
}

/// Appends two bytes, least significant first.
fn write_le16(bytes: &mut Vec<u8>, value: u16)
    ensures
        final(bytes)@ == old(bytes)@.push((value % 0x100) as u8).push((value / 0x100) as u8),
{
    bytes.push((value % 0x100) as u8);
    bytes.push((value / 0x100) as u8);
}

/// Appends two bytes, most significant first.
fn write_be16(bytes: &mut Vec<u8>, value: u16)
    ensures
        final(bytes)@ == old(bytes)@.push((value / 0x100) as u8).push((value % 0x100) as u8),
{
    bytes.push((value / 0x100) as u8);
    bytes.push((value % 0x100) as u8);
}

/// Appends four bytes, least significant first.
fn write_le32(bytes: &mut Vec<u8>, value: u32)
    ensures
        final(bytes)@ == old(bytes)@.push((value % 0x100) as u8).push(
            ((value / 0x100) % 0x100) as u8,
        ).push(((value / 0x1_0000) % 0x100) as u8).push((value / 0x100_0000) as u8),
{
    bytes.push((value % 0x100) as u8);
    bytes.push(((value / 0x100) % 0x100) as u8);
    bytes.push(((value / 0x1_0000) % 0x100) as u8);
    bytes.push((value / 0x100_0000) as u8);
}

/// Appends the bytes of an address, or so many zero bytes.
fn write_bytes(bytes: &mut Vec<u8>, more: &[u8])
    ensures
        final(bytes)@ == old(bytes)@ + more@,
{
    let mut i: usize = 0;
    while i < more.len()
        invariant
            i <= more@.len(),
            bytes@ == old(bytes)@ + more@.subrange(0, i as int),
        decreases more@.len() - i,
    {
        bytes.push(more[i]);
        i += 1;
        assert(more@.subrange(0, i as int) =~= more@.subrange(0, i - 1).push(more@[i - 1]));
    }
    assert(more@.subrange(0, i as int) =~= more@);
}

/// The bytes of the native structure that holds the address: what
/// [`parse`] reads the address back from. The bytes of an IPv4 structure
/// past the address are zero.
pub fn encode(addr: &SocketAddr) -> (bytes: Vec<u8>)
    ensures
        address_in(bytes@) == Ok::<SocketAddrView, InvalidInput>(addr@),
        bytes@.len() == encoded_len(addr@),
        addr@ is V4 ==> forall|i: int| 8 <= i < SOCKADDR_IN_LEN ==> bytes@[i] == 0,
{
    let mut bytes: Vec<u8> = Vec::new();
    match addr {
        SocketAddr::V4 { ip, port } => {
            write_le16(&mut bytes, AF_INET);
            write_be16(&mut bytes, *port);
            write_bytes(&mut bytes, ip.as_slice());
            let zero: [u8; 8] = [0, 0, 0, 0, 0, 0, 0, 0];
            write_bytes(&mut bytes, zero.as_slice());
            assert(bytes@.subrange(4, 8) =~= ip@);
        },
        SocketAddr::V6 { ip, port, flowinfo, scope_id } => {
            write_le16(&mut bytes, AF_INET6);
            write_be16(&mut bytes, *port);
            write_le32(&mut bytes, *flowinfo);
            write_bytes(&mut bytes, ip.as_slice());
            write_le32(&mut bytes, *scope_id);
            assert(bytes@.subrange(8, 24) =~= ip@);
        },
    }
    bytes
}

/// Reads the local address from the storage that the query filled in. `ret`
/// is what the query returned, `errno` the platform's error code if it
/// failed.
pub fn get_localaddr(ret: i32, errno: i32, storage: &[u8]) -> (r: Result<SocketAddr, Error>)
    ensures
        r.is_ok() <==> ret == SUCCESS && address_in(storage@).is_ok(),
        r matches Ok(addr) ==> Ok::<SocketAddrView, InvalidInput>(addr@) == address_in(storage@),
        r matches Err(e) ==> e == if ret != SUCCESS {
            Error::Os(errno)
        } else {
            Error::InvalidInput(address_in(storage@)->Err_0)
        },
{
    if ret != SUCCESS {
        return Err(Error::Os(errno));
    }
    parse(storage)
}

/// The shape of the address follows the family tag: IPv4 for the one tag,
/// IPv6 for the other, and no address for any third.
pub proof fn lemma_family_decides(storage: Seq<u8>)
    requires
        storage.len() >= 2,
    ensures
        address_in(storage) matches Ok(SocketAddrView::V4 { .. }) ==> le16(storage, 0) == AF_INET,
        address_in(storage) matches Ok(SocketAddrView::V6 { .. }) ==> le16(storage, 0) == AF_INET6,
        le16(storage, 0) != AF_INET && le16(storage, 0) != AF_INET6 ==> address_in(storage) == Err::<
            SocketAddrView,
            InvalidInput,
        >(InvalidInput::UnknownFamily),
{
}

/// What lies behind the address structure does not change the address
/// that is read.
pub proof fn lemma_padding_is_ignored(storage: Seq<u8>, longer: Seq<u8>)
    requires
        address_in(storage).is_ok(),
        longer.len() >= storage.len(),
        longer.subrange(0, storage.len() as int) == storage,
    ensures
        address_in(longer) == address_in(storage),
{
    assert forall|i: int| 0 <= i < storage.len() implies longer[i] == storage[i] by {
        assert(longer.subrange(0, storage.len() as int)[i] == longer[i]);
    }
    if le16(storage, 0) == AF_INET {
        assert(longer.subrange(4, 8) =~= storage.subrange(4, 8));
    } else {
        assert(longer.subrange(8, 24) =~= storage.subrange(8, 24));
    }
}

} // verus!
