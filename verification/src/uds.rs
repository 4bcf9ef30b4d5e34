//! The native address of a Unix-domain socket.
//!
//! The address structure is that of Linux and the platforms that lay it out
//! alike: a 16-bit family tag, then a path buffer of 108 bytes. The codec
//! itself takes the layout as a value and is proved for every layout.
//!
//! A name is either a pathname (its first byte is not zero), an abstract name
//! (its first byte is zero) or empty. The native structure holds a family tag
//! and a zero-filled buffer into which the name is copied; the length that
//! the operating system is told counts the bytes before the buffer, the name,
//! and, for a pathname only, the zero byte that ends it.

use crate::error::{Error, InvalidInput};
use vstd::prelude::*;

verus! {

/// The family tag of Unix-domain sockets.
pub const AF_UNIX: u16 = 1;

/// The size of the native address structure.
pub const SOCKADDR_UN_LEN: usize = 110;

/// The number of bytes in the path buffer of the native structure.
pub const SUN_PATH_LEN: usize = 108;

/// The offset of the path buffer within the native structure.
pub const SUN_PATH_OFFSET: usize = 2;

/// What a [`Layout`] is, as plain numbers.
pub struct LayoutView {
    pub family: u16,
    pub path_offset: nat,
    pub path_capacity: nat,
}

/// The shape of a platform's `sockaddr_un`: the tag that marks the
/// Unix-domain family, the offset at which the path buffer begins, and the
/// number of bytes that the buffer holds.
///
/// The offset and the capacity together fit the 32 bits of a socket length.
#[derive(Clone, Copy, Debug)]
pub struct Layout {
    family: u16,
    path_offset: usize,
    path_capacity: usize,
}

impl View for Layout {
    type V = LayoutView;

    closed spec fn view(&self) -> LayoutView {
        LayoutView {
            family: self.family,
            path_offset: self.path_offset as nat,
            path_capacity: self.path_capacity as nat,
        }
    }
}

/// Reads `libc::AF_UNIX`, narrowed to the width of a family field. Claimed:
/// it is [`AF_UNIX`], as libc has it wherever the address structure is the
/// one that [`native_sizes`] measures.
#[verifier::external_body]
pub(crate) fn native_family() -> (tag: u16)
    ensures
        tag == AF_UNIX,
{
    libc::AF_UNIX as u16
}

/// Measures `libc::sockaddr_un`: the size of the structure, then the length
/// of its `sun_path`. Claimed: [`SOCKADDR_UN_LEN`] and [`SUN_PATH_LEN`]. The
/// body compiles only where the structure is a 16-bit family followed by a
/// buffer of 108 bytes, and such a structure has these sizes.
#[verifier::external_body]
fn native_sizes() -> (sizes: (usize, usize))
    ensures
        sizes == (SOCKADDR_UN_LEN, SUN_PATH_LEN),
{
    let probe = libc::sockaddr_un { sun_family: 0u16, sun_path: [0; 108] };
    (std::mem::size_of_val(&probe), probe.sun_path.len())
}

/// The layout of the native address structure.
pub open spec fn native_layout() -> LayoutView {
    LayoutView {
        family: AF_UNIX,
        path_offset: SUN_PATH_OFFSET as nat,
        path_capacity: SUN_PATH_LEN as nat,
    }
}

impl Layout {
    #[verifier::type_invariant]
    spec fn fits_socklen(self) -> bool {
        self.path_offset + self.path_capacity <= u32::MAX
    }

    /// A layout with the given numbers, unless offset and capacity together
    /// exceed what a socket length can express.
    pub fn new(family: u16, path_offset: usize, path_capacity: usize) -> (r: Option<Layout>)
        ensures
            r.is_some() <==> path_offset + path_capacity <= u32::MAX,
            r matches Some(layout) ==> layout@ == (LayoutView {
                family,
                path_offset: path_offset as nat,
                path_capacity: path_capacity as nat,
            }),
    {
        if path_offset <= u32::MAX as usize && path_capacity <= u32::MAX as usize - path_offset {
            Some(Layout { family, path_offset, path_capacity })
        } else {
            None
        }
    }

    /// The layout of this platform, as libc declares it. The path buffer is
    /// the last field of the structure and an array of bytes, so it begins
    /// where the structure's size less the buffer's size ends.
    pub fn native() -> (layout: Layout)
        ensures
            layout@ == native_layout(),
    {
        let family: u16 = native_family();
        let (size, path_capacity) = native_sizes();
        Layout { family, path_offset: size - path_capacity, path_capacity }
    }

    /// The tag of the Unix-domain family.
    pub fn family(&self) -> (tag: u16)
        ensures
            tag == self@.family,
    {
        self.family
    }

    /// The offset of the path buffer within the structure.
    pub fn path_offset(&self) -> (offset: usize)
        ensures
            offset == self@.path_offset,
    {
        self.path_offset
    }

    /// The number of bytes in the path buffer.
    pub fn path_capacity(&self) -> (capacity: usize)
        ensures
            capacity == self@.path_capacity,
    {
        self.path_capacity
    }
}

/// Whether the name is abstract: it begins with a zero byte.
pub open spec fn is_abstract(name: Seq<u8>) -> bool {
    name.len() > 0 && name[0] == 0
}

/// Whether the name is a pathname: it begins with a byte that is not zero.
pub open spec fn is_pathname(name: Seq<u8>) -> bool {
    name.len() > 0 && name[0] != 0
}

/// Whether a buffer of `capacity` bytes takes the name. A name that fills
/// the buffer is refused, abstract or not.
pub open spec fn fits(name: Seq<u8>, capacity: nat) -> bool {
    name.len() < capacity
}

/// The reason for which a name that does not fit is refused.
pub open spec fn rejection(name: Seq<u8>, capacity: nat) -> InvalidInput {
    if is_abstract(name) && name.len() > capacity {
        InvalidInput::AbstractTooLong
    } else {
        InvalidInput::PathnameTooLong
    }
}

/// The path buffer that holds the name: the name, then zero bytes.
pub open spec fn zero_padded(name: Seq<u8>, capacity: nat) -> Seq<u8> {
    Seq::new(capacity, |i: int| if i < name.len() { name[i] } else { 0u8 })
}

/// The length that the operating system is told: the bytes before the
/// buffer, the name, and one more byte for a pathname's terminator.
pub open spec fn effective_len(path_offset: nat, name: Seq<u8>) -> nat {
    path_offset + name.len() + if is_pathname(name) { 1nat } else { 0nat }
}

/// What a [`SockAddrUn`] is: its layout and the bytes of its path buffer.
pub struct SockAddrUnView {
    pub layout: LayoutView,
    pub path: Seq<u8>,
}

/// The address structure that holds the name under the layout.
pub open spec fn encoded(layout: LayoutView, name: Seq<u8>) -> SockAddrUnView {
    SockAddrUnView { layout, path: zero_padded(name, layout.path_capacity) }
}

/// The name that an address structure holds when the operating system gives
/// `len` as its length: nothing where the length ends at the buffer's start,
/// the bytes up to the terminator for a pathname, all the bytes for an
/// abstract name.
pub open spec fn decoded(addr: SockAddrUnView, len: nat) -> Seq<u8> {
    let content = len - addr.layout.path_offset;
    if content <= 0 {
        Seq::empty()
    } else if addr.path[0] == 0 {
        addr.path.subrange(0, content)
    } else {
        addr.path.subrange(0, content - 1)
    }
}

/// Whether `len` is a length that the operating system can give for the
/// address structure: it ends within the path buffer.
pub open spec fn valid_len(addr: SockAddrUnView, len: nat) -> bool {
    addr.layout.path_offset <= len <= addr.layout.path_offset + addr.path.len()
}

/// A native Unix-domain socket address: a family tag and a path buffer of
/// the layout's capacity.
#[derive(Debug)]
pub struct SockAddrUn {
    layout: Layout,
    path: Vec<u8>,
}

impl View for SockAddrUn {
    type V = SockAddrUnView;

    closed spec fn view(&self) -> SockAddrUnView {
        SockAddrUnView { layout: self.layout@, path: self.path@ }
    }
}

impl SockAddrUn {
    #[verifier::type_invariant]
    spec fn buffer_is_whole(self) -> bool {
        self.path@.len() == self.layout@.path_capacity
    }

    /// The layout under which the address was encoded.
    pub fn layout(&self) -> (layout: Layout)
        ensures
            layout@ == self@.layout,
    {
        self.layout
    }

    /// The family tag.
    pub fn family(&self) -> (tag: u16)
        ensures
            tag == self@.layout.family,
    {
        self.layout.family
    }

    /// The path buffer, as long as the layout's capacity.
    pub fn path(&self) -> (bytes: &[u8])
        ensures
            bytes@ == self@.path,
            bytes@.len() == self@.layout.path_capacity,
    {
        proof {
            use_type_invariant(self);
        }
        self.path.as_slice()
    }

    /// The name that the address holds when its length is `len`, or `None`
    /// where `len` does not end within the path buffer.
    pub fn name(&self, len: u32) -> (r: Option<Vec<u8>>)
        ensures
            r.is_some() <==> valid_len(self@, len as nat),
            r matches Some(name) ==> name@ == decoded(self@, len as nat),
    {
        proof {
            use_type_invariant(self);
            use_type_invariant(&self.layout);
        }
        let len: usize = len as usize;
        let offset: usize = self.layout.path_offset;
        if len < offset || len - offset > self.path.len() {
            return None;
        }
        let content: usize = len - offset;
        let end: usize = if content == 0 || self.path[0] == 0 {
            content
        } else {
            content - 1
        };
        let mut name: Vec<u8> = Vec::with_capacity(end);
        let mut i: usize = 0;
        while i < end
            invariant
                i <= end <= self.path@.len(),
                name@ == self.path@.subrange(0, i as int),
            decreases end - i,
        {
            name.push(self.path[i]);
            i += 1;
        }
        Some(name)
    }
}

/// Encodes the name under the layout: the address structure and the length
/// to hand to the operating system with it. A name that fills or exceeds the
/// path buffer is refused; it is not cut short.
pub fn encode(layout: Layout, name: &[u8]) -> (r: Result<(SockAddrUn, u32), Error>)
    ensures
        r.is_ok() <==> fits(name@, layout@.path_capacity),
        r matches Ok((addr, len)) ==> addr@ == encoded(layout@, name@) && len == effective_len(
            layout@.path_offset,
            name@,
        ),
        r matches Err(e) ==> e == Error::InvalidInput(rejection(name@, layout@.path_capacity)),
{
    proof {
        use_type_invariant(&layout);
    }
    let n: usize = name.len();
    let capacity: usize = layout.path_capacity;
    let starts_with_zero: bool = n > 0 && name[0] == 0;
    if starts_with_zero && n > capacity {
        return Err(Error::InvalidInput(InvalidInput::AbstractTooLong));
    }
    if n >= capacity {
        return Err(Error::InvalidInput(InvalidInput::PathnameTooLong));
    }
    let mut path: Vec<u8> = Vec::with_capacity(capacity);
    let mut i: usize = 0;
    while i < capacity
        invariant
            i <= capacity,
            n == name@.len(),
            path@ == zero_padded(name@, i as nat),
        decreases capacity - i,
    {
        path.push(if i < n { name[i] } else { 0 });
        i += 1;
    }
    let terminator: usize = if n > 0 && !starts_with_zero { 1 } else { 0 };
    let len: usize = layout.path_offset + n + terminator;
    Ok((SockAddrUn { layout, path }, len as u32))
}

/// Encodes the name under the native layout: names of up to 107 bytes are
/// encoded, longer ones refused.
pub fn socket_addr(path: &[u8]) -> (r: Result<(SockAddrUn, u32), Error>)
    ensures
        r.is_ok() <==> path@.len() < SUN_PATH_LEN,
        r matches Ok((addr, len)) ==> addr@ == encoded(native_layout(), path@) && len
            == effective_len(SUN_PATH_OFFSET as nat, path@),
        r matches Err(e) ==> e == Error::InvalidInput(rejection(path@, SUN_PATH_LEN as nat)),
{
    let layout = Layout::native();
    encode(layout, path)
}

/// The offset of the path buffer within the address structure.
pub fn path_offset(sockaddr: &SockAddrUn) -> (offset: usize)
    ensures
        offset == sockaddr@.layout.path_offset,
{
    sockaddr.layout.path_offset
}

/// Decoding undoes encoding: the name read back from an encoded address,
/// under the length that came with it, is the name that went in.
pub proof fn lemma_decode_encode(layout: LayoutView, name: Seq<u8>)
    requires
        fits(name, layout.path_capacity),
    ensures
        valid_len(encoded(layout, name), effective_len(layout.path_offset, name)),
        decoded(encoded(layout, name), effective_len(layout.path_offset, name)) == name,
{
    let addr = encoded(layout, name);
    let len = effective_len(layout.path_offset, name);
    assert(decoded(addr, len) =~= name);
}

/// The bytes of an encoded address past the name are zero, the terminator of
/// a pathname among them.
pub proof fn lemma_encoded_tail_is_zero(layout: LayoutView, name: Seq<u8>, i: int)
    requires
        name.len() <= i < layout.path_capacity,
    ensures
        encoded(layout, name).path[i] == 0,
{
}

/// The effective length counts a terminator for a pathname, and for nothing
/// else.
pub proof fn lemma_effective_len(path_offset: nat, name: Seq<u8>)
    ensures
        is_pathname(name) ==> effective_len(path_offset, name) == path_offset + name.len() + 1,
        !is_pathname(name) ==> effective_len(path_offset, name) == path_offset + name.len(),
{
}

} // verus!
