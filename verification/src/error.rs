//! The errors that the socket primitives report.

use vstd::prelude::*;

verus! {

/// Why a value supplied by the caller was refused.
#[derive(Clone, Copy, Debug, PartialEq, Eq, Structural)]
pub enum InvalidInput {
    /// An abstract name is longer than the path buffer.
    AbstractTooLong,
    /// A name leaves no room in the path buffer for its terminator.
    PathnameTooLong,
    /// A socket address carries a family tag that is neither IPv4 nor IPv6.
    UnknownFamily,
    /// A socket address is shorter than its family's structure.
    ShortAddress,
}

/// An error of the socket layer.
#[derive(Clone, Copy, Debug, PartialEq, Eq, Structural)]
pub enum Error {
    /// The caller's input does not fit the native structure.
    InvalidInput(InvalidInput),
    /// A native call failed with this platform error code.
    Os(i32),
}

/// The error code of an operation that would block.
pub const WSAEWOULDBLOCK: i32 = 10035;

/// The kinds of error that callers tell apart.
#[derive(Clone, Copy, Debug, PartialEq, Eq, Structural)]
pub enum ErrorKind {
    /// The caller's input does not fit the native structure.
    InvalidInput,
    /// The operation would block. Only a connect treats it as progress.
    WouldBlock,
    /// Any other failure of a native call.
    Os,
}

impl InvalidInput {
    /// The words that describe the refusal.
    pub open spec fn message_of(self) -> Seq<char> {
        match self {
            InvalidInput::AbstractTooLong => "address too long for abstract namespace"@,
            InvalidInput::PathnameTooLong => "address too long for pathname namespace"@,
            InvalidInput::UnknownFamily => "address family is neither IPv4 nor IPv6"@,
            InvalidInput::ShortAddress => "address is shorter than its family's structure"@,
        }
    }

    /// The words that describe the refusal.
    pub fn message(&self) -> (text: &'static str)
        ensures
            text@ == self.message_of(),
    {
        match self {
            InvalidInput::AbstractTooLong => "address too long for abstract namespace",
            InvalidInput::PathnameTooLong => "address too long for pathname namespace",
            InvalidInput::UnknownFamily => "address family is neither IPv4 nor IPv6",
            InvalidInput::ShortAddress => "address is shorter than its family's structure",
        }
    }
}

impl Error {
    /// The kind of the error.
    pub open spec fn kind_of(self) -> ErrorKind {
        match self {
            Error::InvalidInput(_) => ErrorKind::InvalidInput,
            Error::Os(code) => if code == WSAEWOULDBLOCK {
                ErrorKind::WouldBlock
            } else {
                ErrorKind::Os
            },
        }
    }

    /// The kind of the error.
    pub fn kind(&self) -> (kind: ErrorKind)
        ensures
            kind == self.kind_of(),
    {
        match self {
            Error::InvalidInput(_) => ErrorKind::InvalidInput,
            Error::Os(code) => if *code == WSAEWOULDBLOCK {
                ErrorKind::WouldBlock
            } else {
                ErrorKind::Os
            },
        }
    }

    /// The platform's error code, for an error that carries one.
    pub fn raw_os_error(&self) -> (code: Option<i32>)
        ensures
            code == match *self {
                Error::Os(c) => Some(c),
                Error::InvalidInput(_) => None,
            },
    {
        match self {
            Error::Os(code) => Some(*code),
            Error::InvalidInput(_) => None,
        }
    }
}

/// What a native call returns when it succeeds.
pub const SUCCESS: i32 = 0;

/// The result of a native call that returned `ret`, `errno` being the
/// platform's error code if it failed.
pub open spec fn status_of(ret: i32, errno: i32) -> Result<(), Error> {
    if ret == SUCCESS {
        Ok(())
    } else {
        Err(Error::Os(errno))
    }
}

/// Maps what a native call returned to a result: zero is success, anything
/// else the platform's error.
pub fn status(ret: i32, errno: i32) -> (r: Result<(), Error>)
    ensures
        r == status_of(ret, errno),
{
    if ret == SUCCESS {
        Ok(())
    } else {
        Err(Error::Os(errno))
    }
}

} // verus!
