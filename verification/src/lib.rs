//! Socket primitives beneath an event-driven networking layer: the encoding
//! of Unix-domain socket addresses, the plan by which a connected socket
//! pair is made non-blocking and close-on-exec, the life cycle of a TCP
//! socket, and the native encodings of its options.
//!
//! Nothing here touches a socket. Every function maps plain values to plain
//! values; the caller performs the system calls and reports what they gave.

pub mod error;
pub mod localaddr;
pub mod pair;
pub mod sockopt;
pub mod tcp;
pub mod time;
pub mod uds;
