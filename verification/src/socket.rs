//! Overlapped socket factory: builds the argument block of the
//! socket-creation call with the overlapped flag forced on, and interprets
//! the handle the operating system answers with.

use vstd::prelude::*;

use crate::consts::{INVALID_SOCKET_VALUE, WSA_FLAG_OVERLAPPED};
use crate::errors::SocketCreationFailure;

verus! {

/// An opaque kernel socket handle. A value of this type is never the
/// invalid-socket sentinel; whoever requested it owns it and closes it.
#[derive(Clone, Copy, Debug, PartialEq, Eq, Structural)]
pub struct SocketHandle {
    raw: usize,
}

impl SocketHandle {
    /// The platform-sized integer behind the handle.
    pub closed spec fn spec_raw(&self) -> usize {
        self.raw
    }

    /// Distinguishable from the invalid-socket sentinel.
    pub open spec fn is_valid(&self) -> bool {
        self.spec_raw() != INVALID_SOCKET_VALUE
    }

    /// The raw handle value, for the call that associates it with a
    /// completion port and for whoever closes it.
    pub fn raw(&self) -> (r: usize)
        ensures
            r == self.spec_raw(),
    {
        self.raw
    }
}

/// The argument block of one socket-creation call, ready for the hosting
/// application to issue.
#[derive(Clone, Copy, Debug, PartialEq, Eq, Structural)]
pub struct SocketRequest {
    /// Address family selector.
    pub family: i32,
    /// Socket type selector.
    pub kind: i32,
    /// Protocol number.
    pub protocol: i32,
    /// Socket-group argument; this factory never places a socket in a
    /// group, so it is always zero.
    pub group: u32,
    /// Creation flag bits; the overlapped bit is always among them.
    pub flags: u32,
}

impl SocketRequest {
    /// The overlapped creation flag is set.
    pub open spec fn overlapped_requested(&self) -> bool {
        self.flags & WSA_FLAG_OVERLAPPED != 0
    }
}

/// Builds the creation call for an overlapped socket of the given family,
/// type and protocol. Optional flag bits (multipoint roles, security) are
/// taken as given; the overlapped bit is forced on unconditionally, so
/// every socket this factory asks for can complete its I/O asynchronously.
pub fn build_socket_request(family: i32, kind: i32, protocol: i32, extra_flags: u32) -> (r:
    SocketRequest)
    ensures
        r == (SocketRequest {
            family,
            kind,
            protocol,
            group: 0,
            flags: extra_flags | WSA_FLAG_OVERLAPPED,
        }),
        r.overlapped_requested(),
{
    let flags: u32 = extra_flags | WSA_FLAG_OVERLAPPED;
    proof {
        assert((extra_flags | 0x01u32) & 0x01u32 != 0u32) by (bit_vector);
    }
    SocketRequest { family, kind, protocol, group: 0, flags }
}

/// Interprets the handle the socket-creation call answered with: the
/// invalid-socket sentinel, together with the error code read after the
/// call, means failure; anything else is a valid overlapped socket handle,
/// returned to the caller as its sole owner. Never retries.
pub fn interpret_socket_reply(raw: usize, os_error: i32) -> (r: Result<
    SocketHandle,
    SocketCreationFailure,
>)
    ensures
        (r is Ok) == (raw != INVALID_SOCKET_VALUE),
        r matches Ok(h) ==> h.spec_raw() == raw && h.is_valid(),
        r matches Err(f) ==> f == (SocketCreationFailure { code: os_error }),
{
    if raw == INVALID_SOCKET_VALUE {
        Err(SocketCreationFailure { code: os_error })
    } else {
        Ok(SocketHandle { raw })
    }
}

} // verus!
