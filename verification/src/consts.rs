//! Numeric vocabulary shared by the provider, the socket factory and the
//! completion-port gateway: address families, socket types, protocol
//! numbers, socket-creation flag bits and the sentinel handle values of the
//! target platform.

use vstd::prelude::*;

verus! {

/// IPv4 address family selector.
pub const AF_INET: i32 = 2;

/// IPv6 address family selector.
pub const AF_INET6: i32 = 23;

/// Stream socket type selector.
pub const SOCK_STREAM: i32 = 1;

/// Datagram socket type selector.
pub const SOCK_DGRAM: i32 = 2;

/// Protocol number of TCP.
pub const IPPROTO_TCP: i32 = 6;

/// Protocol number of UDP.
pub const IPPROTO_UDP: i32 = 17;

/// Socket-creation flag: the socket supports overlapped (asynchronous) I/O.
/// The overlapped socket factory sets this bit unconditionally.
pub const WSA_FLAG_OVERLAPPED: u32 = 0x01;

/// Socket-creation flag: control-plane root of a multipoint session.
pub const WSA_FLAG_MULTIPOINT_C_ROOT: u32 = 0x02;

/// Socket-creation flag: control-plane leaf of a multipoint session.
pub const WSA_FLAG_MULTIPOINT_C_LEAF: u32 = 0x04;

/// Socket-creation flag: data-plane root of a multipoint session.
pub const WSA_FLAG_MULTIPOINT_D_ROOT: u32 = 0x08;

/// Socket-creation flag: data-plane leaf of a multipoint session.
pub const WSA_FLAG_MULTIPOINT_D_LEAF: u32 = 0x10;

/// Socket-creation flag: the caller asks for system-security access rights.
pub const WSA_FLAG_ACCESS_SYSTEM_SECURITY: u32 = 0x40;

/// Sentinel returned by the socket-creation call when no socket was created.
/// A valid `SocketHandle` is never equal to it.
pub const INVALID_SOCKET_VALUE: usize = usize::MAX;

/// Sentinel file-handle value. Passing it as the file handle of the
/// completion-port call asks for a brand-new port instead of an association.
pub const INVALID_FILE_HANDLE_VALUE: usize = usize::MAX;

/// The null handle. As an argument of the completion-port call it means "no
/// existing port"; as its reply it means the call failed.
pub const NULL_HANDLE_VALUE: usize = 0;

/// Provider version requested at initialization: major 2, minor 2, packed
/// with the major version in the low byte.
pub const WINSOCK_VERSION_2_2: u16 = 0x202;

/// Length of the provider-description string in a negotiation record, not
/// counting its trailing zero byte.
pub const WSADESCRIPTION_LEN: usize = 256;

/// Length of the system-status string in a negotiation record, not counting
/// its trailing zero byte.
pub const WSASYS_STATUS_LEN: usize = 128;

} // verus!
