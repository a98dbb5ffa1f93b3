use iocp_bootstrap::consts::{
    AF_INET, AF_INET6, INVALID_FILE_HANDLE_VALUE, INVALID_SOCKET_VALUE, IPPROTO_TCP, IPPROTO_UDP,
    NULL_HANDLE_VALUE, SOCK_DGRAM, SOCK_STREAM, WSADESCRIPTION_LEN, WSASYS_STATUS_LEN,
    WSA_FLAG_ACCESS_SYSTEM_SECURITY, WSA_FLAG_MULTIPOINT_C_ROOT, WSA_FLAG_OVERLAPPED,
};
use iocp_bootstrap::errors::{CompletionPortFailure, ProviderStartFailure, SocketCreationFailure};
use iocp_bootstrap::port::{CompletionGateway, CompletionPortHandle, PortCall};
use iocp_bootstrap::provider::{Provider, ProviderAction, ProviderState, VersionNegotiationRecord};
use iocp_bootstrap::socket::{build_socket_request, interpret_socket_reply, SocketHandle};

fn start_initialized() -> Provider {
    let mut provider = Provider::new();
    match provider.ensure_initialized() {
        ProviderAction::StartProvider { requested_version } => {
            assert_eq!(requested_version, 0x202);
        }
        other => panic!("first caller was handed {:?}", other),
    }
    let record = VersionNegotiationRecord::zero_filled();
    provider
        .complete_initialization(0, record)
        .expect("a zero status is success");
    provider
}

fn make_port(gateway: &mut CompletionGateway, raw: usize) -> CompletionPortHandle {
    gateway
        .create_or_associate_call(0, None, 0, 0)
        .expect("a creation call is never refused");
    gateway
        .create_or_associate_result(0, None, 0, raw, 0)
        .expect("a non-null reply is a port")
}

#[test]
fn first_caller_is_told_to_start() {
    let mut provider = Provider::new();
    assert_eq!(provider.state(), ProviderState::Uninitialized);
    let action = provider.ensure_initialized();
    assert_eq!(
        action,
        ProviderAction::StartProvider {
            requested_version: 0x202
        }
    );
    assert_eq!(provider.state(), ProviderState::Starting);
}

#[test]
fn second_caller_waits_while_starting() {
    let mut provider = Provider::new();
    provider.ensure_initialized();
    assert_eq!(provider.ensure_initialized(), ProviderAction::Wait);
    assert_eq!(provider.ensure_initialized(), ProviderAction::Wait);
    assert_eq!(provider.state(), ProviderState::Starting);
}

#[test]
fn repeated_calls_after_success_never_start_again() {
    let mut provider = start_initialized();
    assert_eq!(provider.state(), ProviderState::Initialized);
    for _ in 0..1000 {
        assert_eq!(provider.ensure_initialized(), ProviderAction::Proceed);
        assert_eq!(provider.state(), ProviderState::Initialized);
    }
}

#[test]
fn failed_start_is_fatal() {
    let mut provider = Provider::new();
    provider.ensure_initialized();
    let record = VersionNegotiationRecord::zero_filled();
    let outcome = provider.complete_initialization(10092, record);
    assert_eq!(outcome, Err(ProviderStartFailure { status: 10092 }));
    assert_eq!(provider.state(), ProviderState::Fatal);
    assert_eq!(provider.ensure_initialized(), ProviderAction::Refuse);
    assert!(provider.negotiated().is_none());
}

#[test]
fn successful_start_keeps_the_record() {
    let mut provider = Provider::new();
    provider.ensure_initialized();
    let mut record = VersionNegotiationRecord::zero_filled();
    record.version = 0x202;
    record.high_version = 0x202;
    let outcome = provider.complete_initialization(0, record);
    assert_eq!(outcome, Ok(()));
    let kept = provider.negotiated().as_ref().expect("record is kept");
    assert_eq!(kept.version, 0x202);
    assert_eq!(kept.high_version, 0x202);
}

#[test]
fn zero_filled_record_is_all_zero() {
    let record = VersionNegotiationRecord::zero_filled();
    assert_eq!(record.version, 0);
    assert_eq!(record.high_version, 0);
    assert_eq!(record.max_sockets, 0);
    assert_eq!(record.max_udp_datagram, 0);
    assert_eq!(record.description.len(), WSADESCRIPTION_LEN + 1);
    assert_eq!(record.system_status.len(), WSASYS_STATUS_LEN + 1);
    assert!(record.description.iter().all(|b| *b == 0));
    assert!(record.system_status.iter().all(|b| *b == 0));
}

#[test]
fn socket_request_always_has_the_overlapped_flag() {
    let request = build_socket_request(AF_INET, SOCK_STREAM, IPPROTO_TCP, 0);
    assert_eq!(request.family, AF_INET);
    assert_eq!(request.kind, SOCK_STREAM);
    assert_eq!(request.protocol, IPPROTO_TCP);
    assert_eq!(request.group, 0);
    assert_eq!(request.flags, WSA_FLAG_OVERLAPPED);
}

#[test]
fn extra_socket_flags_are_kept_beside_overlapped() {
    let extra = WSA_FLAG_MULTIPOINT_C_ROOT | WSA_FLAG_ACCESS_SYSTEM_SECURITY;
    let request = build_socket_request(AF_INET, SOCK_STREAM, IPPROTO_TCP, extra);
    assert_eq!(request.flags, 0x43);
    assert_ne!(request.flags & WSA_FLAG_OVERLAPPED, 0);
}

#[test]
fn datagram_requests_carry_their_selectors_through() {
    let request = build_socket_request(AF_INET6, SOCK_DGRAM, IPPROTO_UDP, 0);
    assert_eq!(request.family, 23);
    assert_eq!(request.kind, 2);
    assert_eq!(request.protocol, 17);
    assert_eq!(request.flags, WSA_FLAG_OVERLAPPED);
}

#[test]
fn a_socket_reply_off_the_sentinel_is_a_valid_handle() {
    let handle = interpret_socket_reply(300, 0).expect("not the sentinel");
    assert_eq!(handle.raw(), 300);
    assert_ne!(handle.raw(), INVALID_SOCKET_VALUE);
}

#[test]
fn the_sentinel_socket_reply_is_a_failure() {
    let reply: Result<SocketHandle, SocketCreationFailure> =
        interpret_socket_reply(INVALID_SOCKET_VALUE, 10047);
    assert_eq!(reply, Err(SocketCreationFailure { code: 10047 }));
}

#[test]
fn a_creation_call_asks_for_a_fresh_port() {
    let gateway = CompletionGateway::new();
    let call = gateway
        .create_or_associate_call(12, None, 7, 4)
        .expect("creation is never refused");
    assert_eq!(
        call,
        PortCall {
            file_handle: INVALID_FILE_HANDLE_VALUE,
            existing_port: NULL_HANDLE_VALUE,
            completion_key: 7,
            concurrency_hint: 4,
        }
    );
}

#[test]
fn a_null_creation_reply_is_a_failure() {
    let mut gateway = CompletionGateway::new();
    let reply = gateway.create_or_associate_result(0, None, 0, NULL_HANDLE_VALUE, 87);
    assert_eq!(reply, Err(CompletionPortFailure::Os { code: 87 }));
}

#[test]
fn association_returns_the_same_port_handle() {
    let mut gateway = CompletionGateway::new();
    let port = make_port(&mut gateway, 5);
    assert_eq!(port.raw(), 5);
    let call = gateway
        .create_or_associate_call(31, Some(&port), 42, 0)
        .expect("a new handle may be associated");
    assert_eq!(call.file_handle, 31);
    assert_eq!(call.existing_port, 5);
    assert_eq!(call.completion_key, 42);
    let returned = gateway
        .create_or_associate_result(31, Some(&port), 42, 5, 0)
        .expect("a non-null reply completes the association");
    assert_eq!(returned, port);

    let second = gateway
        .create_or_associate_call(77, Some(&port), 43, 0)
        .expect("a second, different handle associates too");
    assert_eq!(second.file_handle, 77);
    let returned_again = gateway
        .create_or_associate_result(77, Some(&port), 43, 5, 0)
        .expect("a non-null reply completes the association");
    assert_eq!(returned_again, port);
}

#[test]
fn reassociating_a_handle_is_refused() {
    let mut gateway = CompletionGateway::new();
    let port = make_port(&mut gateway, 5);
    gateway
        .create_or_associate_call(31, Some(&port), 42, 0)
        .expect("first association is allowed");
    gateway
        .create_or_associate_result(31, Some(&port), 42, 5, 0)
        .expect("first association completes");
    let refused = gateway.create_or_associate_call(31, Some(&port), 99, 0);
    assert_eq!(
        refused,
        Err(CompletionPortFailure::AlreadyAssociated {
            handle: 31,
            existing_key: 42,
        })
    );
    assert_eq!(gateway.key_for(31), Some(42));
}

#[test]
fn a_failed_association_records_nothing() {
    let mut gateway = CompletionGateway::new();
    let port = make_port(&mut gateway, 5);
    gateway
        .create_or_associate_call(31, Some(&port), 42, 0)
        .expect("the call may be issued");
    let reply = gateway.create_or_associate_result(31, Some(&port), 42, NULL_HANDLE_VALUE, 6);
    assert_eq!(reply, Err(CompletionPortFailure::Os { code: 6 }));
    assert_eq!(gateway.key_for(31), None);
    gateway
        .create_or_associate_call(31, Some(&port), 42, 0)
        .expect("the handle may be offered again");
}

#[test]
fn end_to_end_bootstrap() {
    let mut provider = start_initialized();
    assert_eq!(provider.ensure_initialized(), ProviderAction::Proceed);

    let request = build_socket_request(AF_INET, SOCK_STREAM, IPPROTO_TCP, 0);
    assert_ne!(request.flags & WSA_FLAG_OVERLAPPED, 0);
    let socket = interpret_socket_reply(300, 0).expect("socket creation succeeded");
    assert_ne!(socket.raw(), INVALID_SOCKET_VALUE);

    let mut gateway = CompletionGateway::new();
    let port = make_port(&mut gateway, 5);
    assert_ne!(port.raw(), NULL_HANDLE_VALUE);

    gateway
        .create_or_associate_call(socket.raw(), Some(&port), 42, 0)
        .expect("the socket was never associated before");
    let returned = gateway
        .create_or_associate_result(socket.raw(), Some(&port), 42, port.raw(), 0)
        .expect("association succeeded");
    assert_eq!(returned, port);
    assert_eq!(gateway.key_for(socket.raw()), Some(42));
}
