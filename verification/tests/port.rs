use iocp_net::queue::{
    Port, PortCall, PortError, Status, WaitReply, INFINITE, INVALID_HANDLE_VALUE, NULL_HANDLE,
    OVERLAPPED,
};

fn context() -> OVERLAPPED {
    OVERLAPPED { Internal: 1, InternalHigh: 2, Offset: 3, OffsetHigh: 4, hEvent: 5 }
}

#[test]
fn new_port_leaves_the_thread_count_to_the_system() {
    assert_eq!(
        Port::new(),
        PortCall::Create {
            file_handle: 0xFFFF_FFFF_FFFF_FFFF,
            existing_port: 0,
            completion_key: 0,
            max_threads: 0,
        }
    );
    assert_eq!(Port::new(), Port::new_capped(0));
}

#[test]
fn capped_port_asks_for_the_given_thread_count() {
    assert_eq!(
        Port::new_capped(4),
        PortCall::Create {
            file_handle: INVALID_HANDLE_VALUE,
            existing_port: NULL_HANDLE,
            completion_key: 0,
            max_threads: 4,
        }
    );
}

#[test]
fn null_handle_is_port_creation_failed() {
    assert_eq!(Port::opened(0).unwrap_err(), PortError::PortCreationFailed);
}

#[test]
fn any_other_handle_is_a_port() {
    let port = Port::opened(77).unwrap();
    assert_eq!(port.close(), PortCall::Close { handle: 77 });
    assert!(Port::opened(INVALID_HANDLE_VALUE).is_ok());
}

#[test]
fn get_status_waits_without_limit() {
    let port = Port::opened(77).unwrap();
    assert_eq!(port.get_status(), PortCall::GetStatus { port: 77, timeout_ms: 0xFFFF_FFFF });
    assert_eq!(INFINITE, 0xFFFF_FFFF);
}

#[test]
fn get_status_timeout_waits_as_long_as_asked() {
    let port = Port::opened(77).unwrap();
    assert_eq!(port.get_status_timeout(10), PortCall::GetStatus { port: 77, timeout_ms: 10 });
    assert_eq!(port.get_status_timeout(0), PortCall::GetStatus { port: 77, timeout_ms: 0 });
}

#[test]
fn timed_out_wait_yields_nothing() {
    let reply = WaitReply { success: 0, byte_count: 0, completion_key: 0, overlapped: None };
    assert_eq!(Port::retrieved(reply), None);
    let reply = WaitReply { success: 0, byte_count: 9, completion_key: 9, overlapped: Some(context()) };
    assert_eq!(Port::retrieved(reply), None);
}

#[test]
fn successful_wait_yields_the_entry() {
    let reply = WaitReply { success: 1, byte_count: 512, completion_key: 42, overlapped: None };
    assert_eq!(
        Port::retrieved(reply),
        Some(Status { byte_count: 512, completion_key: 42, overlapped: None })
    );
    let reply = WaitReply { success: -1, byte_count: 1, completion_key: 2, overlapped: Some(context()) };
    assert_eq!(
        Port::retrieved(reply),
        Some(Status { byte_count: 1, completion_key: 2, overlapped: Some(context()) })
    );
}

#[test]
fn post_carries_the_entry_as_given() {
    let port = Port::opened(5).unwrap();
    let status = Status { byte_count: 128, completion_key: 0xDEAD_BEEF, overlapped: Some(context()) };
    assert_eq!(
        port.post_status(status),
        PortCall::PostStatus {
            port: 5,
            byte_count: 128,
            completion_key: 0xDEAD_BEEF,
            overlapped: Some(context()),
        }
    );
}

#[test]
fn posted_entry_comes_back_from_a_wait() {
    let port = Port::opened(5).unwrap();
    let status = Status { byte_count: 7, completion_key: u64::MAX, overlapped: None };
    let call = port.post_status(status);
    let PortCall::PostStatus { byte_count, completion_key, overlapped, .. } = call else {
        panic!("a post asks for a post");
    };
    assert!(Port::posted(1));
    let back = Port::retrieved(WaitReply { success: 1, byte_count, completion_key, overlapped });
    assert_eq!(back, Some(status));
    assert_eq!(back.unwrap().byte_count, 7);
    assert_eq!(back.unwrap().completion_key, u64::MAX);
}

#[test]
fn post_succeeds_on_nonzero() {
    assert!(Port::posted(1));
    assert!(Port::posted(-1));
    assert!(!Port::posted(0));
}

#[test]
fn close_names_the_ports_own_handle() {
    let port = Port::opened(0x1234).unwrap();
    assert_eq!(port.close(), PortCall::Close { handle: 0x1234 });
}
