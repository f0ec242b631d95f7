use iocp_net::socket::{
    in_addr, sockaddr_in, IpAddrV4, ListenerSetup, SetupState, SocketAddr, SocketAddrV4,
    SocketCall, SocketError, SocketReply, TcpListener, TcpStream, INVALID_SOCKET, SOMAXCONN,
};

fn any_addr(port: u16) -> SocketAddr {
    SocketAddr::V4(SocketAddrV4::new(IpAddrV4::new_from_octets(0, 0, 0, 0), port))
}

fn listening(socket: u64) -> TcpListener {
    let setup = TcpListener::new(any_addr(12345))
        .advance(SocketReply::Handle(socket))
        .advance(SocketReply::Code(0))
        .advance(SocketReply::Code(0));
    setup.finish().unwrap().unwrap()
}

fn drive(mut setup: ListenerSetup, replies: &[SocketReply]) -> (Vec<SocketCall>, ListenerSetup) {
    let mut calls = Vec::new();
    for reply in replies {
        match setup.pending() {
            Some(call) => calls.push(call),
            None => break,
        }
        setup = setup.advance(*reply);
    }
    (calls, setup)
}

#[test]
fn setup_starts_by_asking_for_a_tcp_socket() {
    let setup = TcpListener::new(any_addr(12345));
    assert_eq!(setup.state(), SetupState::Creating { addr: any_addr(12345) });
    assert_eq!(
        setup.pending(),
        Some(SocketCall::Socket { af: 2, socktype: 1, protocol: 6 })
    );
    assert!(setup.finish().is_none());
}

#[test]
fn setup_binds_then_listens_then_is_ready() {
    let replies = [SocketReply::Handle(44), SocketReply::Code(0), SocketReply::Code(0)];
    let (calls, setup) = drive(TcpListener::new(any_addr(12345)), &replies);
    assert_eq!(
        calls,
        vec![
            SocketCall::Socket { af: 2, socktype: 1, protocol: 6 },
            SocketCall::Bind {
                socket: 44,
                name: sockaddr_in {
                    sin_family: 2,
                    sin_port: 14640,
                    sin_addr: in_addr { s_b1: 0, s_b2: 0, s_b3: 0, s_b4: 0 },
                    sa_zero: [0; 8],
                },
                namelen: 16,
            },
            SocketCall::Listen { socket: 44, backlog: 0x7fff_ffff },
        ]
    );
    assert_eq!(SOMAXCONN, 0x7fff_ffff);
    assert_eq!(setup.state(), SetupState::Ready { socket: 44 });
    assert_eq!(setup.pending(), None);
    let listener = setup.finish().unwrap().unwrap();
    assert_eq!(listener.accept(), SocketCall::Accept { socket: 44 });
}

#[test]
fn no_socket_means_handle_creation_failed() {
    let (calls, setup) = drive(TcpListener::new(any_addr(80)), &[SocketReply::Handle(INVALID_SOCKET)]);
    assert_eq!(calls.len(), 1);
    assert_eq!(setup.pending(), None);
    assert!(matches!(setup.finish(), Some(Err(SocketError::HandleCreationFailed))));
}

#[test]
fn failed_bind_closes_the_socket_before_reporting() {
    let setup = TcpListener::new(any_addr(80))
        .advance(SocketReply::Handle(7))
        .advance(SocketReply::Code(-1));
    assert_eq!(
        setup.state(),
        SetupState::Abandoning { socket: 7, error: SocketError::BindFailed }
    );
    assert_eq!(setup.pending(), Some(SocketCall::CloseSocket { socket: 7 }));
    let setup = setup.advance(SocketReply::Code(0));
    assert_eq!(setup.pending(), None);
    assert!(matches!(setup.finish(), Some(Err(SocketError::BindFailed))));
}

#[test]
fn failed_listen_closes_the_socket_before_reporting() {
    let replies = [
        SocketReply::Handle(9),
        SocketReply::Code(0),
        SocketReply::Code(-1),
        SocketReply::Code(0),
    ];
    let (calls, setup) = drive(TcpListener::new(any_addr(80)), &replies);
    assert_eq!(calls.len(), 4);
    assert_eq!(calls[2], SocketCall::Listen { socket: 9, backlog: SOMAXCONN });
    assert_eq!(calls[3], SocketCall::CloseSocket { socket: 9 });
    assert!(matches!(setup.finish(), Some(Err(SocketError::ListenFailed))));
}

#[test]
fn failure_is_not_reported_while_the_close_is_pending() {
    let setup = TcpListener::new(any_addr(80))
        .advance(SocketReply::Handle(7))
        .advance(SocketReply::Code(10048));
    assert!(setup.finish().is_none());
}

#[test]
fn failed_close_does_not_hide_the_bind_failure() {
    let setup = TcpListener::new(any_addr(80))
        .advance(SocketReply::Handle(7))
        .advance(SocketReply::Code(-1))
        .advance(SocketReply::Code(-1));
    assert!(matches!(setup.finish(), Some(Err(SocketError::BindFailed))));
}

#[test]
fn second_bind_to_a_taken_address_fails_and_leaves_the_first_alone() {
    let first = listening(100);
    let second = TcpListener::new(any_addr(12345))
        .advance(SocketReply::Handle(101))
        .advance(SocketReply::Code(-1));
    assert_eq!(second.pending(), Some(SocketCall::CloseSocket { socket: 101 }));
    let second = second.advance(SocketReply::Code(0));
    assert!(matches!(second.finish(), Some(Err(SocketError::BindFailed))));
    assert_eq!(first.accept(), SocketCall::Accept { socket: 100 });
}

#[test]
fn stray_reply_changes_nothing() {
    let setup = TcpListener::new(any_addr(80)).advance(SocketReply::Code(0));
    assert_eq!(setup.state(), SetupState::Creating { addr: any_addr(80) });
    let setup = setup.advance(SocketReply::Handle(5)).advance(SocketReply::Handle(6));
    assert_eq!(setup.state(), SetupState::Binding { socket: 5, addr: any_addr(80) });
}

#[test]
fn finished_setup_ignores_further_replies() {
    let setup = TcpListener::new(any_addr(80))
        .advance(SocketReply::Handle(INVALID_SOCKET))
        .advance(SocketReply::Handle(3))
        .advance(SocketReply::Code(0));
    assert_eq!(
        setup.state(),
        SetupState::Failed { error: SocketError::HandleCreationFailed }
    );
    let done = TcpListener::new(any_addr(80))
        .advance(SocketReply::Handle(3))
        .advance(SocketReply::Code(0))
        .advance(SocketReply::Code(0))
        .advance(SocketReply::Code(-1));
    assert_eq!(done.state(), SetupState::Ready { socket: 3 });
}

#[test]
fn accept_can_be_asked_again_and_again() {
    let listener = listening(21);
    assert_eq!(listener.accept(), SocketCall::Accept { socket: 21 });
    assert_eq!(listener.accept(), SocketCall::Accept { socket: 21 });
}

#[test]
fn accepted_socket_becomes_a_stream_of_its_own() {
    let stream = TcpListener::accepted(22).unwrap();
    assert_eq!(stream.read(1024), SocketCall::Recv { socket: 22, len: 1024, flags: 0 });
    assert_eq!(stream.write(79), SocketCall::Send { socket: 22, len: 79, flags: 0 });
    assert_eq!(stream.close(), SocketCall::CloseSocket { socket: 22 });
}

#[test]
fn invalid_socket_from_accept_is_no_stream() {
    assert!(TcpListener::accepted(INVALID_SOCKET).is_none());
    assert!(TcpListener::accepted(0).is_some());
    assert!(TcpListener::accepted(INVALID_SOCKET - 1).is_some());
}

#[test]
fn closing_the_listener_leaves_the_stream_as_it_was() {
    let listener = listening(30);
    let stream = TcpListener::accepted(31).unwrap();
    let before = (stream.read(16), stream.write(16));
    assert_eq!(listener.close(), SocketCall::CloseSocket { socket: 30 });
    assert_eq!((stream.read(16), stream.write(16)), before);
    assert_eq!(stream.close(), SocketCall::CloseSocket { socket: 31 });
}

#[test]
fn transfer_count_is_the_number_of_bytes() {
    assert_eq!(TcpStream::transferred(5), Some(5));
    assert_eq!(TcpStream::transferred(1024), Some(1024));
    assert_eq!(TcpStream::transferred(i32::MAX), Some(0x7fff_ffff));
}

#[test]
fn zero_bytes_is_end_of_stream_not_failure() {
    assert_eq!(TcpStream::transferred(0), Some(0));
}

#[test]
fn negative_count_is_failure() {
    assert_eq!(TcpStream::transferred(-1), None);
    assert_eq!(TcpStream::transferred(i32::MIN), None);
}

#[test]
fn short_write_leaves_the_rest_to_a_second_write() {
    let stream = TcpListener::accepted(8).unwrap();
    assert_eq!(stream.write(100), SocketCall::Send { socket: 8, len: 100, flags: 0 });
    let sent = TcpStream::transferred(60).unwrap();
    assert_eq!(sent, 60);
    assert_eq!(stream.write(100 - sent), SocketCall::Send { socket: 8, len: 40, flags: 0 });
    assert_eq!(TcpStream::transferred(40), Some(40));
}

#[test]
fn buffer_length_is_cut_to_thirty_two_bits() {
    let stream = TcpListener::accepted(8).unwrap();
    assert_eq!(stream.read(0), SocketCall::Recv { socket: 8, len: 0, flags: 0 });
    assert_eq!(
        stream.read(0x7fff_ffff),
        SocketCall::Recv { socket: 8, len: i32::MAX, flags: 0 }
    );
    assert_eq!(
        stream.write(0x8000_0000),
        SocketCall::Send { socket: 8, len: i32::MIN, flags: 0 }
    );
    assert_eq!(
        stream.write(0x1_0000_0005),
        SocketCall::Send { socket: 8, len: 5, flags: 0 }
    );
}
