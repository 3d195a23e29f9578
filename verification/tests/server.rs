use blocknet::{
    announcement, decode, encode, AcceptAction, AcceptOutcome, Connection, ConnectionAction,
    ConnectionPolicy, ConnectionState, LagPolicy, Message, MessageType, NetError, Server,
    ServerConfig, DEFAULT_CAPACITY,
};

fn connect(server: &mut Server) -> Connection {
    match server.accept(AcceptOutcome::Connected) {
        AcceptAction::Spawn(mut connection) => {
            assert_eq!(connection.state(), ConnectionState::Accepted);
            connection.activate();
            connection
        }
        AcceptAction::Continue(e) => panic!("a peer that connected was passed over: {:?}", e),
    }
}

fn written(connection: &mut Connection, server: &Server) -> Vec<Vec<u8>> {
    let mut frames = Vec::new();
    loop {
        match connection.forward(server.channel()) {
            ConnectionAction::Write(frame) => frames.push(frame),
            ConnectionAction::Idle => return frames,
            other => panic!("unexpected action: {:?}", other),
        }
    }
}

#[test]
fn listen_port() {
    assert_eq!(Server::LISTEN_PORT, 1337);
}

#[test]
fn default_configuration() {
    let config = ServerConfig::default();
    assert_eq!(config.capacity, DEFAULT_CAPACITY);
    assert!(config.announce);
    assert_eq!(config.policy, ConnectionPolicy::default());
    let server = Server::new();
    assert_eq!(server.config(), config);
    assert_eq!(server.channel().capacity(), 16);
    assert_eq!(server.channel().published(), 0);
}

#[test]
fn the_announcement() {
    let message = announcement();
    assert_eq!(message.header.message_type, MessageType::PostBlockchain);
    assert_eq!(message.header.message_size, 12);
    assert_eq!(message.body, vec![1u8; 12]);
}

#[test]
fn a_failed_accept_is_passed_over() {
    let mut server = Server::new();
    match server.accept(AcceptOutcome::Failed) {
        AcceptAction::Continue(e) => assert_eq!(e, NetError::AcceptFailure),
        AcceptAction::Spawn(_) => panic!("a connection was made of a failed accept"),
    }
    assert_eq!(server.channel().published(), 0);
    let mut peer = connect(&mut server);
    assert_eq!(written(&mut peer, &server), vec![encode(&announcement())]);
}

#[test]
fn end_to_end() {
    let mut server = Server::new();

    let mut a = connect(&mut server);
    let first = written(&mut a, &server);
    assert_eq!(first.len(), 1);
    let greeting = decode(&first[0], u32::MAX).unwrap();
    assert_eq!(greeting.header.message_type, MessageType::PostBlockchain);
    assert_eq!(greeting.header.message_size, 12);
    assert_eq!(greeting.body, vec![1u8; 12]);

    let mut b = connect(&mut server);
    let update = Message::new(MessageType::ReturnBlockchain, vec![4, 5, 6]).unwrap();
    server.broadcast(update.clone());

    let to_a = written(&mut a, &server);
    let to_b = written(&mut b, &server);
    assert_eq!(to_a, vec![encode(&announcement()), encode(&update)]);
    assert_eq!(to_b, to_a);
    assert_eq!(decode(&to_b[1], u32::MAX), Ok(update));
}

#[test]
fn a_quiet_server_does_not_announce() {
    let config = ServerConfig {
        capacity: 2,
        announce: false,
        policy: ConnectionPolicy {
            max_body_size: 64,
            decode_tolerance: 1,
            on_lag: LagPolicy::Disconnect,
        },
    };
    let mut server = Server::with_config(config);
    assert_eq!(server.config(), config);
    let mut peer = connect(&mut server);
    assert_eq!(server.channel().published(), 0);
    assert!(written(&mut peer, &server).is_empty());

    for number in 0..3u8 {
        server.broadcast(Message::new(MessageType::PostBlockchain, vec![number]).unwrap());
    }
    assert_eq!(
        peer.forward(server.channel()),
        ConnectionAction::Close(Some(NetError::LaggedSubscriber(1)))
    );
}

#[test]
fn the_connection_reads_with_the_policy_of_the_server() {
    let config = ServerConfig {
        capacity: 2,
        announce: false,
        policy: ConnectionPolicy {
            max_body_size: 2,
            decode_tolerance: 0,
            on_lag: LagPolicy::Resynchronise,
        },
    };
    let mut server = Server::with_config(config);
    let mut peer = connect(&mut server);
    let frame = encode(&Message::new(MessageType::DenyRFS, vec![1, 2, 3]).unwrap());
    assert_eq!(
        peer.receive(&frame[..40]),
        ConnectionAction::Close(Some(NetError::OversizedBody))
    );
}
