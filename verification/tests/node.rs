use p2p_file::codec::{FileRequest, FileResponse};
use p2p_file::node::Node;
use p2p_file::peer::{Multiaddress, PeerIdentity, Topic};
use p2p_file::{Action, Command, CommandError, Event, OutputLine};

fn make_node(name: &str) -> Node {
    Node::new(
        PeerIdentity::new(String::from(name)),
        Topic::new(String::from("chat")),
    )
}

#[test]
fn request_before_any_connection_is_refused() {
    let mut node = make_node("12D3KooWNodeY");
    let r = node.handle_command(Command::Request {
        file_path: String::from("/path/to/file"),
    });
    assert_eq!(r.unwrap_err(), CommandError::NoPeerConnected);
    // The refusal left nothing outstanding behind.
    assert_eq!(node.correlation.outstanding(), 0);
}

#[test]
fn connect() {
    // Node X listens and reports its address; node Y dials it. Y's
    // registry stays empty after the dial is issued, and fills only when
    // the establishment event arrives.
    let mut x = make_node("12D3KooWNodeX");
    let listen = x.handle_event(Event::NewListenAddr {
        address: Multiaddress::new(String::from("/ip4/127.0.0.1/tcp/4001")),
    });
    let address = match listen.0 {
        OutputLine::Listening { address } => address,
        other => panic!("expected a listening line, got {other:?}"),
    };

    let mut y = make_node("12D3KooWNodeY");
    let reply = y
        .handle_command(Command::Connect { remote: address })
        .unwrap();
    assert!(matches!(reply.action, Some(Action::Dial { .. })));
    // Dial issued, not yet established: still no target.
    assert!(y.registry.current_target().is_none());

    let (line, action) = y.handle_event(Event::ConnectionEstablished {
        peer_id: PeerIdentity::new(String::from("12D3KooWNodeX")),
    });
    assert!(action.is_none());
    match line {
        OutputLine::Connected { peer } => assert_eq!(peer.text, "12D3KooWNodeX"),
        other => panic!("expected a connected line, got {other:?}"),
    }
    assert_eq!(y.registry.current_target().unwrap().text, "12D3KooWNodeX");
}

#[test]
fn send() {
    // Y publishes "hello" on the shared topic; X, subscribed alongside,
    // renders the message under a truncated form of Y's identity.
    let mut y = make_node("12D3KooWNodeY");
    let reply = y
        .handle_command(Command::Send {
            message: String::from("hello"),
        })
        .unwrap();
    let (topic, data) = match reply.action {
        Some(Action::Publish { topic, data }) => (topic, data),
        other => panic!("expected a publish action, got {other:?}"),
    };
    assert_eq!(topic.name, "chat");
    assert_eq!(data, b"hello".to_vec());

    let mut x = make_node("12D3KooWNodeX");
    let (line, action) = x.handle_event(Event::PubSubMessage {
        source: PeerIdentity::new(String::from("12D3KooWNodeY")),
        data,
    });
    assert!(action.is_none());
    match line {
        OutputLine::ChatMessage { from, data } => {
            assert_eq!(from, "12D3KooW");
            assert!("12D3KooWNodeY".starts_with(&from));
            assert_eq!(data, b"hello".to_vec());
        }
        other => panic!("expected a chat line, got {other:?}"),
    }
}

#[test]
fn request_is_served_and_correlated_end_to_end() {
    // Y asks X for a file; X auto-serves the placeholder payload; Y's
    // correlation table resolves the pending entry and the output line
    // carries exactly those bytes and X's identity.
    let mut y = make_node("12D3KooWNodeY");
    y.handle_event(Event::ConnectionEstablished {
        peer_id: PeerIdentity::new(String::from("12D3KooWNodeX")),
    });
    let reply = y
        .handle_command(Command::Request {
            file_path: String::from("/path/to/file"),
        })
        .unwrap();
    let (peer, request_id, request) = match reply.action {
        Some(Action::SendRequest {
            peer,
            request_id,
            request,
        }) => (peer, request_id, request),
        other => panic!("expected a send-request action, got {other:?}"),
    };
    assert_eq!(peer.text, "12D3KooWNodeX");
    assert_eq!(request.0, "/path/to/file");
    assert_eq!(y.correlation.outstanding(), 1);

    let mut x = make_node("12D3KooWNodeX");
    let (line, action) = x.handle_event(Event::InboundRequest {
        peer: PeerIdentity::new(String::from("12D3KooWNodeY")),
        request,
        channel_id: 17,
    });
    let response = match action {
        Some(Action::SendResponse {
            channel_id,
            response,
        }) => {
            assert_eq!(channel_id, 17);
            response
        }
        other => panic!("expected a send-response action, got {other:?}"),
    };
    assert_eq!(response.0, vec![1u8, 2, 3, 4, 5]);
    match line {
        OutputLine::ServedFile {
            file_path,
            peer,
            channel_id,
        } => {
            assert_eq!(file_path, "/path/to/file");
            assert_eq!(peer.text, "12D3KooWNodeY");
            assert_eq!(channel_id, 17);
        }
        other => panic!("expected a served-file line, got {other:?}"),
    }

    let (line, action) = y.handle_event(Event::InboundResponse {
        peer: PeerIdentity::new(String::from("12D3KooWNodeX")),
        request_id,
        response,
    });
    assert!(action.is_none());
    match line {
        OutputLine::ReceivedFile { data, peer } => {
            assert_eq!(data, vec![1u8, 2, 3, 4, 5]);
            assert_eq!(peer.text, "12D3KooWNodeX");
        }
        other => panic!("expected a received-file line, got {other:?}"),
    }
    assert_eq!(y.correlation.outstanding(), 0);
}

#[test]
fn concurrent_requests_get_distinct_ids_and_resolve_independently() {
    let mut y = make_node("12D3KooWNodeY");
    y.handle_event(Event::ConnectionEstablished {
        peer_id: PeerIdentity::new(String::from("12D3KooWNodeX")),
    });
    let id_of = |reply: Result<p2p_file::node::CommandReply, CommandError>| match reply
        .unwrap()
        .action
    {
        Some(Action::SendRequest { request_id, .. }) => request_id,
        other => panic!("expected a send-request action, got {other:?}"),
    };
    let first = id_of(y.handle_command(Command::Request {
        file_path: String::from("/one"),
    }));
    let second = id_of(y.handle_command(Command::Request {
        file_path: String::from("/two"),
    }));
    assert_ne!(first, second);
    assert_eq!(y.correlation.outstanding(), 2);

    // Resolving the first leaves the second outstanding and untouched.
    y.handle_event(Event::InboundResponse {
        peer: PeerIdentity::new(String::from("12D3KooWNodeX")),
        request_id: first,
        response: FileResponse(vec![1, 2, 3, 4, 5]),
    });
    assert_eq!(y.correlation.outstanding(), 1);
    let remaining = y.correlation.resolve(second).unwrap();
    assert_eq!(remaining.request_id, second);
    assert_eq!(remaining.file_path, "/two");
}

#[test]
fn unknown_request_id_is_reported_and_dropped() {
    let mut y = make_node("12D3KooWNodeY");
    let (line, action) = y.handle_event(Event::InboundResponse {
        peer: PeerIdentity::new(String::from("12D3KooWNodeX")),
        request_id: 99,
        response: FileResponse(vec![1]),
    });
    assert!(action.is_none());
    assert!(matches!(line, OutputLine::UnknownRequestId { request_id: 99 }));
}

#[test]
fn failed_request_is_reported_with_its_path() {
    let mut y = make_node("12D3KooWNodeY");
    y.handle_event(Event::ConnectionEstablished {
        peer_id: PeerIdentity::new(String::from("12D3KooWNodeX")),
    });
    let reply = y
        .handle_command(Command::Request {
            file_path: String::from("/gone"),
        })
        .unwrap();
    let request_id = match reply.action {
        Some(Action::SendRequest { request_id, .. }) => request_id,
        other => panic!("expected a send-request action, got {other:?}"),
    };
    let (line, _) = y.handle_event(Event::OutboundFailure {
        peer: PeerIdentity::new(String::from("12D3KooWNodeX")),
        request_id,
    });
    match line {
        OutputLine::RequestFailed {
            request_id: shown,
            file_path,
            ..
        } => {
            assert_eq!(shown, request_id);
            assert_eq!(file_path, "/gone");
        }
        other => panic!("expected a request-failed line, got {other:?}"),
    }
    assert_eq!(y.correlation.outstanding(), 0);
}

#[test]
fn accept_gate_queues_and_serves_in_order() {
    let mut x = make_node("12D3KooWNodeX");
    x.set_auto_accept(false);
    let (line, action) = x.handle_event(Event::InboundRequest {
        peer: PeerIdentity::new(String::from("12D3KooWNodeY")),
        request: FileRequest(String::from("/first")),
        channel_id: 1,
    });
    assert!(action.is_none());
    assert!(matches!(line, OutputLine::RequestQueued { .. }));
    x.handle_event(Event::InboundRequest {
        peer: PeerIdentity::new(String::from("12D3KooWNodeZ")),
        request: FileRequest(String::from("/second")),
        channel_id: 2,
    });

    let reply = x.handle_command(Command::Accept).unwrap();
    match reply.action {
        Some(Action::SendResponse {
            channel_id,
            response,
        }) => {
            assert_eq!(channel_id, 1);
            assert_eq!(response.0, vec![1u8, 2, 3, 4, 5]);
        }
        other => panic!("expected a send-response action, got {other:?}"),
    }
    let reply = x.handle_command(Command::Accept).unwrap();
    match reply.action {
        Some(Action::SendResponse { channel_id, .. }) => assert_eq!(channel_id, 2),
        other => panic!("expected a send-response action, got {other:?}"),
    }
    assert_eq!(
        x.handle_command(Command::Accept).unwrap_err(),
        CommandError::NoPendingInbound
    );
}

#[test]
fn info_needs_a_listen_address_then_gives_a_paste_ready_hint() {
    let mut x = make_node("12D3KooWNodeX");
    assert_eq!(
        x.handle_command(Command::Info).unwrap_err(),
        CommandError::NoListenAddress
    );
    x.handle_event(Event::NewListenAddr {
        address: Multiaddress::new(String::from("/ip4/127.0.0.1/tcp/4001")),
    });
    let reply = x.handle_command(Command::Info).unwrap();
    match reply.output {
        Some(OutputLine::Info { peer, address }) => {
            assert_eq!(peer.text, "12D3KooWNodeX");
            assert_eq!(address.text, "/ip4/127.0.0.1/tcp/4001/p2p/12D3KooWNodeX");
        }
        other => panic!("expected an info line, got {other:?}"),
    }
}

#[test]
fn disconnect_clears_only_the_matching_target() {
    let mut y = make_node("12D3KooWNodeY");
    y.handle_event(Event::ConnectionEstablished {
        peer_id: PeerIdentity::new(String::from("12D3KooWNodeX")),
    });
    // A different peer going away changes nothing.
    y.handle_event(Event::ConnectionClosed {
        peer_id: PeerIdentity::new(String::from("12D3KooWNodeZ")),
    });
    assert_eq!(y.registry.current_target().unwrap().text, "12D3KooWNodeX");
    // The tracked peer going away clears the target.
    let (line, _) = y.handle_event(Event::ConnectionClosed {
        peer_id: PeerIdentity::new(String::from("12D3KooWNodeX")),
    });
    assert!(matches!(line, OutputLine::Disconnected { .. }));
    assert!(y.registry.current_target().is_none());
}

#[test]
fn newest_connection_supersedes_the_target() {
    let mut y = make_node("12D3KooWNodeY");
    y.handle_event(Event::ConnectionEstablished {
        peer_id: PeerIdentity::new(String::from("12D3KooWNodeX")),
    });
    y.handle_event(Event::ConnectionEstablished {
        peer_id: PeerIdentity::new(String::from("12D3KooWNodeZ")),
    });
    assert_eq!(y.registry.current_target().unwrap().text, "12D3KooWNodeZ");
}

#[test]
fn chat_keeps_short_identities_whole() {
    let mut x = make_node("12D3KooWNodeX");
    let (line, _) = x.handle_event(Event::PubSubMessage {
        source: PeerIdentity::new(String::from("abc")),
        data: b"hi".to_vec(),
    });
    match line {
        OutputLine::ChatMessage { from, data } => {
            assert_eq!(from, "abc");
            assert_eq!(data, b"hi".to_vec());
        }
        other => panic!("expected a chat line, got {other:?}"),
    }
}

#[test]
fn publish_carries_the_message_bytes_exactly() {
    let mut y = make_node("12D3KooWNodeY");
    let reply = y
        .handle_command(Command::Send {
            message: String::from("héllo, wörld"),
        })
        .unwrap();
    match reply.action {
        Some(Action::Publish { data, .. }) => assert_eq!(data, "héllo, wörld".as_bytes()),
        other => panic!("expected a publish action, got {other:?}"),
    }
}

#[test]
fn subscription_notice_is_rendered() {
    let mut x = make_node("12D3KooWNodeX");
    let (line, action) = x.handle_event(Event::PubSubSubscribed {
        peer: PeerIdentity::new(String::from("12D3KooWNodeY")),
        topic: Topic::new(String::from("chat")),
    });
    assert!(action.is_none());
    match line {
        OutputLine::Subscribed { peer, topic } => {
            assert_eq!(peer.text, "12D3KooWNodeY");
            assert_eq!(topic.name, "chat");
        }
        other => panic!("expected a subscribed line, got {other:?}"),
    }
}

#[test]
fn incoming_connection_is_announced() {
    let mut x = make_node("12D3KooWNodeX");
    let (line, action) = x.handle_event(Event::IncomingConnection {
        local_addr: Multiaddress::new(String::from("/ip4/127.0.0.1/tcp/4001")),
        send_back_addr: Multiaddress::new(String::from("/ip4/127.0.0.1/tcp/55555")),
    });
    assert!(action.is_none());
    match line {
        OutputLine::IncomingConnection {
            local_addr,
            send_back_addr,
        } => {
            assert_eq!(local_addr.text, "/ip4/127.0.0.1/tcp/4001");
            assert_eq!(send_back_addr.text, "/ip4/127.0.0.1/tcp/55555");
        }
        other => panic!("expected an incoming-connection line, got {other:?}"),
    }
}
