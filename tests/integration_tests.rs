use rzmq::chat::{decode_frames, execute_chat_command, report_receive, report_send, Chat, ChatError, ChatOutcome};
use rzmq::command::ChatCommand;
use rzmq::socket::{AssociationType, SocketParameters, SocketType};

fn params<'a>(
    address: &'a str,
    socket_type: SocketType,
    association_type: AssociationType,
    socket_id: Option<&'a str>,
    topic: Option<&'a str>,
) -> SocketParameters<'a> {
    SocketParameters { address, socket_type, association_type, socket_id, topic }
}

/// Polls until a message comes; each poll waits for the receive timeout.
fn receive_within(chat: &mut Chat, polls: usize) -> Option<Vec<String>> {
    for _ in 0..polls {
        match chat.receive() {
            Ok(frames) => return Some(frames),
            Err(ChatError::Timeout) => {}
            Err(e) => panic!("receive failed: {:?}", e),
        }
    }
    None
}

fn push_pull_send_listen(address: &str) {
    let test_message = "TEST MESSAGE 12345";
    let mut listener = Chat::new(&params(address, SocketType::PULL, AssociationType::Bind, None, None)).unwrap();
    let mut sender = Chat::new(&params(address, SocketType::PUSH, AssociationType::Connect, None, None)).unwrap();
    sender.send(test_message).unwrap();
    assert_eq!(Some(vec![test_message.to_string()]), receive_within(&mut listener, 50));
}

fn pub_sub(address: &str) {
    let test_message_wo_topic = "TEST MESSAGE1";
    let test_message_with_topic = "TOPIC1 TEST MESSAGE2";
    let mut listener = Chat::new(&params(address, SocketType::SUB, AssociationType::Bind, None, Some("TOPIC1"))).unwrap();
    let mut sender = Chat::new(&params(address, SocketType::PUB, AssociationType::Connect, None, None)).unwrap();
    let mut got = None;
    for _ in 0..50 {
        sender.send(test_message_wo_topic).unwrap();
        sender.send(test_message_with_topic).unwrap();
        if let Some(frames) = receive_within(&mut listener, 1) {
            got = Some(frames);
            break;
        }
    }
    assert_eq!(Some(vec![test_message_with_topic.to_string()]), got);
    while let Some(frames) = receive_within(&mut listener, 2) {
        assert_eq!(vec![test_message_with_topic.to_string()], frames);
    }
}

fn pair_chat(address: &str) {
    let mut instance1 = Chat::new(&params(address, SocketType::PAIR, AssociationType::Bind, None, None)).unwrap();
    let mut instance2 = Chat::new(&params(address, SocketType::PAIR, AssociationType::Connect, None, None)).unwrap();

    instance1.send("Hi!").unwrap();
    instance1.send("How are you?").unwrap();

    assert_eq!("Hi!", receive_within(&mut instance2, 50).unwrap()[0].as_str());
    assert_eq!("How are you?", receive_within(&mut instance2, 50).unwrap()[0].as_str());

    instance2.send("I'm fine").unwrap();
    assert_eq!("I'm fine", receive_within(&mut instance1, 50).unwrap()[0].as_str());
}

fn router_dealer_chat(address: &str) {
    let mut router = Chat::new(&params(address, SocketType::ROUTER, AssociationType::Bind, None, None)).unwrap();
    let mut dealer = Chat::new(&params(address, SocketType::DEALER, AssociationType::Connect, Some("ID1"), None)).unwrap();
    let mut dealer2 = Chat::new(&params(address, SocketType::DEALER, AssociationType::Connect, Some("ID2"), None)).unwrap();

    dealer.send("MSG1").unwrap();
    dealer.send("MSG2").unwrap();

    assert_eq!(["ID1", "MSG1"], receive_within(&mut router, 50).unwrap()[0..2]);
    assert_eq!(["ID1", "MSG2"], receive_within(&mut router, 50).unwrap()[0..2]);

    // Give the second dealer's handshake time to reach the router.
    assert!(receive_within(&mut dealer2, 3).is_none());

    router.send_with_id("ID1", "MSG3").unwrap();
    router.send_with_id("ID2", "MSG4").unwrap();

    assert_eq!("MSG3", receive_within(&mut dealer, 50).unwrap()[0].as_str());
    assert_eq!("MSG4", receive_within(&mut dealer2, 50).unwrap()[0].as_str());
    assert!(matches!(dealer.receive(), Err(ChatError::Timeout)));
    assert!(matches!(dealer2.receive(), Err(ChatError::Timeout)));
}

#[test]
fn integration_tests() {
    push_pull_send_listen("ipc://@rzmq-test-5559");
    pub_sub("ipc://@rzmq-test-5560");
    pair_chat("ipc://@rzmq-test-5561");
    router_dealer_chat("ipc://@rzmq-test-5562");
}

#[test]
fn push_bound_pull_connected_round_trip() {
    let address = "ipc://@rzmq-test-5571";
    let mut sender = Chat::new(&params(address, SocketType::PUSH, AssociationType::Bind, None, None)).unwrap();
    let mut listener = Chat::new(&params(address, SocketType::PULL, AssociationType::Connect, None, None)).unwrap();
    sender.send("TEST MESSAGE 12345").unwrap();
    assert_eq!(Some(vec!["TEST MESSAGE 12345".to_string()]), receive_within(&mut listener, 50));
}

#[test]
fn subscriber_sees_only_its_topic() {
    pub_sub("ipc://@rzmq-test-5572");
}

#[test]
fn router_addresses_each_dealer() {
    router_dealer_chat("ipc://@rzmq-test-5573");
}

#[test]
fn repeated_receive_after_the_message_times_out() {
    let address = "ipc://@rzmq-test-5574";
    let mut listener = Chat::new(&params(address, SocketType::PULL, AssociationType::Bind, None, None)).unwrap();
    let mut sender = Chat::new(&params(address, SocketType::PUSH, AssociationType::Connect, None, None)).unwrap();
    sender.send("ONCE").unwrap();
    assert_eq!(Some(vec!["ONCE".to_string()]), receive_within(&mut listener, 50));
    assert!(matches!(listener.receive(), Err(ChatError::Timeout)));
    assert!(matches!(listener.receive(), Err(ChatError::Timeout)));
}

#[test]
fn publisher_topic_goes_in_its_own_first_frame() {
    let address = "ipc://@rzmq-test-5575";
    let mut listener = Chat::new(&params(address, SocketType::SUB, AssociationType::Bind, None, Some("NEWS"))).unwrap();
    let mut sender = Chat::new(&params(address, SocketType::PUB, AssociationType::Connect, None, None)).unwrap();
    let mut got = None;
    for _ in 0..50 {
        sender.send_with_topic(Some("NEWS"), "today").unwrap();
        if let Some(frames) = receive_within(&mut listener, 1) {
            got = Some(frames);
            break;
        }
    }
    assert_eq!(Some(vec!["NEWS".to_string(), "today".to_string()]), got);
}

#[test]
fn invalid_address_is_refused_before_any_socket() {
    let r = Chat::new(&params("udp://127.0.0.1:1", SocketType::PAIR, AssociationType::Bind, None, None));
    assert!(matches!(r, Err(ChatError::InvalidAddress)));
    let r = Chat::new(&params("tcp://127.0.0.1:1\0", SocketType::PAIR, AssociationType::Bind, None, None));
    assert!(matches!(r, Err(ChatError::InvalidAddress)));
}

#[test]
fn transport_refusal_is_reported() {
    let r = Chat::new(&params("tcp://not a host", SocketType::PAIR, AssociationType::Bind, None, None));
    assert!(matches!(r, Err(ChatError::Transport(_))));
}

#[test]
fn addressed_send_needs_a_router() {
    let mut chat = Chat::new(&params("ipc://@rzmq-test-5576", SocketType::DEALER, AssociationType::Bind, None, None)).unwrap();
    assert_eq!(SocketType::DEALER, chat.socket_type());
    assert!(matches!(chat.send_with_id("ID1", "x"), Err(ChatError::NotRouter)));
}

#[test]
fn dispatcher_on_a_quiet_session() {
    let mut chat = Chat::new(&params("ipc://@rzmq-test-5577", SocketType::PULL, AssociationType::Bind, None, None)).unwrap();
    assert!(matches!(execute_chat_command(&mut chat, ChatCommand::Receive), ChatOutcome::NothingYet));
    let out = execute_chat_command(&mut chat, ChatCommand::SendTo("ID1".to_string(), "x".to_string()));
    assert!(matches!(out, ChatOutcome::Failed(ChatError::NotRouter)));
}

#[test]
fn dispatcher_sends_and_receives() {
    let address = "ipc://@rzmq-test-5578";
    let mut a = Chat::new(&params(address, SocketType::PAIR, AssociationType::Bind, None, None)).unwrap();
    let mut b = Chat::new(&params(address, SocketType::PAIR, AssociationType::Connect, None, None)).unwrap();
    match execute_chat_command(&mut a, ChatCommand::Send("hello".to_string())) {
        ChatOutcome::Sent(m) => assert_eq!("hello", m),
        other => panic!("unexpected {:?}", other),
    }
    let mut received = None;
    for _ in 0..50 {
        match execute_chat_command(&mut b, ChatCommand::Receive) {
            ChatOutcome::Received(frames) => {
                received = Some(frames);
                break;
            }
            ChatOutcome::NothingYet => {}
            other => panic!("unexpected {:?}", other),
        }
    }
    assert_eq!(Some(vec!["hello".to_string()]), received);
}

#[test]
fn reports_of_outcomes() {
    assert!(matches!(report_receive(Err(ChatError::Timeout)), ChatOutcome::NothingYet));
    assert!(matches!(report_receive(Err(ChatError::Decode)), ChatOutcome::Failed(ChatError::Decode)));
    match report_receive(Ok(vec!["a".to_string()])) {
        ChatOutcome::Received(f) => assert_eq!(vec!["a".to_string()], f),
        other => panic!("unexpected {:?}", other),
    }
    match report_send("m".to_string(), Ok(())) {
        ChatOutcome::Sent(m) => assert_eq!("m", m),
        other => panic!("unexpected {:?}", other),
    }
    assert!(matches!(report_send("m".to_string(), Err(ChatError::NotRouter)), ChatOutcome::Failed(ChatError::NotRouter)));
}

#[test]
fn frames_are_decoded_as_text() {
    let frames = vec![b"ID1".to_vec(), "h\u{e9}llo".as_bytes().to_vec(), vec![]];
    let texts = decode_frames(frames).unwrap();
    assert_eq!(vec!["ID1".to_string(), "h\u{e9}llo".to_string(), String::new()], texts);
}

#[test]
fn a_frame_that_is_not_text_is_reported() {
    let frames = vec![b"ok".to_vec(), vec![0xff, 0xfe]];
    assert!(matches!(decode_frames(frames), Err(ChatError::Decode)));
}
