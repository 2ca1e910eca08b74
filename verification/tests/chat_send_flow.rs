use dispatch::chat_send::{
    http_request, socket_request, Channel, DeliveryKind, ReplyRef, ReplyTo, SendAction, SendEvent,
    SendFlow,
};
use dispatch::accounts::opt_id_text;
use dispatch::object_id::ObjectKey;

fn object_id_text(k: &ObjectKey) -> String {
    opt_id_text(Some(*k)).unwrap()
}
use dispatch::reply::Status;

const ALICE: &str = "aaaaaaaaaaaaaaaaaaaaaaaa";
const BOB: &str = "bbbbbbbbbbbbbbbbbbbbbbbb";

fn key(n: u8) -> ObjectKey {
    ObjectKey { bytes: [n; 12] }
}

#[test]
fn socket_request_needs_recipient_and_content() {
    assert!(socket_request(ALICE, None, Some("hi".to_string()), None, None, 5).is_none());
    assert!(socket_request(ALICE, Some(BOB.to_string()), None, None, None, 5).is_none());
    assert!(socket_request(ALICE, Some(BOB.to_string()), Some(" \n\t".to_string()), None, None, 5).is_none());
    let req = socket_request(ALICE, Some(BOB.to_string()), Some(" hi ".to_string()), None, None, 5).unwrap();
    assert_eq!(req.channel, Channel::Socket);
    assert_eq!(req.sender_id, ALICE);
    assert_eq!(req.to, BOB);
    assert_eq!(req.content, " hi ");
    assert_eq!(req.temp_id, "");
    assert_eq!(req.timestamp, 5);
    let req = socket_request(ALICE, Some(BOB.to_string()), Some("x".to_string()), Some("t-1".to_string()), None, 5).unwrap();
    assert_eq!(req.temp_id, "t-1");
}

#[test]
fn http_request_refuses_blank_content() {
    let n = http_request(ALICE.to_string(), BOB.to_string(), "   ".to_string(), None, 9).err().unwrap();
    assert_eq!(n.status, Status::BadRequest);
    assert!(n.is_error);
    assert_eq!(n.text, "Empty message");
    let req = http_request(ALICE.to_string(), BOB.to_string(), "yo".to_string(), None, 9).ok().unwrap();
    assert_eq!(req.channel, Channel::Http);
    assert_eq!(req.temp_id, "");
}

#[test]
fn socket_flow_with_existing_conversation() {
    let req = socket_request(ALICE, Some(BOB.to_string()), Some("hello".to_string()), Some("tmp".to_string()), None, 77).unwrap();
    let (mut flow, first) = SendFlow::start(req);
    match first {
        SendAction::FindConversation { first, second } => {
            assert_eq!(first, ALICE);
            assert_eq!(second, BOB);
        }
        _ => panic!("expected a lookup"),
    }
    let conv = object_id_text(&key(1));
    match flow.step(SendEvent::ConversationFound(Some(conv.clone()))) {
        SendAction::StoreMessage(m) => {
            assert_eq!(m.id, None);
            assert_eq!(m.conversation_id, conv);
            assert_eq!(m.sender_id, ALICE);
            assert_eq!(m.content, "hello");
            assert_eq!(m.timestamp, 77);
            assert!(!m.read && !m.deleted);
        }
        _ => panic!("expected the message to be stored"),
    }
    match flow.step(SendEvent::Inserted(Some(key(2)))) {
        SendAction::TouchConversation(t) => {
            assert_eq!(t.key, key(1));
            assert_eq!(t.last_message, "hello");
            assert_eq!(t.last_message_time, 77);
            assert_eq!(t.last_message_sender, ALICE);
            assert_eq!(t.unread_field, format!("unread.{}", BOB));
        }
        _ => panic!("expected the conversation update"),
    }
    match flow.step(SendEvent::Touched) {
        SendAction::Deliver { message, deliveries } => {
            assert_eq!(message.id, Some(object_id_text(&key(2))));
            assert_eq!(message.conversation_id, conv);
            assert_eq!(deliveries.len(), 2);
            assert_eq!(deliveries[0].recipient, ALICE);
            match &deliveries[0].kind {
                DeliveryKind::Sent { temp_id } => assert_eq!(temp_id, "tmp"),
                _ => panic!("the sender gets the echo"),
            }
            assert_eq!(deliveries[1].recipient, BOB);
            assert!(matches!(deliveries[1].kind, DeliveryKind::Received));
        }
        _ => panic!("expected delivery"),
    }
    assert!(matches!(flow.step(SendEvent::Touched), SendAction::Ignore));
}

#[test]
fn http_flow_creates_conversation() {
    let req = http_request(ALICE.to_string(), BOB.to_string(), "hey".to_string(), None, 3).ok().unwrap();
    let (mut flow, _) = SendFlow::start(req);
    match flow.step(SendEvent::ConversationMissing) {
        SendAction::CreateConversation(c) => {
            assert_eq!(c.first, ALICE);
            assert_eq!(c.second, BOB);
            assert_eq!(c.last_message, "hey");
            assert_eq!(c.last_message_time, 3);
            assert_eq!(c.last_message_sender, ALICE);
        }
        _ => panic!("expected a new conversation"),
    }
    match flow.step(SendEvent::Inserted(Some(key(9)))) {
        SendAction::StoreMessage(m) => assert_eq!(m.conversation_id, object_id_text(&key(9))),
        _ => panic!("expected the message to be stored"),
    }
    assert!(matches!(flow.step(SendEvent::Inserted(None)), SendAction::TouchConversation(_)));
    match flow.step(SendEvent::Touched) {
        SendAction::Deliver { message, deliveries } => {
            assert_eq!(message.id, Some(String::new()));
            assert_eq!(deliveries.len(), 1);
            assert_eq!(deliveries[0].recipient, BOB);
        }
        _ => panic!("expected delivery"),
    }
}

#[test]
fn conversation_without_object_id_is_not_updated() {
    let req = socket_request(ALICE, Some(BOB.to_string()), Some("x".to_string()), None, None, 1).unwrap();
    let (mut flow, _) = SendFlow::start(req);
    assert!(matches!(flow.step(SendEvent::ConversationFound(None)), SendAction::StoreMessage(_)));
    match flow.step(SendEvent::Inserted(Some(key(4)))) {
        SendAction::Deliver { message, .. } => assert_eq!(message.conversation_id, ""),
        _ => panic!("an empty conversation id is not updated"),
    }
}

#[test]
fn failures_end_the_flow() {
    let req = http_request(ALICE.to_string(), BOB.to_string(), "a".to_string(), None, 1).ok().unwrap();
    let (mut flow, _) = SendFlow::start(req);
    flow.step(SendEvent::ConversationMissing);
    match flow.step(SendEvent::InsertFailed) {
        SendAction::Abandon(Some(n)) => {
            assert_eq!(n.status, Status::ServerError);
            assert_eq!(n.text, "Failed to create conversation");
        }
        _ => panic!("expected a 500"),
    }
    assert!(matches!(flow.step(SendEvent::Inserted(None)), SendAction::Ignore));

    let req = http_request(ALICE.to_string(), BOB.to_string(), "a".to_string(), None, 1).ok().unwrap();
    let (mut flow, _) = SendFlow::start(req);
    flow.step(SendEvent::ConversationFound(Some("c".to_string())));
    match flow.step(SendEvent::InsertFailed) {
        SendAction::Abandon(Some(n)) => assert_eq!(n.text, "Failed to save message"),
        _ => panic!("expected a 500"),
    }

    let req = socket_request(ALICE, Some(BOB.to_string()), Some("x".to_string()), None, None, 1).unwrap();
    let (mut flow, _) = SendFlow::start(req);
    flow.step(SendEvent::ConversationFound(Some("c".to_string())));
    assert!(matches!(flow.step(SendEvent::InsertFailed), SendAction::Abandon(None)));
}

#[test]
fn unexpected_events_are_ignored() {
    let req = socket_request(ALICE, Some(BOB.to_string()), Some("x".to_string()), None, None, 1).unwrap();
    let (mut flow, _) = SendFlow::start(req);
    assert!(matches!(flow.step(SendEvent::Touched), SendAction::Ignore));
    assert!(matches!(flow.step(SendEvent::InsertFailed), SendAction::Ignore));
    assert!(matches!(flow.step(SendEvent::ConversationMissing), SendAction::CreateConversation(_)));
}

#[test]
fn replies_travel_with_the_message() {
    let quote = ReplyRef {
        message_id: "m1".to_string(),
        content: "earlier".to_string(),
        sender_id: BOB.to_string(),
        sender_name: "Bob".to_string(),
    };
    let req = socket_request(ALICE, Some(BOB.to_string()), Some("re".to_string()), None, Some(quote), 1).unwrap();
    let (mut flow, _) = SendFlow::start(req);
    match flow.step(SendEvent::ConversationFound(Some(String::new()))) {
        SendAction::StoreMessage(m) => match &m.reply_to {
            ReplyTo::Quote(q) => {
                assert_eq!(q.message_id, "m1");
                assert_eq!(q.sender_name, "Bob");
            }
            _ => panic!("the quote is stored"),
        },
        _ => panic!("expected the message to be stored"),
    }
    match flow.step(SendEvent::Inserted(None)) {
        SendAction::Deliver { message, .. } => assert!(matches!(message.reply_to, ReplyTo::Quote(_))),
        _ => panic!("expected delivery"),
    }

    let raw: serde_json::Value = serde_json::from_str(r#"{"message_id": 7, "extra": [1, 2]}"#).unwrap();
    let req = http_request(ALICE.to_string(), BOB.to_string(), "re".to_string(), Some(raw.clone()), 1).ok().unwrap();
    let (mut flow, _) = SendFlow::start(req);
    match flow.step(SendEvent::ConversationFound(None)) {
        SendAction::StoreMessage(m) => match &m.reply_to {
            ReplyTo::Raw(v) => assert_eq!(v, &raw),
            _ => panic!("the raw value is stored"),
        },
        _ => panic!("expected the message to be stored"),
    }

    let req = http_request(ALICE.to_string(), BOB.to_string(), "re".to_string(), None, 1).ok().unwrap();
    assert!(matches!(req.reply_to, ReplyTo::Absent));
}

fn store_of(a: &SendAction) -> Option<(String, String, String, i64)> {
    match a {
        SendAction::StoreMessage(m) => Some((m.conversation_id.clone(), m.sender_id.clone(), m.content.clone(), m.timestamp)),
        _ => None,
    }
}

#[test]
fn both_channels_store_the_same() {
    let s = socket_request(ALICE, Some(BOB.to_string()), Some("same".to_string()), Some("t".to_string()), None, 4).unwrap();
    let h = http_request(ALICE.to_string(), BOB.to_string(), "same".to_string(), None, 4).ok().unwrap();
    let (mut fs, _) = SendFlow::start(s);
    let (mut fh, _) = SendFlow::start(h);
    let a = fs.step(SendEvent::ConversationMissing);
    let b = fh.step(SendEvent::ConversationMissing);
    assert!(matches!((&a, &b), (SendAction::CreateConversation(_), SendAction::CreateConversation(_))));
    let a = fs.step(SendEvent::Inserted(Some(key(3))));
    let b = fh.step(SendEvent::Inserted(Some(key(3))));
    assert_eq!(store_of(&a), store_of(&b));
    let a = fs.step(SendEvent::Inserted(Some(key(5))));
    let b = fh.step(SendEvent::Inserted(Some(key(5))));
    match (a, b) {
        (SendAction::TouchConversation(x), SendAction::TouchConversation(y)) => {
            assert_eq!(x.key, y.key);
            assert_eq!(x.unread_field, y.unread_field);
        }
        _ => panic!("both update the conversation"),
    }
    match (fs.step(SendEvent::Touched), fh.step(SendEvent::Touched)) {
        (SendAction::Deliver { message: m1, deliveries: d1 }, SendAction::Deliver { message: m2, deliveries: d2 }) => {
            assert_eq!(m1.id, m2.id);
            assert_eq!(m1.content, m2.content);
            assert_eq!(d1.last().unwrap().recipient, d2.last().unwrap().recipient);
        }
        _ => panic!("both deliver"),
    }
}
