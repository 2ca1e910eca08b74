use dispatch::accounts::UserRecord;
use dispatch::chat_directory::{
    chat_partner_roles, chat_user_entry, conversation_entries, partner_entry, partner_query,
    PartnerQuery,
};
use dispatch::chat_events::{
    chat_deletion, deletion_audience, event_kind, parse_chat_event, online_status_audience, presence_change,
    read_receipt, read_receipt_audience, session_step, typing_notice, EventKind, SessionAction,
    SessionInput,
};
use dispatch::accounts::opt_id_text;
use dispatch::object_id::ObjectKey;

fn object_id_text(k: &ObjectKey) -> String {
    opt_id_text(Some(*k)).unwrap()
}
use dispatch::reply::{Lookup, Status};

const ME: &str = "111111111111111111111111";
const YOU: &str = "222222222222222222222222";
const THEM: &str = "333333333333333333333333";

fn s(x: &str) -> Option<String> {
    Some(x.to_string())
}

fn user(role: Option<&str>, online: Option<bool>) -> UserRecord {
    UserRecord {
        id: None,
        first_name: "Ada".to_string(),
        last_name: "Lovelace".to_string(),
        email: "ada@example.com".to_string(),
        password: "h".to_string(),
        role: role.map(|r| r.to_string()),
        profile_pic: s("pic.png"),
        background_image: None,
        cover_image: None,
        phone: None,
        location: None,
        website: None,
        bio: None,
        created_at: None,
        online,
        last_seen: Some(42),
    }
}

#[test]
fn chat_events_from_text() {
    let ev = parse_chat_event(r#"{"type":"message","to":"bob","content":"hi","temp_id":7,"reply_to":{"x":1}}"#).unwrap();
    assert_eq!(ev.kind.as_deref(), Some("message"));
    assert_eq!(ev.to.as_deref(), Some("bob"));
    assert_eq!(ev.content.as_deref(), Some("hi"));
    assert_eq!(ev.temp_id, None);
    assert_eq!(ev.conversation_id, None);
    assert_eq!(ev.body["reply_to"]["x"], 1);
    assert!(parse_chat_event("not json").is_none());
    assert!(parse_chat_event(r#"{"type":"read""#).is_none());
    let ev = parse_chat_event(r#"["message"]"#).unwrap();
    assert_eq!(ev.kind, None);
}

#[test]
fn event_kinds() {
    assert_eq!(event_kind(&s("message")), EventKind::Message);
    assert_eq!(event_kind(&s("typing")), EventKind::Typing);
    assert_eq!(event_kind(&s("stop_typing")), EventKind::StopTyping);
    assert_eq!(event_kind(&s("read")), EventKind::Read);
    assert_eq!(event_kind(&s("delete")), EventKind::Delete);
    assert_eq!(event_kind(&s("Message")), EventKind::Ignored);
    assert_eq!(event_kind(&None), EventKind::Ignored);
}

#[test]
fn typing_notices() {
    assert!(typing_notice(ME, None, true).is_none());
    let n = typing_notice(ME, s(YOU), false).unwrap();
    assert_eq!(n.to, YOU);
    assert_eq!(n.from, ME);
    assert!(!n.typing);
}

#[test]
fn online_status_goes_to_others_per_conversation() {
    let convs = vec![
        vec![s(ME), s(YOU)],
        vec![None, s(THEM), s(ME)],
        vec![s(YOU), s(ME)],
    ];
    assert_eq!(online_status_audience(ME, &convs), vec![YOU.to_string(), THEM.to_string(), YOU.to_string()]);
    assert!(online_status_audience(ME, &vec![]).is_empty());
}

#[test]
fn presence_changes() {
    let on = presence_change(ME, true, 99);
    assert_eq!(on.key.map(|k| object_id_text(&k)), Some(ME.to_string()));
    assert!(on.status.online);
    assert_eq!(on.status.last_seen, None);
    let off = presence_change("guest", false, 99);
    assert!(off.key.is_none());
    assert!(!off.status.online);
    assert_eq!(off.status.last_seen, Some(99));
    assert_eq!(off.status.user_id, "guest");
}

#[test]
fn read_receipts() {
    assert!(read_receipt(ME, None).is_none());
    assert!(read_receipt(ME, s("nope")).is_none());
    let r = read_receipt(ME, s(YOU)).unwrap();
    assert_eq!(r.conversation_id, YOU);
    assert_eq!(object_id_text(&r.key), YOU);
    assert_eq!(r.unread_field, format!("unread.{}", ME));
    assert_eq!(r.unread_value, 0);
    assert!(r.message_read);
    assert_eq!(r.selection.conversation_id, YOU);
    assert_eq!(r.selection.sender_not, ME);
    assert!(!r.selection.read && !r.selection.deleted);
    let parts = vec![s(ME), s(THEM), None];
    assert_eq!(read_receipt_audience(&r, &parts), vec![THEM.to_string()]);
}

#[test]
fn repeated_receipts_are_identical() {
    let a = read_receipt(ME, s(YOU)).unwrap();
    let b = read_receipt(ME, s(YOU)).unwrap();
    assert_eq!(a.key, b.key);
    assert_eq!(a.unread_field, b.unread_field);
    assert_eq!((a.message_read, a.unread_value), (b.message_read, b.unread_value));
}

#[test]
fn chat_deletions() {
    assert!(chat_deletion(ME, None, s(YOU)).is_none());
    assert!(chat_deletion(ME, s(THEM), None).is_none());
    assert!(chat_deletion(ME, s("x"), s(YOU)).is_none());
    assert!(chat_deletion(ME, s(THEM), s("y")).is_none());
    let d = chat_deletion(ME, s(THEM), s(YOU)).unwrap();
    assert_eq!(d.required_sender, ME);
    assert!(d.deleted_value);
    assert_eq!(object_id_text(&d.message_key), THEM);
    assert_eq!(object_id_text(&d.conversation_key), YOU);
    assert_eq!(d.replacement, "This message was deleted");
    let parts = vec![s(ME), None, s(YOU)];
    assert_eq!(deletion_audience(true, &parts), vec![ME.to_string(), YOU.to_string()]);
    assert!(deletion_audience(false, &parts).is_empty());
}

#[test]
fn session_loop_turns() {
    assert!(matches!(session_step(SessionInput::Text("t".to_string())), SessionAction::Handle(t) if t == "t"));
    assert!(matches!(session_step(SessionInput::Ping(vec![1, 2])), SessionAction::Pong(p) if p == vec![1, 2]));
    assert!(matches!(session_step(SessionInput::Outbound("o".to_string())), SessionAction::Write(t) if t == "o"));
    assert!(matches!(session_step(SessionInput::Other), SessionAction::Continue));
    assert!(matches!(session_step(SessionInput::Closed), SessionAction::Stop));
    assert!(matches!(session_step(SessionInput::QueueClosed), SessionAction::Stop));
    assert!(matches!(session_step(SessionInput::WriteFailed), SessionAction::Stop));
}

#[test]
fn partner_roles_by_role() {
    assert_eq!(chat_partner_roles(&s("customer")), vec!["management".to_string()]);
    assert_eq!(chat_partner_roles(&s("management")), vec!["customer".to_string(), "admin".to_string()]);
    assert_eq!(chat_partner_roles(&s("admin")), vec!["management".to_string(), "customer".to_string()]);
    assert!(chat_partner_roles(&s("guest")).is_empty());
    assert!(chat_partner_roles(&None).is_empty());
}

#[test]
fn partner_queries() {
    match partner_query(Lookup::Found(user(Some("customer"), None))).ok().unwrap() {
        PartnerQuery::Roles(r) => assert_eq!(r, vec!["management".to_string()]),
        PartnerQuery::NoPartners => panic!("customers have partners"),
    }
    assert!(matches!(partner_query(Lookup::Found(user(None, None))).ok().unwrap(), PartnerQuery::NoPartners));
    let n = partner_query(Lookup::Missing).err().unwrap();
    assert_eq!(n.status, Status::NotFound);
    assert_eq!(n.text, "User not found");
    assert_eq!(partner_query(Lookup::Failed).err().unwrap().status, Status::NotFound);
}

#[test]
fn chat_user_entries() {
    let e = chat_user_entry(user(Some("admin"), None));
    assert_eq!(e.id, None);
    assert_eq!(e.first_name, "Ada");
    assert_eq!(e.role.as_deref(), Some("admin"));
    assert_eq!(e.profile_pic.as_deref(), Some("pic.png"));
    assert!(!e.online);
    assert_eq!(e.last_seen, Some(42));
    assert!(chat_user_entry(user(None, Some(true))).online);
}

#[test]
fn conversation_lines() {
    let parts = vec![s(ME), s(YOU), s("bogus"), None, s(THEM)];
    let lines = conversation_entries(ME, s("conv"), Some(3), &parts);
    assert_eq!(lines.len(), 2);
    assert_eq!(lines[0].partner_id, YOU);
    assert_eq!(object_id_text(&lines[0].partner_key), YOU);
    assert_eq!(lines[1].partner_id, THEM);
    assert_eq!(lines[0].conversation_id, "conv");
    assert_eq!(lines[1].unread, 3);
    let lines = conversation_entries(ME, None, None, &vec![s(YOU)]);
    assert_eq!(lines[0].conversation_id, "");
    assert_eq!(lines[0].unread, 0);
    let e = partner_entry(&lines[0], user(Some("customer"), Some(false)));
    assert_eq!(e.id.as_deref(), Some(YOU));
}
