use dispatch::accounts::{
    image_field, image_reply, login_result, new_account, profile_changes, profile_result,
    profile_update_reply, role_reply, role_target, signup_precheck, signup_result, user_key,
    welcome_email, EmailKind, ImageSlot, ProfileUpdate, SignupRequest, UserRecord,
};
use dispatch::inbox::{
    admin_email, after_delete_by_client_id, after_delete_by_key, after_viewed_update,
    flag_update, flag_update_reply, mark_read_reply, messages_fetch_failed, messages_saved_reply,
    user_listing, viewed_emails_result, AdminMailing, DeletionNext, can_stamp, stamp_message,
};
use dispatch::accounts::opt_id_text;
use dispatch::object_id::ObjectKey;

fn object_id_text(k: &ObjectKey) -> String {
    opt_id_text(Some(*k)).unwrap()
}
use dispatch::password::password_matches;
use dispatch::reply::{Lookup, Status, WriteOutcome};
use dispatch::timefmt::format_timestamp;

fn now_millis() -> i64 {
    chrono::Utc::now().timestamp_millis()
}

const ID: &str = "0123456789abcdef01234567";

fn form() -> SignupRequest {
    SignupRequest {
        first_name: "Grace".to_string(),
        last_name: "Hopper".to_string(),
        email: "grace@example.com".to_string(),
        password: "cobol".to_string(),
    }
}

#[test]
fn user_ids_on_paths() {
    assert_eq!(object_id_text(&user_key(ID).ok().unwrap()), ID);
    let n = user_key("abc").err().unwrap();
    assert_eq!(n.status, Status::BadRequest);
    assert_eq!(n.text, "Invalid user ID");
    assert_eq!(role_target("abc").err().unwrap().text, "Invalid user ID format");
}

#[test]
fn signup_prechecks() {
    let n = signup_precheck(&Lookup::Found(())).unwrap();
    assert_eq!((n.status, n.is_error, n.text.as_str()), (Status::BadRequest, true, "Email already exists"));
    let n = signup_precheck::<()>(&Lookup::Failed).unwrap();
    assert_eq!((n.status, n.text.as_str()), (Status::ServerError, "Database error"));
    assert!(signup_precheck::<()>(&Lookup::Missing).is_none());
}

#[test]
fn new_accounts_store_a_hash() {
    let u = new_account(&form(), 1234);
    assert!(u.id.is_none());
    assert_eq!(u.first_name, "Grace");
    assert_eq!(u.email, "grace@example.com");
    assert_ne!(u.password, "cobol");
    assert!(password_matches("cobol", &u.password));
    assert_eq!(u.created_at, Some(1234));
    assert!(u.role.is_none() && u.online.is_none() && u.last_seen.is_none());
}

#[test]
fn signup_then_login() {
    let now = now_millis();
    let mut u = new_account(&form(), now);
    u.id = Some(ObjectKey { bytes: [7; 12] });
    let reply = login_result(Lookup::Found(u), "cobol").ok().unwrap();
    assert_eq!(reply.message, "Login successful");
    assert_eq!(reply.user_id, "070707070707070707070707");
    assert_eq!(reply.created_at, format_timestamp(now));
    assert_eq!(reply.created_at_relative, "just now");
}

#[test]
fn login_refusals() {
    let u = new_account(&form(), 0);
    let n = login_result(Lookup::Found(u), "fortran").err().unwrap();
    assert_eq!((n.status, n.text.as_str()), (Status::Unauthorized, "Invalid password"));
    let n = login_result(Lookup::Missing, "x").err().unwrap();
    assert_eq!((n.status, n.text.as_str()), (Status::Unauthorized, "User not found"));
    let n = login_result(Lookup::Failed, "x").err().unwrap();
    assert_eq!((n.status, n.text.as_str()), (Status::ServerError, "Database error"));
}

#[test]
fn login_without_creation_time() {
    let mut u = new_account(&form(), 0);
    u.created_at = None;
    let reply = login_result(Lookup::Found(u), "cobol").ok().unwrap();
    assert_eq!(reply.user_id, "unknown");
    assert_eq!(reply.created_at, "Unknown");
    assert_eq!(reply.created_at_relative, "Unknown");
}

#[test]
fn welcome_emails() {
    let e = welcome_email("u1", 55);
    assert_eq!(e.id, "welcome-email");
    assert_eq!(e.from, "Dispatch Team");
    assert_eq!(e.subject, "Welcome to Dispatch! 🎉");
    assert_eq!(e.body, "Welcome to Dispatch! 🎉\nThank you for creating your account.\n\nBest regards,\nThe Dispatch Team");
    assert_eq!(e.timestamp, "just now");
    assert!(e.unread && !e.starred);
    assert_eq!(e.role, "admin");
    assert_eq!(e.kind, EmailKind::Welcome);
}

#[test]
fn signup_results() {
    let now = now_millis();
    let n = signup_result(&form(), None, now).err().unwrap();
    assert_eq!((n.status, n.text.as_str()), (Status::BadRequest, "Failed to create user"));
    let s = signup_result(&form(), Some(None), now).ok().unwrap();
    assert_eq!(s.reply.user_id, "unknown");
    assert_eq!(s.welcome.user_id, "unknown");
    let s = signup_result(&form(), Some(Some(ObjectKey { bytes: [1; 12] })), now).ok().unwrap();
    assert_eq!(s.reply.message, "User created");
    assert_eq!(s.reply.user_id, "010101010101010101010101");
    assert_eq!(s.welcome.user_id, s.reply.user_id);
    assert_eq!(s.welcome.created_at_timestamp, now);
    assert_eq!(s.reply.created_at_relative, "just now");
}

#[test]
fn role_replies() {
    let n = role_reply(WriteOutcome::Applied(1), "admin");
    assert_eq!((n.status, n.is_error, n.text.as_str()), (Status::Success, false, "Role set to admin"));
    let n = role_reply(WriteOutcome::Applied(0), "admin");
    assert_eq!((n.status, n.is_error, n.text.as_str()), (Status::BadRequest, true, "User not found"));
    let n = role_reply(WriteOutcome::Failed, "admin");
    assert_eq!((n.status, n.text.as_str()), (Status::BadRequest, "Failed to set role"));
}

fn stored_user() -> UserRecord {
    let mut u = new_account(&form(), 947638923004);
    u.id = Some(ObjectKey { bytes: [0xab; 12] });
    u.bio = Some("admiral".to_string());
    u.online = Some(true);
    u
}

#[test]
fn profiles() {
    let p = profile_result(Lookup::Found(stored_user())).ok().unwrap();
    assert_eq!(p.id.as_deref(), Some("abababababababababababab"));
    assert_eq!(p.bio.as_deref(), Some("admiral"));
    assert!(p.online);
    let (cal, _rel) = p.created.unwrap();
    assert_eq!(cal, "Jan 12, 2000, 01:02 AM");
    let mut u = stored_user();
    u.created_at = None;
    u.online = None;
    let p = profile_result(Lookup::Found(u)).ok().unwrap();
    assert!(p.created.is_none());
    assert!(!p.online);
    let n = profile_result(Lookup::Missing).err().unwrap();
    assert_eq!((n.status, n.text.as_str()), (Status::NotFound, "User not found"));
    let n = profile_result(Lookup::Failed).err().unwrap();
    assert_eq!((n.status, n.text.as_str()), (Status::ServerError, "Database error"));
}

#[test]
fn image_slots() {
    assert_eq!(image_field(ImageSlot::ProfilePic), "profilePic");
    assert_eq!(image_field(ImageSlot::Background), "backgroundImage");
    assert_eq!(image_field(ImageSlot::Cover), "coverImage");
    assert_eq!(image_reply(ImageSlot::ProfilePic, true).text, "Profile pic saved");
    assert_eq!(image_reply(ImageSlot::Background, true).text, "Background image saved");
    assert_eq!(image_reply(ImageSlot::Cover, true).text, "Cover image saved");
    let n = image_reply(ImageSlot::Cover, false);
    assert_eq!((n.status, n.is_error, n.text.as_str()), (Status::ServerError, true, "Failed to save cover image"));
    assert_eq!(image_reply(ImageSlot::ProfilePic, false).text, "Failed to save profile pic");
    assert_eq!(image_reply(ImageSlot::Background, false).text, "Failed to save background");
}

#[test]
fn profile_edits() {
    let update = ProfileUpdate {
        first_name: None,
        last_name: Some("H.".to_string()),
        bio: None,
        phone: Some("555".to_string()),
        location: None,
        website: None,
        role: Some("admin".to_string()),
    };
    let changes: Vec<(String, String)> =
        profile_changes(&update).into_iter().map(|c| (c.field, c.value)).collect();
    assert_eq!(
        changes,
        vec![
            ("lastName".to_string(), "H.".to_string()),
            ("phone".to_string(), "555".to_string()),
            ("role".to_string(), "admin".to_string()),
        ]
    );
    assert_eq!(profile_update_reply(true).text, "Profile updated");
    assert_eq!(profile_update_reply(false).text, "Failed to update profile");
}

#[test]
fn inbox_replies() {
    assert_eq!(mark_read_reply(WriteOutcome::Applied(2)).text, "Marked as read");
    let n = mark_read_reply(WriteOutcome::Applied(0));
    assert_eq!((n.status, n.is_error, n.text.as_str()), (Status::Success, false, "Not found"));
    assert_eq!(mark_read_reply(WriteOutcome::Failed).status, Status::ServerError);
    assert_eq!(messages_fetch_failed().text, "Failed to fetch messages");
    assert_eq!(messages_saved_reply().text, "Messages saved successfully");
    assert_eq!(flag_update_reply(true).text, "Updated");
    assert_eq!(flag_update_reply(false).text, "Failed");
}

#[test]
fn flag_updates() {
    let n = flag_update(None, None, "bad").err().unwrap();
    assert_eq!(n.text, "No fields to update");
    let n = flag_update(Some(true), None, "bad").err().unwrap();
    assert_eq!(n.text, "Invalid message ID");
    let u = flag_update(None, Some(false), ID).ok().unwrap();
    assert_eq!(object_id_text(&u.key), ID);
    assert_eq!(u.changes.len(), 1);
    assert_eq!((u.changes[0].field.as_str(), u.changes[0].value), ("starred", false));
    let u = flag_update(Some(true), Some(true), ID).ok().unwrap();
    assert_eq!(u.changes[0].field, "read");
    assert_eq!(u.changes[1].field, "starred");
}

#[test]
fn inbox_deletions() {
    match after_delete_by_client_id(WriteOutcome::Applied(1), "welcome-email") {
        DeletionNext::Reply(n) => assert_eq!(n.text, "Deleted"),
        _ => panic!("deleted by client id"),
    }
    match after_delete_by_client_id(WriteOutcome::Applied(0), "welcome-email") {
        DeletionNext::Reply(n) => assert_eq!((n.status, n.text.as_str()), (Status::BadRequest, "Invalid message ID")),
        _ => panic!("not an object id"),
    }
    match after_delete_by_client_id(WriteOutcome::Failed, ID) {
        DeletionNext::DeleteByKey(k) => assert_eq!(object_id_text(&k), ID),
        _ => panic!("tried as an object id"),
    }
    assert_eq!(after_delete_by_key(true).text, "Deleted");
    assert_eq!(after_delete_by_key(false).text, "Failed");
}

#[test]
fn user_listings() {
    let l = user_listing(stored_user());
    assert_eq!(l.id.as_deref(), Some("abababababababababababab"));
    assert_eq!(l.email, "grace@example.com");
    assert!(l.role.is_none());
}

#[test]
fn admin_emails() {
    let body = "x".repeat(150);
    let e = admin_email("u", "Boss", "Hi", &body, 1700000000000);
    assert_eq!(e.id, "admin-email-1700000000000");
    assert_eq!(e.preview.chars().count(), 100);
    assert_eq!(e.body, body);
    assert_eq!(e.kind, EmailKind::Admin);
    assert!(e.unread && !e.starred);
    let e = admin_email("u", "Boss", "Hi", "ünïcode", 5);
    assert_eq!(e.preview, "ünïcode");
}

#[test]
fn admin_mailings_count_stored_emails() {
    let mut m = AdminMailing::new(
        vec!["a".to_string(), "b".to_string(), "c".to_string()],
        "Boss".to_string(),
        "Hi".to_string(),
        "Body".to_string(),
    );
    m.record(true);
    assert_eq!(m.summary(), (0, 3));
    let e = m.next_email(10).unwrap();
    assert_eq!(e.user_id, "a");
    m.record(true);
    let e = m.next_email(11).unwrap();
    assert_eq!(e.user_id, "b");
    assert_eq!(e.id, "admin-email-11");
    m.record(false);
    let e = m.next_email(12).unwrap();
    assert_eq!(e.user_id, "c");
    m.record(true);
    m.record(true);
    assert!(m.next_email(13).is_none());
    assert_eq!(m.summary(), (2, 3));
    let r = m.reply();
    assert_eq!((r.message.as_str(), r.count, r.requested), ("Email sent", 2, 3));
}

#[test]
fn viewed_emails() {
    let ids = viewed_emails_result(Lookup::Found(Some(vec![Some("e1".to_string()), None, Some("e2".to_string())]))).ok().unwrap();
    assert_eq!(ids, vec!["e1".to_string(), "e2".to_string()]);
    assert!(viewed_emails_result(Lookup::Found(None)).ok().unwrap().is_empty());
    assert!(viewed_emails_result(Lookup::Missing).ok().unwrap().is_empty());
    assert_eq!(viewed_emails_result(Lookup::Failed).err().unwrap().text, "Failed");
    let n = after_viewed_update(WriteOutcome::Applied(0));
    assert!(n.insert_fresh);
    assert_eq!(n.reply.text, "Marked as viewed");
    assert!(!after_viewed_update(WriteOutcome::Applied(1)).insert_fresh);
    let n = after_viewed_update(WriteOutcome::Failed);
    assert!(!n.insert_fresh);
    assert_eq!(n.reply.text, "Failed");
}

#[test]
fn account_records_keep_the_stored_value() {
    let u = dispatch::accounts::account_record(&form(), "stored".to_string(), 9);
    assert_eq!(u.password, "stored");
    assert_eq!(u.created_at, Some(9));
    assert_eq!(u.last_name, "Hopper");
}

#[test]
fn empty_mailing_reply() {
    let m = AdminMailing::new(vec![], "admin".to_string(), "s".to_string(), "b".to_string());
    let r = m.reply();
    assert_eq!((r.message.as_str(), r.count, r.requested), ("Email sent", 0, 0));
}

#[test]
fn client_emails_are_stamped() {
    let mut m: serde_json::Value = serde_json::from_str(r#"{"id":"e1","user_id":"other","createdAt":"x","subject":"s"}"#).unwrap();
    assert!(can_stamp(&m));
    stamp_message(&mut m, "u9", 1234);
    assert_eq!(m["user_id"], "u9");
    assert_eq!(m["createdAt"], 1234);
    assert_eq!(m["id"], "e1");
    assert_eq!(m["subject"], "s");
    let mut n = serde_json::Value::Null;
    assert!(can_stamp(&n));
    stamp_message(&mut n, "u9", 5);
    assert_eq!(n["user_id"], "u9");
    let arr: serde_json::Value = serde_json::from_str("[1,2]").unwrap();
    assert!(!can_stamp(&arr));
    assert!(!can_stamp(&serde_json::Value::from(3)));
}
