//! The other chat events a socket carries (typing notices, read receipts,
//! deletions), the online-status broadcast, and the socket session loop.

use vstd::prelude::*;
use crate::object_id::{ObjectKey, parse_object_id, is_object_id_text, names_key};
use crate::text::{str_eq, opt_text};
use crate::chat_send::{ChatSendView, touch_for, unread_field_for};

verus! {

#[verifier::external_type_specification]
#[verifier::external_body]
pub struct ExJsonValue(serde_json::Value);

/// `Value`'s derived `clone`: an equal value.
pub assume_specification[ <serde_json::Value as Clone>::clone ](v: &serde_json::Value) -> (r:
    serde_json::Value)
    ensures
        r == *v,
;

/// The string-valued members of the JSON object that `text` holds, or
/// `None` when `text` is not JSON (a JSON value that is not an object has
/// no members).
pub uninterp spec fn json_text_members(text: Seq<char>) -> Option<Map<Seq<char>, Seq<char>>>;

/// The string-valued members of a JSON value (none unless it is an object).
pub uninterp spec fn json_value_members(v: serde_json::Value) -> Map<Seq<char>, Seq<char>>;

/// `serde_json::from_str::<Value>(text)`, with its error turned into
/// `None`: it succeeds exactly on JSON text, and the value holds the
/// members the text spells.
#[verifier::external_body]
fn parse_json(text: &str) -> (r: Option<serde_json::Value>)
    ensures
        r is Some <==> json_text_members(text@) is Some,
        r matches Some(v) ==> json_value_members(v) == json_text_members(text@)->0,
{
    match serde_json::from_str::<serde_json::Value>(text) {
        Ok(v) => Some(v),
        Err(_) => None,
    }
}

/// `Value::get(key)` keeping only a string member: the member `key` of an
/// object when it is a string, `None` otherwise.
#[verifier::external_body]
fn json_string_member(v: &serde_json::Value, key: &str) -> (r: Option<String>)
    ensures
        opt_text(r) == member(json_value_members(*v), key@),
{
    match v.get(key) {
        Some(serde_json::Value::String(s)) => Some(s.clone()),
        _ => None,
    }
}

/// The member `key` of a map of string members.
pub open spec fn member(m: Map<Seq<char>, Seq<char>>, key: Seq<char>) -> Option<Seq<char>> {
    if m.contains_key(key) {
        Some(m[key])
    } else {
        None
    }
}

/// A chat event as a client sent it over the socket: the string members the
/// server reads (`None` when missing or not a string), and the whole value.
pub struct ChatEvent {
    pub kind: Option<String>,
    pub to: Option<String>,
    pub content: Option<String>,
    pub temp_id: Option<String>,
    pub conversation_id: Option<String>,
    pub message_id: Option<String>,
    pub body: serde_json::Value,
}

/// Reads a socket text frame as a chat event; text that is not JSON is
/// dropped (`None`).
pub fn parse_chat_event(text: &str) -> (r: Option<ChatEvent>)
    ensures
        r is Some <==> json_text_members(text@) is Some,
        r matches Some(e) ==> {
            let m = json_text_members(text@)->0;
            &&& opt_text(e.kind) == member(m, "type"@)
            &&& opt_text(e.to) == member(m, "to"@)
            &&& opt_text(e.content) == member(m, "content"@)
            &&& opt_text(e.temp_id) == member(m, "temp_id"@)
            &&& opt_text(e.conversation_id) == member(m, "conversation_id"@)
            &&& opt_text(e.message_id) == member(m, "message_id"@)
            &&& json_value_members(e.body) == m
        },
{
    let body = match parse_json(text) {
        Some(v) => v,
        None => return None,
    };
    Some(
        ChatEvent {
            kind: json_string_member(&body, "type"),
            to: json_string_member(&body, "to"),
            content: json_string_member(&body, "content"),
            temp_id: json_string_member(&body, "temp_id"),
            conversation_id: json_string_member(&body, "conversation_id"),
            message_id: json_string_member(&body, "message_id"),
            body,
        },
    )
}

/// What a socket event asks for, by its `type` member.
#[derive(Clone, Copy, PartialEq, Eq, Debug)]
pub enum EventKind {
    Message,
    Typing,
    StopTyping,
    Read,
    Delete,
    /// Any other `type`, or none: the event is dropped.
    Ignored,
}

/// The kind of an event whose `type` member is `kind` (`None` when it is
/// missing or not a string).
pub open spec fn event_kind_of(kind: Option<Seq<char>>) -> EventKind {
    match kind {
        Some(k) => if k == "message"@ {
            EventKind::Message
        } else if k == "typing"@ {
            EventKind::Typing
        } else if k == "stop_typing"@ {
            EventKind::StopTyping
        } else if k == "read"@ {
            EventKind::Read
        } else if k == "delete"@ {
            EventKind::Delete
        } else {
            EventKind::Ignored
        },
        None => EventKind::Ignored,
    }
}

/// Classifies an event by its `type` member.
pub fn event_kind(kind: &Option<String>) -> (k: EventKind)
    ensures
        k == event_kind_of(opt_text(*kind)),
{
    match kind {
        Some(k) => {
            let k = k.as_str();
            if str_eq(k, "message") {
                EventKind::Message
            } else if str_eq(k, "typing") {
                EventKind::Typing
            } else if str_eq(k, "stop_typing") {
                EventKind::StopTyping
            } else if str_eq(k, "read") {
                EventKind::Read
            } else if str_eq(k, "delete") {
                EventKind::Delete
            } else {
                EventKind::Ignored
            }
        },
        None => EventKind::Ignored,
    }
}

/// A typing notice for user `to`: `from` started (or stopped) typing.
pub struct TypingNotice {
    pub to: String,
    pub from: String,
    pub typing: bool,
}

/// The notice forwarded for a `typing` or `stop_typing` event of `sender_id`
/// whose `to` member is `to`; none when `to` is missing.
pub fn typing_notice(sender_id: &str, to: Option<String>, typing: bool) -> (r: Option<TypingNotice>)
    ensures
        r is Some <==> to is Some,
        r matches Some(n) ==> n.to@ == to->0@ && n.from@ == sender_id@ && n.typing == typing,
{
    match to {
        Some(to) => Some(TypingNotice { to, from: sender_id.to_string(), typing }),
        None => None,
    }
}

/// The string items of a JSON array, in order (`None` stands for an item
/// that is not a string).
pub open spec fn string_items(items: Seq<Option<String>>) -> Seq<Seq<char>>
    decreases items.len(),
{
    if items.len() == 0 {
        Seq::empty()
    } else {
        let rest = string_items(items.drop_last());
        match items.last() {
            Some(s) => rest.push(s@),
            None => rest,
        }
    }
}

/// The string items of a JSON array other than `excluded`, in order.
pub open spec fn other_items(items: Seq<Option<String>>, excluded: Seq<char>) -> Seq<Seq<char>>
    decreases items.len(),
{
    if items.len() == 0 {
        Seq::empty()
    } else {
        let rest = other_items(items.drop_last(), excluded);
        match items.last() {
            Some(s) => if s@ == excluded {
                rest
            } else {
                rest.push(s@)
            },
            None => rest,
        }
    }
}

/// Keeps the string items of an array, in order.
pub fn keep_strings(items: &Vec<Option<String>>) -> (r: Vec<String>)
    ensures
        r@.map_values(|s: String| s@) == string_items(items@),
{
    let mut r: Vec<String> = Vec::new();
    let mut i: usize = 0;
    while i < items.len()
        invariant
            i <= items.len(),
            r@.map_values(|s: String| s@) == string_items(items@.take(i as int)),
        decreases items.len() - i,
    {
        assert(items@.take(i as int + 1).drop_last() =~= items@.take(i as int));
        match &items[i] {
            Some(s) => {
                r.push(s.clone());
            },
            None => {},
        }
        i = i + 1;
        assert(r@.map_values(|s: String| s@) =~= string_items(items@.take(i as int)));
    }
    assert(items@.take(items.len() as int) =~= items@);
    r
}

/// Keeps the string items of an array other than `excluded`, in order.
pub fn others(items: &Vec<Option<String>>, excluded: &str) -> (r: Vec<String>)
    ensures
        r@.map_values(|s: String| s@) == other_items(items@, excluded@),
{
    let mut r: Vec<String> = Vec::new();
    let mut i: usize = 0;
    while i < items.len()
        invariant
            i <= items.len(),
            r@.map_values(|s: String| s@) == other_items(items@.take(i as int), excluded@),
        decreases items.len() - i,
    {
        assert(items@.take(i as int + 1).drop_last() =~= items@.take(i as int));
        match &items[i] {
            Some(s) => {
                if !str_eq(s.as_str(), excluded) {
                    r.push(s.clone());
                }
            },
            None => {},
        }
        i = i + 1;
        assert(r@.map_values(|s: String| s@) =~= other_items(items@.take(i as int), excluded@));
    }
    assert(items@.take(items.len() as int) =~= items@);
    r
}

/// The users told of `user_id`'s online status: for each of its
/// conversations in turn, the string participants other than the user.
pub open spec fn status_audience(conversations: Seq<Vec<Option<String>>>, user: Seq<char>) -> Seq<
    Seq<char>,
>
    decreases conversations.len(),
{
    if conversations.len() == 0 {
        Seq::empty()
    } else {
        status_audience(conversations.drop_last(), user) + other_items(
            conversations.last()@,
            user,
        )
    }
}

/// Who is told that `user_id` came online or went offline, given the
/// participant arrays of the conversations it takes part in. A user who
/// shares several conversations is told once per conversation, as the
/// server does.
pub fn online_status_audience(user_id: &str, conversations: &Vec<Vec<Option<String>>>) -> (r: Vec<
    String,
>)
    ensures
        r@.map_values(|s: String| s@) == status_audience(conversations@, user_id@),
{
    let mut r: Vec<String> = Vec::new();
    let mut i: usize = 0;
    while i < conversations.len()
        invariant
            i <= conversations.len(),
            r@.map_values(|s: String| s@) == status_audience(
                conversations@.take(i as int),
                user_id@,
            ),
        decreases conversations.len() - i,
    {
        assert(conversations@.take(i as int + 1).drop_last() =~= conversations@.take(i as int));
        let more = others(&conversations[i], user_id);
        let ghost before = r@;
        let mut j: usize = 0;
        while j < more.len()
            invariant
                j <= more.len(),
                r@ == before + more@.take(j as int),
            decreases more.len() - j,
        {
            r.push(more[j].clone());
            j = j + 1;
            assert(r@ =~= before + more@.take(j as int));
        }
        assert(more@.take(more.len() as int) =~= more@);
        i = i + 1;
        assert(r@.map_values(|s: String| s@) =~= status_audience(
            conversations@.take(i as int),
            user_id@,
        ));
    }
    assert(conversations@.take(conversations.len() as int) =~= conversations@);
    r
}

/// The online-status notice: `user_id` is (or is no longer) online, and was
/// last seen at `last_seen` when it went offline.
pub struct OnlineStatus {
    pub user_id: String,
    pub online: bool,
    pub last_seen: Option<i64>,
}

/// The record update and broadcast made when a socket opens (`online`) or
/// closes: the user's document (when its id is an object id) gets
/// `online` and, on closing, `last_seen`.
pub struct PresenceChange {
    pub key: Option<ObjectKey>,
    pub status: OnlineStatus,
}

/// The change of presence of `user_id` at `now`: coming online records no
/// time; going offline records `now` as the last time seen.
pub fn presence_change(user_id: &str, online: bool, now: i64) -> (r: PresenceChange)
    ensures
        r.key is Some <==> is_object_id_text(user_id@),
        r.key matches Some(k) ==> names_key(user_id@, k),
        r.status.user_id@ == user_id@,
        r.status.online == online,
        r.status.last_seen == (if online { None } else { Some(now) }),
{
    let key = parse_object_id(user_id);
    let last_seen = if online {
        None
    } else {
        Some(now)
    };
    PresenceChange { key, status: OnlineStatus { user_id: user_id.to_string(), online, last_seen } }
}

/// Which chat messages an update applies to: those of `conversation_id`
/// not sent by `sender_not` whose `read` and `deleted` flags have these
/// values.
pub struct MessageSelection {
    pub conversation_id: String,
    pub sender_not: String,
    pub read: bool,
    pub deleted: bool,
}

/// A read receipt to carry out: the selected messages get `read` set to
/// `message_read`, and the conversation `key` gets its counter
/// `unread_field` set to `unread_value`.
pub struct ReadReceipt {
    pub conversation_id: String,
    pub key: ObjectKey,
    pub reader_id: String,
    pub selection: MessageSelection,
    pub message_read: bool,
    pub unread_field: String,
    pub unread_value: i32,
}

/// `receipt` is the read receipt of `reader` for `conversation_id`: the
/// messages of the conversation that others sent, still unread and not
/// deleted, are marked read, and the reader's unread counter goes to 0.
pub open spec fn is_receipt_for(receipt: ReadReceipt, reader: Seq<char>, conversation_id: Seq<char>) -> bool {
    &&& receipt.conversation_id@ == conversation_id
    &&& names_key(conversation_id, receipt.key)
    &&& receipt.reader_id@ == reader
    &&& receipt.selection.conversation_id@ == conversation_id
    &&& receipt.selection.sender_not@ == reader
    &&& !receipt.selection.read
    &&& !receipt.selection.deleted
    &&& receipt.message_read
    &&& receipt.unread_field@ == unread_field_for(reader)
    &&& receipt.unread_value == 0
}

/// The read receipt of `reader_id` for the event's `conversation_id`:
/// none when it is missing or not object id text.
pub fn read_receipt(reader_id: &str, conversation_id: Option<String>) -> (r: Option<ReadReceipt>)
    ensures
        r is Some <==> (conversation_id is Some && is_object_id_text(conversation_id->0@)),
        r matches Some(rr) ==> is_receipt_for(rr, reader_id@, conversation_id->0@),
{
    let conversation_id = match conversation_id {
        Some(c) => c,
        None => return None,
    };
    let key = match parse_object_id(conversation_id.as_str()) {
        Some(k) => k,
        None => return None,
    };
    let mut unread_field = "unread.".to_string();
    unread_field.append(reader_id);
    let selection = MessageSelection {
        conversation_id: conversation_id.clone(),
        sender_not: reader_id.to_string(),
        read: false,
        deleted: false,
    };
    Some(
        ReadReceipt {
            conversation_id,
            key,
            reader_id: reader_id.to_string(),
            selection,
            message_read: true,
            unread_field,
            unread_value: 0,
        },
    )
}

/// A document's fields once `field` is set to `value`, as a `$set` does.
pub open spec fn set_field<V>(doc: Map<Seq<char>, V>, field: Seq<char>, value: V) -> Map<Seq<char>, V> {
    doc.insert(field, value)
}

/// A second identical read receipt changes nothing more: its writes set
/// fields to the same constants again, and a message the first one marked
/// read no longer fits the selection (which takes unread messages only).
pub proof fn repeated_receipt_changes_nothing(
    receipt: ReadReceipt,
    reader: Seq<char>,
    conversation_id: Seq<char>,
    message: Map<Seq<char>, bool>,
    conversation: Map<Seq<char>, i32>,
)
    requires
        is_receipt_for(receipt, reader, conversation_id),
    ensures
        set_field(set_field(message, "read"@, receipt.message_read), "read"@, receipt.message_read)
            == set_field(message, "read"@, receipt.message_read),
        set_field(
            set_field(conversation, receipt.unread_field@, receipt.unread_value),
            receipt.unread_field@,
            receipt.unread_value,
        ) == set_field(conversation, receipt.unread_field@, receipt.unread_value),
        set_field(message, "read"@, receipt.message_read)["read"@] != receipt.selection.read,
{
    assert(set_field(set_field(message, "read"@, receipt.message_read), "read"@, receipt.message_read)
        =~= set_field(message, "read"@, receipt.message_read));
    assert(set_field(
        set_field(conversation, receipt.unread_field@, receipt.unread_value),
        receipt.unread_field@,
        receipt.unread_value,
    ) =~= set_field(conversation, receipt.unread_field@, receipt.unread_value));
}

/// Who hears of a read receipt: the conversation's string participants
/// other than the reader.
pub fn read_receipt_audience(receipt: &ReadReceipt, participants: &Vec<Option<String>>) -> (r: Vec<
    String,
>)
    ensures
        r@.map_values(|s: String| s@) == other_items(participants@, receipt.reader_id@),
{
    others(participants, receipt.reader_id.as_str())
}

/// The text a deleted chat message is left with.
pub open spec fn deleted_text() -> Seq<char> {
    "This message was deleted"@
}

/// A deletion to carry out: the message `message_key` is changed only if
/// its sender is `required_sender` (the user asking); it then gets
/// `deleted` set to `deleted_value` and its content replaced by
/// `replacement`.
pub struct ChatDeletion {
    pub required_sender: String,
    pub deleted_value: bool,
    pub message_id: String,
    pub conversation_id: String,
    pub message_key: ObjectKey,
    pub conversation_key: ObjectKey,
    pub replacement: String,
}

/// The deletion asked for by `user_id`: none unless both ids are given and
/// are object id text.
pub fn chat_deletion(user_id: &str, message_id: Option<String>, conversation_id: Option<String>) -> (r:
    Option<ChatDeletion>)
    ensures
        r is Some <==> {
            &&& message_id is Some
            &&& conversation_id is Some
            &&& is_object_id_text(message_id->0@)
            &&& is_object_id_text(conversation_id->0@)
        },
        r matches Some(d) ==> {
            &&& d.required_sender@ == user_id@
            &&& d.deleted_value
            &&& d.message_id@ == message_id->0@
            &&& d.conversation_id@ == conversation_id->0@
            &&& names_key(d.message_id@, d.message_key)
            &&& names_key(d.conversation_id@, d.conversation_key)
            &&& d.replacement@ == deleted_text()
        },
{
    let message_id = match message_id {
        Some(m) => m,
        None => return None,
    };
    let conversation_id = match conversation_id {
        Some(c) => c,
        None => return None,
    };
    let message_key = match parse_object_id(message_id.as_str()) {
        Some(k) => k,
        None => return None,
    };
    let conversation_key = match parse_object_id(conversation_id.as_str()) {
        Some(k) => k,
        None => return None,
    };
    Some(
        ChatDeletion {
            required_sender: user_id.to_string(),
            deleted_value: true,
            message_id,
            conversation_id,
            message_key,
            conversation_key,
            replacement: "This message was deleted".to_string(),
        },
    )
}

/// Who hears of a deletion, once the message was changed: every string
/// participant of the conversation, the deleting user included. Nobody
/// hears of it when nothing was changed.
pub fn deletion_audience(modified: bool, participants: &Vec<Option<String>>) -> (r: Vec<String>)
    ensures
        modified ==> r@.map_values(|s: String| s@) == string_items(participants@),
        !modified ==> r@.len() == 0,
{
    if modified {
        keep_strings(participants)
    } else {
        Vec::new()
    }
}

/// What happened on an open socket.
pub enum SessionInput {
    /// A text frame from the client.
    Text(String),
    /// A ping from the client, with its payload.
    Ping(Vec<u8>),
    /// A close frame, or the end of the client's stream.
    Closed,
    /// Any other frame, or a protocol error.
    Other,
    /// A payload queued for this user by another handler.
    Outbound(String),
    /// The queue of payloads for this user was closed.
    QueueClosed,
    /// Writing a payload to the client failed.
    WriteFailed,
}

/// What the session does about it.
pub enum SessionAction {
    /// Handle the text as a chat event.
    Handle(String),
    /// Answer the ping with this payload.
    Pong(Vec<u8>),
    /// Write this payload to the client.
    Write(String),
    /// Nothing.
    Continue,
    /// Leave the loop: the user goes offline.
    Stop,
}

/// One turn of the session loop.
pub fn session_step(input: SessionInput) -> (a: SessionAction)
    ensures
        input matches SessionInput::Text(t) ==> a matches SessionAction::Handle(u) && u@ == t@,
        input matches SessionInput::Ping(p) ==> a matches SessionAction::Pong(q) && q@ == p@,
        input matches SessionInput::Outbound(t) ==> a matches SessionAction::Write(u) && u@ == t@,
        input is Other ==> a is Continue,
        (input is Closed || input is QueueClosed || input is WriteFailed) ==> a is Stop,
{
    match input {
        SessionInput::Text(t) => SessionAction::Handle(t),
        SessionInput::Ping(p) => SessionAction::Pong(p),
        SessionInput::Outbound(t) => SessionAction::Write(t),
        SessionInput::Other => SessionAction::Continue,
        SessionInput::Closed => SessionAction::Stop,
        SessionInput::QueueClosed => SessionAction::Stop,
        SessionInput::WriteFailed => SessionAction::Stop,
    }
}

/// The excluded text is never among the other items.
pub proof fn other_items_exclude(items: Seq<Option<String>>, excluded: Seq<char>)
    ensures
        !other_items(items, excluded).contains(excluded),
    decreases items.len(),
{
    if items.len() > 0 {
        other_items_exclude(items.drop_last(), excluded);
        let rest = other_items(items.drop_last(), excluded);
        match items.last() {
            Some(s) => if s@ != excluded {
                assert forall|i: int| 0 <= i < rest.push(s@).len() implies rest.push(s@)[i] != excluded by {
                    if i < rest.len() {
                        assert(rest.push(s@)[i] == rest[i]);
                    }
                }
            },
            None => {},
        }
    }
}

/// A user is never told of its own change of online status.
pub proof fn status_audience_excludes_user(conversations: Seq<Vec<Option<String>>>, user: Seq<char>)
    ensures
        !status_audience(conversations, user).contains(user),
    decreases conversations.len(),
{
    if conversations.len() > 0 {
        status_audience_excludes_user(conversations.drop_last(), user);
        other_items_exclude(conversations.last()@, user);
        let a = status_audience(conversations.drop_last(), user);
        let b = other_items(conversations.last()@, user);
        assert forall|i: int| 0 <= i < (a + b).len() implies (a + b)[i] != user by {
            if i < a.len() {
                assert((a + b)[i] == a[i]);
            } else {
                assert((a + b)[i] == b[i - a.len()]);
            }
        }
    }
}

/// The counter a read receipt resets is the one that messages sent to the
/// reader count up.
pub proof fn receipt_resets_what_sending_counts(req: ChatSendView, key: ObjectKey, reader: Seq<char>)
    requires
        req.to == reader,
    ensures
        touch_for(req, key).unread_field == unread_field_for(reader),
{
}

} // verus!
