//! The inbox: reading, flagging and deleting e-mails, administrators'
//! mailings, and the record of which e-mails a user has viewed.

use vstd::prelude::*;
use crate::accounts::{UserRecord, EmailKind, InboxEmail, opt_key_text, opt_id_text};
use crate::chat_events::{keep_strings, string_items, json_value_members};
use crate::object_id::{ObjectKey, parse_object_id, is_object_id_text, names_key};
use crate::reply::{Notice, Status, Lookup, WriteOutcome, message, error, message_notice,
    error_notice, refused_with};
use crate::text::{char_prefix, signed_decimal_text, signed_decimal, opt_text};

verus! {

/// The answer to marking an e-mail read: `Marked as read` when a document
/// changed, `Not found` (still 200) when none did, 500 `Failed` when the
/// update failed.
pub fn mark_read_reply(outcome: WriteOutcome) -> (n: Notice)
    ensures
        outcome matches WriteOutcome::Applied(c) && c > 0 ==> n@ == message_notice(
            Status::Success,
            "Marked as read"@,
        ),
        outcome == WriteOutcome::Applied(0) ==> n@ == message_notice(Status::Success, "Not found"@),
        outcome is Failed ==> n@ == error_notice(Status::ServerError, "Failed"@),
{
    match outcome {
        WriteOutcome::Applied(c) => if c > 0 {
            message(Status::Success, "Marked as read")
        } else {
            message(Status::Success, "Not found")
        },
        WriteOutcome::Failed => error(Status::ServerError, "Failed"),
    }
}

/// The answer when e-mails or chat messages could not be fetched.
pub fn messages_fetch_failed() -> (n: Notice)
    ensures
        n@ == error_notice(Status::ServerError, "Failed to fetch messages"@),
{
    error(Status::ServerError, "Failed to fetch messages")
}

/// Whether a JSON value can take members: an object, or `null` (which
/// becomes an empty object when a member is written).
pub uninterp spec fn json_takes_members(v: serde_json::Value) -> bool;

/// The members of a JSON value that hold integers (none unless it is an
/// object).
pub uninterp spec fn json_integer_members(v: serde_json::Value) -> Map<Seq<char>, i64>;

/// Whether the value is an object or `null`, the values `value[key] = ..`
/// writes into without panicking.
#[verifier::external_body]
fn json_accepts_members(v: &serde_json::Value) -> (r: bool)
    ensures
        r == json_takes_members(*v),
{
    match v {
        serde_json::Value::Object(_) => true,
        serde_json::Value::Null => true,
        _ => false,
    }
}

/// `value[key] = Value::String(text)`: `null` becomes an object, and the
/// member `key` is set to the string (replacing what it held).
#[verifier::external_body]
fn json_set_string(v: &mut serde_json::Value, key: &str, text: &str)
    requires
        json_takes_members(*old(v)),
    ensures
        json_takes_members(*final(v)),
        json_value_members(*final(v)) == json_value_members(*old(v)).insert(key@, text@),
        json_integer_members(*final(v)) == json_integer_members(*old(v)).remove(key@),
{
    v[key] = serde_json::Value::String(text.to_string());
}

/// `value[key] = Value::from(n)`: `null` becomes an object, and the member
/// `key` is set to the integer (replacing what it held).
#[verifier::external_body]
fn json_set_integer(v: &mut serde_json::Value, key: &str, n: i64)
    requires
        json_takes_members(*old(v)),
    ensures
        json_takes_members(*final(v)),
        json_value_members(*final(v)) == json_value_members(*old(v)).remove(key@),
        json_integer_members(*final(v)) == json_integer_members(*old(v)).insert(key@, n),
{
    v[key] = serde_json::Value::from(n);
}

/// Whether an e-mail sent by the client can be stamped: it is an object
/// (or `null`); any other JSON value makes the server panic.
pub fn can_stamp(message: &serde_json::Value) -> (r: bool)
    ensures
        r == json_takes_members(*message),
{
    json_accepts_members(message)
}

/// Stamps an e-mail the client sent before it is stored: its `user_id`
/// becomes the user's id and its `createdAt` the time `now`; everything
/// else is kept.
pub fn stamp_message(message: &mut serde_json::Value, user_id: &str, now: i64)
    requires
        json_takes_members(*old(message)),
    ensures
        json_value_members(*final(message)) == json_value_members(*old(message)).insert(
            "user_id"@,
            user_id@,
        ).remove("createdAt"@),
        json_integer_members(*final(message)) == json_integer_members(*old(message)).remove(
            "user_id"@,
        ).insert("createdAt"@, now),
{
    json_set_string(message, "user_id", user_id);
    json_set_integer(message, "createdAt", now);
}

/// The answer to replacing a user's e-mails, which is given whatever the
/// database calls did.
pub fn messages_saved_reply() -> (n: Notice)
    ensures
        n@ == message_notice(Status::Success, "Messages saved successfully"@),
{
    message(Status::Success, "Messages saved successfully")
}

/// A flag of an e-mail set to a value.
pub struct FlagChange {
    pub field: String,
    pub value: bool,
}

/// A checked change of an e-mail's flags: the e-mail's id and the flags to
/// set, `read` before `starred`.
pub struct FlagUpdate {
    pub key: ObjectKey,
    pub changes: Vec<FlagChange>,
}

/// The flags a change sets.
pub open spec fn flag_change_list(read: Option<bool>, starred: Option<bool>) -> Seq<(Seq<char>, bool)> {
    (match read {
        Some(b) => seq![("read"@, b)],
        None => Seq::empty(),
    }) + (match starred {
        Some(b) => seq![("starred"@, b)],
        None => Seq::empty(),
    })
}

/// Checks a change of flags for e-mail `message_id`: with no flag given,
/// 400 `No fields to update`; with an id that is not object id text, 400
/// `Invalid message ID`.
pub fn flag_update(read: Option<bool>, starred: Option<bool>, message_id: &str) -> (r: Result<
    FlagUpdate,
    Notice,
>)
    ensures
        read is None && starred is None ==> refused_with(
            r,
            error_notice(Status::BadRequest, "No fields to update"@),
        ),
        (read is Some || starred is Some) && !is_object_id_text(message_id@) ==> refused_with(
            r,
            error_notice(Status::BadRequest, "Invalid message ID"@),
        ),
        r matches Ok(u) ==> {
            &&& names_key(message_id@, u.key)
            &&& u.changes@.map_values(|c: FlagChange| (c.field@, c.value)) == flag_change_list(
                read,
                starred,
            )
        },
        r is Ok <==> ((read is Some || starred is Some) && is_object_id_text(message_id@)),
{
    let mut changes: Vec<FlagChange> = Vec::new();
    match read {
        Some(b) => {
            changes.push(FlagChange { field: "read".to_string(), value: b });
        },
        None => {},
    }
    match starred {
        Some(b) => {
            changes.push(FlagChange { field: "starred".to_string(), value: b });
        },
        None => {},
    }
    assert(changes@.map_values(|c: FlagChange| (c.field@, c.value)) =~= flag_change_list(
        read,
        starred,
    ));
    if changes.len() == 0 {
        return Err(error(Status::BadRequest, "No fields to update"));
    }
    match parse_object_id(message_id) {
        Some(key) => Ok(FlagUpdate { key, changes }),
        None => Err(error(Status::BadRequest, "Invalid message ID")),
    }
}

/// `changes` sets the flag `field` exactly when `value` is given, and then to
/// that value: every change naming `field` carries it, and a given value is
/// among the changes under `field`.
pub open spec fn sets_flag(changes: Seq<(Seq<char>, bool)>, field: Seq<char>, value: Option<bool>) -> bool {
    &&& forall|i: int|
        0 <= i < changes.len() && (#[trigger] changes[i]).0 == field ==> value is Some
            && changes[i].1 == value->0
    &&& (value matches Some(b) ==> changes.contains((field, b)))
}

/// A change of flags writes each requested flag with the value requested for
/// it, and nothing else: marking an e-mail unread writes `read` = false, and
/// `read` comes first when it is given; every change names `read` or
/// `starred`.
pub proof fn flag_change_writes_what_was_asked(read: Option<bool>, starred: Option<bool>)
    ensures
        sets_flag(flag_change_list(read, starred), "read"@, read),
        sets_flag(flag_change_list(read, starred), "starred"@, starred),
        read matches Some(b) ==> flag_change_list(read, starred)[0] == ("read"@, b),
        forall|i: int|
            0 <= i < flag_change_list(read, starred).len() ==> {
                let f = (#[trigger] flag_change_list(read, starred)[i]).0;
                f == "read"@ || f == "starred"@
            },
{
    reveal_strlit("read");
    reveal_strlit("starred");
    assert("read"@.len() != "starred"@.len());
    let l = flag_change_list(read, starred);
    let x: Seq<(Seq<char>, bool)> = match read {
        Some(b) => seq![("read"@, b)],
        None => Seq::empty(),
    };
    let y: Seq<(Seq<char>, bool)> = match starred {
        Some(b) => seq![("starred"@, b)],
        None => Seq::empty(),
    };
    assert(l == x + y);
    assert forall|i: int| 0 <= i < l.len() implies (#[trigger] l[i]) == (if i < x.len() {
        x[i]
    } else {
        y[i - x.len()]
    }) by {}
    if read is Some {
        assert(l[0] == ("read"@, read->0));
    }
    if starred is Some {
        assert(l[x.len() as int] == ("starred"@, starred->0));
    }
}

/// The answer to a change of flags, by whether the update went through.
pub fn flag_update_reply(saved: bool) -> (n: Notice)
    ensures
        saved ==> n@ == message_notice(Status::Success, "Updated"@),
        !saved ==> n@ == error_notice(Status::ServerError, "Failed"@),
{
    if saved {
        message(Status::Success, "Updated")
    } else {
        error(Status::ServerError, "Failed")
    }
}

/// What follows the first attempt to delete an e-mail, by its client id.
pub enum DeletionNext {
    /// Answer with this notice; the deletion is over.
    Reply(Notice),
    /// Delete the user's e-mail whose object id is this.
    DeleteByKey(ObjectKey),
}

/// After deleting the user's e-mail whose client id is `message_id`: if
/// one was deleted, `Deleted`; otherwise (none matched, or the call
/// failed) the id is tried as an object id, and an id that is not object
/// id text gets 400 `Invalid message ID`.
pub fn after_delete_by_client_id(outcome: WriteOutcome, message_id: &str) -> (r: DeletionNext)
    ensures
        outcome matches WriteOutcome::Applied(c) && c > 0 ==> (r matches DeletionNext::Reply(n)
            && n@ == message_notice(Status::Success, "Deleted"@)),
        !(outcome matches WriteOutcome::Applied(c) && c > 0) ==> {
            if is_object_id_text(message_id@) {
                r matches DeletionNext::DeleteByKey(k) && names_key(message_id@, k)
            } else {
                r matches DeletionNext::Reply(n) && n@ == error_notice(
                    Status::BadRequest,
                    "Invalid message ID"@,
                )
            }
        },
{
    match outcome {
        WriteOutcome::Applied(c) => {
            if c > 0 {
                return DeletionNext::Reply(message(Status::Success, "Deleted"));
            }
        },
        WriteOutcome::Failed => {},
    }
    match parse_object_id(message_id) {
        Some(k) => DeletionNext::DeleteByKey(k),
        None => DeletionNext::Reply(error(Status::BadRequest, "Invalid message ID")),
    }
}

/// The answer after deleting by object id: `Deleted` when the call went
/// through (whether or not it matched), 500 `Failed` when it failed.
pub fn after_delete_by_key(ok: bool) -> (n: Notice)
    ensures
        ok ==> n@ == message_notice(Status::Success, "Deleted"@),
        !ok ==> n@ == error_notice(Status::ServerError, "Failed"@),
{
    if ok {
        message(Status::Success, "Deleted")
    } else {
        error(Status::ServerError, "Failed")
    }
}

/// A user as listed to administrators: id, names, e-mail address and role.
pub struct UserListing {
    pub id: Option<String>,
    pub first_name: String,
    pub last_name: String,
    pub email: String,
    pub role: Option<String>,
}

/// The listing of a user.
pub fn user_listing(u: UserRecord) -> (l: UserListing)
    ensures
        opt_text(l.id) == opt_key_text(u.id),
        l.first_name@ == u.first_name@,
        l.last_name@ == u.last_name@,
        l.email@ == u.email@,
        opt_text(l.role) == opt_text(u.role),
{
    UserListing {
        id: opt_id_text(u.id),
        first_name: u.first_name,
        last_name: u.last_name,
        email: u.email,
        role: u.role,
    }
}

/// The answer when the user list could not be fetched.
pub fn user_list_failed() -> (n: Notice)
    ensures
        n@ == error_notice(Status::ServerError, "Failed to fetch users"@),
{
    error(Status::ServerError, "Failed to fetch users")
}

/// How many characters of an e-mail's body its preview shows.
pub const PREVIEW_CHARS: usize = 100;

/// The id of an administrator's e-mail sent at `timestamp`.
pub open spec fn admin_email_id(timestamp: i64) -> Seq<char> {
    "admin-email-"@ + signed_decimal(timestamp as int)
}

/// `e` is the e-mail an administrator's mailing from `from` with `subject`
/// and `body` puts in `user_id`'s inbox at `timestamp`.
pub open spec fn is_admin_email(
    e: InboxEmail,
    user_id: Seq<char>,
    from: Seq<char>,
    subject: Seq<char>,
    body: Seq<char>,
    timestamp: i64,
) -> bool {
    &&& e.user_id@ == user_id
    &&& e.id@ == admin_email_id(timestamp)
    &&& e.from@ == from
    &&& e.subject@ == subject
    &&& e.preview@ == body.take(if body.len() < 100 { body.len() as int } else { 100 })
    &&& e.body@ == body
    &&& e.timestamp@ == "just now"@
    &&& e.created_at_timestamp == timestamp
    &&& e.unread
    &&& !e.starred
    &&& e.role@ == "admin"@
    &&& e.kind == EmailKind::Admin
}

/// The e-mail an administrator's mailing puts in `user_id`'s inbox at
/// `timestamp`: its preview is the first hundred characters of the body.
pub fn admin_email(user_id: &str, from: &str, subject: &str, body: &str, timestamp: i64) -> (e:
    InboxEmail)
    ensures
        is_admin_email(e, user_id@, from@, subject@, body@, timestamp),
{
    let mut id = "admin-email-".to_string();
    id.append(signed_decimal_text(timestamp).as_str());
    InboxEmail {
        user_id: user_id.to_string(),
        id,
        from: from.to_string(),
        subject: subject.to_string(),
        preview: char_prefix(body, PREVIEW_CHARS),
        body: body.to_string(),
        timestamp: "just now".to_string(),
        created_at_timestamp: timestamp,
        unread: true,
        starred: false,
        role: "admin".to_string(),
        kind: EmailKind::Admin,
    }
}

/// The answer to an administrator's mailing (always 200).
pub struct MailingReply {
    pub message: String,
    pub count: usize,
    pub requested: usize,
}

/// An administrator's mailing to a list of users, one e-mail at a time:
/// `next_email` gives the e-mail for the next user, `record` says whether
/// storing it worked, and the mailing counts the e-mails stored.
pub struct AdminMailing {
    user_ids: Vec<String>,
    from: String,
    subject: String,
    body: String,
    next: usize,
    sent: usize,
    awaiting: bool,
}

impl AdminMailing {
    #[verifier::type_invariant]
    spec fn counts_agree(self) -> bool {
        &&& self.next <= self.user_ids@.len()
        &&& self.sent + (if self.awaiting { 1int } else { 0int }) <= self.next
    }

    /// The users still to be written to after the current one.
    pub closed spec fn remaining(self) -> nat {
        (self.user_ids@.len() - self.next) as nat
    }

    /// The users the mailing is for, in order.
    pub closed spec fn recipients(self) -> Seq<Seq<char>> {
        self.user_ids@.map_values(|s: String| s@)
    }

    /// How many e-mails have been handed out.
    pub closed spec fn handed_out(self) -> nat {
        self.next as nat
    }

    /// How many e-mails were stored.
    pub closed spec fn stored(self) -> nat {
        self.sent as nat
    }

    /// Whether an e-mail was handed out and its outcome not yet recorded.
    pub closed spec fn awaiting_outcome(self) -> bool {
        self.awaiting
    }

    pub closed spec fn sender(self) -> Seq<char> {
        self.from@
    }

    pub closed spec fn topic(self) -> Seq<char> {
        self.subject@
    }

    pub closed spec fn text(self) -> Seq<char> {
        self.body@
    }

    /// A mailing of an e-mail from `from` with `subject` and `body` to each
    /// of `user_ids`.
    pub fn new(user_ids: Vec<String>, from: String, subject: String, body: String) -> (m: Self)
        ensures
            m.recipients() == user_ids@.map_values(|s: String| s@),
            m.sender() == from@,
            m.topic() == subject@,
            m.text() == body@,
            m.handed_out() == 0,
            m.stored() == 0,
            !m.awaiting_outcome(),
    {
        AdminMailing { user_ids, from, subject, body, next: 0, sent: 0, awaiting: false }
    }

    /// The e-mail for the next user, made at `timestamp`, or `None` when
    /// every user has had one.
    pub fn next_email(&mut self, timestamp: i64) -> (e: Option<InboxEmail>)
        ensures
            final(self).recipients() == old(self).recipients(),
            final(self).sender() == old(self).sender(),
            final(self).topic() == old(self).topic(),
            final(self).text() == old(self).text(),
            final(self).stored() == old(self).stored(),
            old(self).handed_out() < old(self).recipients().len() ==> {
                &&& final(self).handed_out() == old(self).handed_out() + 1
                &&& final(self).awaiting_outcome()
                &&& e matches Some(m) && is_admin_email(
                    m,
                    old(self).recipients()[old(self).handed_out() as int],
                    old(self).sender(),
                    old(self).topic(),
                    old(self).text(),
                    timestamp,
                )
            },
            old(self).handed_out() >= old(self).recipients().len() ==> {
                &&& e is None
                &&& final(self).handed_out() == old(self).handed_out()
                &&& final(self).awaiting_outcome() == old(self).awaiting_outcome()
            },
    {
        proof {
            use_type_invariant(&*self);
        }
        if self.next >= self.user_ids.len() {
            return None;
        }
        let e = admin_email(
            self.user_ids[self.next].as_str(),
            self.from.as_str(),
            self.subject.as_str(),
            self.body.as_str(),
            timestamp,
        );
        self.next = self.next + 1;
        self.awaiting = true;
        Some(e)
    }

    /// Records whether the e-mail last handed out was stored. An outcome
    /// with no e-mail awaiting it is not counted.
    pub fn record(&mut self, stored: bool)
        ensures
            final(self).recipients() == old(self).recipients(),
            final(self).sender() == old(self).sender(),
            final(self).topic() == old(self).topic(),
            final(self).text() == old(self).text(),
            final(self).handed_out() == old(self).handed_out(),
            !final(self).awaiting_outcome(),
            final(self).stored() == old(self).stored() + (if old(self).awaiting_outcome() && stored {
                1nat
            } else {
                0nat
            }),
    {
        proof {
            use_type_invariant(&*self);
        }
        let counted = self.awaiting && stored;
        self.awaiting = false;
        if counted {
            self.sent = self.sent + 1;
        }
    }

    /// The answer to the mailing: `Email sent`, with how many e-mails were
    /// stored and how many users were asked for.
    pub fn reply(&self) -> (r: MailingReply)
        ensures
            r.message@ == "Email sent"@,
            r.count == self.stored(),
            r.requested == self.recipients().len(),
            r.count <= r.requested,
    {
        let (count, requested) = self.summary();
        MailingReply { message: "Email sent".to_string(), count, requested }
    }

    /// How many e-mails were stored, and how many users were asked for.
    pub fn summary(&self) -> (r: (usize, usize))
        ensures
            r.0 == self.stored(),
            r.1 == self.recipients().len(),
            r.0 <= r.1,
    {
        proof {
            use_type_invariant(self);
        }
        (self.sent, self.user_ids.len())
    }
}

/// The answer to a request for the e-mails a user viewed: the string ids
/// of its record (none when it has no record, or the record holds no
/// array), or 500 `Failed`.
pub fn viewed_emails_result(found: Lookup<Option<Vec<Option<String>>>>) -> (r: Result<
    Vec<String>,
    Notice,
>)
    ensures
        found matches Lookup::Found(Some(ids)) ==> (r matches Ok(v) && v@.map_values(
            |s: String| s@,
        ) == string_items(ids@)),
        found matches Lookup::Found(None) ==> (r matches Ok(v) && v@.len() == 0),
        found is Missing ==> (r matches Ok(v) && v@.len() == 0),
        found is Failed ==> refused_with(r, error_notice(Status::ServerError, "Failed"@)),
{
    match found {
        Lookup::Found(Some(ids)) => Ok(keep_strings(&ids)),
        Lookup::Found(None) => Ok(Vec::new()),
        Lookup::Missing => Ok(Vec::new()),
        Lookup::Failed => Err(error(Status::ServerError, "Failed")),
    }
}

/// What follows adding an e-mail to a user's viewed record.
pub struct ViewedNext {
    /// Also insert a fresh record holding just this e-mail id.
    pub insert_fresh: bool,
    pub reply: Notice,
}

/// After adding the e-mail id to the user's record: when no record
/// changed (none exists, or it held the id already), a fresh record is
/// inserted too; either way the answer is `Marked as viewed`. A failed
/// update gets 500 `Failed`.
pub fn after_viewed_update(outcome: WriteOutcome) -> (r: ViewedNext)
    ensures
        outcome == WriteOutcome::Applied(0) ==> r.insert_fresh,
        outcome matches WriteOutcome::Applied(c) && c > 0 ==> !r.insert_fresh,
        outcome is Applied ==> r.reply@ == message_notice(Status::Success, "Marked as viewed"@),
        outcome is Failed ==> !r.insert_fresh && r.reply@ == error_notice(
            Status::ServerError,
            "Failed"@,
        ),
{
    match outcome {
        WriteOutcome::Applied(c) => ViewedNext {
            insert_fresh: c == 0,
            reply: message(Status::Success, "Marked as viewed"),
        },
        WriteOutcome::Failed => ViewedNext {
            insert_fresh: false,
            reply: error(Status::ServerError, "Failed"),
        },
    }
}

/// Whether an array item is the string `x`.
pub open spec fn is_string(item: Option<String>, x: Seq<char>) -> bool {
    match item {
        Some(s) => s@ == x,
        None => false,
    }
}

/// Whether the array holds the string `x`.
pub open spec fn holds_string(items: Seq<Option<String>>, x: Seq<char>) -> bool {
    exists|i: int| 0 <= i < items.len() && is_string(#[trigger] items[i], x)
}

/// No string occurs twice in the array.
pub open spec fn distinct_strings(items: Seq<Option<String>>) -> bool {
    forall|i: int, j: int|
        0 <= i < j < items.len() && (#[trigger] items[i]) is Some && (#[trigger] items[j]) is Some
            ==> items[i]->0@ != items[j]->0@
}

proof fn string_items_members(items: Seq<Option<String>>, x: Seq<char>)
    ensures
        string_items(items).contains(x) <==> holds_string(items, x),
    decreases items.len(),
{
    if items.len() > 0 {
        let front = items.drop_last();
        string_items_members(front, x);
        let rest = string_items(front);
        if holds_string(front, x) {
            let i = choose|i: int| 0 <= i < front.len() && is_string(#[trigger] front[i], x);
            assert(items[i] == front[i]);
        }
        if holds_string(items, x) {
            let i = choose|i: int| 0 <= i < items.len() && is_string(#[trigger] items[i], x);
            if i < front.len() {
                assert(front[i] == items[i]);
            }
        }
        match items.last() {
            Some(s) => {
                assert(rest.push(s@)[rest.len() as int] == s@);
                if rest.push(s@).contains(x) {
                    let k = choose|k: int| 0 <= k < rest.push(s@).len() && rest.push(s@)[k] == x;
                    if k < rest.len() {
                        assert(rest.contains(x));
                    } else {
                        assert(is_string(items[items.len() - 1], x));
                    }
                }
                if rest.contains(x) {
                    let k = choose|k: int| 0 <= k < rest.len() && rest[k] == x;
                    assert(rest.push(s@)[k] == x);
                }
            },
            None => {
                if holds_string(items, x) {
                    let i = choose|i: int| 0 <= i < items.len() && is_string(#[trigger] items[i], x);
                    assert(i < front.len());
                    assert(front[i] == items[i]);
                }
            },
        }
    }
}

proof fn string_items_distinct(items: Seq<Option<String>>)
    requires
        distinct_strings(items),
    ensures
        string_items(items).no_duplicates(),
    decreases items.len(),
{
    if items.len() > 0 {
        let front = items.drop_last();
        assert forall|i: int, j: int|
            0 <= i < j < front.len() && (#[trigger] front[i]) is Some && (#[trigger] front[j]) is Some
                implies front[i]->0@ != front[j]->0@ by {
            assert(front[i] == items[i] && front[j] == items[j]);
        }
        string_items_distinct(front);
        let rest = string_items(front);
        match items.last() {
            Some(s) => {
                string_items_members(front, s@);
                if holds_string(front, s@) {
                    let i = choose|i: int| 0 <= i < front.len() && is_string(#[trigger] front[i], s@);
                    assert(items[i] == front[i]);
                    assert(items[items.len() - 1] is Some);
                    assert(false);
                }
                assert forall|a: int, b: int|
                    0 <= a < rest.push(s@).len() && 0 <= b < rest.push(s@).len() && a != b implies rest.push(
                    s@,
                )[a] != rest.push(s@)[b] by {
                    if a < rest.len() && b < rest.len() {
                    } else if a < rest.len() {
                        assert(rest.contains(rest[a]));
                    } else {
                        assert(rest.contains(rest[b]));
                    }
                }
            },
            None => {},
        }
    }
}

/// The viewed e-mails listed are those the stored record holds, and the
/// list holds no id twice when the record holds none twice (as `$addToSet`
/// keeps it): an id the record holds is listed, and only those are.
pub proof fn viewed_list_matches_record(items: Seq<Option<String>>, e: Seq<char>)
    ensures
        string_items(items).contains(e) <==> holds_string(items, e),
        distinct_strings(items) ==> string_items(items).no_duplicates(),
{
    string_items_members(items, e);
    if distinct_strings(items) {
        string_items_distinct(items);
    }
}

} // verus!
