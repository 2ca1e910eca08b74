//! Sending a chat message, over the socket or by the HTTP fallback: the
//! request is checked, the two users' conversation is found or created, the
//! message is stored, the conversation's preview and the recipient's unread
//! count are updated, and the message is delivered.
//!
//! The database calls are the caller's: `SendFlow::step` takes the outcome
//! of the last call and names the next one.

use vstd::prelude::*;
use crate::object_id::{ObjectKey, parse_object_id, object_id_text, key_text, parsed_key,
    named_key_unique};
use crate::reply::{Notice, NoticeView, Status, error, error_notice};
use crate::text::{is_blank, is_blank_text, opt_text};

verus! {

/// Which way a message came in: the socket answers the sender with a
/// `sent` echo and stays silent on failure; the HTTP fallback answers with
/// a status.
#[derive(Clone, Copy, PartialEq, Eq, Debug)]
pub enum Channel {
    Socket,
    Http,
}

/// The message a chat message answers, as the socket client quotes it.
pub struct ReplyRef {
    pub message_id: String,
    pub content: String,
    pub sender_id: String,
    pub sender_name: String,
}

pub struct ReplyRefView {
    pub message_id: Seq<char>,
    pub content: Seq<char>,
    pub sender_id: Seq<char>,
    pub sender_name: Seq<char>,
}

impl View for ReplyRef {
    type V = ReplyRefView;

    open spec fn view(&self) -> ReplyRefView {
        ReplyRefView {
            message_id: self.message_id@,
            content: self.content@,
            sender_id: self.sender_id@,
            sender_name: self.sender_name@,
        }
    }
}

/// What a chat message says it answers: nothing (`null`), a quote read from
/// a socket event, or the JSON value the HTTP fallback was given, kept as
/// it came.
pub enum ReplyTo {
    Absent,
    Quote(ReplyRef),
    Raw(serde_json::Value),
}

pub enum ReplyToView {
    Absent,
    Quote(ReplyRefView),
    Raw(serde_json::Value),
}

impl View for ReplyTo {
    type V = ReplyToView;

    open spec fn view(&self) -> ReplyToView {
        match self {
            ReplyTo::Absent => ReplyToView::Absent,
            ReplyTo::Quote(r) => ReplyToView::Quote(r@),
            ReplyTo::Raw(v) => ReplyToView::Raw(*v),
        }
    }
}

/// A copy of a reply reference.
pub fn copy_reply(r: &ReplyTo) -> (c: ReplyTo)
    ensures
        c@ == r@,
{
    match r {
        ReplyTo::Absent => ReplyTo::Absent,
        ReplyTo::Quote(q) => ReplyTo::Quote(
            ReplyRef {
                message_id: q.message_id.clone(),
                content: q.content.clone(),
                sender_id: q.sender_id.clone(),
                sender_name: q.sender_name.clone(),
            },
        ),
        ReplyTo::Raw(v) => ReplyTo::Raw(v.clone()),
    }
}

/// A checked request to send `content` from `sender_id` to `to` at
/// `timestamp` (milliseconds), answering `reply_to`. `temp_id` is the
/// client's provisional id for the message (empty when it gave none, and on
/// the HTTP fallback).
pub struct ChatSend {
    pub channel: Channel,
    pub sender_id: String,
    pub to: String,
    pub content: String,
    pub temp_id: String,
    pub timestamp: i64,
    pub reply_to: ReplyTo,
}

pub struct ChatSendView {
    pub channel: Channel,
    pub sender_id: Seq<char>,
    pub to: Seq<char>,
    pub content: Seq<char>,
    pub temp_id: Seq<char>,
    pub timestamp: i64,
    pub reply_to: ReplyToView,
}

impl View for ChatSend {
    type V = ChatSendView;

    open spec fn view(&self) -> ChatSendView {
        ChatSendView {
            channel: self.channel,
            sender_id: self.sender_id@,
            to: self.to@,
            content: self.content@,
            temp_id: self.temp_id@,
            timestamp: self.timestamp,
            reply_to: self.reply_to@,
        }
    }
}

/// The conversation document created for two users who have none yet:
/// participants `[first, second]`, the message as its preview, and no
/// unread counts.
pub struct NewConversation {
    pub first: String,
    pub second: String,
    pub last_message: String,
    pub last_message_time: i64,
    pub last_message_sender: String,
}

pub struct NewConversationView {
    pub first: Seq<char>,
    pub second: Seq<char>,
    pub last_message: Seq<char>,
    pub last_message_time: i64,
    pub last_message_sender: Seq<char>,
}

impl View for NewConversation {
    type V = NewConversationView;

    open spec fn view(&self) -> NewConversationView {
        NewConversationView {
            first: self.first@,
            second: self.second@,
            last_message: self.last_message@,
            last_message_time: self.last_message_time,
            last_message_sender: self.last_message_sender@,
        }
    }
}

/// A chat message: as stored it has no `id`; as delivered it carries the
/// id the database gave it (empty text when it gave no object id).
pub struct ChatMessage {
    pub id: Option<String>,
    pub conversation_id: String,
    pub sender_id: String,
    pub content: String,
    pub timestamp: i64,
    pub read: bool,
    pub deleted: bool,
    pub reply_to: ReplyTo,
}

pub struct ChatMessageView {
    pub id: Option<Seq<char>>,
    pub conversation_id: Seq<char>,
    pub sender_id: Seq<char>,
    pub content: Seq<char>,
    pub timestamp: i64,
    pub read: bool,
    pub deleted: bool,
    pub reply_to: ReplyToView,
}

impl View for ChatMessage {
    type V = ChatMessageView;

    open spec fn view(&self) -> ChatMessageView {
        ChatMessageView {
            id: opt_text(self.id),
            conversation_id: self.conversation_id@,
            sender_id: self.sender_id@,
            content: self.content@,
            timestamp: self.timestamp,
            read: self.read,
            deleted: self.deleted,
            reply_to: self.reply_to@,
        }
    }
}

/// The update of a conversation after a message was stored in it: its
/// preview becomes the message, and the counter named `unread_field`
/// (`unread.<recipient>`) goes up by one.
pub struct ConversationTouch {
    pub key: ObjectKey,
    pub last_message: String,
    pub last_message_time: i64,
    pub last_message_sender: String,
    pub unread_field: String,
}

pub struct ConversationTouchView {
    pub key: ObjectKey,
    pub last_message: Seq<char>,
    pub last_message_time: i64,
    pub last_message_sender: Seq<char>,
    pub unread_field: Seq<char>,
}

impl View for ConversationTouch {
    type V = ConversationTouchView;

    open spec fn view(&self) -> ConversationTouchView {
        ConversationTouchView {
            key: self.key,
            last_message: self.last_message@,
            last_message_time: self.last_message_time,
            last_message_sender: self.last_message_sender@,
            unread_field: self.unread_field@,
        }
    }
}

/// How a stored message reaches a connected user: the sender gets a
/// `sent` echo with its provisional id, the recipient a `message`.
pub enum DeliveryKind {
    Sent { temp_id: String },
    Received,
}

pub enum DeliveryKindView {
    Sent { temp_id: Seq<char> },
    Received,
}

impl View for DeliveryKind {
    type V = DeliveryKindView;

    open spec fn view(&self) -> DeliveryKindView {
        match self {
            DeliveryKind::Sent { temp_id } => DeliveryKindView::Sent { temp_id: temp_id@ },
            DeliveryKind::Received => DeliveryKindView::Received,
        }
    }
}

/// One push of a stored message to a user, if that user is connected.
pub struct Delivery {
    pub recipient: String,
    pub kind: DeliveryKind,
}

pub struct DeliveryView {
    pub recipient: Seq<char>,
    pub kind: DeliveryKindView,
}

impl View for Delivery {
    type V = DeliveryView;

    open spec fn view(&self) -> DeliveryView {
        DeliveryView { recipient: self.recipient@, kind: self.kind@ }
    }
}

/// The outcome of the database call the flow asked for last.
pub enum SendEvent {
    /// A conversation of the two users was found; the text of its `_id`
    /// (as extended JSON `{"$oid": ..}`), if it has one.
    ConversationFound(Option<String>),
    /// No conversation was found, or the search failed.
    ConversationMissing,
    /// The insert succeeded; the id it produced, if that is an object id.
    Inserted(Option<ObjectKey>),
    /// The insert failed.
    InsertFailed,
    /// The conversation update finished (its outcome does not matter).
    Touched,
}

pub enum SendEventView {
    ConversationFound(Option<Seq<char>>),
    ConversationMissing,
    Inserted(Option<ObjectKey>),
    InsertFailed,
    Touched,
}

impl View for SendEvent {
    type V = SendEventView;

    open spec fn view(&self) -> SendEventView {
        match self {
            SendEvent::ConversationFound(t) => SendEventView::ConversationFound(opt_text(*t)),
            SendEvent::ConversationMissing => SendEventView::ConversationMissing,
            SendEvent::Inserted(k) => SendEventView::Inserted(*k),
            SendEvent::InsertFailed => SendEventView::InsertFailed,
            SendEvent::Touched => SendEventView::Touched,
        }
    }
}

/// What the caller does next.
pub enum SendAction {
    /// Look up the conversation whose participants are exactly these two.
    FindConversation { first: String, second: String },
    /// Insert this conversation.
    CreateConversation(NewConversation),
    /// Insert this message.
    StoreMessage(ChatMessage),
    /// Apply this update to the conversation.
    TouchConversation(ConversationTouch),
    /// Push the message to each connected recipient; the HTTP fallback
    /// then answers 200 with the message. The flow is over.
    Deliver { message: ChatMessage, deliveries: Vec<Delivery> },
    /// Give up: the socket stays silent, the HTTP fallback answers with the
    /// notice. The flow is over.
    Abandon(Option<Notice>),
    /// The event does not fit the flow's stage; nothing changes.
    Ignore,
}

pub enum SendActionView {
    FindConversation { first: Seq<char>, second: Seq<char> },
    CreateConversation(NewConversationView),
    StoreMessage(ChatMessageView),
    TouchConversation(ConversationTouchView),
    Deliver { message: ChatMessageView, deliveries: Seq<DeliveryView> },
    Abandon(Option<NoticeView>),
    Ignore,
}

impl View for SendAction {
    type V = SendActionView;

    open spec fn view(&self) -> SendActionView {
        match self {
            SendAction::FindConversation { first, second } => SendActionView::FindConversation {
                first: first@,
                second: second@,
            },
            SendAction::CreateConversation(c) => SendActionView::CreateConversation(c@),
            SendAction::StoreMessage(m) => SendActionView::StoreMessage(m@),
            SendAction::TouchConversation(t) => SendActionView::TouchConversation(t@),
            SendAction::Deliver { message, deliveries } => SendActionView::Deliver {
                message: message@,
                deliveries: deliveries@.map_values(|d: Delivery| d@),
            },
            SendAction::Abandon(n) => SendActionView::Abandon(
                match n {
                    Some(n) => Some(n@),
                    None => None,
                },
            ),
            SendAction::Ignore => SendActionView::Ignore,
        }
    }
}

/// Where a flow stands: which database call it waits for, and what it has
/// learned so far.
pub enum SendStage {
    Lookup,
    CreateConversation,
    StoreMessage { conversation_id: String },
    Touch { conversation_id: String, message_id: String },
    Finished,
}

pub enum SendStageView {
    Lookup,
    CreateConversation,
    StoreMessage { conversation_id: Seq<char> },
    Touch { conversation_id: Seq<char>, message_id: Seq<char> },
    Finished,
}

impl View for SendStage {
    type V = SendStageView;

    open spec fn view(&self) -> SendStageView {
        match self {
            SendStage::Lookup => SendStageView::Lookup,
            SendStage::CreateConversation => SendStageView::CreateConversation,
            SendStage::StoreMessage { conversation_id } => SendStageView::StoreMessage {
                conversation_id: conversation_id@,
            },
            SendStage::Touch { conversation_id, message_id } => SendStageView::Touch {
                conversation_id: conversation_id@,
                message_id: message_id@,
            },
            SendStage::Finished => SendStageView::Finished,
        }
    }
}

/// A message on its way.
pub struct SendFlow {
    pub request: ChatSend,
    pub stage: SendStage,
}

// ---------------------------------------------------------------------------
// The specification of the flow
// ---------------------------------------------------------------------------

/// The text of an optional id, empty when there is none.
pub open spec fn text_or_empty(t: Option<Seq<char>>) -> Seq<char> {
    match t {
        Some(s) => s,
        None => Seq::empty(),
    }
}

/// The text of the id an insert produced, empty when it produced none.
pub open spec fn inserted_id_text(k: Option<ObjectKey>) -> Seq<char> {
    match k {
        Some(key) => key_text(key),
        None => Seq::empty(),
    }
}

/// The conversation created for a request.
pub open spec fn new_conversation_for(req: ChatSendView) -> NewConversationView {
    NewConversationView {
        first: req.sender_id,
        second: req.to,
        last_message: req.content,
        last_message_time: req.timestamp,
        last_message_sender: req.sender_id,
    }
}

/// The message of a request, filed under `conversation_id`, with the id
/// `id` (none while it is being stored).
pub open spec fn message_for(
    req: ChatSendView,
    conversation_id: Seq<char>,
    id: Option<Seq<char>>,
) -> ChatMessageView {
    ChatMessageView {
        id,
        conversation_id,
        sender_id: req.sender_id,
        content: req.content,
        timestamp: req.timestamp,
        read: false,
        deleted: false,
        reply_to: req.reply_to,
    }
}

/// The name of the counter of `user`'s unread messages in a conversation.
pub open spec fn unread_field_for(user: Seq<char>) -> Seq<char> {
    "unread."@ + user
}

/// The update of conversation `key` after the request's message was stored.
pub open spec fn touch_for(req: ChatSendView, key: ObjectKey) -> ConversationTouchView {
    ConversationTouchView {
        key,
        last_message: req.content,
        last_message_time: req.timestamp,
        last_message_sender: req.sender_id,
        unread_field: unread_field_for(req.to),
    }
}

/// Who is sent a stored message: on the socket, the sender (an echo with
/// the provisional id) and then the recipient; on the HTTP fallback, the
/// recipient.
pub open spec fn deliveries_for(req: ChatSendView) -> Seq<DeliveryView> {
    match req.channel {
        Channel::Socket => seq![
            DeliveryView {
                recipient: req.sender_id,
                kind: DeliveryKindView::Sent { temp_id: req.temp_id },
            },
            DeliveryView { recipient: req.to, kind: DeliveryKindView::Received },
        ],
        Channel::Http => seq![DeliveryView { recipient: req.to, kind: DeliveryKindView::Received }],
    }
}

/// The last action of a flow that stored its message.
pub open spec fn deliver_for(
    req: ChatSendView,
    conversation_id: Seq<char>,
    message_id: Seq<char>,
) -> SendActionView {
    SendActionView::Deliver {
        message: message_for(req, conversation_id, Some(message_id)),
        deliveries: deliveries_for(req),
    }
}

/// Giving up: silently on the socket, with a 500 and `text` over HTTP.
pub open spec fn abandon_for(req: ChatSendView, text: Seq<char>) -> SendActionView {
    match req.channel {
        Channel::Socket => SendActionView::Abandon(None),
        Channel::Http => SendActionView::Abandon(Some(error_notice(Status::ServerError, text))),
    }
}

/// The next stage and action of a flow for `req` in `stage` once `event`
/// arrives.
pub open spec fn send_step(
    req: ChatSendView,
    stage: SendStageView,
    event: SendEventView,
) -> (SendStageView, SendActionView) {
    match stage {
        SendStageView::Lookup => match event {
            SendEventView::ConversationFound(t) => {
                let c = text_or_empty(t);
                (
                    SendStageView::StoreMessage { conversation_id: c },
                    SendActionView::StoreMessage(message_for(req, c, None)),
                )
            },
            SendEventView::ConversationMissing => (
                SendStageView::CreateConversation,
                SendActionView::CreateConversation(new_conversation_for(req)),
            ),
            _ => (stage, SendActionView::Ignore),
        },
        SendStageView::CreateConversation => match event {
            SendEventView::Inserted(k) => {
                let c = inserted_id_text(k);
                (
                    SendStageView::StoreMessage { conversation_id: c },
                    SendActionView::StoreMessage(message_for(req, c, None)),
                )
            },
            SendEventView::InsertFailed => (
                SendStageView::Finished,
                abandon_for(req, "Failed to create conversation"@),
            ),
            _ => (stage, SendActionView::Ignore),
        },
        SendStageView::StoreMessage { conversation_id } => match event {
            SendEventView::Inserted(k) => {
                let m = inserted_id_text(k);
                match parsed_key(conversation_id) {
                    Some(key) => (
                        SendStageView::Touch { conversation_id, message_id: m },
                        SendActionView::TouchConversation(touch_for(req, key)),
                    ),
                    None => (SendStageView::Finished, deliver_for(req, conversation_id, m)),
                }
            },
            SendEventView::InsertFailed => (
                SendStageView::Finished,
                abandon_for(req, "Failed to save message"@),
            ),
            _ => (stage, SendActionView::Ignore),
        },
        SendStageView::Touch { conversation_id, message_id } => match event {
            SendEventView::Touched => (
                SendStageView::Finished,
                deliver_for(req, conversation_id, message_id),
            ),
            _ => (stage, SendActionView::Ignore),
        },
        SendStageView::Finished => (stage, SendActionView::Ignore),
    }
}

// ---------------------------------------------------------------------------
// Checking a request
// ---------------------------------------------------------------------------

/// The socket request of `sender_id`, from the event's `to`, `content` and
/// `temp_id`, answering the quote `reply_to` (if the event carries one it
/// can read): refused (`None`) when `to` or `content` is missing or the
/// content is blank.
pub fn socket_request(
    sender_id: &str,
    to: Option<String>,
    content: Option<String>,
    temp_id: Option<String>,
    reply_to: Option<ReplyRef>,
    timestamp: i64,
) -> (r: Option<ChatSend>)
    ensures
        r is Some <==> (to is Some && content is Some && !is_blank_text(content->0@)),
        r matches Some(req) ==> req@ == (ChatSendView {
            channel: Channel::Socket,
            sender_id: sender_id@,
            to: to->0@,
            content: content->0@,
            temp_id: text_or_empty(opt_text(temp_id)),
            timestamp,
            reply_to: match reply_to {
                Some(q) => ReplyToView::Quote(q@),
                None => ReplyToView::Absent,
            },
        }),
{
    let to = match to {
        Some(t) => t,
        None => return None,
    };
    let content = match content {
        Some(c) => c,
        None => return None,
    };
    if is_blank(content.as_str()) {
        return None;
    }
    let temp_id = match temp_id {
        Some(t) => t,
        None => String::new(),
    };
    let reply_to = match reply_to {
        Some(q) => ReplyTo::Quote(q),
        None => ReplyTo::Absent,
    };
    Some(ChatSend {
        channel: Channel::Socket,
        sender_id: sender_id.to_string(),
        to,
        content,
        temp_id,
        timestamp,
        reply_to,
    })
}

/// The HTTP fallback request, answering the JSON value `reply_to` as given:
/// refused with 400 `Empty message` when the content is blank.
pub fn http_request(
    sender_id: String,
    to: String,
    content: String,
    reply_to: Option<serde_json::Value>,
    timestamp: i64,
) -> (r: Result<ChatSend, Notice>)
    ensures
        r is Err <==> is_blank_text(content@),
        r matches Err(n) ==> n@ == error_notice(Status::BadRequest, "Empty message"@),
        r matches Ok(req) ==> req@ == (ChatSendView {
            channel: Channel::Http,
            sender_id: sender_id@,
            to: to@,
            content: content@,
            temp_id: Seq::empty(),
            timestamp,
            reply_to: match reply_to {
                Some(v) => ReplyToView::Raw(v),
                None => ReplyToView::Absent,
            },
        }),
{
    if is_blank(content.as_str()) {
        return Err(error(Status::BadRequest, "Empty message"));
    }
    let reply_to = match reply_to {
        Some(v) => ReplyTo::Raw(v),
        None => ReplyTo::Absent,
    };
    Ok(
        ChatSend {
            channel: Channel::Http,
            sender_id,
            to,
            content,
            temp_id: String::new(),
            timestamp,
            reply_to,
        },
    )
}

// ---------------------------------------------------------------------------
// The flow
// ---------------------------------------------------------------------------

fn message_of(req: &ChatSend, conversation_id: &String, id: Option<String>) -> (m: ChatMessage)
    ensures
        m@ == message_for(req@, conversation_id@, opt_text(id)),
{
    ChatMessage {
        id,
        conversation_id: conversation_id.clone(),
        sender_id: req.sender_id.clone(),
        content: req.content.clone(),
        timestamp: req.timestamp,
        read: false,
        deleted: false,
        reply_to: copy_reply(&req.reply_to),
    }
}

fn deliver(req: &ChatSend, conversation_id: &String, message_id: &String) -> (a: SendAction)
    ensures
        a@ == deliver_for(req@, conversation_id@, message_id@),
{
    let message = message_of(req, conversation_id, Some(message_id.clone()));
    let mut deliveries: Vec<Delivery> = Vec::new();
    match req.channel {
        Channel::Socket => {
            deliveries.push(
                Delivery {
                    recipient: req.sender_id.clone(),
                    kind: DeliveryKind::Sent { temp_id: req.temp_id.clone() },
                },
            );
        },
        Channel::Http => {},
    }
    deliveries.push(Delivery { recipient: req.to.clone(), kind: DeliveryKind::Received });
    let a = SendAction::Deliver { message, deliveries };
    assert(deliveries@.map_values(|d: Delivery| d@) =~= deliveries_for(req@));
    a
}

fn abandon(req: &ChatSend, text: &str) -> (a: SendAction)
    ensures
        a@ == abandon_for(req@, text@),
{
    match req.channel {
        Channel::Socket => SendAction::Abandon(None),
        Channel::Http => SendAction::Abandon(Some(error(Status::ServerError, text))),
    }
}

fn inserted_text(k: Option<ObjectKey>) -> (s: String)
    ensures
        s@ == inserted_id_text(k),
{
    match k {
        Some(key) => object_id_text(&key),
        None => String::new(),
    }
}

impl SendFlow {
    /// Starts a flow for a checked request: the first call looks up the
    /// conversation of the sender and the recipient.
    pub fn start(request: ChatSend) -> (r: (SendFlow, SendAction))
        ensures
            r.0.request@ == request@,
            r.0.stage@ == SendStageView::Lookup,
            r.1@ == (SendActionView::FindConversation { first: request@.sender_id, second: request@.to }),
    {
        let action = SendAction::FindConversation {
            first: request.sender_id.clone(),
            second: request.to.clone(),
        };
        (SendFlow { request, stage: SendStage::Lookup }, action)
    }

    /// Takes the outcome of the last call and returns the next action.
    pub fn step(&mut self, event: SendEvent) -> (action: SendAction)
        ensures
            final(self).request@ == old(self).request@,
            (final(self).stage@, action@) == send_step(old(self).request@, old(self).stage@, event@),
    {
        let mut stage = SendStage::Finished;
        std::mem::swap(&mut stage, &mut self.stage);
        match stage {
            SendStage::Lookup => match event {
                SendEvent::ConversationFound(t) => {
                    let c = match t {
                        Some(s) => s,
                        None => String::new(),
                    };
                    let m = message_of(&self.request, &c, None);
                    self.stage = SendStage::StoreMessage { conversation_id: c };
                    SendAction::StoreMessage(m)
                },
                SendEvent::ConversationMissing => {
                    self.stage = SendStage::CreateConversation;
                    SendAction::CreateConversation(
                        NewConversation {
                            first: self.request.sender_id.clone(),
                            second: self.request.to.clone(),
                            last_message: self.request.content.clone(),
                            last_message_time: self.request.timestamp,
                            last_message_sender: self.request.sender_id.clone(),
                        },
                    )
                },
                _ => {
                    self.stage = SendStage::Lookup;
                    SendAction::Ignore
                },
            },
            SendStage::CreateConversation => match event {
                SendEvent::Inserted(k) => {
                    let c = inserted_text(k);
                    let m = message_of(&self.request, &c, None);
                    self.stage = SendStage::StoreMessage { conversation_id: c };
                    SendAction::StoreMessage(m)
                },
                SendEvent::InsertFailed => {
                    proof {
                        reveal_strlit("Failed to create conversation");
                    }
                    abandon(&self.request, "Failed to create conversation")
                },
                _ => {
                    self.stage = SendStage::CreateConversation;
                    SendAction::Ignore
                },
            },
            SendStage::StoreMessage { conversation_id } => match event {
                SendEvent::Inserted(k) => {
                    let m = inserted_text(k);
                    match parse_object_id(conversation_id.as_str()) {
                        Some(key) => {
                            proof {
                                named_key_unique(conversation_id@, key);
                            }
                            let mut unread_field = "unread.".to_string();
                            unread_field.append(self.request.to.as_str());
                            let touch = ConversationTouch {
                                key,
                                last_message: self.request.content.clone(),
                                last_message_time: self.request.timestamp,
                                last_message_sender: self.request.sender_id.clone(),
                                unread_field,
                            };
                            self.stage = SendStage::Touch { conversation_id, message_id: m };
                            SendAction::TouchConversation(touch)
                        },
                        None => deliver(&self.request, &conversation_id, &m),
                    }
                },
                SendEvent::InsertFailed => {
                    proof {
                        reveal_strlit("Failed to save message");
                    }
                    abandon(&self.request, "Failed to save message")
                },
                _ => {
                    self.stage = SendStage::StoreMessage { conversation_id };
                    SendAction::Ignore
                },
            },
            SendStage::Touch { conversation_id, message_id } => match event {
                SendEvent::Touched => deliver(&self.request, &conversation_id, &message_id),
                _ => {
                    self.stage = SendStage::Touch { conversation_id, message_id };
                    SendAction::Ignore
                },
            },
            SendStage::Finished => SendAction::Ignore,
        }
    }
}


// ---------------------------------------------------------------------------
// What holds of every run of the flow
// ---------------------------------------------------------------------------

/// The stage a flow for `req` reaches through `events`, and every action it
/// names on the way, the first one (the lookup) included.
pub open spec fn send_run(req: ChatSendView, events: Seq<SendEventView>) -> (SendStageView, Seq<
    SendActionView,
>)
    decreases events.len(),
{
    if events.len() == 0 {
        (
            SendStageView::Lookup,
            seq![SendActionView::FindConversation { first: req.sender_id, second: req.to }],
        )
    } else {
        let prev = send_run(req, events.drop_last());
        let next = send_step(req, prev.0, events.last());
        (next.0, prev.1.push(next.1))
    }
}

/// Whether an action ends the flow.
pub open spec fn is_outcome(a: SendActionView) -> bool {
    a is Deliver || a is Abandon
}

/// The stored form of a message: the same message without an id.
pub open spec fn stored_form(m: ChatMessageView) -> ChatMessageView {
    ChatMessageView { id: None, ..m }
}

/// What holds of a run at every point: it has ended exactly when one of its
/// actions ended it, every action after that one is `Ignore`, and a stage
/// that remembers a conversation has stored the message there.
pub open spec fn run_invariant(
    req: ChatSendView,
    stage: SendStageView,
    actions: Seq<SendActionView>,
) -> bool {
    &&& actions.len() >= 1
    &&& (stage is Finished <==> exists|i: int| 0 <= i < actions.len() && is_outcome(#[trigger] actions[i]))
    &&& forall|i: int, j: int|
        0 <= i < j < actions.len() && is_outcome(#[trigger] actions[i]) ==> #[trigger] actions[j]
            is Ignore
    &&& (stage matches SendStageView::StoreMessage { conversation_id } ==> actions.contains(
        SendActionView::StoreMessage(message_for(req, conversation_id, None)),
    ))
    &&& (stage matches SendStageView::Touch { conversation_id, .. } ==> actions.contains(
        SendActionView::StoreMessage(message_for(req, conversation_id, None)),
    ))
    &&& forall|j: int|
        0 <= j < actions.len() && (#[trigger] actions[j] is Deliver) ==> actions.subrange(0, j).contains(
            SendActionView::StoreMessage(stored_form(actions[j]->Deliver_message)),
        )
}

proof fn run_invariant_holds(req: ChatSendView, events: Seq<SendEventView>)
    ensures
        run_invariant(req, send_run(req, events).0, send_run(req, events).1),
    decreases events.len(),
{
    if events.len() > 0 {
        let prev = send_run(req, events.drop_last());
        run_invariant_holds(req, events.drop_last());
        let next = send_step(req, prev.0, events.last());
        let acts = prev.1.push(next.1);
        assert(send_run(req, events) == (next.0, acts));
        let n = prev.1.len() as int;
        assert forall|i: int| 0 <= i < n implies acts[i] == prev.1[i] by {}
        assert(acts[n] == next.1);
        // a message remembered by the old stage stays stored
        assert forall|m: ChatMessageView| prev.1.contains(SendActionView::StoreMessage(m)) implies acts.contains(
            SendActionView::StoreMessage(m),
        ) by {
            let k = choose|k: int| 0 <= k < prev.1.len() && prev.1[k] == SendActionView::StoreMessage(m);
            assert(acts[k] == prev.1[k]);
        }
        if prev.0 is Finished {
            assert(next.1 is Ignore);
            let i0 = choose|i: int| 0 <= i < prev.1.len() && is_outcome(#[trigger] prev.1[i]);
            assert(is_outcome(acts[i0]));
        } else {
            assert forall|i: int| 0 <= i < n implies !is_outcome(#[trigger] acts[i]) by {
                assert(acts[i] == prev.1[i]);
            }
            if is_outcome(next.1) {
                assert(is_outcome(acts[n]));
            }
            if next.1 is Deliver {
                let c = match prev.0 {
                    SendStageView::StoreMessage { conversation_id } => conversation_id,
                    SendStageView::Touch { conversation_id, .. } => conversation_id,
                    _ => Seq::empty(),
                };
                assert(prev.0 is StoreMessage || prev.0 is Touch);
                assert(stored_form(next.1->Deliver_message) == message_for(req, c, None));
                assert(acts.subrange(0, n) =~= prev.1);
            }
            if let SendStageView::StoreMessage { conversation_id } = next.0 {
                if prev.0 is StoreMessage {
                    assert(next.1 is Ignore);
                } else {
                    assert(acts[n] == SendActionView::StoreMessage(message_for(req, conversation_id, None)));
                }
            }
        }
        assert forall|j: int|
            0 <= j < acts.len() && (#[trigger] acts[j] is Deliver) implies acts.subrange(0, j).contains(
            SendActionView::StoreMessage(stored_form(acts[j]->Deliver_message)),
        ) by {
            if j < n {
                assert(acts.subrange(0, j) =~= prev.1.subrange(0, j));
            }
        }
    } else {
        assert(!is_outcome(send_run(req, events).1[0]));
    }
}

/// Whatever the database answers, a flow ends at most once: after its
/// message was delivered or the flow was abandoned, every later event is
/// ignored. A flow is over exactly when it has ended.
pub proof fn flow_ends_once(req: ChatSendView, events: Seq<SendEventView>, i: int, j: int)
    requires
        0 <= i < j < send_run(req, events).1.len(),
        is_outcome(send_run(req, events).1[i]),
    ensures
        send_run(req, events).1[j] is Ignore,
        send_run(req, events).0 is Finished,
{
    run_invariant_holds(req, events);
}

/// Whatever the database answers, a message is delivered only after it was
/// stored: the delivered message, without its id, is one the flow stored
/// before (the same conversation, sender, content and time; unread and not
/// deleted).
pub proof fn delivered_message_was_stored(req: ChatSendView, events: Seq<SendEventView>, j: int)
    requires
        0 <= j < send_run(req, events).1.len(),
        send_run(req, events).1[j] is Deliver,
    ensures
        exists|i: int|
            0 <= i < j && send_run(req, events).1[i] == SendActionView::StoreMessage(
                stored_form(send_run(req, events).1[j]->Deliver_message),
            ),
{
    run_invariant_holds(req, events);
    let acts = send_run(req, events).1;
    let m = SendActionView::StoreMessage(stored_form(acts[j]->Deliver_message));
    assert(acts.subrange(0, j).contains(m));
    let i = choose|i: int| 0 <= i < j && acts.subrange(0, j)[i] == m;
    assert(acts[i] == m);
}

/// A conversation the flow created is the one it then updates, when the
/// database gave it an object id: storing the message is followed by
/// moving that conversation's preview to the message and counting it
/// unread for the recipient.
pub proof fn created_conversation_is_updated(
    req: ChatSendView,
    key: ObjectKey,
    message_key: Option<ObjectKey>,
)
    ensures
        send_step(req, SendStageView::CreateConversation, SendEventView::Inserted(Some(key))).0
            == (SendStageView::StoreMessage { conversation_id: key_text(key) }),
        send_step(
            req,
            SendStageView::StoreMessage { conversation_id: key_text(key) },
            SendEventView::Inserted(message_key),
        ).1 == SendActionView::TouchConversation(touch_for(req, key)),
        touch_for(req, key).unread_field == unread_field_for(req.to),
{
    crate::object_id::key_text_round_trip(key, key);
    named_key_unique(key_text(key), key);
}

/// Two requests for the same message that may differ only in the channel
/// and the provisional id.
pub open spec fn same_message_request(a: ChatSendView, b: ChatSendView) -> bool {
    &&& a.sender_id == b.sender_id
    &&& a.to == b.to
    &&& a.content == b.content
    &&& a.timestamp == b.timestamp
    &&& a.reply_to == b.reply_to
}

/// Two actions with the same effect on the database and on the recipient:
/// equal, or both deliveries of the same message ending with the same push
/// to the recipient, or both giving up.
pub open spec fn same_effect(x: SendActionView, y: SendActionView) -> bool {
    match (x, y) {
        (
            SendActionView::Deliver { message: m1, deliveries: d1 },
            SendActionView::Deliver { message: m2, deliveries: d2 },
        ) => m1 == m2 && d1.len() > 0 && d2.len() > 0 && d1.last() == d2.last(),
        (SendActionView::Abandon(_), SendActionView::Abandon(_)) => true,
        _ => x == y,
    }
}

proof fn same_step(a: ChatSendView, b: ChatSendView, stage: SendStageView, event: SendEventView)
    requires
        same_message_request(a, b),
    ensures
        send_step(a, stage, event).0 == send_step(b, stage, event).0,
        same_effect(send_step(a, stage, event).1, send_step(b, stage, event).1),
{
    assert(new_conversation_for(a) == new_conversation_for(b));
    assert forall|c: Seq<char>, id: Option<Seq<char>>| message_for(a, c, id) == message_for(b, c, id) by {}
    assert forall|k: ObjectKey| touch_for(a, k) == touch_for(b, k) by {}
    assert forall|c: Seq<char>, m: Seq<char>| same_effect(#[trigger] deliver_for(a, c, m), deliver_for(b, c, m)) by {
        assert(deliveries_for(a).last() == deliveries_for(b).last());
    }
}

/// The socket and the HTTP fallback do the same to the database and to the
/// recipient: for two requests for the same message, whatever the database
/// answers, the flows pass through the same stages and name the same
/// lookups, inserts and updates (the same conversation, the same stored
/// message, the same unread counter), deliver the same message with the
/// same push to the recipient, and give up at the same points.
pub proof fn channels_store_the_same(a: ChatSendView, b: ChatSendView, events: Seq<SendEventView>)
    requires
        same_message_request(a, b),
    ensures
        send_run(a, events).0 == send_run(b, events).0,
        send_run(a, events).1.len() == send_run(b, events).1.len(),
        forall|i: int|
            0 <= i < send_run(a, events).1.len() ==> same_effect(
                #[trigger] send_run(a, events).1[i],
                send_run(b, events).1[i],
            ),
    decreases events.len(),
{
    if events.len() > 0 {
        channels_store_the_same(a, b, events.drop_last());
        let pa = send_run(a, events.drop_last());
        let pb = send_run(b, events.drop_last());
        same_step(a, b, pa.0, events.last());
        let na = send_step(a, pa.0, events.last());
        let nb = send_step(b, pb.0, events.last());
        assert forall|i: int| 0 <= i < pa.1.push(na.1).len() implies same_effect(
            #[trigger] pa.1.push(na.1)[i],
            pb.1.push(nb.1)[i],
        ) by {
            if i < pa.1.len() {
                assert(same_effect(pa.1[i], pb.1[i]));
            }
        }
    }
}

} // verus!
