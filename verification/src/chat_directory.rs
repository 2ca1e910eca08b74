//! Whom a user can chat with, and the list of a user's conversations.

use vstd::prelude::*;
use crate::accounts::{UserRecord, opt_key_text, opt_id_text};
use crate::chat_events::other_items;
use crate::object_id::{ObjectKey, parse_object_id, is_object_id_text, names_key};
use crate::reply::{Notice, Status, Lookup, error, error_notice, refused_with};
use crate::text::{str_eq, opt_text};

verus! {

/// The roles a user of role `role` may start chats with: customers talk to
/// management; management to customers and administrators; administrators
/// to management and customers; anyone else (or a user without a role) to
/// nobody.
pub open spec fn partner_roles(role: Option<Seq<char>>) -> Seq<Seq<char>> {
    match role {
        Some(r) => if r == "customer"@ {
            seq!["management"@]
        } else if r == "management"@ {
            seq!["customer"@, "admin"@]
        } else if r == "admin"@ {
            seq!["management"@, "customer"@]
        } else {
            Seq::empty()
        },
        None => Seq::empty(),
    }
}

/// The roles a user of role `role` may start chats with.
pub fn chat_partner_roles(role: &Option<String>) -> (r: Vec<String>)
    ensures
        r@.map_values(|s: String| s@) == partner_roles(opt_text(*role)),
{
    let mut r: Vec<String> = Vec::new();
    match role {
        Some(role) => {
            let role = role.as_str();
            if str_eq(role, "customer") {
                r.push("management".to_string());
            } else if str_eq(role, "management") {
                r.push("customer".to_string());
                r.push("admin".to_string());
            } else if str_eq(role, "admin") {
                r.push("management".to_string());
                r.push("customer".to_string());
            }
        },
        None => {},
    }
    assert(r@.map_values(|s: String| s@) =~= partner_roles(opt_text(*role)));
    r
}

/// No role is offered chats with its own kind.
pub proof fn partner_roles_exclude_own(role: Seq<char>, i: int)
    requires
        0 <= i < partner_roles(Some(role)).len(),
    ensures
        partner_roles(Some(role))[i] != role,
{
    reveal_strlit("customer");
    reveal_strlit("management");
    reveal_strlit("admin");
    assert("customer"@.len() == 8 && "management"@.len() == 10 && "admin"@.len() == 5);
    let p = partner_roles(Some(role))[i];
    assert(p.len() != role.len());
}

/// Management and customers see each other, and so do management and
/// administrators; administrators see customers, but customers do not see
/// administrators.
pub proof fn partner_roles_pairs()
    ensures
        partner_roles(Some("customer"@)).contains("management"@),
        partner_roles(Some("management"@)).contains("customer"@),
        partner_roles(Some("management"@)).contains("admin"@),
        partner_roles(Some("admin"@)).contains("management"@),
        partner_roles(Some("admin"@)).contains("customer"@),
        !partner_roles(Some("customer"@)).contains("admin"@),
{
    reveal_strlit("customer");
    reveal_strlit("management");
    reveal_strlit("admin");
    assert(partner_roles(Some("customer"@))[0] == "management"@);
    assert(partner_roles(Some("management"@))[0] == "customer"@);
    assert(partner_roles(Some("management"@))[1] == "admin"@);
    assert(partner_roles(Some("admin"@))[0] == "management"@);
    assert(partner_roles(Some("admin"@))[1] == "customer"@);
}

/// What to do once the requesting user was looked up.
pub enum PartnerQuery {
    /// Answer with the empty list: the user's role chats with nobody.
    NoPartners,
    /// List the users (other than the requester) whose role is one of these.
    Roles(Vec<String>),
}

/// The chat-partner search for the user the lookup returned; a user not
/// found (or a failed lookup) gets 404 `User not found`.
pub fn partner_query(current: Lookup<UserRecord>) -> (r: Result<PartnerQuery, Notice>)
    ensures
        current matches Lookup::Found(u) ==> (r matches Ok(q) && if partner_roles(opt_text(u.role)).len() == 0 {
            q is NoPartners
        } else {
            q matches PartnerQuery::Roles(roles) && roles@.map_values(|s: String| s@) == partner_roles(
                opt_text(u.role),
            )
        }),
        !(current is Found) ==> refused_with(r, error_notice(Status::NotFound, "User not found"@)),
{
    match current {
        Lookup::Found(u) => {
            let roles = chat_partner_roles(&u.role);
            if roles.len() == 0 {
                Ok(PartnerQuery::NoPartners)
            } else {
                Ok(PartnerQuery::Roles(roles))
            }
        },
        _ => Err(error(Status::NotFound, "User not found")),
    }
}

/// A user as listed in the chat views: no e-mail address, no password; a
/// user that does not say it is online is shown offline.
pub struct ChatUserEntry {
    pub id: Option<String>,
    pub first_name: String,
    pub last_name: String,
    pub role: Option<String>,
    pub profile_pic: Option<String>,
    pub online: bool,
    pub last_seen: Option<i64>,
}

/// The chat view of user `u`, listed under `id`.
pub open spec fn lists_user(e: ChatUserEntry, id: Option<Seq<char>>, u: UserRecord) -> bool {
    &&& opt_text(e.id) == id
    &&& e.first_name@ == u.first_name@
    &&& e.last_name@ == u.last_name@
    &&& opt_text(e.role) == opt_text(u.role)
    &&& opt_text(e.profile_pic) == opt_text(u.profile_pic)
    &&& e.online == (u.online == Some(true))
    &&& e.last_seen == u.last_seen
}

fn entry_for(id: Option<String>, u: UserRecord) -> (e: ChatUserEntry)
    ensures
        lists_user(e, opt_text(id), u),
{
    let online = match u.online {
        Some(b) => b,
        None => false,
    };
    ChatUserEntry {
        id,
        first_name: u.first_name,
        last_name: u.last_name,
        role: u.role,
        profile_pic: u.profile_pic,
        online,
        last_seen: u.last_seen,
    }
}

/// A possible chat partner, listed under its own id.
pub fn chat_user_entry(u: UserRecord) -> (e: ChatUserEntry)
    ensures
        lists_user(e, opt_key_text(u.id), u),
{
    let id = opt_id_text(u.id);
    entry_for(id, u)
}

/// The answer when the partner search itself failed.
pub fn partner_search_failed() -> (n: Notice)
    ensures
        n@ == error_notice(Status::ServerError, "Failed to fetch users"@),
{
    error(Status::ServerError, "Failed to fetch users")
}

/// One line of a user's conversation list: a conversation, the other
/// participant it is with, and how many of its messages the user has not
/// read.
pub struct ConversationEntry {
    pub conversation_id: String,
    pub partner_id: String,
    pub partner_key: ObjectKey,
    pub unread: i64,
}

/// The partners listed for a conversation of `user`: its string
/// participants other than the user whose ids are object id text.
pub open spec fn listed_partners(parts: Seq<Seq<char>>) -> Seq<Seq<char>> {
    parts.filter(|p: Seq<char>| is_object_id_text(p))
}

/// The lines a conversation contributes to `user_id`'s list: one per
/// partner (a string participant other than the user, with an object id),
/// each with the conversation's id text (empty when it has none) and the
/// user's unread count (0 when it has none). Whether a partner's document
/// still exists is for the caller to check.
pub fn conversation_entries(
    user_id: &str,
    conversation_id: Option<String>,
    unread: Option<i64>,
    participants: &Vec<Option<String>>,
) -> (r: Vec<ConversationEntry>)
    ensures
        r@.map_values(|e: ConversationEntry| e.partner_id@) == listed_partners(
            other_items(participants@, user_id@),
        ),
        forall|i: int|
            0 <= i < r@.len() ==> {
                &&& (#[trigger] r@[i]).conversation_id@ == (match opt_text(conversation_id) {
                    Some(c) => c,
                    None => Seq::empty(),
                })
                &&& names_key(r@[i].partner_id@, r@[i].partner_key)
                &&& r@[i].unread == (match unread {
                    Some(n) => n,
                    None => 0,
                })
            },
{
    let conversation_id = match conversation_id {
        Some(c) => c,
        None => String::new(),
    };
    let unread = match unread {
        Some(n) => n,
        None => 0,
    };
    let others = crate::chat_events::others(participants, user_id);
    let ghost other_views = others@.map_values(|s: String| s@);
    let mut r: Vec<ConversationEntry> = Vec::new();
    let mut i: usize = 0;
    while i < others.len()
        invariant
            i <= others.len(),
            other_views == others@.map_values(|s: String| s@),
            r@.map_values(|e: ConversationEntry| e.partner_id@) == listed_partners(
                other_views.take(i as int),
            ),
            forall|j: int|
                0 <= j < r@.len() ==> {
                    &&& (#[trigger] r@[j]).conversation_id@ == conversation_id@
                    &&& names_key(r@[j].partner_id@, r@[j].partner_key)
                    &&& r@[j].unread == unread
                },
        decreases others.len() - i,
    {
        let ghost before = r@;
        assert(other_views.take(i as int + 1).drop_last() =~= other_views.take(i as int));
        assert(other_views.take(i as int + 1).last() == others@[i as int]@);
        match parse_object_id(others[i].as_str()) {
            Some(key) => {
                r.push(
                    ConversationEntry {
                        conversation_id: conversation_id.clone(),
                        partner_id: others[i].clone(),
                        partner_key: key,
                        unread,
                    },
                );
            },
            None => {},
        }
        proof {
            reveal(Seq::filter);
            assert(r@.map_values(|e: ConversationEntry| e.partner_id@) =~= listed_partners(
                other_views.take(i as int + 1),
            ));
        }
        i = i + 1;
    }
    assert(other_views.take(others.len() as int) =~= other_views);
    r
}

/// A user's conversation list never offers the user as its own partner.
pub proof fn partners_exclude_user(participants: Seq<Option<String>>, user: Seq<char>)
    ensures
        !listed_partners(other_items(participants, user)).contains(user),
{
    crate::chat_events::other_items_exclude(participants, user);
    let others = other_items(participants, user);
    if listed_partners(others).contains(user) {
        others.lemma_filter_contains_rev(|p: Seq<char>| is_object_id_text(p), user);
    }
}

/// The line shown for a conversation once its partner's document was
/// found: the partner's chat view, listed under the partner's id.
pub fn partner_entry(entry: &ConversationEntry, partner: UserRecord) -> (e: ChatUserEntry)
    ensures
        lists_user(e, Some(entry.partner_id@), partner),
{
    entry_for(Some(entry.partner_id.clone()), partner)
}

/// The answer when the conversation search failed.
pub fn conversation_search_failed() -> (n: Notice)
    ensures
        n@ == error_notice(Status::ServerError, "Failed to fetch conversations"@),
{
    error(Status::ServerError, "Failed to fetch conversations")
}

} // verus!
