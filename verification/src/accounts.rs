//! Accounts: signing up, logging in, roles, and the user's profile page.

use vstd::prelude::*;
use crate::object_id::{ObjectKey, parse_object_id, object_id_text, key_text, is_object_id_text,
    names_key};
use crate::password::{stored_password, password_matches, bcrypt_check, is_server_hash,
    stored_value_of, stores_password};
use crate::reply::{Notice, Status, Lookup, WriteOutcome, message, error, message_notice,
    error_notice, refused_with, holds_notice};
use crate::text::opt_text;
use crate::clock::ClockReading;
use crate::timefmt::{format_timestamp, format_timestamp_relative, relative_time_supported,
    supports_relative_time,
    EARLIEST_MILLIS, LATEST_MILLIS, calendar_text, calendar_pattern, unknown_text, relative_text_at,
    just_now_text, minute_old_is_not_just_now, year_old_counts_years, ago_text,
    year_unit};

verus! {

/// A user document.
pub struct UserRecord {
    pub id: Option<ObjectKey>,
    pub first_name: String,
    pub last_name: String,
    pub email: String,
    /// The bcrypt hash of the password (or, if hashing failed at sign-up,
    /// the password itself).
    pub password: String,
    pub role: Option<String>,
    pub profile_pic: Option<String>,
    pub background_image: Option<String>,
    pub cover_image: Option<String>,
    pub phone: Option<String>,
    pub location: Option<String>,
    pub website: Option<String>,
    pub bio: Option<String>,
    /// Milliseconds since the epoch.
    pub created_at: Option<i64>,
    pub online: Option<bool>,
    pub last_seen: Option<i64>,
}

/// The text of an id the database gave, or `"unknown"` when it gave none.
pub open spec fn id_or_unknown(id: Option<ObjectKey>) -> Seq<char> {
    match id {
        Some(k) => key_text(k),
        None => "unknown"@,
    }
}

/// Writes an id the database gave, or `unknown`.
pub fn id_text_or_unknown(id: Option<ObjectKey>) -> (s: String)
    ensures
        s@ == id_or_unknown(id),
{
    match id {
        Some(k) => object_id_text(&k),
        None => "unknown".to_string(),
    }
}

/// The text of an optional id.
pub open spec fn opt_key_text(id: Option<ObjectKey>) -> Option<Seq<char>> {
    match id {
        Some(k) => Some(key_text(k)),
        None => None,
    }
}

/// Writes an optional id.
pub fn opt_id_text(id: Option<ObjectKey>) -> (s: Option<String>)
    ensures
        opt_text(s) == opt_key_text(id),
{
    match id {
        Some(k) => Some(object_id_text(&k)),
        None => None,
    }
}

/// The id a path names for the user endpoints: refused with 400
/// `Invalid user ID` unless it is object id text.
pub fn user_key(user_id: &str) -> (r: Result<ObjectKey, Notice>)
    ensures
        r is Ok <==> is_object_id_text(user_id@),
        r matches Ok(k) ==> names_key(user_id@, k),
        r matches Err(n) ==> n@ == error_notice(Status::BadRequest, "Invalid user ID"@),
{
    match parse_object_id(user_id) {
        Some(k) => Ok(k),
        None => Err(error(Status::BadRequest, "Invalid user ID")),
    }
}

// ---------------------------------------------------------------------------
// Sign-up
// ---------------------------------------------------------------------------

/// A sign-up form.
pub struct SignupRequest {
    pub first_name: String,
    pub last_name: String,
    pub email: String,
    pub password: String,
}

/// The answer to the search for an account with the same e-mail address:
/// an account found refuses the sign-up with 400 `Email already exists`, a
/// failed search with 500 `Database error`; otherwise the sign-up goes on.
pub fn signup_precheck<T>(existing: &Lookup<T>) -> (r: Option<Notice>)
    ensures
        existing is Found ==> holds_notice(r, error_notice(
            Status::BadRequest,
            "Email already exists"@,
        )),
        existing is Failed ==> holds_notice(r, error_notice(
            Status::ServerError,
            "Database error"@,
        )),
        existing is Missing ==> r is None,
{
    match existing {
        Lookup::Found(_) => Some(error(Status::BadRequest, "Email already exists")),
        Lookup::Failed => Some(error(Status::ServerError, "Database error")),
        Lookup::Missing => None,
    }
}

/// The account created for a sign-up at `now` whose password is stored as
/// `stored`: the form's names and e-mail address, no role, no images or
/// details, created at `now`.
pub open spec fn is_account_for(u: UserRecord, req: SignupRequest, stored: Seq<char>, now: i64) -> bool {
    &&& u.id is None
    &&& u.first_name@ == req.first_name@
    &&& u.last_name@ == req.last_name@
    &&& u.email@ == req.email@
    &&& u.password@ == stored
    &&& u.role is None
    &&& u.profile_pic is None
    &&& u.background_image is None
    &&& u.cover_image is None
    &&& u.phone is None
    &&& u.location is None
    &&& u.website is None
    &&& u.bio is None
    &&& u.created_at == Some(now)
    &&& u.online is None
    &&& u.last_seen is None
}

/// The account record for a sign-up, with `stored` as its password value.
pub fn account_record(req: &SignupRequest, stored: String, now: i64) -> (u: UserRecord)
    ensures
        is_account_for(u, *req, stored@, now),
{
    UserRecord {
        id: None,
        first_name: req.first_name.clone(),
        last_name: req.last_name.clone(),
        email: req.email.clone(),
        password: stored,
        role: None,
        profile_pic: None,
        background_image: None,
        cover_image: None,
        phone: None,
        location: None,
        website: None,
        bio: None,
        created_at: Some(now),
        online: None,
        last_seen: None,
    }
}

/// The account created for a sign-up at `now`: the password is hashed and
/// the account record made with the value to store for it.
pub fn new_account(req: &SignupRequest, now: i64) -> (u: UserRecord)
    ensures
        is_account_for(u, *req, u.password@, now),
        stores_password(req.password@, u.password@),
{
    account_record(req, stored_password(req.password.as_str()), now)
}

/// Which inbox e-mail this is: the welcome e-mail of a new account, or one
/// an administrator sent.
#[derive(Clone, Copy, PartialEq, Eq, Debug)]
pub enum EmailKind {
    Welcome,
    Admin,
}

/// An e-mail in a user's inbox, as stored: always unread, not starred,
/// from the `admin` role, with the display time `just now`.
pub struct InboxEmail {
    pub user_id: String,
    pub id: String,
    pub from: String,
    pub subject: String,
    pub preview: String,
    pub body: String,
    pub timestamp: String,
    pub created_at_timestamp: i64,
    pub unread: bool,
    pub starred: bool,
    pub role: String,
    pub kind: EmailKind,
}

/// The welcome e-mail's body.
pub open spec fn welcome_body() -> Seq<char> {
    "Welcome to Dispatch! \u{1F389}\nThank you for creating your account.\n\nBest regards,\nThe Dispatch Team"@
}

/// `e` is the welcome e-mail of the new account `user_id`, made at `now`.
pub open spec fn is_welcome_email(e: InboxEmail, user_id: Seq<char>, now: i64) -> bool {
    &&& e.user_id@ == user_id
    &&& e.id@ == "welcome-email"@
    &&& e.from@ == "Dispatch Team"@
    &&& e.subject@ == "Welcome to Dispatch! \u{1F389}"@
    &&& e.preview@ == "Get started with your incident reporting dashboard"@
    &&& e.body@ == welcome_body()
    &&& e.timestamp@ == "just now"@
    &&& e.created_at_timestamp == now
    &&& e.unread
    &&& !e.starred
    &&& e.role@ == "admin"@
    &&& e.kind == EmailKind::Welcome
}

/// The welcome e-mail put in the inbox of the new account `user_id`.
pub fn welcome_email(user_id: &str, now: i64) -> (e: InboxEmail)
    ensures
        is_welcome_email(e, user_id@, now),
{
    InboxEmail {
        user_id: user_id.to_string(),
        id: "welcome-email".to_string(),
        from: "Dispatch Team".to_string(),
        subject: "Welcome to Dispatch! \u{1F389}".to_string(),
        preview: "Get started with your incident reporting dashboard".to_string(),
        body: "Welcome to Dispatch! \u{1F389}\nThank you for creating your account.\n\nBest regards,\nThe Dispatch Team".to_string(),
        timestamp: "just now".to_string(),
        created_at_timestamp: now,
        unread: true,
        starred: false,
        role: "admin".to_string(),
        kind: EmailKind::Welcome,
    }
}

/// The answer to a sign-up.
pub struct SignupReply {
    pub message: String,
    pub user_id: String,
    pub first_name: String,
    pub last_name: String,
    pub email: String,
    pub created_at: String,
    pub created_at_relative: String,
}

/// A sign-up that went through: the welcome e-mail to store and the
/// answer.
pub struct Signed {
    pub welcome: InboxEmail,
    pub reply: SignupReply,
}

/// What follows the insert of the new account made at `now`: if it failed,
/// 400 `Failed to create user`; otherwise the welcome e-mail for the new
/// id (`unknown` when the database gave no object id) and the answer
/// `User created` with the account's details and its creation time, in
/// calendar form and relative to a fresh reading of the clock.
pub fn signup_result(req: &SignupRequest, inserted: Option<Option<ObjectKey>>, now: i64) -> (r:
    Result<Signed, Notice>)
    requires
        relative_time_supported(now),
    ensures
        inserted is None ==> refused_with(r, error_notice(
            Status::BadRequest,
            "Failed to create user"@,
        )),
        inserted matches Some(id) ==> (r matches Ok(s) && {
            let user_id = id_or_unknown(id);
            &&& is_welcome_email(s.welcome, user_id, now)
            &&& s.reply.message@ == "User created"@
            &&& s.reply.user_id@ == user_id
            &&& s.reply.first_name@ == req.first_name@
            &&& s.reply.last_name@ == req.last_name@
            &&& s.reply.email@ == req.email@
            &&& (EARLIEST_MILLIS <= now <= LATEST_MILLIS ==> s.reply.created_at@ == calendar_text(
                now,
                calendar_pattern(),
            ))
            &&& exists|t: i64|
                0 <= t <= LATEST_MILLIS && s.reply.created_at_relative@ == #[trigger] relative_text_at(
                    t,
                    now,
                )
            &&& is_clock_created_text(Some(now), s.reply.created_at_relative@)
        }),
{
    match inserted {
        None => Err(error(Status::BadRequest, "Failed to create user")),
        Some(id) => {
            let user_id = id_text_or_unknown(id);
            let welcome = welcome_email(user_id.as_str(), now);
            let reply = SignupReply {
                message: "User created".to_string(),
                user_id,
                first_name: req.first_name.clone(),
                last_name: req.last_name.clone(),
                email: req.email.clone(),
                created_at: format_timestamp(now),
                created_at_relative: format_timestamp_relative(now),
            };
            proof {
                let c = choose|c: ClockReading|
                    0 <= c.millis() <= LATEST_MILLIS && reply.created_at_relative@
                        == #[trigger] relative_text_at(c.millis(), now);
                assert(0 <= c.millis() <= LATEST_MILLIS && reply.created_at_relative@
                    == relative_text_at(c.millis(), now));
                assert(is_clock_relative_text(now, reply.created_at_relative@));
            }
            Ok(Signed { welcome, reply })
        },
    }
}

// ---------------------------------------------------------------------------
// Log-in
// ---------------------------------------------------------------------------

/// The answer to a successful log-in.
pub struct LoginReply {
    pub message: String,
    pub user_id: String,
    pub first_name: String,
    pub last_name: String,
    pub email: String,
    pub role: Option<String>,
    pub created_at: String,
    pub created_at_relative: String,
}

/// Whether a stored creation time can be shown relative to now.
pub open spec fn creation_time_supported(u: UserRecord) -> bool {
    u.created_at matches Some(t) ==> relative_time_supported(t)
}

/// Whether a user's creation time can be shown relative to now.
pub fn creation_time_is_supported(u: &UserRecord) -> (r: bool)
    ensures
        r == creation_time_supported(*u),
{
    match u.created_at {
        Some(t) => supports_relative_time(t),
        None => true,
    }
}

/// The calendar text of an optional creation time, `Unknown` when there is
/// none or chrono cannot represent it.
pub open spec fn created_text(t: Option<i64>) -> Seq<char> {
    match t {
        Some(t) => if EARLIEST_MILLIS <= t <= LATEST_MILLIS {
            calendar_text(t, calendar_pattern())
        } else {
            unknown_text()
        },
        None => unknown_text(),
    }
}

/// Whether `s` is the relative text of an optional creation time: `Unknown`
/// when there is none, else its rendering for some reading of the clock.
pub open spec fn is_relative_created_text(t: Option<i64>, s: Seq<char>) -> bool {
    match t {
        Some(t) => exists|now: i64| 0 <= now <= LATEST_MILLIS && s == #[trigger] relative_text_at(now, t),
        None => s == unknown_text(),
    }
}

/// Whether `s` is the relative text of an optional creation time as seen
/// at a reading of the clock: `Unknown` when there is none, else
/// `relative_text(now - t)` for a clock reading `now`.
pub open spec fn is_clock_created_text(t: Option<i64>, s: Seq<char>) -> bool {
    match t {
        Some(t) => is_clock_relative_text(t, s),
        None => s == unknown_text(),
    }
}

/// Whether `s` is `relative_text(now - t)` for a clock reading `now`.
pub open spec fn is_clock_relative_text(t: i64, s: Seq<char>) -> bool {
    exists|c: ClockReading|
        0 <= c.millis() <= LATEST_MILLIS && s == #[trigger] relative_text_at(c.millis(), t)
}

/// The relative creation text shown at log-in and on the profile page is
/// measured against the clock: there is a clock reading `now` it is the
/// label for, and when the account was created at least a minute before
/// that reading, the text is not "just now" but counts units ago (in years
/// once a year has passed).
pub proof fn creation_text_measures_from_clock(t: i64, s: Seq<char>)
    requires
        is_clock_created_text(Some(t), s),
    ensures
        exists|c: ClockReading|
            {
                &&& 0 <= c.millis() <= LATEST_MILLIS
                &&& s == #[trigger] relative_text_at(c.millis(), t)
                &&& (c.millis() - t >= 60_000 ==> s != just_now_text() && s.last() == 'o')
                &&& (c.millis() - t >= 365 * 86_400_000 ==> s == ago_text(
                    ((c.millis() - t) / 1000 / 60 / 60 / 24 / 365) as nat,
                    year_unit(),
                ))
            },
{
    assert(is_clock_relative_text(t, s));
    let c = choose|c: ClockReading|
        0 <= c.millis() <= LATEST_MILLIS && s == #[trigger] relative_text_at(c.millis(), t);
    if c.millis() - t >= 60_000 {
        minute_old_is_not_just_now(c.millis(), t);
    }
    if c.millis() - t >= 365 * 86_400_000 {
        year_old_counts_years(c.millis(), t);
    }
    assert(s == relative_text_at(c.millis(), t));
}

fn created_at_texts(t: Option<i64>) -> (r: (String, String))
    requires
        t matches Some(t) ==> relative_time_supported(t),
    ensures
        r.0@ == created_text(t),
        is_relative_created_text(t, r.1@),
        is_clock_created_text(t, r.1@),
{
    match t {
        Some(t) => (format_timestamp(t), format_timestamp_relative(t)),
        None => {
            proof {
                reveal_strlit("Unknown");
            }
            ("Unknown".to_string(), "Unknown".to_string())
        },
    }
}

/// The answer to a log-in with `password` for the account the e-mail
/// search returned: an account whose stored hash accepts the password logs
/// in (`Login successful`, with its id, names, e-mail, role and creation
/// time); a wrong password gets 401 `Invalid password`, an unknown e-mail
/// 401 `User not found`, a failed search 500 `Database error`.
pub fn login_result(found: Lookup<UserRecord>, password: &str) -> (r: Result<LoginReply, Notice>)
    requires
        found matches Lookup::Found(u) ==> creation_time_supported(u),
    ensures
        found matches Lookup::Found(u) ==> {
            if bcrypt_check(password@, u.password@) == Some(true) {
                (r matches Ok(l) && {
                    &&& l.message@ == "Login successful"@
                    &&& l.user_id@ == id_or_unknown(u.id)
                    &&& l.first_name@ == u.first_name@
                    &&& l.last_name@ == u.last_name@
                    &&& l.email@ == u.email@
                    &&& opt_text(l.role) == opt_text(u.role)
                    &&& l.created_at@ == created_text(u.created_at)
                    &&& is_relative_created_text(u.created_at, l.created_at_relative@)
                    &&& is_clock_created_text(u.created_at, l.created_at_relative@)
                })
            } else {
                refused_with(r, error_notice(Status::Unauthorized, "Invalid password"@))
            }
        },
        found is Missing ==> refused_with(r, error_notice(
            Status::Unauthorized,
            "User not found"@,
        )),
        found is Failed ==> refused_with(r, error_notice(
            Status::ServerError,
            "Database error"@,
        )),
{
    match found {
        Lookup::Found(u) => {
            if password_matches(password, u.password.as_str()) {
                let (created_at, created_at_relative) = created_at_texts(u.created_at);
                Ok(
                    LoginReply {
                        message: "Login successful".to_string(),
                        user_id: id_text_or_unknown(u.id),
                        first_name: u.first_name,
                        last_name: u.last_name,
                        email: u.email,
                        role: u.role,
                        created_at,
                        created_at_relative,
                    },
                )
            } else {
                Err(error(Status::Unauthorized, "Invalid password"))
            }
        },
        Lookup::Missing => Err(error(Status::Unauthorized, "User not found")),
        Lookup::Failed => Err(error(Status::ServerError, "Database error")),
    }
}

/// The password given at sign-up logs in to the account made for it
/// whenever hashing it succeeded: the hash is what is stored, and bcrypt
/// accepts the password against it.
pub proof fn signup_password_logs_in(password: Seq<char>, h: Seq<char>)
    requires
        is_server_hash(password, h),
    ensures
        stored_value_of(password, Some(h)) == h,
        bcrypt_check(password, stored_value_of(password, Some(h))) == Some(true),
{
}

// ---------------------------------------------------------------------------
// Roles
// ---------------------------------------------------------------------------

/// The id a role change names: refused with 400 `Invalid user ID format`
/// unless it is object id text.
pub fn role_target(user_id: &str) -> (r: Result<ObjectKey, Notice>)
    ensures
        r is Ok <==> is_object_id_text(user_id@),
        r matches Ok(k) ==> names_key(user_id@, k),
        r matches Err(n) ==> n@ == error_notice(Status::BadRequest, "Invalid user ID format"@),
{
    match parse_object_id(user_id) {
        Some(k) => Ok(k),
        None => Err(error(Status::BadRequest, "Invalid user ID format")),
    }
}

/// The answer to a role change: `Role set to <role>` when a document was
/// modified, 400 `User not found` when none was, 400 `Failed to set role`
/// when the update failed.
pub fn role_reply(outcome: WriteOutcome, role: &str) -> (n: Notice)
    ensures
        outcome matches WriteOutcome::Applied(c) && c > 0 ==> n@ == message_notice(
            Status::Success,
            "Role set to "@ + role@,
        ),
        outcome == WriteOutcome::Applied(0) ==> n@ == error_notice(
            Status::BadRequest,
            "User not found"@,
        ),
        outcome is Failed ==> n@ == error_notice(Status::BadRequest, "Failed to set role"@),
{
    match outcome {
        WriteOutcome::Applied(c) => {
            if c > 0 {
                let mut text = "Role set to ".to_string();
                text.append(role);
                Notice { status: Status::Success, is_error: false, text }
            } else {
                error(Status::BadRequest, "User not found")
            }
        },
        WriteOutcome::Failed => error(Status::BadRequest, "Failed to set role"),
    }
}

// ---------------------------------------------------------------------------
// The profile page
// ---------------------------------------------------------------------------

/// A user's profile as shown on the profile page. `created` holds the
/// calendar and relative texts of the creation time, when there is one.
pub struct UserProfile {
    pub id: Option<String>,
    pub first_name: String,
    pub last_name: String,
    pub email: String,
    pub role: Option<String>,
    pub profile_pic: Option<String>,
    pub background_image: Option<String>,
    pub cover_image: Option<String>,
    pub phone: Option<String>,
    pub location: Option<String>,
    pub website: Option<String>,
    pub bio: Option<String>,
    pub online: bool,
    pub last_seen: Option<i64>,
    pub created: Option<(String, String)>,
}

/// The answer to a profile request: the profile of the account found
/// (offline unless it says otherwise; no password), 404 `User not found`,
/// or 500 `Database error`.
pub fn profile_result(found: Lookup<UserRecord>) -> (r: Result<UserProfile, Notice>)
    requires
        found matches Lookup::Found(u) ==> creation_time_supported(u),
    ensures
        found matches Lookup::Found(u) ==> (r matches Ok(p) && {
            &&& opt_text(p.id) == opt_key_text(u.id)
            &&& p.first_name@ == u.first_name@
            &&& p.last_name@ == u.last_name@
            &&& p.email@ == u.email@
            &&& opt_text(p.role) == opt_text(u.role)
            &&& opt_text(p.profile_pic) == opt_text(u.profile_pic)
            &&& opt_text(p.background_image) == opt_text(u.background_image)
            &&& opt_text(p.cover_image) == opt_text(u.cover_image)
            &&& opt_text(p.phone) == opt_text(u.phone)
            &&& opt_text(p.location) == opt_text(u.location)
            &&& opt_text(p.website) == opt_text(u.website)
            &&& opt_text(p.bio) == opt_text(u.bio)
            &&& p.online == (u.online == Some(true))
            &&& p.last_seen == u.last_seen
            &&& (p.created is Some <==> u.created_at is Some)
            &&& (p.created matches Some(c) ==> c.0@ == created_text(u.created_at)
                && is_relative_created_text(u.created_at, c.1@) && is_clock_created_text(
                u.created_at,
                c.1@,
            ))
        }),
        found is Missing ==> refused_with(r, error_notice(
            Status::NotFound,
            "User not found"@,
        )),
        found is Failed ==> refused_with(r, error_notice(
            Status::ServerError,
            "Database error"@,
        )),
{
    match found {
        Lookup::Found(u) => {
            let created = match u.created_at {
                Some(t) => {
                    let texts = created_at_texts(Some(t));
                    Some(texts)
                },
                None => None,
            };
            let online = match u.online {
                Some(b) => b,
                None => false,
            };
            Ok(
                UserProfile {
                    id: opt_id_text(u.id),
                    first_name: u.first_name,
                    last_name: u.last_name,
                    email: u.email,
                    role: u.role,
                    profile_pic: u.profile_pic,
                    background_image: u.background_image,
                    cover_image: u.cover_image,
                    phone: u.phone,
                    location: u.location,
                    website: u.website,
                    bio: u.bio,
                    online,
                    last_seen: u.last_seen,
                    created,
                },
            )
        },
        Lookup::Missing => Err(error(Status::NotFound, "User not found")),
        Lookup::Failed => Err(error(Status::ServerError, "Database error")),
    }
}

/// Which picture of a profile is being saved.
#[derive(Clone, Copy, PartialEq, Eq, Debug)]
pub enum ImageSlot {
    ProfilePic,
    Background,
    Cover,
}

/// The user document field that holds a picture.
pub fn image_field(slot: ImageSlot) -> (f: &'static str)
    ensures
        slot is ProfilePic ==> f@ == "profilePic"@,
        slot is Background ==> f@ == "backgroundImage"@,
        slot is Cover ==> f@ == "coverImage"@,
{
    match slot {
        ImageSlot::ProfilePic => "profilePic",
        ImageSlot::Background => "backgroundImage",
        ImageSlot::Cover => "coverImage",
    }
}

/// The answer to saving a picture, by whether the update went through.
pub fn image_reply(slot: ImageSlot, saved: bool) -> (n: Notice)
    ensures
        saved && slot is ProfilePic ==> n@ == message_notice(Status::Success, "Profile pic saved"@),
        saved && slot is Background ==> n@ == message_notice(
            Status::Success,
            "Background image saved"@,
        ),
        saved && slot is Cover ==> n@ == message_notice(Status::Success, "Cover image saved"@),
        !saved && slot is ProfilePic ==> n@ == error_notice(
            Status::ServerError,
            "Failed to save profile pic"@,
        ),
        !saved && slot is Background ==> n@ == error_notice(
            Status::ServerError,
            "Failed to save background"@,
        ),
        !saved && slot is Cover ==> n@ == error_notice(
            Status::ServerError,
            "Failed to save cover image"@,
        ),
{
    match (slot, saved) {
        (ImageSlot::ProfilePic, true) => message(Status::Success, "Profile pic saved"),
        (ImageSlot::Background, true) => message(Status::Success, "Background image saved"),
        (ImageSlot::Cover, true) => message(Status::Success, "Cover image saved"),
        (ImageSlot::ProfilePic, false) => error(Status::ServerError, "Failed to save profile pic"),
        (ImageSlot::Background, false) => error(Status::ServerError, "Failed to save background"),
        (ImageSlot::Cover, false) => error(Status::ServerError, "Failed to save cover image"),
    }
}

/// A profile edit: the fields given are changed, the others kept.
pub struct ProfileUpdate {
    pub first_name: Option<String>,
    pub last_name: Option<String>,
    pub bio: Option<String>,
    pub phone: Option<String>,
    pub location: Option<String>,
    pub website: Option<String>,
    pub role: Option<String>,
}

/// One field set to a value.
pub struct FieldChange {
    pub field: String,
    pub value: String,
}

/// `(field, value)` for a field that is given, nothing otherwise.
pub open spec fn change_if_given(field: Seq<char>, value: Option<String>) -> Seq<(Seq<char>, Seq<char>)> {
    match value {
        Some(v) => seq![(field, v@)],
        None => Seq::empty(),
    }
}

/// The fields a profile edit sets, in the order the server writes them.
pub open spec fn profile_change_list(u: ProfileUpdate) -> Seq<(Seq<char>, Seq<char>)> {
    change_if_given("firstName"@, u.first_name) + change_if_given("lastName"@, u.last_name)
        + change_if_given("bio"@, u.bio) + change_if_given("phone"@, u.phone) + change_if_given(
        "location"@,
        u.location,
    ) + change_if_given("website"@, u.website) + change_if_given("role"@, u.role)
}

/// `changes` writes `field` exactly when `value` is given, and then with
/// that value: every change naming `field` carries it, and a given value
/// is among the changes under `field`.
pub open spec fn writes_given(
    changes: Seq<(Seq<char>, Seq<char>)>,
    field: Seq<char>,
    value: Option<String>,
) -> bool {
    &&& forall|i: int|
        0 <= i < changes.len() && (#[trigger] changes[i]).0 == field ==> value is Some
            && changes[i].1 == value->0@
    &&& (value matches Some(v) ==> changes.contains((field, v@)))
}

/// No change in `changes` names `field`.
pub open spec fn avoids(changes: Seq<(Seq<char>, Seq<char>)>, field: Seq<char>) -> bool {
    forall|i: int| 0 <= i < changes.len() ==> (#[trigger] changes[i]).0 != field
}

/// The changes for the first `m` of the fields `names` with values `vals`,
/// in order.
pub open spec fn joined_changes(names: Seq<Seq<char>>, vals: Seq<Option<String>>, m: nat) -> Seq<
    (Seq<char>, Seq<char>),
>
    decreases m,
{
    if m == 0 {
        Seq::empty()
    } else {
        joined_changes(names, vals, (m - 1) as nat) + change_if_given(
            names[m - 1],
            vals[m - 1],
        )
    }
}

proof fn joined_avoids(names: Seq<Seq<char>>, vals: Seq<Option<String>>, m: nat, f: Seq<char>)
    requires
        forall|j: int| 0 <= j < m ==> names[j] != f,
    ensures
        avoids(joined_changes(names, vals, m), f),
    decreases m,
{
    if m > 0 {
        joined_avoids(names, vals, (m - 1) as nat, f);
        let x = joined_changes(names, vals, (m - 1) as nat);
        let y = change_if_given(names[m - 1], vals[m - 1]);
        assert forall|i: int| 0 <= i < (x + y).len() implies (#[trigger] (x + y)[i]).0 != f by {
            if i < x.len() {
                assert((x + y)[i] == x[i]);
            } else {
                assert((x + y)[i] == y[i - x.len()]);
            }
        }
    }
}

proof fn joined_writes(names: Seq<Seq<char>>, vals: Seq<Option<String>>, m: nat, k: int)
    requires
        0 <= k < m,
        forall|j: int| 0 <= j < m && j != k ==> names[j] != names[k],
    ensures
        writes_given(joined_changes(names, vals, m), names[k], vals[k]),
    decreases m,
{
    let x = joined_changes(names, vals, (m - 1) as nat);
    let y = change_if_given(names[m - 1], vals[m - 1]);
    let l = x + y;
    assert(joined_changes(names, vals, m) == l);
    if k == m - 1 {
        joined_avoids(names, vals, (m - 1) as nat, names[k]);
        assert forall|i: int| 0 <= i < l.len() && (#[trigger] l[i]).0 == names[k] implies vals[k] is Some
            && l[i].1 == vals[k]->0@ by {
            if i < x.len() {
                assert(l[i] == x[i]);
            } else {
                assert(l[i] == y[i - x.len()]);
            }
        }
        if vals[k] is Some {
            assert(l[x.len() as int] == (names[k], vals[k]->0@));
        }
    } else {
        joined_writes(names, vals, (m - 1) as nat, k);
        assert forall|i: int| 0 <= i < l.len() && (#[trigger] l[i]).0 == names[k] implies vals[k] is Some
            && l[i].1 == vals[k]->0@ by {
            if i < x.len() {
                assert(l[i] == x[i]);
            } else {
                assert(l[i] == y[i - x.len()]);
            }
        }
        if vals[k] is Some {
            let p = choose|p: int| 0 <= p < x.len() && x[p] == (names[k], vals[k]->0@);
            assert(l[p] == x[p]);
        }
    }
}

proof fn joined_names(names: Seq<Seq<char>>, vals: Seq<Option<String>>, m: nat, i: int)
    requires
        0 <= i < joined_changes(names, vals, m).len(),
    ensures
        exists|j: int| 0 <= j < m && joined_changes(names, vals, m)[i].0 == #[trigger] names[j],
    decreases m,
{
    let x = joined_changes(names, vals, (m - 1) as nat);
    let y = change_if_given(names[m - 1], vals[m - 1]);
    if i < x.len() {
        joined_names(names, vals, (m - 1) as nat, i);
        assert((x + y)[i] == x[i]);
    } else {
        assert((x + y)[i] == y[i - x.len()]);
        assert((x + y)[i].0 == names[m - 1]);
    }
}

/// A profile edit writes each given field under its own name and with the
/// value given for it, and writes nothing else: the first name goes to
/// `firstName`, the last name to `lastName`, and so on, and every change
/// names one of these seven fields.
pub proof fn profile_edit_writes_what_was_given(u: ProfileUpdate)
    ensures
        writes_given(profile_change_list(u), "firstName"@, u.first_name),
        writes_given(profile_change_list(u), "lastName"@, u.last_name),
        writes_given(profile_change_list(u), "bio"@, u.bio),
        writes_given(profile_change_list(u), "phone"@, u.phone),
        writes_given(profile_change_list(u), "location"@, u.location),
        writes_given(profile_change_list(u), "website"@, u.website),
        writes_given(profile_change_list(u), "role"@, u.role),
        forall|i: int|
            0 <= i < profile_change_list(u).len() ==> {
                let f = (#[trigger] profile_change_list(u)[i]).0;
                f == "firstName"@ || f == "lastName"@ || f == "bio"@ || f == "phone"@ || f
                    == "location"@ || f == "website"@ || f == "role"@
            },
{
    reveal_strlit("firstName");
    reveal_strlit("lastName");
    reveal_strlit("bio");
    reveal_strlit("phone");
    reveal_strlit("location");
    reveal_strlit("website");
    reveal_strlit("role");
    let names = seq!["firstName"@, "lastName"@, "bio"@, "phone"@, "location"@, "website"@, "role"@];
    let vals = seq![u.first_name, u.last_name, u.bio, u.phone, u.location, u.website, u.role];
    let l = profile_change_list(u);
    assert(l == joined_changes(names, vals, 7)) by {
        reveal_with_fuel(joined_changes, 8);
        assert(joined_changes(names, vals, 0) =~= Seq::empty());
    }
    assert(names[0].len() == 9 && names[1].len() == 8 && names[2].len() == 3 && names[3].len() == 5
        && names[4].len() == 8 && names[5].len() == 7 && names[6].len() == 4);
    assert(names[1][1] == 'a' && names[4][1] == 'o');
    assert forall|j: int, k: int| 0 <= j < 7 && 0 <= k < 7 && j != k implies names[j]
        != names[k] by {
        if j == 1 && k == 4 || j == 4 && k == 1 {
            assert(names[j][1] != names[k][1]);
        } else {
            assert(names[j].len() != names[k].len());
        }
    }
    joined_writes(names, vals, 7, 0);
    joined_writes(names, vals, 7, 1);
    joined_writes(names, vals, 7, 2);
    joined_writes(names, vals, 7, 3);
    joined_writes(names, vals, 7, 4);
    joined_writes(names, vals, 7, 5);
    joined_writes(names, vals, 7, 6);
    assert forall|i: int| 0 <= i < l.len() implies {
        let f = (#[trigger] l[i]).0;
        f == "firstName"@ || f == "lastName"@ || f == "bio"@ || f == "phone"@ || f == "location"@
            || f == "website"@ || f == "role"@
    } by {
        joined_names(names, vals, 7, i);
    }
}

fn push_if_given(changes: &mut Vec<FieldChange>, field: &str, value: &Option<String>)
    ensures
        final(changes)@.map_values(|c: FieldChange| (c.field@, c.value@)) == old(changes)@.map_values(
            |c: FieldChange| (c.field@, c.value@),
        ) + change_if_given(field@, *value),
{
    match value {
        Some(v) => {
            changes.push(FieldChange { field: field.to_string(), value: v.clone() });
        },
        None => {},
    }
    assert(changes@.map_values(|c: FieldChange| (c.field@, c.value@)) =~= old(changes)@.map_values(
        |c: FieldChange| (c.field@, c.value@),
    ) + change_if_given(field@, *value));
}

/// The fields a profile edit sets.
pub fn profile_changes(update: &ProfileUpdate) -> (r: Vec<FieldChange>)
    ensures
        r@.map_values(|c: FieldChange| (c.field@, c.value@)) == profile_change_list(*update),
{
    let mut r: Vec<FieldChange> = Vec::new();
    assert(r@.map_values(|c: FieldChange| (c.field@, c.value@)) =~= Seq::empty());
    push_if_given(&mut r, "firstName", &update.first_name);
    push_if_given(&mut r, "lastName", &update.last_name);
    push_if_given(&mut r, "bio", &update.bio);
    push_if_given(&mut r, "phone", &update.phone);
    push_if_given(&mut r, "location", &update.location);
    push_if_given(&mut r, "website", &update.website);
    push_if_given(&mut r, "role", &update.role);
    r
}

/// The answer to a profile edit, by whether the update went through.
pub fn profile_update_reply(saved: bool) -> (n: Notice)
    ensures
        saved ==> n@ == message_notice(Status::Success, "Profile updated"@),
        !saved ==> n@ == error_notice(Status::ServerError, "Failed to update profile"@),
{
    if saved {
        message(Status::Success, "Profile updated")
    } else {
        error(Status::ServerError, "Failed to update profile")
    }
}

} // verus!
