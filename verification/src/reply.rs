//! What a handler answers when the answer is a status and a one-line
//! message, and the outcomes of the database calls that handlers decide on.

use vstd::prelude::*;

verus! {

/// The HTTP statuses the server answers with: 200, 400, 401, 404 and 500.
#[derive(Clone, Copy, PartialEq, Eq, Debug)]
pub enum Status {
    Success,
    BadRequest,
    Unauthorized,
    NotFound,
    ServerError,
}

/// A reply whose body is `{"message": text}`, or `{"error": text}` when
/// `is_error` holds.
#[derive(Debug)]
pub struct Notice {
    pub status: Status,
    pub is_error: bool,
    pub text: String,
}

/// The mathematical value of a `Notice`.
pub struct NoticeView {
    pub status: Status,
    pub is_error: bool,
    pub text: Seq<char>,
}

impl View for Notice {
    type V = NoticeView;

    open spec fn view(&self) -> NoticeView {
        NoticeView { status: self.status, is_error: self.is_error, text: self.text@ }
    }
}

/// The notice `{"message": text}` with the given status.
pub open spec fn message_notice(status: Status, text: Seq<char>) -> NoticeView {
    NoticeView { status, is_error: false, text }
}

/// The notice `{"error": text}` with the given status.
pub open spec fn error_notice(status: Status, text: Seq<char>) -> NoticeView {
    NoticeView { status, is_error: true, text }
}

/// Builds `{"message": text}`.
pub fn message(status: Status, text: &str) -> (n: Notice)
    ensures
        n@ == message_notice(status, text@),
{
    Notice { status, is_error: false, text: text.to_string() }
}

/// Builds `{"error": text}`.
pub fn error(status: Status, text: &str) -> (n: Notice)
    ensures
        n@ == error_notice(status, text@),
{
    Notice { status, is_error: true, text: text.to_string() }
}

/// `r` is a refusal with notice `n`.
pub open spec fn refused_with<T>(r: Result<T, Notice>, n: NoticeView) -> bool {
    r matches Err(e) && e@ == n
}

/// `r` holds notice `n`.
pub open spec fn holds_notice(r: Option<Notice>, n: NoticeView) -> bool {
    r matches Some(e) && e@ == n
}

/// The outcome of looking one document up.
pub enum Lookup<T> {
    /// The document was found.
    Found(T),
    /// The query ran and matched nothing.
    Missing,
    /// The query failed.
    Failed,
}

/// The outcome of an update or delete: the count the database reports
/// (modified or deleted documents), or a failure.
#[derive(Clone, Copy, PartialEq, Eq, Debug)]
pub enum WriteOutcome {
    Applied(u64),
    Failed,
}

} // verus!
