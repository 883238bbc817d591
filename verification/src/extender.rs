//! The client side of the subscription service: what a reply to an extension
//! request means.

use vstd::prelude::*;

verus! {

/// What came back from one call to the subscription service, as plain values.
#[derive(Debug, PartialEq, Eq)]
pub enum ExtensionReply {
    /// No response arrived: a network error or the timeout.
    Unreachable { detail: String },
    /// A response arrived but its body could not be read.
    Unreadable { status: u16, detail: String },
    /// A response arrived with this status and body.
    Answered { status: u16, body: String },
}

/// The mathematical value of an [`ExtensionReply`].
pub enum ReplyView {
    Unreachable { detail: Seq<char> },
    Unreadable { status: int, detail: Seq<char> },
    Answered { status: int, body: Seq<char> },
}

impl View for ExtensionReply {
    type V = ReplyView;

    open spec fn view(&self) -> ReplyView {
        match *self {
            ExtensionReply::Unreachable { detail } => ReplyView::Unreachable { detail: detail@ },
            ExtensionReply::Unreadable { status, detail } => ReplyView::Unreadable {
                status: status as int,
                detail: detail@,
            },
            ExtensionReply::Answered { status, body } => ReplyView::Answered {
                status: status as int,
                body: body@,
            },
        }
    }
}

/// What one call to the subscription service achieved.
#[derive(Debug, PartialEq, Eq)]
pub enum ExtensionResult {
    /// The subscription was extended and now ends at `subscription_end`.
    Granted { subscription_end: String },
    /// The call failed: network error, timeout or a non-success status.
    CallFailed { detail: String },
    /// The call succeeded but its answer holds no expiry.
    BadAnswer { detail: String },
}

/// The mathematical value of an [`ExtensionResult`].
pub enum ResultView {
    Granted { subscription_end: Seq<char> },
    CallFailed { detail: Seq<char> },
    BadAnswer { detail: Seq<char> },
}

impl View for ExtensionResult {
    type V = ResultView;

    open spec fn view(&self) -> ResultView {
        match *self {
            ExtensionResult::Granted { subscription_end } => ResultView::Granted {
                subscription_end: subscription_end@,
            },
            ExtensionResult::CallFailed { detail } => ResultView::CallFailed { detail: detail@ },
            ExtensionResult::BadAnswer { detail } => ResultView::BadAnswer { detail: detail@ },
        }
    }
}

impl Clone for ExtensionResult {
    fn clone(&self) -> (r: Self)
        ensures
            r@ == self@,
    {
        match self {
            ExtensionResult::Granted { subscription_end } => ExtensionResult::Granted {
                subscription_end: subscription_end.clone(),
            },
            ExtensionResult::CallFailed { detail } => ExtensionResult::CallFailed { detail: detail.clone() },
            ExtensionResult::BadAnswer { detail } => ExtensionResult::BadAnswer { detail: detail.clone() },
        }
    }
}

/// What a JSON reader finds in `body` under the member `key` of the top-level
/// object: an error text when `body` is no JSON document, `None` when the
/// document has no such member or the member is no string, else the string.
pub uninterp spec fn json_string_member(body: Seq<char>, key: Seq<char>) -> Result<
    Option<Seq<char>>,
    Seq<char>,
>;

/// The mathematical value of a member lookup.
pub open spec fn member_view(m: Result<Option<String>, String>) -> Result<Option<Seq<char>>, Seq<char>> {
    match m {
        Ok(Some(s)) => Ok(Some(s@)),
        Ok(None) => Ok(None),
        Err(e) => Err(e@),
    }
}

/// Whether a status code is in the success class.
pub open spec fn success_status(status: int) -> bool {
    200 <= status < 300
}

/// The member of the answer that holds the new expiry.
pub open spec fn expiry_key() -> Seq<char> {
    "subscription_end"@
}

/// The detail reported when a well-formed answer holds no expiry.
pub open spec fn missing_expiry() -> Seq<char> {
    "no subscription_end in the answer"@
}

/// What a member lookup in a successful answer means: a non-empty string is
/// the new expiry, anything else is a bad answer.
pub open spec fn member_result(member: Result<Option<Seq<char>>, Seq<char>>) -> ResultView {
    match member {
        Ok(Some(s)) => if s.len() > 0 {
            ResultView::Granted { subscription_end: s }
        } else {
            ResultView::BadAnswer { detail: missing_expiry() }
        },
        Ok(None) => ResultView::BadAnswer { detail: missing_expiry() },
        Err(e) => ResultView::BadAnswer { detail: e },
    }
}

/// What a reply means. No response, or a response outside the success class,
/// is a failed call whatever the body says; a successful response is judged
/// by the expiry found in its body.
pub open spec fn reply_result(reply: ReplyView) -> ResultView {
    match reply {
        ReplyView::Unreachable { detail } => ResultView::CallFailed { detail },
        ReplyView::Unreadable { status, detail } => if success_status(status) {
            ResultView::BadAnswer { detail }
        } else {
            ResultView::CallFailed { detail }
        },
        ReplyView::Answered { status, body } => if success_status(status) {
            member_result(json_string_member(body, expiry_key()))
        } else {
            ResultView::CallFailed { detail: body }
        },
    }
}

/// Tells whether a status code is in the success class.
pub fn is_success(status: u16) -> (b: bool)
    ensures
        b == success_status(status as int),
{
    200 <= status && status < 300
}

/// Reads the string member `key` of the JSON document `body` with
/// `serde_json::from_str`, `serde_json::Value::get` and
/// `serde_json::Value::as_str`. The contract claims only that the answer is
/// a function of `body` and `key`: the error text of the parser when `body`
/// is no JSON document, else the member if it is there and is a string.
#[verifier::external_body]
fn read_string_member(body: &str, key: &str) -> (r: Result<Option<String>, String>)
    ensures
        member_view(r) == json_string_member(body@, key@),
{
    match serde_json::from_str::<serde_json::Value>(body) {
        Ok(doc) => Ok(doc.get(key).and_then(serde_json::Value::as_str).map(str::to_owned)),
        Err(e) => Err(e.to_string()),
    }
}

/// Judges the member lookup of a successful answer.
pub fn judge_member(member: Result<Option<String>, String>) -> (r: ExtensionResult)
    ensures
        r@ == member_result(member_view(member)),
{
    match member {
        Ok(Some(s)) => {
            if s.as_str().is_empty() {
                ExtensionResult::BadAnswer { detail: "no subscription_end in the answer".to_string() }
            } else {
                ExtensionResult::Granted { subscription_end: s }
            }
        },
        Ok(None) => ExtensionResult::BadAnswer { detail: "no subscription_end in the answer".to_string() },
        Err(e) => ExtensionResult::BadAnswer { detail: e },
    }
}

/// Judges one reply of the subscription service.
pub fn interpret(reply: ExtensionReply) -> (r: ExtensionResult)
    ensures
        r@ == reply_result(reply@),
{
    match reply {
        ExtensionReply::Unreachable { detail } => ExtensionResult::CallFailed { detail },
        ExtensionReply::Unreadable { status, detail } => {
            if is_success(status) {
                ExtensionResult::BadAnswer { detail }
            } else {
                ExtensionResult::CallFailed { detail }
            }
        },
        ExtensionReply::Answered { status, body } => {
            if is_success(status) {
                judge_member(read_string_member(body.as_str(), "subscription_end"))
            } else {
                ExtensionResult::CallFailed { detail: body }
            }
        },
    }
}

} // verus!
