//! Requests to the chat-completion service and the reading of its replies.

use crate::failure::{Failure, FailureKind, FailureView};
use crate::json::{path_views, read_text, text_in_document, JsonStep, PathStep};
use crate::text::fetched_view;
use vstd::prelude::*;

verus! {

/// The roles that the completion service understands.
#[derive(Clone, Copy, Debug, PartialEq, Eq, Structural)]
pub enum ApiRole {
    System,
    User,
    Assistant,
}

impl ApiRole {
    /// The name of a role on the wire.
    pub open spec fn name_text(self) -> Seq<char> {
        match self {
            ApiRole::System => "system"@,
            ApiRole::User => "user"@,
            ApiRole::Assistant => "assistant"@,
        }
    }

    /// The name of a role on the wire.
    pub fn name(self) -> (r: &'static str)
        ensures
            r@ == self.name_text(),
    {
        match self {
            ApiRole::System => "system",
            ApiRole::User => "user",
            ApiRole::Assistant => "assistant",
        }
    }
}

/// What one entry of a request holds.
pub struct ApiMessageView {
    pub role: ApiRole,
    pub text: Seq<char>,
    pub image_url: Option<Seq<char>>,
}

/// One entry of a request: a role and its content. The content is a text,
/// or a text together with an image given by its URL.
#[derive(Clone, Debug, PartialEq, Eq)]
pub struct ApiMessage {
    pub role: ApiRole,
    pub text: String,
    pub image_url: Option<String>,
}

impl View for ApiMessage {
    type V = ApiMessageView;

    open spec fn view(&self) -> ApiMessageView {
        ApiMessageView {
            role: self.role,
            text: self.text@,
            image_url: match self.image_url {
                Some(url) => Some(url@),
                None => None,
            },
        }
    }
}

/// The views of a sequence of request entries, in the same order.
pub open spec fn entry_views(entries: Seq<ApiMessage>) -> Seq<ApiMessageView> {
    entries.map_values(|e: ApiMessage| e@)
}

/// An entry that holds a text and no image.
pub open spec fn text_entry(role: ApiRole, text: Seq<char>) -> ApiMessageView {
    ApiMessageView { role, text, image_url: None }
}

impl ApiMessage {
    /// An entry that holds a text and no image.
    pub fn text(role: ApiRole, text: String) -> (r: ApiMessage)
        ensures
            r@ == text_entry(role, text@),
    {
        ApiMessage { role, text, image_url: None }
    }
}

/// What a request holds.
pub struct CompletionRequestView {
    pub model: Seq<char>,
    pub messages: Seq<ApiMessageView>,
    pub max_tokens: Option<u32>,
}

/// A request to the completion service.
#[derive(Clone, Debug, PartialEq, Eq)]
pub struct CompletionRequest {
    pub model: String,
    pub messages: Vec<ApiMessage>,
    /// The cap on the answer's length, where the request sets one.
    pub max_tokens: Option<u32>,
}

impl View for CompletionRequest {
    type V = CompletionRequestView;

    open spec fn view(&self) -> CompletionRequestView {
        CompletionRequestView {
            model: self.model@,
            messages: entry_views(self.messages@),
            max_tokens: self.max_tokens,
        }
    }
}

/// What the transport hands back for a request.
pub enum CompletionReplyView {
    Unreachable { detail: Seq<char> },
    Answered { status: u16, body: Seq<char> },
}

/// What the transport hands back for a request.
#[derive(Clone, Debug, PartialEq, Eq)]
pub enum CompletionReply {
    /// The request did not get through; `detail` is the transport's message.
    Unreachable { detail: String },
    /// The service answered with an HTTP status and a body.
    Answered { status: u16, body: String },
}

impl View for CompletionReply {
    type V = CompletionReplyView;

    open spec fn view(&self) -> CompletionReplyView {
        match self {
            CompletionReply::Unreachable { detail } => CompletionReplyView::Unreachable {
                detail: detail@,
            },
            CompletionReply::Answered { status, body } => CompletionReplyView::Answered {
                status: *status,
                body: body@,
            },
        }
    }
}

/// Whether an HTTP status reports success.
pub open spec fn is_success(status: u16) -> bool {
    200 <= status < 300
}

/// Where the answer stands in the body of a successful reply:
/// `choices[0].message.content`.
pub open spec fn answer_path() -> Seq<JsonStep> {
    seq![
        JsonStep::Member("choices"@),
        JsonStep::Element(0),
        JsonStep::Member("message"@),
        JsonStep::Member("content"@),
    ]
}

/// What a reply comes to, given what reading the answer out of its body
/// gave: a status other than success is a failure that carries the body; a
/// body that is not JSON is a failure that carries the parser's message; a
/// document without the answer gives the placeholder; else the answer.
pub open spec fn settled(
    status: u16,
    body: Seq<char>,
    reading: Result<Option<Seq<char>>, Seq<char>>,
    placeholder: Seq<char>,
) -> Result<Seq<char>, FailureView> {
    if !is_success(status) {
        Err(FailureView { kind: FailureKind::Rejected, detail: body })
    } else {
        match reading {
            Err(reason) => Err(FailureView { kind: FailureKind::Parse, detail: reason }),
            Ok(None) => Ok(placeholder),
            Ok(Some(answer)) => Ok(answer),
        }
    }
}

/// What a reply comes to.
pub open spec fn interpreted(reply: CompletionReplyView, placeholder: Seq<char>) -> Result<
    Seq<char>,
    FailureView,
> {
    match reply {
        CompletionReplyView::Unreachable { detail } => Err(
            FailureView { kind: FailureKind::Network, detail },
        ),
        CompletionReplyView::Answered { status, body } => settled(
            status,
            body,
            text_in_document(body, answer_path()),
            placeholder,
        ),
    }
}

/// The characters of an answer or of the failure in its place.
pub open spec fn answer_view(answer: Result<String, Failure>) -> Result<Seq<char>, FailureView> {
    match answer {
        Ok(text) => Ok(text@),
        Err(failure) => Err(failure@),
    }
}

/// Whether an HTTP status reports success.
pub fn status_is_success(status: u16) -> (r: bool)
    ensures
        r == is_success(status),
{
    200 <= status && status < 300
}

/// The path of the answer in the body of a successful reply.
pub fn answer_steps() -> (r: Vec<PathStep>)
    ensures
        path_views(r@) == answer_path(),
{
    let mut path: Vec<PathStep> = Vec::new();
    path.push(PathStep::Member(String::from_str("choices")));
    path.push(PathStep::Element(0));
    path.push(PathStep::Member(String::from_str("message")));
    path.push(PathStep::Member(String::from_str("content")));
    assert(path_views(path@) =~= answer_path());
    path
}

/// Settles a reply whose body has been read: see [`settled`]. `reading` is
/// what reading the answer out of `body` gave; it is not looked at where the
/// status is not success.
pub fn settle(
    status: u16,
    body: String,
    reading: Result<Option<String>, String>,
    placeholder: &str,
) -> (r: Result<String, Failure>)
    ensures
        answer_view(r) == settled(status, body@, fetched_view(reading), placeholder@),
{
    if !status_is_success(status) {
        Err(Failure::new(FailureKind::Rejected, body))
    } else {
        match reading {
            Err(reason) => Err(Failure::new(FailureKind::Parse, reason)),
            Ok(None) => Ok(String::from_str(placeholder)),
            Ok(Some(answer)) => Ok(answer),
        }
    }
}

/// Turns what the transport handed back into the answer's text or a failure.
/// A reply that did not get through is a network failure; a status other
/// than success is a failure that carries the body; on success the body is
/// parsed and the answer read from it, with `placeholder` in its place where
/// the document holds none.
pub fn interpret(reply: CompletionReply, placeholder: &str) -> (r: Result<String, Failure>)
    ensures
        answer_view(r) == interpreted(reply@, placeholder@),
{
    match reply {
        CompletionReply::Unreachable { detail } => Err(Failure::new(FailureKind::Network, detail)),
        CompletionReply::Answered { status, body } => {
            if status_is_success(status) {
                let path = answer_steps();
                let reading = read_text(body.as_str(), &path);
                settle(status, body, reading, placeholder)
            } else {
                settle(status, body, Ok(None), placeholder)
            }
        },
    }
}

} // verus!
