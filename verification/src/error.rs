//! The ways in which fetching headlines can fail.

use vstd::prelude::*;
use vstd::string::StringExecFns;

verus! {

/// Why a response body could not be read as an envelope.
#[derive(Debug)]
pub enum ParseFailure {
    /// The parser read no document out of the body; its account is kept.
    Syntax(serde_json::Error),
    /// The body is JSON of another shape than an envelope.
    Shape,
}

/// The cause that a transport gave for a failure, as text.
pub type Cause = String;

/// Why a fetch brought no headlines.
#[derive(Debug)]
pub enum NewsApiError {
    /// The blocking transport could not complete the request.
    RequestFailed(Cause),
    /// The response arrived but could not be read as text.
    FailedResponseToString(Cause),
    /// The response body is not an envelope.
    ArticleParseFailed(ParseFailure),
    /// The service's base address could not be parsed.
    UrlParsing(url::ParseError),
    /// The service answered with a status other than "ok".
    BadRequest(&'static str),
    /// The suspending transport could not complete the request.
    AsyncRequestFailed(Cause),
}

impl NewsApiError {
    /// What `message` returns.
    pub open spec fn message_text(self) -> Seq<char> {
        match self {
            NewsApiError::RequestFailed(_) => "Failed fetching articles"@,
            NewsApiError::FailedResponseToString(_) => "Failed converting response to string"@,
            NewsApiError::ArticleParseFailed(_) => "Article Parsing failed"@,
            NewsApiError::UrlParsing(_) => "Url parsing failed"@,
            NewsApiError::BadRequest(reason) => "Request failed: "@ + reason@,
            NewsApiError::AsyncRequestFailed(_) => "Async request failed"@,
        }
    }

    /// The error in words, for a log or a status line.
    pub fn message(&self) -> (text: String)
        ensures
            text@ == self.message_text(),
    {
        match self {
            NewsApiError::RequestFailed(_) => "Failed fetching articles".to_owned(),
            NewsApiError::FailedResponseToString(_) => {
                "Failed converting response to string".to_owned()
            },
            NewsApiError::ArticleParseFailed(_) => "Article Parsing failed".to_owned(),
            NewsApiError::UrlParsing(_) => "Url parsing failed".to_owned(),
            NewsApiError::BadRequest(reason) => "Request failed: ".to_owned().concat(reason),
            NewsApiError::AsyncRequestFailed(_) => "Async request failed".to_owned(),
        }
    }
}

/// The message for a rejected request, by the code that the service gave.
pub open spec fn rejection_message(code: Option<Seq<char>>) -> Seq<char> {
    if code == Some("apiKeyDisabled"@) {
        "Your API key has been disabled"@
    } else {
        "Unknown error"@
    }
}

/// Maps the code of a rejected request to the error that reports it: a code
/// that is known gets its own message, any other and none the general one.
pub fn map_response_err(code: Option<String>) -> (error: NewsApiError)
    ensures
        error matches NewsApiError::BadRequest(reason) && reason@ == rejection_message(
            code.deep_view(),
        ),
{
    if let Some(code) = code {
        if code == "apiKeyDisabled".to_owned() {
            NewsApiError::BadRequest("Your API key has been disabled")
        } else {
            NewsApiError::BadRequest("Unknown error")
        }
    } else {
        NewsApiError::BadRequest("Unknown error")
    }
}

/// A known code never gets the general message.
pub proof fn lemma_known_code_has_own_message()
    ensures
        rejection_message(Some("apiKeyDisabled"@)) != rejection_message(None),
        forall|code: Option<Seq<char>>|
            code != Some("apiKeyDisabled"@) ==> #[trigger] rejection_message(code)
                == rejection_message(None),
{
    reveal_strlit("Your API key has been disabled");
    reveal_strlit("Unknown error");
    assert("Your API key has been disabled"@.len() != "Unknown error"@.len());
}

} // verus!
