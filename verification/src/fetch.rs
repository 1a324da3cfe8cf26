//! The decisions of fetching a user's events: where to ask, how to read the
//! status of the answer, and what to say when it is not what was hoped for.
//! Sending the request and decoding the body are the caller's part.

use crate::event::GitHubEvent;
use vstd::prelude::*;

verus! {

/// The name of the header that identifies this client.
pub const USER_AGENT_HEADER: &'static str = "User-Agent";

/// The value sent in the identifying header.
pub const USER_AGENT: &'static str = "github-activity-cli";

/// The address of the public event feed of `username`.
pub open spec fn events_url_text(username: Seq<char>) -> Seq<char> {
    "https://api.github.com/users/"@ + username + "/events"@
}

/// Builds the address of the public event feed of `username`. The name is
/// put in as it is, neither checked nor escaped.
pub fn events_url(username: &str) -> (url: String)
    ensures
        url@ == events_url_text(username@),
{
    let mut url = String::from_str("https://api.github.com/users/");
    url.append(username);
    url.append("/events");
    url
}

/// The status code of an HTTP response: a number of three digits.
#[derive(Debug, Clone, Copy, PartialEq, Eq)]
pub struct HttpStatus {
    code: u16,
}

impl HttpStatus {
    #[verifier::type_invariant]
    spec fn three_digits(self) -> bool {
        100 <= self.code <= 999
    }

    /// The code as a number.
    pub closed spec fn code(self) -> u16 {
        self.code
    }

    /// Accepts the codes from 100 to 999 and no others.
    pub fn new(code: u16) -> (status: Option<HttpStatus>)
        ensures
            status is Some <==> 100 <= code <= 999,
            status matches Some(s) ==> s.code() == code,
    {
        if 100 <= code && code <= 999 {
            Some(HttpStatus { code })
        } else {
            None
        }
    }

    /// The code as a number, which has three digits.
    pub fn as_u16(&self) -> (code: u16)
        ensures
            code == self.code(),
            100 <= code <= 999,
    {
        proof {
            use_type_invariant(self);
        }
        self.code
    }
}

/// Why a fetch did not yield events. Every failure ends the run: none is
/// retried.
#[derive(Debug, PartialEq, Eq)]
pub enum FetchError {
    /// The server knows no user of this name.
    UserNotFound(String),
    /// The server refuses further requests for now.
    RateLimited,
    /// The server answered with a status that has no meaning here.
    UnexpectedStatus(HttpStatus),
    /// The body of the answer could not be read as a list of events; the
    /// text is the decoder's own message.
    MalformedResponse(String),
    /// No answer arrived; the text is the HTTP client's own message.
    Transport(String),
}

/// A failure as contracts see it.
pub enum Failure {
    UserNotFound(Seq<char>),
    RateLimited,
    UnexpectedStatus(u16),
    MalformedResponse(Seq<char>),
    Transport(Seq<char>),
}

impl View for FetchError {
    type V = Failure;

    open spec fn view(&self) -> Failure {
        match self {
            FetchError::UserNotFound(name) => Failure::UserNotFound(name@),
            FetchError::RateLimited => Failure::RateLimited,
            FetchError::UnexpectedStatus(status) => Failure::UnexpectedStatus(status.code()),
            FetchError::MalformedResponse(message) => Failure::MalformedResponse(message@),
            FetchError::Transport(message) => Failure::Transport(message@),
        }
    }
}

/// The failure that a status code stands for when `username` was asked
/// for; `None` for 200, the one status that lets the fetch go on.
pub open spec fn status_failure(code: u16, username: Seq<char>) -> Option<Failure> {
    if code == 200 {
        None
    } else if code == 404 {
        Some(Failure::UserNotFound(username))
    } else if code == 403 {
        Some(Failure::RateLimited)
    } else {
        Some(Failure::UnexpectedStatus(code))
    }
}

/// Reads the status of the answer to a request for the events of
/// `username`: `Ok` where the body is to be decoded, else the failure.
pub fn check_status(status: HttpStatus, username: &str) -> (outcome: Result<(), FetchError>)
    ensures
        match outcome {
            Ok(_) => status_failure(status.code(), username@) is None,
            Err(e) => status_failure(status.code(), username@) == Some(e@),
        },
{
    let code = status.as_u16();
    if code == 200 {
        Ok(())
    } else if code == 404 {
        Err(FetchError::UserNotFound(String::from_str(username)))
    } else if code == 403 {
        Err(FetchError::RateLimited)
    } else {
        Err(FetchError::UnexpectedStatus(status))
    }
}

/// Settles a fetch once the body of a 200 answer has been decoded, or has
/// failed to decode with the given message.
pub fn body_outcome(decoded: Result<Vec<GitHubEvent>, String>) -> (outcome: Result<
    Vec<GitHubEvent>,
    FetchError,
>)
    ensures
        match decoded {
            Ok(events) => outcome == Ok::<Vec<GitHubEvent>, FetchError>(events),
            Err(message) => outcome matches Err(e) && e@ == Failure::MalformedResponse(message@),
        },
{
    match decoded {
        Ok(events) => Ok(events),
        Err(message) => Err(FetchError::MalformedResponse(message)),
    }
}

/// What a `reqwest::StatusCode` displays: the number, a space, and the
/// reason phrase that the `http` crate's table gives for it.
pub uninterp spec fn status_line(code: u16) -> Seq<char>;

/// `reqwest::StatusCode::from_u16`, which accepts every code from 100 to
/// 999, followed by the `Display` of the status. The contract only names
/// the text.
#[verifier::external_body]
fn status_display(code: u16) -> (text: String)
    requires
        100 <= code <= 999,
    ensures
        text@ == status_line(code),
{
    match reqwest::StatusCode::from_u16(code) {
        Ok(status) => status.to_string(),
        Err(_) => String::new(),
    }
}

/// The message that reports a failure.
pub open spec fn message_text(failure: Failure) -> Seq<char> {
    match failure {
        Failure::UserNotFound(name) => "User '"@ + name + "' not found"@,
        Failure::RateLimited => "API rate limit exceeded. Please try again later."@,
        Failure::UnexpectedStatus(code) => "GitHub API request failed with status: "@
            + status_line(code),
        Failure::MalformedResponse(message) => message,
        Failure::Transport(message) => message,
    }
}

impl FetchError {
    /// The message that reports this failure.
    pub fn message(&self) -> (text: String)
        ensures
            text@ == message_text(self@),
    {
        match self {
            FetchError::UserNotFound(name) => {
                let mut text = String::from_str("User '");
                text.append(name.as_str());
                text.append("' not found");
                text
            },
            FetchError::RateLimited => String::from_str(
                "API rate limit exceeded. Please try again later.",
            ),
            FetchError::UnexpectedStatus(status) => {
                let mut text = String::from_str("GitHub API request failed with status: ");
                let line = status_display(status.as_u16());
                text.append(line.as_str());
                text
            },
            FetchError::MalformedResponse(message) => message.clone(),
            FetchError::Transport(message) => message.clone(),
        }
    }
}

} // verus!
