use github_activity::event::GitHubEvent;
use github_activity::fetch::{
    body_outcome, check_status, events_url, FetchError, HttpStatus, USER_AGENT, USER_AGENT_HEADER,
};

fn status(code: u16) -> HttpStatus {
    HttpStatus::new(code).unwrap()
}

#[test]
fn url_holds_the_username() {
    assert_eq!(events_url("octocat"), "https://api.github.com/users/octocat/events");
    assert_eq!(events_url(""), "https://api.github.com/users//events");
}

#[test]
fn url_does_not_escape_the_username() {
    assert_eq!(events_url("a b/c?d"), "https://api.github.com/users/a b/c?d/events");
}

#[test]
fn identifying_header() {
    assert_eq!(USER_AGENT_HEADER, "User-Agent");
    assert_eq!(USER_AGENT, "github-activity-cli");
}

#[test]
fn status_codes_have_three_digits() {
    assert!(HttpStatus::new(0).is_none());
    assert!(HttpStatus::new(99).is_none());
    assert!(HttpStatus::new(1000).is_none());
    assert!(HttpStatus::new(u16::MAX).is_none());
    assert_eq!(status(100).as_u16(), 100);
    assert_eq!(status(200).as_u16(), 200);
    assert_eq!(status(999).as_u16(), 999);
}

#[test]
fn status_ok_lets_the_fetch_go_on() {
    assert_eq!(check_status(status(200), "octocat"), Ok(()));
}

#[test]
fn status_not_found_names_the_user() {
    assert_eq!(
        check_status(status(404), "nonexistent-user-xyz"),
        Err(FetchError::UserNotFound(String::from("nonexistent-user-xyz")))
    );
}

#[test]
fn status_forbidden_is_rate_limit() {
    assert_eq!(check_status(status(403), "octocat"), Err(FetchError::RateLimited));
}

#[test]
fn other_statuses_are_unexpected() {
    for code in [100u16, 201, 204, 301, 304, 400, 401, 402, 405, 429, 500, 502, 503, 999] {
        assert_eq!(
            check_status(status(code), "octocat"),
            Err(FetchError::UnexpectedStatus(status(code)))
        );
    }
}

#[test]
fn only_three_statuses_are_told_apart() {
    let mut code: u16 = 100;
    while code <= 999 {
        let outcome = check_status(status(code), "u");
        match code {
            200 => assert_eq!(outcome, Ok(())),
            404 => assert_eq!(outcome, Err(FetchError::UserNotFound(String::from("u")))),
            403 => assert_eq!(outcome, Err(FetchError::RateLimited)),
            _ => assert_eq!(outcome, Err(FetchError::UnexpectedStatus(status(code)))),
        }
        code += 1;
    }
}

#[test]
fn message_of_user_not_found() {
    let error = FetchError::UserNotFound(String::from("nonexistent-user-xyz"));
    assert_eq!(error.message(), "User 'nonexistent-user-xyz' not found");
}

#[test]
fn message_of_rate_limit() {
    assert_eq!(
        FetchError::RateLimited.message(),
        "API rate limit exceeded. Please try again later."
    );
}

#[test]
fn message_of_unexpected_status_gives_code_and_reason() {
    assert_eq!(
        FetchError::UnexpectedStatus(status(500)).message(),
        "GitHub API request failed with status: 500 Internal Server Error"
    );
    assert_eq!(
        FetchError::UnexpectedStatus(status(301)).message(),
        "GitHub API request failed with status: 301 Moved Permanently"
    );
    assert_eq!(
        FetchError::UnexpectedStatus(status(599)).message(),
        "GitHub API request failed with status: 599 <unknown status code>"
    );
}

#[test]
fn message_of_outside_failures_is_passed_on() {
    assert_eq!(
        FetchError::MalformedResponse(String::from("expected value at line 1 column 1")).message(),
        "expected value at line 1 column 1"
    );
    assert_eq!(
        FetchError::Transport(String::from("error sending request")).message(),
        "error sending request"
    );
}

#[test]
fn decoded_body_is_the_result() {
    let events: Vec<GitHubEvent> = Vec::new();
    match body_outcome(Ok(events)) {
        Ok(events) => assert!(events.is_empty()),
        Err(error) => panic!("unexpected failure: {:?}", error),
    }
}

#[test]
fn undecodable_body_is_malformed_response() {
    match body_outcome(Err(String::from("missing field `type`"))) {
        Ok(_) => panic!("a body that did not decode gave events"),
        Err(error) => {
            assert_eq!(error, FetchError::MalformedResponse(String::from("missing field `type`")))
        }
    }
}
