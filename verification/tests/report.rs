use github_activity::event::{Actor, GitHubEvent, Repository, Timestamp};
use github_activity::fetch::{body_outcome, check_status, FetchError, HttpStatus};
use github_activity::report::{activity_report, report};

fn event(event_type: &str, repo: &str, json: &str) -> GitHubEvent {
    GitHubEvent {
        event_type: String::from(event_type),
        actor: Actor { login: String::from("octocat") },
        repo: Repository { name: String::from(repo) },
        payload: serde_json::from_str(json).unwrap(),
        created_at: Timestamp { seconds: 1_700_000_000, nanoseconds: 0 },
    }
}

#[test]
fn empty_feed_is_reported_in_one_line() {
    let lines = activity_report("octocat", &Vec::new());
    assert_eq!(lines, vec![String::from("No recent activity found for user: octocat")]);
}

#[test]
fn feed_is_reported_under_a_heading_in_order() {
    let events = vec![
        event("PushEvent", "octo/repo", r#"{"commits":[{},{}]}"#),
        event("WatchEvent", "rust-lang/rust", "{}"),
        event("IssuesEvent", "octo/repo", r#"{"action":"opened","issue":{"number":3}}"#),
        event("PushEvent", "octo/repo", r#"{"commits":[{}]}"#),
    ];
    let lines = activity_report("octocat", &events);
    assert_eq!(
        lines,
        vec![
            String::from("Recent activity for octocat:"),
            String::from(""),
            String::from("- Pushed 2 commits to octo/repo"),
            String::from("- Starred rust-lang/rust"),
            String::from("- Opened issue #3 in octo/repo"),
            String::from("- Pushed 1 commit to octo/repo"),
        ]
    );
}

#[test]
fn one_push_event_end_to_end() {
    let status = HttpStatus::new(200).unwrap();
    assert_eq!(check_status(status, "octocat"), Ok(()));
    let decoded = vec![event("PushEvent", "octo/repo", r#"{"commits":[{},{}]}"#)];
    let outcome = body_outcome(Ok(decoded));
    let run = report("octocat", &outcome);
    assert!(run.output.contains(&String::from("- Pushed 2 commits to octo/repo")));
    assert_eq!(run.output.len(), 3);
    assert!(run.errors.is_empty());
    assert_eq!(run.exit_code, 0);
}

#[test]
fn empty_array_end_to_end() {
    let status = HttpStatus::new(200).unwrap();
    assert_eq!(check_status(status, "octocat"), Ok(()));
    let outcome = body_outcome(Ok(Vec::new()));
    match &outcome {
        Ok(events) => assert!(events.is_empty()),
        Err(error) => panic!("unexpected failure: {:?}", error),
    }
    let run = report("octocat", &outcome);
    assert_eq!(run.output, vec![String::from("No recent activity found for user: octocat")]);
    assert!(run.errors.is_empty());
    assert_eq!(run.exit_code, 0);
}

#[test]
fn failure_goes_to_the_error_stream_and_ends_with_one() {
    let status = HttpStatus::new(404).unwrap();
    let outcome = match check_status(status, "nonexistent-user-xyz") {
        Ok(()) => panic!("404 let the fetch go on"),
        Err(error) => Err(error),
    };
    let run = report("nonexistent-user-xyz", &outcome);
    assert!(run.output.is_empty());
    assert_eq!(run.errors, vec![String::from("Error: User 'nonexistent-user-xyz' not found")]);
    assert_eq!(run.exit_code, 1);
}

#[test]
fn each_failure_is_reported_by_its_message() {
    let run = report("octocat", &Err(FetchError::RateLimited));
    assert_eq!(
        run.errors,
        vec![String::from("Error: API rate limit exceeded. Please try again later.")]
    );
    assert_eq!(run.exit_code, 1);

    let status = HttpStatus::new(503).unwrap();
    let run = report("octocat", &Err(FetchError::UnexpectedStatus(status)));
    assert_eq!(
        run.errors,
        vec![String::from("Error: GitHub API request failed with status: 503 Service Unavailable")]
    );
    assert_eq!(run.exit_code, 1);

    let run = report("octocat", &Err(FetchError::MalformedResponse(String::from("bad body"))));
    assert_eq!(run.errors, vec![String::from("Error: bad body")]);
    assert!(run.output.is_empty());
    assert_eq!(run.exit_code, 1);

    let run = report("octocat", &Err(FetchError::Transport(String::from("dns error"))));
    assert_eq!(run.errors, vec![String::from("Error: dns error")]);
    assert_eq!(run.exit_code, 1);
}
