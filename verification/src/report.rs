//! What a run prints and how it ends, worked out from what the fetch gave.
//! Printing the lines and leaving with the exit code are the caller's part.

use crate::event::GitHubEvent;
use crate::fetch::{message_text, FetchError};
use crate::format::{activity_text, format_activity};
use crate::json::json_of;
use vstd::prelude::*;

verus! {

/// The activity line of an event.
pub open spec fn event_line(event: GitHubEvent) -> Seq<char> {
    activity_text(event.event_type@, event.repo.name@, json_of(event.payload))
}

/// The lines that report the events of `username`: a single line where
/// there are none; else a heading, an empty line, and one line for each
/// event, in the order of the feed, after a dash and a space.
pub open spec fn activity_lines(username: Seq<char>, events: Seq<GitHubEvent>) -> Seq<Seq<char>> {
    if events.len() == 0 {
        seq!["No recent activity found for user: "@ + username]
    } else {
        seq!["Recent activity for "@ + username + ":"@, ""@] + Seq::new(
            events.len(),
            |i: int| "- "@ + event_line(events[i]),
        )
    }
}

/// The line that reports a failure.
pub open spec fn failure_line(message: Seq<char>) -> Seq<char> {
    "Error: "@ + message
}

/// Writes the lines that report the events of `username`.
pub fn activity_report(username: &str, events: &Vec<GitHubEvent>) -> (lines: Vec<String>)
    ensures
        lines.deep_view() == activity_lines(username@, events@),
{
    let mut lines: Vec<String> = Vec::new();
    if events.len() == 0 {
        let mut line = String::from_str("No recent activity found for user: ");
        line.append(username);
        lines.push(line);
        assert(lines.deep_view() =~= activity_lines(username@, events@));
        return lines;
    }
    let mut heading = String::from_str("Recent activity for ");
    heading.append(username);
    heading.append(":");
    lines.push(heading);
    lines.push(String::from_str(""));
    let ghost head = seq!["Recent activity for "@ + username@ + ":"@, ""@];
    assert(lines.deep_view() =~= head);
    let mut i: usize = 0;
    while i < events.len()
        invariant
            i <= events.len(),
            lines.deep_view() == head + Seq::new(i as nat, |k: int| "- "@ + event_line(events@[k])),
        decreases events.len() - i,
    {
        let mut line = String::from_str("- ");
        let text = format_activity(&events[i]);
        line.append(text.as_str());
        let ghost before = lines.deep_view();
        lines.push(line);
        assert(lines.deep_view() =~= before.push(line@));
        assert(before.push(line@) =~= head + Seq::new(
            (i + 1) as nat,
            |k: int| "- "@ + event_line(events@[k]),
        ));
        i += 1;
    }
    lines
}

/// What a run prints and how it ends.
#[derive(Debug)]
pub struct Report {
    /// The lines for standard output, in order.
    pub output: Vec<String>,
    /// The lines for the error stream, in order.
    pub errors: Vec<String>,
    /// The exit code of the process: 0 after a report, 1 after a failure.
    pub exit_code: i32,
}

/// Turns the outcome of a fetch for `username` into the report of the run.
/// A fetch that succeeded is reported on standard output and ends with 0,
/// also where it found no events. A failure is reported on the error
/// stream alone and ends with 1.
pub fn report(username: &str, outcome: &Result<Vec<GitHubEvent>, FetchError>) -> (run: Report)
    ensures
        match outcome {
            Ok(events) => {
                &&& run.output.deep_view() == activity_lines(username@, events@)
                &&& run.errors@.len() == 0
                &&& run.exit_code == 0
            },
            Err(e) => {
                &&& run.output@.len() == 0
                &&& run.errors.deep_view() == seq![failure_line(message_text(e@))]
                &&& run.exit_code == 1
            },
        },
{
    match outcome {
        Ok(events) => Report {
            output: activity_report(username, events),
            errors: Vec::new(),
            exit_code: 0,
        },
        Err(e) => {
            let mut line = String::from_str("Error: ");
            let message = e.message();
            line.append(message.as_str());
            let mut errors: Vec<String> = Vec::new();
            errors.push(line);
            assert(errors.deep_view() =~= seq![failure_line(message_text(e@))]);
            Report { output: Vec::new(), errors, exit_code: 1 }
        },
    }
}

} // verus!
