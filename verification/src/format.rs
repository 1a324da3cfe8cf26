//! The activity line of an event: one rule for each kind of event, and a
//! fallback for every other kind.

use crate::event::GitHubEvent;
use crate::json::{count_at, count_view, json_of, number_at, number_in, text_at, text_in, text_view, Json};
use crate::text::{capitalize_first_letter, capitalized, decimal, decimal_string, same_text};
use vstd::prelude::*;

verus! {

/// The text that was found, or the fallback where none was.
pub open spec fn text_or(found: Option<Seq<char>>, fallback: Seq<char>) -> Seq<char> {
    match found {
        Some(t) => t,
        None => fallback,
    }
}

/// The number that was found, or zero where none was.
pub open spec fn number_or_zero(found: Option<u64>) -> nat {
    match found {
        Some(n) => n as nat,
        None => 0,
    }
}

/// The count that was found, or zero where none was.
pub open spec fn count_or_zero(found: Option<nat>) -> nat {
    match found {
        Some(n) => n,
        None => 0,
    }
}

/// A push: the number of commits, with "commit" in the singular for
/// exactly one.
pub open spec fn push_text(commits: Option<nat>, repo: Seq<char>) -> Seq<char> {
    let n = count_or_zero(commits);
    "Pushed "@ + decimal(n) + " commit"@ + (if n == 1 {
        ""@
    } else {
        "s"@
    }) + " to "@ + repo
}

/// A creation: of the repository itself, of a branch or tag with its name,
/// or of anything else by the name of its type alone.
pub open spec fn create_text(
    ref_type: Option<Seq<char>>,
    ref_name: Option<Seq<char>>,
    repo: Seq<char>,
) -> Seq<char> {
    let what = text_or(ref_type, "repository"@);
    let name = text_or(ref_name, "unknown"@);
    if what == "repository"@ {
        "Created repository "@ + repo
    } else if what == "branch"@ {
        "Created branch '"@ + name + "' in "@ + repo
    } else if what == "tag"@ {
        "Created tag '"@ + name + "' in "@ + repo
    } else {
        "Created "@ + what + " in "@ + repo
    }
}

/// A deletion of a branch or tag.
pub open spec fn delete_text(
    ref_type: Option<Seq<char>>,
    ref_name: Option<Seq<char>>,
    repo: Seq<char>,
) -> Seq<char> {
    "Deleted "@ + text_or(ref_type, "branch"@) + " '"@ + text_or(ref_name, "unknown"@) + "' in "@
        + repo
}

/// Something done to an issue.
pub open spec fn issues_text(action: Option<Seq<char>>, number: Option<u64>, repo: Seq<char>) -> Seq<
    char,
> {
    capitalized(text_or(action, "updated"@)) + " issue #"@ + decimal(number_or_zero(number))
        + " in "@ + repo
}

/// Something done to a pull request.
pub open spec fn pull_request_text(
    action: Option<Seq<char>>,
    number: Option<u64>,
    repo: Seq<char>,
) -> Seq<char> {
    capitalized(text_or(action, "updated"@)) + " pull request #"@ + decimal(number_or_zero(number))
        + " in "@ + repo
}

/// A star.
pub open spec fn watch_text(repo: Seq<char>) -> Seq<char> {
    "Starred "@ + repo
}

/// A fork.
pub open spec fn fork_text(repo: Seq<char>) -> Seq<char> {
    "Forked "@ + repo
}

/// Something done to a release, named by its tag.
pub open spec fn release_text(
    action: Option<Seq<char>>,
    tag: Option<Seq<char>>,
    repo: Seq<char>,
) -> Seq<char> {
    capitalized(text_or(action, "published"@)) + " release "@ + text_or(tag, "unknown"@) + " in "@
        + repo
}

/// A repository made public.
pub open spec fn public_text(repo: Seq<char>) -> Seq<char> {
    "Made "@ + repo + " public"@
}

/// A change of collaborators.
pub open spec fn member_text(action: Option<Seq<char>>, repo: Seq<char>) -> Seq<char> {
    capitalized(text_or(action, "added"@)) + " as collaborator to "@ + repo
}

/// Something done to a comment on an issue.
pub open spec fn issue_comment_text(
    action: Option<Seq<char>>,
    number: Option<u64>,
    repo: Seq<char>,
) -> Seq<char> {
    capitalized(text_or(action, "created"@)) + " comment on issue #"@ + decimal(
        number_or_zero(number),
    ) + " in "@ + repo
}

/// Something done to a review of a pull request.
pub open spec fn review_text(action: Option<Seq<char>>, number: Option<u64>, repo: Seq<char>) -> Seq<
    char,
> {
    capitalized(text_or(action, "submitted"@)) + " review on pull request #"@ + decimal(
        number_or_zero(number),
    ) + " in "@ + repo
}

/// An event of a kind that has no rule of its own.
pub open spec fn other_text(event_type: Seq<char>, repo: Seq<char>) -> Seq<char> {
    "Performed "@ + event_type + " in "@ + repo
}

/// The text that was found, or the fallback where none was.
fn choose_text<'a>(found: Option<&'a str>, fallback: &'a str) -> (text: &'a str)
    ensures
        text@ == text_or(text_view(found), fallback@),
{
    match found {
        Some(t) => t,
        None => fallback,
    }
}

/// The number that was found, or zero where none was.
fn choose_number(found: Option<u64>) -> (number: u64)
    ensures
        number as nat == number_or_zero(found),
{
    match found {
        Some(n) => n,
        None => 0,
    }
}

/// Describes a push of `commits` commits, none where the count is missing.
pub fn describe_push(commits: Option<usize>, repo: &str) -> (line: String)
    ensures
        line@ == push_text(count_view(commits), repo@),
{
    let n: usize = match commits {
        Some(n) => n,
        None => 0,
    };
    let mut line = String::from_str("Pushed ");
    let numeral = decimal_string(n as u64);
    line.append(numeral.as_str());
    line.append(" commit");
    line.append(if n == 1 {
        ""
    } else {
        "s"
    });
    line.append(" to ");
    line.append(repo);
    line
}

/// Describes the creation of a repository, branch, tag or other reference.
/// A missing type counts as `repository`, a missing name as `unknown`.
pub fn describe_create(ref_type: Option<&str>, ref_name: Option<&str>, repo: &str) -> (line: String)
    ensures
        line@ == create_text(text_view(ref_type), text_view(ref_name), repo@),
{
    let what = choose_text(ref_type, "repository");
    let name = choose_text(ref_name, "unknown");
    if same_text(what, "repository") {
        let mut line = String::from_str("Created repository ");
        line.append(repo);
        line
    } else if same_text(what, "branch") {
        let mut line = String::from_str("Created branch '");
        line.append(name);
        line.append("' in ");
        line.append(repo);
        line
    } else if same_text(what, "tag") {
        let mut line = String::from_str("Created tag '");
        line.append(name);
        line.append("' in ");
        line.append(repo);
        line
    } else {
        let mut line = String::from_str("Created ");
        line.append(what);
        line.append(" in ");
        line.append(repo);
        line
    }
}

/// Describes the deletion of a reference. A missing type counts as
/// `branch`, a missing name as `unknown`.
pub fn describe_delete(ref_type: Option<&str>, ref_name: Option<&str>, repo: &str) -> (line: String)
    ensures
        line@ == delete_text(text_view(ref_type), text_view(ref_name), repo@),
{
    let mut line = String::from_str("Deleted ");
    line.append(choose_text(ref_type, "branch"));
    line.append(" '");
    line.append(choose_text(ref_name, "unknown"));
    line.append("' in ");
    line.append(repo);
    line
}

/// The capitalised action, the words that name the subject, its number and
/// the repository.
fn describe_numbered(action: &str, subject: &str, number: u64, repo: &str) -> (line: String)
    ensures
        line@ == capitalized(action@) + subject@ + decimal(number as nat) + " in "@ + repo@,
{
    let mut line = capitalize_first_letter(action);
    line.append(subject);
    let numeral = decimal_string(number);
    line.append(numeral.as_str());
    line.append(" in ");
    line.append(repo);
    line
}

/// Describes an action on an issue. A missing action counts as `updated`,
/// a missing number as zero.
pub fn describe_issues(action: Option<&str>, number: Option<u64>, repo: &str) -> (line: String)
    ensures
        line@ == issues_text(text_view(action), number, repo@),
{
    describe_numbered(choose_text(action, "updated"), " issue #", choose_number(number), repo)
}

/// Describes an action on a pull request. A missing action counts as
/// `updated`, a missing number as zero.
pub fn describe_pull_request(action: Option<&str>, number: Option<u64>, repo: &str) -> (line:
    String)
    ensures
        line@ == pull_request_text(text_view(action), number, repo@),
{
    describe_numbered(choose_text(action, "updated"), " pull request #", choose_number(number), repo)
}

/// Describes a star.
pub fn describe_watch(repo: &str) -> (line: String)
    ensures
        line@ == watch_text(repo@),
{
    let mut line = String::from_str("Starred ");
    line.append(repo);
    line
}

/// Describes a fork.
pub fn describe_fork(repo: &str) -> (line: String)
    ensures
        line@ == fork_text(repo@),
{
    let mut line = String::from_str("Forked ");
    line.append(repo);
    line
}

/// Describes an action on a release. A missing action counts as
/// `published`, a missing tag as `unknown`.
pub fn describe_release(action: Option<&str>, tag: Option<&str>, repo: &str) -> (line: String)
    ensures
        line@ == release_text(text_view(action), text_view(tag), repo@),
{
    let mut line = capitalize_first_letter(choose_text(action, "published"));
    line.append(" release ");
    line.append(choose_text(tag, "unknown"));
    line.append(" in ");
    line.append(repo);
    line
}

/// Describes a repository being made public.
pub fn describe_public(repo: &str) -> (line: String)
    ensures
        line@ == public_text(repo@),
{
    let mut line = String::from_str("Made ");
    line.append(repo);
    line.append(" public");
    line
}

/// Describes a change of collaborators. A missing action counts as `added`.
pub fn describe_member(action: Option<&str>, repo: &str) -> (line: String)
    ensures
        line@ == member_text(text_view(action), repo@),
{
    let mut line = capitalize_first_letter(choose_text(action, "added"));
    line.append(" as collaborator to ");
    line.append(repo);
    line
}

/// Describes an action on an issue comment. A missing action counts as
/// `created`, a missing number as zero.
pub fn describe_issue_comment(action: Option<&str>, number: Option<u64>, repo: &str) -> (line:
    String)
    ensures
        line@ == issue_comment_text(text_view(action), number, repo@),
{
    describe_numbered(
        choose_text(action, "created"),
        " comment on issue #",
        choose_number(number),
        repo,
    )
}

/// Describes an action on a pull request review. A missing action counts
/// as `submitted`, a missing number as zero.
pub fn describe_review(action: Option<&str>, number: Option<u64>, repo: &str) -> (line: String)
    ensures
        line@ == review_text(text_view(action), number, repo@),
{
    describe_numbered(
        choose_text(action, "submitted"),
        " review on pull request #",
        choose_number(number),
        repo,
    )
}

/// Describes an event of a kind that has no rule of its own.
pub fn describe_other(event_type: &str, repo: &str) -> (line: String)
    ensures
        line@ == other_text(event_type@, repo@),
{
    let mut line = String::from_str("Performed ");
    line.append(event_type);
    line.append(" in ");
    line.append(repo);
    line
}

/// Whether `event_type` is one of the kinds that have a rule of their own.
pub open spec fn has_own_rule(event_type: Seq<char>) -> bool {
    ||| event_type == "PushEvent"@
    ||| event_type == "CreateEvent"@
    ||| event_type == "DeleteEvent"@
    ||| event_type == "IssuesEvent"@
    ||| event_type == "PullRequestEvent"@
    ||| event_type == "WatchEvent"@
    ||| event_type == "ForkEvent"@
    ||| event_type == "ReleaseEvent"@
    ||| event_type == "PublicEvent"@
    ||| event_type == "MemberEvent"@
    ||| event_type == "IssueCommentEvent"@
    ||| event_type == "PullRequestReviewEvent"@
}

/// The activity line of an event of kind `event_type` in the repository
/// `repo`, with the payload `payload`.
pub open spec fn activity_text(event_type: Seq<char>, repo: Seq<char>, payload: Json) -> Seq<char> {
    if event_type == "PushEvent"@ {
        push_text(payload.count_at("commits"@), repo)
    } else if event_type == "CreateEvent"@ {
        create_text(payload.text_at("ref_type"@), payload.text_at("ref"@), repo)
    } else if event_type == "DeleteEvent"@ {
        delete_text(payload.text_at("ref_type"@), payload.text_at("ref"@), repo)
    } else if event_type == "IssuesEvent"@ {
        issues_text(payload.text_at("action"@), payload.number_in("issue"@, "number"@), repo)
    } else if event_type == "PullRequestEvent"@ {
        pull_request_text(payload.text_at("action"@), payload.number_at("number"@), repo)
    } else if event_type == "WatchEvent"@ {
        watch_text(repo)
    } else if event_type == "ForkEvent"@ {
        fork_text(repo)
    } else if event_type == "ReleaseEvent"@ {
        release_text(payload.text_at("action"@), payload.text_in("release"@, "tag_name"@), repo)
    } else if event_type == "PublicEvent"@ {
        public_text(repo)
    } else if event_type == "MemberEvent"@ {
        member_text(payload.text_at("action"@), repo)
    } else if event_type == "IssueCommentEvent"@ {
        issue_comment_text(
            payload.text_at("action"@),
            payload.number_in("issue"@, "number"@),
            repo,
        )
    } else if event_type == "PullRequestReviewEvent"@ {
        review_text(payload.text_at("action"@), payload.number_in("pull_request"@, "number"@), repo)
    } else {
        other_text(event_type, repo)
    }
}

/// Renders one event as a line of the activity log. Every event has a
/// line: fields that are missing from the payload, or hold a value of
/// another type than expected, are replaced by their defaults.
pub fn format_activity(event: &GitHubEvent) -> (line: String)
    ensures
        line@ == activity_text(event.event_type@, event.repo.name@, json_of(event.payload)),
{
    let kind = event.event_type.as_str();
    let repo = event.repo.name.as_str();
    let payload = &event.payload;
    if same_text(kind, "PushEvent") {
        describe_push(count_at(payload, "commits"), repo)
    } else if same_text(kind, "CreateEvent") {
        describe_create(text_at(payload, "ref_type"), text_at(payload, "ref"), repo)
    } else if same_text(kind, "DeleteEvent") {
        describe_delete(text_at(payload, "ref_type"), text_at(payload, "ref"), repo)
    } else if same_text(kind, "IssuesEvent") {
        describe_issues(text_at(payload, "action"), number_in(payload, "issue", "number"), repo)
    } else if same_text(kind, "PullRequestEvent") {
        describe_pull_request(text_at(payload, "action"), number_at(payload, "number"), repo)
    } else if same_text(kind, "WatchEvent") {
        describe_watch(repo)
    } else if same_text(kind, "ForkEvent") {
        describe_fork(repo)
    } else if same_text(kind, "ReleaseEvent") {
        describe_release(text_at(payload, "action"), text_in(payload, "release", "tag_name"), repo)
    } else if same_text(kind, "PublicEvent") {
        describe_public(repo)
    } else if same_text(kind, "MemberEvent") {
        describe_member(text_at(payload, "action"), repo)
    } else if same_text(kind, "IssueCommentEvent") {
        describe_issue_comment(
            text_at(payload, "action"),
            number_in(payload, "issue", "number"),
            repo,
        )
    } else if same_text(kind, "PullRequestReviewEvent") {
        describe_review(
            text_at(payload, "action"),
            number_in(payload, "pull_request", "number"),
            repo,
        )
    } else {
        describe_other(kind, repo)
    }
}

} // verus!
