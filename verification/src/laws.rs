//! What holds of the activity line of every event, proved from the rules.

use crate::event::GitHubEvent;
use crate::format::{activity_text, has_own_rule};
use crate::json::Json;
use crate::report::{activity_lines, event_line};
use crate::text::{capitalized, decimal};
use vstd::prelude::*;

verus! {

/// How long the name of each kind with a rule is and, where two names
/// are equally long, a character that tells them apart: no name falls
/// under two rules.
proof fn lemma_kind_names_differ()
    ensures
        "PushEvent"@.len() == 9 && "PushEvent"@[1] == 'u',
        "ForkEvent"@.len() == 9 && "ForkEvent"@[1] == 'o',
        "WatchEvent"@.len() == 10,
        "CreateEvent"@.len() == 11 && "CreateEvent"@[0] == 'C',
        "DeleteEvent"@.len() == 11 && "DeleteEvent"@[0] == 'D',
        "IssuesEvent"@.len() == 11 && "IssuesEvent"@[0] == 'I',
        "PublicEvent"@.len() == 11 && "PublicEvent"@[0] == 'P',
        "MemberEvent"@.len() == 11 && "MemberEvent"@[0] == 'M',
        "ReleaseEvent"@.len() == 12,
        "PullRequestEvent"@.len() == 16,
        "IssueCommentEvent"@.len() == 17,
        "PullRequestReviewEvent"@.len() == 22,
{
    reveal_strlit("PushEvent");
    reveal_strlit("ForkEvent");
    reveal_strlit("WatchEvent");
    reveal_strlit("CreateEvent");
    reveal_strlit("DeleteEvent");
    reveal_strlit("IssuesEvent");
    reveal_strlit("PublicEvent");
    reveal_strlit("MemberEvent");
    reveal_strlit("ReleaseEvent");
    reveal_strlit("PullRequestEvent");
    reveal_strlit("IssueCommentEvent");
    reveal_strlit("PullRequestReviewEvent");
}

/// A push event whose payload lists its commits is reported with their
/// number, and with "commit" in the singular for exactly one of them.
pub proof fn lemma_push_counts_commits(repo: Seq<char>, payload: Json, commits: Seq<Json>)
    requires
        payload.member("commits"@) == Some(Json::Array(commits)),
    ensures
        activity_text("PushEvent"@, repo, payload) == "Pushed "@ + decimal(commits.len()) + (
        if commits.len() == 1 {
            " commit to "@
        } else {
            " commits to "@
        }) + repo,
{
    reveal_strlit(" commit");
    reveal_strlit("");
    reveal_strlit("s");
    reveal_strlit(" to ");
    reveal_strlit(" commit to ");
    reveal_strlit(" commits to ");
    let n = commits.len();
    let head = "Pushed "@ + decimal(n);
    assert(head + " commit"@ + ""@ + " to "@ =~= head + " commit to "@);
    assert(head + " commit"@ + "s"@ + " to "@ =~= head + " commits to "@);
}

/// An event of a kind without a rule of its own is reported by the name
/// of its kind, as it was received, and the repository.
pub proof fn lemma_kind_without_rule(event_type: Seq<char>, repo: Seq<char>, payload: Json)
    requires
        !has_own_rule(event_type),
    ensures
        activity_text(event_type, repo, payload) == "Performed "@ + event_type + " in "@ + repo,
{
}

/// A create event that names the type and the name of what was created is
/// reported by the repository alone for a repository, with the name for a
/// branch or a tag, and by the type alone for anything else.
pub proof fn lemma_create_names_reference(
    repo: Seq<char>,
    payload: Json,
    ref_type: Seq<char>,
    ref_name: Seq<char>,
)
    requires
        payload.member("ref_type"@) == Some(Json::Text(ref_type)),
        payload.member("ref"@) == Some(Json::Text(ref_name)),
    ensures
        activity_text("CreateEvent"@, repo, payload) == if ref_type == "repository"@ {
            "Created repository "@ + repo
        } else if ref_type == "branch"@ {
            "Created branch '"@ + ref_name + "' in "@ + repo
        } else if ref_type == "tag"@ {
            "Created tag '"@ + ref_name + "' in "@ + repo
        } else {
            "Created "@ + ref_type + " in "@ + repo
        },
{
    lemma_kind_names_differ();
}

/// A delete event that names the type and the name of what was deleted is
/// reported with both.
pub proof fn lemma_delete_names_reference(
    repo: Seq<char>,
    payload: Json,
    ref_type: Seq<char>,
    ref_name: Seq<char>,
)
    requires
        payload.member("ref_type"@) == Some(Json::Text(ref_type)),
        payload.member("ref"@) == Some(Json::Text(ref_name)),
    ensures
        activity_text("DeleteEvent"@, repo, payload) == "Deleted "@ + ref_type + " '"@ + ref_name
            + "' in "@ + repo,
{
    lemma_kind_names_differ();
}

/// An issues event that gives its action and the number of its issue is
/// reported with the capitalised action and the number.
pub proof fn lemma_issues_names_action_and_number(
    repo: Seq<char>,
    payload: Json,
    action: Seq<char>,
    issue: Json,
    number: u64,
)
    requires
        payload.member("action"@) == Some(Json::Text(action)),
        payload.member("issue"@) == Some(issue),
        issue.member("number"@) == Some(Json::Number { unsigned: Some(number) }),
    ensures
        activity_text("IssuesEvent"@, repo, payload) == capitalized(action) + " issue #"@ + decimal(
            number as nat,
        ) + " in "@ + repo,
{
    lemma_kind_names_differ();
}

/// A pull request event that gives its action and its number is reported
/// with the capitalised action and the number.
pub proof fn lemma_pull_request_names_action_and_number(
    repo: Seq<char>,
    payload: Json,
    action: Seq<char>,
    number: u64,
)
    requires
        payload.member("action"@) == Some(Json::Text(action)),
        payload.member("number"@) == Some(Json::Number { unsigned: Some(number) }),
    ensures
        activity_text("PullRequestEvent"@, repo, payload) == capitalized(action)
            + " pull request #"@ + decimal(number as nat) + " in "@ + repo,
{
    lemma_kind_names_differ();
}

/// A release event that gives its action and the tag of its release is
/// reported with the capitalised action and the tag.
pub proof fn lemma_release_names_action_and_tag(
    repo: Seq<char>,
    payload: Json,
    action: Seq<char>,
    release: Json,
    tag: Seq<char>,
)
    requires
        payload.member("action"@) == Some(Json::Text(action)),
        payload.member("release"@) == Some(release),
        release.member("tag_name"@) == Some(Json::Text(tag)),
    ensures
        activity_text("ReleaseEvent"@, repo, payload) == capitalized(action) + " release "@ + tag
            + " in "@ + repo,
{
    lemma_kind_names_differ();
}

/// A member event that gives its action is reported with the capitalised
/// action.
pub proof fn lemma_member_names_action(repo: Seq<char>, payload: Json, action: Seq<char>)
    requires
        payload.member("action"@) == Some(Json::Text(action)),
    ensures
        activity_text("MemberEvent"@, repo, payload) == capitalized(action)
            + " as collaborator to "@ + repo,
{
    lemma_kind_names_differ();
}

/// An issue comment event that gives its action and the number of its
/// issue is reported with the capitalised action and the number.
pub proof fn lemma_issue_comment_names_action_and_number(
    repo: Seq<char>,
    payload: Json,
    action: Seq<char>,
    issue: Json,
    number: u64,
)
    requires
        payload.member("action"@) == Some(Json::Text(action)),
        payload.member("issue"@) == Some(issue),
        issue.member("number"@) == Some(Json::Number { unsigned: Some(number) }),
    ensures
        activity_text("IssueCommentEvent"@, repo, payload) == capitalized(action)
            + " comment on issue #"@ + decimal(number as nat) + " in "@ + repo,
{
    lemma_kind_names_differ();
}

/// A pull request review event that gives its action and the number of
/// its pull request is reported with the capitalised action and the
/// number.
pub proof fn lemma_review_names_action_and_number(
    repo: Seq<char>,
    payload: Json,
    action: Seq<char>,
    pull_request: Json,
    number: u64,
)
    requires
        payload.member("action"@) == Some(Json::Text(action)),
        payload.member("pull_request"@) == Some(pull_request),
        pull_request.member("number"@) == Some(Json::Number { unsigned: Some(number) }),
    ensures
        activity_text("PullRequestReviewEvent"@, repo, payload) == capitalized(action)
            + " review on pull request #"@ + decimal(number as nat) + " in "@ + repo,
{
    lemma_kind_names_differ();
}

/// Stars, forks and repositories made public are reported by the
/// repository alone, whatever the payload holds.
pub proof fn lemma_kinds_without_fields(repo: Seq<char>, payload: Json)
    ensures
        activity_text("WatchEvent"@, repo, payload) == "Starred "@ + repo,
        activity_text("ForkEvent"@, repo, payload) == "Forked "@ + repo,
        activity_text("PublicEvent"@, repo, payload) == "Made "@ + repo + " public"@,
{
    lemma_kind_names_differ();
}

/// Where the payload lacks the fields that a rule looks for, or holds
/// values of another type in their place, the line is written with the
/// defaults: no commits, a repository, a branch, the name `unknown`, the
/// number zero, and for each kind its own default action.
pub proof fn lemma_missing_fields_take_defaults(repo: Seq<char>, payload: Json)
    ensures
        (payload.count_at("commits"@) is None)
            ==> activity_text("PushEvent"@, repo, payload)
                == "Pushed 0 commits to "@ + repo,
        (payload.text_at("ref_type"@) is None)
            ==> activity_text("CreateEvent"@, repo, payload)
                == "Created repository "@ + repo,
        (payload.text_at("ref_type"@) is None && payload.text_at("ref"@) is None)
            ==> activity_text("DeleteEvent"@, repo, payload)
                == "Deleted branch 'unknown' in "@ + repo,
        (payload.text_at("action"@) is None && payload.number_in("issue"@, "number"@) is None)
            ==> activity_text("IssuesEvent"@, repo, payload)
                == capitalized("updated"@) + " issue #0 in "@ + repo,
        (payload.text_at("action"@) is None && payload.number_at("number"@) is None)
            ==> activity_text("PullRequestEvent"@, repo, payload)
                == capitalized("updated"@) + " pull request #0 in "@ + repo,
        (payload.text_at("action"@) is None && payload.text_in("release"@, "tag_name"@) is None)
            ==> activity_text("ReleaseEvent"@, repo, payload)
                == capitalized("published"@) + " release unknown in "@ + repo,
        (payload.text_at("action"@) is None)
            ==> activity_text("MemberEvent"@, repo, payload)
                == capitalized("added"@) + " as collaborator to "@ + repo,
        (payload.text_at("action"@) is None && payload.number_in("issue"@, "number"@) is None)
            ==> activity_text("IssueCommentEvent"@, repo, payload)
                == capitalized("created"@) + " comment on issue #0 in "@ + repo,
        (payload.text_at("action"@) is None
            && payload.number_in("pull_request"@, "number"@) is None)
            ==> activity_text("PullRequestReviewEvent"@, repo, payload)
                == capitalized("submitted"@) + " review on pull request #0 in "@ + repo,
{
    lemma_kind_names_differ();
    lemma_default_texts();
    assert(decimal(0) =~= seq!['0']);
    lemma_joined_after(capitalized("updated"@), " issue #"@, seq!['0'], " in "@);
    lemma_joined_after(capitalized("updated"@), " pull request #"@, seq!['0'], " in "@);
    lemma_joined_after(capitalized("published"@), " release "@, "unknown"@, " in "@);
    lemma_joined_after(capitalized("created"@), " comment on issue #"@, seq!['0'], " in "@);
    lemma_joined_after(capitalized("submitted"@), " review on pull request #"@, seq!['0'], " in "@);
}

/// Three pieces written after a head, one by one, are the three pieces
/// joined and then written after it.
proof fn lemma_joined_after(head: Seq<char>, a: Seq<char>, b: Seq<char>, c: Seq<char>)
    ensures
        head + a + b + c == head + (a + b + c),
{
    assert(head + a + b + c =~= head + (a + b + c));
}

/// The characters of the pieces that the default lines are made of.
proof fn lemma_default_texts()
    ensures
        "Pushed "@ + seq!['0'] + " commit"@ + "s"@ + " to "@ =~= "Pushed 0 commits to "@,
        "Deleted "@ + "branch"@ + " '"@ + "unknown"@ + "' in "@ =~= "Deleted branch 'unknown' in "@,
        " issue #"@ + seq!['0'] + " in "@ =~= " issue #0 in "@,
        " pull request #"@ + seq!['0'] + " in "@ =~= " pull request #0 in "@,
        " release "@ + "unknown"@ + " in "@ =~= " release unknown in "@,
        " comment on issue #"@ + seq!['0'] + " in "@ =~= " comment on issue #0 in "@,
        " review on pull request #"@ + seq!['0'] + " in "@ =~= " review on pull request #0 in "@,
{
    reveal_strlit("Pushed ");
    reveal_strlit(" commit");
    reveal_strlit("s");
    reveal_strlit(" to ");
    reveal_strlit("Pushed 0 commits to ");
    reveal_strlit("Deleted ");
    reveal_strlit("branch");
    reveal_strlit(" '");
    reveal_strlit("unknown");
    reveal_strlit("' in ");
    reveal_strlit("Deleted branch 'unknown' in ");
    reveal_strlit(" in ");
    reveal_strlit(" issue #");
    reveal_strlit(" issue #0 in ");
    reveal_strlit(" pull request #");
    reveal_strlit(" pull request #0 in ");
    reveal_strlit(" release ");
    reveal_strlit(" release unknown in ");
    reveal_strlit(" comment on issue #");
    reveal_strlit(" comment on issue #0 in ");
    reveal_strlit(" review on pull request #");
    reveal_strlit(" review on pull request #0 in ");
}

/// A feed without events is reported in one line that names the user.
pub proof fn lemma_empty_feed_is_one_line(username: Seq<char>, events: Seq<GitHubEvent>)
    requires
        events.len() == 0,
    ensures
        activity_lines(username, events) == seq!["No recent activity found for user: "@ + username],
{
}

/// A feed with events is reported under a heading and an empty line, with
/// one line for each event: the events keep their order, and each line is
/// the event's activity line after a dash and a space.
pub proof fn lemma_each_event_has_its_line(username: Seq<char>, events: Seq<GitHubEvent>, i: int)
    requires
        0 <= i < events.len(),
    ensures
        activity_lines(username, events).len() == events.len() + 2,
        activity_lines(username, events)[0] == "Recent activity for "@ + username + ":"@,
        activity_lines(username, events)[1].len() == 0,
        activity_lines(username, events)[i + 2] == "- "@ + event_line(events[i]),
{
    reveal_strlit("");
}

} // verus!
