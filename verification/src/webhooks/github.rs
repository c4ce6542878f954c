//! Events of a code hosting service: pushes, issues and pull requests.

use super::WebhookPayload;
use crate::text::{nth_segment, same_text, segment};
use vstd::prelude::*;

verus! {

/// An account of the hosting service.
#[derive(Debug, Clone)]
pub struct User {
    pub login: String,
}

/// The repository that an event belongs to.
#[derive(Debug, Clone)]
pub struct Repository {
    pub name: String,
    pub full_name: String,
    pub url: String,
    pub html_url: String,
}

/// An issue or a pull request.
#[derive(Debug, Clone)]
pub struct Issue {
    pub url: String,
    pub html_url: String,
    pub id: u64,
    pub title: String,
    pub number: i64,
    pub user: User,
    pub state: String,
}

/// One commit of a push.
#[derive(Debug, Clone)]
pub struct Commit {
    pub id: String,
    pub message: String,
    pub url: String,
}

/// An event as the hosting service sends it. A push names a reference and
/// the revisions before and after; an issue or pull request event names an
/// action and its subject.
#[derive(Debug, Clone)]
pub struct Payload {
    pub ref_on: Option<String>,
    pub before: Option<String>,
    pub after: Option<String>,
    pub commits: Option<Vec<Commit>>,
    pub head_commit: Option<Commit>,
    pub action: Option<String>,
    pub repository: Repository,
    pub sender: User,
    pub issue: Option<Issue>,
    pub pull_request: Option<Issue>,
}

/// The revision that stands for "no commit": forty zeros.
pub open spec fn zero_revision() -> Seq<char> {
    "0000000000000000000000000000000000000000"@
}

/// An issue or pull request after the word that introduces it: the title in
/// quotes, then its address on a line of its own.
pub open spec fn subject_text(intro: Seq<char>, subject: Option<Issue>) -> Seq<char> {
    match subject {
        Some(i) => intro + i.title@ + "'\n"@ + i.html_url@,
        None => Seq::empty(),
    }
}

/// The action of an event with its subjects; nothing where the event names
/// no action.
pub open spec fn action_text(
    action: Option<String>,
    issue: Option<Issue>,
    pull_request: Option<Issue>,
) -> Seq<char> {
    match action {
        Some(a) => " "@ + a@ + subject_text(" issue '"@, issue) + subject_text(
            " pull request '"@,
            pull_request,
        ),
        None => Seq::empty(),
    }
}

/// The branch of a reference such as `refs/heads/main`: its third piece.
pub open spec fn branch_text(ref_on: Seq<char>) -> Seq<char> {
    match segment(ref_on, '/', 2) {
        Some(b) => "branch "@ + b,
        None => Seq::empty(),
    }
}

/// What a push did to its reference: deleted it where the revision after
/// is the zero revision, created it where the revision before is, and else
/// committed the head commit, if there is one.
pub open spec fn change_text(
    before: Option<String>,
    after: Option<String>,
    head_commit: Option<Commit>,
) -> Seq<char> {
    if after matches Some(a) && a@ == zero_revision() {
        " deleted "@
    } else if before matches Some(b) && b@ == zero_revision() {
        " created "@
    } else {
        match head_commit {
            Some(c) => " commited "@ + "'"@ + c.message@ + "'"@ + " to "@,
            None => Seq::empty(),
        }
    }
}

/// The part of the message on a push; nothing where the event names no
/// reference.
pub open spec fn push_text(
    ref_on: Option<String>,
    before: Option<String>,
    after: Option<String>,
    head_commit: Option<Commit>,
) -> Seq<char> {
    match ref_on {
        Some(r) => change_text(before, after, head_commit) + branch_text(r@),
        None => Seq::empty(),
    }
}

fn is_zero_revision(revision: &Option<String>) -> (r: bool)
    ensures
        r == (revision matches Some(a) && a@ == zero_revision()),
{
    match revision {
        Some(a) => same_text(a.as_str(), "0000000000000000000000000000000000000000"),
        None => false,
    }
}

fn push_subject(message: &mut String, intro: &str, subject: &Option<Issue>)
    ensures
        final(message)@ == old(message)@ + subject_text(intro@, *subject),
{
    match subject {
        Some(i) => {
            message.append(intro);
            message.append(i.title.as_str());
            message.append("'\n");
            message.append(i.html_url.as_str());
            assert(message@ =~= old(message)@ + (intro@ + i.title@ + "'\n"@ + i.html_url@));
        },
        None => {
            assert(message@ =~= old(message)@ + Seq::<char>::empty());
        },
    }
}

fn push_action(message: &mut String, payload: &Payload)
    ensures
        final(message)@ == old(message)@ + action_text(
            payload.action,
            payload.issue,
            payload.pull_request,
        ),
{
    match &payload.action {
        Some(a) => {
            message.append(" ");
            message.append(a.as_str());
            push_subject(message, " issue '", &payload.issue);
            push_subject(message, " pull request '", &payload.pull_request);
            assert(message@ =~= old(message)@ + (" "@ + a@ + subject_text(
                " issue '"@,
                payload.issue,
            ) + subject_text(" pull request '"@, payload.pull_request)));
        },
        None => {
            assert(message@ =~= old(message)@ + Seq::<char>::empty());
        },
    }
}

fn push_change(message: &mut String, payload: &Payload)
    ensures
        final(message)@ == old(message)@ + change_text(
            payload.before,
            payload.after,
            payload.head_commit,
        ),
{
    if is_zero_revision(&payload.after) {
        message.append(" deleted ");
    } else if is_zero_revision(&payload.before) {
        message.append(" created ");
    } else {
        match &payload.head_commit {
            Some(c) => {
                message.append(" commited ");
                message.append("'");
                message.append(c.message.as_str());
                message.append("'");
                message.append(" to ");
                assert(message@ =~= old(message)@ + (" commited "@ + "'"@ + c.message@ + "'"@
                    + " to "@));
            },
            None => {
                assert(message@ =~= old(message)@ + Seq::<char>::empty());
            },
        }
    }
}

fn push_branch(message: &mut String, ref_on: &str)
    ensures
        final(message)@ == old(message)@ + branch_text(ref_on@),
{
    match nth_segment(ref_on, '/', 2) {
        Some(b) => {
            message.append("branch ");
            message.append(b);
            assert(message@ =~= old(message)@ + ("branch "@ + b@));
        },
        None => {
            assert(message@ =~= old(message)@ + Seq::<char>::empty());
        },
    }
}

impl WebhookPayload for Payload {
    /// The service's name and the sender, then what was done: the action
    /// with its issue or pull request, and what a push did to which branch.
    open spec fn message(&self) -> Seq<char> {
        "[GitHub]: "@ + self.sender.login@ + action_text(
            self.action,
            self.issue,
            self.pull_request,
        ) + push_text(self.ref_on, self.before, self.after, self.head_commit)
    }

    fn to_string(&self) -> (s: String) {
        let mut message = String::new();
        message.append("[GitHub]: ");
        message.append(self.sender.login.as_str());
        push_action(&mut message, self);
        let ghost head = message@;
        match &self.ref_on {
            Some(r) => {
                push_change(&mut message, self);
                push_branch(&mut message, r.as_str());
                assert(message@ =~= head + (change_text(self.before, self.after, self.head_commit)
                    + branch_text(r@)));
            },
            None => {
                assert(message@ =~= head + Seq::<char>::empty());
            },
        }
        assert(head =~= "[GitHub]: "@ + self.sender.login@ + action_text(
            self.action,
            self.issue,
            self.pull_request,
        ));
        message
    }
}

} // verus!
