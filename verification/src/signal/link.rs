//! Linking the account to a new device: a one-shot subprocess prints a
//! join link at once, and what becomes of it decides, in the background,
//! whether the daemon has to be restarted.
//!
//! The session decides; the program around it acts and reports.

use crate::json::{option_text, texts};
use crate::text::{after_first, before_first, rest_after, trim, trimmed, until_char};
use vstd::prelude::*;

verus! {

/// The number of seconds a linking attempt may take.
pub const LINK_SECONDS: u64 = 240;

/// The arguments of the linking subprocess: the mode and the name under
/// which the new device is known.
pub open spec fn link_arguments_text() -> Seq<Seq<char>> {
    seq!["link"@, "-n"@, "akiszka/signalbot"@]
}

/// The arguments of the linking subprocess.
pub fn link_arguments() -> (r: Vec<String>)
    ensures
        texts(r@) == link_arguments_text(),
{
    let mut r: Vec<String> = Vec::new();
    r.push("link".to_owned());
    r.push("-n".to_owned());
    r.push("akiszka/signalbot".to_owned());
    assert(texts(r@) =~= link_arguments_text());
    r
}

/// What the linking subprocess writes before the account it was linked
/// to.
pub open spec fn joining_pattern() -> Seq<char> {
    "Associated with: "@
}

/// The account that a line of output names: what follows the first
/// occurrence of the pattern, up to the next space, without white space at
/// either end. Nothing where the line does not hold the pattern.
pub open spec fn linked_account(line: Seq<char>) -> Option<Seq<char>> {
    match after_first(line, joining_pattern()) {
        Some(rest) => Some(trimmed(before_first(rest, ' '))),
        None => None,
    }
}

/// The account that a line of output names, if it names one.
pub fn account_in_line(line: &str) -> (r: Option<String>)
    ensures
        option_text(r) == linked_account(line@),
{
    match rest_after(line, "Associated with: ") {
        Some(rest) => Some(trim(until_char(rest, ' ')).to_owned()),
        None => None,
    }
}

/// What a linking attempt ended in.
#[derive(Clone, Copy, Debug, PartialEq, Eq)]
pub enum LinkOutcome {
    /// No join link could be had: the subprocess did not start or its
    /// first line could not be read.
    Failed,
    /// The subprocess exited with success and the daemon was restarted.
    Restarted,
    /// The subprocess exited with success and the restart failed: the
    /// program cannot go on.
    Aborted,
    /// The subprocess outlived the linking budget and was killed.
    TimedOut,
    /// The subprocess failed: the daemon stays as it is.
    NoRestart,
}

/// Where a linking attempt stands.
#[derive(Clone, Copy, Debug, PartialEq, Eq)]
pub enum LinkPhase {
    /// The subprocess is being spawned.
    Spawning,
    /// The first line of output, the join link, is being read.
    AwaitingUri,
    /// The join link is out; the output is read for the linked account.
    Watching,
    /// The output is done with; the subprocess has not exited yet.
    AwaitingExit,
    /// The linking budget is spent and the subprocess is being killed.
    Killing,
    /// The subprocess exited with success and the daemon is restarting.
    Restarting,
    /// The attempt is over.
    Finished(LinkOutcome),
}

/// What the program reports to the session.
#[derive(Debug, Clone, PartialEq, Eq)]
pub enum LinkEvent {
    Spawned,
    SpawnFailed,
    /// A line of output; empty where the output has ended.
    Line(String),
    ReadFailed,
    /// The subprocess exited, with success or not.
    Exited(bool),
    WaitFailed,
    /// The linking budget is spent.
    Timeout,
    Killed,
    KillFailed,
    Restarted,
    RestartFailed,
}

/// What the program does next.
#[derive(Debug, Clone, PartialEq, Eq)]
pub enum LinkAction {
    /// Read the first line of output; report `Line` or `ReadFailed`.
    ReadUri,
    /// Hand this line to the caller as the join link. Then, in the
    /// background, start the linking budget and go on as for `ReadLine`.
    Publish(String),
    /// Read the next line of output, racing what is left of the budget;
    /// report `Line`, `ReadFailed` or `Timeout`.
    ReadLine,
    /// Wait for the subprocess to exit, racing what is left of the budget;
    /// report `Exited`, `WaitFailed` or `Timeout`.
    AwaitExit,
    /// Kill the subprocess; report `Killed` or `KillFailed`.
    Kill,
    /// Restart the daemon; report `Restarted` or `RestartFailed`.
    Restart,
    /// The attempt is over.
    Finish(LinkOutcome),
    /// The daemon could not be restarted: end the program.
    Abort,
    /// The event does not belong to what is in flight: nothing to do.
    Ignore,
}

/// The state of a linking attempt: where it stands, and the account that
/// the output named, once it has.
pub struct LinkState {
    pub phase: LinkPhase,
    pub account: Option<Seq<char>>,
}

/// The state in `phase` that keeps the account of `s`.
pub open spec fn moved(s: LinkState, phase: LinkPhase) -> LinkState {
    LinkState { phase, account: s.account }
}

/// What an event does to a linking attempt.
///
/// The first line of output is the join link. From then on the attempt
/// ends in exactly one of three ways: the subprocess exits with success and
/// the daemon is restarted; the budget is spent and the subprocess is
/// killed; or the subprocess fails and nothing is restarted.
pub open spec fn link_step(s: LinkState, event: LinkEvent) -> (LinkState, LinkAction) {
    match s.phase {
        LinkPhase::Spawning => match event {
            LinkEvent::Spawned => (moved(s, LinkPhase::AwaitingUri), LinkAction::ReadUri),
            LinkEvent::SpawnFailed => (
                moved(s, LinkPhase::Finished(LinkOutcome::Failed)),
                LinkAction::Finish(LinkOutcome::Failed),
            ),
            _ => (s, LinkAction::Ignore),
        },
        LinkPhase::AwaitingUri => match event {
            LinkEvent::Line(line) => (moved(s, LinkPhase::Watching), LinkAction::Publish(line)),
            LinkEvent::ReadFailed => (
                moved(s, LinkPhase::Finished(LinkOutcome::Failed)),
                LinkAction::Finish(LinkOutcome::Failed),
            ),
            _ => (s, LinkAction::Ignore),
        },
        LinkPhase::Watching => match event {
            LinkEvent::Line(line) => match linked_account(line@) {
                Some(account) => (
                    LinkState { phase: LinkPhase::AwaitingExit, account: Some(account) },
                    LinkAction::AwaitExit,
                ),
                None => if line@.len() == 0 {
                    (moved(s, LinkPhase::AwaitingExit), LinkAction::AwaitExit)
                } else {
                    (s, LinkAction::ReadLine)
                },
            },
            LinkEvent::ReadFailed => (moved(s, LinkPhase::AwaitingExit), LinkAction::AwaitExit),
            LinkEvent::Timeout => (moved(s, LinkPhase::Killing), LinkAction::Kill),
            _ => (s, LinkAction::Ignore),
        },
        LinkPhase::AwaitingExit => match event {
            LinkEvent::Exited(success) => if success {
                (moved(s, LinkPhase::Restarting), LinkAction::Restart)
            } else {
                (
                    moved(s, LinkPhase::Finished(LinkOutcome::NoRestart)),
                    LinkAction::Finish(LinkOutcome::NoRestart),
                )
            },
            LinkEvent::WaitFailed => (
                moved(s, LinkPhase::Finished(LinkOutcome::NoRestart)),
                LinkAction::Finish(LinkOutcome::NoRestart),
            ),
            LinkEvent::Timeout => (moved(s, LinkPhase::Killing), LinkAction::Kill),
            _ => (s, LinkAction::Ignore),
        },
        LinkPhase::Killing => match event {
            LinkEvent::Killed => (
                moved(s, LinkPhase::Finished(LinkOutcome::TimedOut)),
                LinkAction::Finish(LinkOutcome::TimedOut),
            ),
            LinkEvent::KillFailed => (
                moved(s, LinkPhase::Finished(LinkOutcome::TimedOut)),
                LinkAction::Finish(LinkOutcome::TimedOut),
            ),
            _ => (s, LinkAction::Ignore),
        },
        LinkPhase::Restarting => match event {
            LinkEvent::Restarted => (
                moved(s, LinkPhase::Finished(LinkOutcome::Restarted)),
                LinkAction::Finish(LinkOutcome::Restarted),
            ),
            LinkEvent::RestartFailed => (
                moved(s, LinkPhase::Finished(LinkOutcome::Aborted)),
                LinkAction::Abort,
            ),
            _ => (s, LinkAction::Ignore),
        },
        LinkPhase::Finished(_) => (s, LinkAction::Ignore),
    }
}

/// The state in which a linking attempt begins.
pub open spec fn link_begins() -> LinkState {
    LinkState { phase: LinkPhase::Spawning, account: None }
}

/// A linking attempt.
pub struct LinkSession {
    phase: LinkPhase,
    account: Option<String>,
}

impl View for LinkSession {
    type V = LinkState;

    closed spec fn view(&self) -> LinkState {
        LinkState { phase: self.phase, account: option_text(self.account) }
    }
}

/// Begins a linking attempt. The program spawns the subprocess, with its
/// output captured and free to outlive the call, and reports `Spawned` or
/// `SpawnFailed`.
pub fn link() -> (r: LinkSession)
    ensures
        r@ == link_begins(),
{
    LinkSession { phase: LinkPhase::Spawning, account: None }
}

impl LinkSession {
    /// Where the attempt stands.
    pub fn phase(&self) -> (r: LinkPhase)
        ensures
            r == self@.phase,
    {
        self.phase
    }

    /// The account that the output named, once it has.
    pub fn account(&self) -> (r: &Option<String>)
        ensures
            option_text(*r) == self@.account,
    {
        &self.account
    }

    /// Answers an event with the action to perform next.
    pub fn on_event(&mut self, event: LinkEvent) -> (action: LinkAction)
        ensures
            (final(self)@, action) == link_step(old(self)@, event),
    {
        let (phase, action) = match self.phase {
            LinkPhase::Spawning => match event {
                LinkEvent::Spawned => (LinkPhase::AwaitingUri, LinkAction::ReadUri),
                LinkEvent::SpawnFailed => (
                    LinkPhase::Finished(LinkOutcome::Failed),
                    LinkAction::Finish(LinkOutcome::Failed),
                ),
                _ => (self.phase, LinkAction::Ignore),
            },
            LinkPhase::AwaitingUri => match event {
                LinkEvent::Line(line) => (LinkPhase::Watching, LinkAction::Publish(line)),
                LinkEvent::ReadFailed => (
                    LinkPhase::Finished(LinkOutcome::Failed),
                    LinkAction::Finish(LinkOutcome::Failed),
                ),
                _ => (self.phase, LinkAction::Ignore),
            },
            LinkPhase::Watching => match event {
                LinkEvent::Line(line) => {
                    match account_in_line(line.as_str()) {
                        Some(account) => {
                            self.account = Some(account);
                            (LinkPhase::AwaitingExit, LinkAction::AwaitExit)
                        },
                        None => {
                            if line.as_str().is_empty() {
                                (LinkPhase::AwaitingExit, LinkAction::AwaitExit)
                            } else {
                                (self.phase, LinkAction::ReadLine)
                            }
                        },
                    }
                },
                LinkEvent::ReadFailed => (LinkPhase::AwaitingExit, LinkAction::AwaitExit),
                LinkEvent::Timeout => (LinkPhase::Killing, LinkAction::Kill),
                _ => (self.phase, LinkAction::Ignore),
            },
            LinkPhase::AwaitingExit => match event {
                LinkEvent::Exited(success) => {
                    if success {
                        (LinkPhase::Restarting, LinkAction::Restart)
                    } else {
                        (
                            LinkPhase::Finished(LinkOutcome::NoRestart),
                            LinkAction::Finish(LinkOutcome::NoRestart),
                        )
                    }
                },
                LinkEvent::WaitFailed => (
                    LinkPhase::Finished(LinkOutcome::NoRestart),
                    LinkAction::Finish(LinkOutcome::NoRestart),
                ),
                LinkEvent::Timeout => (LinkPhase::Killing, LinkAction::Kill),
                _ => (self.phase, LinkAction::Ignore),
            },
            LinkPhase::Killing => match event {
                LinkEvent::Killed => (
                    LinkPhase::Finished(LinkOutcome::TimedOut),
                    LinkAction::Finish(LinkOutcome::TimedOut),
                ),
                LinkEvent::KillFailed => (
                    LinkPhase::Finished(LinkOutcome::TimedOut),
                    LinkAction::Finish(LinkOutcome::TimedOut),
                ),
                _ => (self.phase, LinkAction::Ignore),
            },
            LinkPhase::Restarting => match event {
                LinkEvent::Restarted => (
                    LinkPhase::Finished(LinkOutcome::Restarted),
                    LinkAction::Finish(LinkOutcome::Restarted),
                ),
                LinkEvent::RestartFailed => (
                    LinkPhase::Finished(LinkOutcome::Aborted),
                    LinkAction::Abort,
                ),
                _ => (self.phase, LinkAction::Ignore),
            },
            LinkPhase::Finished(_) => (self.phase, LinkAction::Ignore),
        };
        self.phase = phase;
        action
    }
}

/// The state after the events `events`, taken in order.
pub open spec fn link_run(s: LinkState, events: Seq<LinkEvent>) -> LinkState
    decreases events.len(),
{
    if events.len() == 0 {
        s
    } else {
        link_run(link_step(s, events.first()).0, events.drop_first())
    }
}

/// How often the daemon is restarted over the events `events`.
pub open spec fn restarts(s: LinkState, events: Seq<LinkEvent>) -> nat
    decreases events.len(),
{
    if events.len() == 0 {
        0
    } else {
        let (next, action) = link_step(s, events.first());
        let now: nat = if action is Restart {
            1
        } else {
            0
        };
        now + restarts(next, events.drop_first())
    }
}

/// How often the subprocess is killed over the events `events`.
pub open spec fn kills(s: LinkState, events: Seq<LinkEvent>) -> nat
    decreases events.len(),
{
    if events.len() == 0 {
        0
    } else {
        let (next, action) = link_step(s, events.first());
        let now: nat = if action is Kill {
            1
        } else {
            0
        };
        now + kills(next, events.drop_first())
    }
}

/// The attempt has been decided: the subprocess is being killed, the
/// daemon is restarting, or the attempt is over.
pub open spec fn decided(phase: LinkPhase) -> bool {
    phase is Killing || phase is Restarting || phase is Finished
}

/// The daemon is restarted only when the subprocess has exited with
/// success, and the subprocess is killed only when the budget is spent.
pub proof fn lemma_link_causes(s: LinkState, event: LinkEvent)
    ensures
        link_step(s, event).1 is Restart ==> s.phase is AwaitingExit && event == LinkEvent::Exited(
            true,
        ),
        link_step(s, event).1 is Kill ==> event is Timeout && (s.phase is Watching
            || s.phase is AwaitingExit),
{
}

/// An attempt that is over stays over: no event changes it or asks for
/// anything.
pub proof fn lemma_link_finished_stays(s: LinkState, event: LinkEvent)
    requires
        s.phase is Finished,
    ensures
        link_step(s, event).0 == s,
        link_step(s, event).1 is Ignore,
{
}

/// Once an attempt is decided, nothing is killed or restarted any more.
pub proof fn lemma_link_decided_is_final(s: LinkState, events: Seq<LinkEvent>)
    requires
        decided(s.phase),
    ensures
        restarts(s, events) == 0,
        kills(s, events) == 0,
        decided(link_run(s, events).phase),
    decreases events.len(),
{
    if events.len() > 0 {
        lemma_link_decided_is_final(link_step(s, events.first()).0, events.drop_first());
    }
}

/// A linking attempt is decided once. Whatever is reported and in whatever
/// order, the daemon is restarted at most once, the subprocess is killed at
/// most once, and never both.
pub proof fn lemma_link_decided_once(s: LinkState, events: Seq<LinkEvent>)
    ensures
        restarts(s, events) + kills(s, events) <= 1,
    decreases events.len(),
{
    if events.len() > 0 {
        let next = link_step(s, events.first()).0;
        let action = link_step(s, events.first()).1;
        if action is Restart || action is Kill {
            lemma_link_decided_is_final(next, events.drop_first());
        } else {
            lemma_link_decided_once(next, events.drop_first());
        }
    }
}

} // verus!
