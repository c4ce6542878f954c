use signalbot::signal::Signal;
use signalbot::webhooks::github::{Commit, Issue, Payload, Repository, User};
use signalbot::webhooks::{notify_user, WebhookPayload};

const ZERO: &str = "0000000000000000000000000000000000000000";

fn text(s: &str) -> String {
    s.to_string()
}

fn payload() -> Payload {
    Payload {
        ref_on: None,
        before: None,
        after: None,
        commits: None,
        head_commit: None,
        action: None,
        repository: Repository {
            name: text("bot"),
            full_name: text("parlour/bot"),
            url: text("https://api.example/repos/parlour/bot"),
            html_url: text("https://example/parlour/bot"),
        },
        sender: User { login: text("octo") },
        issue: None,
        pull_request: None,
    }
}

fn issue(title: &str, html_url: &str) -> Issue {
    Issue {
        url: text("https://api.example/1"),
        html_url: text(html_url),
        id: 1,
        title: text(title),
        number: 1,
        user: User { login: text("someone") },
        state: text("open"),
    }
}

fn commit(message: &str) -> Commit {
    Commit { id: text("abc"), message: text(message), url: text("https://example/c/abc") }
}

#[test]
fn an_event_without_action_or_reference_names_the_sender() {
    assert_eq!(payload().to_string(), "[GitHub]: octo");
}

#[test]
fn an_issue_event() {
    let mut p = payload();
    p.action = Some(text("opened"));
    p.issue = Some(issue("It is broken", "https://example/parlour/bot/issues/1"));
    assert_eq!(
        p.to_string(),
        "[GitHub]: octo opened issue 'It is broken'\nhttps://example/parlour/bot/issues/1"
    );
}

#[test]
fn a_pull_request_event() {
    let mut p = payload();
    p.action = Some(text("closed"));
    p.pull_request = Some(issue("Fix it", "https://example/parlour/bot/pull/2"));
    assert_eq!(
        p.to_string(),
        "[GitHub]: octo closed pull request 'Fix it'\nhttps://example/parlour/bot/pull/2"
    );
}

#[test]
fn an_action_with_both_subjects_and_an_action_alone() {
    let mut p = payload();
    p.action = Some(text("edited"));
    assert_eq!(p.to_string(), "[GitHub]: octo edited");
    p.issue = Some(issue("A", "u1"));
    p.pull_request = Some(issue("B", "u2"));
    assert_eq!(p.to_string(), "[GitHub]: octo edited issue 'A'\nu1 pull request 'B'\nu2");
}

#[test]
fn subjects_without_an_action_are_left_out() {
    let mut p = payload();
    p.issue = Some(issue("A", "u1"));
    assert_eq!(p.to_string(), "[GitHub]: octo");
}

#[test]
fn a_push_of_a_commit() {
    let mut p = payload();
    p.ref_on = Some(text("refs/heads/main"));
    p.before = Some(text("1111111111111111111111111111111111111111"));
    p.after = Some(text("2222222222222222222222222222222222222222"));
    p.head_commit = Some(commit("Teach the bot to greet"));
    assert_eq!(p.to_string(), "[GitHub]: octo commited 'Teach the bot to greet' to branch main");
}

#[test]
fn a_deleted_and_a_created_branch() {
    let mut p = payload();
    p.ref_on = Some(text("refs/heads/old"));
    p.before = Some(text("1111111111111111111111111111111111111111"));
    p.after = Some(text(ZERO));
    p.head_commit = Some(commit("ignored"));
    assert_eq!(p.to_string(), "[GitHub]: octo deleted branch old");
    p.before = Some(text(ZERO));
    assert_eq!(p.to_string(), "[GitHub]: octo deleted branch old");
    p.after = Some(text("2222222222222222222222222222222222222222"));
    assert_eq!(p.to_string(), "[GitHub]: octo created branch old");
}

#[test]
fn a_reference_alone_names_the_branch() {
    let mut p = payload();
    p.ref_on = Some(text("refs/heads/main"));
    assert_eq!(p.to_string(), "[GitHub]: octobranch main");
}

#[test]
fn the_branch_is_the_third_piece_of_the_reference() {
    let mut p = payload();
    p.head_commit = Some(commit("m"));
    p.ref_on = Some(text("refs/heads/feature/login"));
    assert_eq!(p.to_string(), "[GitHub]: octo commited 'm' to branch feature");
    p.ref_on = Some(text("refs/heads/"));
    assert_eq!(p.to_string(), "[GitHub]: octo commited 'm' to branch ");
    p.ref_on = Some(text("refs/heads"));
    assert_eq!(p.to_string(), "[GitHub]: octo commited 'm' to ");
    p.ref_on = Some(text(""));
    assert_eq!(p.to_string(), "[GitHub]: octo commited 'm' to ");
}

#[test]
fn a_revision_of_other_length_is_no_zero_revision() {
    let mut p = payload();
    p.ref_on = Some(text("refs/heads/main"));
    p.after = Some(text("000000000000000000000000000000000000000"));
    p.before = Some(text("00000000000000000000000000000000000000000"));
    assert_eq!(p.to_string(), "[GitHub]: octobranch main");
}

#[test]
fn an_action_and_a_push_together() {
    let mut p = payload();
    p.action = Some(text("pushed"));
    p.ref_on = Some(text("refs/heads/main"));
    p.head_commit = Some(commit("m"));
    assert_eq!(p.to_string(), "[GitHub]: octo pushed commited 'm' to branch main");
}

#[test]
fn notify_user_sends_the_event_to_one_person() {
    let mut signal: Signal<u32> = Signal::new();
    let mut p = payload();
    p.action = Some(text("opened"));
    p.issue = Some(issue("A", "u1"));
    let out = notify_user(&mut signal, &p, "+1555", "+1666", 3).unwrap();
    let value: serde_json::Value = serde_json::from_str(&out.line).unwrap();
    assert_eq!(value.get("id").unwrap().as_str(), Some(out.id.as_str()));
    assert_eq!(value.get("method").unwrap().as_str(), Some("send"));
    let params = value.get("params").unwrap();
    assert_eq!(params.get("account").unwrap().as_str(), Some("+1555"));
    assert_eq!(params.get("recipient").unwrap().as_array().unwrap().len(), 1);
    assert_eq!(params.get("recipient").unwrap()[0].as_str(), Some("+1666"));
    assert!(params.get("groupId").unwrap().is_null());
    assert_eq!(
        params.get("message").unwrap().as_str(),
        Some("[GitHub]: octo opened issue 'A'\nu1")
    );
}
