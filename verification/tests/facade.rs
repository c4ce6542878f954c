use signalbot::signal::daemon::{DaemonAction, DaemonEvent, Outcome};
use signalbot::signal::link::LinkPhase;
use signalbot::signal::socket::{
    RPCCommand, RPCResponse, RPCResult, RPCResultInternal, Received,
};
use signalbot::signal::Signal;

fn success(id: &str) -> String {
    RPCResponse {
        jsonrpc: "2.0".to_string(),
        id: id.to_string(),
        result: RPCResult {
            timestamp: 1700000000000,
            results: vec![RPCResultInternal { kind: "SUCCESS".to_string() }],
        },
    }
    .to_json()
    .unwrap()
        + "\n"
}

fn delivered(received: Received<u32>) -> (u32, RPCResponse) {
    match received {
        Received::Delivered(reply, response) => (reply, response),
        other => panic!("not delivered: {:?}", other),
    }
}

fn started() -> Signal<u32> {
    let mut signal: Signal<u32> = Signal::new();
    assert_eq!(signal.on_daemon_event(DaemonEvent::Spawned), DaemonAction::ReadLine);
    assert_eq!(
        signal.on_daemon_event(DaemonEvent::Line("one\n".to_string())),
        DaemonAction::ReadLine
    );
    assert_eq!(
        signal.on_daemon_event(DaemonEvent::Line("two\n".to_string())),
        DaemonAction::ReadLine
    );
    assert_eq!(
        signal.on_daemon_event(DaemonEvent::Line("Listening on socket\n".to_string())),
        DaemonAction::Done(Outcome::Started)
    );
    signal
}

#[test]
fn start_then_send_then_receive() {
    let mut signal = started();
    let out = signal.send_command(RPCCommand::send_user("+1555", "+1666", "hi"), 11).unwrap();
    let sent: serde_json::Value = serde_json::from_str(&out.line).unwrap();
    assert_eq!(sent.get("method").unwrap().as_str(), Some("send"));
    let (caller, response) = delivered(signal.on_line(&success(&out.id)));
    assert_eq!(caller, 11);
    assert_eq!(response.id, out.id);
    assert_eq!(response.result.results[0].kind, "SUCCESS");
    let text = Signal::<u32>::response_text(&response).unwrap();
    let got: serde_json::Value = serde_json::from_str(&text).unwrap();
    assert_eq!(got.get("id").unwrap().as_str(), Some(out.id.as_str()));
    assert_eq!(got.get("id"), sent.get("id"));
    let results = got.get("result").unwrap().get("results").unwrap().as_array().unwrap();
    assert_eq!(results[0].get("type").unwrap().as_str(), Some("SUCCESS"));
    assert!(matches!(
        signal.on_line(&success(&out.id)),
        Received::Orphan(_)
    ));
}

#[test]
fn restart_leaves_waiting_calls_alone() {
    let mut signal = started();
    let out = signal.send_command(RPCCommand::send_user("+1555", "+1666", "hi"), 11).unwrap();
    assert_eq!(signal.restart(Some(99)), DaemonAction::Interrupt(99));
    assert_eq!(signal.restart(Some(99)), DaemonAction::Wait);
    assert_eq!(signal.stop(Some(99)), DaemonAction::Wait);
    assert_eq!(signal.on_daemon_event(DaemonEvent::Interrupted), DaemonAction::AwaitExit);
    assert_eq!(signal.on_daemon_event(DaemonEvent::Exited), DaemonAction::Spawn);
    assert_eq!(delivered(signal.on_line(&success(&out.id))).0, 11);
}

#[test]
fn stop_and_failed_write() {
    let mut signal = started();
    let out = signal.send_command(RPCCommand::send_group("+1555", "grp", "hi"), 5).unwrap();
    assert_eq!(signal.write_failed(&out.id), Some(5));
    assert!(matches!(
        signal.on_line(&success(&out.id)),
        Received::Orphan(_)
    ));
    assert_eq!(signal.stop(None), DaemonAction::Done(Outcome::Stopped));
}

#[test]
fn link_begins_by_spawning() {
    let signal = started();
    assert_eq!(signal.link().phase(), LinkPhase::Spawning);
}
