use signalbot::signal::socket::{RPCCommand, RPCParams, RPCResponse, RPCResult, RPCResultInternal};

fn text(s: &str) -> String {
    s.to_string()
}

#[test]
fn new_command_carries_version_and_placeholder() {
    let c = RPCCommand::new(text("send"), RPCParams::default());
    assert_eq!(c.jsonrpc, "2.0");
    assert_eq!(c.id, "my special mark");
    assert_eq!(c.method, "send");
    assert_eq!(c.params, RPCParams { account: None, recipient: None, groupId: None, message: None });
}

#[test]
fn with_id_overwrites_the_id_only() {
    let mut c = RPCCommand::send_user("+1555", "+1666", "hi");
    let before = c.clone();
    c.with_id(text("first")).with_id(text("second"));
    assert_eq!(c.id, "second");
    assert_eq!(c.jsonrpc, before.jsonrpc);
    assert_eq!(c.method, before.method);
    assert_eq!(c.params, before.params);
}

#[test]
fn send_user_names_one_recipient_and_no_group() {
    let c = RPCCommand::send_user("+1555", "+1666", "hi");
    assert_eq!(c.method, "send");
    assert_eq!(c.params.account, Some(text("+1555")));
    assert_eq!(c.params.recipient, Some(vec![text("+1666")]));
    assert_eq!(c.params.groupId, None);
    assert_eq!(c.params.message, Some(text("hi")));
}

#[test]
fn send_group_names_a_group_and_no_recipient() {
    let c = RPCCommand::send_group("+1555", "R3JvdXA=", "hello all");
    assert_eq!(c.method, "send");
    assert_eq!(c.params.account, Some(text("+1555")));
    assert_eq!(c.params.recipient, None);
    assert_eq!(c.params.groupId, Some(text("R3JvdXA=")));
    assert_eq!(c.params.message, Some(text("hello all")));
}

#[test]
fn command_json_is_exact() {
    let mut c = RPCCommand::send_user("+1555", "+1666", "hi");
    c.with_id(text("abc"));
    assert_eq!(
        c.to_json().unwrap(),
        "{\"jsonrpc\":\"2.0\",\"id\":\"abc\",\"method\":\"send\",\"params\":{\"account\":\"+1555\",\"recipient\":[\"+1666\"],\"groupId\":null,\"message\":\"hi\"}}"
    );
}

#[test]
fn group_command_json_is_exact() {
    let mut c = RPCCommand::send_group("+1555", "grp", "hi");
    c.with_id(text("abc"));
    assert_eq!(
        c.to_json().unwrap(),
        "{\"jsonrpc\":\"2.0\",\"id\":\"abc\",\"method\":\"send\",\"params\":{\"account\":\"+1555\",\"recipient\":null,\"groupId\":\"grp\",\"message\":\"hi\"}}"
    );
}

#[test]
fn command_line_ends_in_its_only_line_feed() {
    let c = RPCCommand::send_user("+1555", "+1666", "two\nlines\r\nand a \"quote\"");
    let line = c.to_line().unwrap();
    assert!(line.ends_with('\n'));
    assert_eq!(line.matches('\n').count(), 1);
    assert_eq!(line[..line.len() - 1], c.to_json().unwrap());
}

#[test]
fn round_trip_of_a_send_to_an_individual() {
    let c = RPCCommand::send_user("+1555", "+1666", "hi");
    let line = c.to_line().unwrap();
    let value: serde_json::Value = serde_json::from_str(&line).unwrap();
    let params = value.get("params").unwrap();
    let recipient = params.get("recipient").unwrap().as_array().unwrap();
    assert_eq!(recipient.len(), 1);
    assert_eq!(recipient[0].as_str(), Some("+1666"));
    assert!(params.get("groupId").unwrap().is_null());
    assert_eq!(params.get("message").unwrap().as_str(), Some("hi"));
    assert_eq!(params.get("account").unwrap().as_str(), Some("+1555"));
    assert_eq!(value.get("method").unwrap().as_str(), Some("send"));
    assert_eq!(value.get("jsonrpc").unwrap().as_str(), Some("2.0"));
}

#[test]
fn round_trip_keeps_text_that_needs_escaping() {
    let message = "line one\nline \"two\" \\ tab\t bell\u{7} snow \u{2603}";
    let mut c = RPCCommand::send_group("+1555", "a/b+c=", message);
    c.with_id(text("id \"7\""));
    let line = c.to_line().unwrap();
    let value: serde_json::Value = serde_json::from_str(&line).unwrap();
    assert_eq!(value.get("id").unwrap().as_str(), Some("id \"7\""));
    let params = value.get("params").unwrap();
    assert_eq!(params.get("message").unwrap().as_str(), Some(message));
    assert_eq!(params.get("groupId").unwrap().as_str(), Some("a/b+c="));
    assert!(params.get("recipient").unwrap().is_null());
}

#[test]
fn quoted_command_holds_literals() {
    let mut c = RPCCommand::send_user("+1555", "+1666", "say \"hi\"");
    c.with_id(text("abc"));
    let q = c.quoted().unwrap();
    assert_eq!(q.jsonrpc, "\"2.0\"");
    assert_eq!(q.id, "\"abc\"");
    assert_eq!(q.method, "\"send\"");
    assert_eq!(q.params.account, Some(text("\"+1555\"")));
    assert_eq!(q.params.recipient, Some(vec![text("\"+1666\"")]));
    assert_eq!(q.params.groupId, None);
    assert_eq!(q.params.message, Some(text("\"say \\\"hi\\\"\"")));
}

#[test]
fn framed_command_punctuates_what_it_is_given() {
    let q = RPCCommand {
        jsonrpc: text("J"),
        id: text("I"),
        method: text("M"),
        params: RPCParams {
            account: Some(text("A")),
            recipient: Some(vec![text("R1"), text("R2"), text("R3")]),
            groupId: None,
            message: Some(text("T")),
        },
    };
    assert_eq!(
        q.framed(),
        "{\"jsonrpc\":J,\"id\":I,\"method\":M,\"params\":{\"account\":A,\"recipient\":[R1,R2,R3],\"groupId\":null,\"message\":T}}"
    );
}

#[test]
fn framed_params_with_an_empty_list() {
    let p = RPCParams { account: None, recipient: Some(vec![]), groupId: Some(text("G")), message: None };
    let mut out = text(">");
    p.push_framed(&mut out);
    assert_eq!(out, ">{\"account\":null,\"recipient\":[],\"groupId\":G,\"message\":null}");
}

fn response(id: &str, timestamp: u64, kinds: &[&str]) -> RPCResponse {
    RPCResponse {
        jsonrpc: text("2.0"),
        id: text(id),
        result: RPCResult {
            timestamp,
            results: kinds.iter().map(|k| RPCResultInternal { kind: k.to_string() }).collect(),
        },
    }
}

#[test]
fn response_json_is_exact() {
    let r = response("abc", 1700000000123, &["SUCCESS"]);
    assert_eq!(
        r.to_json().unwrap(),
        "{\"jsonrpc\":\"2.0\",\"id\":\"abc\",\"result\":{\"timestamp\":1700000000123,\"results\":[{\"type\":\"SUCCESS\"}]}}"
    );
}

#[test]
fn response_json_with_several_and_with_no_outcomes() {
    let r = response("x", 0, &["SUCCESS", "UNREGISTERED_FAILURE"]);
    assert_eq!(
        r.to_json().unwrap(),
        "{\"jsonrpc\":\"2.0\",\"id\":\"x\",\"result\":{\"timestamp\":0,\"results\":[{\"type\":\"SUCCESS\"},{\"type\":\"UNREGISTERED_FAILURE\"}]}}"
    );
    let r = response("x", u64::MAX, &[]);
    assert_eq!(
        r.to_json().unwrap(),
        "{\"jsonrpc\":\"2.0\",\"id\":\"x\",\"result\":{\"timestamp\":18446744073709551615,\"results\":[]}}"
    );
}

#[test]
fn response_json_parses_back() {
    let r = response("a \"b\"", 42, &["SUCCESS"]);
    let value: serde_json::Value = serde_json::from_str(&r.to_json().unwrap()).unwrap();
    assert_eq!(value.get("id").unwrap().as_str(), Some("a \"b\""));
    let result = value.get("result").unwrap();
    assert_eq!(result.get("timestamp").unwrap().as_u64(), Some(42));
    let results = result.get("results").unwrap().as_array().unwrap();
    assert_eq!(results[0].get("type").unwrap().as_str(), Some("SUCCESS"));
}
