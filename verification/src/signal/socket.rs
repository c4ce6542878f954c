//! Commands and responses of the daemon's line protocol, and the
//! connection that matches each response to the caller that waits for it.

use crate::json::{
    framed_list, framed_option, framed_option_list, json_members, json_string, members, one_line,
    option_text, option_texts, push_list, push_option, push_option_list, quote, quote_all,
    quote_option, quoted_all, quoted_option, quoted_option_all, texts, EncodeError, Members,
    MembersView,
};
use crate::signal::pending::{apply, waiting, PendingTable, TableOp};
use crate::text::{blank, decimal, decimal_string, is_blank, lemma_trimmed_empty, trimmed};
use vstd::prelude::*;

verus! {

/// The number of seconds that setting up the socket may spend reading.
pub const SOCKET_READ_SECONDS: u64 = 5;

/// The number of seconds that setting up the socket may spend writing.
pub const SOCKET_WRITE_SECONDS: u64 = 5;

/// The number of commands that may queue up for the writer.
pub const QUEUE_LENGTH: usize = 100;

/// The address of the daemon's socket.
pub fn socket_path() -> (r: &'static str)
    ensures
        r@ == "./signal.sock"@,
{
    "./signal.sock"
}

/// The parameters of a command. A send names the account and the message,
/// and either one recipient or a group.
#[allow(non_snake_case)]
#[derive(Debug, Clone, PartialEq, Eq)]
pub struct RPCParams {
    pub account: Option<String>,
    pub recipient: Option<Vec<String>>,
    pub groupId: Option<String>,
    pub message: Option<String>,
}

/// A command for the daemon. `jsonrpc` names the version of the protocol
/// and `id` is the mark by which the response is found again.
#[derive(Debug, Clone, PartialEq, Eq)]
pub struct RPCCommand {
    pub jsonrpc: String,
    pub id: String,
    pub method: String,
    pub params: RPCParams,
}

/// The outcome of a command for one recipient. On the wire the member is
/// called `type`.
#[derive(Debug, Clone, PartialEq, Eq)]
pub struct RPCResultInternal {
    pub kind: String,
}

/// What the daemon did with a command.
#[derive(Debug, Clone, PartialEq, Eq)]
pub struct RPCResult {
    pub timestamp: u64,
    pub results: Vec<RPCResultInternal>,
}

/// The daemon's answer to the command that carried the same `id`.
#[derive(Debug, Clone, PartialEq, Eq)]
pub struct RPCResponse {
    pub jsonrpc: String,
    pub id: String,
    pub result: RPCResult,
}

/// The parameters of a command as texts.
pub struct ParamsView {
    pub account: Option<Seq<char>>,
    pub recipient: Option<Seq<Seq<char>>>,
    pub group_id: Option<Seq<char>>,
    pub message: Option<Seq<char>>,
}

/// A command as texts.
pub struct CommandView {
    pub jsonrpc: Seq<char>,
    pub id: Seq<char>,
    pub method: Seq<char>,
    pub params: ParamsView,
}

/// A response as texts and numbers.
pub struct ResponseView {
    pub jsonrpc: Seq<char>,
    pub id: Seq<char>,
    pub timestamp: nat,
    pub results: Seq<Seq<char>>,
}

impl View for RPCParams {
    type V = ParamsView;

    open spec fn view(&self) -> ParamsView {
        ParamsView {
            account: option_text(self.account),
            recipient: option_texts(self.recipient),
            group_id: option_text(self.groupId),
            message: option_text(self.message),
        }
    }
}

impl View for RPCCommand {
    type V = CommandView;

    open spec fn view(&self) -> CommandView {
        CommandView {
            jsonrpc: self.jsonrpc@,
            id: self.id@,
            method: self.method@,
            params: self.params@,
        }
    }
}

/// The outcomes of `results`, in order.
pub open spec fn kinds(results: Seq<RPCResultInternal>) -> Seq<Seq<char>> {
    Seq::new(results.len(), |i: int| results[i].kind@)
}

impl View for RPCResponse {
    type V = ResponseView;

    open spec fn view(&self) -> ResponseView {
        ResponseView {
            jsonrpc: self.jsonrpc@,
            id: self.id@,
            timestamp: self.result.timestamp as nat,
            results: kinds(self.result.results@),
        }
    }
}

impl Default for RPCParams {
    /// Parameters that name nothing.
    fn default() -> (r: Self)
        ensures
            r@ == (ParamsView { account: None, recipient: None, group_id: None, message: None }),
    {
        RPCParams { account: None, recipient: None, groupId: None, message: None }
    }
}

/// What a send to one person looks like.
pub open spec fn user_send(account: Seq<char>, phone: Seq<char>, message: Seq<char>) -> CommandView {
    CommandView {
        jsonrpc: "2.0"@,
        id: "my special mark"@,
        method: "send"@,
        params: ParamsView {
            account: Some(account),
            recipient: Some(seq![phone]),
            group_id: None,
            message: Some(message),
        },
    }
}

/// What a send to a group looks like.
pub open spec fn group_send(
    account: Seq<char>,
    group_id: Seq<char>,
    message: Seq<char>,
) -> CommandView {
    CommandView {
        jsonrpc: "2.0"@,
        id: "my special mark"@,
        method: "send"@,
        params: ParamsView {
            account: Some(account),
            recipient: None,
            group_id: Some(group_id),
            message: Some(message),
        },
    }
}

/// A send as the daemon expects it: the method is `send`, the account and
/// the message are set, and of the recipient and the group exactly one is.
pub open spec fn is_send(c: CommandView) -> bool {
    &&& c.method == "send"@
    &&& c.params.account is Some
    &&& c.params.message is Some
    &&& (c.params.recipient is Some) != (c.params.group_id is Some)
}

/// Both kinds of send are sends as the daemon expects them, a send to a
/// person names exactly one recipient, and giving a send an id leaves it a
/// send.
pub proof fn lemma_sends_are_sends(
    account: Seq<char>,
    target: Seq<char>,
    message: Seq<char>,
    id: Seq<char>,
)
    ensures
        is_send(user_send(account, target, message)),
        is_send(group_send(account, target, message)),
        user_send(account, target, message).params.recipient matches Some(l) && l.len() == 1,
        is_send(with_id(user_send(account, target, message), id)),
        is_send(with_id(group_send(account, target, message), id)),
{
}

impl RPCCommand {
    /// A command of protocol version 2.0 that carries a placeholder in
    /// place of its id, until the connection assigns one.
    pub fn new(method: String, params: RPCParams) -> (r: Self)
        ensures
            r.jsonrpc@ == "2.0"@,
            r.id@ == "my special mark"@,
            r.method == method,
            r.params == params,
    {
        RPCCommand {
            jsonrpc: "2.0".to_owned(),
            id: "my special mark".to_owned(),
            method,
            params,
        }
    }

    /// Gives the command the id `id`, whatever id it carried.
    pub fn with_id(&mut self, id: String) -> (r: &mut Self)
        ensures
            r.id == id,
            r.jsonrpc == old(self).jsonrpc,
            r.method == old(self).method,
            r.params == old(self).params,
            *final(self) == *final(r),
    {
        self.id = id;
        self
    }

    /// A send of `message` from `account` to the person at `phone`.
    pub fn send_user(account: &str, phone: &str, message: &str) -> (r: Self)
        ensures
            r@ == user_send(account@, phone@, message@),
    {
        let mut recipient: Vec<String> = Vec::new();
        recipient.push(phone.to_owned());
        let r = RPCCommand::new(
            "send".to_owned(),
            RPCParams {
                account: Some(account.to_owned()),
                recipient: Some(recipient),
                groupId: None,
                message: Some(message.to_owned()),
            },
        );
        assert(texts(recipient@) =~= seq![phone@]);
        r
    }

    /// A send of `message` from `account` to the group `group_id`.
    pub fn send_group(account: &str, group_id: &str, message: &str) -> (r: Self)
        ensures
            r@ == group_send(account@, group_id@, message@),
    {
        RPCCommand::new(
            "send".to_owned(),
            RPCParams {
                account: Some(account.to_owned()),
                recipient: None,
                groupId: Some(group_id.to_owned()),
                message: Some(message.to_owned()),
            },
        )
    }
}

/// The parameters with a JSON string literal in place of each text.
pub open spec fn quoted_params(p: ParamsView) -> ParamsView {
    ParamsView {
        account: quoted_option(p.account),
        recipient: quoted_option_all(p.recipient),
        group_id: quoted_option(p.group_id),
        message: quoted_option(p.message),
    }
}

/// The command with a JSON string literal in place of each text.
pub open spec fn quoted_command(c: CommandView) -> CommandView {
    CommandView {
        jsonrpc: json_string(c.jsonrpc),
        id: json_string(c.id),
        method: json_string(c.method),
        params: quoted_params(c.params),
    }
}

/// The JSON object of parameters whose texts are literals already: the
/// four members in the order account, recipient, groupId, message, each
/// present, `null` where the parameter is not set.
pub open spec fn framed_params(p: ParamsView) -> Seq<char> {
    "{\"account\":"@ + framed_option(p.account) + ",\"recipient\":"@ + framed_option_list(
        p.recipient,
    ) + ",\"groupId\":"@ + framed_option(p.group_id) + ",\"message\":"@ + framed_option(p.message)
        + "}"@
}

/// The JSON object of a command whose texts are literals already: the
/// members jsonrpc, id, method and params, in this order.
pub open spec fn framed_command(c: CommandView) -> Seq<char> {
    "{\"jsonrpc\":"@ + c.jsonrpc + ",\"id\":"@ + c.id + ",\"method\":"@ + c.method
        + ",\"params\":"@ + framed_params(c.params) + "}"@
}

/// The JSON object that stands for a command on the wire.
pub open spec fn command_json(c: CommandView) -> Seq<char> {
    framed_command(quoted_command(c))
}

/// The line that carries a command: its JSON object and a line feed.
pub open spec fn command_line(c: CommandView) -> Seq<char> {
    command_json(c) + seq!['\n']
}

/// No text of the parameters holds a line feed.
pub open spec fn params_one_line(p: ParamsView) -> bool {
    &&& p.account matches Some(t) ==> one_line(t)
    &&& p.recipient matches Some(l) ==> crate::json::all_one_line(l)
    &&& p.group_id matches Some(t) ==> one_line(t)
    &&& p.message matches Some(t) ==> one_line(t)
}

/// No text of the command holds a line feed.
pub open spec fn texts_one_line(c: CommandView) -> bool {
    &&& one_line(c.jsonrpc)
    &&& one_line(c.id)
    &&& one_line(c.method)
    &&& params_one_line(c.params)
}

impl RPCParams {
    /// The parameters with a JSON string literal in place of each text.
    pub fn quoted(&self) -> (r: Result<RPCParams, EncodeError>)
        ensures
            r matches Ok(q) && q@ == quoted_params(self@) && params_one_line(q@),
    {
        let account = quote_option(&self.account)?;
        let recipient = match &self.recipient {
            Some(l) => Some(quote_all(l)?),
            None => None,
        };
        let group = quote_option(&self.groupId)?;
        let message = quote_option(&self.message)?;
        Ok(RPCParams { account, recipient, groupId: group, message })
    }

    /// Appends the JSON object of parameters whose texts are literals
    /// already.
    pub fn push_framed(&self, out: &mut String)
        ensures
            final(out)@ == old(out)@ + framed_params(self@),
    {
        out.append("{\"account\":");
        push_option(out, &self.account);
        out.append(",\"recipient\":");
        push_option_list(out, &self.recipient);
        out.append(",\"groupId\":");
        push_option(out, &self.groupId);
        out.append(",\"message\":");
        push_option(out, &self.message);
        out.append("}");
        assert(out@ =~= old(out)@ + framed_params(self@));
    }
}

impl RPCCommand {
    /// The command with a JSON string literal in place of each text.
    pub fn quoted(&self) -> (r: Result<RPCCommand, EncodeError>)
        ensures
            r matches Ok(q) && q@ == quoted_command(self@) && texts_one_line(q@),
    {
        let jsonrpc = quote(self.jsonrpc.as_str())?;
        let id = quote(self.id.as_str())?;
        let method = quote(self.method.as_str())?;
        let params = self.params.quoted()?;
        Ok(RPCCommand { jsonrpc, id, method, params })
    }

    /// The JSON object of a command whose texts are literals already.
    pub fn framed(&self) -> (r: String)
        ensures
            r@ == framed_command(self@),
    {
        let mut out = String::new();
        out.append("{\"jsonrpc\":");
        out.append(self.jsonrpc.as_str());
        out.append(",\"id\":");
        out.append(self.id.as_str());
        out.append(",\"method\":");
        out.append(self.method.as_str());
        out.append(",\"params\":");
        self.params.push_framed(&mut out);
        out.append("}");
        assert(out@ =~= framed_command(self@));
        out
    }

    /// The JSON object that stands for the command on the wire.
    pub fn to_json(&self) -> (r: Result<String, EncodeError>)
        ensures
            r matches Ok(j) && j@ == command_json(self@) && one_line(j@),
    {
        let q = self.quoted()?;
        proof {
            lemma_framed_command_one_line(q@);
        }
        Ok(q.framed())
    }

    /// The line that carries the command: its JSON object and a line feed.
    /// The line feed at the end is the only one.
    pub fn to_line(&self) -> (r: Result<String, EncodeError>)
        ensures
            r matches Ok(l) && l@ == command_line(self@) && one_line(command_json(self@)),
    {
        let mut line = self.to_json()?;
        proof {
            reveal_strlit("\n");
        }
        line.append("\n");
        assert(line@ =~= command_line(self@));
        Ok(line)
    }
}

/// A list of literals without a line feed holds none.
pub proof fn lemma_joined_one_line(items: Seq<Seq<char>>, n: nat)
    requires
        crate::json::all_one_line(items),
        n <= items.len(),
    ensures
        one_line(crate::json::joined(items, n)),
    decreases n,
{
    reveal_strlit(",");
    if n > 1 {
        lemma_joined_one_line(items, (n - 1) as nat);
    }
}

/// The JSON object of parameters holds no line feed where its literals
/// hold none.
pub proof fn lemma_framed_params_one_line(p: ParamsView)
    requires
        params_one_line(p),
    ensures
        one_line(framed_params(p)),
{
    reveal_strlit("{\"account\":");
    reveal_strlit(",\"recipient\":");
    reveal_strlit(",\"groupId\":");
    reveal_strlit(",\"message\":");
    reveal_strlit("}");
    reveal_strlit("null");
    reveal_strlit("[");
    reveal_strlit("]");
    match p.recipient {
        Some(l) => lemma_joined_one_line(l, l.len()),
        None => {},
    }
    assert(one_line(framed_option(p.account)));
    assert(one_line(framed_option_list(p.recipient)));
    assert(one_line(framed_option(p.group_id)));
    assert(one_line(framed_option(p.message)));
}

/// The JSON object of a command holds no line feed where its literals hold
/// none.
pub proof fn lemma_framed_command_one_line(c: CommandView)
    requires
        texts_one_line(c),
    ensures
        one_line(framed_command(c)),
{
    reveal_strlit("{\"jsonrpc\":");
    reveal_strlit(",\"id\":");
    reveal_strlit(",\"method\":");
    reveal_strlit(",\"params\":");
    reveal_strlit("}");
    lemma_framed_params_one_line(c.params);
}

/// The JSON objects of the outcomes, each with its literal as the member
/// `type`.
pub open spec fn framed_outcomes(kinds: Seq<Seq<char>>) -> Seq<Seq<char>> {
    Seq::new(kinds.len(), |i: int| "{\"type\":"@ + kinds[i] + "}"@)
}

/// The JSON object of a response whose texts are literals already: the
/// members jsonrpc, id and result, the result with its timestamp in decimal
/// and the list of its outcomes.
pub open spec fn framed_response(r: ResponseView) -> Seq<char> {
    "{\"jsonrpc\":"@ + r.jsonrpc + ",\"id\":"@ + r.id + ",\"result\":{\"timestamp\":"@ + decimal(
        r.timestamp,
    ) + ",\"results\":"@ + framed_list(framed_outcomes(r.results)) + "}}"@
}

/// The response with a JSON string literal in place of each text.
pub open spec fn quoted_response(r: ResponseView) -> ResponseView {
    ResponseView {
        jsonrpc: json_string(r.jsonrpc),
        id: json_string(r.id),
        timestamp: r.timestamp,
        results: quoted_all(r.results),
    }
}

/// The JSON object that stands for a response.
pub open spec fn response_json(r: ResponseView) -> Seq<char> {
    framed_response(quoted_response(r))
}

impl RPCResponse {
    /// The response with a JSON string literal in place of each text.
    pub fn quoted(&self) -> (r: Result<RPCResponse, EncodeError>)
        ensures
            r matches Ok(q) && q@ == quoted_response(self@),
    {
        let jsonrpc = quote(self.jsonrpc.as_str())?;
        let id = quote(self.id.as_str())?;
        let mut results: Vec<RPCResultInternal> = Vec::new();
        let mut i: usize = 0;
        while i < self.result.results.len()
            invariant
                i <= self.result.results.len(),
                results.len() == i,
                forall|j: int|
                    0 <= j < i ==> (#[trigger] results@[j]).kind@ == json_string(
                        self.result.results@[j].kind@,
                    ),
            decreases self.result.results.len() - i,
        {
            let kind = quote(self.result.results[i].kind.as_str())?;
            results.push(RPCResultInternal { kind });
            i = i + 1;
        }
        let q = RPCResponse {
            jsonrpc,
            id,
            result: RPCResult { timestamp: self.result.timestamp, results },
        };
        assert(q@.results =~= quoted_all(self@.results));
        Ok(q)
    }

    /// The JSON object of a response whose texts are literals already.
    pub fn framed(&self) -> (r: String)
        ensures
            r@ == framed_response(self@),
    {
        let mut items: Vec<String> = Vec::new();
        let mut i: usize = 0;
        while i < self.result.results.len()
            invariant
                i <= self.result.results.len(),
                items.len() == i,
                forall|j: int|
                    0 <= j < i ==> (#[trigger] items@[j])@ == "{\"type\":"@
                        + self.result.results@[j].kind@ + "}"@,
            decreases self.result.results.len() - i,
        {
            let mut item = String::new();
            item.append("{\"type\":");
            item.append(self.result.results[i].kind.as_str());
            item.append("}");
            assert(item@ =~= "{\"type\":"@ + self.result.results@[i as int].kind@ + "}"@);
            items.push(item);
            i = i + 1;
        }
        assert(texts(items@) =~= framed_outcomes(self@.results));
        let mut out = String::new();
        out.append("{\"jsonrpc\":");
        out.append(self.jsonrpc.as_str());
        out.append(",\"id\":");
        out.append(self.id.as_str());
        out.append(",\"result\":{\"timestamp\":");
        let stamp = decimal_string(self.result.timestamp);
        out.append(stamp.as_str());
        out.append(",\"results\":");
        push_list(&mut out, &items);
        out.append("}}");
        assert(out@ =~= framed_response(self@));
        out
    }

    /// The JSON object that stands for the response.
    pub fn to_json(&self) -> (r: Result<String, EncodeError>)
        ensures
            r matches Ok(j) && j@ == response_json(self@),
    {
        let q = self.quoted()?;
        Ok(q.framed())
    }
}

/// Every item of `kinds` holds a text.
pub open spec fn all_present(kinds: Seq<Option<Seq<char>>>) -> bool {
    forall|i: int| 0 <= i < kinds.len() ==> (#[trigger] kinds[i]) is Some
}

/// The response that the members of a document make up: one where the
/// version, the id, the timestamp and the list of outcomes are all there,
/// and every outcome has its kind.
pub open spec fn assembled(m: MembersView) -> Option<ResponseView> {
    if m.version is Some && m.id is Some && m.timestamp is Some && m.kinds is Some && all_present(
        m.kinds->0,
    ) {
        Some(
            ResponseView {
                jsonrpc: m.version->0,
                id: m.id->0,
                timestamp: m.timestamp->0 as nat,
                results: Seq::new(m.kinds->0.len(), |i: int| m.kinds->0[i]->0),
            },
        )
    } else {
        None
    }
}

/// The response that a line holds: the document's members `jsonrpc` and
/// `id`, both strings, and within its member `result` the unsigned number
/// `timestamp` and the list `results`, each item with its string `type`.
/// Other members are passed over. Nothing where the line is no JSON
/// document or lacks one of these.
pub open spec fn response_in(line: Seq<char>) -> Option<ResponseView> {
    match json_members(
        line,
        "/jsonrpc"@,
        "/id"@,
        "/result/timestamp"@,
        "/result/results"@,
        "/type"@,
    ) {
        Some(m) => assembled(m),
        None => None,
    }
}

impl RPCResponse {
    /// The response that the members of a document make up, if they make
    /// up one.
    pub fn assemble(m: Members) -> (r: Option<RPCResponse>)
        ensures
            match r {
                Some(response) => assembled(m@) == Some(response@),
                None => assembled(m@) is None,
            },
    {
        let Members { version, id, timestamp, kinds } = m;
        let (jsonrpc, id, timestamp, kinds) = match (version, id, timestamp, kinds) {
            (Some(v), Some(i), Some(t), Some(k)) => (v, i, t, k),
            _ => return None,
        };
        let ghost given = m@.kinds->0;
        let mut kinds = kinds;
        let mut reversed: Vec<String> = Vec::new();
        while kinds.len() > 0
            invariant
                m@.kinds == Some(given),
                kinds.len() + reversed.len() == given.len(),
                forall|j: int|
                    0 <= j < kinds.len() ==> option_text(#[trigger] kinds@[j]) == given[j],
                forall|j: int|
                    0 <= j < reversed.len() ==> given[given.len() - 1 - j] == Some(
                        (#[trigger] reversed@[j])@,
                    ),
            decreases kinds.len(),
        {
            match kinds.pop() {
                Some(Some(kind)) => {
                    reversed.push(kind);
                },
                _ => {
                    assert(given[kinds.len() as int] is None);
                    assert(!all_present(given));
                    return None;
                },
            }
        }
        let mut results: Vec<RPCResultInternal> = Vec::new();
        while reversed.len() > 0
            invariant
                results.len() + reversed.len() == given.len(),
                forall|j: int|
                    0 <= j < reversed.len() ==> given[given.len() - 1 - j] == Some(
                        (#[trigger] reversed@[j])@,
                    ),
                forall|j: int|
                    0 <= j < results.len() ==> given[j] == Some((#[trigger] results@[j]).kind@),
            decreases reversed.len(),
        {
            match reversed.pop() {
                Some(kind) => {
                    results.push(RPCResultInternal { kind });
                },
                None => {},
            }
        }
        assert forall|j: int| 0 <= j < given.len() implies (#[trigger] given[j]) == Some(
            results@[j].kind@,
        ) by {
            assert(given[j] == Some(results@[j].kind@));
        }
        let response = RPCResponse { jsonrpc, id, result: RPCResult { timestamp, results } };
        assert(response@.results =~= Seq::new(given.len(), |i: int| given[i]->0));
        Some(response)
    }

    /// The response that a line holds, if it holds one.
    pub fn decode(line: &str) -> (r: Option<RPCResponse>)
        ensures
            match r {
                Some(response) => response_in(line@) == Some(response@),
                None => response_in(line@) is None,
            },
    {
        match members(line, "/jsonrpc", "/id", "/result/timestamp", "/result/results", "/type") {
            Some(m) => RPCResponse::assemble(m),
            None => None,
        }
    }
}

/// A lower-case hexadecimal digit.
pub open spec fn is_hex_digit(c: char) -> bool {
    ('0' <= c && c <= '9') || ('a' <= c && c <= 'f')
}

/// The shape of a request id: thirty-two lower-case hexadecimal digits in
/// groups of 8, 4, 4, 4 and 12 with a hyphen between each two, the third
/// group beginning with 4 and the fourth with 8, 9, a or b.
pub open spec fn is_request_id(s: Seq<char>) -> bool {
    &&& s.len() == 36
    &&& forall|i: int|
        0 <= i < 36 ==> if i == 8 || i == 13 || i == 18 || i == 23 {
            s[i] == '-'
        } else {
            is_hex_digit(#[trigger] s[i])
        }
    &&& s[14] == '4'
    &&& (s[19] == '8' || s[19] == '9' || s[19] == 'a' || s[19] == 'b')
}

/// Calls `uuid::Uuid::new_v4` and renders the identifier with
/// `as_hyphenated`. The identifier is random, so the contract states only
/// its shape: that of a version 4 identifier in lower case with hyphens.
/// The call panics where the system hands out no random bytes.
#[verifier::external_body]
fn fresh_request_id() -> (id: String)
    ensures
        is_request_id(id@),
{
    uuid::Uuid::new_v4().as_hyphenated().to_string()
}

/// The command `c` with the id `id`.
pub open spec fn with_id(c: CommandView, id: Seq<char>) -> CommandView {
    CommandView { jsonrpc: c.jsonrpc, id, method: c.method, params: c.params }
}

/// A command on its way to the daemon: the id it was given, the line to
/// write, and the call that had to leave the table because it waited under
/// the same id.
#[derive(Debug)]
pub struct Outgoing<T> {
    pub id: String,
    pub line: String,
    pub displaced: Option<T>,
}

/// What became of a line that was read from the daemon.
#[derive(Debug)]
pub enum Received<T> {
    /// The line held nothing but white space.
    Skipped,
    /// The line did not hold a response.
    Discarded,
    /// The line held a response that no call waits for.
    Orphan(RPCResponse),
    /// The line held the response that this call waited for.
    Delivered(T, RPCResponse),
}

/// The connection to the daemon as far as it decides: which calls wait for
/// a response, and under which id. `T` is what a call waits on.
pub struct Connection<T> {
    pending: PendingTable<T>,
}

impl<T> Connection<T> {
    /// The calls that wait for a response, each under its id.
    pub closed spec fn pending(&self) -> Map<Seq<char>, T> {
        self.pending@
    }

    /// A connection on which no call waits.
    pub fn new() -> (r: Self)
        ensures
            r.pending() == Map::<Seq<char>, T>::empty(),
    {
        Connection { pending: PendingTable::new() }
    }

    /// Whether a call waits under `id`.
    pub fn is_pending(&self, id: &str) -> (r: bool)
        ensures
            r == self.pending().contains_key(id@),
    {
        self.pending.contains(id)
    }

    /// Sends `command` under the id `id`: the command gets the id, whatever
    /// id it carried, the call `reply` waits under it from now on, and the
    /// line to write is the command with that id. A command that cannot be
    /// written as a line leaves the table as it was.
    pub fn send_with_id(&mut self, command: RPCCommand, id: String, reply: T) -> (r: Result<
        Outgoing<T>,
        EncodeError,
    >)
        ensures
            r is Ok,
            match r {
                Ok(o) => {
                    &&& o.id == id
                    &&& o.line@ == command_line(with_id(command@, id@))
                    &&& one_line(command_json(with_id(command@, id@)))
                    &&& o.displaced == waiting(old(self).pending(), id@)
                    &&& final(self).pending() == apply(
                        old(self).pending(),
                        TableOp::Register { id: id@, reply },
                    )
                },
                Err(_) => final(self).pending() == old(self).pending(),
            },
    {
        let mut command = command;
        command.with_id(id.clone());
        let line = command.to_line()?;
        let displaced = self.pending.insert(id.clone(), reply);
        Ok(Outgoing { id, line, displaced })
    }

    /// Sends `command` under a fresh id.
    pub fn send_command(&mut self, command: RPCCommand, reply: T) -> (r: Result<
        Outgoing<T>,
        EncodeError,
    >)
        ensures
            r is Ok,
            match r {
                Ok(o) => {
                    &&& is_request_id(o.id@)
                    &&& o.line@ == command_line(with_id(command@, o.id@))
                    &&& one_line(command_json(with_id(command@, o.id@)))
                    &&& o.displaced == waiting(old(self).pending(), o.id@)
                    &&& final(self).pending() == apply(
                        old(self).pending(),
                        TableOp::Register { id: o.id@, reply },
                    )
                },
                Err(_) => final(self).pending() == old(self).pending(),
            },
    {
        let id = fresh_request_id();
        self.send_with_id(command, id, reply)
    }

    /// The command under `id` could not be written: its call gives up and
    /// is handed back, if it still waits.
    pub fn write_failed(&mut self, id: &str) -> (r: Option<T>)
        ensures
            r == waiting(old(self).pending(), id@),
            final(self).pending() == apply(old(self).pending(), TableOp::Abandon { id: id@ }),
    {
        self.pending.remove(id)
    }

    /// Whether a line that was read carries anything: a line of nothing but
    /// white space, which is one that is empty once trimmed, is skipped.
    pub fn carries_payload(line: &str) -> (r: bool)
        ensures
            r == !is_blank(line@),
            r == (trimmed(line@).len() > 0),
    {
        proof {
            lemma_trimmed_empty(line@);
        }
        !blank(line)
    }

    /// A line was read. A blank line is skipped and a line that holds no
    /// response is discarded. A response is handed, with the call that
    /// waited under its id, to whoever completes the call, and the call
    /// leaves the table. A response that no call waits for changes nothing.
    pub fn on_line(&mut self, line: &str) -> (r: Received<T>)
        ensures
            match r {
                Received::Skipped => {
                    &&& is_blank(line@)
                    &&& final(self).pending() == old(self).pending()
                },
                Received::Discarded => {
                    &&& !is_blank(line@)
                    &&& response_in(line@) is None
                    &&& final(self).pending() == old(self).pending()
                },
                Received::Orphan(response) => {
                    &&& !is_blank(line@)
                    &&& response_in(line@) == Some(response@)
                    &&& waiting(old(self).pending(), response.id@) is None
                    &&& final(self).pending() == old(self).pending()
                },
                Received::Delivered(reply, response) => {
                    &&& !is_blank(line@)
                    &&& response_in(line@) == Some(response@)
                    &&& waiting(old(self).pending(), response.id@) == Some(reply)
                    &&& final(self).pending() == apply(
                        old(self).pending(),
                        TableOp::Respond { id: response.id@ },
                    )
                },
            },
    {
        if blank(line) {
            return Received::Skipped;
        }
        match RPCResponse::decode(line) {
            None => Received::Discarded,
            Some(response) => match self.pending.remove(response.id.as_str()) {
                Some(reply) => Received::Delivered(reply, response),
                None => {
                    assert(old(self).pending().remove(response.id@) =~= old(self).pending());
                    Received::Orphan(response)
                },
            },
        }
    }

    /// A response arrived: the call that waits under its id is taken out of
    /// the table and handed back with the response. Where no call waits
    /// under the id, nothing changes and the response is dropped.
    pub fn deliver(&mut self, response: RPCResponse) -> (r: Option<(T, RPCResponse)>)
        ensures
            final(self).pending() == apply(
                old(self).pending(),
                TableOp::Respond { id: response.id@ },
            ),
            match r {
                Some((reply, given)) => waiting(old(self).pending(), response.id@) == Some(reply)
                    && given == response,
                None => waiting(old(self).pending(), response.id@) is None,
            },
    {
        match self.pending.remove(response.id.as_str()) {
            Some(reply) => Some((reply, response)),
            None => None,
        }
    }
}

} // verus!
