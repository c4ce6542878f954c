//! Webhook events of third parties, forwarded as messages.

use crate::json::EncodeError;
use crate::signal::pending::{apply, waiting, TableOp};
use crate::signal::socket::{command_line, is_request_id, user_send, with_id, Outgoing, RPCCommand};
use crate::signal::Signal;
use vstd::prelude::*;

pub mod github;

verus! {

/// An event that can be shown to a person as one message.
pub trait WebhookPayload {
    /// The text that stands for the event.
    spec fn message(&self) -> Seq<char>;

    /// Renders the event as the text of a message.
    fn to_string(&self) -> (s: String)
        ensures
            s@ == self.message(),
    ;
}

/// Sends the event `payload` as a message from `sender` to the person at
/// `recipient`: the call `reply` waits for the response, and the line to
/// write is handed back.
pub fn notify_user<T, P: WebhookPayload>(
    signal: &mut Signal<T>,
    payload: &P,
    sender: &str,
    recipient: &str,
    reply: T,
) -> (r: Result<Outgoing<T>, EncodeError>)
    ensures
        r is Ok,
        match r {
            Ok(o) => {
                &&& is_request_id(o.id@)
                &&& o.line@ == command_line(
                    with_id(user_send(sender@, recipient@, payload.message()), o.id@),
                )
                &&& o.displaced == waiting(old(signal).pending(), o.id@)
                &&& final(signal).pending() == apply(
                    old(signal).pending(),
                    TableOp::Register { id: o.id@, reply },
                )
            },
            Err(_) => final(signal).pending() == old(signal).pending(),
        },
        final(signal).manager() == old(signal).manager(),
{
    let text = payload.to_string();
    let command = RPCCommand::send_user(sender, recipient, text.as_str());
    signal.send_command(command, reply)
}

} // verus!
