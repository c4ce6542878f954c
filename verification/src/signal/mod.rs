//! The messaging account behind its daemon: the commands it takes, the
//! connection that carries them, the daemon's lifecycle and linking.

use crate::json::EncodeError;
use crate::signal::daemon::{
    step, DaemonAction, DaemonEvent, DaemonInput, DaemonManager, DaemonRequest, ManagerState,
};
use crate::signal::link::{link_begins, LinkSession};
use crate::signal::pending::{apply, waiting, TableOp};
use crate::signal::socket::{
    command_json, command_line, is_request_id, response_in, response_json, with_id, Connection,
    Outgoing, RPCCommand, RPCResponse, Received,
};
use crate::text::is_blank;
use vstd::prelude::*;

pub mod daemon;
pub mod link;
pub mod pending;
pub mod socket;

verus! {

/// The account as the rest of the program sees it: one daemon and one
/// connection to it. `T` is what a call waits on for its response.
pub struct Signal<T> {
    manager: DaemonManager,
    connection: Connection<T>,
}

impl<T> Signal<T> {
    /// The state of the daemon's manager.
    pub closed spec fn manager(&self) -> ManagerState {
        self.manager@
    }

    /// The calls that wait for a response, each under its id.
    pub closed spec fn pending(&self) -> Map<Seq<char>, T> {
        self.connection.pending()
    }

    /// An account whose daemon is about to be spawned and on whose
    /// connection no call waits. The program spawns the daemon and reports
    /// what came of it.
    pub fn new() -> (r: Self)
        ensures
            r.manager() == daemon::at(daemon::Phase::Spawning),
            r.pending() == Map::<Seq<char>, T>::empty(),
    {
        let mut manager = DaemonManager::new();
        let _ = manager.start();
        Signal { manager, connection: Connection::new() }
    }

    /// Asks for the daemon to be stopped and started again, as one
    /// operation. The connection is left alone.
    pub fn restart(&mut self, pid: Option<u32>) -> (action: DaemonAction)
        ensures
            (final(self).manager(), action) == step(
                old(self).manager(),
                DaemonInput::Request(DaemonRequest::Restart(pid)),
            ),
            final(self).pending() == old(self).pending(),
    {
        self.manager.restart(pid)
    }

    /// Asks for the daemon to be stopped. The connection is left alone.
    pub fn stop(&mut self, pid: Option<u32>) -> (action: DaemonAction)
        ensures
            (final(self).manager(), action) == step(
                old(self).manager(),
                DaemonInput::Request(DaemonRequest::Stop(pid)),
            ),
            final(self).pending() == old(self).pending(),
    {
        self.manager.stop(pid)
    }

    /// Hands an event of the daemon to its manager.
    pub fn on_daemon_event(&mut self, event: DaemonEvent) -> (action: DaemonAction)
        ensures
            (final(self).manager(), action) == step(old(self).manager(), DaemonInput::Event(event)),
            final(self).pending() == old(self).pending(),
    {
        self.manager.on_event(event)
    }

    /// Sends `command` under a fresh id: the call `reply` waits for the
    /// response with that id, and the line to write is handed back. The
    /// daemon's manager is left alone.
    pub fn send_command(&mut self, command: RPCCommand, reply: T) -> (r: Result<
        Outgoing<T>,
        EncodeError,
    >)
        ensures
            r is Ok,
            match r {
                Ok(o) => {
                    &&& is_request_id(o.id@)
                    &&& o.line@ == command_line(with_id(command@, o.id@))
                    &&& crate::json::one_line(command_json(with_id(command@, o.id@)))
                    &&& o.displaced == waiting(old(self).pending(), o.id@)
                    &&& final(self).pending() == apply(
                        old(self).pending(),
                        TableOp::Register { id: o.id@, reply },
                    )
                },
                Err(_) => final(self).pending() == old(self).pending(),
            },
            final(self).manager() == old(self).manager(),
    {
        self.connection.send_command(command, reply)
    }

    /// The command under `id` could not be written: its call gives up and
    /// is handed back, if it still waits.
    pub fn write_failed(&mut self, id: &str) -> (r: Option<T>)
        ensures
            r == waiting(old(self).pending(), id@),
            final(self).pending() == apply(old(self).pending(), TableOp::Abandon { id: id@ }),
            final(self).manager() == old(self).manager(),
    {
        self.connection.write_failed(id)
    }

    /// A line was read from the daemon: see `Connection::on_line`. The
    /// daemon's manager is left alone.
    pub fn on_line(&mut self, line: &str) -> (r: Received<T>)
        ensures
            final(self).manager() == old(self).manager(),
            match r {
                Received::Skipped => {
                    &&& is_blank(line@)
                    &&& final(self).pending() == old(self).pending()
                },
                Received::Discarded => {
                    &&& !is_blank(line@)
                    &&& response_in(line@) is None
                    &&& final(self).pending() == old(self).pending()
                },
                Received::Orphan(response) => {
                    &&& !is_blank(line@)
                    &&& response_in(line@) == Some(response@)
                    &&& waiting(old(self).pending(), response.id@) is None
                    &&& final(self).pending() == old(self).pending()
                },
                Received::Delivered(reply, response) => {
                    &&& !is_blank(line@)
                    &&& response_in(line@) == Some(response@)
                    &&& waiting(old(self).pending(), response.id@) == Some(reply)
                    &&& final(self).pending() == apply(
                        old(self).pending(),
                        TableOp::Respond { id: response.id@ },
                    )
                },
            },
    {
        self.connection.on_line(line)
    }

    /// What the caller of a send gets once its response is there: the
    /// response as JSON text.
    pub fn response_text(response: &RPCResponse) -> (r: Result<String, EncodeError>)
        ensures
            r matches Ok(t) && t@ == response_json(response@),
    {
        response.to_json()
    }

    /// Begins a linking attempt. Neither the daemon nor the connection is
    /// touched until the attempt asks for a restart.
    pub fn link(&self) -> (r: LinkSession)
        ensures
            r@ == link_begins(),
    {
        crate::signal::link::link()
    }
}

} // verus!
