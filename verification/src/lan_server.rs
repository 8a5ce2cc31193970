//! The life of the phone's listener: idle, starting, listening.
//!
//! The functions decide; whoever calls them spawns the listener, binds the port and signals a
//! running listener to end, as their results say.

use vstd::prelude::*;

use crate::protocol::DEFAULT_PORT;
use crate::text::{decimal, decimal_text, text_of};

verus! {

/// How far the listener has come.
#[derive(Clone, Copy, Debug, PartialEq, Eq, Structural)]
pub enum LanState {
    Idle,
    Starting,
    Listening,
}

/// The state of the listener.
#[derive(Debug, PartialEq, Eq)]
pub struct LanServer<S> {
    pub state: LanState,
    /// Why the listener last failed; nothing while it has not.
    pub last_error: Option<S>,
    /// Whether there is a running listener that can be signalled to end.
    pub shutdown_held: bool,
}

impl View for LanServer<String> {
    type V = LanServer<Seq<char>>;

    open spec fn view(&self) -> LanServer<Seq<char>> {
        LanServer {
            state: self.state,
            last_error: text_of(self.last_error),
            shutdown_held: self.shutdown_held,
        }
    }
}

/// What a request for a restart calls for.
#[derive(Clone, Copy, Debug, PartialEq, Eq, Structural)]
pub struct Restart {
    /// Signal the running listener to end.
    pub signal_shutdown: bool,
    /// Spawn a new listener.
    pub spawn: bool,
}

/// The words for a port that could not be bound.
pub open spec fn bind_failure(error: Seq<char>) -> Seq<char> {
    "bind 0.0.0.0:"@ + decimal(DEFAULT_PORT as nat) + " failed: "@ + error
}

impl LanServer<Seq<char>> {
    /// The state at the beginning.
    pub open spec fn initial() -> Self {
        LanServer { state: LanState::Idle, last_error: None, shutdown_held: false }
    }

    /// Exactly a listening server can be signalled to end.
    pub open spec fn consistent(self) -> bool {
        self.shutdown_held <==> self.state == LanState::Listening
    }

    /// After a call for the listener: an idle server starts, any other stays as it is.
    pub open spec fn called_for(self) -> Self {
        if self.state == LanState::Idle {
            LanServer { state: LanState::Starting, ..self }
        } else {
            self
        }
    }

    /// After the port was bound.
    pub open spec fn bound(self) -> Self {
        LanServer { state: LanState::Listening, last_error: None, shutdown_held: true }
    }

    /// After the port could not be bound.
    pub open spec fn failed(self, error: Seq<char>) -> Self {
        LanServer { state: LanState::Idle, last_error: Some(bind_failure(error)), ..self }
    }

    /// After a request for a restart: only an idle server heeds it.
    pub open spec fn restarted(self) -> Self {
        if self.state == LanState::Idle {
            LanServer { state: LanState::Starting, shutdown_held: false, ..self }
        } else {
            self
        }
    }

    /// After the listener was declared lost.
    pub open spec fn lost(self) -> Self {
        LanServer {
            state: LanState::Idle,
            last_error: Some("自测：模拟 LAN 服务丢失"@),
            shutdown_held: false,
        }
    }
}

impl LanServer<String> {
    /// A server that was never started.
    pub fn new() -> (r: Self)
        ensures
            r@ == LanServer::<Seq<char>>::initial(),
    {
        LanServer { state: LanState::Idle, last_error: None, shutdown_held: false }
    }

    /// The port is bound: the server listens, and the last failure is forgotten.
    pub fn listener_bound(&mut self)
        ensures
            final(self)@ == old(self)@.bound(),
    {
        self.state = LanState::Listening;
        self.last_error = None;
        self.shutdown_held = true;
    }

    /// The port could not be bound: the server is idle again, and may be started anew.
    pub fn bind_failed(&mut self, error: &str)
        ensures
            final(self)@ == old(self)@.failed(error@),
    {
        let message: String = "bind 0.0.0.0:".to_string().concat(
            decimal_text(DEFAULT_PORT as u32).as_str(),
        ).concat(" failed: ").concat(error);
        self.state = LanState::Idle;
        self.last_error = Some(message);
    }
}

/// Starts the server. The result says whether a listener is to be spawned.
pub fn start(server: &mut LanServer<String>) -> (spawn: bool)
    ensures
        spawn == (old(server).state == LanState::Idle),
        final(server)@ == old(server)@.called_for(),
{
    ensure_started(server)
}

/// Starts the server unless it is starting or listening already; a server that failed may be
/// started again. The result says whether a listener is to be spawned.
pub fn ensure_started(server: &mut LanServer<String>) -> (spawn: bool)
    ensures
        spawn == (old(server).state == LanState::Idle),
        final(server)@ == old(server)@.called_for(),
{
    if server.state != LanState::Idle {
        return false;
    }
    server.state = LanState::Starting;
    true
}

/// Whether the server listens.
pub fn lan_server_is_running(server: &LanServer<String>) -> (r: bool)
    ensures
        r == (server.state == LanState::Listening),
{
    server.state == LanState::Listening
}

/// Why the server last failed; nothing where it did not.
pub fn lan_server_last_error(server: &LanServer<String>) -> (r: Option<String>)
    ensures
        text_of(r) == server@.last_error,
{
    server.last_error.clone()
}

/// Starts a server anew that neither listens nor is starting.
pub fn request_lan_server_restart(server: &mut LanServer<String>) -> (r: Restart)
    ensures
        r.spawn == (old(server).state == LanState::Idle),
        r.signal_shutdown == (old(server).state == LanState::Idle && old(server).shutdown_held),
        final(server)@ == old(server)@.restarted(),
{
    if lan_server_is_running(server) {
        return Restart { signal_shutdown: false, spawn: false };
    }
    if server.state == LanState::Starting {
        return Restart { signal_shutdown: false, spawn: false };
    }
    let signal_shutdown: bool = server.shutdown_held;
    server.shutdown_held = false;
    server.state = LanState::Idle;
    let spawn: bool = ensure_started(server);
    Restart { signal_shutdown, spawn }
}

/// Declares the listener lost, as a drill for the ways back. The result says whether the running
/// listener is to be signalled to end.
pub fn simulate_lan_server_loss(server: &mut LanServer<String>) -> (signal_shutdown: bool)
    ensures
        signal_shutdown == old(server).shutdown_held,
        final(server)@ == old(server)@.lost(),
{
    let signal_shutdown: bool = server.shutdown_held;
    server.shutdown_held = false;
    server.state = LanState::Idle;
    server.last_error = Some("自测：模拟 LAN 服务丢失".to_string());
    signal_shutdown
}

/// Starting is idempotent: once it was called for, another call changes nothing and spawns no
/// second listener.
pub proof fn starting_is_idempotent(server: LanServer<Seq<char>>)
    ensures
        server.called_for().called_for() == server.called_for(),
        server.called_for().state != LanState::Idle,
        server.bound().called_for() == server.bound(),
{
}

/// A server that failed to bind can be started again, and so can one that was lost; one that
/// listens or is starting is left alone by a request for a restart.
pub proof fn restart_after_failure(server: LanServer<Seq<char>>, error: Seq<char>)
    ensures
        server.failed(error).restarted().state == LanState::Starting,
        server.failed(error).called_for().state == LanState::Starting,
        server.lost().restarted().state == LanState::Starting,
        server.state != LanState::Idle ==> server.restarted() == server,
{
}

/// Every step keeps a server consistent: there is a listener to signal exactly while it listens.
pub proof fn steps_keep_consistency(server: LanServer<Seq<char>>, error: Seq<char>)
    requires
        server.consistent(),
    ensures
        LanServer::<Seq<char>>::initial().consistent(),
        server.called_for().consistent(),
        server.bound().consistent(),
        server.state == LanState::Starting ==> server.failed(error).consistent(),
        server.restarted().consistent(),
        server.lost().consistent(),
{
}

} // verus!
