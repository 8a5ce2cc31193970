//! Setting up the phone's parts: what is to be done when the application starts, and when the
//! system revives its service.

use vstd::prelude::*;

use crate::keepalive::{noted, record_keepalive_check, KeepaliveLog};
use crate::lan_server::{
    ensure_started, lan_server_is_running, request_lan_server_restart, LanServer, LanState, Restart,
};

verus! {

/// Which of the phone's parts are set up.
#[derive(Clone, Copy, Debug, PartialEq, Eq, Structural)]
pub struct Backend {
    /// There is a coordinator of dictations.
    pub coordinator: bool,
    /// The start-up has been gone through.
    pub ready: bool,
    /// The runtime of the service was handed to the application.
    pub runtime_set: bool,
    /// The watchdog runs.
    pub watchdog: bool,
}

/// What a start-up calls for, in this order.
#[derive(Clone, Copy, Debug, PartialEq, Eq, Structural)]
pub struct StartupPlan {
    /// Hand the runtime of the service to the application.
    pub set_runtime: bool,
    /// Spawn the listener.
    pub spawn_listener: bool,
    /// Promote the service to the foreground.
    pub promote_recording: bool,
    /// Bring up the overlay.
    pub apply_overlay: bool,
    /// Start the watchdog.
    pub start_watchdog: bool,
}

/// What the revival of the service calls for.
#[derive(Clone, Copy, Debug, PartialEq, Eq, Structural)]
pub enum Revival {
    /// Everything is set up. Spawn the listener if it is asked for.
    Ready { spawn_listener: bool },
    /// Prepare the context, the storage and the log, and go through the start-up.
    Initialize,
}

impl Backend {
    /// With nothing set up.
    pub open spec fn bare() -> Backend {
        Backend { coordinator: false, ready: false, runtime_set: false, watchdog: false }
    }

    /// With nothing set up.
    pub fn new() -> (r: Backend)
        ensures
            r == Backend::bare(),
    {
        Backend { coordinator: false, ready: false, runtime_set: false, watchdog: false }
    }

    /// Asks for the coordinator. The result says whether it is to be created; there is one from
    /// then on.
    pub fn claim_coordinator(&mut self) -> (create: bool)
        ensures
            create == !old(self).coordinator,
            *final(self) == (Backend { coordinator: true, ..*old(self) }),
    {
        let create: bool = !self.coordinator;
        self.coordinator = true;
        create
    }

    /// After the application started.
    pub open spec fn launched(self) -> Backend {
        Backend { coordinator: true, ready: true, watchdog: true, ..self }
    }

    /// What the start of the application calls for.
    pub open spec fn launch_plan(
        self,
        server: LanServer<Seq<char>>,
        keepalive_enabled: bool,
    ) -> StartupPlan {
        StartupPlan {
            set_runtime: false,
            spawn_listener: server.state == LanState::Idle,
            promote_recording: keepalive_enabled,
            apply_overlay: !self.ready,
            start_watchdog: !self.watchdog,
        }
    }

    /// After the service was revived.
    pub open spec fn revived(self) -> Backend {
        Backend { coordinator: true, ready: true, runtime_set: true, watchdog: true }
    }

    /// What the revival of the service calls for, where the start-up has not been gone through.
    pub open spec fn revival_plan(
        self,
        server: LanServer<Seq<char>>,
        keepalive_enabled: bool,
    ) -> StartupPlan {
        StartupPlan {
            set_runtime: !self.runtime_set,
            spawn_listener: server.state == LanState::Idle,
            promote_recording: keepalive_enabled,
            apply_overlay: true,
            start_watchdog: !self.watchdog,
        }
    }
}

/// The application starts. `keepalive_enabled` is whether the coordinator is set to keep the phone
/// alive by a notification.
pub fn run(backend: &mut Backend, server: &mut LanServer<String>, keepalive_enabled: bool) -> (r:
    StartupPlan)
    ensures
        r == old(backend).launch_plan(old(server)@, keepalive_enabled),
        *final(backend) == old(backend).launched(),
        final(server)@ == old(server)@.called_for(),
{
    let plan: StartupPlan = StartupPlan {
        set_runtime: false,
        spawn_listener: ensure_started(server),
        promote_recording: keepalive_enabled,
        apply_overlay: !backend.ready,
        start_watchdog: !backend.watchdog,
    };
    backend.coordinator = true;
    backend.ready = true;
    backend.watchdog = true;
    plan
}

/// The system revived the service: looks whether everything is set up, and where it is, sees to
/// the listener and notes whether it listens.
pub fn ensure_android_backend(
    backend: &Backend,
    server: &mut LanServer<String>,
    log: &mut KeepaliveLog<String>,
) -> (r: Revival)
    ensures
        !backend.ready ==> {
            &&& r == Revival::Initialize
            &&& final(server)@ == old(server)@
            &&& final(log)@ == old(log)@
        },
        backend.ready ==> {
            &&& r == (Revival::Ready {
                spawn_listener: backend.coordinator && old(server).state == LanState::Idle,
            })
            &&& final(server)@ == if backend.coordinator {
                old(server)@.called_for()
            } else {
                old(server)@
            }
            &&& if old(server).state == LanState::Listening {
                noted(final(log)@, true, "backend ready, lan server listening"@)
            } else {
                noted(final(log)@, false, "backend ready, lan server not listening"@)
            }
        },
{
    if !backend.ready {
        return Revival::Initialize;
    }
    let spawn_listener: bool = if backend.coordinator {
        ensure_started(server)
    } else {
        false
    };
    if lan_server_is_running(server) {
        record_keepalive_check(log, true, "backend ready, lan server listening");
    } else {
        record_keepalive_check(log, false, "backend ready, lan server not listening");
    }
    Revival::Ready { spawn_listener }
}

/// What is told of a native context that could not be had. The service is then not revived, and
/// everything stays as it is.
pub fn native_context_failure(error: &str) -> (r: String)
    ensures
        r@ == "get Android JVM: "@ + error@,
{
    "get Android JVM: ".to_string().concat(error)
}

/// Goes through the start-up for a revived service, once its context is there.
pub fn initialize_android_backend(
    backend: &mut Backend,
    server: &mut LanServer<String>,
    log: &mut KeepaliveLog<String>,
    keepalive_enabled: bool,
) -> (r: StartupPlan)
    ensures
        r == old(backend).revival_plan(old(server)@, keepalive_enabled),
        *final(backend) == old(backend).revived(),
        final(server)@ == old(server)@.called_for(),
        noted(final(log)@, true, "backend initialized from service"@),
{
    let plan: StartupPlan = StartupPlan {
        set_runtime: !backend.runtime_set,
        spawn_listener: ensure_started(server),
        promote_recording: keepalive_enabled,
        apply_overlay: true,
        start_watchdog: !backend.watchdog,
    };
    *backend = Backend { coordinator: true, ready: true, runtime_set: true, watchdog: true };
    record_keepalive_check(log, true, "backend initialized from service");
    plan
}

/// Asks for a restart of the listener, which takes a coordinator.
pub fn request_android_lan_server_restart(backend: &Backend, server: &mut LanServer<String>) -> (r:
    Result<Restart, String>)
    ensures
        match r {
            Ok(restart) => {
                &&& backend.coordinator
                &&& final(server)@ == old(server)@.restarted()
                &&& restart.spawn == (old(server).state == LanState::Idle)
                &&& restart.signal_shutdown == (old(server).state == LanState::Idle
                    && old(server).shutdown_held)
            },
            Err(error) => {
                &&& !backend.coordinator
                &&& final(server)@ == old(server)@
                &&& error@ == "Android backend not initialized"@
            },
        },
{
    if !backend.coordinator {
        return Err("Android backend not initialized".to_string());
    }
    Ok(request_lan_server_restart(server))
}

/// The parts are set up once: after a first start-up, of whichever kind, no further one creates
/// another coordinator, starts another watchdog or spawns another listener beside the first.
pub proof fn parts_are_set_up_once(
    backend: Backend,
    server: LanServer<Seq<char>>,
    keepalive_enabled: bool,
)
    ensures
        ({
            let again = backend.launched().launch_plan(server.called_for(), keepalive_enabled);
            !again.start_watchdog && !again.spawn_listener && !again.apply_overlay
        }),
        ({
            let again = backend.revived().launch_plan(server.called_for(), keepalive_enabled);
            !again.start_watchdog && !again.spawn_listener && !again.apply_overlay
        }),
        backend.launched().ready && backend.revived().ready,
        backend.launched().coordinator && backend.revived().coordinator,
{
}

/// A start-up: the application starts, or the system revives the service.
#[derive(Clone, Copy, Debug, PartialEq, Eq, Structural)]
pub enum Startup {
    Launch,
    Revival,
}

impl Backend {
    /// After a start-up. A revival finds everything set up where one went before it.
    pub open spec fn started(self, startup: Startup) -> Backend {
        match startup {
            Startup::Launch => self.launched(),
            Startup::Revival => if self.ready {
                self
            } else {
                self.revived()
            },
        }
    }

    /// Whether a start-up starts a watchdog.
    pub open spec fn starts_watchdog(self, startup: Startup) -> bool {
        !self.watchdog && (startup == Startup::Launch || !self.ready)
    }
}

/// How many watchdogs these start-ups start, one after the other.
pub open spec fn watchdogs_started(backend: Backend, startups: Seq<Startup>) -> nat
    decreases startups.len(),
{
    if startups.len() == 0 {
        0
    } else {
        let first: nat = if backend.starts_watchdog(startups.first()) {
            1
        } else {
            0
        };
        first + watchdogs_started(backend.started(startups.first()), startups.drop_first())
    }
}

/// There is exactly one watchdog, however many start-ups there are and of whichever kind.
pub proof fn there_is_one_watchdog(startups: Seq<Startup>)
    requires
        startups.len() > 0,
    ensures
        watchdogs_started(Backend::bare(), startups) == 1,
{
    lemma_no_more_watchdogs(
        Backend::bare().started(startups.first()),
        startups.drop_first(),
    );
}

proof fn lemma_no_more_watchdogs(backend: Backend, startups: Seq<Startup>)
    requires
        backend.watchdog,
    ensures
        watchdogs_started(backend, startups) == 0,
    decreases startups.len(),
{
    if startups.len() > 0 {
        lemma_no_more_watchdogs(backend.started(startups.first()), startups.drop_first());
    }
}

/// What starts a watchdog is what the plans of the start-ups say.
pub proof fn watchdogs_go_by_the_plans(
    backend: Backend,
    server: LanServer<Seq<char>>,
    keepalive_enabled: bool,
)
    ensures
        backend.starts_watchdog(Startup::Launch) == backend.launch_plan(
            server,
            keepalive_enabled,
        ).start_watchdog,
        backend.starts_watchdog(Startup::Revival) == (!backend.ready && backend.revival_plan(
            server,
            keepalive_enabled,
        ).start_watchdog),
{
}

} // verus!
