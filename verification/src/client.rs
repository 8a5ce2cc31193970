//! The desktop's side: what a key does, how a session is begun and ended, and what is shown of it.

use vstd::prelude::*;

use crate::hint::{
    flash_trouble, trouble, Hint, AUX_RECORDING, AUX_RETRY, AUX_TRANSCRIBING,
};
use crate::protocol::{read_reply, reply_in, Incoming};
use crate::text::{is_text, same_text, text_of, trim, trimmed};

verus! {

/// What the client is at.
#[derive(Clone, Copy, Debug, PartialEq, Eq, Structural)]
pub enum ClientState {
    Idle,
    Recording,
    Stopping,
}

/// How a session ended.
#[derive(Debug, PartialEq, Eq)]
pub enum SessionEvent<S> {
    Stopped,
    Cancelled,
    Failed(S),
    Lost(S),
}

impl View for SessionEvent<String> {
    type V = SessionEvent<Seq<char>>;

    open spec fn view(&self) -> SessionEvent<Seq<char>> {
        match self {
            SessionEvent::Stopped => SessionEvent::Stopped,
            SessionEvent::Cancelled => SessionEvent::Cancelled,
            SessionEvent::Failed(message) => SessionEvent::Failed(message@),
            SessionEvent::Lost(message) => SessionEvent::Lost(message@),
        }
    }
}

/// What the parts of the client share.
#[derive(Debug, PartialEq, Eq)]
pub struct Shared<S> {
    /// The address of the session there is.
    pub active: Option<S>,
    /// The address of the phone that was found.
    pub discovered: Option<S>,
    /// Whether the next phone that is found is to be announced.
    pub announce: bool,
}

impl View for Shared<String> {
    type V = Shared<Seq<char>>;

    open spec fn view(&self) -> Shared<Seq<char>> {
        Shared {
            active: text_of(self.active),
            discovered: text_of(self.discovered),
            announce: self.announce,
        }
    }
}

impl Shared<Seq<char>> {
    /// Without the phone at this address, if it is the one that was found.
    pub open spec fn forgetting(self, address: Seq<char>) -> Self {
        Shared {
            discovered: if self.discovered == Some(address) {
                None
            } else {
                self.discovered
            },
            ..self
        }
    }
}

impl Shared<String> {
    /// With no session, and no phone found.
    pub fn new() -> (r: Self)
        ensures
            r@.active is None,
            r@.discovered is None,
            !r@.announce,
    {
        Shared { active: None, discovered: None, announce: false }
    }

    /// Forgets the phone at this address, if it is the one that was found.
    pub fn forget(&mut self, address: &str)
        ensures
            final(self)@ == old(self)@.forgetting(address@),
    {
        if is_text(&self.discovered, address) {
            self.discovered = None;
        }
    }

    /// There is no session any more.
    pub fn clear_active_session(&mut self)
        ensures
            final(self)@ == (Shared { active: None, ..old(self)@ }),
    {
        self.active = None;
    }
}

/// What a key calls for.
#[derive(Debug, PartialEq, Eq)]
pub enum KeyStep<S> {
    Ignore,
    /// Begin a session.
    Start,
    /// End the session at this address; nothing is to be done where there is none.
    Stop(Option<S>),
}

impl View for KeyStep<String> {
    type V = KeyStep<Seq<char>>;

    open spec fn view(&self) -> KeyStep<Seq<char>> {
        match self {
            KeyStep::Ignore => KeyStep::Ignore,
            KeyStep::Start => KeyStep::Start,
            KeyStep::Stop(address) => KeyStep::Stop(text_of(*address)),
        }
    }
}

/// The client between its keys and its sessions.
#[derive(Debug, PartialEq, Eq)]
pub struct Controller<S> {
    pub state: ClientState,
    pub session_address: Option<S>,
}

impl View for Controller<String> {
    type V = Controller<Seq<char>>;

    open spec fn view(&self) -> Controller<Seq<char>> {
        Controller { state: self.state, session_address: text_of(self.session_address) }
    }
}

/// What a key does in a state: pressing it begins a session where there is none. A session is ended
/// by pressing the key again where it toggles, and by releasing it where it is held.
pub open spec fn key_step(
    controller: Controller<Seq<char>>,
    toggle: bool,
    is_press: bool,
) -> KeyStep<Seq<char>> {
    if controller.state == ClientState::Idle && is_press {
        KeyStep::Start
    } else if controller.state == ClientState::Recording && is_press == toggle {
        KeyStep::Stop(controller.session_address)
    } else {
        KeyStep::Ignore
    }
}

/// The client after a key.
pub open spec fn after_key(
    controller: Controller<Seq<char>>,
    toggle: bool,
    is_press: bool,
) -> Controller<Seq<char>> {
    if key_step(controller, toggle, is_press) is Stop {
        Controller { state: ClientState::Stopping, session_address: None }
    } else {
        controller
    }
}

/// What is shared after a session ended: it is gone, and where it was lost the next phone that is
/// found is announced.
pub open spec fn after_event(
    shared: Shared<Seq<char>>,
    event: SessionEvent<Seq<char>>,
) -> Shared<Seq<char>> {
    Shared { active: None, announce: shared.announce || event is Lost, ..shared }
}

/// What is shown when a session ended.
pub open spec fn event_hint(event: SessionEvent<Seq<char>>) -> Hint<Seq<char>> {
    match event {
        SessionEvent::Stopped | SessionEvent::Cancelled => Hint::Clear,
        SessionEvent::Failed(message) => trouble(message),
        SessionEvent::Lost(message) => trouble(message),
    }
}

impl Controller<String> {
    /// A client without a session.
    pub fn new() -> (r: Self)
        ensures
            r@ == (Controller { state: ClientState::Idle, session_address: None::<Seq<char>> }),
    {
        Controller { state: ClientState::Idle, session_address: None }
    }

    /// Takes a key that was pressed or released.
    pub fn key(&mut self, toggle: bool, is_press: bool) -> (r: KeyStep<String>)
        ensures
            r@ == key_step(old(self)@, toggle, is_press),
            final(self)@ == after_key(old(self)@, toggle, is_press),
    {
        let should_start: bool = is_press && self.state == ClientState::Idle;
        let should_stop: bool = !is_press && !toggle && self.state == ClientState::Recording
            || is_press && toggle && self.state == ClientState::Recording;
        if should_start {
            KeyStep::Start
        } else if should_stop {
            self.state = ClientState::Stopping;
            KeyStep::Stop(self.session_address.take())
        } else {
            KeyStep::Ignore
        }
    }

    /// A session was begun at this address.
    pub fn started(&mut self, address: String)
        ensures
            final(self)@ == (Controller {
                state: ClientState::Recording,
                session_address: Some(address@),
            }),
    {
        self.session_address = Some(address);
        self.state = ClientState::Recording;
    }

    /// Takes the end of a session. The result is what to show of it.
    pub fn handle_session_event(&mut self, shared: &mut Shared<String>, event: SessionEvent<String>) -> (r:
        Hint<String>)
        ensures
            final(self)@ == (Controller {
                state: ClientState::Idle,
                session_address: None::<Seq<char>>,
            }),
            final(shared)@ == after_event(old(shared)@, event@),
            r@ == event_hint(event@),
    {
        shared.clear_active_session();
        self.session_address = None;
        self.state = ClientState::Idle;
        match event {
            SessionEvent::Stopped => Hint::Clear,
            SessionEvent::Cancelled => Hint::Clear,
            SessionEvent::Failed(message) => flash_trouble(message.as_str()),
            SessionEvent::Lost(message) => {
                shared.announce = true;
                flash_trouble(message.as_str())
            },
        }
    }
}

/// What a key that begins a session comes to, by what the phone tells of the session it has.
#[derive(Clone, Copy, Debug, PartialEq, Eq, Structural)]
pub enum KeyChoice {
    /// Begin a session. Where another client holds one, the phone refuses that and tells who.
    Start,
    /// Take up the session that the phone still records for this client.
    Recover,
    /// Take up the session that the phone still records for this client, and end it.
    Stop,
    /// Take up the session that the phone still winds up for this client, cancel it, and begin anew.
    Cancel,
}

/// What a key that begins a session comes to, by the state that the phone tells, and the session and
/// the owner that it is the state of. A key that toggles ends a recording of this client that goes
/// on unknown to it, and a key that is held goes on with it.
pub open spec fn choice_on(
    toggle: bool,
    state: Option<Seq<char>>,
    session_id: Option<Seq<char>>,
    owner_client_id: Option<Seq<char>>,
    client_id: Seq<char>,
) -> KeyChoice {
    if session_id is None || owner_client_id != Some(client_id) {
        KeyChoice::Start
    } else if state == Some("recording"@) {
        if toggle {
            KeyChoice::Stop
        } else {
            KeyChoice::Recover
        }
    } else if state == Some("transcribing"@) {
        KeyChoice::Cancel
    } else {
        KeyChoice::Start
    }
}

/// What a key that begins a session comes to, by what the phone tells.
pub fn choose_on_status(
    toggle: bool,
    state: &Option<String>,
    session_id: &Option<String>,
    owner_client_id: &Option<String>,
    client_id: &str,
) -> (r: KeyChoice)
    ensures
        r == choice_on(
            toggle,
            text_of(*state),
            text_of(*session_id),
            text_of(*owner_client_id),
            client_id@,
        ),
{
    if session_id.is_none() || !is_text(owner_client_id, client_id) {
        KeyChoice::Start
    } else if is_text(state, "recording") {
        if toggle {
            KeyChoice::Stop
        } else {
            KeyChoice::Recover
        }
    } else if is_text(state, "transcribing") {
        KeyChoice::Cancel
    } else {
        KeyChoice::Start
    }
}

/// What a key that begins a session comes to, by what was read after `status` was sent; nothing but
/// an answer to it keeps the key from beginning a session.
pub open spec fn choice_in(
    toggle: bool,
    incoming: Incoming<Seq<char>>,
    client_id: Seq<char>,
) -> KeyChoice {
    match incoming {
        Incoming::Text(frame) => match reply_in(frame) {
            Ok(reply) => if reply.kind == Some("status"@) {
                choice_on(toggle, reply.state, reply.session_id, reply.owner_client_id, client_id)
            } else {
                KeyChoice::Start
            },
            Err(_) => KeyChoice::Start,
        },
        _ => KeyChoice::Start,
    }
}

/// What a key that begins a session comes to, by what was read after `status` was sent.
pub fn read_choice(toggle: bool, incoming: &Incoming<String>, client_id: &str) -> (r: KeyChoice)
    ensures
        r == choice_in(toggle, incoming@, client_id@),
{
    if let Incoming::Text(frame) = incoming {
        if let Ok(reply) = read_reply(frame.as_str()) {
            if is_text(&reply.kind, "status") {
                return choose_on_status(
                    toggle,
                    &reply.state,
                    &reply.session_id,
                    &reply.owner_client_id,
                    client_id,
                );
            }
        }
    }
    KeyChoice::Start
}

/// The address to connect to: the one that is given, without white space at its ends; otherwise,
/// where phones are looked for, the one that was found.
pub open spec fn resolved(
    address: Option<Seq<char>>,
    auto_discover: bool,
    discovered: Option<Seq<char>>,
) -> Result<Seq<char>, Seq<char>> {
    if address is Some && trimmed(address->0).len() > 0 {
        Ok(trimmed(address->0))
    } else if auto_discover {
        match discovered {
            Some(found) => Ok(found),
            None => Err("未连接手机：请确认手机端 OpenLess 已运行，等待后台扫描发现设备"@),
        }
    } else {
        Err("未配置手机地址（--address 或 --auto-discover）"@)
    }
}

/// What a result with texts holds.
pub open spec fn result_of(r: Result<String, String>) -> Result<Seq<char>, Seq<char>> {
    match r {
        Ok(s) => Ok(s@),
        Err(e) => Err(e@),
    }
}

/// The address to connect to.
pub fn resolve_address(address: &Option<String>, auto_discover: bool, discovered: &Option<String>) -> (r:
    Result<String, String>)
    ensures
        result_of(r) == resolved(text_of(*address), auto_discover, text_of(*discovered)),
{
    if let Some(address) = address {
        let address: &str = trim(address.as_str());
        if !address.is_empty() {
            return Ok(address.to_string());
        }
    }
    if auto_discover {
        match discovered {
            Some(found) => Ok(found.clone()),
            None => Err("未连接手机：请确认手机端 OpenLess 已运行，等待后台扫描发现设备".to_string()),
        }
    } else {
        Err("未配置手机地址（--address 或 --auto-discover）".to_string())
    }
}

/// How often a connection is tried before it is given up.
pub const START_ATTEMPTS: u8 = 2;

/// The beginning of a session at an address.
#[derive(Debug, PartialEq, Eq)]
pub struct StartFlow<S> {
    pub address: S,
    /// How many attempts failed.
    pub failed: u8,
}

/// A session that could not be begun: why, and what to show of it.
#[derive(Debug, PartialEq, Eq)]
pub struct StartFailure<S> {
    pub error: S,
    pub hint: Hint<S>,
}

/// How the beginning of a session goes on after an attempt.
#[derive(Debug, PartialEq, Eq)]
pub enum StartStep<S> {
    /// There is a session at this address; show that.
    Started { address: S, hint: Hint<S> },
    /// Show this, and try again.
    Retry { hint: Hint<S> },
    Failed(StartFailure<S>),
}

impl View for StartFlow<String> {
    type V = StartFlow<Seq<char>>;

    open spec fn view(&self) -> StartFlow<Seq<char>> {
        StartFlow { address: self.address@, failed: self.failed }
    }
}

impl View for StartFailure<String> {
    type V = StartFailure<Seq<char>>;

    open spec fn view(&self) -> StartFailure<Seq<char>> {
        StartFailure { error: self.error@, hint: self.hint@ }
    }
}

impl View for StartStep<String> {
    type V = StartStep<Seq<char>>;

    open spec fn view(&self) -> StartStep<Seq<char>> {
        match self {
            StartStep::Started { address, hint } => StartStep::Started {
                address: address@,
                hint: hint@,
            },
            StartStep::Retry { hint } => StartStep::Retry { hint: hint@ },
            StartStep::Failed(failure) => StartStep::Failed(failure@),
        }
    }
}

/// The failure for want of an address.
pub open spec fn no_address(error: Seq<char>) -> StartFailure<Seq<char>> {
    StartFailure { error, hint: trouble(error) }
}

/// How the beginning of a session goes on after an attempt that ended like this.
pub open spec fn attempt_step(
    flow: StartFlow<Seq<char>>,
    outcome: Result<(), Seq<char>>,
) -> StartStep<Seq<char>> {
    match outcome {
        Ok(_) => StartStep::Started { address: flow.address, hint: Hint::Show(AUX_RECORDING@) },
        Err(error) => if flow.failed + 1 < START_ATTEMPTS {
            StartStep::Retry { hint: Hint::Show(AUX_RETRY@) }
        } else {
            StartStep::Failed(
                StartFailure { error, hint: trouble("连接失败："@ + error) },
            )
        },
    }
}

/// What is shared after such an attempt: an address where a session began is remembered, one where
/// none could be begun is forgotten.
pub open spec fn after_attempt(
    shared: Shared<Seq<char>>,
    flow: StartFlow<Seq<char>>,
    outcome: Result<(), Seq<char>>,
) -> Shared<Seq<char>> {
    match attempt_step(flow, outcome) {
        StartStep::Started { address, .. } => Shared {
            active: Some(address),
            discovered: Some(address),
            ..shared
        },
        StartStep::Retry { .. } => shared,
        StartStep::Failed(_) => Shared { announce: true, ..shared.forgetting(flow.address) },
    }
}

/// What an outcome holds.
pub open spec fn outcome_of(outcome: Result<(), String>) -> Result<(), Seq<char>> {
    match outcome {
        Ok(_) => Ok(()),
        Err(error) => Err(error@),
    }
}

/// Begins a session: finds the address to connect to.
pub fn start_flow(shared: &mut Shared<String>, address: &Option<String>, auto_discover: bool) -> (r:
    Result<StartFlow<String>, StartFailure<String>>)
    ensures
        match resolved(text_of(*address), auto_discover, old(shared)@.discovered) {
            Ok(found) => {
                &&& final(shared)@ == old(shared)@
                &&& r matches Ok(flow) && flow@ == (StartFlow { address: found, failed: 0 })
            },
            Err(error) => {
                &&& final(shared)@ == (Shared { announce: true, ..old(shared)@ })
                &&& r matches Err(failure) && failure@ == no_address(error)
            },
        },
{
    match resolve_address(address, auto_discover, &shared.discovered) {
        Ok(address) => Ok(StartFlow { address, failed: 0 }),
        Err(error) => {
            shared.announce = true;
            let hint: Hint<String> = flash_trouble(error.as_str());
            Err(StartFailure { error, hint })
        },
    }
}

impl StartFlow<String> {
    /// Takes the end of an attempt to connect.
    pub fn attempt_ended(&mut self, shared: &mut Shared<String>, outcome: Result<(), String>) -> (r:
        StartStep<String>)
        requires
            old(self).failed < START_ATTEMPTS,
        ensures
            r@ == attempt_step(old(self)@, outcome_of(outcome)),
            final(shared)@ == after_attempt(old(shared)@, old(self)@, outcome_of(outcome)),
            outcome is Ok ==> {
                &&& r matches StartStep::Started { address, hint } && address@
                    == old(self).address@ && hint@ == Hint::Show(AUX_RECORDING@)
                &&& text_of(final(shared).active) == Some(old(self).address@)
                &&& text_of(final(shared).discovered) == Some(old(self).address@)
            },
            r is Retry ==> outcome is Err && old(self).failed == 0,
            final(self).address@ == old(self).address@,
            final(self).failed == if outcome is Ok {
                old(self).failed as int
            } else {
                old(self).failed + 1
            },
    {
        match outcome {
            Ok(_) => {
                shared.discovered = Some(self.address.clone());
                shared.active = Some(self.address.clone());
                StartStep::Started {
                    address: self.address.clone(),
                    hint: Hint::Show(AUX_RECORDING.to_string()),
                }
            },
            Err(error) => {
                self.failed = self.failed + 1;
                if self.failed < START_ATTEMPTS {
                    return StartStep::Retry { hint: Hint::Show(AUX_RETRY.to_string()) };
                }
                shared.forget(self.address.as_str());
                shared.announce = true;
                let hint: Hint<String> = flash_trouble(
                    "连接失败：".to_string().concat(error.as_str()).as_str(),
                );
                StartStep::Failed(StartFailure { error, hint })
            },
        }
    }
}

/// What the end of a session calls for.
#[derive(Debug, PartialEq, Eq)]
pub enum StopRequest<S> {
    /// Tell the session to end.
    Send,
    /// There is no such session; show that.
    Refuse(Hint<S>),
}

impl View for StopRequest<String> {
    type V = StopRequest<Seq<char>>;

    open spec fn view(&self) -> StopRequest<Seq<char>> {
        match self {
            StopRequest::Send => StopRequest::Send,
            StopRequest::Refuse(hint) => StopRequest::Refuse(hint@),
        }
    }
}

/// What the end of a session at this address calls for.
pub open spec fn stop_request(active: Option<Seq<char>>, address: Seq<char>) -> StopRequest<Seq<char>> {
    match active {
        Some(active) => if active == address {
            StopRequest::Send
        } else {
            StopRequest::Refuse(trouble("转录失败：当前地址与会话不一致"@))
        },
        None => StopRequest::Refuse(trouble("转录失败：没有活动会话"@)),
    }
}

/// Ends the session at this address. The hint of the result is to be shown first, and then the
/// request to be carried out.
pub fn stop_flow(shared: &Shared<String>, address: &str) -> (r: (Hint<String>, StopRequest<String>))
    ensures
        r.0@ == Hint::Show(AUX_TRANSCRIBING@),
        r.1@ == stop_request(shared@.active, address@),
{
    let request: StopRequest<String> = match &shared.active {
        Some(active) => {
            if same_text(active.as_str(), address) {
                StopRequest::Send
            } else {
                StopRequest::Refuse(flash_trouble("转录失败：当前地址与会话不一致"))
            }
        },
        None => StopRequest::Refuse(flash_trouble("转录失败：没有活动会话")),
    };
    (Hint::Show(AUX_TRANSCRIBING.to_string()), request)
}

/// The session could not be told to end, because nothing runs it any more.
pub fn stop_not_sent(shared: &mut Shared<String>) -> (r: Hint<String>)
    ensures
        final(shared)@ == (Shared { active: None, ..old(shared)@ }),
        r@ == trouble("转录失败：会话线程已退出"@),
{
    shared.clear_active_session();
    flash_trouble("转录失败：会话线程已退出")
}

/// A key that toggles begins a session when it is pressed and ends it when it is pressed again; its
/// release does nothing. A key that is held begins a session when it is pressed and ends it when it
/// is released; pressing it again does nothing.
pub proof fn keys_begin_and_end_sessions(address: Seq<char>, toggle: bool)
    ensures
        ({
            let idle = Controller { state: ClientState::Idle, session_address: None };
            let recording = Controller {
                state: ClientState::Recording,
                session_address: Some(address),
            };
            &&& key_step(idle, toggle, true) is Start
            &&& key_step(idle, toggle, false) is Ignore
            &&& key_step(recording, toggle, toggle) == KeyStep::Stop(Some(address))
            &&& key_step(recording, toggle, !toggle) is Ignore
        }),
{
}

/// While a session is being ended no key does anything, so that nothing is ended twice.
pub proof fn no_key_ends_a_session_twice(
    controller: Controller<Seq<char>>,
    toggle: bool,
    first: bool,
    second: bool,
)
    requires
        key_step(controller, toggle, first) is Stop,
    ensures
        key_step(after_key(controller, toggle, first), toggle, second) is Ignore,
        after_key(after_key(controller, toggle, first), toggle, second) == after_key(
            controller,
            toggle,
            first,
        ),
{
}

/// A connection is tried twice at most: an attempt that fails is followed by one more, and when that
/// fails too the beginning of the session does, for the reason of the last.
pub proof fn a_connection_is_tried_twice_at_most(
    address: Seq<char>,
    first: Seq<char>,
    second: Result<(), Seq<char>>,
)
    ensures
        attempt_step(StartFlow { address, failed: 0 }, Err(first)) is Retry,
        attempt_step(StartFlow { address, failed: 1 }, second) !is Retry,
        second matches Err(error) ==> attempt_step(StartFlow { address, failed: 1 }, second)
            == StartStep::Failed(
            StartFailure { error, hint: trouble("连接失败："@ + error) },
        ),
{
}

} // verus!
