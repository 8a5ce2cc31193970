//! The sessions the phone keeps, by their identifiers.

use vstd::prelude::*;

use crate::text::{same_text, text_of};

verus! {

/// How long a session may go without a heartbeat while it records, in nanoseconds.
pub const HEARTBEAT_TIMEOUT: u64 = 3_000_000_000;

/// Where a session stands. Only a recording one needs heartbeats; the others are winding up.
#[derive(Clone, Copy, Debug, PartialEq, Eq, Structural)]
pub enum SessionPhase {
    Recording,
    Stopping,
    ResultPending,
}

impl SessionPhase {
    /// The name of the phase in a status message.
    pub open spec fn state_text(self) -> Seq<char> {
        match self {
            SessionPhase::Recording => "recording"@,
            SessionPhase::Stopping | SessionPhase::ResultPending => "transcribing"@,
        }
    }

    /// The name of the phase in a status message.
    pub fn state_name(self) -> (r: &'static str)
        ensures
            r@ == self.state_text(),
    {
        match self {
            SessionPhase::Recording => "recording",
            SessionPhase::Stopping | SessionPhase::ResultPending => "transcribing",
        }
    }
}

/// A result that was sent and not yet acknowledged.
#[derive(Debug, PartialEq, Eq)]
pub struct PendingResult<S> {
    pub result_id: S,
    pub text: S,
}

/// A session, and who holds it.
#[derive(Debug, PartialEq, Eq)]
pub struct SessionRecord<S> {
    pub session_id: S,
    pub owner_client_id: S,
    /// Whether the owner gave no name of its own and goes by its address. Such an owner knows
    /// nothing of heartbeats, so none are asked of it.
    pub legacy_owner: bool,
    /// The address of the connection that opened the session.
    pub owner_addr: S,
    /// The connection that opened the session.
    pub connection: u64,
    /// The newest entry of the history when the session was opened.
    pub previous_first_id: Option<S>,
    pub translation: bool,
    /// When the last heartbeat came, in nanoseconds of a clock that never goes back.
    pub last_heartbeat: u64,
    pub phase: SessionPhase,
    pub result: Option<PendingResult<S>>,
}

impl View for PendingResult<String> {
    type V = PendingResult<Seq<char>>;

    open spec fn view(&self) -> PendingResult<Seq<char>> {
        PendingResult { result_id: self.result_id@, text: self.text@ }
    }
}

/// What an optional pending result holds.
pub open spec fn pending_of(result: Option<PendingResult<String>>) -> Option<PendingResult<Seq<char>>> {
    match result {
        Some(result) => Some(result@),
        None => None,
    }
}

impl View for SessionRecord<String> {
    type V = SessionRecord<Seq<char>>;

    open spec fn view(&self) -> SessionRecord<Seq<char>> {
        SessionRecord {
            session_id: self.session_id@,
            owner_client_id: self.owner_client_id@,
            legacy_owner: self.legacy_owner,
            owner_addr: self.owner_addr@,
            connection: self.connection,
            previous_first_id: text_of(self.previous_first_id),
            translation: self.translation,
            last_heartbeat: self.last_heartbeat,
            phase: self.phase,
            result: pending_of(self.result),
        }
    }
}

impl SessionRecord<Seq<char>> {
    /// Whether the session has gone without a heartbeat for too long.
    pub open spec fn expired(self, now: u64) -> bool {
        &&& self.phase == SessionPhase::Recording
        &&& !self.legacy_owner
        &&& now - self.last_heartbeat > HEARTBEAT_TIMEOUT
    }

    /// Whether the session waits for this client to acknowledge this result.
    pub open spec fn awaits(self, client: Seq<char>, result_id: Seq<char>) -> bool {
        &&& self.owner_client_id == client
        &&& self.result matches Some(pending) && pending.result_id == result_id
    }

    /// The session after this client acknowledged this result.
    pub open spec fn acknowledged(self, client: Seq<char>, result_id: Seq<char>) -> Self {
        if self.awaits(client, result_id) {
            SessionRecord { result: None, ..self }
        } else {
            self
        }
    }
}

/// The sessions of the phone: what is known of each, by its identifier.
pub type Sessions = Map<Seq<char>, SessionRecord<Seq<char>>>;

/// Whether every session stands under its own identifier.
pub open spec fn keyed(sessions: Sessions) -> bool {
    forall|id: Seq<char>| #[trigger] sessions.contains_key(id) ==> sessions[id].session_id == id
}

/// The sessions that have not gone without a heartbeat for too long.
pub open spec fn survivors(sessions: Sessions, now: u64) -> Sessions {
    Map::new(
        |id: Seq<char>| sessions.contains_key(id) && !sessions[id].expired(now),
        |id: Seq<char>| sessions[id],
    )
}

/// The sessions after this client acknowledged this result.
pub open spec fn all_acknowledged(sessions: Sessions, client: Seq<char>, result_id: Seq<char>) -> Sessions {
    Map::new(
        |id: Seq<char>| sessions.contains_key(id),
        |id: Seq<char>| sessions[id].acknowledged(client, result_id),
    )
}

/// Whether a session waits for this client to acknowledge this result.
pub open spec fn awaited(sessions: Sessions, client: Seq<char>, result_id: Seq<char>) -> bool {
    exists|id: Seq<char>| #[trigger]
        sessions.contains_key(id) && sessions[id].awaits(client, result_id)
}

/// A session that went without a heartbeat for too long.
#[derive(Debug, PartialEq, Eq)]
pub struct Expired<S> {
    pub session_id: S,
    pub owner_client_id: S,
    /// The connection to close.
    pub connection: u64,
}

impl View for Expired<String> {
    type V = Expired<Seq<char>>;

    open spec fn view(&self) -> Expired<Seq<char>> {
        Expired {
            session_id: self.session_id@,
            owner_client_id: self.owner_client_id@,
            connection: self.connection,
        }
    }
}

/// What is told of a session that expired.
pub open spec fn expiry_of(record: SessionRecord<Seq<char>>) -> Expired<Seq<char>> {
    Expired {
        session_id: record.session_id,
        owner_client_id: record.owner_client_id,
        connection: record.connection,
    }
}

/// Whether a list tells of each session that has gone without a heartbeat for too long, once, and
/// of no other.
pub open spec fn tells_expired(told: Seq<Expired<String>>, sessions: Sessions, now: u64) -> bool {
    &&& forall|i: int|
        0 <= i < told.len() ==> {
            let id = (#[trigger] told[i])@.session_id;
            &&& sessions.contains_key(id)
            &&& sessions[id].expired(now)
            &&& told[i]@ == expiry_of(sessions[id])
        }
    &&& forall|i: int, j: int|
        0 <= i < j < told.len() ==> (#[trigger] told[i])@.session_id != (
        #[trigger] told[j])@.session_id
    &&& forall|id: Seq<char>|
        #[trigger] sessions.contains_key(id) && sessions[id].expired(now) ==> told_of(told, id)
}

/// Whether a list tells of this session.
pub open spec fn told_of(told: Seq<Expired<String>>, id: Seq<char>) -> bool {
    exists|i: int| 0 <= i < told.len() && (#[trigger] told[i])@.session_id == id
}

/// The views of a list of records.
pub open spec fn views(records: Seq<SessionRecord<String>>) -> Seq<SessionRecord<Seq<char>>> {
    records.map_values(|r: SessionRecord<String>| r@)
}

/// Whether a record of the list has this identifier.
pub open spec fn listed(list: Seq<SessionRecord<Seq<char>>>, id: Seq<char>) -> bool {
    exists|i: int| 0 <= i < list.len() && (#[trigger] list[i]).session_id == id
}

/// Where the list has a record with this identifier.
pub open spec fn place_of(list: Seq<SessionRecord<Seq<char>>>, id: Seq<char>) -> int {
    choose|i: int| 0 <= i < list.len() && (#[trigger] list[i]).session_id == id
}

/// The records of a list by their identifiers.
pub open spec fn by_id(list: Seq<SessionRecord<Seq<char>>>) -> Sessions {
    Map::new(|id: Seq<char>| listed(list, id), |id: Seq<char>| list[place_of(list, id)])
}

/// Whether no two records of a list have the same identifier.
pub open spec fn distinct_ids(list: Seq<SessionRecord<Seq<char>>>) -> bool {
    forall|i: int, j: int|
        0 <= i < list.len() && 0 <= j < list.len() && (#[trigger] list[i]).session_id == (
        #[trigger] list[j]).session_id ==> i == j
}

/// The register of the sessions; its view is the sessions by their identifiers.
pub struct Registry {
    records: Vec<SessionRecord<String>>,
}

impl View for Registry {
    type V = Sessions;

    closed spec fn view(&self) -> Sessions {
        by_id(views(self.records@))
    }
}

proof fn lemma_listed(list: Seq<SessionRecord<Seq<char>>>, i: int)
    requires
        distinct_ids(list),
        0 <= i < list.len(),
    ensures
        by_id(list).contains_key(list[i].session_id),
        by_id(list)[list[i].session_id] == list[i],
{
    let id = list[i].session_id;
    assert(listed(list, id));
    let p = place_of(list, id);
    assert(list[p].session_id == list[i].session_id);
}

proof fn lemma_update(list: Seq<SessionRecord<Seq<char>>>, i: int, record: SessionRecord<Seq<char>>)
    requires
        distinct_ids(list),
        0 <= i < list.len(),
        record.session_id == list[i].session_id,
    ensures
        distinct_ids(list.update(i, record)),
        by_id(list.update(i, record)) == by_id(list).insert(record.session_id, record),
{
    let new = list.update(i, record);
    assert forall|a: int, b: int|
        0 <= a < new.len() && 0 <= b < new.len() && (#[trigger] new[a]).session_id == (
        #[trigger] new[b]).session_id implies a == b by {
        assert(list[a].session_id == new[a].session_id);
        assert(list[b].session_id == new[b].session_id);
    }
    assert forall|id: Seq<char>| by_id(new).contains_key(id) == by_id(list).insert(
        record.session_id,
        record,
    ).contains_key(id) by {
        if listed(new, id) {
            let p = place_of(new, id);
            assert(list[p].session_id == id);
        }
        if listed(list, id) {
            let p = place_of(list, id);
            assert(new[p].session_id == id);
        }
        if id == record.session_id {
            assert(new[i].session_id == id);
        }
    }
    assert forall|id: Seq<char>| by_id(new).contains_key(id) implies by_id(new)[id] == by_id(
        list,
    ).insert(record.session_id, record)[id] by {
        let p = place_of(new, id);
        lemma_listed(new, p);
        if p != i {
            assert(list[p] == new[p]);
            lemma_listed(list, p);
            assert(list[p].session_id != list[i].session_id);
        }
    }
    assert(by_id(new) =~= by_id(list).insert(record.session_id, record));
}

proof fn lemma_remove(list: Seq<SessionRecord<Seq<char>>>, i: int)
    requires
        distinct_ids(list),
        0 <= i < list.len(),
    ensures
        distinct_ids(list.remove(i)),
        by_id(list.remove(i)) == by_id(list).remove(list[i].session_id),
{
    let new = list.remove(i);
    assert forall|a: int| 0 <= a < new.len() implies #[trigger] new[a] == list[if a < i {
        a
    } else {
        a + 1
    }] by {}
    assert forall|a: int, b: int|
        0 <= a < new.len() && 0 <= b < new.len() && (#[trigger] new[a]).session_id == (
        #[trigger] new[b]).session_id implies a == b by {}
    assert forall|id: Seq<char>| by_id(new).contains_key(id) == by_id(list).remove(
        list[i].session_id,
    ).contains_key(id) by {
        if listed(new, id) {
            let p = place_of(new, id);
            let q = if p < i {
                p
            } else {
                p + 1
            };
            assert(list[q].session_id == id);
            assert(id != list[i].session_id);
        }
        if listed(list, id) && id != list[i].session_id {
            let p = place_of(list, id);
            let q = if p < i {
                p
            } else {
                p - 1
            };
            assert(new[q].session_id == id);
        }
    }
    assert forall|id: Seq<char>| by_id(new).contains_key(id) implies by_id(new)[id] == by_id(
        list,
    ).remove(list[i].session_id)[id] by {
        let p = place_of(new, id);
        let q = if p < i {
            p
        } else {
            p + 1
        };
        lemma_listed(list, q);
    }
    assert(by_id(new) =~= by_id(list).remove(list[i].session_id));
}

proof fn lemma_push(list: Seq<SessionRecord<Seq<char>>>, record: SessionRecord<Seq<char>>)
    requires
        distinct_ids(list),
        !listed(list, record.session_id),
    ensures
        distinct_ids(list.push(record)),
        by_id(list.push(record)) == by_id(list).insert(record.session_id, record),
{
    let new = list.push(record);
    let n = list.len() as int;
    assert forall|a: int| 0 <= a < n implies #[trigger] new[a] == list[a] by {}
    assert forall|a: int, b: int|
        0 <= a < new.len() && 0 <= b < new.len() && (#[trigger] new[a]).session_id == (
        #[trigger] new[b]).session_id implies a == b by {
        if a == n && b < n {
            assert(list[b].session_id == record.session_id);
        }
        if b == n && a < n {
            assert(list[a].session_id == record.session_id);
        }
    }
    assert forall|id: Seq<char>| by_id(new).contains_key(id) == by_id(list).insert(
        record.session_id,
        record,
    ).contains_key(id) by {
        if listed(new, id) {
            let p = place_of(new, id);
            if p < n {
                assert(list[p].session_id == id);
            }
        }
        if listed(list, id) {
            let p = place_of(list, id);
            assert(new[p].session_id == id);
        }
        if id == record.session_id {
            assert(new[n].session_id == id);
        }
    }
    assert forall|id: Seq<char>| by_id(new).contains_key(id) implies by_id(new)[id] == by_id(
        list,
    ).insert(record.session_id, record)[id] by {
        let p = place_of(new, id);
        lemma_listed(new, p);
        if p < n {
            lemma_listed(list, p);
        }
    }
    assert(by_id(new) =~= by_id(list).insert(record.session_id, record));
}

impl Registry {
    /// Whether the register is in order.
    pub closed spec fn wf(&self) -> bool {
        distinct_ids(views(self.records@))
    }

    /// The records in their places.
    closed spec fn list(&self) -> Seq<SessionRecord<Seq<char>>> {
        views(self.records@)
    }

    /// A register without sessions.
    pub fn new() -> (r: Registry)
        ensures
            r.wf(),
            r@ == Map::<Seq<char>, SessionRecord<Seq<char>>>::empty(),
    {
        let r = Registry { records: Vec::new() };
        assert(r@ =~= Map::<Seq<char>, SessionRecord<Seq<char>>>::empty());
        r
    }

    fn place(&self, id: &str) -> (r: Option<usize>)
        requires
            self.wf(),
        ensures
            match r {
                Some(i) => {
                    &&& i < self.list().len()
                    &&& self.list()[i as int].session_id == id@
                    &&& self@.contains_key(id@)
                    &&& self@[id@] == self.list()[i as int]
                },
                None => !self@.contains_key(id@),
            },
    {
        for i in 0..self.records.len()
            invariant
                self.wf(),
                forall|j: int| 0 <= j < i ==> (#[trigger] self.list()[j]).session_id != id@,
        {
            if same_text(self.records[i].session_id.as_str(), id) {
                proof {
                    assert(self.list()[i as int] == self.records@[i as int]@);
                    lemma_listed(self.list(), i as int);
                }
                return Some(i);
            }
            assert(self.list()[i as int] == self.records@[i as int]@);
        }
        None
    }

    /// The session with this identifier.
    pub fn get(&self, id: &str) -> (r: Option<&SessionRecord<String>>)
        requires
            self.wf(),
        ensures
            match r {
                Some(record) => self@.contains_key(id@) && self@[id@] == record@,
                None => !self@.contains_key(id@),
            },
    {
        match self.place(id) {
            Some(i) => Some(&self.records[i]),
            None => None,
        }
    }

    /// A session, where there is one.
    pub fn first(&self) -> (r: Option<&SessionRecord<String>>)
        requires
            self.wf(),
        ensures
            match r {
                Some(record) => {
                    &&& self@.contains_key(record@.session_id)
                    &&& self@[record@.session_id] == record@
                },
                None => self@ == Map::<Seq<char>, SessionRecord<Seq<char>>>::empty(),
            },
    {
        if self.records.len() == 0 {
            assert(self@ =~= Map::<Seq<char>, SessionRecord<Seq<char>>>::empty());
            None
        } else {
            proof {
                assert(self.list()[0] == self.records@[0]@);
                lemma_listed(self.list(), 0);
            }
            Some(&self.records[0])
        }
    }

    /// A session that this client holds, where it holds one.
    pub fn owned_by(&self, client: &str) -> (r: Option<&SessionRecord<String>>)
        requires
            self.wf(),
        ensures
            match r {
                Some(record) => {
                    &&& self@.contains_key(record@.session_id)
                    &&& self@[record@.session_id] == record@
                    &&& record@.owner_client_id == client@
                },
                None => forall|id: Seq<char>| #[trigger]
                    self@.contains_key(id) ==> self@[id].owner_client_id != client@,
            },
    {
        for i in 0..self.records.len()
            invariant
                self.wf(),
                forall|j: int| 0 <= j < i ==> (#[trigger] self.list()[j]).owner_client_id != client@,
        {
            assert(self.list()[i as int] == self.records@[i as int]@);
            if same_text(self.records[i].owner_client_id.as_str(), client) {
                proof {
                    lemma_listed(self.list(), i as int);
                }
                return Some(&self.records[i]);
            }
        }
        None
    }

    /// Puts a session into the register; one of the same identifier gives way to it.
    pub fn insert(&mut self, record: SessionRecord<String>)
        requires
            old(self).wf(),
        ensures
            final(self).wf(),
            final(self)@ == old(self)@.insert(record@.session_id, record@),
    {
        self.remove(record.session_id.as_str());
        assert(!self@.contains_key(record@.session_id));
        proof {
            lemma_push(self.list(), record@);
            assert(views(self.records@.push(record)) =~= self.list().push(record@));
        }
        self.records.push(record);
        assert(self@ =~= old(self)@.insert(record@.session_id, record@));
    }

    /// Takes the session with this identifier out of the register.
    pub fn remove(&mut self, id: &str)
        requires
            old(self).wf(),
        ensures
            final(self).wf(),
            final(self)@ == old(self)@.remove(id@),
    {
        match self.place(id) {
            Some(i) => {
                proof {
                    lemma_remove(self.list(), i as int);
                    assert(views(self.records@.remove(i as int)) =~= self.list().remove(i as int));
                }
                let _gone: SessionRecord<String> = self.records.remove(i);
            },
            None => {
                assert(self@.remove(id@) =~= self@);
            },
        }
    }

    /// Notes a heartbeat of the session with this identifier, if this client holds it.
    pub fn heartbeat(&mut self, id: &str, client: &str, now: u64) -> (r: bool)
        requires
            old(self).wf(),
        ensures
            final(self).wf(),
            r == (old(self)@.contains_key(id@) && old(self)@[id@].owner_client_id == client@),
            final(self)@ == if r {
                old(self)@.insert(
                    id@,
                    (SessionRecord { last_heartbeat: now, ..old(self)@[id@] }),
                )
            } else {
                old(self)@
            },
    {
        match self.place(id) {
            Some(i) => {
                assert(self.list()[i as int] == self.records@[i as int]@);
                if same_text(self.records[i].owner_client_id.as_str(), client) {
                    let ghost before = self.list();
                    self.records[i].last_heartbeat = now;
                    proof {
                        let changed = SessionRecord { last_heartbeat: now, ..before[i as int] };
                        lemma_update(before, i as int, changed);
                        assert(self.list() =~= before.update(i as int, changed));
                    }
                    true
                } else {
                    false
                }
            },
            None => false,
        }
    }

    /// Marks the session with this identifier as one that is being stopped.
    pub fn mark_stopping(&mut self, id: &str)
        requires
            old(self).wf(),
        ensures
            final(self).wf(),
            final(self)@ == if old(self)@.contains_key(id@) {
                old(self)@.insert(
                    id@,
                    (SessionRecord { phase: SessionPhase::Stopping, ..old(self)@[id@] }),
                )
            } else {
                old(self)@
            },
    {
        if let Some(i) = self.place(id) {
            assert(self.list()[i as int] == self.records@[i as int]@);
            let ghost before = self.list();
            self.records[i].phase = SessionPhase::Stopping;
            proof {
                let changed = SessionRecord { phase: SessionPhase::Stopping, ..before[i as int] };
                lemma_update(before, i as int, changed);
                assert(self.list() =~= before.update(i as int, changed));
            }
        }
    }

    /// Notes with the session of this identifier the result that waits to be acknowledged.
    pub fn mark_pending(&mut self, id: &str, result_id: &str, text: &str)
        requires
            old(self).wf(),
        ensures
            final(self).wf(),
            final(self)@ == if old(self)@.contains_key(id@) {
                old(self)@.insert(
                    id@,
                    (SessionRecord {
                        phase: SessionPhase::ResultPending,
                        result: Some(PendingResult { result_id: result_id@, text: text@ }),
                        ..old(self)@[id@]
                    }),
                )
            } else {
                old(self)@
            },
    {
        if let Some(i) = self.place(id) {
            assert(self.list()[i as int] == self.records@[i as int]@);
            let ghost before = self.list();
            self.records[i].phase = SessionPhase::ResultPending;
            self.records[i].result = Some(
                PendingResult { result_id: result_id.to_string(), text: text.to_string() },
            );
            proof {
                let changed = SessionRecord {
                    phase: SessionPhase::ResultPending,
                    result: Some(PendingResult { result_id: result_id@, text: text@ }),
                    ..before[i as int]
                };
                lemma_update(before, i as int, changed);
                assert(self.list() =~= before.update(i as int, changed));
            }
        }
    }

    /// Takes out the sessions that have gone without a heartbeat for too long, and tells of them.
    pub fn sweep(&mut self, now: u64) -> (told: Vec<Expired<String>>)
        requires
            old(self).wf(),
        ensures
            final(self).wf(),
            final(self)@ == survivors(old(self)@, now),
            tells_expired(told@, old(self)@, now),
    {
        let mut told: Vec<Expired<String>> = Vec::new();
        let mut i: usize = 0;
        let ghost all = self@;
        assert(keyed(all));
        while i < self.records.len()
            invariant
                self.wf(),
                keyed(all),
                i <= self.records.len(),
                forall|j: int| 0 <= j < i ==> !(#[trigger] self.list()[j]).expired(now),
                forall|id: Seq<char>| #[trigger]
                    self@.contains_key(id) ==> all.contains_key(id) && all[id] == self@[id],
                forall|id: Seq<char>| #[trigger]
                    all.contains_key(id) && !self@.contains_key(id) ==> all[id].expired(now)
                        && told_of(told@, id),
                forall|k: int|
                    0 <= k < told@.len() ==> {
                        let id = (#[trigger] told@[k])@.session_id;
                        &&& all.contains_key(id)
                        &&& !self@.contains_key(id)
                        &&& all[id].expired(now)
                        &&& told@[k]@ == expiry_of(all[id])
                    },
                forall|k: int, l: int|
                    0 <= k < l < told@.len() ==> (#[trigger] told@[k])@.session_id != (
                    #[trigger] told@[l])@.session_id,
            decreases self.records.len() - i,
        {
            assert(self.list()[i as int] == self.records@[i as int]@);
            let stale: bool = {
                let record: &SessionRecord<String> = &self.records[i];
                record.phase == SessionPhase::Recording && !record.legacy_owner
                    && now.saturating_sub(record.last_heartbeat) > HEARTBEAT_TIMEOUT
            };
            if stale {
                let ghost list = self.list();
                let ghost before = self@;
                let ghost told_before = told@;
                let ghost id = list[i as int].session_id;
                proof {
                    lemma_listed(list, i as int);
                    lemma_remove(list, i as int);
                    assert(views(self.records@.remove(i as int)) =~= list.remove(i as int));
                }
                let record: SessionRecord<String> = self.records.remove(i);
                told.push(
                    Expired {
                        session_id: record.session_id,
                        owner_client_id: record.owner_client_id,
                        connection: record.connection,
                    },
                );
                proof {
                    assert(self@ == before.remove(id));
                    assert(forall|j: int|
                        0 <= j < i ==> #[trigger] self.list()[j] == list[j]);
                    assert(told@[told@.len() - 1]@.session_id == id);
                    assert forall|other: Seq<char>| #[trigger]
                        all.contains_key(other) && !self@.contains_key(other) implies all[other].expired(
                        now,
                    ) && told_of(told@, other) by {
                        if other != id {
                            assert(!before.contains_key(other));
                            let k = choose|k: int|
                                0 <= k < told_before.len() && (
                                #[trigger] told_before[k])@.session_id == other;
                            assert(told@[k] == told_before[k]);
                        }
                    }
                    assert forall|k: int| 0 <= k < told@.len() implies {
                        let told_id = (#[trigger] told@[k])@.session_id;
                        &&& all.contains_key(told_id)
                        &&& !self@.contains_key(told_id)
                        &&& all[told_id].expired(now)
                        &&& told@[k]@ == expiry_of(all[told_id])
                    } by {
                        if k < told_before.len() {
                            assert(told@[k] == told_before[k]);
                        }
                    }
                    assert forall|k: int, l: int| 0 <= k < l < told@.len() implies (
                    #[trigger] told@[k])@.session_id != (#[trigger] told@[l])@.session_id by {
                        assert(told@[k] == told_before[k]);
                        if l < told_before.len() {
                            assert(told@[l] == told_before[l]);
                        }
                    }
                }
            } else {
                i = i + 1;
            }
        }
        proof {
            assert forall|id: Seq<char>| #[trigger]
                self@.contains_key(id) implies !all[id].expired(now) by {
                let p = place_of(self.list(), id);
                lemma_listed(self.list(), p);
            }
            assert(self@ =~= survivors(all, now));
        }
        told
    }

    /// Notes that this client acknowledged this result. The result says whether a session waited
    /// for that.
    pub fn acknowledge(&mut self, client: &str, result_id: &str) -> (matched: bool)
        requires
            old(self).wf(),
        ensures
            final(self).wf(),
            matched == awaited(old(self)@, client@, result_id@),
            final(self)@ == all_acknowledged(old(self)@, client@, result_id@),
    {
        let ghost first = self.list();
        let mut matched: bool = false;
        let count: usize = self.records.len();
        for i in 0..count
            invariant
                distinct_ids(first),
                count == first.len(),
                self.list().len() == first.len(),
                self.records.len() == first.len(),
                forall|j: int|
                    0 <= j < i ==> #[trigger] self.list()[j] == first[j].acknowledged(
                        client@,
                        result_id@,
                    ),
                forall|j: int| i <= j < first.len() ==> #[trigger] self.list()[j] == first[j],
                matched == exists|j: int|
                    0 <= j < i && (#[trigger] first[j]).awaits(client@, result_id@),
        {
            let ghost before = self.list();
            assert(before[i as int] == self.records@[i as int]@);
            assert(before[i as int] == first[i as int]);
            let awaits: bool = same_text(self.records[i].owner_client_id.as_str(), client)
                && match &self.records[i].result {
                Some(pending) => same_text(pending.result_id.as_str(), result_id),
                None => false,
            };
            assert(awaits == first[i as int].awaits(client@, result_id@));
            if awaits {
                self.records[i].result = None;
                matched = true;
            }
            assert(forall|j: int| 0 <= j < first.len() && j != i ==> #[trigger] self.list()[j] == before[j]);
            assert(self.list()[i as int] == first[i as int].acknowledged(client@, result_id@));
        }
        proof {
            let list = self.list();
            assert forall|a: int, b: int|
                0 <= a < list.len() && 0 <= b < list.len() && (#[trigger] list[a]).session_id == (
                #[trigger] list[b]).session_id implies a == b by {
                assert(first[a].session_id == first[b].session_id);
            }
            assert forall|id: Seq<char>| listed(list, id) == listed(first, id) by {
                if listed(list, id) {
                    let p = place_of(list, id);
                    assert(first[p].session_id == id);
                }
                if listed(first, id) {
                    let p = place_of(first, id);
                    assert(list[p].session_id == id);
                }
            }
            assert forall|id: Seq<char>| listed(list, id) implies by_id(list)[id] == by_id(
                first,
            )[id].acknowledged(client@, result_id@) by {
                let p = place_of(list, id);
                lemma_listed(list, p);
                lemma_listed(first, p);
            }
            assert(self@ =~= all_acknowledged(old(self)@, client@, result_id@));
            if matched {
                let j = choose|j: int|
                    0 <= j < first.len() && (#[trigger] first[j]).awaits(client@, result_id@);
                lemma_listed(first, j);
            }
            if awaited(by_id(first), client@, result_id@) {
                let id = choose|id: Seq<char>| #[trigger]
                    by_id(first).contains_key(id) && by_id(first)[id].awaits(client@, result_id@);
                let p = place_of(first, id);
                lemma_listed(first, p);
            }
        }
        matched
    }
}

} // verus!
