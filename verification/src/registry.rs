//! The registry of connection managers: at most one for each pair of a local
//! identity and a peer.
//!
//! The registry is the routing table of the stream path. A caller that wants
//! a stream asks it for the manager of the peer, which it makes on first
//! demand, and leaves its request with that manager. A manager that ends is
//! struck from the registry in the same step, so the next caller gets a new
//! one, and a caller that still holds the old handle is turned away.

use vstd::prelude::*;
use crate::assoc::{
    as_map, lemma_as_map_len, lemma_as_map_push, lemma_as_map_remove, lemma_as_map_update,
};
use crate::manager::{
    ConnectionManager, ManagerAction, ManagerEvent, ManagerView, Phase, ReplyOutcome,
    FailureKind, StreamRequest, SubmitError,
};

verus! {

/// The routing key of all state that is kept for a peer: the local identity
/// that talks to it, and the peer, each by its ID52.
#[derive(Debug)]
pub struct PeerKey {
    pub self_id: String,
    pub peer_id: String,
}

impl View for PeerKey {
    type V = (Seq<char>, Seq<char>);

    open spec fn view(&self) -> (Seq<char>, Seq<char>) {
        (self.self_id@, self.peer_id@)
    }
}

impl PeerKey {
    pub fn new(self_id: String, peer_id: String) -> (key: PeerKey)
        ensures
            key@ == (self_id@, peer_id@),
    {
        PeerKey { self_id, peer_id }
    }

    /// Whether two keys name the same pair.
    pub fn is_same(&self, other: &PeerKey) -> (same: bool)
        ensures
            same == (self@ == other@),
    {
        self.self_id == other.self_id && self.peer_id == other.peer_id
    }
}

/// A running manager, as the contracts see it: the handle that callers hold,
/// and the manager's state.
pub struct ManagerHandle {
    pub id: u64,
    pub manager: ManagerView,
}

/// The answer to a caller that asks for the manager of a peer.
#[derive(Clone, Copy, Debug, PartialEq, Eq, Structural)]
pub struct Acquired {
    /// The handle of the peer's manager.
    pub manager: u64,
    /// Whether the manager was made for this call: its owner is then to dial.
    pub spawned: bool,
}

/// Why a request could not be left with a manager.
#[derive(Debug)]
pub enum GetStreamError {
    /// The manager's queue is full: wait, then submit to the same handle.
    Full(Acquired, StreamRequest),
    /// No handle is left to give to a new manager.
    Exhausted(StreamRequest),
}

/// Why a caller got no stream. Whatever went wrong, the caller may ask
/// again: a new manager dials anew.
#[derive(Clone, Copy, Debug, PartialEq, Eq, Structural)]
pub enum AcquireError {
    /// The manager had ended before it took the request.
    SendFailed,
    /// The manager went away without a reply.
    ReplyDropped,
    /// The manager answered with an error.
    Failed(FailureKind),
}

struct Entry {
    key: PeerKey,
    id: u64,
    manager: ConnectionManager,
}

pub struct PeerStreamRegistry {
    entries: Vec<Entry>,
    spawned: u64,
}

/// Whether a handle names the manager that runs for a key.
pub open spec fn is_live(
    running: Map<(Seq<char>, Seq<char>), ManagerHandle>,
    key: (Seq<char>, Seq<char>),
    manager: u64,
) -> bool {
    running.contains_key(key) && running[key].id == manager
}

/// The running managers after an event was handed to the manager that a
/// handle names: a manager that the event ends is struck, any other moves
/// on, and an event for a handle that names no running manager changes
/// nothing.
pub open spec fn after_event(
    running: Map<(Seq<char>, Seq<char>), ManagerHandle>,
    key: (Seq<char>, Seq<char>),
    manager: u64,
    event: ManagerEvent,
) -> Map<(Seq<char>, Seq<char>), ManagerHandle> {
    if !is_live(running, key, manager) {
        running
    } else if running[key].manager.next(event).has_ended() {
        running.remove(key)
    } else {
        running.insert(key, ManagerHandle { id: manager, manager: running[key].manager.next(event) })
    }
}

/// A manager that has just been made.
pub open spec fn fresh_manager() -> ManagerView {
    ManagerView { phase: Phase::Dialing, idle: 0, queue: Seq::empty(), current: None }
}

/// What the caller makes of the end of its wait: the reply, or none where
/// the one-shot channel was dropped.
pub fn acquire_outcome(reply: Option<ReplyOutcome>) -> (outcome: Result<(), AcquireError>)
    ensures
        outcome == (match reply {
            Some(ReplyOutcome::Stream) => Ok::<(), AcquireError>(()),
            Some(ReplyOutcome::Failed(kind)) => Err(AcquireError::Failed(kind)),
            None => Err(AcquireError::ReplyDropped),
        }),
{
    match reply {
        Some(ReplyOutcome::Stream) => Ok(()),
        Some(ReplyOutcome::Failed(kind)) => Err(AcquireError::Failed(kind)),
        None => Err(AcquireError::ReplyDropped),
    }
}

impl PeerStreamRegistry {
    /// The running managers, each with its key and its handle.
    pub closed spec fn running(&self) -> Seq<((Seq<char>, Seq<char>), ManagerHandle)> {
        Seq::new(
            self.entries@.len(),
            |i: int|
                (
                    self.entries@[i].key@,
                    ManagerHandle { id: self.entries@[i].id, manager: self.entries@[i].manager@ },
                ),
        )
    }

    /// How many managers were ever made.
    pub closed spec fn spawned_count(&self) -> nat {
        self.spawned as nat
    }

    /// The running managers by key.
    pub closed spec fn view(&self) -> Map<(Seq<char>, Seq<char>), ManagerHandle> {
        as_map(self.running())
    }

    /// What every registry satisfies: no two managers share a key or a
    /// handle, every handle has been given out, and every manager is well
    /// formed and has not ended.
    pub closed spec fn wf(&self) -> bool {
        &&& forall|i: int, j: int|
            0 <= i < j < self.running().len() ==> self.running()[i].0 != self.running()[j].0
        &&& forall|i: int, j: int|
            0 <= i < j < self.running().len() ==> self.running()[i].1.id
                != self.running()[j].1.id
        &&& forall|i: int|
            0 <= i < self.running().len() ==> {
                &&& (#[trigger] self.running()[i]).1.id < self.spawned_count()
                &&& self.running()[i].1.manager.wf()
                &&& !self.running()[i].1.manager.has_ended()
            }
        &&& forall|i: int| 0 <= i < self.entries@.len() ==> (#[trigger] self.entries@[i]).manager.wf()
    }

    /// At most one manager: in a well-formed registry no two running managers
    /// have the same key, nor the same handle, and the view holds exactly the
    /// running managers.
    pub proof fn lemma_at_most_one_manager(&self)
        requires
            self.wf(),
        ensures
            forall|i: int, j: int|
                0 <= i < j < self.running().len() ==> self.running()[i].0 != self.running()[j].0,
            forall|i: int, j: int|
                0 <= i < j < self.running().len() ==> self.running()[i].1.id
                    != self.running()[j].1.id,
            forall|i: int|
                0 <= i < self.running().len() ==> self@.contains_key(
                    (#[trigger] self.running()[i]).0,
                ) && self@[self.running()[i].0] == self.running()[i].1,
            forall|key: (Seq<char>, Seq<char>)|
                self@.contains_key(key) ==> exists|i: int|
                    0 <= i < self.running().len() && self.running()[i] == (key, self@[key]),
            forall|key: (Seq<char>, Seq<char>)|
                #![trigger self@[key]]
                self@.contains_key(key) ==> {
                    &&& self@[key].id < self.spawned_count()
                    &&& self@[key].manager.wf()
                    &&& !self@[key].manager.has_ended()
                },
    {
        assert forall|i: int| 0 <= i < self.running().len() implies self@.contains_key(
            (#[trigger] self.running()[i]).0,
        ) && self@[self.running()[i].0] == self.running()[i].1 by {
            let key = self.running()[i].0;
            let chosen = choose|c: int| 0 <= c < self.running().len() && self.running()[c].0 == key;
            assert(chosen == i);
        }
        assert forall|key: (Seq<char>, Seq<char>)| self@.contains_key(key) implies exists|i: int|
            0 <= i < self.running().len() && self.running()[i] == (key, self@[key]) by {
            let i = choose|i: int| 0 <= i < self.running().len() && self.running()[i].0 == key;
            assert(self.running()[i] == (key, self@[key]));
        }
        assert forall|key: (Seq<char>, Seq<char>)|
            #![trigger self@[key]]
            self@.contains_key(key) implies {
            &&& self@[key].id < self.spawned_count()
            &&& self@[key].manager.wf()
            &&& !self@[key].manager.has_ended()
        } by {
            let i = choose|i: int| 0 <= i < self.running().len() && self.running()[i].0 == key;
            assert(self.running()[i].1 == self@[key]);
        }
    }

    /// A registry without managers.
    pub fn new() -> (registry: Self)
        ensures
            registry.wf(),
            registry@ == Map::<(Seq<char>, Seq<char>), ManagerHandle>::empty(),
            registry.spawned_count() == 0,
    {
        let registry = PeerStreamRegistry { entries: Vec::new(), spawned: 0 };
        assert(registry@ =~= Map::<(Seq<char>, Seq<char>), ManagerHandle>::empty());
        registry
    }

    /// How many managers run.
    pub fn len(&self) -> (count: usize)
        requires
            self.wf(),
        ensures
            count == self@.len(),
            self@.dom().finite(),
    {
        proof {
            self.lemma_view_len();
        }
        self.entries.len()
    }

    proof fn lemma_view_len(&self)
        requires
            self.wf(),
        ensures
            self@.dom().finite(),
            self@.len() == self.running().len(),
    {
        lemma_as_map_len(self.running());
    }

    fn find(&self, key: &PeerKey) -> (found: Option<usize>)
        requires
            self.wf(),
        ensures
            match found {
                Some(i) => i < self.entries@.len() && self.running()[i as int].0 == key@
                    && self@.contains_key(key@) && self@[key@] == self.running()[i as int].1,
                None => !self@.contains_key(key@),
            },
    {
        let mut i: usize = 0;
        while i < self.entries.len()
            invariant
                self.wf(),
                i <= self.entries@.len(),
                self.running().len() == self.entries@.len(),
                forall|j: int| 0 <= j < i ==> self.running()[j].0 != key@,
            decreases self.entries.len() - i,
        {
            if self.entries[i].key.is_same(key) {
                proof {
                    self.lemma_at_most_one_manager();
                    assert(self.running()[i as int].0 == key@);
                }
                return Some(i);
            }
            i += 1;
        }
        None
    }

    /// Whether a manager runs for the key.
    pub fn contains(&self, key: &PeerKey) -> (found: bool)
        requires
            self.wf(),
        ensures
            found == self@.contains_key(key@),
    {
        self.find(key).is_some()
    }

    /// The handle and the phase of the key's manager, where one runs.
    pub fn lookup(&self, key: &PeerKey) -> (found: Option<(u64, Phase)>)
        requires
            self.wf(),
        ensures
            match found {
                Some((id, phase)) => self@.contains_key(key@) && self@[key@].id == id
                    && self@[key@].manager.phase == phase,
                None => !self@.contains_key(key@),
            },
    {
        match self.find(key) {
            Some(i) => Some((self.entries[i].id, self.entries[i].manager.phase())),
            None => None,
        }
    }
}

impl PeerStreamRegistry {
    /// The manager of a peer: the one that runs, or a new one where none
    /// does. Two calls for one key while its manager runs get the same
    /// handle, and only the first is told to dial.
    ///
    /// Returns `None`, and changes nothing, only where a new manager is
    /// needed and every handle has been given out.
    pub fn acquire(&mut self, key: PeerKey) -> (acquired: Option<Acquired>)
        requires
            old(self).wf(),
        ensures
            final(self).wf(),
            match acquired {
                Some(a) => if old(self)@.contains_key(key@) {
                    &&& !a.spawned
                    &&& a.manager == old(self)@[key@].id
                    &&& final(self)@ == old(self)@
                    &&& final(self).spawned_count() == old(self).spawned_count()
                } else {
                    &&& a.spawned
                    &&& a.manager == old(self).spawned_count()
                    &&& final(self).spawned_count() == old(self).spawned_count() + 1
                    &&& final(self)@ == old(self)@.insert(
                        key@,
                        ManagerHandle { id: a.manager, manager: fresh_manager() },
                    )
                },
                None => {
                    &&& !old(self)@.contains_key(key@)
                    &&& old(self).spawned_count() == u64::MAX
                    &&& final(self)@ == old(self)@
                    &&& final(self).spawned_count() == old(self).spawned_count()
                },
            },
    {
        match self.find(&key) {
            Some(i) => Some(Acquired { manager: self.entries[i].id, spawned: false }),
            None => {
                if self.spawned == u64::MAX {
                    return None;
                }
                let id = self.spawned;
                let ghost before = self.running();
                let ghost handle = ManagerHandle { id, manager: fresh_manager() };
                let ghost key_view = key@;
                self.entries.push(Entry { key, id, manager: ConnectionManager::new() });
                self.spawned = id + 1;
                proof {
                    assert(self.running() =~= before.push((key_view, handle)));
                    lemma_as_map_push(before, (key_view, handle));
                }
                Some(Acquired { manager: id, spawned: true })
            },
        }
    }

    /// Leaves a request with the manager that the handle names.
    ///
    /// A handle whose manager has ended is turned away with `Closed`, also
    /// where a new manager runs for the same key by now.
    pub fn submit(&mut self, key: &PeerKey, manager: u64, request: StreamRequest) -> (taken: Result<
        (),
        SubmitError,
    >)
        requires
            old(self).wf(),
        ensures
            final(self).wf(),
            final(self).spawned_count() == old(self).spawned_count(),
            if is_live(old(self)@, key@, manager) {
                let before = old(self)@[key@].manager;
                match taken {
                    Ok(()) => {
                        &&& before.takes_requests()
                        &&& final(self)@ == old(self)@.insert(
                            key@,
                            ManagerHandle {
                                id: manager,
                                manager: ManagerView {
                                    queue: before.queue.push(request),
                                    ..before
                                },
                            },
                        )
                    },
                    Err(SubmitError::Full(back)) => {
                        &&& !before.takes_requests()
                        &&& back == request
                        &&& final(self)@ == old(self)@
                    },
                    Err(SubmitError::Closed(_)) => false,
                }
            } else {
                &&& taken matches Err(SubmitError::Closed(back))
                &&& back == request
                &&& final(self)@ == old(self)@
            },
    {
        let at = match self.find(key) {
            Some(i) => i,
            None => {
                return Err(SubmitError::Closed(request));
            },
        };
        if self.entries[at].id != manager {
            return Err(SubmitError::Closed(request));
        }
        let ghost before = self.running();
        let ghost entries_before = self.entries@;
        let mut entry = self.entries.remove(at);
        let taken = entry.manager.submit(request);
        let ghost handle = ManagerHandle { id: entry.id, manager: entry.manager@ };
        self.entries.insert(at, entry);
        proof {
            assert(self.entries@.len() == entries_before.len());
            assert(self.running() =~= before.update(at as int, (before[at as int].0, handle)));
            lemma_as_map_update(before, at as int, handle);
            if taken.is_err() {
                assert(self.running() =~= before);
            }
        }
        taken
    }

    /// Hands an event to the manager that the handle names, and strikes the
    /// manager from the registry in the same step if the event ends it.
    ///
    /// An event for a handle whose manager has ended is `Unexpected` and
    /// changes nothing.
    pub fn on_event(&mut self, key: &PeerKey, manager: u64, event: ManagerEvent) -> (action:
        ManagerAction)
        requires
            old(self).wf(),
        ensures
            final(self).wf(),
            final(self).spawned_count() == old(self).spawned_count(),
            final(self)@ == after_event(old(self)@, key@, manager, event),
            if is_live(old(self)@, key@, manager) {
                old(self)@[key@].manager.answers(event, action)
            } else {
                action is Unexpected
            },
    {
        let at = match self.find(key) {
            Some(i) => i,
            None => {
                return ManagerAction::Unexpected;
            },
        };
        if self.entries[at].id != manager {
            return ManagerAction::Unexpected;
        }
        let ghost before = self.running();
        let ghost entries_before = self.entries@;
        let mut entry = self.entries.remove(at);
        let action = entry.manager.on_event(event);
        if entry.manager.has_ended() {
            proof {
                assert(self.running() =~= before.remove(at as int));
                lemma_as_map_remove(before, at as int);
            }
        } else {
            let ghost handle = ManagerHandle { id: entry.id, manager: entry.manager@ };
            self.entries.insert(at, entry);
            proof {
                assert(self.entries@.len() == entries_before.len());
                assert(self.running() =~= before.update(at as int, (before[at as int].0, handle)));
                lemma_as_map_update(before, at as int, handle);
            }
        }
        action
    }

    /// The first half of getting a stream: finds or makes the peer's manager
    /// and leaves the request with it. The caller then waits for the reply on
    /// the request's ticket.
    pub fn get_stream(&mut self, key: PeerKey, request: StreamRequest) -> (queued: Result<
        Acquired,
        GetStreamError,
    >)
        requires
            old(self).wf(),
        ensures
            final(self).wf(),
            match queued {
                Ok(a) => {
                    &&& a.spawned == !old(self)@.contains_key(key@)
                    &&& final(self)@.contains_key(key@)
                    &&& final(self)@[key@].id == a.manager
                    &&& old(self)@.contains_key(key@) ==> a.manager == old(self)@[key@].id
                        && final(self)@[key@].manager == (ManagerView {
                        queue: old(self)@[key@].manager.queue.push(request),
                        ..old(self)@[key@].manager
                    })
                    &&& !old(self)@.contains_key(key@) ==> final(self)@[key@].manager
                        == (ManagerView { queue: seq![request], ..fresh_manager() })
                    &&& final(self)@.remove(key@) == old(self)@.remove(key@)
                },
                Err(GetStreamError::Full(a, back)) => {
                    &&& back == request
                    &&& !a.spawned
                    &&& old(self)@.contains_key(key@)
                    &&& a.manager == old(self)@[key@].id
                    &&& !old(self)@[key@].manager.takes_requests()
                    &&& final(self)@ == old(self)@
                },
                Err(GetStreamError::Exhausted(back)) => {
                    &&& back == request
                    &&& !old(self)@.contains_key(key@)
                    &&& old(self).spawned_count() == u64::MAX
                    &&& final(self)@ == old(self)@
                },
            },
    {
        let held = PeerKey { self_id: key.self_id.clone(), peer_id: key.peer_id.clone() };
        proof {
            old(self).lemma_at_most_one_manager();
        }
        let acquired = match self.acquire(key) {
            Some(a) => a,
            None => {
                return Err(GetStreamError::Exhausted(request));
            },
        };
        let ghost between = self@;
        match self.submit(&held, acquired.manager, request) {
            Ok(()) => {
                proof {
                    assert(self@.remove(held@) =~= old(self)@.remove(held@));
                    if !acquired.spawned {
                        assert(between == old(self)@);
                    } else {
                        assert(fresh_manager().queue.push(request) =~= seq![request]);
                    }
                }
                Ok(acquired)
            },
            Err(SubmitError::Full(back)) => Err(GetStreamError::Full(acquired, back)),
            Err(SubmitError::Closed(back)) => Err(GetStreamError::Exhausted(back)),
        }
    }
}

/// Registry and lifetime: an event that ends a manager strikes its entry in
/// the same step. From then on the handle that callers still hold names no
/// running manager, so what they submit comes back as `Closed`, and this
/// stays so when a new manager is made for the key, whose handle is new.
pub proof fn lemma_ended_manager_is_struck(
    registry: &PeerStreamRegistry,
    key: (Seq<char>, Seq<char>),
    manager: u64,
    event: ManagerEvent,
)
    requires
        registry.wf(),
        is_live(registry@, key, manager),
        registry@[key].manager.next(event).has_ended(),
    ensures
        !after_event(registry@, key, manager, event).contains_key(key),
        !is_live(after_event(registry@, key, manager, event), key, manager),
        manager != registry.spawned_count(),
        !is_live(
            after_event(registry@, key, manager, event).insert(
                key,
                ManagerHandle { id: registry.spawned_count() as u64, manager: fresh_manager() },
            ),
            key,
            manager,
        ),
{
    registry.lemma_at_most_one_manager();
}

/// Handles are given out once: the handle of every running manager is
/// below the number of managers ever made, which is the handle that the next
/// manager gets.
pub proof fn lemma_handles_are_fresh(before: &PeerStreamRegistry, key: (Seq<char>, Seq<char>))
    requires
        before.wf(),
    ensures
        before@.contains_key(key) ==> before@[key].id < before.spawned_count(),
        forall|other: (Seq<char>, Seq<char>)|
            before@.contains_key(other) ==> #[trigger] before@[other].id
                != before.spawned_count(),
{
    before.lemma_at_most_one_manager();
}

} // verus!
