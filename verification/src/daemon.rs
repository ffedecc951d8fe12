//! The daemon's books: which listener task serves which cluster, and what a
//! rescan does to them.
//!
//! The daemon runs one listener task for each cluster identity. The tasks
//! themselves belong to the caller; the books name each one by a number that
//! is never given out twice, so that a listener that was restarted is told
//! apart from the one before it.

use vstd::prelude::*;
use crate::assoc::{lemma_as_map_at, lemma_as_map_from};
use crate::config_manager::{ClusterIdentity, ClusterIdentityView, ClusterRole};
use crate::malai_server::{
    CommandError, CommandErrorKind, CommandRequest, ConfigError, ConfigResponse, MalaiProtocol,
};
use crate::table::Table;
use crate::text::{concat, contains, is_substring};

verus! {

/// The file whose lock makes a daemon the only one on its root.
pub const LOCK_FILE: &'static str = "malai.lock";

/// The socket on which a running daemon takes orders.
pub const SOCKET_FILE: &'static str = "malai.socket";

/// The directory that holds one directory for each cluster.
pub const CLUSTERS_DIR: &'static str = "clusters";

/// A listener to spawn: the number under which it is kept, and which of the
/// scanned clusters it serves.
#[derive(Clone, Copy, Debug, PartialEq, Eq, Structural)]
pub struct ListenerStart {
    pub task: u64,
    /// The cluster's position in the scan.
    pub cluster: usize,
}

/// What a rescan asks of the caller: first abort these tasks, then spawn
/// these listeners.
#[derive(Debug)]
pub struct RescanPlan {
    pub abort: Vec<u64>,
    pub start: Vec<ListenerStart>,
}

/// No number is left for another listener task.
#[derive(Clone, Copy, Debug, PartialEq, Eq, Structural)]
pub struct TasksExhausted;

pub struct DaemonState {
    cluster_listeners: Table<u64>,
    malai_home: String,
    next_task: u64,
}

/// The books after listeners were started for the clusters of a scan, and
/// the listeners that were started.
pub struct Started {
    pub listeners: Map<Seq<char>, u64>,
    pub next_task: nat,
    pub starts: Seq<ListenerStart>,
}

/// Whether a rescan of `only` concerns a cluster.
pub open spec fn concerns(only: Option<Seq<char>>, alias: Seq<char>) -> bool {
    match only {
        Some(name) => alias == name,
        None => true,
    }
}

/// Starting listeners for the clusters of a scan, in the order of the scan:
/// each cluster that the rescan concerns and that has no listener gets one,
/// under the next number.
pub open spec fn started(
    listeners: Map<Seq<char>, u64>,
    next_task: nat,
    found: Seq<ClusterIdentityView>,
    only: Option<Seq<char>>,
) -> Started
    decreases found.len(),
{
    if found.len() == 0 {
        Started { listeners, next_task, starts: Seq::empty() }
    } else {
        let before = started(listeners, next_task, found.drop_last(), only);
        let alias = found.last().alias;
        if concerns(only, alias) && !before.listeners.contains_key(alias) {
            Started {
                listeners: before.listeners.insert(alias, before.next_task as u64),
                next_task: before.next_task + 1,
                starts: before.starts.push(
                    ListenerStart {
                        task: before.next_task as u64,
                        cluster: (found.len() - 1) as usize,
                    },
                ),
            }
        } else {
            before
        }
    }
}

/// The listeners that a rescan leaves in place before it starts new ones.
pub open spec fn kept(listeners: Map<Seq<char>, u64>, only: Option<Seq<char>>) -> Map<
    Seq<char>,
    u64,
> {
    match only {
        Some(name) => listeners.remove(name),
        None => Map::empty(),
    }
}

/// The tasks that a rescan aborts.
pub open spec fn aborted(listeners: Map<Seq<char>, u64>, only: Option<Seq<char>>) -> Set<u64> {
    Set::new(
        |task: u64|
            exists|alias: Seq<char>|
                listeners.contains_key(alias) && concerns(only, alias) && listeners[alias]
                    == task,
    )
}

pub open spec fn cluster_views(found: Seq<ClusterIdentity>) -> Seq<ClusterIdentityView> {
    found.map_values(|c: ClusterIdentity| c@)
}

impl DaemonState {
    /// The listener tasks by cluster alias.
    pub closed spec fn view(&self) -> Map<Seq<char>, u64> {
        self.cluster_listeners@
    }

    /// The number that the next listener task gets.
    pub closed spec fn next_task(&self) -> nat {
        self.next_task as nat
    }

    pub closed spec fn home(&self) -> Seq<char> {
        self.malai_home@
    }

    /// What the books always satisfy: every task's number has been given
    /// out, and no two clusters share a task.
    pub closed spec fn wf(&self) -> bool {
        &&& self.cluster_listeners.wf()
        &&& forall|alias: Seq<char>|
            self@.contains_key(alias) ==> (#[trigger] self@[alias]) < self.next_task
        &&& forall|a: Seq<char>, b: Seq<char>|
            self@.contains_key(a) && self@.contains_key(b) && a != b ==> self@[a] != self@[b]
    }

    /// Exactly one listener for a cluster: no two clusters share a task, and
    /// every task was numbered before the next number.
    pub proof fn lemma_one_listener_per_cluster(&self)
        requires
            self.wf(),
        ensures
            forall|alias: Seq<char>|
                self@.contains_key(alias) ==> (#[trigger] self@[alias]) < self.next_task(),
            forall|a: Seq<char>, b: Seq<char>|
                self@.contains_key(a) && self@.contains_key(b) && a != b ==> self@[a] != self@[b],
    {
    }

    /// The books of a daemon that serves no cluster yet.
    pub fn new(malai_home: String) -> (state: Self)
        ensures
            state.wf(),
            state@ == Map::<Seq<char>, u64>::empty(),
            state.next_task() == 0,
            state.home() == malai_home@,
    {
        DaemonState { cluster_listeners: Table::new(), malai_home, next_task: 0 }
    }

    pub fn malai_home(&self) -> (home: &String)
        ensures
            home@ == self.home(),
    {
        &self.malai_home
    }

    /// How many listeners run.
    pub fn listener_count(&self) -> (count: usize)
        requires
            self.wf(),
        ensures
            self@.dom().finite(),
            count == self@.len(),
    {
        self.cluster_listeners.len()
    }

    /// The task that serves a cluster, where one does.
    pub fn listener(&self, alias: &str) -> (task: Option<u64>)
        requires
            self.wf(),
        ensures
            match task {
                Some(t) => self@.contains_key(alias@) && self@[alias@] == t,
                None => !self@.contains_key(alias@),
            },
    {
        match self.cluster_listeners.get(alias) {
            Some(task) => Some(*task),
            None => None,
        }
    }
}

/// Whether the rescan concerns the cluster.
fn is_concerned(only: Option<&str>, alias: &str) -> (yes: bool)
    ensures
        yes == concerns(
            match only {
                Some(name) => Some(name@),
                None => None,
            },
            alias@,
        ),
{
    match only {
        Some(name) => crate::text::same_text(alias, name),
        None => true,
    }
}

pub open spec fn only_view(only: Option<&str>) -> Option<Seq<char>> {
    match only {
        Some(name) => Some(name@),
        None => None,
    }
}

/// The names of a list, as a set.
pub open spec fn name_set(names: Seq<String>) -> Set<Seq<char>> {
    Set::new(|name: Seq<char>| exists|i: int| 0 <= i < names.len() && names[i]@ == name)
}

impl DaemonState {
    /// Strikes the listeners of the named clusters from the books and says
    /// which tasks to abort. A name without a listener is passed over.
    pub fn stop_cluster_listeners(&mut self, cluster_names: &[String]) -> (tasks: Vec<u64>)
        requires
            old(self).wf(),
        ensures
            final(self).wf(),
            final(self).next_task() == old(self).next_task(),
            final(self).home() == old(self).home(),
            final(self)@ == old(self)@.remove_keys(name_set(cluster_names@)),
            forall|task: u64|
                tasks@.contains(task) <==> exists|alias: Seq<char>|
                    name_set(cluster_names@).contains(alias) && old(self)@.contains_key(alias)
                        && old(self)@[alias] == task,
            tasks@.no_duplicates(),
    {
        let mut tasks: Vec<u64> = Vec::new();
        let mut i: usize = 0;
        assert(self@ =~= old(self)@.remove_keys(name_set(cluster_names@.take(0))));
        while i < cluster_names.len()
            invariant
                i <= cluster_names.len(),
                self.wf(),
                old(self).wf(),
                self.next_task() == old(self).next_task(),
                self.home() == old(self).home(),
                self@ == old(self)@.remove_keys(name_set(cluster_names@.take(i as int))),
                forall|task: u64|
                    tasks@.contains(task) <==> exists|alias: Seq<char>|
                        name_set(cluster_names@.take(i as int)).contains(alias) && old(
                            self,
                        )@.contains_key(alias) && old(self)@[alias] == task,
                tasks@.no_duplicates(),
            decreases cluster_names.len() - i,
        {
            let ghost shorter = cluster_names@.take(i as int);
            let ghost longer = cluster_names@.take(i + 1);
            let ghost seen = name_set(shorter);
            let ghost more = name_set(longer);
            let ghost name = cluster_names@[i as int]@;
            let ghost before = self@;
            let ghost tasks_before = tasks@;
            proof {
                assert forall|n: Seq<char>| more.contains(n) <==> seen.contains(n) || n
                    == name by {
                    if more.contains(n) {
                        let j = choose|j: int| 0 <= j < longer.len() && longer[j]@ == n;
                        if j < i {
                            assert(shorter[j]@ == n);
                        }
                    }
                    if seen.contains(n) {
                        let j = choose|j: int| 0 <= j < shorter.len() && shorter[j]@ == n;
                        assert(longer[j]@ == n);
                    }
                    if n == name {
                        assert(longer[i as int]@ == n);
                    }
                }
            }
            match self.cluster_listeners.remove(cluster_names[i].as_str()) {
                Some(task) => {
                    tasks.push(task);
                    proof {
                        assert(before.contains_key(name) && before[name] == task);
                        assert(!seen.contains(name));
                        assert(old(self)@.contains_key(name) && old(self)@[name] == task);
                        assert(!tasks_before.contains(task)) by {
                            if tasks_before.contains(task) {
                                let other = choose|alias: Seq<char>|
                                    seen.contains(alias) && old(self)@.contains_key(alias) && old(
                                        self,
                                    )@[alias] == task;
                                assert(other != name);
                            }
                        }
                        assert forall|t: u64| tasks@.contains(t) <==> exists|alias: Seq<char>|
                            more.contains(alias) && old(self)@.contains_key(alias) && old(
                                self,
                            )@[alias] == t by {
                            if tasks@.contains(t) {
                                let k = choose|k: int| 0 <= k < tasks@.len() && tasks@[k] == t;
                                if k < tasks_before.len() {
                                    assert(tasks_before[k] == t);
                                    assert(tasks_before.contains(t));
                                    let alias = choose|alias: Seq<char>|
                                        seen.contains(alias) && old(self)@.contains_key(alias)
                                            && old(self)@[alias] == t;
                                    assert(more.contains(alias));
                                } else {
                                    assert(more.contains(name));
                                }
                            }
                            if exists|alias: Seq<char>|
                                more.contains(alias) && old(self)@.contains_key(alias) && old(
                                    self,
                                )@[alias] == t {
                                let alias = choose|alias: Seq<char>|
                                    more.contains(alias) && old(self)@.contains_key(alias) && old(
                                        self,
                                    )@[alias] == t;
                                if alias == name {
                                    assert(tasks@[tasks_before.len() as int] == t);
                                } else {
                                    assert(seen.contains(alias));
                                    assert(tasks_before.contains(t));
                                    let k = choose|k: int|
                                        0 <= k < tasks_before.len() && tasks_before[k] == t;
                                    assert(tasks@[k] == t);
                                }
                            }
                        }
                    }
                },
                None => {
                    proof {
                        assert(!before.contains_key(name));
                        assert forall|t: u64| tasks@.contains(t) <==> exists|alias: Seq<char>|
                            more.contains(alias) && old(self)@.contains_key(alias) && old(
                                self,
                            )@[alias] == t by {
                            if tasks@.contains(t) {
                                let alias = choose|alias: Seq<char>|
                                    seen.contains(alias) && old(self)@.contains_key(alias) && old(
                                        self,
                                    )@[alias] == t;
                                assert(more.contains(alias));
                            }
                            if exists|alias: Seq<char>|
                                more.contains(alias) && old(self)@.contains_key(alias) && old(
                                    self,
                                )@[alias] == t {
                                let alias = choose|alias: Seq<char>|
                                    more.contains(alias) && old(self)@.contains_key(alias) && old(
                                        self,
                                    )@[alias] == t;
                                if alias == name {
                                    assert(seen.contains(name));
                                }
                                assert(seen.contains(alias));
                            }
                        }
                    }
                },
            }
            proof {
                assert(self@ =~= old(self)@.remove_keys(more));
            }
            i += 1;
        }
        assert(cluster_names@.take(cluster_names@.len() as int) =~= cluster_names@);
        tasks
    }
}

impl DaemonState {
    /// Strikes every listener from the books and says which tasks to abort.
    pub fn stop_all_cluster_listeners(&mut self) -> (tasks: Vec<u64>)
        requires
            old(self).wf(),
        ensures
            final(self).wf(),
            final(self).next_task() == old(self).next_task(),
            final(self).home() == old(self).home(),
            final(self)@ == Map::<Seq<char>, u64>::empty(),
            forall|task: u64|
                tasks@.contains(task) <==> exists|alias: Seq<char>|
                    old(self)@.contains_key(alias) && old(self)@[alias] == task,
            tasks@.no_duplicates(),
    {
        let mut tasks: Vec<u64> = Vec::new();
        let count = self.cluster_listeners.len();
        let ghost pairs = self.cluster_listeners.pairs();
        let mut i: usize = 0;
        while i < count
            invariant
                i <= count,
                count == pairs.len(),
                pairs == self.cluster_listeners.pairs(),
                self.wf(),
                self@ == old(self)@,
                tasks@.len() == i,
                forall|j: int| 0 <= j < i ==> tasks@[j] == pairs[j].1,
            decreases count - i,
        {
            tasks.push(*self.cluster_listeners.value_at(i));
            i += 1;
        }
        proof {
            assert forall|task: u64| tasks@.contains(task) <==> exists|alias: Seq<char>|
                old(self)@.contains_key(alias) && old(self)@[alias] == task by {
                if tasks@.contains(task) {
                    let j = choose|j: int| 0 <= j < tasks@.len() && tasks@[j] == task;
                    lemma_as_map_at(pairs, j);
                    assert(old(self)@.contains_key(pairs[j].0) && old(self)@[pairs[j].0] == task);
                }
                if exists|alias: Seq<char>|
                    old(self)@.contains_key(alias) && old(self)@[alias] == task {
                    let alias = choose|alias: Seq<char>|
                        old(self)@.contains_key(alias) && old(self)@[alias] == task;
                    let j = lemma_as_map_from(pairs, alias);
                    assert(tasks@[j] == task);
                }
            }
            assert forall|a: int, b: int| 0 <= a < b < tasks@.len() implies tasks@[a]
                != tasks@[b] by {
                lemma_as_map_at(pairs, a);
                lemma_as_map_at(pairs, b);
            }
        }
        self.cluster_listeners = Table::new();
        tasks
    }

    /// Puts a listener in the books for each scanned cluster that the rescan
    /// concerns and that has none, and says which listeners to spawn.
    ///
    /// Fails, and changes nothing, only where the numbers for the tasks
    /// would run out.
    pub fn start_cluster_listeners(&mut self, found: &[ClusterIdentity], only: Option<&str>) -> (starts:
        Result<Vec<ListenerStart>, TasksExhausted>)
        requires
            old(self).wf(),
        ensures
            final(self).wf(),
            final(self).home() == old(self).home(),
            match starts {
                Ok(list) => {
                    let s = started(
                        old(self)@,
                        old(self).next_task(),
                        cluster_views(found@),
                        only_view(only),
                    );
                    &&& old(self).next_task() + found@.len() <= u64::MAX
                    &&& final(self)@ == s.listeners
                    &&& final(self).next_task() == s.next_task
                    &&& list@ == s.starts
                },
                Err(_) => {
                    &&& old(self).next_task() + found@.len() > u64::MAX
                    &&& final(self)@ == old(self)@
                    &&& final(self).next_task() == old(self).next_task()
                },
            },
    {
        if found.len() as u64 > u64::MAX - self.next_task {
            return Err(TasksExhausted);
        }
        let mut starts: Vec<ListenerStart> = Vec::new();
        let ghost views = cluster_views(found@);
        let ghost chosen = only_view(only);
        let mut i: usize = 0;
        assert(views.take(0) =~= Seq::empty());
        while i < found.len()
            invariant
                i <= found.len(),
                views == cluster_views(found@),
                chosen == only_view(only),
                old(self).wf(),
                self.wf(),
                self.home() == old(self).home(),
                self.next_task() + (found.len() - i) <= u64::MAX,
                ({
                    let s = started(old(self)@, old(self).next_task(), views.take(i as int), chosen);
                    &&& self@ == s.listeners
                    &&& self.next_task() == s.next_task
                    &&& starts@ == s.starts
                }),
            decreases found.len() - i,
        {
            proof {
                assert(views.take(i + 1).drop_last() =~= views.take(i as int));
                assert(views.take(i + 1).last() == found@[i as int]@);
            }
            let alias = found[i].alias.as_str();
            if is_concerned(only, alias) && !self.cluster_listeners.contains_key(alias) {
                let task = self.next_task;
                let ghost before = self@;
                self.cluster_listeners.insert(found[i].alias.clone(), task);
                self.next_task = task + 1;
                starts.push(ListenerStart { task, cluster: i });
                proof {
                    assert(self@ == before.insert(alias@, task));
                    assert forall|a: Seq<char>, b: Seq<char>|
                        self@.contains_key(a) && self@.contains_key(b) && a != b implies self@[a]
                        != self@[b] by {
                        if a != alias@ {
                            assert(before.contains_key(a) && before[a] < task);
                        }
                        if b != alias@ {
                            assert(before.contains_key(b) && before[b] < task);
                        }
                    }
                }
            }
            i += 1;
        }
        assert(views.take(found@.len() as int) =~= views);
        Ok(starts)
    }

    /// A rescan: for one cluster where `cluster_name` names it, for all of
    /// them otherwise.
    ///
    /// The listeners of the clusters that the rescan concerns are struck from
    /// the books and are to be aborted; those of the scanned clusters that it
    /// concerns are put in under new numbers and are to be spawned after
    /// that. Listeners that the rescan does not concern are left alone.
    ///
    /// Fails, and changes nothing, only where the numbers for the tasks
    /// would run out.
    pub fn perform_real_daemon_rescan(
        &mut self,
        cluster_name: Option<&str>,
        found: &[ClusterIdentity],
    ) -> (plan: Result<RescanPlan, TasksExhausted>)
        requires
            old(self).wf(),
        ensures
            final(self).wf(),
            final(self).home() == old(self).home(),
            match plan {
                Ok(plan) => {
                    let s = started(
                        kept(old(self)@, only_view(cluster_name)),
                        old(self).next_task(),
                        cluster_views(found@),
                        only_view(cluster_name),
                    );
                    &&& old(self).next_task() + found@.len() <= u64::MAX
                    &&& final(self)@ == s.listeners
                    &&& final(self).next_task() == s.next_task
                    &&& plan.start@ == s.starts
                    &&& plan.abort@.no_duplicates()
                    &&& forall|task: u64|
                        plan.abort@.contains(task) <==> aborted(
                            old(self)@,
                            only_view(cluster_name),
                        ).contains(task)
                },
                Err(_) => {
                    &&& old(self).next_task() + found@.len() > u64::MAX
                    &&& final(self)@ == old(self)@
                    &&& final(self).next_task() == old(self).next_task()
                },
            },
    {
        if found.len() as u64 > u64::MAX - self.next_task {
            return Err(TasksExhausted);
        }
        let abort = match cluster_name {
            Some(name) => {
                let mut names: Vec<String> = Vec::new();
                names.push(name.to_owned());
                let tasks = self.stop_cluster_listeners(names.as_slice());
                proof {
                    assert(name_set(names@) =~= set![name@]) by {
                        assert(names@[0]@ == name@);
                    }
                    assert(old(self)@.remove_keys(set![name@]) =~= old(self)@.remove(name@));
                    assert forall|task: u64| tasks@.contains(task) <==> aborted(
                        old(self)@,
                        Some(name@),
                    ).contains(task) by {
                        if tasks@.contains(task) {
                            let alias = choose|alias: Seq<char>|
                                name_set(names@).contains(alias) && old(self)@.contains_key(alias)
                                    && old(self)@[alias] == task;
                            assert(concerns(Some(name@), alias));
                        }
                        if aborted(old(self)@, Some(name@)).contains(task) {
                            let alias = choose|alias: Seq<char>|
                                old(self)@.contains_key(alias) && concerns(Some(name@), alias)
                                    && old(self)@[alias] == task;
                            assert(name_set(names@).contains(alias));
                        }
                    }
                }
                tasks
            },
            None => self.stop_all_cluster_listeners(),
        };
        match self.start_cluster_listeners(found, cluster_name) {
            Ok(start) => Ok(RescanPlan { abort, start }),
            Err(_) => Err(TasksExhausted),
        }
    }
}

/// What starting listeners changes, where the numbers for the tasks do not
/// run out: clusters that had a listener keep it, every cluster that the
/// rescan concerns and the scan found has one afterwards, and each new task
/// has a number that was not given out before.
pub proof fn lemma_started_frame(
    listeners: Map<Seq<char>, u64>,
    next_task: nat,
    found: Seq<ClusterIdentityView>,
    only: Option<Seq<char>>,
)
    requires
        next_task + found.len() <= u64::MAX,
    ensures
        ({
            let s = started(listeners, next_task, found, only);
            &&& s.next_task >= next_task
            &&& s.next_task <= next_task + found.len()
            &&& forall|alias: Seq<char>|
                listeners.contains_key(alias) ==> #[trigger] s.listeners.contains_key(alias)
                    && s.listeners[alias] == listeners[alias]
            &&& forall|alias: Seq<char>|
                !listeners.contains_key(alias) && #[trigger] s.listeners.contains_key(alias) ==> {
                    &&& concerns(only, alias)
                    &&& next_task <= s.listeners[alias] < s.next_task
                    &&& exists|i: int| 0 <= i < found.len() && found[i].alias == alias
                }
            &&& forall|i: int|
                0 <= i < found.len() && concerns(only, found[i].alias)
                    ==> #[trigger] s.listeners.contains_key(found[i].alias)
        }),
    decreases found.len(),
{
    if found.len() > 0 {
        lemma_started_frame(listeners, next_task, found.drop_last(), only);
        let before = started(listeners, next_task, found.drop_last(), only);
        let s = started(listeners, next_task, found, only);
        assert forall|alias: Seq<char>|
            !listeners.contains_key(alias) && #[trigger] s.listeners.contains_key(
                alias,
            ) implies exists|i: int| 0 <= i < found.len() && found[i].alias == alias by {
            if before.listeners.contains_key(alias) {
                let i = choose|i: int|
                    0 <= i < found.drop_last().len() && found.drop_last()[i].alias == alias;
                assert(found[i].alias == alias);
            } else {
                assert(found[found.len() - 1].alias == alias);
            }
        }
        assert forall|i: int|
            0 <= i < found.len() && concerns(only, found[i].alias) implies #[trigger]
            s.listeners.contains_key(found[i].alias) by {
            if i < found.len() - 1 {
                assert(found.drop_last()[i].alias == found[i].alias);
                assert(before.listeners.contains_key(found.drop_last()[i].alias));
            }
        }
    }
}

/// Selective rescan: after a rescan of one cluster that has numbers left for
/// its tasks, every other cluster has the listener task that it had, and the
/// cluster itself has a task that no cluster had before, or none where the
/// scan did not find it.
pub proof fn lemma_selective_rescan(
    state: &DaemonState,
    name: Seq<char>,
    found: Seq<ClusterIdentityView>,
)
    requires
        state.wf(),
        state.next_task() + found.len() <= u64::MAX,
    ensures
        ({
            let s = started(kept(state@, Some(name)), state.next_task(), found, Some(name));
            &&& forall|other: Seq<char>|
                other != name ==> (#[trigger] s.listeners.contains_key(other)
                    <==> state@.contains_key(other))
            &&& forall|other: Seq<char>|
                other != name && state@.contains_key(other) ==> #[trigger] s.listeners[other]
                    == state@[other]
            &&& s.listeners.contains_key(name) <==> exists|i: int|
                0 <= i < found.len() && found[i].alias == name
            &&& s.listeners.contains_key(name) ==> forall|any: Seq<char>|
                state@.contains_key(any) ==> #[trigger] state@[any] != s.listeners[name]
        }),
{
    state.lemma_one_listener_per_cluster();
    lemma_started_frame(kept(state@, Some(name)), state.next_task(), found, Some(name));
    let s = started(kept(state@, Some(name)), state.next_task(), found, Some(name));
    assert forall|other: Seq<char>| other != name implies (#[trigger] s.listeners.contains_key(
        other,
    ) <==> state@.contains_key(other)) by {
        if state@.contains_key(other) {
            assert(kept(state@, Some(name)).contains_key(other));
        }
    }
    assert forall|other: Seq<char>|
        other != name && state@.contains_key(other) implies #[trigger] s.listeners[other]
        == state@[other] by {
        assert(kept(state@, Some(name)).contains_key(other));
        assert(s.listeners.contains_key(other));
    }
    if exists|i: int| 0 <= i < found.len() && found[i].alias == name {
        let i = choose|i: int| 0 <= i < found.len() && found[i].alias == name;
        assert(s.listeners.contains_key(found[i].alias));
    }
}

/// The handlers of a cluster's listener.
#[derive(Clone, Copy, Debug, PartialEq, Eq, Structural)]
pub enum ClusterHandler {
    Config,
    Command,
}

/// The protocols that the listener of a cluster serves.
pub fn listener_protocols() -> (protocols: Vec<MalaiProtocol>)
    ensures
        protocols@ == seq![MalaiProtocol::ConfigUpdate, MalaiProtocol::ExecuteCommand],
{
    crate::malai_server::server_protocols()
}

/// The handler that a request goes to.
pub fn run_cluster_listener(protocol: MalaiProtocol) -> (handler: ClusterHandler)
    ensures
        protocol == MalaiProtocol::ConfigUpdate <==> handler is Config,
        protocol == MalaiProtocol::ExecuteCommand <==> handler is Command,
{
    match protocol {
        MalaiProtocol::ConfigUpdate => ClusterHandler::Config,
        MalaiProtocol::ExecuteCommand => ClusterHandler::Command,
    }
}

/// Whether the access list of a configuration lets a client in: it does
/// where it opens the host to everybody, or names the client.
pub open spec fn spec_validate_basic_acl(config_content: Seq<char>, client_id52: Seq<char>) -> bool {
    is_substring("allow_from = \"*\""@, config_content) || is_substring(
        client_id52,
        config_content,
    )
}

/// Whether the access list of a configuration lets a client in.
pub fn validate_basic_acl(config_content: &str, client_id52: &str) -> (allowed: bool)
    ensures
        allowed == spec_validate_basic_acl(config_content@, client_id52@),
{
    contains(config_content, "allow_from = \"*\"") || contains(config_content, client_id52)
}

/// Whether a host in `role` takes a configuration update: a machine, or a
/// host that waits for its configuration, writes it to `machine.toml`; a
/// cluster manager makes configurations and takes none.
pub fn handle_config_for_cluster(role: ClusterRole) -> (target: Result<&'static str, ConfigError>)
    ensures
        match target {
            Ok(file) => !(role is ClusterManager) && file@ == "machine.toml"@,
            Err(error) => role is ClusterManager && error.message@
                == "cluster managers do not receive config updates"@,
        },
{
    match role {
        ClusterRole::ClusterManager => Err(
            ConfigError { message: "cluster managers do not receive config updates".to_owned() },
        ),
        ClusterRole::Machine => Ok("machine.toml"),
        ClusterRole::Waiting => Ok("machine.toml"),
    }
}

/// The answer to a configuration update, once the configuration was written
/// or could not be: `saved` holds the error of the write where it failed.
pub fn config_saved(cluster_alias: &str, saved: Result<(), String>) -> (answer: Result<
    ConfigResponse,
    ConfigError,
>)
    ensures
        match saved {
            Ok(()) => answer matches Ok(response) && response.success && response.message@
                == "Config received for cluster "@ + cluster_alias@,
            Err(cause) => answer matches Err(error) && error.message@
                == "Failed to save config: "@ + cause@,
        },
{
    match saved {
        Ok(()) => Ok(
            ConfigResponse {
                success: true,
                message: concat("Config received for cluster ", cluster_alias),
            },
        ),
        Err(cause) => Err(
            ConfigError { message: concat("Failed to save config: ", cause.as_str()) },
        ),
    }
}

/// What stands in the way of a command, if anything, for a host in `role`
/// whose configuration file was read with the outcome `config`.
pub open spec fn spec_command_refusal(
    role: ClusterRole,
    config: Result<String, String>,
    client_id52: Seq<char>,
) -> Option<CommandErrorKind> {
    match role {
        ClusterRole::Waiting => Some(CommandErrorKind::WaitingConfig),
        _ => match config {
            Err(_) => Some(CommandErrorKind::NoConfig),
            Ok(content) => if spec_validate_basic_acl(content@, client_id52) {
                None
            } else {
                Some(CommandErrorKind::PermissionDenied)
            },
        },
    }
}

/// Decides whether a command is run.
///
/// `config` is the text of the role's configuration file, or the error of
/// reading it. A host that waits for its configuration runs nothing; without
/// a readable configuration nothing is run; and a client that the access
/// list does not let in is refused with `permission_denied`. Only `Ok` lets
/// the caller spawn the command.
pub fn handle_command_for_cluster(
    cmd_req: &CommandRequest,
    role: ClusterRole,
    config: Result<String, String>,
) -> (verdict: Result<(), CommandError>)
    ensures
        match verdict {
            Ok(()) => spec_command_refusal(role, config, cmd_req.client_id52@).is_none(),
            Err(error) => {
                &&& spec_command_refusal(role, config, cmd_req.client_id52@) matches Some(kind)
                &&& error.error_type@ == kind.spec_name()
                &&& error.message@ == (match kind {
                    CommandErrorKind::WaitingConfig => "Machine waiting for configuration"@,
                    CommandErrorKind::PermissionDenied => "Access denied"@,
                    _ => (if role is ClusterManager {
                        "No cluster.toml found: "@
                    } else {
                        "No machine.toml found: "@
                    }) + config->Err_0@,
                })
            },
        },
{
    match role {
        ClusterRole::Waiting => Err(
            CommandError::new(
                CommandErrorKind::WaitingConfig,
                "Machine waiting for configuration".to_owned(),
            ),
        ),
        _ => match config {
            Err(cause) => {
                let head = match role {
                    ClusterRole::ClusterManager => "No cluster.toml found: ",
                    _ => "No machine.toml found: ",
                };
                Err(CommandError::new(CommandErrorKind::NoConfig, concat(head, cause.as_str())))
            },
            Ok(content) => {
                if validate_basic_acl(content.as_str(), cmd_req.client_id52.as_str()) {
                    Ok(())
                } else {
                    Err(
                        CommandError::new(
                            CommandErrorKind::PermissionDenied,
                            "Access denied".to_owned(),
                        ),
                    )
                }
            },
        },
    }
}

/// Permission denied: a client that the configuration neither names nor lets
/// in with everybody else is refused, whatever it asks for, so nothing is
/// spawned for it.
pub proof fn lemma_permission_denied(role: ClusterRole, content: String, client_id52: Seq<char>)
    requires
        !(role is Waiting),
        !spec_validate_basic_acl(content@, client_id52),
    ensures
        spec_command_refusal(role, Ok(content), client_id52) == Some(
            CommandErrorKind::PermissionDenied,
        ),
{
}

} // verus!
