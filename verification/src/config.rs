//! The configuration of a cluster, and who may do what under it.

use vstd::prelude::*;
use crate::assoc::lemma_as_map_from;
use crate::table::Table;
use crate::text::{contains, is_substring};

verus! {

/// The configuration of a cluster.
#[derive(Clone, Debug)]
pub struct Config {
    pub cluster_manager: ClusterManagerConfig,
    /// The machines by name.
    pub machines: Table<MachineConfig>,
    /// The groups by name.
    pub groups: Table<GroupConfig>,
}

#[derive(Clone, Debug)]
pub struct ClusterManagerConfig {
    pub id52: String,
    pub use_keyring: bool,
    pub private_key_file: Option<String>,
    pub private_key: Option<String>,
}

/// A machine of the cluster, whatever it is used for.
#[derive(Clone, Debug)]
pub struct MachineConfig {
    pub id52: String,
    /// Whether the machine takes remote commands.
    pub accept_ssh: bool,
    /// Who may run any command on the machine.
    pub allow_from: Option<String>,
    /// Who may run which command, by command.
    pub commands: Table<CommandConfig>,
    /// The HTTP services of the machine, by name.
    pub services: Table<ServiceConfig>,
}

#[derive(Clone, Debug)]
pub struct GroupConfig {
    /// The members, separated by commas.
    pub members: String,
}

#[derive(Clone, Debug)]
pub struct CommandConfig {
    /// ID52s, separated by commas.
    pub allow_from: String,
}

#[derive(Clone, Debug)]
pub struct ServiceConfig {
    pub port: u16,
    /// ID52s, separated by commas, or `*`.
    pub allow_from: String,
}

/// The part that a machine plays in the cluster.
#[derive(Clone, Debug, PartialEq)]
pub enum MachineRole {
    /// The machine manages the cluster.
    ClusterManager,
    /// The machine takes remote commands; with its name.
    SshServer(String),
    /// The machine only sends commands; with its name.
    ClientOnly(String),
    /// The configuration does not know the machine.
    Unknown,
}

/// A role, as the contracts see it.
pub enum MachineRoleView {
    ClusterManager,
    SshServer(Seq<char>),
    ClientOnly(Seq<char>),
    Unknown,
}

impl View for MachineRole {
    type V = MachineRoleView;

    open spec fn view(&self) -> MachineRoleView {
        match self {
            MachineRole::ClusterManager => MachineRoleView::ClusterManager,
            MachineRole::SshServer(name) => MachineRoleView::SshServer(name@),
            MachineRole::ClientOnly(name) => MachineRoleView::ClientOnly(name@),
            MachineRole::Unknown => MachineRoleView::Unknown,
        }
    }
}

/// What a flag of a configuration is where the file does not set it and the
/// flag is on by default.
pub fn default_true() -> (flag: bool)
    ensures
        flag,
{
    true
}

/// Whether an access list lets a client in: it does where it holds the
/// client's ID52, or a `*`.
pub open spec fn lets_in(allow_from: Seq<char>, client_id52: Seq<char>) -> bool {
    is_substring(client_id52, allow_from) || is_substring("*"@, allow_from)
}

fn is_let_in(allow_from: &str, client_id52: &str) -> (allowed: bool)
    ensures
        allowed == lets_in(allow_from@, client_id52@),
{
    contains(allow_from, client_id52) || contains(allow_from, "*")
}

impl MachineConfig {
    /// A machine that only sends commands.
    pub fn new(id52: String) -> (machine: MachineConfig)
        ensures
            machine.wf(),
            machine.id52 == id52,
            !machine.accept_ssh,
            machine.allow_from.is_none(),
            machine.commands@ == Map::<Seq<char>, CommandConfig>::empty(),
            machine.services@ == Map::<Seq<char>, ServiceConfig>::empty(),
    {
        MachineConfig {
            id52,
            accept_ssh: false,
            allow_from: None,
            commands: Table::new(),
            services: Table::new(),
        }
    }

    pub open spec fn wf(&self) -> bool {
        self.commands.wf() && self.services.wf()
    }

    /// Whether the machine's own access list lets the client in.
    pub open spec fn spec_open_to(&self, client_id52: Seq<char>) -> bool {
        self.allow_from matches Some(list) && lets_in(list@, client_id52)
    }

    /// Whether the client may run the command on the machine: the
    /// command's own access list decides where it has one, and the
    /// machine's where it has none.
    pub open spec fn spec_runs(&self, client_id52: Seq<char>, command: Seq<char>) -> bool {
        &&& self.accept_ssh
        &&& if self.commands@.contains_key(command) {
            lets_in(self.commands@[command].allow_from@, client_id52)
        } else {
            self.spec_open_to(client_id52)
        }
    }

    /// Whether the client may reach the service of the machine.
    pub open spec fn spec_serves(&self, client_id52: Seq<char>, service: Seq<char>) -> bool {
        self.services@.contains_key(service) && lets_in(
            self.services@[service].allow_from@,
            client_id52,
        )
    }

    fn is_open_to(&self, client_id52: &str) -> (open: bool)
        ensures
            open == self.spec_open_to(client_id52@),
    {
        match &self.allow_from {
            Some(list) => is_let_in(list.as_str(), client_id52),
            None => false,
        }
    }
}

/// The names of the machines that take remote commands and whose own access
/// list lets the client in, in the order of the table.
pub open spec fn accessible(pairs: Seq<(Seq<char>, MachineConfig)>, client_id52: Seq<char>) -> Seq<
    Seq<char>,
>
    decreases pairs.len(),
{
    if pairs.len() == 0 {
        Seq::empty()
    } else {
        let (name, machine) = pairs.last();
        let before = accessible(pairs.drop_last(), client_id52);
        if machine.accept_ssh && machine.spec_open_to(client_id52) {
            before.push(name)
        } else {
            before
        }
    }
}

/// The role of the first machine of the table that has the ID52.
pub open spec fn machine_role(pairs: Seq<(Seq<char>, MachineConfig)>, id52: Seq<char>) -> MachineRoleView
    decreases pairs.len(),
{
    if pairs.len() == 0 {
        MachineRoleView::Unknown
    } else {
        let (name, machine) = pairs[0];
        if machine.id52@ == id52 {
            if machine.accept_ssh {
                MachineRoleView::SshServer(name)
            } else {
                MachineRoleView::ClientOnly(name)
            }
        } else {
            machine_role(pairs.drop_first(), id52)
        }
    }
}

pub open spec fn name_views(names: Seq<String>) -> Seq<Seq<char>> {
    names.map_values(|name: String| name@)
}

impl Config {
    /// A configuration without machines or groups.
    pub fn new(cluster_manager: ClusterManagerConfig) -> (config: Config)
        ensures
            config.wf(),
            config.cluster_manager == cluster_manager,
            config.machines@ == Map::<Seq<char>, MachineConfig>::empty(),
            config.groups@ == Map::<Seq<char>, GroupConfig>::empty(),
    {
        Config { cluster_manager, machines: Table::new(), groups: Table::new() }
    }

    /// What every configuration satisfies: no name stands twice in any of
    /// its tables.
    pub open spec fn wf(&self) -> bool {
        &&& self.machines.wf()
        &&& self.groups.wf()
        &&& forall|i: int|
            0 <= i < self.machines.pairs().len() ==> (#[trigger] self.machines.pairs()[i]).1.wf()
    }

    pub open spec fn spec_can_execute_command(
        &self,
        client_id52: Seq<char>,
        machine_name: Seq<char>,
        command: Seq<char>,
    ) -> bool {
        self.machines@.contains_key(machine_name) && self.machines@[machine_name].spec_runs(
            client_id52,
            command,
        )
    }

    pub open spec fn spec_can_access_service(
        &self,
        client_id52: Seq<char>,
        machine_name: Seq<char>,
        service_name: Seq<char>,
    ) -> bool {
        self.machines@.contains_key(machine_name) && self.machines@[machine_name].spec_serves(
            client_id52,
            service_name,
        )
    }

    pub open spec fn spec_local_role(&self, local_id52: Seq<char>) -> MachineRoleView {
        if self.cluster_manager.id52@ == local_id52 {
            MachineRoleView::ClusterManager
        } else {
            machine_role(self.machines.pairs(), local_id52)
        }
    }

    /// Every machine of a well-formed configuration is well formed.
    pub proof fn lemma_machine_wf(&self, name: Seq<char>)
        requires
            self.wf(),
            self.machines@.contains_key(name),
        ensures
            self.machines@[name].wf(),
    {
        let i = crate::assoc::lemma_as_map_from(self.machines.pairs(), name);
        assert(self.machines.pairs()[i].1.wf());
    }

    /// The machines that a client may run commands on without asking for a
    /// particular command.
    pub fn get_accessible_machines(&self, client_id52: &str) -> (names: Vec<String>)
        requires
            self.wf(),
        ensures
            name_views(names@) == accessible(self.machines.pairs(), client_id52@),
    {
        let mut names: Vec<String> = Vec::new();
        let count = self.machines.len();
        let ghost pairs = self.machines.pairs();
        let mut i: usize = 0;
        assert(pairs.take(0) =~= Seq::empty());
        assert(name_views(names@) =~= Seq::empty());
        while i < count
            invariant
                i <= count,
                count == pairs.len(),
                pairs == self.machines.pairs(),
                name_views(names@) == accessible(pairs.take(i as int), client_id52@),
            decreases count - i,
        {
            proof {
                assert(pairs.take(i + 1).drop_last() =~= pairs.take(i as int));
                assert(pairs.take(i + 1).last() == pairs[i as int]);
            }
            let machine = self.machines.value_at(i);
            if machine.accept_ssh && machine.is_open_to(client_id52) {
                let ghost before = names@;
                let name = self.machines.name_at(i).clone();
                names.push(name);
                assert(name_views(names@) =~= name_views(before).push(pairs[i as int].0));
            }
            i += 1;
        }
        assert(pairs.take(count as int) =~= pairs);
        names
    }

    /// Whether a client may run a command on a machine: the machine must
    /// take remote commands, and the access list of the command, or the
    /// machine's own where the command has none, must let the client in.
    pub fn can_execute_command(&self, client_id52: &str, machine_name: &str, command: &str) -> (allowed:
        bool)
        requires
            self.wf(),
        ensures
            allowed == self.spec_can_execute_command(client_id52@, machine_name@, command@),
    {
        match self.machines.get(machine_name) {
            Some(machine) => {
                proof {
                    self.lemma_machine_wf(machine_name@);
                }
                if !machine.accept_ssh {
                    return false;
                }
                match machine.commands.get(command) {
                    Some(entry) => is_let_in(entry.allow_from.as_str(), client_id52),
                    None => machine.is_open_to(client_id52),
                }
            },
            None => false,
        }
    }

    /// Whether a client may reach an HTTP service of a machine.
    pub fn can_access_service(&self, client_id52: &str, machine_name: &str, service_name: &str) -> (allowed:
        bool)
        requires
            self.wf(),
        ensures
            allowed == self.spec_can_access_service(client_id52@, machine_name@, service_name@),
    {
        match self.machines.get(machine_name) {
            Some(machine) => {
                proof {
                    self.lemma_machine_wf(machine_name@);
                }
                match machine.services.get(service_name) {
                    Some(service) => is_let_in(service.allow_from.as_str(), client_id52),
                    None => false,
                }
            },
            None => false,
        }
    }

    /// The part that the machine with an ID52 plays: the cluster manager,
    /// or the first machine of the table with that ID52, or none.
    pub fn get_local_role(&self, local_id52: &str) -> (role: MachineRole)
        requires
            self.wf(),
        ensures
            role@ == self.spec_local_role(local_id52@),
    {
        if crate::text::same_text(self.cluster_manager.id52.as_str(), local_id52) {
            return MachineRole::ClusterManager;
        }
        let count = self.machines.len();
        let ghost pairs = self.machines.pairs();
        let mut i: usize = 0;
        assert(pairs.skip(0) =~= pairs);
        while i < count
            invariant
                i <= count,
                count == pairs.len(),
                pairs == self.machines.pairs(),
                self.cluster_manager.id52@ != local_id52@,
                machine_role(pairs, local_id52@) == machine_role(pairs.skip(i as int), local_id52@),
            decreases count - i,
        {
            proof {
                assert(pairs.skip(i as int)[0] == pairs[i as int]);
                assert(pairs.skip(i as int).drop_first() =~= pairs.skip(i + 1));
            }
            let machine = self.machines.value_at(i);
            if crate::text::same_text(machine.id52.as_str(), local_id52) {
                let name = self.machines.name_at(i).clone();
                if machine.accept_ssh {
                    return MachineRole::SshServer(name);
                } else {
                    return MachineRole::ClientOnly(name);
                }
            }
            i += 1;
        }
        assert(pairs.skip(count as int) =~= Seq::empty());
        MachineRole::Unknown
    }
}

/// A machine, as the contracts see it.
pub struct MachineView {
    pub id52: Seq<char>,
    pub accept_ssh: bool,
    pub allow_from: Option<Seq<char>>,
    pub commands: Seq<(Seq<char>, CommandConfig)>,
    pub services: Seq<(Seq<char>, ServiceConfig)>,
}

impl View for MachineConfig {
    type V = MachineView;

    open spec fn view(&self) -> MachineView {
        MachineView {
            id52: self.id52@,
            accept_ssh: self.accept_ssh,
            allow_from: match self.allow_from {
                Some(list) => Some(list@),
                None => None,
            },
            commands: self.commands.pairs(),
            services: self.services.pairs(),
        }
    }
}

/// The machines of a table, as the contracts see them.
pub open spec fn machine_views(pairs: Seq<(Seq<char>, MachineConfig)>) -> Seq<
    (Seq<char>, MachineView),
> {
    pairs.map_values(|pair: (Seq<char>, MachineConfig)| (pair.0, pair.1@))
}

fn copy_option(text: &Option<String>) -> (copy: Option<String>)
    ensures
        copy == *text,
{
    match text {
        Some(t) => Some(t.clone()),
        None => None,
    }
}

fn copy_commands(table: &Table<CommandConfig>) -> (copy: Table<CommandConfig>)
    requires
        table.wf(),
    ensures
        copy.wf(),
        copy.pairs() == table.pairs(),
{
    let mut copy: Table<CommandConfig> = Table::new();
    let count = table.len();
    let ghost pairs = table.pairs();
    let mut i: usize = 0;
    assert(pairs.take(0) =~= Seq::empty());
    while i < count
        invariant
            i <= count,
            count == pairs.len(),
            pairs == table.pairs(),
            table.wf(),
            copy.wf(),
            copy.pairs() == pairs.take(i as int),
        decreases count - i,
    {
        let name = table.name_at(i).clone();
        let value = CommandConfig { allow_from: table.value_at(i).allow_from.clone() };
        proof {
            if copy@.contains_key(name@) {
                let j = lemma_as_map_from(copy.pairs(), name@);
                assert(pairs[j].0 == pairs[i as int].0);
            }
        }
        copy.insert(name, value);
        assert(copy.pairs() =~= pairs.take(i + 1));
        i += 1;
    }
    assert(pairs.take(count as int) =~= pairs);
    copy
}

fn copy_services(table: &Table<ServiceConfig>) -> (copy: Table<ServiceConfig>)
    requires
        table.wf(),
    ensures
        copy.wf(),
        copy.pairs() == table.pairs(),
{
    let mut copy: Table<ServiceConfig> = Table::new();
    let count = table.len();
    let ghost pairs = table.pairs();
    let mut i: usize = 0;
    assert(pairs.take(0) =~= Seq::empty());
    while i < count
        invariant
            i <= count,
            count == pairs.len(),
            pairs == table.pairs(),
            table.wf(),
            copy.wf(),
            copy.pairs() == pairs.take(i as int),
        decreases count - i,
    {
        let name = table.name_at(i).clone();
        let value = ServiceConfig {
            port: table.value_at(i).port,
            allow_from: table.value_at(i).allow_from.clone(),
        };
        proof {
            if copy@.contains_key(name@) {
                let j = lemma_as_map_from(copy.pairs(), name@);
                assert(pairs[j].0 == pairs[i as int].0);
            }
        }
        copy.insert(name, value);
        assert(copy.pairs() =~= pairs.take(i + 1));
        i += 1;
    }
    assert(pairs.take(count as int) =~= pairs);
    copy
}

fn copy_groups(table: &Table<GroupConfig>) -> (copy: Table<GroupConfig>)
    requires
        table.wf(),
    ensures
        copy.wf(),
        copy.pairs() == table.pairs(),
{
    let mut copy: Table<GroupConfig> = Table::new();
    let count = table.len();
    let ghost pairs = table.pairs();
    let mut i: usize = 0;
    assert(pairs.take(0) =~= Seq::empty());
    while i < count
        invariant
            i <= count,
            count == pairs.len(),
            pairs == table.pairs(),
            table.wf(),
            copy.wf(),
            copy.pairs() == pairs.take(i as int),
        decreases count - i,
    {
        let name = table.name_at(i).clone();
        let value = GroupConfig { members: table.value_at(i).members.clone() };
        proof {
            if copy@.contains_key(name@) {
                let j = lemma_as_map_from(copy.pairs(), name@);
                assert(pairs[j].0 == pairs[i as int].0);
            }
        }
        copy.insert(name, value);
        assert(copy.pairs() =~= pairs.take(i + 1));
        i += 1;
    }
    assert(pairs.take(count as int) =~= pairs);
    copy
}

impl MachineConfig {
    /// A copy of the machine.
    pub fn copy(&self) -> (copy: MachineConfig)
        requires
            self.wf(),
        ensures
            copy.wf(),
            copy@ == self@,
    {
        MachineConfig {
            id52: self.id52.clone(),
            accept_ssh: self.accept_ssh,
            allow_from: copy_option(&self.allow_from),
            commands: copy_commands(&self.commands),
            services: copy_services(&self.services),
        }
    }
}

fn copy_machines(table: &Table<MachineConfig>) -> (copy: Table<MachineConfig>)
    requires
        table.wf(),
        forall|i: int| 0 <= i < table.pairs().len() ==> (#[trigger] table.pairs()[i]).1.wf(),
    ensures
        copy.wf(),
        machine_views(copy.pairs()) == machine_views(table.pairs()),
        forall|i: int| 0 <= i < copy.pairs().len() ==> (#[trigger] copy.pairs()[i]).1.wf(),
{
    let mut copy: Table<MachineConfig> = Table::new();
    let count = table.len();
    let ghost pairs = table.pairs();
    let mut i: usize = 0;
    assert(machine_views(copy.pairs()) =~= machine_views(pairs.take(0)));
    while i < count
        invariant
            i <= count,
            count == pairs.len(),
            pairs == table.pairs(),
            table.wf(),
            forall|k: int| 0 <= k < pairs.len() ==> (#[trigger] pairs[k]).1.wf(),
            copy.wf(),
            copy.pairs().len() == i,
            machine_views(copy.pairs()) == machine_views(pairs.take(i as int)),
            forall|k: int| 0 <= k < copy.pairs().len() ==> (#[trigger] copy.pairs()[k]).1.wf(),
        decreases count - i,
    {
        let name = table.name_at(i).clone();
        assert(pairs[i as int].1.wf());
        let value = table.value_at(i).copy();
        let ghost before = copy.pairs();
        proof {
            if copy@.contains_key(name@) {
                let j = lemma_as_map_from(before, name@);
                assert(machine_views(before)[j].0 == machine_views(pairs.take(i as int))[j].0);
                assert(pairs[j].0 == pairs[i as int].0);
            }
        }
        copy.insert(name, value);
        proof {
            assert(copy.pairs() == before.push((name@, value)));
            assert(machine_views(copy.pairs()) =~= machine_views(pairs.take(i + 1))) by {
                assert forall|k: int| 0 <= k < i + 1 implies machine_views(copy.pairs())[k]
                    == machine_views(pairs.take(i + 1))[k] by {
                    if k < i {
                        assert(machine_views(before)[k] == machine_views(pairs.take(i as int))[k]);
                    }
                }
            }
            assert forall|k: int| 0 <= k < copy.pairs().len() implies (#[trigger] copy.pairs()[
                k
            ]).1.wf() by {
                if k < i {
                    assert(copy.pairs()[k] == before[k]);
                }
            }
        }
        i += 1;
    }
    assert(pairs.take(count as int) =~= pairs);
    copy
}

impl Config {
    /// The configuration as a member gets it: a copy without the manager's
    /// private key and without the name of the file that holds it.
    pub fn without_secrets(&self) -> (filtered: Config)
        requires
            self.wf(),
        ensures
            filtered.wf(),
            filtered.cluster_manager.id52 == self.cluster_manager.id52,
            filtered.cluster_manager.use_keyring == self.cluster_manager.use_keyring,
            filtered.cluster_manager.private_key.is_none(),
            filtered.cluster_manager.private_key_file.is_none(),
            machine_views(filtered.machines.pairs()) == machine_views(self.machines.pairs()),
            filtered.groups.pairs() == self.groups.pairs(),
    {
        Config {
            cluster_manager: ClusterManagerConfig {
                id52: self.cluster_manager.id52.clone(),
                use_keyring: self.cluster_manager.use_keyring,
                private_key_file: None,
                private_key: None,
            },
            machines: copy_machines(&self.machines),
            groups: copy_groups(&self.groups),
        }
    }
}

} // verus!
