//! The cluster manager's view of its members: which configuration each one
//! has last been seen with.

use vstd::prelude::*;
use crate::config::{machine_views, name_views, Config};
use crate::table::Table;

verus! {

/// The configuration of a cluster, and what is known of its members.
pub struct ClusterManager {
    config: Config,
    config_path: String,
    config_hash: String,
    /// The hash of the configuration that each member was last seen with,
    /// by the member's ID52.
    member_hashes: Table<String>,
}

/// The names of a table, in its order.
pub open spec fn table_names<V>(pairs: Seq<(Seq<char>, V)>) -> Seq<Seq<char>> {
    pairs.map_values(|pair: (Seq<char>, V)| pair.0)
}

impl ClusterManager {
    pub closed spec fn config(&self) -> Config {
        self.config
    }

    pub closed spec fn hash(&self) -> Seq<char> {
        self.config_hash@
    }

    pub closed spec fn path(&self) -> Seq<char> {
        self.config_path@
    }

    /// The hash that each member was last seen with.
    pub closed spec fn member_hashes(&self) -> Map<Seq<char>, String> {
        self.member_hashes@
    }

    pub closed spec fn wf(&self) -> bool {
        self.config.wf() && self.member_hashes.wf()
    }

    /// A manager for a configuration that was read from `config_path` and
    /// whose hash is `config_hash`. Nothing is known of the members yet.
    pub fn new(config: Config, config_path: String, config_hash: String) -> (manager: Self)
        requires
            config.wf(),
        ensures
            manager.wf(),
            manager.config() == config,
            manager.path() == config_path@,
            manager.hash() == config_hash@,
            manager.member_hashes() == Map::<Seq<char>, String>::empty(),
    {
        ClusterManager { config, config_path, config_hash, member_hashes: Table::new() }
    }

    pub fn get_config(&self) -> (config: &Config)
        ensures
            *config == self.config(),
    {
        &self.config
    }

    pub fn get_config_path(&self) -> (path: &String)
        ensures
            path@ == self.path(),
    {
        &self.config_path
    }

    pub fn get_config_hash(&self) -> (hash: &String)
        ensures
            hash@ == self.hash(),
    {
        &self.config_hash
    }

    /// The configuration as a member gets it: without the manager's private
    /// key and without the name of the file that holds it.
    pub fn get_member_config(&self, _member_id52: &str) -> (filtered: Config)
        requires
            self.wf(),
        ensures
            filtered.wf(),
            filtered.cluster_manager.id52 == self.config().cluster_manager.id52,
            filtered.cluster_manager.use_keyring == self.config().cluster_manager.use_keyring,
            filtered.cluster_manager.private_key.is_none(),
            filtered.cluster_manager.private_key_file.is_none(),
            machine_views(filtered.machines.pairs()) == machine_views(
                self.config().machines.pairs(),
            ),
            filtered.groups.pairs() == self.config().groups.pairs(),
    {
        self.config.without_secrets()
    }

    /// Whether a member was last seen with the configuration as it is now.
    /// A member that was never seen was not.
    pub fn is_member_config_current(&self, member_id52: &str) -> (current: bool)
        requires
            self.wf(),
        ensures
            current == (self.member_hashes().contains_key(member_id52@) && self.member_hashes()[
                member_id52@
            ]@ == self.hash()),
    {
        match self.member_hashes.get(member_id52) {
            Some(hash) => crate::text::same_text(hash.as_str(), self.config_hash.as_str()),
            None => false,
        }
    }

    /// Notes the hash of the configuration that a member has.
    pub fn update_member_hash(&mut self, member_id52: String, hash: String)
        requires
            old(self).wf(),
        ensures
            final(self).wf(),
            final(self).member_hashes() == old(self).member_hashes().insert(member_id52@, hash),
            final(self).config() == old(self).config(),
            final(self).hash() == old(self).hash(),
            final(self).path() == old(self).path(),
    {
        self.member_hashes.insert(member_id52, hash);
    }

    /// The names of all machines of the cluster, in the order of the
    /// configuration.
    pub fn get_all_members(&self) -> (members: Vec<String>)
        ensures
            name_views(members@) == table_names(self.config().machines.pairs()),
    {
        let mut members: Vec<String> = Vec::new();
        let count = self.config.machines.len();
        let ghost pairs = self.config.machines.pairs();
        let mut i: usize = 0;
        while i < count
            invariant
                i <= count,
                count == pairs.len(),
                pairs == self.config.machines.pairs(),
                members@.len() == i,
                forall|j: int| 0 <= j < i ==> (#[trigger] members@[j])@ == pairs[j].0,
            decreases count - i,
        {
            members.push(self.config.machines.name_at(i).clone());
            i += 1;
        }
        assert(name_views(members@) =~= table_names(pairs));
        members
    }
}

} // verus!
