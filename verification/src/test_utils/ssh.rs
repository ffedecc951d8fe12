//! A cluster of three machines for tests, and the configuration text that
//! describes it.

use vstd::prelude::*;
use crate::text::{concat, u64_to_string, decimal};

verus! {

/// Helpers for tests of remote access.
#[derive(Clone, Copy, Debug)]
pub struct SshTestHelper;

/// A cluster with a manager, a server and a client.
#[derive(Debug)]
pub struct BasicCluster {
    pub cluster_id: String,
    pub manager_name: String,
    pub server_name: String,
    pub client_name: String,
}

impl BasicCluster {
    /// The name of the machine that manages the cluster.
    pub fn manager(&self) -> (name: &str)
        ensures
            name@ == self.manager_name@,
    {
        self.manager_name.as_str()
    }

    /// The name of the machine that takes remote commands.
    pub fn server(&self) -> (name: &str)
        ensures
            name@ == self.server_name@,
    {
        self.server_name.as_str()
    }

    /// The name of the machine that sends them.
    pub fn client(&self) -> (name: &str)
        ensures
            name@ == self.client_name@,
    {
        self.client_name.as_str()
    }

    pub fn cluster_id(&self) -> (id: &str)
        ensures
            id@ == self.cluster_id@,
    {
        self.cluster_id.as_str()
    }
}

/// The section of a configuration that describes a machine.
pub open spec fn spec_machine_section(
    machine_alias: Seq<char>,
    machine_id52: Seq<char>,
    accept_ssh: bool,
    allow_from: Seq<char>,
) -> Seq<char> {
    let head = "\n[machine."@ + machine_alias + "]\nid52 = \""@ + machine_id52 + "\"\n"@;
    if accept_ssh {
        head + "accept_ssh = true\nallow_from = \""@ + allow_from + "\"\n"@
    } else {
        head
    }
}

/// The section of a configuration that describes an HTTP service of a
/// machine.
pub open spec fn spec_service_section(
    machine_alias: Seq<char>,
    service_name: Seq<char>,
    port: u16,
    allow_from: Seq<char>,
) -> Seq<char> {
    "\n[machine."@ + machine_alias + ".service."@ + service_name + "]\nport = "@ + decimal(
        port as nat,
    ) + "\nallow_from = \""@ + allow_from + "\"\n"@
}

impl SshTestHelper {
    /// The names of the machines of a basic cluster with the given
    /// identifier: `cluster-manager`, `ssh-server` and `client`.
    pub fn create_basic_cluster(cluster_id: String) -> (cluster: BasicCluster)
        ensures
            cluster.cluster_id == cluster_id,
            cluster.manager_name@ == "cluster-manager"@,
            cluster.server_name@ == "ssh-server"@,
            cluster.client_name@ == "client"@,
    {
        BasicCluster {
            cluster_id,
            manager_name: "cluster-manager".to_owned(),
            server_name: "ssh-server".to_owned(),
            client_name: "client".to_owned(),
        }
    }

    /// The text that adds a machine to a configuration. A machine that does
    /// not take remote commands has no access list.
    pub fn add_machine_to_cluster(
        machine_alias: &str,
        machine_id52: &str,
        accept_ssh: bool,
        allow_from: &str,
    ) -> (section: String)
        ensures
            section@ == spec_machine_section(
                machine_alias@,
                machine_id52@,
                accept_ssh,
                allow_from@,
            ),
    {
        let a = concat("\n[machine.", machine_alias);
        let b = concat(a.as_str(), "]\nid52 = \"");
        let c = concat(b.as_str(), machine_id52);
        let head = concat(c.as_str(), "\"\n");
        if accept_ssh {
            let d = concat(head.as_str(), "accept_ssh = true\nallow_from = \"");
            let e = concat(d.as_str(), allow_from);
            concat(e.as_str(), "\"\n")
        } else {
            head
        }
    }

    /// The text that adds an HTTP service to a machine of a configuration.
    pub fn add_http_service(
        machine_alias: &str,
        service_name: &str,
        port: u16,
        allow_from: &str,
    ) -> (section: String)
        ensures
            section@ == spec_service_section(machine_alias@, service_name@, port, allow_from@),
    {
        let a = concat("\n[machine.", machine_alias);
        let b = concat(a.as_str(), ".service.");
        let c = concat(b.as_str(), service_name);
        let d = concat(c.as_str(), "]\nport = ");
        let number = u64_to_string(port as u64);
        let e = concat(d.as_str(), number.as_str());
        let f = concat(e.as_str(), "\nallow_from = \"");
        let g = concat(f.as_str(), allow_from);
        concat(g.as_str(), "\"\n")
    }
}

} // verus!
