//! The client's side of remote access: how a server is addressed, and what
//! the client makes of the server's answer.

use vstd::prelude::*;
use crate::config::{accessible, name_views, Config};
use crate::identity::Identity;
use crate::malai_server::CallOutcome;
use crate::protocol::{ExecuteError, ExecuteRequest, ExecuteResponse, ShellRequest};
use crate::text::{concat, contains, is_substring, spec_split_once, split_once};

verus! {

pub struct Client {
    identity: Identity,
    data_dir: String,
}

/// The cluster of a server address.
#[derive(Clone, Debug)]
pub struct ClusterInfo {
    pub cluster_id: String,
    /// Whether the cluster is named by a domain rather than by an ID52.
    pub is_domain: bool,
}

/// A server address taken apart: the node, and the cluster that it is in.
#[derive(Clone, Debug)]
pub struct ServerAddress {
    pub node: String,
    pub cluster: ClusterInfo,
}

/// The address holds no dot: it names no cluster.
#[derive(Clone, Copy, Debug, PartialEq, Eq, Structural)]
pub struct InvalidAddress;

/// Helpers for remote access from the command line.
#[derive(Clone, Copy, Debug)]
pub struct SshUtils;

impl Client {
    pub closed spec fn identity(&self) -> Identity {
        self.identity
    }

    pub closed spec fn dir(&self) -> Seq<char> {
        self.data_dir@
    }

    pub fn new(identity: Identity, data_dir: String) -> (client: Self)
        ensures
            client.identity() == identity,
            client.dir() == data_dir@,
    {
        Client { identity, data_dir }
    }

    pub fn get_identity(&self) -> (identity: &Identity)
        ensures
            *identity == self.identity(),
    {
        &self.identity
    }

    pub fn get_data_dir(&self) -> (dir: &String)
        ensures
            dir@ == self.dir(),
    {
        &self.data_dir
    }

    /// Takes a server address apart at its first dot: the node stands before
    /// it and the cluster after it. A cluster with a dot of its own is a
    /// domain. An address without a dot is refused.
    pub fn parse_server_address(&self, address: &str) -> (parsed: Result<
        ServerAddress,
        InvalidAddress,
    >)
        ensures
            match parsed {
                Ok(found) => {
                    &&& spec_split_once(address@, '.') == Some(
                        (found.node@, found.cluster.cluster_id@),
                    )
                    &&& found.cluster.is_domain == is_substring("."@, found.cluster.cluster_id@)
                },
                Err(_) => spec_split_once(address@, '.').is_none(),
            },
    {
        match split_once(address, '.') {
            Some((node, cluster)) => Ok(
                ServerAddress {
                    node: node.to_owned(),
                    cluster: ClusterInfo {
                        cluster_id: cluster.to_owned(),
                        is_domain: contains(cluster, "."),
                    },
                },
            ),
            None => Err(InvalidAddress),
        }
    }

    /// The directory in which the client keeps what it knows of a cluster.
    pub fn get_cluster_dir(&self, cluster_id: &str) -> (dir: String)
        ensures
            dir@ == self.dir() + "/ssh/clusters/"@ + cluster_id@,
    {
        let base = concat(self.data_dir.as_str(), "/ssh/clusters/");
        concat(base.as_str(), cluster_id)
    }

    /// The file that holds the configuration of a cluster.
    pub fn cluster_config_path(&self, cluster_id: &str) -> (path: String)
        ensures
            path@ == self.dir() + "/ssh/clusters/"@ + cluster_id@ + "/cluster-config.toml"@,
    {
        let dir = self.get_cluster_dir(cluster_id);
        concat(dir.as_str(), "/cluster-config.toml")
    }

    /// The machines of a cluster that the client may run commands on.
    pub fn get_available_servers(&self, config: &Config) -> (servers: Vec<String>)
        requires
            config.wf(),
        ensures
            name_views(servers@) == accessible(config.machines.pairs(), self.identity().id52@),
    {
        config.get_accessible_machines(self.identity.id52.as_str())
    }

    /// The request that asks a server to run a command in the client's
    /// name, with the environment and the directory that the caller found.
    pub fn execute_command(
        &self,
        command: &str,
        args: Vec<String>,
        env: Vec<(String, String)>,
        working_dir: Option<String>,
    ) -> (request: ExecuteRequest)
        ensures
            request.client_id52 == self.identity().id52,
            request.command@ == command@,
            request.args == args,
            request.env == env,
            request.working_dir == working_dir,
    {
        ExecuteRequest {
            client_id52: self.identity.id52.clone(),
            command: command.to_owned(),
            args,
            env,
            working_dir,
        }
    }

    /// The request that asks a server for a shell in the client's name.
    pub fn start_shell(&self, env: Vec<(String, String)>) -> (request: ShellRequest)
        ensures
            request.client_id52 == self.identity().id52,
            request.terminal_size.is_none(),
            request.env == env,
    {
        ShellRequest { client_id52: self.identity.id52.clone(), terminal_size: None, env }
    }
}

/// What the client makes of the answer to a command: the response, or the
/// error to report.
pub fn command_executed(outcome: CallOutcome<ExecuteResponse, ExecuteError>) -> (result: Result<
    ExecuteResponse,
    String,
>)
    ensures
        match outcome {
            CallOutcome::Answered(response) => result matches Ok(same) && same == response,
            CallOutcome::Refused(error) => result matches Err(text) && text@
                == "SSH execute error: "@ + crate::protocol::spec_error_text(
                error.message@,
                error.error_code.spec_name(),
            ),
            CallOutcome::Unreachable(cause) => result matches Err(text) && text@
                == "Failed to call remote server: "@ + cause@,
        },
{
    match outcome {
        CallOutcome::Answered(response) => Ok(response),
        CallOutcome::Refused(error) => {
            let shown = error.to_string();
            Err(concat("SSH execute error: ", shown.as_str()))
        },
        CallOutcome::Unreachable(cause) => Err(
            concat("Failed to call remote server: ", cause.as_str()),
        ),
    }
}

} // verus!
