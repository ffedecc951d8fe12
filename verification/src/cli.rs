//! The commands of the command line, and the decisions that running them
//! takes before anything is read, written or sent.

use vstd::prelude::*;
use crate::malai_server::{CallOutcome, CommandError, CommandResponse};
use crate::text::{concat, contains, is_substring, same_text, spec_split_once, split_once};
use crate::toml_value::TomlValue;

verus! {

/// What the command line is asked to do.
#[derive(Debug)]
#[allow(inconsistent_fields)]
pub enum Command {
    /// Expose an HTTP service.
    Http { port: u16, host: String, bridge: String, public: bool },
    /// Browse a site.
    Browse { url: String },
    /// Expose a TCP service.
    Tcp { port: u16, host: String, public: bool },
    /// Forward HTTP requests to the ID52 in their host header.
    HttpBridge { proxy_target: Option<String>, port: u16 },
    /// Forward TCP connections to an ID52.
    TcpBridge { proxy_target: String, port: u16 },
    /// Expose a folder.
    Folder { path: String, bridge: String, public: bool },
    /// Run all the services.
    Run { home: Option<String> },
    /// Serve the requests of HTTP proxies.
    HttpProxyRemote { public: bool },
    /// Forward HTTP requests to a remote.
    HttpProxy { remote: String, port: u16 },
    /// Generate a new identity.
    Keygen { file: Option<String> },
    Cluster { cluster_command: ClusterCommand },
    Machine { machine_command: MachineCommand },
    /// Start the daemon.
    Daemon { environment: bool, foreground: bool },
    /// Show the clusters of this machine.
    Info,
    /// Show the state of the daemon and the clusters.
    Status,
    TestSimple,
    StartServer,
    TestReal,
    /// Scan the cluster directories and show the roles.
    ScanRoles,
    /// Apply configuration changes.
    Rescan { check: bool, cluster_name: Option<String> },
    Service { service_command: ServiceCommand },
    Config { config_command: ConfigCommand },
    Identity { identity_command: IdentityCommand },
    /// `<machine> <command> <args..>`
    External(Vec<String>),
}

#[derive(Debug)]
pub enum ClusterCommand {
    Init { cluster_name: String },
}

#[derive(Debug)]
pub enum MachineCommand {
    Init { cluster_manager: String, cluster_alias: String },
}

#[derive(Debug)]
pub enum ServiceCommand {
    Add { service_type: String, name: String, target: String },
    Remove { name: String },
    List,
}

#[derive(Debug)]
#[allow(inconsistent_fields)]
pub enum IdentityCommand {
    Create { name: Option<String> },
    List,
    Export { name: String },
    Import { file: String },
    Delete { name: String },
}

#[derive(Debug)]
pub enum ConfigCommand {
    Download { cluster: String },
    Upload { file: String, force: bool },
    Edit { cluster: String },
    Show { cluster: String },
    Validate { file: String },
}

/// A step of the `rescan` command.
#[derive(Debug)]
pub enum RescanStep {
    /// Check the configuration files of one cluster, or of all.
    Check(Option<String>),
    /// Ask the daemon to rescan one cluster, or all.
    Reload(Option<String>),
}

/// What the files of a cluster directory allow a direct command to use.
#[derive(Clone, Copy, Debug, PartialEq, Eq, Structural)]
pub struct ClusterDirState {
    pub exists: bool,
    pub has_cluster_key: bool,
    pub has_machine_key: bool,
    pub has_cluster_toml: bool,
    pub has_machine_toml: bool,
}

/// Why a direct command cannot be run.
#[derive(Clone, Copy, Debug, PartialEq, Eq, Structural)]
pub enum DirectError {
    /// The address is not `machine.cluster`.
    InvalidFormat,
    ClusterNotFound,
    /// Both private keys are there.
    BothKeys,
    NoIdentity,
    NoConfig,
    /// The configuration has no `machine` member.
    NoMachineSection,
    /// The `machine` member is no table.
    NoMachinesTable,
    MachineNotFound,
    /// The machine's member is no table.
    InvalidMachineConfig,
    NoId52,
}

/// The files that a direct command reads.
#[derive(Debug)]
pub struct DirectPlan {
    pub machine_alias: String,
    pub cluster_alias: String,
    /// The file that holds the identity to act under.
    pub key_file: &'static str,
    /// The file that holds the configuration to look the machine up in.
    pub config_file: &'static str,
}

/// Where a direct command runs.
#[derive(Debug)]
pub enum DirectTarget {
    /// On this machine, without the network.
    Local,
    /// On the machine with this ID52.
    Remote(String),
}

/// The answer to `--public` not being passed: what to tell the user.
pub open spec fn spec_public_refusal(service: Seq<char>, cmd: Seq<char>) -> Seq<Seq<char>> {
    seq![
        "You need to pass --public to expose the "@ + service
            + ". This is a security feature to prevent exposing your service to the public without your knowledge."@,
        "Instead, run: "@ + cmd,
        "In future, we will add a way to add access control."@,
    ]
}

/// Whether a service may be exposed: only where the user has asked for it
/// to be public. Where not, the lines that say so.
pub fn public_check(public: bool, service: &str, cmd: &str) -> (refusal: Option<Vec<String>>)
    ensures
        match refusal {
            None => public,
            Some(lines) => !public && crate::text::text_views(lines@) == spec_public_refusal(
                service@,
                cmd@,
            ),
        },
{
    if public {
        return None;
    }
    let mut lines: Vec<String> = Vec::new();
    let head = concat("You need to pass --public to expose the ", service);
    lines.push(
        concat(
            head.as_str(),
            ". This is a security feature to prevent exposing your service to the public without your knowledge.",
        ),
    );
    lines.push(concat("Instead, run: ", cmd));
    lines.push("In future, we will add a way to add access control.".to_owned());
    assert(crate::text::text_views(lines@) =~= spec_public_refusal(service@, cmd@));
    Some(lines)
}

/// The configuration root: what `MALAI_HOME` says, else `malai` under the
/// data directory of the platform, else `malai`.
pub fn get_malai_home(malai_home: Option<String>, data_dir: Option<String>) -> (home: String)
    ensures
        match malai_home {
            Some(set) => home == set,
            None => match data_dir {
                Some(dir) => home@ == dir@ + "/malai"@,
                None => home@ == "malai"@,
            },
        },
{
    match malai_home {
        Some(set) => set,
        None => match data_dir {
            Some(dir) => concat(dir.as_str(), "/malai"),
            None => "malai".to_owned(),
        },
    }
}

/// The lines that `daemon -e` prints for the shell.
pub fn start_malai_daemon(malai_home: &str) -> (lines: Vec<String>)
    ensures
        crate::text::text_views(lines@) == seq![
            "MALAI_HOME="@ + malai_home@,
            "MALAI_DAEMON_SOCK="@ + malai_home@ + "/"@ + crate::daemon::SOCKET_FILE@,
        ],
{
    let mut lines: Vec<String> = Vec::new();
    lines.push(concat("MALAI_HOME=", malai_home));
    let a = concat("MALAI_DAEMON_SOCK=", malai_home);
    let b = concat(a.as_str(), "/");
    lines.push(concat(b.as_str(), crate::daemon::SOCKET_FILE));
    assert(crate::text::text_views(lines@) =~= seq![
        "MALAI_HOME="@ + malai_home@,
        "MALAI_DAEMON_SOCK="@ + malai_home@ + "/"@ + crate::daemon::SOCKET_FILE@,
    ]);
    lines
}

/// The steps of `rescan`: with `--check` the configuration is checked and
/// left alone; without it, it is checked and then the daemon is asked to
/// apply it.
pub fn rescan_steps(check: bool, cluster_name: Option<String>) -> (steps: Vec<RescanStep>)
    ensures
        steps@.len() == (if check {
            1nat
        } else {
            2nat
        }),
        steps@[0] matches RescanStep::Check(name) && name == cluster_name,
        !check ==> (steps@[1] matches RescanStep::Reload(name) && name == cluster_name),
{
    let mut steps: Vec<RescanStep> = Vec::new();
    if check {
        steps.push(RescanStep::Check(cluster_name));
    } else {
        let again = match &cluster_name {
            Some(name) => Some(name.clone()),
            None => None,
        };
        steps.push(RescanStep::Check(again));
        steps.push(RescanStep::Reload(cluster_name));
    }
    steps
}

/// The machine and the cluster of an address of the form
/// `machine.cluster`, with exactly one dot.
pub open spec fn spec_machine_address(address: Seq<char>) -> Option<(Seq<char>, Seq<char>)> {
    match spec_split_once(address, '.') {
        Some((machine, cluster)) => if is_substring("."@, cluster) {
            None
        } else {
            Some((machine, cluster))
        },
        None => None,
    }
}

/// The key file and the configuration file that a direct command uses.
pub open spec fn spec_direct_files(state: ClusterDirState) -> Result<
    (Seq<char>, Seq<char>),
    DirectError,
> {
    if !state.exists {
        Err(DirectError::ClusterNotFound)
    } else if state.has_cluster_key && state.has_machine_key {
        Err(DirectError::BothKeys)
    } else if !state.has_cluster_key && !state.has_machine_key {
        Err(DirectError::NoIdentity)
    } else if !state.has_cluster_toml && !state.has_machine_toml {
        Err(DirectError::NoConfig)
    } else {
        Ok(
            (
                if state.has_cluster_key {
                    "cluster.private-key"@
                } else {
                    "machine.private-key"@
                },
                if state.has_cluster_toml {
                    "cluster.toml"@
                } else {
                    "machine.toml"@
                },
            ),
        )
    }
}

/// Takes an address of the form `machine.cluster` apart. An address with
/// no dot, or with more than one, is none.
pub fn parse_machine_address(machine_address: &str) -> (parts: Option<(String, String)>)
    ensures
        match parts {
            Some((machine, cluster)) => spec_machine_address(machine_address@) == Some(
                (machine@, cluster@),
            ),
            None => spec_machine_address(machine_address@).is_none(),
        },
{
    match split_once(machine_address, '.') {
        Some((machine, cluster)) => {
            if contains(cluster, ".") {
                None
            } else {
                Some((machine.to_owned(), cluster.to_owned()))
            }
        },
        None => None,
    }
}

/// Plans a command that is run without the daemon: takes the address
/// apart, and picks the identity and the configuration of the cluster.
///
/// The identity is the cluster manager's where only its key is there, and
/// the machine's where only that is; the configuration is `cluster.toml`
/// where it is there, else `machine.toml`.
pub fn execute_direct_command(machine_address: &str, state: ClusterDirState) -> (plan: Result<
    DirectPlan,
    DirectError,
>)
    ensures
        match plan {
            Ok(found) => {
                &&& spec_machine_address(machine_address@) == Some(
                    (found.machine_alias@, found.cluster_alias@),
                )
                &&& spec_direct_files(state) == Ok::<(Seq<char>, Seq<char>), DirectError>(
                    (found.key_file@, found.config_file@),
                )
            },
            Err(error) => if spec_machine_address(machine_address@).is_none() {
                error == DirectError::InvalidFormat
            } else {
                spec_direct_files(state) == Err::<(Seq<char>, Seq<char>), DirectError>(error)
            },
        },
{
    let (machine_alias, cluster_alias) = match parse_machine_address(machine_address) {
        Some(parts) => parts,
        None => {
            return Err(DirectError::InvalidFormat);
        },
    };
    if !state.exists {
        return Err(DirectError::ClusterNotFound);
    }
    let key_file = if state.has_cluster_key && !state.has_machine_key {
        "cluster.private-key"
    } else if state.has_machine_key && !state.has_cluster_key {
        "machine.private-key"
    } else if state.has_cluster_key && state.has_machine_key {
        return Err(DirectError::BothKeys);
    } else {
        return Err(DirectError::NoIdentity);
    };
    let config_file = if state.has_cluster_toml {
        "cluster.toml"
    } else if state.has_machine_toml {
        "machine.toml"
    } else {
        return Err(DirectError::NoConfig);
    };
    Ok(DirectPlan { machine_alias, cluster_alias, key_file, config_file })
}

/// The ID52 of a machine in a configuration: the `id52` of the member of
/// `machine` with the machine's name. An `id52` that is no text counts as
/// empty.
pub open spec fn spec_machine_id52(config: TomlValue, machine_alias: Seq<char>) -> Result<
    Seq<char>,
    DirectError,
> {
    match config.spec_get("machine"@) {
        None => Err(DirectError::NoMachineSection),
        Some(machines) => if !(machines is Table) {
            Err(DirectError::NoMachinesTable)
        } else {
            match machines.spec_get(machine_alias) {
                None => Err(DirectError::MachineNotFound),
                Some(machine) => if !(machine is Table) {
                    Err(DirectError::InvalidMachineConfig)
                } else {
                    match machine.spec_get("id52"@) {
                        None => Err(DirectError::NoId52),
                        Some(TomlValue::Text(text)) => Ok(text@),
                        Some(_) => Ok(Seq::empty()),
                    }
                },
            }
        },
    }
}

/// Looks a machine's ID52 up in a configuration.
pub fn find_machine_id52_in_config(config: &TomlValue, machine_alias: &str) -> (id52: Result<
    String,
    DirectError,
>)
    ensures
        match id52 {
            Ok(text) => spec_machine_id52(*config, machine_alias@) == Ok::<
                Seq<char>,
                DirectError,
            >(text@),
            Err(error) => spec_machine_id52(*config, machine_alias@) == Err::<
                Seq<char>,
                DirectError,
            >(error),
        },
{
    let machines = match config.get("machine") {
        Some(machines) => machines,
        None => {
            return Err(DirectError::NoMachineSection);
        },
    };
    if !machines.is_table() {
        return Err(DirectError::NoMachinesTable);
    }
    let machine = match machines.get(machine_alias) {
        Some(machine) => machine,
        None => {
            return Err(DirectError::MachineNotFound);
        },
    };
    if !machine.is_table() {
        return Err(DirectError::InvalidMachineConfig);
    }
    match machine.get("id52") {
        None => Err(DirectError::NoId52),
        Some(value) => match value.as_str() {
            Some(text) => Ok(text.to_owned()),
            None => Ok(String::new()),
        },
    }
}

/// Where a direct command runs: on this machine where the target is the
/// machine itself, else on the target.
pub fn direct_target(config: &TomlValue, machine_alias: &str, own_id52: &str) -> (target: Result<
    DirectTarget,
    DirectError,
>)
    ensures
        match target {
            Ok(DirectTarget::Local) => spec_machine_id52(*config, machine_alias@) == Ok::<
                Seq<char>,
                DirectError,
            >(own_id52@),
            Ok(DirectTarget::Remote(id52)) => id52@ != own_id52@ && spec_machine_id52(
                *config,
                machine_alias@,
            ) == Ok::<Seq<char>, DirectError>(id52@),
            Err(error) => spec_machine_id52(*config, machine_alias@) == Err::<
                Seq<char>,
                DirectError,
            >(error),
        },
{
    match find_machine_id52_in_config(config, machine_alias) {
        Ok(id52) => {
            if same_text(id52.as_str(), own_id52) {
                Ok(DirectTarget::Local)
            } else {
                Ok(DirectTarget::Remote(id52))
            }
        },
        Err(error) => Err(error),
    }
}

/// Seconds that a remote command may take.
pub const REMOTE_TIMEOUT_SECS: u64 = 30;

/// Why a remote command cannot be sent.
#[derive(Clone, Copy, Debug, PartialEq, Eq, Structural)]
pub enum RemoteError {
    /// The address names no cluster.
    InvalidAddress,
    /// The cluster has no configuration on this machine.
    NoClusterConfig,
    /// This machine has no identity.
    NoIdentity,
}

/// The machine and the cluster that a remote command goes to.
#[derive(Debug)]
pub struct RemotePlan {
    pub machine_alias: String,
    pub cluster_alias: String,
}

/// The first two of the fields that dots part an address into.
pub open spec fn spec_remote_address(address: Seq<char>) -> Option<(Seq<char>, Seq<char>)> {
    match spec_split_once(address, '.') {
        Some((machine, rest)) => match spec_split_once(rest, '.') {
            Some((cluster, _)) => Some((machine, cluster)),
            None => Some((machine, rest)),
        },
        None => None,
    }
}

/// Plans a command that is sent to a machine of a cluster: the address must
/// name a machine and a cluster, the cluster must have a configuration here,
/// and this machine must have an identity.
pub fn send_remote_access_command(
    machine_address: &str,
    has_cluster_config: bool,
    has_identity: bool,
) -> (plan: Result<RemotePlan, RemoteError>)
    ensures
        match plan {
            Ok(found) => {
                &&& spec_remote_address(machine_address@) == Some(
                    (found.machine_alias@, found.cluster_alias@),
                )
                &&& has_cluster_config
                &&& has_identity
            },
            Err(error) => error == (if spec_remote_address(machine_address@).is_none() {
                RemoteError::InvalidAddress
            } else if !has_cluster_config {
                RemoteError::NoClusterConfig
            } else {
                RemoteError::NoIdentity
            }) && !(spec_remote_address(machine_address@).is_some() && has_cluster_config
                && has_identity),
        },
{
    let (machine, rest) = match split_once(machine_address, '.') {
        Some(parts) => parts,
        None => {
            return Err(RemoteError::InvalidAddress);
        },
    };
    let cluster = match split_once(rest, '.') {
        Some((cluster, _)) => cluster,
        None => rest,
    };
    if !has_cluster_config {
        return Err(RemoteError::NoClusterConfig);
    }
    if !has_identity {
        return Err(RemoteError::NoIdentity);
    }
    Ok(RemotePlan { machine_alias: machine.to_owned(), cluster_alias: cluster.to_owned() })
}

/// What the sender of a remote command makes of the outcome; `None` stands
/// for a call that took longer than `REMOTE_TIMEOUT_SECS`.
pub fn remote_access_finished(outcome: Option<CallOutcome<CommandResponse, CommandError>>) -> (result:
    Result<CommandResponse, String>)
    ensures
        match outcome {
            Some(CallOutcome::Answered(response)) => result matches Ok(same) && same == response,
            Some(CallOutcome::Refused(error)) => result matches Err(text) && text@
                == "Remote access error: "@ + error.error_type@ + ": "@ + error.message@,
            Some(CallOutcome::Unreachable(cause)) => result matches Err(text) && text@
                == "P2P communication failed: "@ + cause@,
            None => result matches Err(text) && text@
                == "Remote command timed out after 30 seconds"@,
        },
{
    match outcome {
        Some(CallOutcome::Answered(response)) => Ok(response),
        Some(CallOutcome::Refused(error)) => {
            let head = concat("Remote access error: ", error.error_type.as_str());
            let middle = concat(head.as_str(), ": ");
            Err(concat(middle.as_str(), error.message.as_str()))
        },
        Some(CallOutcome::Unreachable(cause)) => Err(
            concat("P2P communication failed: ", cause.as_str()),
        ),
        None => Err("Remote command timed out after 30 seconds".to_owned()),
    }
}

/// The lines that tell the user that no identity could be read.
pub fn identity_read_err_msg(error: &str) -> (lines: Vec<String>)
    ensures
        crate::text::text_views(lines@) == seq![
            "failed to get identity"@,
            "malai uses your system keyring for storing identities securely."@,
            "use `malai keygen` if system keyring is not available."@,
            "full error:"@,
            error@,
        ],
{
    let mut lines: Vec<String> = Vec::new();
    lines.push("failed to get identity".to_owned());
    lines.push("malai uses your system keyring for storing identities securely.".to_owned());
    lines.push("use `malai keygen` if system keyring is not available.".to_owned());
    lines.push("full error:".to_owned());
    lines.push(error.to_owned());
    assert(crate::text::text_views(lines@) =~= seq![
        "failed to get identity"@,
        "malai uses your system keyring for storing identities securely."@,
        "use `malai keygen` if system keyring is not available."@,
        "full error:"@,
        error@,
    ]);
    lines
}

} // verus!
