//! Making a new identity, and setting a machine up for a cluster.

use vstd::prelude::*;
use crate::encoding::hex_text;
use crate::identity::Identity;
use crate::text::{concat, contains, is_substring};

verus! {

/// What to do with a key that was generated.
#[derive(Debug)]
pub enum KeygenStep {
    /// Print the secret key to the standard output.
    Print(String),
    /// Write the secret key and a newline to the file, and say that the key
    /// was saved.
    Save { file: String, content: String },
    /// Say this and exit with code 1.
    Refuse(String),
}

/// What to do with a new identity: print its secret key where no file is
/// named, save it where the file is free, and refuse where the file is
/// there already.
pub fn keygen(identity: &Identity, filename: Option<String>, file_exists: bool) -> (step:
    KeygenStep)
    ensures
        match filename {
            None => step matches KeygenStep::Print(key) && key@ == hex_text(identity.secret_key@),
            Some(name) => if file_exists {
                step matches KeygenStep::Refuse(text) && text@ == "File `"@ + name@
                    + "` already exists. Please choose a different file name."@
            } else {
                &&& step matches KeygenStep::Save { file, content }
                &&& file == name
                &&& content@ == hex_text(identity.secret_key@) + "\n"@
            },
        },
{
    match filename {
        None => KeygenStep::Print(identity.secret_hex()),
        Some(name) => {
            if file_exists {
                let head = concat("File `", name.as_str());
                KeygenStep::Refuse(
                    concat(head.as_str(), "` already exists. Please choose a different file name."),
                )
            } else {
                let hex = identity.secret_hex();
                KeygenStep::Save { file: name, content: concat(hex.as_str(), "\n") }
            }
        },
    }
}

/// The line that announces a new identity.
pub fn keygen_announcement(identity: &Identity) -> (line: String)
    ensures
        line@ == "Generated Public Key (ID52): "@ + identity.id52@,
{
    concat("Generated Public Key (ID52): ", identity.id52.as_str())
}

/// How a cluster manager is named.
#[derive(Debug)]
pub enum ClusterManagerName {
    /// By its ID52.
    Id52(String),
    /// By a domain, whose DNS record holds the ID52.
    Domain(String),
}

/// How a cluster manager is named: a name with a dot is a domain, any other
/// is taken for the ID52 itself.
pub fn resolve_cluster_manager_id52(cluster_identifier: &str) -> (name: ClusterManagerName)
    ensures
        match name {
            ClusterManagerName::Domain(domain) => is_substring("."@, cluster_identifier@)
                && domain@ == cluster_identifier@,
            ClusterManagerName::Id52(id52) => !is_substring("."@, cluster_identifier@) && id52@
                == cluster_identifier@,
        },
{
    if contains(cluster_identifier, ".") {
        ClusterManagerName::Domain(cluster_identifier.to_owned())
    } else {
        ClusterManagerName::Id52(cluster_identifier.to_owned())
    }
}

/// What is written down about the registration of a machine with a
/// cluster.
pub open spec fn spec_cluster_info(
    cluster_alias: Seq<char>,
    cluster_manager_id52: Seq<char>,
    machine_id52: Seq<char>,
    domain: Seq<char>,
) -> Seq<char> {
    "# Cluster registration information\ncluster_alias = \""@ + cluster_alias
        + "\"\ncluster_manager_id52 = \""@ + cluster_manager_id52 + "\"\nmachine_id52 = \""@
        + machine_id52 + "\"\ndomain = \""@ + domain + "\"\n"@
}

/// The files that set a machine up for a cluster.
#[derive(Debug)]
pub struct MachineInit {
    /// The content of `machine.private-key`.
    pub private_key: String,
    /// The content of `cluster-info.toml`.
    pub cluster_info: String,
}

/// What to write to set a machine up for a cluster: its private key, and
/// who manages the cluster. `cluster_manager` is the name that the user gave
/// and `cluster_manager_id52` the ID52 that it stands for.
pub fn init_machine_with_dns_support(
    cluster_manager: &str,
    cluster_manager_id52: &str,
    cluster_alias: &str,
    machine: &Identity,
) -> (files: MachineInit)
    ensures
        files.private_key@ == hex_text(machine.secret_key@),
        files.cluster_info@ == spec_cluster_info(
            cluster_alias@,
            cluster_manager_id52@,
            machine.id52@,
            if is_substring("."@, cluster_manager@) {
                cluster_manager@
            } else {
                Seq::empty()
            },
        ),
{
    let domain = if contains(cluster_manager, ".") {
        cluster_manager
    } else {
        ""
    };
    proof {
        reveal_strlit("");
        assert(""@ =~= Seq::<char>::empty());
    }
    let a = concat("# Cluster registration information\ncluster_alias = \"", cluster_alias);
    let b = concat(a.as_str(), "\"\ncluster_manager_id52 = \"");
    let c = concat(b.as_str(), cluster_manager_id52);
    let d = concat(c.as_str(), "\"\nmachine_id52 = \"");
    let e = concat(d.as_str(), machine.id52.as_str());
    let f = concat(e.as_str(), "\"\ndomain = \"");
    let g = concat(f.as_str(), domain);
    let cluster_info = concat(g.as_str(), "\"\n");
    MachineInit { private_key: machine.secret_hex(), cluster_info }
}

} // verus!
