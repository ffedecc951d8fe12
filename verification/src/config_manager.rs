//! Cluster directories: which role each one gives this host, and which
//! identity goes with it.
//!
//! Reading the directory tree is left to the caller, who hands over what it
//! found as plain values. One broken directory never takes the others down:
//! it is reported and passed over.

use vstd::prelude::*;
use crate::identity::{read_identity, spec_read_identity, Identity, IdentityView};
use crate::text::{
    concat, contains, is_substring, lines, spec_lines, starts_with, text_views, trim, trimmed,
};

verus! {

/// The part that this host plays in a cluster.
#[derive(Clone, Copy, Debug, PartialEq, Eq, Structural)]
pub enum ClusterRole {
    /// `cluster.toml` is there, `machine.toml` is not.
    ClusterManager,
    /// `machine.toml` is there, `cluster.toml` is not.
    Machine,
    /// Neither file is there.
    Waiting,
}

/// Both `cluster.toml` and `machine.toml` are there: the directory has no
/// role.
#[derive(Clone, Copy, Debug, PartialEq, Eq, Structural)]
pub struct RoleConflict;

/// What was found where a key file should be.
#[derive(Debug)]
pub enum KeyFile {
    Missing,
    Unreadable,
    Content(String),
}

/// What a cluster directory holds.
#[derive(Debug)]
pub struct ClusterDir {
    /// The directory's name.
    pub alias: String,
    pub has_cluster_toml: bool,
    pub has_machine_toml: bool,
    /// `cluster.private-key`
    pub cluster_key: KeyFile,
    /// `machine.private-key`
    pub machine_key: KeyFile,
    /// `identity.key`
    pub identity_key: KeyFile,
}

/// Why a cluster directory was passed over.
#[derive(Clone, Copy, Debug, PartialEq, Eq, Structural)]
pub enum ScanFault {
    RoleConflict,
    MissingKey(ClusterRole),
    UnreadableKey(ClusterRole),
    InvalidKey(ClusterRole),
}

#[derive(Debug)]
pub struct ScanError {
    pub alias: String,
    pub fault: ScanFault,
}

/// A cluster that this host takes part in.
#[derive(Debug)]
pub struct ClusterIdentity {
    pub alias: String,
    pub identity: Identity,
    pub role: ClusterRole,
}

pub struct ClusterIdentityView {
    pub alias: Seq<char>,
    pub identity: IdentityView,
    pub role: ClusterRole,
}

impl View for ClusterIdentity {
    type V = ClusterIdentityView;

    open spec fn view(&self) -> ClusterIdentityView {
        ClusterIdentityView { alias: self.alias@, identity: self.identity@, role: self.role }
    }
}

impl View for ScanError {
    type V = (Seq<char>, ScanFault);

    open spec fn view(&self) -> (Seq<char>, ScanFault) {
        (self.alias@, self.fault)
    }
}

/// What a scan found: the clusters that are in order, and what is wrong with
/// the others, each in the order of the directories.
#[derive(Debug)]
pub struct ScanReport {
    pub identities: Vec<ClusterIdentity>,
    pub errors: Vec<ScanError>,
}

/// The role that the two files give, where they give one.
pub open spec fn spec_role(has_cluster_toml: bool, has_machine_toml: bool) -> Option<ClusterRole> {
    if has_cluster_toml && has_machine_toml {
        None
    } else if has_cluster_toml {
        Some(ClusterRole::ClusterManager)
    } else if has_machine_toml {
        Some(ClusterRole::Machine)
    } else {
        Some(ClusterRole::Waiting)
    }
}

/// The key file that a role reads its identity from.
pub open spec fn spec_key_file(dir: ClusterDir, role: ClusterRole) -> KeyFile {
    match role {
        ClusterRole::ClusterManager => dir.cluster_key,
        ClusterRole::Machine => dir.machine_key,
        ClusterRole::Waiting => dir.identity_key,
    }
}

/// What a scan makes of one directory.
pub open spec fn dir_outcome(dir: ClusterDir) -> Result<ClusterIdentityView, ScanFault> {
    match spec_role(dir.has_cluster_toml, dir.has_machine_toml) {
        None => Err(ScanFault::RoleConflict),
        Some(role) => match spec_key_file(dir, role) {
            KeyFile::Missing => Err(ScanFault::MissingKey(role)),
            KeyFile::Unreadable => Err(ScanFault::UnreadableKey(role)),
            KeyFile::Content(text) => match spec_read_identity(text@) {
                Some(identity) => Ok(ClusterIdentityView { alias: dir.alias@, identity, role }),
                None => Err(ScanFault::InvalidKey(role)),
            },
        },
    }
}

/// The clusters that a scan of the directories yields.
pub open spec fn scanned(dirs: Seq<ClusterDir>) -> Seq<ClusterIdentityView>
    decreases dirs.len(),
{
    if dirs.len() == 0 {
        Seq::empty()
    } else {
        match dir_outcome(dirs.last()) {
            Ok(found) => scanned(dirs.drop_last()).push(found),
            Err(_) => scanned(dirs.drop_last()),
        }
    }
}

/// The faults that a scan of the directories reports.
pub open spec fn scan_faults(dirs: Seq<ClusterDir>) -> Seq<(Seq<char>, ScanFault)>
    decreases dirs.len(),
{
    if dirs.len() == 0 {
        Seq::empty()
    } else {
        match dir_outcome(dirs.last()) {
            Ok(_) => scan_faults(dirs.drop_last()),
            Err(fault) => scan_faults(dirs.drop_last()).push((dirs.last().alias@, fault)),
        }
    }
}

pub open spec fn identity_views(found: Seq<ClusterIdentity>) -> Seq<ClusterIdentityView> {
    found.map_values(|c: ClusterIdentity| c@)
}

pub open spec fn error_views(errors: Seq<ScanError>) -> Seq<(Seq<char>, ScanFault)> {
    errors.map_values(|e: ScanError| e@)
}

/// The role of a cluster directory, from which of the two configuration
/// files it holds. A directory that holds both has none.
pub fn detect_cluster_role(has_cluster_toml: bool, has_machine_toml: bool) -> (role: Result<
    ClusterRole,
    RoleConflict,
>)
    ensures
        match role {
            Ok(found) => spec_role(has_cluster_toml, has_machine_toml) == Some(found),
            Err(_) => has_cluster_toml && has_machine_toml,
        },
{
    match (has_cluster_toml, has_machine_toml) {
        (true, true) => Err(RoleConflict),
        (true, false) => Ok(ClusterRole::ClusterManager),
        (false, true) => Ok(ClusterRole::Machine),
        (false, false) => Ok(ClusterRole::Waiting),
    }
}

/// The name of the file that holds the private key of a role.
pub fn key_file_name(role: ClusterRole) -> (name: &'static str)
    ensures
        name@ == (match role {
            ClusterRole::ClusterManager => "cluster.private-key"@,
            ClusterRole::Machine => "machine.private-key"@,
            ClusterRole::Waiting => "identity.key"@,
        }),
{
    match role {
        ClusterRole::ClusterManager => "cluster.private-key",
        ClusterRole::Machine => "machine.private-key",
        ClusterRole::Waiting => "identity.key",
    }
}

/// The name of the configuration file of a role. A host that waits for its
/// configuration has none.
pub fn config_file_name(role: ClusterRole) -> (name: Option<&'static str>)
    ensures
        match role {
            ClusterRole::ClusterManager => name matches Some(n) && n@ == "cluster.toml"@,
            ClusterRole::Machine => name matches Some(n) && n@ == "machine.toml"@,
            ClusterRole::Waiting => name.is_none(),
        },
{
    match role {
        ClusterRole::ClusterManager => Some("cluster.toml"),
        ClusterRole::Machine => Some("machine.toml"),
        ClusterRole::Waiting => None,
    }
}

/// Scans one cluster directory.
pub fn scan_cluster_dir(dir: &ClusterDir) -> (outcome: Result<ClusterIdentity, ScanFault>)
    ensures
        match outcome {
            Ok(found) => dir_outcome(*dir) == Ok::<ClusterIdentityView, ScanFault>(found@),
            Err(fault) => dir_outcome(*dir) == Err::<ClusterIdentityView, ScanFault>(fault),
        },
{
    let role = match detect_cluster_role(dir.has_cluster_toml, dir.has_machine_toml) {
        Ok(role) => role,
        Err(_) => {
            return Err(ScanFault::RoleConflict);
        },
    };
    let key = match role {
        ClusterRole::ClusterManager => &dir.cluster_key,
        ClusterRole::Machine => &dir.machine_key,
        ClusterRole::Waiting => &dir.identity_key,
    };
    match key {
        KeyFile::Missing => Err(ScanFault::MissingKey(role)),
        KeyFile::Unreadable => Err(ScanFault::UnreadableKey(role)),
        KeyFile::Content(text) => match read_identity(text.as_str()) {
            Some(identity) => Ok(ClusterIdentity { alias: dir.alias.clone(), identity, role }),
            None => Err(ScanFault::InvalidKey(role)),
        },
    }
}

/// Scans the cluster directories: for each one that is in order its alias,
/// identity and role, and for each other one what is wrong with it.
pub fn scan_cluster_roles(dirs: &[ClusterDir]) -> (report: ScanReport)
    ensures
        identity_views(report.identities@) == scanned(dirs@),
        error_views(report.errors@) == scan_faults(dirs@),
{
    let mut identities: Vec<ClusterIdentity> = Vec::new();
    let mut errors: Vec<ScanError> = Vec::new();
    let mut i: usize = 0;
    assert(dirs@.take(0) =~= Seq::empty());
    assert(identity_views(identities@) =~= Seq::empty());
    assert(error_views(errors@) =~= Seq::empty());
    while i < dirs.len()
        invariant
            i <= dirs.len(),
            identity_views(identities@) == scanned(dirs@.take(i as int)),
            error_views(errors@) == scan_faults(dirs@.take(i as int)),
        decreases dirs.len() - i,
    {
        let ghost seen = dirs@.take(i as int);
        let ghost grown = dirs@.take(i + 1);
        assert(grown.drop_last() =~= seen);
        assert(grown.last() == dirs@[i as int]);
        let ghost found_before = identities@;
        let ghost errors_before = errors@;
        match scan_cluster_dir(&dirs[i]) {
            Ok(found) => {
                identities.push(found);
                assert(identity_views(identities@) =~= identity_views(found_before).push(found@));
            },
            Err(fault) => {
                let error = ScanError { alias: dirs[i].alias.clone(), fault };
                errors.push(error);
                assert(error_views(errors@) =~= error_views(errors_before).push(error@));
            },
        }
        i += 1;
    }
    assert(dirs@.take(dirs@.len() as int) =~= dirs@);
    ScanReport { identities, errors }
}

/// A scan goes through the directories one by one: what it yields for two
/// lists in a row is what it yields for the first, then for the second.
pub proof fn lemma_scan_concat(first: Seq<ClusterDir>, second: Seq<ClusterDir>)
    ensures
        scanned(first + second) == scanned(first) + scanned(second),
        scan_faults(first + second) == scan_faults(first) + scan_faults(second),
    decreases second.len(),
{
    if second.len() == 0 {
        assert(first + second =~= first);
        assert(scanned(first) + scanned(second) =~= scanned(first));
        assert(scan_faults(first) + scan_faults(second) =~= scan_faults(first));
    } else {
        let all = first + second;
        assert(all.drop_last() =~= first + second.drop_last());
        assert(all.last() == second.last());
        lemma_scan_concat(first, second.drop_last());
        assert(scanned(all) =~= scanned(first) + scanned(second));
        assert(scan_faults(all) =~= scan_faults(first) + scan_faults(second));
    }
}

/// Role conflict: a directory that holds both configuration files is passed
/// over and reported, and the clusters around it are found as if it were
/// not there.
pub proof fn lemma_role_conflict_is_skipped(
    before: Seq<ClusterDir>,
    conflict: ClusterDir,
    after: Seq<ClusterDir>,
)
    requires
        conflict.has_cluster_toml && conflict.has_machine_toml,
    ensures
        scanned(before.push(conflict) + after) == scanned(before + after),
        scan_faults(before.push(conflict) + after) == scan_faults(before) + seq![
            (conflict.alias@, ScanFault::RoleConflict),
        ] + scan_faults(after),
{
    let one = seq![conflict];
    assert(before.push(conflict) =~= before + one);
    assert(one.drop_last() =~= Seq::<ClusterDir>::empty());
    assert(one.last() == conflict);
    assert(scanned(Seq::<ClusterDir>::empty()) =~= Seq::empty());
    assert(scan_faults(Seq::<ClusterDir>::empty()) =~= Seq::empty());
    assert(scanned(one) =~= Seq::empty());
    assert(scan_faults(one) =~= seq![(conflict.alias@, ScanFault::RoleConflict)]);
    lemma_scan_concat(before, one);
    lemma_scan_concat(before + one, after);
    lemma_scan_concat(before, after);
    assert(scanned(before) + scanned(one) =~= scanned(before));
}

/// The message with which `toml::from_str` refuses a text as a TOML
/// document, or `None` where it takes the text.
pub uninterp spec fn toml_syntax_error(content: Seq<char>) -> Option<Seq<char>>;

/// Trusted: `toml::from_str::<toml::Value>`, kept for its verdict alone:
/// the error's text where the content is no TOML document.
#[verifier::external_body]
pub(crate) fn toml_error(content: &str) -> (error: Option<String>)
    ensures
        match error {
            Some(text) => toml_syntax_error(content@) == Some(text@),
            None => toml_syntax_error(content@).is_none(),
        },
{
    match toml::from_str::<toml::Value>(content) {
        Ok(_) => None,
        Err(e) => Some(e.to_string()),
    }
}

/// What a look at a valid configuration file found.
#[derive(Clone, Copy, Debug, PartialEq, Eq, Structural)]
pub struct ConfigSummary {
    /// Whether the file has a `[cluster_manager]` section.
    pub has_cluster_manager: bool,
    /// Whether `[machine.` occurs in the file at all.
    pub has_machines: bool,
    /// How many lines open a machine section.
    pub machine_sections: usize,
}

/// What was found where a configuration file may be.
#[derive(Debug)]
pub enum ConfigFile {
    Missing,
    /// With the reason.
    Unreadable(String),
    Content(String),
}

/// The configuration files of a cluster directory.
#[derive(Debug)]
pub struct ClusterFiles {
    pub alias: String,
    pub cluster_toml: ConfigFile,
    pub machine_toml: ConfigFile,
}

/// How many configuration files there are, and how many of them are valid.
#[derive(Clone, Copy, Debug, PartialEq, Eq, Structural)]
pub struct CheckSummary {
    pub total_configs: usize,
    pub valid_configs: usize,
}

/// How many lines of a text open a machine section: after the white space
/// at their start they begin with `[machine.`.
pub open spec fn machine_sections(lines: Seq<Seq<char>>) -> nat
    decreases lines.len(),
{
    if lines.len() == 0 {
        0
    } else {
        machine_sections(lines.drop_last()) + if "[machine."@.is_prefix_of(trimmed(lines.last())) {
            1nat
        } else {
            0nat
        }
    }
}

/// Whether a configuration file counts: it does unless it is missing.
pub open spec fn is_present(file: ConfigFile) -> bool {
    !(file is Missing)
}

/// Whether a configuration file is valid: it can be read and is a TOML
/// document.
pub open spec fn is_valid(file: ConfigFile) -> bool {
    file matches ConfigFile::Content(content) && toml_syntax_error(content@).is_none()
}

pub open spec fn count_if(yes: bool) -> nat {
    if yes {
        1
    } else {
        0
    }
}

/// The configuration files of the directories.
pub open spec fn total_configs(dirs: Seq<ClusterFiles>) -> nat
    decreases dirs.len(),
{
    if dirs.len() == 0 {
        0
    } else {
        total_configs(dirs.drop_last()) + count_if(is_present(dirs.last().cluster_toml))
            + count_if(is_present(dirs.last().machine_toml))
    }
}

/// The valid ones among them.
pub open spec fn valid_configs(dirs: Seq<ClusterFiles>) -> nat
    decreases dirs.len(),
{
    if dirs.len() == 0 {
        0
    } else {
        valid_configs(dirs.drop_last()) + count_if(is_valid(dirs.last().cluster_toml)) + count_if(
            is_valid(dirs.last().machine_toml),
        )
    }
}

/// Checks the text of a configuration file: it must be a TOML document.
/// For a valid one says which sections it has.
pub fn validate_config_file(content: &str) -> (checked: Result<ConfigSummary, String>)
    ensures
        match checked {
            Ok(summary) => {
                &&& toml_syntax_error(content@).is_none()
                &&& summary.has_cluster_manager == is_substring("[cluster_manager]"@, content@)
                &&& summary.has_machines == is_substring("[machine."@, content@)
                &&& summary.machine_sections == machine_sections(spec_lines(content@))
            },
            Err(reason) => toml_syntax_error(content@) matches Some(text) && reason@
                == "TOML syntax error: "@ + text,
        },
{
    match toml_error(content) {
        Some(text) => {
            return Err(concat("TOML syntax error: ", text.as_str()));
        },
        None => {},
    }
    let all = lines(content);
    let ghost views = text_views(all@);
    let mut count: usize = 0;
    let mut i: usize = 0;
    assert(views.take(0) =~= Seq::empty());
    while i < all.len()
        invariant
            i <= all.len(),
            views == text_views(all@),
            count == machine_sections(views.take(i as int)),
            count <= i,
        decreases all.len() - i,
    {
        proof {
            assert(views.take(i + 1).drop_last() =~= views.take(i as int));
            assert(views.take(i + 1).last() == all@[i as int]@);
        }
        if starts_with(trim(all[i].as_str()), "[machine.") {
            count += 1;
        }
        i += 1;
    }
    assert(views.take(all@.len() as int) =~= views);
    Ok(
        ConfigSummary {
            has_cluster_manager: contains(content, "[cluster_manager]"),
            has_machines: contains(content, "[machine."),
            machine_sections: count,
        },
    )
}

fn is_valid_file(file: &ConfigFile) -> (valid: bool)
    ensures
        valid == is_valid(*file),
{
    match file {
        ConfigFile::Content(content) => toml_error(content.as_str()).is_none(),
        _ => false,
    }
}

fn is_present_file(file: &ConfigFile) -> (present: bool)
    ensures
        present == is_present(*file),
{
    match file {
        ConfigFile::Missing => false,
        _ => true,
    }
}

/// Checks the configuration of one cluster: each of its files that is
/// there must be valid. Says which file is not, where one is not.
pub fn check_cluster_config(files: &ClusterFiles) -> (checked: Result<(), &'static str>)
    ensures
        match checked {
            Ok(()) => {
                &&& is_present(files.cluster_toml) ==> is_valid(files.cluster_toml)
                &&& is_present(files.machine_toml) ==> is_valid(files.machine_toml)
            },
            Err(file) => if is_present(files.cluster_toml) && !is_valid(files.cluster_toml) {
                file@ == "cluster.toml"@
            } else {
                &&& is_present(files.machine_toml)
                &&& !is_valid(files.machine_toml)
                &&& file@ == "machine.toml"@
            },
        },
{
    if is_present_file(&files.cluster_toml) && !is_valid_file(&files.cluster_toml) {
        return Err("cluster.toml");
    }
    if is_present_file(&files.machine_toml) && !is_valid_file(&files.machine_toml) {
        return Err("machine.toml");
    }
    Ok(())
}

/// Checks the configuration of every cluster: counts the configuration
/// files and the valid ones among them, and fails where the two differ.
pub fn check_all_configs(dirs: &[ClusterFiles]) -> (checked: Result<CheckSummary, CheckSummary>)
    requires
        2 * dirs@.len() <= usize::MAX,
    ensures
        match checked {
            Ok(summary) => {
                &&& summary.total_configs == total_configs(dirs@)
                &&& summary.valid_configs == valid_configs(dirs@)
                &&& summary.valid_configs == summary.total_configs
            },
            Err(summary) => {
                &&& summary.total_configs == total_configs(dirs@)
                &&& summary.valid_configs == valid_configs(dirs@)
                &&& summary.valid_configs != summary.total_configs
            },
        },
{
    let mut total: usize = 0;
    let mut valid: usize = 0;
    let mut i: usize = 0;
    assert(dirs@.take(0) =~= Seq::empty());
    while i < dirs.len()
        invariant
            i <= dirs.len(),
            2 * dirs@.len() <= usize::MAX,
            total == total_configs(dirs@.take(i as int)),
            valid == valid_configs(dirs@.take(i as int)),
            valid <= total <= 2 * i,
        decreases dirs.len() - i,
    {
        proof {
            assert(dirs@.take(i + 1).drop_last() =~= dirs@.take(i as int));
            assert(dirs@.take(i + 1).last() == dirs@[i as int]);
        }
        if is_present_file(&dirs[i].cluster_toml) {
            total += 1;
            if is_valid_file(&dirs[i].cluster_toml) {
                valid += 1;
            }
        }
        if is_present_file(&dirs[i].machine_toml) {
            total += 1;
            if is_valid_file(&dirs[i].machine_toml) {
                valid += 1;
            }
        }
        i += 1;
    }
    assert(dirs@.take(dirs@.len() as int) =~= dirs@);
    let summary = CheckSummary { total_configs: total, valid_configs: valid };
    if valid == total {
        Ok(summary)
    } else {
        Err(summary)
    }
}

} // verus!
