//! Helpers for tests that drive the command line: how it is called, and how
//! its output is read.

pub mod cluster;
pub mod malai_cmd;
pub mod simple;
pub mod ssh;

use vstd::prelude::*;

verus! {

/// Trusted: a copy of a `Duration` is the duration itself.
pub assume_specification[ <std::time::Duration as Clone>::clone ](
    duration: &std::time::Duration,
) -> (copy: std::time::Duration)
    ensures
        copy == *duration,
;

/// Trusted: `Duration::from_secs`.
#[verifier::external_body]
pub(crate) fn seconds(secs: u64) -> (duration: std::time::Duration) {
    std::time::Duration::from_secs(secs)
}

/// How the tests of the command line are run.
#[derive(Clone, Debug)]
pub struct MalaiCliConfig {
    /// Build the binary before the first test.
    pub pre_build: bool,
    /// Remove what a test made when it is over.
    pub cleanup_on_drop: bool,
    /// How long a command may take.
    pub default_timeout: std::time::Duration,
    /// Keep keys in files rather than in the system keyring.
    pub skip_keyring: bool,
}

/// The seconds that a command may take where nothing else is said.
pub const DEFAULT_TIMEOUT_SECS: u64 = 30;

impl Default for MalaiCliConfig {
    fn default() -> (config: Self)
        ensures
            config.pre_build,
            config.cleanup_on_drop,
            config.skip_keyring,
    {
        MalaiCliConfig {
            pre_build: true,
            cleanup_on_drop: true,
            default_timeout: seconds(DEFAULT_TIMEOUT_SECS),
            skip_keyring: true,
        }
    }
}

} // verus!
