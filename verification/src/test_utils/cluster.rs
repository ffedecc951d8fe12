//! Setting up whole clusters for tests.

use vstd::prelude::*;

verus! {

/// Helpers for tests that need a running cluster.
#[derive(Clone, Copy, Debug)]
pub struct ClusterTestHelper;

/// Seconds to wait for the agents of a cluster on a developer's machine.
pub const AGENT_WAIT_SECS: u64 = 3;

/// Seconds to wait for the agents of a cluster under continuous
/// integration, where machines are slower.
pub const AGENT_WAIT_SECS_CI: u64 = 10;

impl ClusterTestHelper {
    /// How many seconds to wait for the agents of a cluster to start and
    /// to have their configuration.
    pub fn setup_basic_ssh_cluster(in_ci: bool) -> (secs: u64)
        ensures
            secs == (if in_ci {
                AGENT_WAIT_SECS_CI
            } else {
                AGENT_WAIT_SECS
            }),
    {
        if in_ci {
            AGENT_WAIT_SECS_CI
        } else {
            AGENT_WAIT_SECS
        }
    }
}

} // verus!
