//! Application-level runner configuration: which execution backend to use
//! and the backend-specific options to build its driver with.

use crate::decimal::{spec_dec_of, u64_to_dec};
use crate::runners::docker_host::DockerHostRunnerOptions;
use vstd::prelude::*;

verus! {

/// The textual user/group pair a runner's process runs as.
pub open spec fn spec_run_as(user: u32, group: u32) -> Seq<char> {
    spec_dec_of(user as nat) + seq![':'] + spec_dec_of(group as nat)
}

/// The configured execution backend for runners, with what its driver needs:
/// for the container-daemon backend, the daemon network, the host base path
/// for per-runner directories, and the numeric user and group.
#[derive(Clone, Debug, PartialEq, Eq)]
pub enum RunnerConfig {
    DockerHost { network: String, host_base_path: String, user: u32, group: u32 },
}

impl RunnerConfig {
    /// The driver options for the container-daemon backend, when that is the
    /// configured backend: the network and base path carried over, and the
    /// user and group joined as `user:group`.
    pub fn as_docker_host(&self) -> (r: Option<DockerHostRunnerOptions>)
        ensures
            *self matches RunnerConfig::DockerHost { network, host_base_path, user, group } ==> ({
                &&& r matches Some(o)
                &&& o.network@ == network@
                &&& o.host_base_path@ == host_base_path@
                &&& o.run_as@ == spec_run_as(user, group)
            }),
    {
        match self {
            RunnerConfig::DockerHost { network, host_base_path, user, group } => {
                let run_as = u64_to_dec(*user as u64).concat(":").concat(
                    u64_to_dec(*group as u64).as_str(),
                );
                proof {
                    reveal_strlit(":");
                    assert(run_as@ =~= spec_run_as(*user, *group));
                }
                Some(
                    DockerHostRunnerOptions {
                        network: network.clone(),
                        host_base_path: host_base_path.clone(),
                        run_as,
                    },
                )
            },
        }
    }
}

} // verus!
