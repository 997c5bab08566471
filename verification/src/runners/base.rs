//! The portable runner contract's data types: port declarations, the runner
//! configuration, the lifecycle status machine and metric snapshots. Any
//! driver realizes the same contract over these types.

use crate::decimal::spec_dec_of;
use crate::decimal::u64_to_dec;
use crate::error::Error;
use crate::types::minecraft::JavaVersion;
use vstd::prelude::*;

verus! {

/// How far outside the runner's private network a port is visible.
#[derive(Clone, Copy, Debug, PartialEq, Eq, Structural)]
pub enum PortExposure {
    /// Visible only within the runner's private network; the daemon creates
    /// no binding for it.
    Runner,
    /// Bound to the loopback interface of the daemon's host.
    Host,
    /// Bound to all interfaces of the daemon's host.
    Global,
}

/// A declared port of the runner. The kind implies the protocol (game server
/// and remote console are stream-oriented, the query interface is
/// datagram-oriented); each kind carries the local port, the externally
/// visible port, and the exposure level.
#[derive(Clone, Copy, Debug, PartialEq, Eq, Structural)]
pub enum MinecraftRunnerPort {
    Server(u16, u16, PortExposure),
    Rcon(u16, u16, PortExposure),
    Query(u16, u16, PortExposure),
}

impl MinecraftRunnerPort {
    /// The port as the process inside the runner sees it.
    pub open spec fn spec_local(&self) -> u16 {
        match *self {
            MinecraftRunnerPort::Server(p, _, _) => p,
            MinecraftRunnerPort::Rcon(p, _, _) => p,
            MinecraftRunnerPort::Query(p, _, _) => p,
        }
    }

    /// The externally visible port.
    pub open spec fn spec_exposed(&self) -> u16 {
        match *self {
            MinecraftRunnerPort::Server(_, p, _) => p,
            MinecraftRunnerPort::Rcon(_, p, _) => p,
            MinecraftRunnerPort::Query(_, p, _) => p,
        }
    }

    /// The transport protocol the kind implies.
    pub open spec fn spec_protocol(&self) -> Seq<char> {
        match *self {
            MinecraftRunnerPort::Query(_, _, _) => "udp"@,
            _ => "tcp"@,
        }
    }

    /// The exposure level.
    pub open spec fn spec_exposure(&self) -> PortExposure {
        match *self {
            MinecraftRunnerPort::Server(_, _, e) => e,
            MinecraftRunnerPort::Rcon(_, _, e) => e,
            MinecraftRunnerPort::Query(_, _, e) => e,
        }
    }

    /// The port as the process inside the runner sees it.
    pub fn local(&self) -> (r: u16)
        ensures
            r == self.spec_local(),
    {
        match self {
            MinecraftRunnerPort::Server(p, _, _) => *p,
            MinecraftRunnerPort::Rcon(p, _, _) => *p,
            MinecraftRunnerPort::Query(p, _, _) => *p,
        }
    }

    /// The externally visible port.
    pub fn exposed(&self) -> (r: u16)
        ensures
            r == self.spec_exposed(),
    {
        match self {
            MinecraftRunnerPort::Server(_, p, _) => *p,
            MinecraftRunnerPort::Rcon(_, p, _) => *p,
            MinecraftRunnerPort::Query(_, p, _) => *p,
        }
    }

    /// The transport protocol the kind implies.
    pub fn protocol(&self) -> (r: String)
        ensures
            r@ == self.spec_protocol(),
    {
        match self {
            MinecraftRunnerPort::Query(_, _, _) => String::from_str("udp"),
            _ => String::from_str("tcp"),
        }
    }

    /// The exposure level.
    pub fn exposure(&self) -> (r: PortExposure)
        ensures
            r == self.spec_exposure(),
    {
        match self {
            MinecraftRunnerPort::Server(_, _, e) => *e,
            MinecraftRunnerPort::Rcon(_, _, e) => *e,
            MinecraftRunnerPort::Query(_, _, e) => *e,
        }
    }
}

/// The key a port is registered under with the daemon: the local port in
/// decimal, a slash, and the protocol.
pub open spec fn spec_port_key(p: MinecraftRunnerPort) -> Seq<char> {
    spec_dec_of(p.spec_local() as nat) + seq!['/'] + p.spec_protocol()
}

/// Render a port's daemon key, `"<local>/<protocol>"`.
pub fn port_key(p: &MinecraftRunnerPort) -> (r: String)
    ensures
        r@ == spec_port_key(*p),
{
    let r = u64_to_dec(p.local() as u64).concat("/").concat(p.protocol().as_str());
    proof {
        reveal_strlit("/");
        assert(r@ =~= spec_port_key(*p));
    }
    r
}

fn clone_ports(v: &Vec<MinecraftRunnerPort>) -> (r: Vec<MinecraftRunnerPort>)
    ensures
        r@ == v@,
{
    let n = v.len();
    let mut r: Vec<MinecraftRunnerPort> = Vec::new();
    let mut i: usize = 0;
    while i < n
        invariant
            0 <= i <= n,
            n == v@.len(),
            r@.len() == i,
            forall|j: int| 0 <= j < i ==> #[trigger] r@[j] == v@[j],
        decreases n - i,
    {
        r.push(v[i]);
        i = i + 1;
    }
    proof {
        assert(r@ =~= v@);
    }
    r
}

/// The mathematical content of a runner configuration.
#[verifier::ext_equal]
pub ghost struct ConfigView {
    pub runner_id: Seq<char>,
    pub java_version: u8,
    pub max_memory: u64,
    pub binary: Seq<char>,
    pub java_args: Seq<Seq<char>>,
    pub minecraft_args: Seq<Seq<char>>,
    pub ports: Seq<MinecraftRunnerPort>,
}

/// What a desired runner instance looks like: identity, runtime version,
/// resource limit, launch arguments and network ports. Immutable once the
/// driver holding it is constructed; the identity is the sole key all
/// daemon-side resource names are derived from.
#[derive(Clone, Debug, PartialEq, Eq)]
pub struct MinecraftRunnerConfig {
    pub runner_id: String,
    pub java_version: JavaVersion,
    pub max_memory: u64,
    pub binary: String,
    pub java_args: Vec<String>,
    pub minecraft_args: Vec<String>,
    pub ports: Vec<MinecraftRunnerPort>,
}

impl View for MinecraftRunnerConfig {
    type V = ConfigView;

    open spec fn view(&self) -> ConfigView {
        ConfigView {
            runner_id: self.runner_id@,
            java_version: self.java_version.0,
            max_memory: self.max_memory,
            binary: self.binary@,
            java_args: self.java_args.deep_view(),
            minecraft_args: self.minecraft_args.deep_view(),
            ports: self.ports@,
        }
    }
}

impl MinecraftRunnerConfig {
    /// A copy of this configuration with the same content.
    pub fn dup(&self) -> (r: MinecraftRunnerConfig)
        ensures
            r@ == self@,
    {
        let r = MinecraftRunnerConfig {
            runner_id: self.runner_id.clone(),
            java_version: self.java_version,
            max_memory: self.max_memory,
            binary: self.binary.clone(),
            java_args: crate::text::clone_strings(&self.java_args),
            minecraft_args: crate::text::clone_strings(&self.minecraft_args),
            ports: clone_ports(&self.ports),
        };
        proof {
            assert(r@ =~= self@);
        }
        r
    }
}

/// The lifecycle phase the driver last knew the runner to be in. A runner
/// begins `Uninitialized`, reaches `Offline` through a successful
/// installation, `Running` only through a successful start, and `Failed`
/// only through a failed installation.
#[derive(Clone, Debug, PartialEq)]
pub enum MinecraftRunnerStatus {
    Uninitialized,
    Running,
    Offline(Option<Error>),
    Failed(Error),
}

impl MinecraftRunnerStatus {
    /// Whether daemon-side resources exist to operate on: everything but
    /// `Uninitialized` and `Failed`.
    pub open spec fn is_initialized(&self) -> bool {
        !(*self is Uninitialized || *self is Failed)
    }

    /// Whether the runner was last known to be running.
    pub open spec fn is_running(&self) -> bool {
        *self is Running
    }

    /// The error carried by the status, if any.
    pub open spec fn spec_error(&self) -> Option<Error> {
        match *self {
            MinecraftRunnerStatus::Offline(e) => e,
            MinecraftRunnerStatus::Failed(e) => Some(e),
            _ => None,
        }
    }

    /// Whether daemon-side resources exist to operate on.
    pub fn initialized(&self) -> (r: bool)
        ensures
            r == self.is_initialized(),
    {
        match self {
            MinecraftRunnerStatus::Uninitialized => false,
            MinecraftRunnerStatus::Failed(_) => false,
            _ => true,
        }
    }

    /// Whether the runner was last known to be running.
    pub fn running(&self) -> (r: bool)
        ensures
            r == self.is_running(),
    {
        match self {
            MinecraftRunnerStatus::Running => true,
            _ => false,
        }
    }

    /// The error carried by the status, if any.
    pub fn error(&self) -> (r: Option<Error>)
        ensures
            r == self.spec_error(),
    {
        match self {
            MinecraftRunnerStatus::Offline(Some(e)) => Some(e.dup()),
            MinecraftRunnerStatus::Offline(None) => None,
            MinecraftRunnerStatus::Failed(e) => Some(e.dup()),
            _ => None,
        }
    }

    /// An equal copy of this status.
    pub fn dup(&self) -> (r: MinecraftRunnerStatus)
        ensures
            r == *self,
    {
        match self {
            MinecraftRunnerStatus::Uninitialized => MinecraftRunnerStatus::Uninitialized,
            MinecraftRunnerStatus::Running => MinecraftRunnerStatus::Running,
            MinecraftRunnerStatus::Offline(Some(e)) => MinecraftRunnerStatus::Offline(
                Some(e.dup()),
            ),
            MinecraftRunnerStatus::Offline(None) => MinecraftRunnerStatus::Offline(None),
            MinecraftRunnerStatus::Failed(e) => MinecraftRunnerStatus::Failed(e.dup()),
        }
    }
}

/// A best-effort resource snapshot: memory used, the memory limit, and
/// cumulative processor usage. An absent field means the sample did not
/// expose that quantity, not that it is zero.
#[derive(Clone, Copy, Debug, PartialEq, Eq)]
pub struct MinecraftRunnerMetrics {
    pub memory: Option<u64>,
    pub max_memory: Option<u64>,
    pub cpu_usage: Option<u64>,
}

} // verus!
