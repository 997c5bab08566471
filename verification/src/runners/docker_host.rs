//! The container-daemon driver: the one concrete realization of the runner
//! contract. It owns the runner's configuration, the driver options and the
//! last known lifecycle status, derives every daemon-side resource name from
//! the runner id, translates the configuration into the daemon's
//! container-creation descriptor, and decides every lifecycle transition.
//!
//! The daemon RPCs themselves are asynchronous I/O and happen in the thin
//! shell around the library. Each lifecycle operation is therefore split in
//! two verified halves: a `begin_*` function that checks the operation's
//! precondition and names the daemon resource to act on, and an `apply_*`
//! function that takes the daemon's answer and performs the state
//! transition the contract prescribes. The shell only carries values between
//! the two.

use crate::decimal::u64_to_dec;
use crate::error::{Error, Res};
use crate::runners::base::{
    spec_port_key, port_key, ConfigView, MinecraftRunnerConfig, MinecraftRunnerMetrics,
    MinecraftRunnerPort, MinecraftRunnerStatus, PortExposure,
};
use crate::text::clone_strings;
use crate::types::minecraft::spec_java_image;
use vstd::prelude::*;

verus! {

/// Everything that can go wrong between this driver and the daemon.
#[derive(Clone, Debug, PartialEq, Eq)]
pub enum DockerHostError {
    /// The daemon could not be reached when the driver was built.
    ConnectionError(String),
    /// The daemon rejected the container creation.
    ContainerCreationError(String),
    /// A lifecycle precondition was violated by the caller.
    InvalidOp,
    /// A daemon RPC failed.
    DockerError(String),
    /// The daemon's answer about a container's status was unusable.
    StatusError(String),
    /// The runtime image could not be resolved.
    BadImage(String, String),
}

/// The message for a failed daemon connection.
pub open spec fn spec_msg_connection_error(detail: Seq<char>) -> Seq<char> {
    "Failed to connect to the host's Docker daemon: "@ + detail
}

/// The message for a rejected container creation.
pub open spec fn spec_msg_creation_error(detail: Seq<char>) -> Seq<char> {
    "Failed to create container: "@ + detail
}

/// The message for a violated lifecycle precondition.
pub open spec fn spec_msg_invalid_op() -> Seq<char> {
    "Invalid operation given the current context."@
}

/// The message for a failed daemon RPC.
pub open spec fn spec_msg_docker_error(detail: Seq<char>) -> Seq<char> {
    "Encountered an error with an underlying Docker operation: "@ + detail
}

/// The message for an unusable status answer.
pub open spec fn spec_msg_status_error(detail: Seq<char>) -> Seq<char> {
    "Encountered an error while retrieving the status of a container: "@ + detail
}

/// The message for an unresolvable runtime image.
pub open spec fn spec_msg_bad_image(image: Seq<char>, detail: Seq<char>) -> Seq<char> {
    "Unknown/invalid container image ("@ + image + "): "@ + detail
}

/// The message a driver error is reported with.
pub open spec fn spec_docker_error_message(e: DockerHostError) -> Seq<char> {
    match e {
        DockerHostError::ConnectionError(s) => spec_msg_connection_error(s@),
        DockerHostError::ContainerCreationError(s) => spec_msg_creation_error(s@),
        DockerHostError::InvalidOp => spec_msg_invalid_op(),
        DockerHostError::DockerError(s) => spec_msg_docker_error(s@),
        DockerHostError::StatusError(s) => spec_msg_status_error(s@),
        DockerHostError::BadImage(image, s) => spec_msg_bad_image(image@, s@),
    }
}

impl DockerHostError {
    /// The message this error is reported with.
    pub fn message(&self) -> (r: String)
        ensures
            r@ == spec_docker_error_message(*self),
    {
        let r = match self {
            DockerHostError::ConnectionError(s) => String::from_str(
                "Failed to connect to the host's Docker daemon: ",
            ).concat(s.as_str()),
            DockerHostError::ContainerCreationError(s) => String::from_str(
                "Failed to create container: ",
            ).concat(s.as_str()),
            DockerHostError::InvalidOp => String::from_str(
                "Invalid operation given the current context.",
            ),
            DockerHostError::DockerError(s) => String::from_str(
                "Encountered an error with an underlying Docker operation: ",
            ).concat(s.as_str()),
            DockerHostError::StatusError(s) => String::from_str(
                "Encountered an error while retrieving the status of a container: ",
            ).concat(s.as_str()),
            DockerHostError::BadImage(image, s) => String::from_str(
                "Unknown/invalid container image (",
            ).concat(image.as_str()).concat("): ").concat(s.as_str()),
        };
        proof {
            assert(r@ =~= spec_docker_error_message(*self));
        }
        r
    }
}

/// The mathematical content of the driver options.
#[verifier::ext_equal]
pub ghost struct OptionsView {
    pub network: Seq<char>,
    pub host_base_path: Seq<char>,
    pub run_as: Seq<char>,
}

/// Driver-specific configuration outside the portable runner configuration:
/// the daemon network to join, the host directory per-runner working
/// directories live under, and the user/group the process runs as.
#[derive(Clone, Debug, PartialEq, Eq)]
pub struct DockerHostRunnerOptions {
    pub network: String,
    pub host_base_path: String,
    pub run_as: String,
}

impl View for DockerHostRunnerOptions {
    type V = OptionsView;

    open spec fn view(&self) -> OptionsView {
        OptionsView {
            network: self.network@,
            host_base_path: self.host_base_path@,
            run_as: self.run_as@,
        }
    }
}

impl DockerHostRunnerOptions {
    /// A copy of these options with the same content.
    pub fn dup(&self) -> (r: DockerHostRunnerOptions)
        ensures
            r@ == self@,
            r.network == self.network,
            r.host_base_path == self.host_base_path,
            r.run_as == self.run_as,
    {
        DockerHostRunnerOptions {
            network: self.network.clone(),
            host_base_path: self.host_base_path.clone(),
            run_as: self.run_as.clone(),
        }
    }
}

/// The mathematical content of one port binding.
#[verifier::ext_equal]
pub ghost struct PortBindingView {
    pub host_ip: Option<Seq<char>>,
    pub host_port: Seq<char>,
}

/// One daemon-level port binding: the host interface to bind on (none means
/// all interfaces) and the host port, in the daemon's textual form.
#[derive(Clone, Debug, PartialEq, Eq)]
pub struct PortBinding {
    pub host_ip: Option<String>,
    pub host_port: String,
}

impl View for PortBinding {
    type V = PortBindingView;

    open spec fn view(&self) -> PortBindingView {
        PortBindingView {
            host_ip: match self.host_ip {
                Some(ip) => Some(ip@),
                None => None,
            },
            host_port: self.host_port@,
        }
    }
}

/// One entry of the daemon's port-binding map: the port key and its binding.
#[derive(Clone, Debug, PartialEq, Eq)]
pub struct PortBindingEntry {
    pub key: String,
    pub binding: PortBinding,
}

impl View for PortBindingEntry {
    type V = (Seq<char>, PortBindingView);

    open spec fn view(&self) -> (Seq<char>, PortBindingView) {
        (self.key@, self.binding@)
    }
}

impl DeepView for PortBindingEntry {
    type V = (Seq<char>, PortBindingView);

    open spec fn deep_view(&self) -> (Seq<char>, PortBindingView) {
        self@
    }
}

/// The mathematical content of the container-creation descriptor.
#[verifier::ext_equal]
pub ghost struct DescriptorView {
    pub hostname: Seq<char>,
    pub user: Seq<char>,
    pub exposed_ports: Seq<Seq<char>>,
    pub image: Seq<char>,
    pub cmd: Seq<Seq<char>>,
    pub working_dir: Seq<char>,
    pub memory: u64,
    pub bind: Seq<char>,
    pub network_mode: Seq<char>,
    pub port_bindings: Seq<(Seq<char>, PortBindingView)>,
}

/// The daemon's container-creation descriptor, as plain values: hostname,
/// process owner, the exposed-port set, the image, the full launch command,
/// the working directory, the memory limit in bytes, the bind mount of the
/// per-runner host directory, the network mode, and the port-binding map.
#[derive(Clone, Debug, PartialEq, Eq)]
pub struct ContainerDescriptor {
    pub hostname: String,
    pub user: String,
    pub exposed_ports: Vec<String>,
    pub image: String,
    pub cmd: Vec<String>,
    pub working_dir: String,
    pub memory: u64,
    pub bind: String,
    pub network_mode: String,
    pub port_bindings: Vec<PortBindingEntry>,
}

impl View for ContainerDescriptor {
    type V = DescriptorView;

    open spec fn view(&self) -> DescriptorView {
        DescriptorView {
            hostname: self.hostname@,
            user: self.user@,
            exposed_ports: self.exposed_ports.deep_view(),
            image: self.image@,
            cmd: self.cmd.deep_view(),
            working_dir: self.working_dir@,
            memory: self.memory,
            bind: self.bind@,
            network_mode: self.network_mode@,
            port_bindings: self.port_bindings.deep_view(),
        }
    }
}

/// Everything one installation run needs from the daemon: the runtime image
/// to resolve, the derived resource name (the target of the force-removal
/// and the name the new resource is created under), and the translated
/// creation descriptor.
#[derive(Clone, Debug, PartialEq, Eq)]
pub struct InstallPlan {
    pub image: String,
    pub container_name: String,
    pub descriptor: ContainerDescriptor,
}

/// The fixed prefix every daemon resource name derives from, followed by the
/// runner id.
pub open spec fn spec_container_name(runner_id: Seq<char>) -> Seq<char> {
    "slink.mc-server.docker-host."@ + runner_id
}

/// The binding a port declaration translates to: none for runner-private
/// ports; loopback-restricted for host exposure; unrestricted for global
/// exposure. The host port is the declared exposed port.
pub open spec fn spec_port_binding(p: MinecraftRunnerPort) -> Option<PortBindingView> {
    match p.spec_exposure() {
        PortExposure::Runner => None,
        PortExposure::Host => Some(
            PortBindingView {
                host_ip: Some("127.0.0.1"@),
                host_port: crate::decimal::spec_dec_of(p.spec_exposed() as nat),
            },
        ),
        PortExposure::Global => Some(
            PortBindingView {
                host_ip: None,
                host_port: crate::decimal::spec_dec_of(p.spec_exposed() as nat),
            },
        ),
    }
}

/// The port-binding map a port list translates to, in declaration order:
/// one entry per port that is exposed beyond the runner, none for
/// runner-private ports.
pub open spec fn spec_port_bindings(ports: Seq<MinecraftRunnerPort>) -> Seq<
    (Seq<char>, PortBindingView),
>
    decreases ports.len(),
{
    if ports.len() == 0 {
        Seq::empty()
    } else {
        let rest = spec_port_bindings(ports.drop_last());
        match spec_port_binding(ports.last()) {
            Some(b) => rest.push((spec_port_key(ports.last()), b)),
            None => rest,
        }
    }
}

/// The exposed-port set: every declared port's key, whatever its exposure.
pub open spec fn spec_exposed_port_keys(ports: Seq<MinecraftRunnerPort>) -> Seq<Seq<char>> {
    ports.map_values(|p: MinecraftRunnerPort| spec_port_key(p))
}

/// The full launch command: the runtime invocation, the runtime arguments,
/// the archive flag and binary, then the game arguments, verbatim and in
/// order.
pub open spec fn spec_command(config: ConfigView) -> Seq<Seq<char>> {
    seq!["java"@] + config.java_args + seq!["-jar"@, config.binary] + config.minecraft_args
}

/// The bind-mount of the per-runner host directory (the host base path
/// joined with the runner id) onto the container's working directory.
pub open spec fn spec_bind_mount(host_base_path: Seq<char>, runner_id: Seq<char>) -> Seq<char> {
    host_base_path + seq!['/'] + runner_id + seq![':'] + "/minecraft"@
}

/// The complete translation of a runner configuration plus driver options
/// into the daemon's container-creation descriptor.
pub open spec fn spec_descriptor(config: ConfigView, options: OptionsView) -> DescriptorView {
    DescriptorView {
        hostname: spec_container_name(config.runner_id),
        user: options.run_as,
        exposed_ports: spec_exposed_port_keys(config.ports),
        image: spec_java_image(config.java_version),
        cmd: spec_command(config),
        working_dir: "/minecraft"@,
        memory: config.max_memory,
        bind: spec_bind_mount(options.host_base_path, config.runner_id),
        network_mode: options.network,
        port_bindings: spec_port_bindings(config.ports),
    }
}

/// Whether `e` is the tagged runner error this driver reports: fixed scope,
/// this driver's kind, the runner id, and the given reason.
pub open spec fn is_runner_error(e: Error, runner_id: Seq<char>, reason: Seq<char>) -> bool {
    &&& e matches Error::RunnerError { scope: s, runner: r, id: i, reason: m }
    &&& s@ == "minecraft"@
    &&& r@ == "docker-host"@
    &&& i@ == runner_id
    &&& m@ == reason
}

/// What the daemon answered when the runtime image was resolved.
#[derive(Clone, Debug, PartialEq, Eq)]
pub enum ImageResolution {
    /// The image was already present locally.
    Present,
    /// A pull produced the image.
    Pulled,
    /// A pull yielded no result at all.
    NoResult,
    /// A pull failed with a daemon error.
    PullError(String),
}

/// What an inspection of the daemon resource showed.
#[derive(Clone, Debug, PartialEq, Eq)]
pub enum ContainerInspection {
    /// The resource could not be inspected at all.
    Inaccessible,
    /// The answer carried no state object.
    NoState,
    /// The state object: whether the process runs, and the error the daemon
    /// recorded, if any.
    State { running: bool, error: Option<String> },
}

/// One sample from the daemon's stats stream, reduced to the quantities the
/// runner reports; each is present only where the daemon exposed it.
#[derive(Clone, Copy, Debug, PartialEq, Eq)]
pub struct MetricsSample {
    pub memory_usage: Option<u64>,
    pub memory_limit: Option<u64>,
    pub system_cpu_usage: Option<u64>,
}

/// The reconciliation table: the status a running runner moves to for each
/// possible inspection answer. A process still running stays `Running`; a
/// stopped process is `Offline`, carrying the daemon's recorded error if it
/// has one; an answer without a state object is `Offline` with a status
/// error; an inaccessible resource is `Failed`.
pub open spec fn spec_reconciled(
    inspection: ContainerInspection,
    runner_id: Seq<char>,
    status: MinecraftRunnerStatus,
) -> bool {
    match inspection {
        ContainerInspection::State { running, error } => {
            if running {
                status == MinecraftRunnerStatus::Running
            } else {
                match error {
                    Some(detail) => status matches MinecraftRunnerStatus::Offline(Some(e))
                        && is_runner_error(e, runner_id, spec_msg_docker_error(detail@)),
                    None => status == MinecraftRunnerStatus::Offline(None),
                }
            }
        },
        ContainerInspection::NoState => status matches MinecraftRunnerStatus::Offline(Some(e))
            && is_runner_error(
            e,
            runner_id,
            spec_msg_status_error("Container state is inaccessible."@),
        ),
        ContainerInspection::Inaccessible => status matches MinecraftRunnerStatus::Failed(e)
            && is_runner_error(
            e,
            runner_id,
            spec_msg_status_error("Container is entirely inaccessible. Switching to FAILED."@),
        ),
    }
}

/// The container-daemon driver's state: the immutable configuration and
/// options, the last known lifecycle status, and the daemon-assigned
/// resource id once one exists. The daemon connection itself lives in the
/// shell that carries answers into the `apply_*` functions.
#[derive(Clone, Debug, PartialEq)]
pub struct DockerHostRunner {
    pub config: MinecraftRunnerConfig,
    pub options: DockerHostRunnerOptions,
    pub status: MinecraftRunnerStatus,
    pub container_id: Option<String>,
}

impl DockerHostRunner {
    /// Build a driver over a configuration and options. A new driver has no
    /// daemon-side knowledge: the runner starts `Uninitialized` with no
    /// resource id.
    pub fn new(config: MinecraftRunnerConfig, options: DockerHostRunnerOptions) -> (r:
        DockerHostRunner)
        ensures
            r.config == config,
            r.options == options,
            r.status == MinecraftRunnerStatus::Uninitialized,
            r.container_id is None,
    {
        DockerHostRunner {
            config,
            options,
            status: MinecraftRunnerStatus::Uninitialized,
            container_id: None,
        }
    }

    /// The name of this driver kind.
    pub fn runner_type() -> (r: String)
        ensures
            r@ == "docker-host"@,
    {
        String::from_str("docker-host")
    }

    /// The runner's identity, as text.
    pub fn id(&self) -> (r: String)
        ensures
            r@ == self.config.runner_id@,
    {
        self.config.runner_id.clone()
    }

    /// The runner configuration this driver was built over.
    pub fn config(&self) -> (r: MinecraftRunnerConfig)
        ensures
            r@ == self.config@,
    {
        self.config.dup()
    }

    /// The driver options this driver was built over.
    pub fn options(&self) -> (r: DockerHostRunnerOptions)
        ensures
            r@ == self.options@,
    {
        self.options.dup()
    }

    /// The daemon-assigned resource id, once a resource was created.
    pub fn container_id(&self) -> (r: Option<String>)
        ensures
            r == self.container_id,
    {
        match &self.container_id {
            Some(id) => Some(id.clone()),
            None => None,
        }
    }

    /// The last known lifecycle status, unchanged and without any daemon
    /// involvement.
    pub fn status_cached(&self) -> (r: MinecraftRunnerStatus)
        ensures
            r == self.status,
    {
        self.status.dup()
    }

    /// The deterministic daemon resource name derived from the runner id.
    pub fn container_name(&self) -> (r: String)
        ensures
            r@ == spec_container_name(self.config.runner_id@),
    {
        String::from_str("slink.mc-server.docker-host.").concat(self.config.runner_id.as_str())
    }

    /// Tag a driver error with scope, driver kind and the given runner id.
    pub fn wrap_anon(id: &str, error: &DockerHostError) -> (r: Error)
        ensures
            is_runner_error(r, id@, spec_docker_error_message(*error)),
    {
        Error::RunnerError {
            scope: String::from_str("minecraft"),
            runner: DockerHostRunner::runner_type(),
            id: String::from_str(id),
            reason: error.message(),
        }
    }

    /// Tag a driver error with scope, driver kind and this runner's id.
    pub fn wrap(&self, error: &DockerHostError) -> (r: Error)
        ensures
            is_runner_error(r, self.config.runner_id@, spec_docker_error_message(*error)),
    {
        DockerHostRunner::wrap_anon(self.config.runner_id.as_str(), error)
    }

    /// Translate the configuration into the installation plan: the image to
    /// resolve, the derived resource name to force-remove and create under,
    /// and the creation descriptor. Pure translation; nothing changes.
    pub fn install_plan(&self) -> (r: InstallPlan)
        ensures
            r.image@ == spec_java_image(self.config@.java_version),
            r.container_name@ == spec_container_name(self.config@.runner_id),
            r.descriptor@ == spec_descriptor(self.config@, self.options@),
    {
        let ghost ports_view = self.config.ports@;
        let n = self.config.ports.len();

        let mut exposed_ports: Vec<String> = Vec::new();
        let mut i: usize = 0;
        while i < n
            invariant
                0 <= i <= n,
                n == ports_view.len(),
                ports_view == self.config.ports@,
                exposed_ports@.len() == i,
                forall|j: int|
                    0 <= j < i ==> #[trigger] exposed_ports@[j]@ == spec_port_key(ports_view[j]),
            decreases n - i,
        {
            exposed_ports.push(port_key(&self.config.ports[i]));
            i = i + 1;
        }
        proof {
            assert(exposed_ports.deep_view() =~= spec_exposed_port_keys(ports_view));
        }

        let mut port_bindings: Vec<PortBindingEntry> = Vec::new();
        let mut k: usize = 0;
        while k < n
            invariant
                0 <= k <= n,
                n == ports_view.len(),
                ports_view == self.config.ports@,
                port_bindings.deep_view() == spec_port_bindings(ports_view.take(k as int)),
            decreases n - k,
        {
            let p = self.config.ports[k];
            let ghost before = port_bindings.deep_view();
            match p.exposure() {
                PortExposure::Runner => {},
                PortExposure::Host => {
                    port_bindings.push(
                        PortBindingEntry {
                            key: port_key(&p),
                            binding: PortBinding {
                                host_ip: Some(String::from_str("127.0.0.1")),
                                host_port: u64_to_dec(p.exposed() as u64),
                            },
                        },
                    );
                },
                PortExposure::Global => {
                    port_bindings.push(
                        PortBindingEntry {
                            key: port_key(&p),
                            binding: PortBinding {
                                host_ip: None,
                                host_port: u64_to_dec(p.exposed() as u64),
                            },
                        },
                    );
                },
            }
            proof {
                assert(ports_view.take(k + 1).drop_last() =~= ports_view.take(k as int));
                assert(ports_view.take(k + 1).last() == ports_view[k as int]);
                assert(port_bindings.deep_view() =~= spec_port_bindings(ports_view.take(k + 1)));
            }
            k = k + 1;
        }
        proof {
            assert(ports_view.take(n as int) =~= ports_view);
        }

        let mut cmd: Vec<String> = Vec::new();
        cmd.push(String::from_str("java"));
        let mut java_args = clone_strings(&self.config.java_args);
        cmd.append(&mut java_args);
        cmd.push(String::from_str("-jar"));
        cmd.push(self.config.binary.clone());
        let mut minecraft_args = clone_strings(&self.config.minecraft_args);
        cmd.append(&mut minecraft_args);
        proof {
            assert(cmd.deep_view() =~= spec_command(self.config@));
        }

        let bind = self.options.host_base_path.clone().concat("/").concat(
            self.config.runner_id.as_str(),
        ).concat(":").concat("/minecraft");
        proof {
            reveal_strlit("/");
            reveal_strlit(":");
            assert(bind@ =~= spec_bind_mount(self.options@.host_base_path, self.config@.runner_id));
        }

        let descriptor = ContainerDescriptor {
            hostname: self.container_name(),
            user: self.options.run_as.clone(),
            exposed_ports,
            image: self.config.java_version.image(),
            cmd,
            working_dir: String::from_str("/minecraft"),
            memory: self.config.max_memory,
            bind,
            network_mode: self.options.network.clone(),
            port_bindings,
        };
        proof {
            assert(descriptor@ =~= spec_descriptor(self.config@, self.options@));
        }
        InstallPlan {
            image: self.config.java_version.image(),
            container_name: self.container_name(),
            descriptor,
        }
    }

    /// Record how the runtime image was resolved. A present or pulled image
    /// changes nothing; a pull that yielded nothing or failed makes the
    /// installation terminal: the status becomes `Failed` with the error
    /// that is also returned.
    pub fn apply_image_resolution(&mut self, outcome: &ImageResolution) -> (r: Res<()>)
        ensures
            final(self).config == old(self).config,
            final(self).options == old(self).options,
            final(self).container_id == old(self).container_id,
            (*outcome is Present || *outcome is Pulled) ==> r is Ok && *final(self) == *old(self),
            *outcome is NoResult ==> ({
                &&& r matches Err(e) && is_runner_error(
                    e,
                    old(self).config.runner_id@,
                    spec_msg_bad_image(spec_java_image(old(self).config@.java_version), "Not found."@),
                )
                &&& final(self).status matches MinecraftRunnerStatus::Failed(f) && r == Res::<()>::Err(f)
            }),
            *outcome matches ImageResolution::PullError(detail) ==> ({
                &&& r matches Err(e) && is_runner_error(
                    e,
                    old(self).config.runner_id@,
                    spec_msg_docker_error(detail@),
                )
                &&& final(self).status matches MinecraftRunnerStatus::Failed(f) && r == Res::<()>::Err(f)
            }),
    {
        match outcome {
            ImageResolution::Present => Ok(()),
            ImageResolution::Pulled => Ok(()),
            ImageResolution::NoResult => {
                let cause = DockerHostError::BadImage(
                    self.config.java_version.image(),
                    String::from_str("Not found."),
                );
                let e = self.wrap(&cause);
                self.status = MinecraftRunnerStatus::Failed(e.dup());
                Err(e)
            },
            ImageResolution::PullError(detail) => {
                let cause = DockerHostError::DockerError(detail.clone());
                let e = self.wrap(&cause);
                self.status = MinecraftRunnerStatus::Failed(e.dup());
                Err(e)
            },
        }
    }

    /// Record the daemon's answer to the container creation. Success stores
    /// the daemon-assigned resource id and lands `Offline` with no error;
    /// rejection is terminal for this installation: no id is retained and
    /// the status becomes `Failed` with the error that is also returned.
    pub fn apply_install(&mut self, outcome: Result<String, String>) -> (r: Res<()>)
        ensures
            final(self).config == old(self).config,
            final(self).options == old(self).options,
            outcome matches Ok(id) ==> ({
                &&& r is Ok
                &&& final(self).container_id == Some(id)
                &&& final(self).status == MinecraftRunnerStatus::Offline(None)
            }),
            outcome matches Err(detail) ==> ({
                &&& r matches Err(e) && is_runner_error(
                    e,
                    old(self).config.runner_id@,
                    spec_msg_creation_error(detail@),
                )
                &&& final(self).container_id is None
                &&& final(self).status matches MinecraftRunnerStatus::Failed(f) && r == Res::<()>::Err(f)
            }),
    {
        match outcome {
            Ok(id) => {
                self.container_id = Some(id);
                self.status = MinecraftRunnerStatus::Offline(None);
                Ok(())
            },
            Err(detail) => {
                let cause = DockerHostError::ContainerCreationError(detail);
                let e = self.wrap(&cause);
                self.container_id = None;
                self.status = MinecraftRunnerStatus::Failed(e.dup());
                Err(e)
            },
        }
    }

    /// Check the uninstall precondition: only a runner that was never
    /// installed has nothing to remove. Every other state may be
    /// uninstalled — in particular `Failed`, which is sticky until exactly
    /// this uninstall/reinstall cycle. Returns the resource name to remove,
    /// or the invalid-operation error, and changes nothing either way.
    pub fn begin_uninstall(&self) -> (r: Res<String>)
        ensures
            r is Ok <==> !(self.status is Uninitialized),
            r matches Ok(name) ==> name@ == spec_container_name(self.config.runner_id@),
            r matches Err(e) ==> is_runner_error(e, self.config.runner_id@, spec_msg_invalid_op()),
    {
        match &self.status {
            MinecraftRunnerStatus::Uninitialized => Err(self.wrap(&DockerHostError::InvalidOp)),
            _ => Ok(self.container_name()),
        }
    }

    /// Record the daemon's answer to the resource removal. Success forgets
    /// the resource id and returns to `Uninitialized`; failure changes
    /// nothing and surfaces the daemon error (the resource may or may not
    /// have been removed).
    pub fn apply_uninstall(&mut self, outcome: Result<(), String>) -> (r: Res<()>)
        requires
            !(old(self).status is Uninitialized),
        ensures
            final(self).config == old(self).config,
            final(self).options == old(self).options,
            outcome is Ok ==> ({
                &&& r is Ok
                &&& final(self).container_id is None
                &&& final(self).status == MinecraftRunnerStatus::Uninitialized
            }),
            outcome matches Err(detail) ==> ({
                &&& *final(self) == *old(self)
                &&& r matches Err(e) && is_runner_error(
                    e,
                    old(self).config.runner_id@,
                    spec_msg_docker_error(detail@),
                )
            }),
    {
        match outcome {
            Ok(()) => {
                self.container_id = None;
                self.status = MinecraftRunnerStatus::Uninitialized;
                Ok(())
            },
            Err(detail) => Err(self.wrap(&DockerHostError::DockerError(detail))),
        }
    }

    /// Check the start precondition: the runner must be installed and not
    /// already running. Returns the resource name to start, or the
    /// invalid-operation error, and changes nothing either way.
    pub fn begin_start(&self) -> (r: Res<String>)
        ensures
            r is Ok <==> (self.status.is_initialized() && !self.status.is_running()),
            r matches Ok(name) ==> name@ == spec_container_name(self.config.runner_id@),
            r matches Err(e) ==> is_runner_error(e, self.config.runner_id@, spec_msg_invalid_op()),
    {
        if !self.status.initialized() || self.status.running() {
            Err(self.wrap(&DockerHostError::InvalidOp))
        } else {
            Ok(self.container_name())
        }
    }

    /// Record the daemon's answer to the start request. Success transitions
    /// to `Running` and reports it; failure changes nothing and surfaces the
    /// daemon error.
    pub fn apply_start(&mut self, outcome: Result<(), String>) -> (r: Res<MinecraftRunnerStatus>)
        requires
            old(self).status.is_initialized(),
            !old(self).status.is_running(),
        ensures
            final(self).config == old(self).config,
            final(self).options == old(self).options,
            final(self).container_id == old(self).container_id,
            outcome is Ok ==> ({
                &&& final(self).status == MinecraftRunnerStatus::Running
                &&& r == Res::<MinecraftRunnerStatus>::Ok(MinecraftRunnerStatus::Running)
            }),
            outcome matches Err(detail) ==> ({
                &&& *final(self) == *old(self)
                &&& r matches Err(e) && is_runner_error(
                    e,
                    old(self).config.runner_id@,
                    spec_msg_docker_error(detail@),
                )
            }),
    {
        match outcome {
            Ok(()) => {
                self.status = MinecraftRunnerStatus::Running;
                Ok(MinecraftRunnerStatus::Running)
            },
            Err(detail) => Err(self.wrap(&DockerHostError::DockerError(detail))),
        }
    }

    /// Check the stop precondition: the runner must be running. Returns the
    /// resource name to stop, or the invalid-operation error, and changes
    /// nothing either way.
    pub fn begin_stop(&self) -> (r: Res<String>)
        ensures
            r is Ok <==> self.status.is_running(),
            r matches Ok(name) ==> name@ == spec_container_name(self.config.runner_id@),
            r matches Err(e) ==> is_runner_error(e, self.config.runner_id@, spec_msg_invalid_op()),
    {
        if !self.status.running() {
            Err(self.wrap(&DockerHostError::InvalidOp))
        } else {
            Ok(self.container_name())
        }
    }

    /// Record the daemon's answer to the stop request. Success transitions
    /// to `Offline` with no error and reports it; failure changes nothing
    /// and surfaces the daemon error.
    pub fn apply_stop(&mut self, outcome: Result<(), String>) -> (r: Res<MinecraftRunnerStatus>)
        requires
            old(self).status.is_running(),
        ensures
            final(self).config == old(self).config,
            final(self).options == old(self).options,
            final(self).container_id == old(self).container_id,
            outcome is Ok ==> ({
                &&& final(self).status == MinecraftRunnerStatus::Offline(None)
                &&& r == Res::<MinecraftRunnerStatus>::Ok(MinecraftRunnerStatus::Offline(None))
            }),
            outcome matches Err(detail) ==> ({
                &&& *final(self) == *old(self)
                &&& r matches Err(e) && is_runner_error(
                    e,
                    old(self).config.runner_id@,
                    spec_msg_docker_error(detail@),
                )
            }),
    {
        match outcome {
            Ok(()) => {
                self.status = MinecraftRunnerStatus::Offline(None);
                Ok(MinecraftRunnerStatus::Offline(None))
            },
            Err(detail) => Err(self.wrap(&DockerHostError::DockerError(detail))),
        }
    }

    /// Whether a status query must ask the daemon: only when the last known
    /// state is `Running`. For every other state the cached value is
    /// returned unchanged, with no daemon involvement.
    pub fn needs_daemon_query(&self) -> (r: bool)
        ensures
            r == self.status.is_running(),
    {
        self.status.running()
    }

    /// Reconcile the believed status against what an inspection of the
    /// daemon resource showed; the daemon is the source of truth. Still
    /// running stays `Running`; a stopped process is `Offline`, carrying the
    /// daemon's recorded error if it has one; an answer without a state
    /// object is `Offline` with a status error; an inaccessible resource is
    /// `Failed`. The reconciled status is stored and returned.
    pub fn reconcile(&mut self, inspection: &ContainerInspection) -> (r: MinecraftRunnerStatus)
        requires
            old(self).status.is_running(),
        ensures
            final(self).config == old(self).config,
            final(self).options == old(self).options,
            final(self).container_id == old(self).container_id,
            r == final(self).status,
            spec_reconciled(*inspection, old(self).config.runner_id@, final(self).status),
    {
        let new_status = match inspection {
            ContainerInspection::State { running, error } => {
                if *running {
                    MinecraftRunnerStatus::Running
                } else {
                    match error {
                        Some(detail) => MinecraftRunnerStatus::Offline(
                            Some(self.wrap(&DockerHostError::DockerError(detail.clone()))),
                        ),
                        None => MinecraftRunnerStatus::Offline(None),
                    }
                }
            },
            ContainerInspection::NoState => MinecraftRunnerStatus::Offline(
                Some(
                    self.wrap(
                        &DockerHostError::StatusError(
                            String::from_str("Container state is inaccessible."),
                        ),
                    ),
                ),
            ),
            ContainerInspection::Inaccessible => MinecraftRunnerStatus::Failed(
                self.wrap(
                    &DockerHostError::StatusError(
                        String::from_str(
                            "Container is entirely inaccessible. Switching to FAILED.",
                        ),
                    ),
                ),
            ),
        };
        let reported = new_status.dup();
        self.status = new_status;
        reported
    }

    /// Check the metrics precondition: the runner must be running. Returns
    /// the resource name to subscribe on, or the invalid-operation error,
    /// and changes nothing either way.
    pub fn begin_metrics(&self) -> (r: Res<String>)
        ensures
            r is Ok <==> self.status.is_running(),
            r matches Ok(name) ==> name@ == spec_container_name(self.config.runner_id@),
            r matches Err(e) ==> is_runner_error(e, self.config.runner_id@, spec_msg_invalid_op()),
    {
        if !self.status.running() {
            Err(self.wrap(&DockerHostError::InvalidOp))
        } else {
            Ok(self.container_name())
        }
    }

    /// Map one element of the daemon's stats stream to one element of the
    /// runner's metrics sequence. A good sample carries its quantities over
    /// field by field; a failed sample becomes the empty element, so one bad
    /// sample never ends the sequence.
    pub fn map_metrics_sample(sample: &Result<MetricsSample, String>) -> (r: Option<
        MinecraftRunnerMetrics,
    >)
        ensures
            *sample matches Ok(s) ==> r == Some(
                MinecraftRunnerMetrics {
                    memory: s.memory_usage,
                    max_memory: s.memory_limit,
                    cpu_usage: s.system_cpu_usage,
                },
            ),
            *sample is Err ==> r is None,
    {
        match sample {
            Ok(s) => Some(
                MinecraftRunnerMetrics {
                    memory: s.memory_usage,
                    max_memory: s.memory_limit,
                    cpu_usage: s.system_cpu_usage,
                },
            ),
            Err(_) => None,
        }
    }

    /// Check the output-stream precondition: the runner must be running.
    /// Returns the resource name to attach to, or the invalid-operation
    /// error, and changes nothing either way.
    pub fn begin_reader(&self) -> (r: Res<String>)
        ensures
            r is Ok <==> self.status.is_running(),
            r matches Ok(name) ==> name@ == spec_container_name(self.config.runner_id@),
            r matches Err(e) ==> is_runner_error(e, self.config.runner_id@, spec_msg_invalid_op()),
    {
        if !self.status.running() {
            Err(self.wrap(&DockerHostError::InvalidOp))
        } else {
            Ok(self.container_name())
        }
    }

    /// Map one element of the daemon's attach stream to one element of the
    /// runner's output sequence: a good chunk passes through unchanged, a
    /// failed one becomes the empty element without ending the sequence.
    pub fn map_log_chunk(chunk: Result<Vec<u8>, String>) -> (r: Option<Vec<u8>>)
        ensures
            chunk matches Ok(bytes) ==> r == Some(bytes),
            chunk is Err ==> r is None,
    {
        match chunk {
            Ok(bytes) => Some(bytes),
            Err(_) => None,
        }
    }

    /// Check the input-sink precondition: the runner must be running.
    /// Returns the resource name to attach to, or the invalid-operation
    /// error, and changes nothing either way.
    pub fn begin_writer(&self) -> (r: Res<String>)
        ensures
            r is Ok <==> self.status.is_running(),
            r matches Ok(name) ==> name@ == spec_container_name(self.config.runner_id@),
            r matches Err(e) ==> is_runner_error(e, self.config.runner_id@, spec_msg_invalid_op()),
    {
        if !self.status.running() {
            Err(self.wrap(&DockerHostError::InvalidOp))
        } else {
            Ok(self.container_name())
        }
    }
}

/// Law: resource naming is deterministic. Two driver instances built over
/// the same runner id derive the same daemon resource name, so repeated
/// construction against one id always addresses one resource.
pub proof fn lemma_container_name_deterministic(a: DockerHostRunner, b: DockerHostRunner)
    requires
        a.config@.runner_id == b.config@.runner_id,
    ensures
        spec_container_name(a.config@.runner_id) == spec_container_name(b.config@.runner_id),
{
}

/// Law: installation always addresses the derived resource name, and the
/// translation is a function of configuration and options alone. The name
/// the plan removes and creates under is the derived container name, the
/// descriptor's hostname equals it, and two drivers with equal
/// configuration and options translate to equal descriptors — so a repeated
/// installation replaces exactly the resource the previous one created,
/// configured from the later call's descriptor.
pub proof fn lemma_install_plan_deterministic(a: DockerHostRunner, b: DockerHostRunner)
    requires
        a.config@ == b.config@,
        a.options@ == b.options@,
    ensures
        spec_descriptor(a.config@, a.options@) == spec_descriptor(b.config@, b.options@),
        spec_descriptor(a.config@, a.options@).hostname == spec_container_name(a.config@.runner_id),
{
}

proof fn lemma_port_bindings_avoid_key(ports: Seq<MinecraftRunnerPort>, key: Seq<char>)
    requires
        forall|j: int|
            0 <= j < ports.len() && #[trigger] spec_port_key(ports[j]) == key
                ==> ports[j].spec_exposure() is Runner,
    ensures
        forall|k: int|
            0 <= k < spec_port_bindings(ports).len() ==> (#[trigger] spec_port_bindings(ports)[k]).0
                != key,
    decreases ports.len(),
{
    if ports.len() > 0 {
        let rest = ports.drop_last();
        assert(forall|j: int| 0 <= j < rest.len() ==> rest[j] == ports[j]);
        lemma_port_bindings_avoid_key(rest, key);
        match spec_port_binding(ports.last()) {
            Some(b) => {
                assert(ports.last() == ports[ports.len() - 1]);
                assert(!(ports.last().spec_exposure() is Runner));
                assert(spec_port_key(ports.last()) != key);
                assert(spec_port_bindings(ports) == spec_port_bindings(rest).push(
                    (spec_port_key(ports.last()), b),
                ));
            },
            None => {
                assert(spec_port_bindings(ports) == spec_port_bindings(rest));
            },
        }
    }
}

/// Law: a runner-private port declaration translates to no daemon-level
/// binding — only to its bare exposed-port entry. Per declaration this is
/// unconditional. At the level of the whole binding map, its key is absent
/// provided no other declaration with the same key (the same local port and
/// protocol) carries a binding: two declarations may share a key, and a
/// bound one would put that key in the map.
pub proof fn lemma_runner_port_unbound(ports: Seq<MinecraftRunnerPort>, i: int)
    requires
        0 <= i < ports.len(),
        ports[i].spec_exposure() is Runner,
        forall|j: int|
            0 <= j < ports.len() && #[trigger] spec_port_key(ports[j]) == spec_port_key(ports[i])
                ==> ports[j].spec_exposure() is Runner,
    ensures
        spec_port_binding(ports[i]) is None,
        spec_exposed_port_keys(ports)[i] == spec_port_key(ports[i]),
        forall|k: int|
            0 <= k < spec_port_bindings(ports).len() ==> (#[trigger] spec_port_bindings(ports)[k]).0
                != spec_port_key(ports[i]),
{
    lemma_port_bindings_avoid_key(ports, spec_port_key(ports[i]));
}

} // verus!
