use slink::error::Error;
use slink::runners::base::{
    MinecraftRunnerConfig, MinecraftRunnerPort, MinecraftRunnerStatus, PortExposure,
};
use slink::runners::docker_host::{
    ContainerInspection, DockerHostRunner, DockerHostRunnerOptions, ImageResolution,
};
use slink::types::minecraft::JavaVersion;

fn sample_config(runner_id: &str) -> MinecraftRunnerConfig {
    MinecraftRunnerConfig {
        runner_id: runner_id.to_string(),
        java_version: JavaVersion(21),
        max_memory: 8 * 1024 * 1024 * 1024,
        binary: "server.jar".to_string(),
        java_args: vec!["-Xmx8G".to_string()],
        minecraft_args: vec!["nogui".to_string()],
        ports: vec![MinecraftRunnerPort::Server(25565, 25565, PortExposure::Host)],
    }
}

fn sample_options() -> DockerHostRunnerOptions {
    DockerHostRunnerOptions {
        network: "slink-net".to_string(),
        host_base_path: "/srv/slink".to_string(),
        run_as: "1000:1000".to_string(),
    }
}

fn runner_with_status(status: MinecraftRunnerStatus) -> DockerHostRunner {
    let mut runner = DockerHostRunner::new(sample_config("runner-1"), sample_options());
    runner.status = status;
    runner
}

fn assert_invalid_op(e: &Error) {
    match e {
        Error::RunnerError { scope, runner, id, reason } => {
            assert_eq!(scope, "minecraft");
            assert_eq!(runner, "docker-host");
            assert_eq!(id, "runner-1");
            assert_eq!(reason, "Invalid operation given the current context.");
        }
        other => panic!("expected a runner error, got {other:?}"),
    }
}

#[test]
fn new_runner_is_uninitialized() {
    let runner = DockerHostRunner::new(sample_config("runner-1"), sample_options());
    assert_eq!(runner.status_cached(), MinecraftRunnerStatus::Uninitialized);
    assert_eq!(runner.container_id(), None);
    assert_eq!(runner.id(), "runner-1");
}

#[test]
fn start_when_uninitialized_is_invalid_and_keeps_status() {
    let runner = runner_with_status(MinecraftRunnerStatus::Uninitialized);
    let r = runner.begin_start();
    assert_invalid_op(&r.unwrap_err());
    assert_eq!(runner.status_cached(), MinecraftRunnerStatus::Uninitialized);
}

#[test]
fn start_when_running_is_invalid_and_keeps_status() {
    let runner = runner_with_status(MinecraftRunnerStatus::Running);
    let r = runner.begin_start();
    assert_invalid_op(&r.unwrap_err());
    assert_eq!(runner.status_cached(), MinecraftRunnerStatus::Running);
}

#[test]
fn start_when_failed_is_invalid() {
    let runner =
        runner_with_status(MinecraftRunnerStatus::Failed(Error::Unexpected("boom".to_string())));
    assert!(runner.begin_start().is_err());
}

#[test]
fn start_when_offline_is_allowed() {
    let runner = runner_with_status(MinecraftRunnerStatus::Offline(None));
    assert_eq!(runner.begin_start().unwrap(), "slink.mc-server.docker-host.runner-1");
}

#[test]
fn stop_when_not_running_is_invalid_and_keeps_status() {
    for status in [
        MinecraftRunnerStatus::Uninitialized,
        MinecraftRunnerStatus::Offline(None),
        MinecraftRunnerStatus::Failed(Error::Unexpected("boom".to_string())),
    ] {
        let runner = runner_with_status(status.clone());
        let r = runner.begin_stop();
        assert_invalid_op(&r.unwrap_err());
        assert_eq!(runner.status_cached(), status);
    }
}

#[test]
fn streams_and_metrics_require_running() {
    for status in [
        MinecraftRunnerStatus::Uninitialized,
        MinecraftRunnerStatus::Offline(None),
        MinecraftRunnerStatus::Failed(Error::Unexpected("boom".to_string())),
    ] {
        let runner = runner_with_status(status);
        assert_invalid_op(&runner.begin_metrics().unwrap_err());
        assert_invalid_op(&runner.begin_reader().unwrap_err());
        assert_invalid_op(&runner.begin_writer().unwrap_err());
    }
    let running = runner_with_status(MinecraftRunnerStatus::Running);
    assert!(running.begin_metrics().is_ok());
    assert!(running.begin_reader().is_ok());
    assert!(running.begin_writer().is_ok());
}

/// A status poll driven the way the shell drives it, against a stub daemon
/// that counts inspection calls.
fn poll_status(runner: &mut DockerHostRunner, daemon_calls: &mut u32) -> MinecraftRunnerStatus {
    if runner.needs_daemon_query() {
        *daemon_calls += 1;
        runner.reconcile(&ContainerInspection::State { running: true, error: None })
    } else {
        runner.status_cached()
    }
}

#[test]
fn status_queries_daemon_only_when_running() {
    let mut calls: u32 = 0;
    for status in [
        MinecraftRunnerStatus::Uninitialized,
        MinecraftRunnerStatus::Offline(None),
        MinecraftRunnerStatus::Offline(Some(Error::Unexpected("old".to_string()))),
        MinecraftRunnerStatus::Failed(Error::Unexpected("boom".to_string())),
    ] {
        let mut runner = runner_with_status(status.clone());
        assert_eq!(poll_status(&mut runner, &mut calls), status);
        assert_eq!(runner.status_cached(), status);
    }
    assert_eq!(calls, 0);

    let mut runner = runner_with_status(MinecraftRunnerStatus::Running);
    assert_eq!(poll_status(&mut runner, &mut calls), MinecraftRunnerStatus::Running);
    assert_eq!(calls, 1);
}

#[test]
fn reconcile_follows_the_daemon() {
    let mut runner = runner_with_status(MinecraftRunnerStatus::Running);
    let r = runner.reconcile(&ContainerInspection::State { running: true, error: None });
    assert_eq!(r, MinecraftRunnerStatus::Running);

    let mut runner = runner_with_status(MinecraftRunnerStatus::Running);
    let r = runner.reconcile(&ContainerInspection::State { running: false, error: None });
    assert_eq!(r, MinecraftRunnerStatus::Offline(None));

    let mut runner = runner_with_status(MinecraftRunnerStatus::Running);
    let r = runner.reconcile(&ContainerInspection::State {
        running: false,
        error: Some("oom".to_string()),
    });
    match r {
        MinecraftRunnerStatus::Offline(Some(Error::RunnerError { reason, .. })) => {
            assert_eq!(reason, "Encountered an error with an underlying Docker operation: oom");
        }
        other => panic!("expected offline with error, got {other:?}"),
    }

    let mut runner = runner_with_status(MinecraftRunnerStatus::Running);
    let r = runner.reconcile(&ContainerInspection::NoState);
    match r {
        MinecraftRunnerStatus::Offline(Some(Error::RunnerError { reason, .. })) => {
            assert_eq!(
                reason,
                "Encountered an error while retrieving the status of a container: \
                 Container state is inaccessible."
            );
        }
        other => panic!("expected offline with error, got {other:?}"),
    }

    let mut runner = runner_with_status(MinecraftRunnerStatus::Running);
    let r = runner.reconcile(&ContainerInspection::Inaccessible);
    match r {
        MinecraftRunnerStatus::Failed(Error::RunnerError { reason, .. }) => {
            assert_eq!(
                reason,
                "Encountered an error while retrieving the status of a container: \
                 Container is entirely inaccessible. Switching to FAILED."
            );
        }
        other => panic!("expected failed, got {other:?}"),
    }
}

#[test]
fn failed_image_resolution_is_terminal() {
    let mut runner = DockerHostRunner::new(sample_config("runner-1"), sample_options());
    let e = runner.apply_image_resolution(&ImageResolution::NoResult).unwrap_err();
    match &e {
        Error::RunnerError { reason, .. } => {
            assert_eq!(
                reason,
                "Unknown/invalid container image (amazoncorretto:21): Not found."
            );
        }
        other => panic!("expected a runner error, got {other:?}"),
    }
    assert_eq!(runner.status_cached(), MinecraftRunnerStatus::Failed(e));
}

#[test]
fn failed_pull_is_terminal() {
    let mut runner = DockerHostRunner::new(sample_config("runner-1"), sample_options());
    let e = runner
        .apply_image_resolution(&ImageResolution::PullError("no route".to_string()))
        .unwrap_err();
    match &e {
        Error::RunnerError { reason, .. } => {
            assert_eq!(
                reason,
                "Encountered an error with an underlying Docker operation: no route"
            );
        }
        other => panic!("expected a runner error, got {other:?}"),
    }
    assert!(matches!(runner.status_cached(), MinecraftRunnerStatus::Failed(_)));
}

#[test]
fn failed_creation_is_terminal_and_keeps_no_id() {
    let mut runner = DockerHostRunner::new(sample_config("runner-1"), sample_options());
    runner.apply_image_resolution(&ImageResolution::Present).unwrap();
    let e = runner.apply_install(Err("quota exceeded".to_string())).unwrap_err();
    match &e {
        Error::RunnerError { reason, .. } => {
            assert_eq!(reason, "Failed to create container: quota exceeded");
        }
        other => panic!("expected a runner error, got {other:?}"),
    }
    assert_eq!(runner.container_id(), None);
    assert!(matches!(runner.status_cached(), MinecraftRunnerStatus::Failed(_)));
}

#[test]
fn failed_start_keeps_status() {
    let mut runner = runner_with_status(MinecraftRunnerStatus::Offline(None));
    runner.begin_start().unwrap();
    let e = runner.apply_start(Err("daemon busy".to_string())).unwrap_err();
    match &e {
        Error::RunnerError { reason, .. } => {
            assert_eq!(reason, "Encountered an error with an underlying Docker operation: daemon busy");
        }
        other => panic!("expected a runner error, got {other:?}"),
    }
    assert_eq!(runner.status_cached(), MinecraftRunnerStatus::Offline(None));
}

#[test]
fn uninstall_rejects_only_uninitialized() {
    let runner = runner_with_status(MinecraftRunnerStatus::Uninitialized);
    assert_invalid_op(&runner.begin_uninstall().unwrap_err());
    let runner =
        runner_with_status(MinecraftRunnerStatus::Failed(Error::Unexpected("boom".to_string())));
    assert!(runner.begin_uninstall().is_ok());
    let runner = runner_with_status(MinecraftRunnerStatus::Offline(None));
    assert!(runner.begin_uninstall().is_ok());
    let runner = runner_with_status(MinecraftRunnerStatus::Running);
    assert!(runner.begin_uninstall().is_ok());
}

#[test]
fn failed_is_sticky_until_uninstall() {
    // A failed installation leaves the runner `Failed`; only the
    // uninstall/reinstall cycle clears it.
    let mut runner = DockerHostRunner::new(sample_config("runner-1"), sample_options());
    runner.apply_image_resolution(&ImageResolution::Present).unwrap();
    assert!(runner.apply_install(Err("quota exceeded".to_string())).is_err());
    assert!(matches!(runner.status_cached(), MinecraftRunnerStatus::Failed(_)));
    assert!(runner.begin_start().is_err());

    let name = runner.begin_uninstall().unwrap();
    assert_eq!(name, "slink.mc-server.docker-host.runner-1");
    runner.apply_uninstall(Ok(())).unwrap();
    assert_eq!(runner.status_cached(), MinecraftRunnerStatus::Uninitialized);

    runner.apply_image_resolution(&ImageResolution::Present).unwrap();
    runner.apply_install(Ok("cid-2".to_string())).unwrap();
    assert_eq!(runner.status_cached(), MinecraftRunnerStatus::Offline(None));
}

#[test]
fn full_lifecycle_scenario() {
    let config = MinecraftRunnerConfig {
        runner_id: "11111111-2222-3333-4444-555555555555".to_string(),
        java_version: JavaVersion(21),
        max_memory: 8 * 1024 * 1024 * 1024,
        binary: "server.jar".to_string(),
        java_args: vec![],
        minecraft_args: vec![],
        ports: vec![MinecraftRunnerPort::Server(25565, 25565, PortExposure::Host)],
    };
    let mut runner = DockerHostRunner::new(config, sample_options());
    assert_eq!(runner.status_cached(), MinecraftRunnerStatus::Uninitialized);

    // Install: image resolved, old resource force-removed, new one created.
    let plan = runner.install_plan();
    assert_eq!(plan.image, "amazoncorretto:21");
    runner.apply_image_resolution(&ImageResolution::Pulled).unwrap();
    runner.apply_install(Ok("cid-0001".to_string())).unwrap();
    assert_eq!(runner.status_cached(), MinecraftRunnerStatus::Offline(None));
    assert_eq!(runner.container_id(), Some("cid-0001".to_string()));

    // Start.
    let name = runner.begin_start().unwrap();
    assert_eq!(
        name,
        "slink.mc-server.docker-host.11111111-2222-3333-4444-555555555555"
    );
    let started = runner.apply_start(Ok(())).unwrap();
    assert_eq!(started, MinecraftRunnerStatus::Running);
    assert_eq!(runner.status_cached(), MinecraftRunnerStatus::Running);

    // Stop.
    runner.begin_stop().unwrap();
    let stopped = runner.apply_stop(Ok(())).unwrap();
    assert_eq!(stopped, MinecraftRunnerStatus::Offline(None));
    assert_eq!(runner.status_cached(), MinecraftRunnerStatus::Offline(None));

    // Uninstall.
    runner.begin_uninstall().unwrap();
    runner.apply_uninstall(Ok(())).unwrap();
    assert_eq!(runner.status_cached(), MinecraftRunnerStatus::Uninitialized);
    assert_eq!(runner.container_id(), None);
}

#[test]
fn failed_uninstall_keeps_state() {
    let mut runner = runner_with_status(MinecraftRunnerStatus::Offline(None));
    runner.container_id = Some("cid-7".to_string());
    runner.begin_uninstall().unwrap();
    assert!(runner.apply_uninstall(Err("in use".to_string())).is_err());
    assert_eq!(runner.status_cached(), MinecraftRunnerStatus::Offline(None));
    assert_eq!(runner.container_id(), Some("cid-7".to_string()));
}
