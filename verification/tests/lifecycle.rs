use cloud_vm_simulator::command::{qemu_command, Arch, ConfigError, LaunchOptions};
use cloud_vm_simulator::lifecycle::{Launch, LaunchAction, LaunchError, LaunchEvent, LaunchState};

fn options() -> LaunchOptions {
    LaunchOptions {
        base_image: "base.img".to_string(),
        kernel_append: None,
        kernel_path: None,
        expose_ports: Some("8080".to_string()),
    }
}

fn launch() -> Launch {
    Launch::new("vm1".to_string(), 40022, options(), Arch::X86_64)
}

const ALL_EVENTS: [LaunchEvent; 9] = [
    LaunchEvent::DirectoryFailed,
    LaunchEvent::DiskCopied,
    LaunchEvent::DiskCopyFailed,
    LaunchEvent::LogsOpened,
    LaunchEvent::LogFileFailed,
    LaunchEvent::Started,
    LaunchEvent::SpawnFailed,
    LaunchEvent::Exited(Some(0)),
    LaunchEvent::Exited(None),
];

#[test]
fn a_launch_that_goes_well() {
    let mut launch = launch();
    assert_eq!(launch.state(), LaunchState::Requested);
    assert_eq!(
        launch.begin(),
        LaunchAction::PrepareDisk {
            directory: "/tmp/qemu-disks".to_string(),
            base_image: "base.img".to_string(),
            disk: "/tmp/qemu-disks/vm1-40022.qcow".to_string(),
        }
    );
    assert_eq!(
        launch.on_event(LaunchEvent::DiskCopied),
        LaunchAction::OpenLogs {
            directory: "/tmp/qemu-logs".to_string(),
            stdout_log: "/tmp/qemu-logs/vm1.log".to_string(),
            stderr_log: "/tmp/qemu-logs/vm1-stderr.log".to_string(),
        }
    );
    assert_eq!(launch.state(), LaunchState::DiskPrepared);
    let expected = qemu_command("vm1", 40022, &options(), Arch::X86_64).unwrap();
    assert_eq!(launch.on_event(LaunchEvent::LogsOpened), LaunchAction::Start(expected));
    assert_eq!(launch.state(), LaunchState::Spawning);
    assert_eq!(launch.on_event(LaunchEvent::Started), LaunchAction::Wait);
    assert_eq!(launch.state(), LaunchState::Running);
    assert_eq!(launch.on_event(LaunchEvent::Exited(Some(3))), LaunchAction::Stop);
    assert_eq!(launch.state(), LaunchState::Exited(Some(3)));
}

#[test]
fn disk_copy_failure_ends_the_launch() {
    let mut launch = launch();
    assert_eq!(launch.on_event(LaunchEvent::DiskCopyFailed), LaunchAction::Stop);
    assert_eq!(launch.state(), LaunchState::LaunchFailed(LaunchError::DiskCopy));
}

#[test]
fn directory_failure_ends_the_launch() {
    let mut first = launch();
    assert_eq!(first.on_event(LaunchEvent::DirectoryFailed), LaunchAction::Stop);
    assert_eq!(first.state(), LaunchState::LaunchFailed(LaunchError::Directory));
    let mut second = launch();
    second.on_event(LaunchEvent::DiskCopied);
    assert_eq!(second.on_event(LaunchEvent::DirectoryFailed), LaunchAction::Stop);
    assert_eq!(second.state(), LaunchState::LaunchFailed(LaunchError::Directory));
}

#[test]
fn log_file_failure_ends_the_launch() {
    let mut launch = launch();
    launch.on_event(LaunchEvent::DiskCopied);
    assert_eq!(launch.on_event(LaunchEvent::LogFileFailed), LaunchAction::Stop);
    assert_eq!(launch.state(), LaunchState::LaunchFailed(LaunchError::LogFile));
}

#[test]
fn spawn_failure_ends_the_launch() {
    let mut launch = launch();
    launch.on_event(LaunchEvent::DiskCopied);
    launch.on_event(LaunchEvent::LogsOpened);
    assert_eq!(launch.on_event(LaunchEvent::SpawnFailed), LaunchAction::Stop);
    assert_eq!(launch.state(), LaunchState::LaunchFailed(LaunchError::Spawn));
}

#[test]
fn kernel_append_without_kernel_starts_no_process() {
    let mut options = options();
    options.kernel_append = Some("console=ttyS0".to_string());
    let mut launch = Launch::new("vm1".to_string(), 40022, options, Arch::X86_64);
    let mut actions = vec![launch.begin()];
    actions.push(launch.on_event(LaunchEvent::DiskCopied));
    actions.push(launch.on_event(LaunchEvent::LogsOpened));
    assert_eq!(actions[2], LaunchAction::Stop);
    assert!(actions.iter().all(|a| !matches!(a, LaunchAction::Start(_))));
    assert_eq!(
        launch.state(),
        LaunchState::LaunchFailed(LaunchError::Config(ConfigError::MissingKernelPath))
    );
    for event in ALL_EVENTS {
        assert_eq!(launch.on_event(event), LaunchAction::Ignore);
    }
}

#[test]
fn exit_without_a_code() {
    let mut launch = launch();
    launch.on_event(LaunchEvent::DiskCopied);
    launch.on_event(LaunchEvent::LogsOpened);
    launch.on_event(LaunchEvent::Started);
    assert_eq!(launch.on_event(LaunchEvent::Exited(None)), LaunchAction::Stop);
    assert_eq!(launch.state(), LaunchState::Exited(None));
}

#[test]
fn events_that_are_not_waited_for_change_nothing() {
    let mut launch = launch();
    for event in [
        LaunchEvent::LogsOpened,
        LaunchEvent::LogFileFailed,
        LaunchEvent::Started,
        LaunchEvent::SpawnFailed,
        LaunchEvent::Exited(Some(0)),
    ] {
        assert_eq!(launch.on_event(event), LaunchAction::Ignore);
        assert_eq!(launch.state(), LaunchState::Requested);
    }
    launch.on_event(LaunchEvent::DiskCopied);
    for event in [
        LaunchEvent::DiskCopied,
        LaunchEvent::DiskCopyFailed,
        LaunchEvent::Started,
        LaunchEvent::SpawnFailed,
        LaunchEvent::Exited(None),
    ] {
        assert_eq!(launch.on_event(event), LaunchAction::Ignore);
        assert_eq!(launch.state(), LaunchState::DiskPrepared);
    }
    launch.on_event(LaunchEvent::LogsOpened);
    launch.on_event(LaunchEvent::Started);
    for event in [LaunchEvent::Started, LaunchEvent::SpawnFailed, LaunchEvent::DiskCopied] {
        assert_eq!(launch.on_event(event), LaunchAction::Ignore);
        assert_eq!(launch.state(), LaunchState::Running);
    }
}

#[test]
fn a_finished_launch_stays_finished() {
    let mut launch = launch();
    launch.on_event(LaunchEvent::DiskCopied);
    launch.on_event(LaunchEvent::LogsOpened);
    launch.on_event(LaunchEvent::Started);
    launch.on_event(LaunchEvent::Exited(Some(0)));
    for event in ALL_EVENTS {
        assert_eq!(launch.on_event(event), LaunchAction::Ignore);
        assert_eq!(launch.state(), LaunchState::Exited(Some(0)));
    }
}
