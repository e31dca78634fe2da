//! The life cycle of one launch attempt.
//!
//! The attempt itself touches nothing: it tells its driver what to do next, and
//! the driver reports what came of it. A failure ends the attempt; nothing is
//! handed back to whoever asked for the launch.

use crate::command::{
    disk_dir, disk_path, disk_path_text, err_log_path, err_log_path_text, log_dir, log_path,
    log_path_text, options_consistent, qemu_command, qemu_invocation, Arch, ConfigError,
    Invocation, InvocationView, LaunchOptions, LaunchOptionsView,
};
use vstd::prelude::*;
use vstd::string::*;

verus! {

/// Why a launch attempt ended before its process ran.
#[derive(Clone, Copy, Debug, PartialEq, Eq)]
pub enum LaunchError {
    /// A directory could not be created.
    Directory,
    /// A log file could not be created.
    LogFile,
    /// The base image could not be copied.
    DiskCopy,
    /// The configuration does not allow a command line.
    Config(ConfigError),
    /// The hypervisor could not be started.
    Spawn,
}

/// How far a launch attempt has come.
#[derive(Clone, Copy, Debug, PartialEq, Eq)]
pub enum LaunchState {
    /// Nothing has been done yet.
    Requested,
    /// The instance has its own disk.
    DiskPrepared,
    /// The hypervisor is being started.
    Spawning,
    /// The hypervisor runs.
    Running,
    /// The hypervisor has exited, with this code if it had one.
    Exited(Option<i32>),
    /// The attempt was given up.
    LaunchFailed(LaunchError),
}

/// What the driver reports.
#[derive(Clone, Copy, Debug, PartialEq, Eq)]
pub enum LaunchEvent {
    /// A directory that is needed could not be created.
    DirectoryFailed,
    /// The base image was copied to the instance disk.
    DiskCopied,
    /// The copy failed.
    DiskCopyFailed,
    /// Both log files were created.
    LogsOpened,
    /// A log file could not be created.
    LogFileFailed,
    /// The hypervisor process was started.
    Started,
    /// The hypervisor process could not be started.
    SpawnFailed,
    /// The hypervisor process has exited.
    Exited(Option<i32>),
}

/// What the driver is asked to do.
#[derive(Clone, Debug, PartialEq, Eq)]
pub enum LaunchAction {
    /// Make sure that `directory` exists, then copy `base_image` to `disk`.
    PrepareDisk { directory: String, base_image: String, disk: String },
    /// Make sure that `directory` exists, then create both log files anew.
    OpenLogs { directory: String, stdout_log: String, stderr_log: String },
    /// Start the hypervisor, its output going to the log files.
    Start(Invocation),
    /// Wait until the hypervisor exits.
    Wait,
    /// The attempt is over.
    Stop,
    /// The event was not waited for: nothing has changed.
    Ignore,
}

/// The mathematical content of a [`LaunchAction`].
pub ghost enum LaunchActionView {
    PrepareDisk { directory: Seq<char>, base_image: Seq<char>, disk: Seq<char> },
    OpenLogs { directory: Seq<char>, stdout_log: Seq<char>, stderr_log: Seq<char> },
    Start(InvocationView),
    Wait,
    Stop,
    Ignore,
}

impl View for LaunchAction {
    type V = LaunchActionView;

    open spec fn view(&self) -> LaunchActionView {
        match *self {
            LaunchAction::PrepareDisk { directory, base_image, disk } => {
                LaunchActionView::PrepareDisk {
                    directory: directory@,
                    base_image: base_image@,
                    disk: disk@,
                }
            },
            LaunchAction::OpenLogs { directory, stdout_log, stderr_log } => {
                LaunchActionView::OpenLogs {
                    directory: directory@,
                    stdout_log: stdout_log@,
                    stderr_log: stderr_log@,
                }
            },
            LaunchAction::Start(invocation) => LaunchActionView::Start(invocation@),
            LaunchAction::Wait => LaunchActionView::Wait,
            LaunchAction::Stop => LaunchActionView::Stop,
            LaunchAction::Ignore => LaunchActionView::Ignore,
        }
    }
}

/// One launch attempt: what is launched, and how far it has come.
pub struct Launch {
    name: String,
    ssh_port: u16,
    options: LaunchOptions,
    arch: Arch,
    state: LaunchState,
}

/// The mathematical content of a [`Launch`].
pub ghost struct LaunchView {
    pub name: Seq<char>,
    pub ssh_port: u16,
    pub options: LaunchOptionsView,
    pub arch: Arch,
    pub state: LaunchState,
}

impl View for Launch {
    type V = LaunchView;

    closed spec fn view(&self) -> LaunchView {
        LaunchView {
            name: self.name@,
            ssh_port: self.ssh_port,
            options: self.options@,
            arch: self.arch,
            state: self.state,
        }
    }
}

/// Whether an attempt in `state` is over.
pub open spec fn is_terminal(state: LaunchState) -> bool {
    state is Exited || state is LaunchFailed
}

/// The state that follows `state` when `event` is reported. `consistent` says
/// whether the configuration allows a command line. An event that `state` does
/// not wait for changes nothing.
pub open spec fn next_state(state: LaunchState, event: LaunchEvent, consistent: bool) -> LaunchState {
    match (state, event) {
        (LaunchState::Requested, LaunchEvent::DiskCopied) => LaunchState::DiskPrepared,
        (LaunchState::Requested, LaunchEvent::DiskCopyFailed) => LaunchState::LaunchFailed(
            LaunchError::DiskCopy,
        ),
        (LaunchState::Requested, LaunchEvent::DirectoryFailed) => LaunchState::LaunchFailed(
            LaunchError::Directory,
        ),
        (LaunchState::DiskPrepared, LaunchEvent::LogsOpened) => if consistent {
            LaunchState::Spawning
        } else {
            LaunchState::LaunchFailed(LaunchError::Config(ConfigError::MissingKernelPath))
        },
        (LaunchState::DiskPrepared, LaunchEvent::LogFileFailed) => LaunchState::LaunchFailed(
            LaunchError::LogFile,
        ),
        (LaunchState::DiskPrepared, LaunchEvent::DirectoryFailed) => LaunchState::LaunchFailed(
            LaunchError::Directory,
        ),
        (LaunchState::Spawning, LaunchEvent::Started) => LaunchState::Running,
        (LaunchState::Spawning, LaunchEvent::SpawnFailed) => LaunchState::LaunchFailed(
            LaunchError::Spawn,
        ),
        (LaunchState::Running, LaunchEvent::Exited(code)) => LaunchState::Exited(code),
        _ => state,
    }
}

/// Whether `state` waits for `event`.
pub open spec fn expects(state: LaunchState, event: LaunchEvent) -> bool {
    match (state, event) {
        (LaunchState::Requested, LaunchEvent::DiskCopied) => true,
        (LaunchState::Requested, LaunchEvent::DiskCopyFailed) => true,
        (LaunchState::Requested, LaunchEvent::DirectoryFailed) => true,
        (LaunchState::DiskPrepared, LaunchEvent::LogsOpened) => true,
        (LaunchState::DiskPrepared, LaunchEvent::LogFileFailed) => true,
        (LaunchState::DiskPrepared, LaunchEvent::DirectoryFailed) => true,
        (LaunchState::Spawning, LaunchEvent::Started) => true,
        (LaunchState::Spawning, LaunchEvent::SpawnFailed) => true,
        (LaunchState::Running, LaunchEvent::Exited(_)) => true,
        _ => false,
    }
}

/// What an attempt asks for first: a disk of its own.
pub open spec fn first_action(launch: LaunchView) -> LaunchActionView {
    LaunchActionView::PrepareDisk {
        directory: "/tmp/qemu-disks"@,
        base_image: launch.options.base_image,
        disk: disk_path_text(launch.name, launch.ssh_port),
    }
}

/// What the attempt `launch` asks for when `event` is reported.
pub open spec fn next_action(launch: LaunchView, event: LaunchEvent) -> LaunchActionView {
    if !expects(launch.state, event) {
        LaunchActionView::Ignore
    } else {
        match next_state(launch.state, event, options_consistent(launch.options)) {
            LaunchState::Requested => LaunchActionView::Ignore,
            LaunchState::DiskPrepared => LaunchActionView::OpenLogs {
                directory: "/tmp/qemu-logs"@,
                stdout_log: log_path_text(launch.name),
                stderr_log: err_log_path_text(launch.name),
            },
            LaunchState::Spawning => LaunchActionView::Start(
                qemu_invocation(launch.name, launch.ssh_port, launch.options, launch.arch),
            ),
            LaunchState::Running => LaunchActionView::Wait,
            LaunchState::Exited(_) => LaunchActionView::Stop,
            LaunchState::LaunchFailed(_) => LaunchActionView::Stop,
        }
    }
}

impl Launch {
    /// A launch of `name` that nothing has been done for yet.
    pub fn new(name: String, ssh_port: u16, options: LaunchOptions, arch: Arch) -> (r: Launch)
        ensures
            r@ == (LaunchView {
                name: name@,
                ssh_port,
                options: options@,
                arch,
                state: LaunchState::Requested,
            }),
    {
        Launch { name, ssh_port, options, arch, state: LaunchState::Requested }
    }

    /// How far the attempt has come.
    pub fn state(&self) -> (r: LaunchState)
        ensures
            r == self@.state,
    {
        self.state
    }

    /// What the driver has to do first.
    pub fn begin(&self) -> (action: LaunchAction)
        ensures
            action@ == first_action(self@),
    {
        LaunchAction::PrepareDisk {
            directory: String::from_str(disk_dir()),
            base_image: self.options.base_image.clone(),
            disk: disk_path(self.name.as_str(), self.ssh_port),
        }
    }

    /// Takes note of `event` and says what the driver has to do next.
    ///
    /// The hypervisor is started only from [`LaunchState::DiskPrepared`], and
    /// only if a command line can be built; otherwise the attempt fails there.
    pub fn on_event(&mut self, event: LaunchEvent) -> (action: LaunchAction)
        ensures
            final(self)@ == (LaunchView {
                state: next_state(old(self)@.state, event, options_consistent(old(self)@.options)),
                ..old(self)@
            }),
            action@ == next_action(old(self)@, event),
    {
        match (self.state, event) {
            (LaunchState::Requested, LaunchEvent::DiskCopied) => {
                self.state = LaunchState::DiskPrepared;
                LaunchAction::OpenLogs {
                    directory: String::from_str(log_dir()),
                    stdout_log: log_path(self.name.as_str()),
                    stderr_log: err_log_path(self.name.as_str()),
                }
            },
            (LaunchState::Requested, LaunchEvent::DiskCopyFailed) => {
                self.state = LaunchState::LaunchFailed(LaunchError::DiskCopy);
                LaunchAction::Stop
            },
            (LaunchState::Requested, LaunchEvent::DirectoryFailed) => {
                self.state = LaunchState::LaunchFailed(LaunchError::Directory);
                LaunchAction::Stop
            },
            (LaunchState::DiskPrepared, LaunchEvent::LogsOpened) => {
                match qemu_command(self.name.as_str(), self.ssh_port, &self.options, self.arch) {
                    Ok(invocation) => {
                        self.state = LaunchState::Spawning;
                        LaunchAction::Start(invocation)
                    },
                    Err(e) => {
                        self.state = LaunchState::LaunchFailed(LaunchError::Config(e));
                        LaunchAction::Stop
                    },
                }
            },
            (LaunchState::DiskPrepared, LaunchEvent::LogFileFailed) => {
                self.state = LaunchState::LaunchFailed(LaunchError::LogFile);
                LaunchAction::Stop
            },
            (LaunchState::DiskPrepared, LaunchEvent::DirectoryFailed) => {
                self.state = LaunchState::LaunchFailed(LaunchError::Directory);
                LaunchAction::Stop
            },
            (LaunchState::Spawning, LaunchEvent::Started) => {
                self.state = LaunchState::Running;
                LaunchAction::Wait
            },
            (LaunchState::Spawning, LaunchEvent::SpawnFailed) => {
                self.state = LaunchState::LaunchFailed(LaunchError::Spawn);
                LaunchAction::Stop
            },
            (LaunchState::Running, LaunchEvent::Exited(code)) => {
                self.state = LaunchState::Exited(code);
                LaunchAction::Stop
            },
            _ => LaunchAction::Ignore,
        }
    }
}

/// An attempt that is over stays as it is, whatever is reported.
pub proof fn law_terminal_states_absorb(launch: LaunchView, event: LaunchEvent)
    requires
        is_terminal(launch.state),
    ensures
        next_state(launch.state, event, options_consistent(launch.options)) == launch.state,
        next_action(launch, event) == LaunchActionView::Ignore,
{
}

/// The hypervisor is started at one point only: when the logs are open, the
/// disk is there and the configuration allows a command line. In particular a
/// kernel command line without a kernel image never starts a process.
pub proof fn law_start_needs_consistent_options(launch: LaunchView, event: LaunchEvent)
    ensures
        next_action(launch, event) is Start <==> launch.state == LaunchState::DiskPrepared && event
            == LaunchEvent::LogsOpened && options_consistent(launch.options),
        launch.state == LaunchState::DiskPrepared && event == LaunchEvent::LogsOpened
            && !options_consistent(launch.options) ==> next_action(launch, event)
            == LaunchActionView::Stop && next_state(launch.state, event, false)
            == LaunchState::LaunchFailed(LaunchError::Config(ConfigError::MissingKernelPath)),
{
}

/// An event moves an attempt forward or ends it: it never goes back to a state
/// that it has left.
pub proof fn law_attempts_only_advance(state: LaunchState, event: LaunchEvent, consistent: bool)
    ensures
        progress(state) <= progress(next_state(state, event, consistent)),
        expects(state, event) ==> progress(state) < progress(next_state(state, event, consistent)),
{
}

/// How far along `state` is: later states have larger numbers, and the two
/// ways to end have the largest.
pub open spec fn progress(state: LaunchState) -> nat {
    match state {
        LaunchState::Requested => 0,
        LaunchState::DiskPrepared => 1,
        LaunchState::Spawning => 2,
        LaunchState::Running => 3,
        LaunchState::Exited(_) => 4,
        LaunchState::LaunchFailed(_) => 4,
    }
}

} // verus!
