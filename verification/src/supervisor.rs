//! What the supervisor of one child process knows and asks for.
//!
//! The operating system is the source of truth about a process. The host
//! polls it and reports a [`ProcessPoll`]; the library keeps only the identity
//! of the process that occupies a slot and decides from each report what the
//! slot holds afterwards.

use vstd::prelude::*;
use vstd::string::*;
use crate::text::{signed_decimal, signed_decimal_string, texts};

verus! {

/// The platform family of the host, which fixes executable names and the
/// meaning of operating-system error codes.
#[derive(Clone, Copy, Debug, PartialEq, Eq)]
pub enum Platform {
    Windows,
    Unix,
}

/// One of the two managed services.
#[derive(Clone, Copy, Debug, PartialEq, Eq)]
pub enum Service {
    /// The application backend.
    Primary,
    /// The optional local object store.
    Auxiliary,
}

/// The identity of one spawned process, as the host numbers it.
#[derive(Clone, Copy, Debug, PartialEq, Eq)]
pub struct ProcessHandle {
    pub id: u64,
}

/// The outcome of a zero-wait poll of a child's exit status.
#[derive(Clone, Copy, Debug, PartialEq, Eq)]
pub enum ProcessPoll {
    /// The child has not exited.
    Running,
    /// The child has exited, with this code if it has one.
    Exited { code: Option<i32> },
    /// The poll itself failed.
    Unknown,
}

/// The occupant of a slot after a poll: a child seen to have exited leaves it.
pub open spec fn slot_after_poll(slot: Option<ProcessHandle>, poll: ProcessPoll) -> Option<
    ProcessHandle,
> {
    if slot is Some && poll is Exited {
        None
    } else {
        slot
    }
}

/// Whether a slot counts as running: it is occupied and the poll saw the
/// child alive. A failed poll counts as not running.
pub open spec fn slot_alive(slot: Option<ProcessHandle>, poll: ProcessPoll) -> bool {
    slot is Some && poll is Running
}

/// Applies a poll to a slot and says whether its process is running.
pub fn observe_slot(slot: Option<ProcessHandle>, poll: ProcessPoll) -> (r: (
    Option<ProcessHandle>,
    bool,
))
    ensures
        r.0 == slot_after_poll(slot, poll),
        r.1 == slot_alive(slot, poll),
{
    match slot {
        None => (None, false),
        Some(handle) => match poll {
            ProcessPoll::Running => (Some(handle), true),
            ProcessPoll::Exited { .. } => (None, false),
            ProcessPoll::Unknown => (Some(handle), false),
        },
    }
}

/// One variable of a child's environment.
#[derive(Clone, Debug, PartialEq, Eq)]
pub struct EnvVar {
    pub name: String,
    pub value: String,
}

pub struct EnvVarView {
    pub name: Seq<char>,
    pub value: Seq<char>,
}

impl View for EnvVar {
    type V = EnvVarView;

    open spec fn view(&self) -> EnvVarView {
        EnvVarView { name: self.name@, value: self.value@ }
    }
}

/// The views of a list of environment variables.
pub open spec fn env_views(envs: Seq<EnvVar>) -> Seq<EnvVarView> {
    envs.map_values(|e: EnvVar| e@)
}

/// Everything the host needs to launch one child.
///
/// The child's standard input is closed, its output and errors are appended
/// to `log_path`, and the directories of `create_dirs` exist before it starts.
#[derive(Clone, Debug, PartialEq, Eq)]
pub struct LaunchSpec {
    pub program: String,
    pub args: Vec<String>,
    pub envs: Vec<EnvVar>,
    pub working_dir: String,
    pub create_dirs: Vec<String>,
    pub log_path: String,
    pub max_log_size_mb: u32,
    /// The child gets no console window and a process group of its own.
    pub detached: bool,
}

pub struct LaunchSpecView {
    pub program: Seq<char>,
    pub args: Seq<Seq<char>>,
    pub envs: Seq<EnvVarView>,
    pub working_dir: Seq<char>,
    pub create_dirs: Seq<Seq<char>>,
    pub log_path: Seq<char>,
    pub max_log_size_mb: u32,
    pub detached: bool,
}

impl View for LaunchSpec {
    type V = LaunchSpecView;

    open spec fn view(&self) -> LaunchSpecView {
        LaunchSpecView {
            program: self.program@,
            args: texts(self.args@),
            envs: env_views(self.envs@),
            working_dir: self.working_dir@,
            create_dirs: texts(self.create_dirs@),
            log_path: self.log_path@,
            max_log_size_mb: self.max_log_size_mb,
            detached: self.detached,
        }
    }
}

/// What the operating system reported when a launch failed.
#[derive(Clone, Debug, PartialEq, Eq)]
pub struct SpawnFailure {
    /// The error as the system words it.
    pub message: String,
    /// The error's category.
    pub kind: String,
    /// The raw error code, where the system gave one.
    pub os_code: Option<i32>,
}

pub struct SpawnFailureView {
    pub message: Seq<char>,
    pub kind: Seq<char>,
    pub os_code: Option<i32>,
}

impl View for SpawnFailure {
    type V = SpawnFailureView;

    open spec fn view(&self) -> SpawnFailureView {
        SpawnFailureView { message: self.message@, kind: self.kind@, os_code: self.os_code }
    }
}

/// The hint that goes with a raw error code, or nothing.
///
/// Only the Windows codes for a missing path, a denied access, a binary of
/// another architecture and a missing runtime library carry one.
pub open spec fn spawn_hint(code: int, platform: Platform) -> Seq<char> {
    if platform is Windows && code == 2 {
        ", hint=path not found"@
    } else if platform is Windows && code == 5 {
        ", hint=access denied (AV/quarantine/permissions)"@
    } else if platform is Windows && code == 193 {
        ", hint=not a valid Windows executable (wrong arch?)"@
    } else if platform is Windows && code == 126 {
        ", hint=missing dependency/DLL (VC runtime?)"@
    } else {
        Seq::empty()
    }
}

/// The text that describes a failed launch: the system's message, then in
/// brackets the category and, where there is one, the raw code and its hint.
pub open spec fn spawn_failure_text(failure: SpawnFailureView, platform: Platform) -> Seq<char> {
    failure.message + " (kind="@ + failure.kind + match failure.os_code {
        Some(code) => ", os_error="@ + signed_decimal(code as int) + spawn_hint(
            code as int,
            platform,
        ),
        None => Seq::empty(),
    } + ")"@
}

/// Describes a failed launch for the person who has to mend it.
pub fn describe_spawn_failure(failure: &SpawnFailure, platform: Platform) -> (s: String)
    ensures
        s@ == spawn_failure_text(failure@, platform),
{
    let mut s = failure.message.clone();
    s.append(" (kind=");
    s.append(failure.kind.as_str());
    let ghost head = s@;
    match failure.os_code {
        Some(code) => {
            s.append(", os_error=");
            let digits = signed_decimal_string(code);
            s.append(digits.as_str());
            let windows = match platform {
                Platform::Windows => true,
                Platform::Unix => false,
            };
            if windows && code == 2 {
                s.append(", hint=path not found");
            } else if windows && code == 5 {
                s.append(", hint=access denied (AV/quarantine/permissions)");
            } else if windows && code == 193 {
                s.append(", hint=not a valid Windows executable (wrong arch?)");
            } else if windows && code == 126 {
                s.append(", hint=missing dependency/DLL (VC runtime?)");
            }
            assert(s@ =~= head + (", os_error="@ + signed_decimal(code as int) + spawn_hint(
                code as int,
                platform,
            )));
        },
        None => {
            assert(s@ =~= head + Seq::<char>::empty());
        },
    }
    s.append(")");
    s
}

} // verus!
