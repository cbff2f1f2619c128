//! What the desktop window is told and what it decides on: the state that is
//! shown, the ports that are suggested, the tail of a log, and what closing
//! the window means.

use vstd::prelude::*;
use vstd::string::*;
use crate::orchestrator::{ServiceStatus, ServiceStatusView};
use crate::paths::{child3, child_of, join3, join_path};
use crate::resolver::{first_existing, first_flagged, lemma_first_flagged};
use crate::settings::{DesktopBootstrap, WizardSettings, WizardSettingsView};
use crate::text::{decimal, decimal_string, opt_text, texts};

verus! {

/// The port from which a free one is sought for the primary service.
pub const SUGGESTED_CORE_PORT: u16 = 43210;

/// The port from which a free one is sought for the object store.
pub const SUGGESTED_S3_PORT: u16 = 43211;

/// How many ports are tried from the first.
pub const PORT_SEARCH_SPAN: u16 = 200;

/// How many directories are tried when the install root is sought: that of
/// the host executable and its ancestors.
pub const ROOT_SEARCH_DEPTH: usize = 8;

/// Everything that the window shows.
#[derive(Clone, Debug, PartialEq, Eq)]
pub struct UiState {
    pub configured: bool,
    pub faceforge_home: Option<String>,
    pub core_port: Option<u16>,
    pub seaweed_enabled: bool,
    pub seaweed_s3_port: Option<u16>,
    pub auto_restart: bool,
    pub minimize_on_exit: bool,
    pub install_token: Option<String>,
    pub status: Option<ServiceStatus>,
    pub error: Option<String>,
    pub install_dir: Option<String>,
}

pub struct UiStateView {
    pub configured: bool,
    pub faceforge_home: Option<Seq<char>>,
    pub core_port: Option<u16>,
    pub seaweed_enabled: bool,
    pub seaweed_s3_port: Option<u16>,
    pub auto_restart: bool,
    pub minimize_on_exit: bool,
    pub install_token: Option<Seq<char>>,
    pub status: Option<ServiceStatusView>,
    pub error: Option<Seq<char>>,
    pub install_dir: Option<Seq<char>>,
}

/// The view of an optional status.
pub open spec fn opt_status(status: Option<ServiceStatus>) -> Option<ServiceStatusView> {
    match status {
        Some(s) => Some(s@),
        None => None,
    }
}

impl View for UiState {
    type V = UiStateView;

    open spec fn view(&self) -> UiStateView {
        UiStateView {
            configured: self.configured,
            faceforge_home: opt_text(self.faceforge_home),
            core_port: self.core_port,
            seaweed_enabled: self.seaweed_enabled,
            seaweed_s3_port: self.seaweed_s3_port,
            auto_restart: self.auto_restart,
            minimize_on_exit: self.minimize_on_exit,
            install_token: opt_text(self.install_token),
            status: opt_status(self.status),
            error: opt_text(self.error),
            install_dir: opt_text(self.install_dir),
        }
    }
}

/// The view of optional settings.
pub open spec fn opt_settings(settings: Option<WizardSettings>) -> Option<WizardSettingsView> {
    match settings {
        Some(s) => Some(s@),
        None => None,
    }
}

/// The home directory that an optional bootstrap names.
pub open spec fn bootstrap_home(bootstrap: Option<DesktopBootstrap>) -> Option<Seq<char>> {
    match bootstrap {
        Some(b) => Some(b.faceforge_home@),
        None => None,
    }
}

/// What the window shows for what the host knows.
///
/// The desktop counts as configured once the bootstrap is known. The home
/// directory is that of the settings, or else that of the bootstrap. Without
/// settings the object store and the automatic restart are off, and closing
/// the window hides it.
pub open spec fn ui_state_of(
    bootstrap_home: Option<Seq<char>>,
    settings: Option<WizardSettingsView>,
    install_token: Option<Seq<char>>,
    status: Option<ServiceStatusView>,
    error: Option<Seq<char>>,
    install_dir: Option<Seq<char>>,
) -> UiStateView {
    UiStateView {
        configured: bootstrap_home is Some,
        faceforge_home: match settings {
            Some(s) => Some(s.faceforge_home),
            None => bootstrap_home,
        },
        core_port: match settings {
            Some(s) => Some(s.core_port),
            None => None,
        },
        seaweed_enabled: settings is Some && settings->0.seaweed_enabled,
        seaweed_s3_port: match settings {
            Some(s) => s.seaweed_s3_port,
            None => None,
        },
        auto_restart: settings is Some && settings->0.auto_restart,
        minimize_on_exit: settings is Some ==> settings->0.minimize_on_exit,
        install_token,
        status,
        error,
        install_dir,
    }
}

/// Assembles what the window shows.
pub fn ui_state(
    bootstrap: &Option<DesktopBootstrap>,
    settings: &Option<WizardSettings>,
    install_token: Option<String>,
    status: Option<ServiceStatus>,
    error: Option<String>,
    install_dir: Option<String>,
) -> (state: UiState)
    ensures
        state@ == ui_state_of(
            bootstrap_home(*bootstrap),
            opt_settings(*settings),
            opt_text(install_token),
            opt_status(status),
            opt_text(error),
            opt_text(install_dir),
        ),
{
    let faceforge_home = match settings {
        Some(s) => Some(s.faceforge_home.clone()),
        None => match bootstrap {
            Some(b) => Some(b.faceforge_home.clone()),
            None => None,
        },
    };
    let (core_port, seaweed_enabled, seaweed_s3_port, auto_restart, minimize_on_exit) =
        match settings {
        Some(s) => (
            Some(s.core_port),
            s.seaweed_enabled,
            s.seaweed_s3_port,
            s.auto_restart,
            s.minimize_on_exit,
        ),
        None => (None, false, None, false, true),
    };
    UiState {
        configured: bootstrap.is_some(),
        faceforge_home,
        core_port,
        seaweed_enabled,
        seaweed_s3_port,
        auto_restart,
        minimize_on_exit,
        install_token,
        status,
        error,
        install_dir,
    }
}

/// What closing the window means.
#[derive(Clone, Copy, Debug, PartialEq, Eq)]
pub enum ExitChoice {
    /// The window is hidden and the services go on.
    Hide,
    /// Both services are stopped and the host ends.
    StopAndExit,
}

/// Closing the window hides it unless the settings say otherwise.
pub open spec fn exit_choice_of(settings: Option<WizardSettingsView>) -> ExitChoice {
    if settings is Some && !settings->0.minimize_on_exit {
        ExitChoice::StopAndExit
    } else {
        ExitChoice::Hide
    }
}

/// Decides what closing the window means.
pub fn exit_choice(settings: &Option<WizardSettings>) -> (choice: ExitChoice)
    ensures
        choice == exit_choice_of(opt_settings(*settings)),
{
    match settings {
        Some(s) => if s.minimize_on_exit {
            ExitChoice::Hide
        } else {
            ExitChoice::StopAndExit
        },
        None => ExitChoice::Hide,
    }
}

/// The address of the primary service's login page.
pub open spec fn login_url(port: u16) -> Seq<char> {
    "http://127.0.0.1:"@ + decimal(port as nat) + "/ui/login"@
}

/// Writes the address of the primary service's login page.
pub fn ui_login_url(core_port: u16) -> (url: String)
    ensures
        url@ == login_url(core_port),
{
    let digits = decimal_string(core_port as u64);
    let mut url = String::from_str("http://127.0.0.1:");
    url.append(digits.as_str());
    url.append("/ui/login");
    url
}

/// The port that is suggested from `start`: the first of the span that is
/// free, or `start` itself where none is.
pub open spec fn suggested_port(start: u16, free: Seq<bool>) -> int {
    match first_flagged(free, PORT_SEARCH_SPAN as nat) {
        Some(i) => start + i,
        None => start as int,
    }
}

/// Picks a port from `start`. `free` says of `start` and of each port that
/// follows it whether the host found it free.
pub fn pick_port(start: u16, free: &Vec<bool>) -> (port: u16)
    requires
        start + PORT_SEARCH_SPAN <= u16::MAX,
    ensures
        port == suggested_port(start, free@),
{
    match first_existing(PORT_SEARCH_SPAN as usize, free) {
        Some(i) => {
            proof {
                lemma_first_flagged(free@, PORT_SEARCH_SPAN as nat);
            }
            start + (i as u16)
        },
        None => start,
    }
}

/// The ports that are suggested to a new installation.
#[derive(Clone, Copy, Debug, PartialEq, Eq)]
pub struct SuggestedPorts {
    pub core_port: u16,
    pub seaweed_s3_port: u16,
}

/// Suggests a port for each service. `core_free` says which ports from
/// `SUGGESTED_CORE_PORT` on are free, `s3_free` which from `SUGGESTED_S3_PORT`
/// on.
pub fn suggest_ports(core_free: &Vec<bool>, s3_free: &Vec<bool>) -> (ports: SuggestedPorts)
    ensures
        ports.core_port == suggested_port(SUGGESTED_CORE_PORT, core_free@),
        ports.seaweed_s3_port == suggested_port(SUGGESTED_S3_PORT, s3_free@),
{
    SuggestedPorts {
        core_port: pick_port(SUGGESTED_CORE_PORT, core_free),
        seaweed_s3_port: pick_port(SUGGESTED_S3_PORT, s3_free),
    }
}

/// The last `count` of the lines, or all of them where there are fewer.
pub open spec fn tail_of(lines: Seq<Seq<char>>, count: nat) -> Seq<Seq<char>> {
    if count >= lines.len() {
        lines
    } else {
        lines.subrange(lines.len() - count, lines.len() as int)
    }
}

/// Keeps the last `count` lines of a log.
pub fn tail_lines(lines: &Vec<String>, count: usize) -> (tail: Vec<String>)
    ensures
        texts(tail@) == tail_of(texts(lines@), count as nat),
{
    let start: usize = if count >= lines.len() {
        0
    } else {
        lines.len() - count
    };
    let mut tail: Vec<String> = Vec::new();
    let mut i: usize = start;
    while i < lines.len()
        invariant
            start <= i <= lines.len(),
            texts(tail@) == texts(lines@).subrange(start as int, i as int),
        decreases lines.len() - i,
    {
        let ghost kept = texts(tail@);
        tail.push(lines[i].clone());
        assert(texts(tail@) =~= kept.push(lines@[i as int]@));
        assert(texts(lines@).subrange(start as int, i + 1) =~= texts(lines@).subrange(
            start as int,
            i as int,
        ).push(lines@[i as int]@));
        i = i + 1;
    }
    assert(texts(lines@).subrange(0, lines@.len() as int) =~= texts(lines@));
    tail
}

/// The directory that marks an install root: the sources of the primary
/// service.
pub open spec fn root_marker(dir: Seq<char>) -> Seq<char> {
    child3(dir, "core"@, "src"@, "faceforge_core"@)
}

/// Names the directory whose presence marks `dir` as an install root.
pub fn repo_root_marker(dir: &str) -> (marker: String)
    ensures
        marker@ == root_marker(dir@),
{
    join3(dir, "core", "src", "faceforge_core")
}

/// The install root among the directory of the host executable and its
/// ancestors: the nearest of the first few that holds the marker, or the
/// current directory where none does.
pub open spec fn install_root(ancestors: Seq<Seq<char>>, marked: Seq<bool>) -> Seq<char> {
    let tried = if ancestors.len() < ROOT_SEARCH_DEPTH {
        ancestors.len()
    } else {
        ROOT_SEARCH_DEPTH as nat
    };
    match first_flagged(marked, tried) {
        Some(i) => ancestors[i as int],
        None => "."@,
    }
}

/// Finds the install root. `ancestors` lists the directory of the host
/// executable, then its parent, and so on; `marked` says of each whether it
/// holds the marker.
pub fn repo_root_from_exe(ancestors: &Vec<String>, marked: &Vec<bool>) -> (root: String)
    ensures
        root@ == install_root(texts(ancestors@), marked@),
{
    let tried: usize = if ancestors.len() < ROOT_SEARCH_DEPTH {
        ancestors.len()
    } else {
        ROOT_SEARCH_DEPTH
    };
    match first_existing(tried, marked) {
        Some(i) => {
            proof {
                lemma_first_flagged(marked@, tried as nat);
                assert(texts(ancestors@)[i as int] == ancestors@[i as int]@);
            }
            ancestors[i].clone()
        },
        None => String::from_str("."),
    }
}

/// The directories that a new managed home directory gets.
pub open spec fn home_layout(home: Seq<char>) -> Seq<Seq<char>> {
    seq![child_of(home, "config"@), child_of(home, "tmp"@)]
}

/// Lists the directories to create in a new managed home directory.
pub fn home_layout_dirs(faceforge_home: &str) -> (dirs: Vec<String>)
    ensures
        texts(dirs@) == home_layout(faceforge_home@),
{
    let mut dirs: Vec<String> = Vec::new();
    dirs.push(join_path(faceforge_home, "config"));
    dirs.push(join_path(faceforge_home, "tmp"));
    assert(texts(dirs@) =~= home_layout(faceforge_home@));
    dirs
}

} // verus!
