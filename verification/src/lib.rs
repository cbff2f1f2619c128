//! The decision core of a desktop host that runs two local services: a
//! primary application backend and an optional object store.
//!
//! The library starts nothing, probes nothing and writes nothing. The host
//! observes the machine (which files exist, which ports answer, whether a
//! child still runs, what the clock says) and hands the observations in; the
//! library decides and hands back what the host is to do: the program to
//! launch and how, the file operations that rotate a log, the pause before a
//! restart. Every decision is specified over a model of the orchestrator's
//! state, and what must hold of all of them is proved in [`laws`].
//!
//! Paths are strings whose components are joined with a forward slash. Time
//! is a reading, in milliseconds, of a clock that does not run backwards.

pub mod codec;
pub mod errors;
pub mod facade;
pub mod health;
pub mod json;
pub mod launch;
pub mod laws;
pub mod logs;
pub mod orchestrator;
pub mod paths;
pub mod ports;
pub mod preflight;
pub mod resolver;
pub mod settings;
pub mod start;
pub mod supervisor;
pub mod text;
pub mod ui;

pub use errors::ServiceError;
pub use orchestrator::{Orchestrator, ServiceStatus};
pub use ports::{ports_path, write_ports, RuntimePorts};
pub use settings::{
    core_json_path, desktop_json_path, generate_install_token, read_desktop_json,
    read_install_token, write_core_json, write_desktop_json, AuthConfig, CoreJsonConfig,
    DesktopBootstrap, NetworkConfig, WizardSettings,
};
