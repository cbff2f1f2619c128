//! The failures of a start, and the text that reports each.

use vstd::prelude::*;
use vstd::string::*;
use crate::supervisor::Service;
use crate::text::{
    decimal,
    decimal_string,
    join_strings,
    joined,
    signed_decimal,
    signed_decimal_string,
    texts,
};

verus! {

/// Why a service could not be started, or was given up.
#[derive(Clone, Debug, PartialEq, Eq)]
pub enum ServiceError {
    /// No candidate path of the service's executable exists.
    BinaryNotFound { service: Service, tried: Vec<String> },
    /// The chosen executable could not be opened for its header check.
    UnreadableExecutable { path: String },
    /// The chosen executable does not start with the native marker.
    InvalidExecutable { path: String },
    /// The auxiliary service is enabled and has no port.
    PortNotConfigured,
    /// Something already listens on ports that the service needs.
    PortConflict { conflicts: Vec<String> },
    /// The operating system refused the launch.
    SpawnFailed { service: Service, program: String, port: u16, log_path: String, detail: String },
    /// The child exited before it became reachable.
    PrematureExit { code: Option<i32>, log_path: String },
    /// The primary service never became reachable and the automatic restarts
    /// are used up.
    HealthTimeout { port: u16, attempts: u32 },
    /// The host failed at a step of its own: a directory, a log file, the
    /// runtime ports file.
    Host { detail: String },
}

pub enum ServiceErrorView {
    BinaryNotFound { service: Service, tried: Seq<Seq<char>> },
    UnreadableExecutable { path: Seq<char> },
    InvalidExecutable { path: Seq<char> },
    PortNotConfigured,
    PortConflict { conflicts: Seq<Seq<char>> },
    SpawnFailed {
        service: Service,
        program: Seq<char>,
        port: u16,
        log_path: Seq<char>,
        detail: Seq<char>,
    },
    PrematureExit { code: Option<i32>, log_path: Seq<char> },
    HealthTimeout { port: u16, attempts: u32 },
    Host { detail: Seq<char> },
}

impl View for ServiceError {
    type V = ServiceErrorView;

    open spec fn view(&self) -> ServiceErrorView {
        match self {
            ServiceError::BinaryNotFound { service, tried } => ServiceErrorView::BinaryNotFound {
                service: *service,
                tried: texts(tried@),
            },
            ServiceError::UnreadableExecutable { path } => ServiceErrorView::UnreadableExecutable {
                path: path@,
            },
            ServiceError::InvalidExecutable { path } => ServiceErrorView::InvalidExecutable {
                path: path@,
            },
            ServiceError::PortNotConfigured => ServiceErrorView::PortNotConfigured,
            ServiceError::PortConflict { conflicts } => ServiceErrorView::PortConflict {
                conflicts: texts(conflicts@),
            },
            ServiceError::SpawnFailed {
                service,
                program,
                port,
                log_path,
                detail,
            } => ServiceErrorView::SpawnFailed {
                service: *service,
                program: program@,
                port: *port,
                log_path: log_path@,
                detail: detail@,
            },
            ServiceError::PrematureExit { code, log_path } => ServiceErrorView::PrematureExit {
                code: *code,
                log_path: log_path@,
            },
            ServiceError::HealthTimeout { port, attempts } => ServiceErrorView::HealthTimeout {
                port: *port,
                attempts: *attempts,
            },
            ServiceError::Host { detail } => ServiceErrorView::Host { detail: detail@ },
        }
    }
}

/// The name by which messages call a service.
pub open spec fn service_name(service: Service) -> Seq<char> {
    match service {
        Service::Primary => "Core"@,
        Service::Auxiliary => "SeaweedFS"@,
    }
}

/// How a message words the way a child ended.
pub open spec fn exit_text(code: Option<i32>) -> Seq<char> {
    match code {
        Some(c) => "exit code "@ + signed_decimal(c as int),
        None => "no exit code"@,
    }
}

/// The message of each failure.
///
/// A missing binary lists every path that was tried, and a port conflict every
/// occupied port, so that the message alone says what to mend.
pub open spec fn error_text(error: ServiceErrorView) -> Seq<char> {
    match error {
        ServiceErrorView::BinaryNotFound { service: Service::Auxiliary, tried } => {
            "SeaweedFS enabled but 'weed' binary was not found. Looked for: "@ + joined(
                tried,
                "; "@,
            )
        },
        ServiceErrorView::BinaryNotFound { service: Service::Primary, tried } => {
            "Core executable sidecar not found (and .venv missing). Looked for: "@ + joined(
                tried,
                "; "@,
            )
        },
        ServiceErrorView::UnreadableExecutable { path } => "Failed to open weed binary at "@
            + path,
        ServiceErrorView::InvalidExecutable { path } => "SeaweedFS weed binary at "@ + path
            + " is not a valid Windows executable (missing MZ header)"@,
        ServiceErrorView::PortNotConfigured => "SeaweedFS enabled but seaweed_s3_port not set"@,
        ServiceErrorView::PortConflict { conflicts } => {
            "SeaweedFS cannot start because these ports already have listeners: "@ + joined(
                conflicts,
                ", "@,
            )
        },
        ServiceErrorView::SpawnFailed { service, program, port, log_path, detail } => {
            "Failed to start "@ + service_name(service) + " (program="@ + program + ", port="@
                + decimal(port as nat) + ", log="@ + log_path + "). Spawn error: "@ + detail
        },
        ServiceErrorView::PrematureExit { code, log_path } => {
            "SeaweedFS exited immediately ("@ + exit_text(code) + "). Check logs at "@ + log_path
        },
        ServiceErrorView::HealthTimeout { port, attempts } => {
            "Core did not become reachable on port "@ + decimal(port as nat) + " after "@
                + decimal(attempts as nat) + " automatic restarts"@
        },
        ServiceErrorView::Host { detail } => detail,
    }
}

fn service_label(service: Service) -> (s: &'static str)
    ensures
        s@ == service_name(service),
{
    match service {
        Service::Primary => "Core",
        Service::Auxiliary => "SeaweedFS",
    }
}

impl ServiceError {
    /// The message of this failure.
    pub fn message(&self) -> (s: String)
        ensures
            s@ == error_text(self@),
    {
        match self {
            ServiceError::BinaryNotFound { service, tried } => {
                let list = join_strings(tried, "; ");
                let mut s = match service {
                    Service::Auxiliary => String::from_str(
                        "SeaweedFS enabled but 'weed' binary was not found. Looked for: ",
                    ),
                    Service::Primary => String::from_str(
                        "Core executable sidecar not found (and .venv missing). Looked for: ",
                    ),
                };
                s.append(list.as_str());
                s
            },
            ServiceError::UnreadableExecutable { path } => {
                let mut s = String::from_str("Failed to open weed binary at ");
                s.append(path.as_str());
                s
            },
            ServiceError::InvalidExecutable { path } => {
                let mut s = String::from_str("SeaweedFS weed binary at ");
                s.append(path.as_str());
                s.append(" is not a valid Windows executable (missing MZ header)");
                s
            },
            ServiceError::PortNotConfigured => String::from_str(
                "SeaweedFS enabled but seaweed_s3_port not set",
            ),
            ServiceError::PortConflict { conflicts } => {
                let list = join_strings(conflicts, ", ");
                let mut s = String::from_str(
                    "SeaweedFS cannot start because these ports already have listeners: ",
                );
                s.append(list.as_str());
                s
            },
            ServiceError::SpawnFailed { service, program, port, log_path, detail } => {
                let digits = decimal_string(*port as u64);
                let mut s = String::from_str("Failed to start ");
                s.append(service_label(*service));
                s.append(" (program=");
                s.append(program.as_str());
                s.append(", port=");
                s.append(digits.as_str());
                s.append(", log=");
                s.append(log_path.as_str());
                s.append("). Spawn error: ");
                s.append(detail.as_str());
                s
            },
            ServiceError::PrematureExit { code, log_path } => {
                let mut s = String::from_str("SeaweedFS exited immediately (");
                match code {
                    Some(c) => {
                        let digits = signed_decimal_string(*c);
                        s.append("exit code ");
                        s.append(digits.as_str());
                        assert(s@ =~= "SeaweedFS exited immediately ("@ + exit_text(*code));
                    },
                    None => {
                        s.append("no exit code");
                    },
                }
                s.append("). Check logs at ");
                s.append(log_path.as_str());
                s
            },
            ServiceError::HealthTimeout { port, attempts } => {
                let port_digits = decimal_string(*port as u64);
                let attempt_digits = decimal_string(*attempts as u64);
                let mut s = String::from_str("Core did not become reachable on port ");
                s.append(port_digits.as_str());
                s.append(" after ");
                s.append(attempt_digits.as_str());
                s.append(" automatic restarts");
                s
            },
            ServiceError::Host { detail } => detail.clone(),
        }
    }
}

} // verus!
