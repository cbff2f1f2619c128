//! How each service is launched: program, arguments, environment, working
//! directory and log file.

use vstd::prelude::*;
use vstd::string::*;
use crate::paths::{child2, child_of, join2, join_path};
use crate::preflight::{FILER_PORT, MASTER_PORT, VOLUME_PORT};
use crate::settings::WizardSettings;
use crate::supervisor::{env_views, EnvVar, EnvVarView, LaunchSpec, LaunchSpecView};
use crate::text::{decimal, decimal_string, texts};

verus! {

/// The address on which both services listen and are probed.
pub const LOOPBACK_HOST: &'static str = "127.0.0.1";

/// The directory of the log files in the managed home directory.
pub open spec fn logs_dir(home: Seq<char>) -> Seq<char> {
    child_of(home, "logs"@)
}

/// The log file of the primary service.
pub open spec fn core_log_path(home: Seq<char>) -> Seq<char> {
    child2(home, "logs"@, "core.log"@)
}

/// The log file of the auxiliary service.
pub open spec fn seaweed_log_path(home: Seq<char>) -> Seq<char> {
    child2(home, "logs"@, "seaweed.log"@)
}

/// The data directory of the auxiliary service.
pub open spec fn seaweed_data_dir(home: Seq<char>) -> Seq<char> {
    child2(home, "s3"@, "seaweedfs"@)
}

/// The two variables that every launch of the primary service passes on: the
/// managed home directory and the address to bind.
pub open spec fn core_base_env(home: Seq<char>) -> Seq<EnvVarView> {
    seq![
        EnvVarView { name: "FACEFORGE_HOME"@, value: home },
        EnvVarView { name: "FACEFORGE_BIND"@, value: "127.0.0.1"@ },
    ]
}

/// The primary service run as a module of a local interpreter: it works in
/// the install root and finds the library sources through the search path.
pub open spec fn interpreted_core_launch(
    root: Seq<char>,
    home: Seq<char>,
    python: Seq<char>,
    max_log_size_mb: u32,
) -> LaunchSpecView {
    LaunchSpecView {
        program: python,
        args: seq!["-m"@, "faceforge_core"@],
        envs: seq![EnvVarView { name: "PYTHONPATH"@, value: child2(root, "core"@, "src"@) }]
            + core_base_env(home),
        working_dir: root,
        create_dirs: seq![logs_dir(home)],
        log_path: core_log_path(home),
        max_log_size_mb,
        detached: true,
    }
}

/// The primary service run as a self-contained sidecar: it works in the
/// managed home directory, whatever directory the host was started from.
pub open spec fn sidecar_core_launch(home: Seq<char>, sidecar: Seq<char>, max_log_size_mb: u32)
    -> LaunchSpecView {
    LaunchSpecView {
        program: sidecar,
        args: Seq::empty(),
        envs: core_base_env(home),
        working_dir: home,
        create_dirs: seq![logs_dir(home)],
        log_path: core_log_path(home),
        max_log_size_mb,
        detached: true,
    }
}

/// The command line of the auxiliary service: the server with all its roles,
/// bound to the loopback address, with its data directory, its three internal
/// ports and the external port.
pub open spec fn seaweed_args(home: Seq<char>, s3_port: u16) -> Seq<Seq<char>> {
    seq![
        "server"@,
        "-ip=127.0.0.1"@,
        "-dir="@ + seaweed_data_dir(home),
        "-master.port="@ + decimal(MASTER_PORT as nat),
        "-volume.port="@ + decimal(VOLUME_PORT as nat),
        "-filer.port="@ + decimal(FILER_PORT as nat),
        "-s3"@,
        "-s3.port="@ + decimal(s3_port as nat),
    ]
}

/// The auxiliary service: it works in the managed home directory and keeps
/// its data under it.
pub open spec fn seaweed_launch_view(
    home: Seq<char>,
    weed: Seq<char>,
    s3_port: u16,
    max_log_size_mb: u32,
) -> LaunchSpecView {
    LaunchSpecView {
        program: weed,
        args: seaweed_args(home, s3_port),
        envs: Seq::empty(),
        working_dir: home,
        create_dirs: seq![seaweed_data_dir(home), logs_dir(home)],
        log_path: seaweed_log_path(home),
        max_log_size_mb,
        detached: true,
    }
}

/// The path of the primary service's log file.
pub fn core_log_file(faceforge_home: &str) -> (path: String)
    ensures
        path@ == core_log_path(faceforge_home@),
{
    join2(faceforge_home, "logs", "core.log")
}

/// The path of the auxiliary service's log file.
pub fn seaweed_log_file(faceforge_home: &str) -> (path: String)
    ensures
        path@ == seaweed_log_path(faceforge_home@),
{
    join2(faceforge_home, "logs", "seaweed.log")
}

fn core_environment(home: &str) -> (envs: Vec<EnvVar>)
    ensures
        env_views(envs@) == core_base_env(home@),
{
    let mut envs: Vec<EnvVar> = Vec::new();
    envs.push(
        EnvVar { name: String::from_str("FACEFORGE_HOME"), value: String::from_str(home) },
    );
    envs.push(
        EnvVar {
            name: String::from_str("FACEFORGE_BIND"),
            value: String::from_str(LOOPBACK_HOST),
        },
    );
    assert(env_views(envs@) =~= core_base_env(home@));
    envs
}

fn one_dir(dir: String) -> (dirs: Vec<String>)
    ensures
        texts(dirs@) == seq![dir@],
{
    let mut dirs: Vec<String> = Vec::new();
    dirs.push(dir);
    assert(texts(dirs@) =~= seq![dir@]);
    dirs
}

/// Plans the launch of the primary service through the interpreter `python`.
pub fn plan_interpreted_core(root: &str, settings: &WizardSettings, python: String) -> (spec:
    LaunchSpec)
    ensures
        spec@ == interpreted_core_launch(
            root@,
            settings.faceforge_home@,
            python@,
            settings.max_log_size_mb,
        ),
{
    let home: &str = settings.faceforge_home.as_str();
    let mut args: Vec<String> = Vec::new();
    args.push(String::from_str("-m"));
    args.push(String::from_str("faceforge_core"));
    assert(texts(args@) =~= seq!["-m"@, "faceforge_core"@]);
    let mut envs: Vec<EnvVar> = Vec::new();
    envs.push(EnvVar { name: String::from_str("PYTHONPATH"), value: join2(root, "core", "src") });
    envs.push(
        EnvVar { name: String::from_str("FACEFORGE_HOME"), value: String::from_str(home) },
    );
    envs.push(
        EnvVar {
            name: String::from_str("FACEFORGE_BIND"),
            value: String::from_str(LOOPBACK_HOST),
        },
    );
    assert(env_views(envs@) =~= seq![
        EnvVarView { name: "PYTHONPATH"@, value: child2(root@, "core"@, "src"@) },
    ] + core_base_env(home@));
    LaunchSpec {
        program: python,
        args,
        envs,
        working_dir: String::from_str(root),
        create_dirs: one_dir(join_path(home, "logs")),
        log_path: core_log_file(home),
        max_log_size_mb: settings.max_log_size_mb,
        detached: true,
    }
}

/// Plans the launch of the primary service as the sidecar `sidecar`.
pub fn plan_sidecar_core(settings: &WizardSettings, sidecar: String) -> (spec: LaunchSpec)
    ensures
        spec@ == sidecar_core_launch(settings.faceforge_home@, sidecar@, settings.max_log_size_mb),
{
    let home: &str = settings.faceforge_home.as_str();
    let args: Vec<String> = Vec::new();
    assert(texts(args@) =~= Seq::<Seq<char>>::empty());
    LaunchSpec {
        program: sidecar,
        args,
        envs: core_environment(home),
        working_dir: String::from_str(home),
        create_dirs: one_dir(join_path(home, "logs")),
        log_path: core_log_file(home),
        max_log_size_mb: settings.max_log_size_mb,
        detached: true,
    }
}

fn port_flag(flag: &str, port: u16) -> (arg: String)
    ensures
        arg@ == flag@ + decimal(port as nat),
{
    let digits = decimal_string(port as u64);
    let mut arg = String::from_str(flag);
    arg.append(digits.as_str());
    arg
}

/// Plans the launch of the auxiliary service from the executable `weed`.
pub fn plan_seaweed(settings: &WizardSettings, weed: String, s3_port: u16) -> (spec: LaunchSpec)
    ensures
        spec@ == seaweed_launch_view(
            settings.faceforge_home@,
            weed@,
            s3_port,
            settings.max_log_size_mb,
        ),
{
    let home: &str = settings.faceforge_home.as_str();
    let data_dir = join2(home, "s3", "seaweedfs");
    let mut dir_flag = String::from_str("-dir=");
    dir_flag.append(data_dir.as_str());
    let mut args: Vec<String> = Vec::new();
    args.push(String::from_str("server"));
    args.push(String::from_str("-ip=127.0.0.1"));
    args.push(dir_flag);
    args.push(port_flag("-master.port=", MASTER_PORT));
    args.push(port_flag("-volume.port=", VOLUME_PORT));
    args.push(port_flag("-filer.port=", FILER_PORT));
    args.push(String::from_str("-s3"));
    args.push(port_flag("-s3.port=", s3_port));
    assert(texts(args@) =~= seaweed_args(home@, s3_port));
    let envs: Vec<EnvVar> = Vec::new();
    assert(env_views(envs@) =~= Seq::<EnvVarView>::empty());
    let mut create_dirs: Vec<String> = Vec::new();
    create_dirs.push(data_dir);
    create_dirs.push(join_path(home, "logs"));
    assert(texts(create_dirs@) =~= seq![seaweed_data_dir(home@), logs_dir(home@)]);
    LaunchSpec {
        program: weed,
        args,
        envs,
        working_dir: String::from_str(home),
        create_dirs,
        log_path: seaweed_log_file(home),
        max_log_size_mb: settings.max_log_size_mb,
        detached: true,
    }
}

} // verus!
