//! The configuration that the orchestrator consumes, and the files that keep
//! it: the desktop's own settings and the primary service's configuration.
//!
//! The host reads and writes the files. The library says what each file
//! holds and what a file's text means.

use vstd::prelude::*;
use vstd::string::*;
use crate::codec::{
    base64_len,
    base64_url,
    encode_base64_url,
    flag_member,
    flag_of,
    number_member,
    number_of,
    parse_json,
    parsed_json,
    random_bytes,
    text_member,
    text_of,
    trim,
    trimmed,
};
use crate::json::{
    add_member,
    members,
    no_members,
    object,
    optional_text_value,
    port_model,
    port_value,
    pretty_json,
    render_pretty,
    text_or_null,
    text_value,
    FileWrite,
    FileWriteView,
    JsonModel,
    JsonValue,
};
use crate::paths::{child2, child_of, join2, join_path};
use crate::preflight::{FILER_PORT, MASTER_PORT, VOLUME_PORT};
use crate::text::opt_text;

verus! {

/// The port of the primary service where the settings name none.
pub const DEFAULT_CORE_PORT: u16 = 43210;

/// The rotation threshold of the logs, in megabytes, where the settings name
/// none.
pub const DEFAULT_MAX_LOG_SIZE_MB: u32 = 10;

/// How many random bytes make an install token.
pub const INSTALL_TOKEN_BYTES: usize = 32;

/// How many random bytes make the access key of the object store.
pub const ACCESS_KEY_BYTES: usize = 16;

/// How many random bytes make the secret key of the object store.
pub const SECRET_KEY_BYTES: usize = 32;

/// Where the managed home directory is; kept outside that directory so that
/// it can be found again at the next launch.
#[derive(Clone, Debug, PartialEq, Eq)]
pub struct DesktopBootstrap {
    pub faceforge_home: String,
}

/// The configuration of one start cycle.
#[derive(Clone, Debug, PartialEq, Eq)]
pub struct WizardSettings {
    /// The managed home directory: configuration, logs, runtime files, data.
    pub faceforge_home: String,
    /// The port on which the primary service listens.
    pub core_port: u16,
    /// Whether the auxiliary object store is managed at all.
    pub seaweed_enabled: bool,
    /// The externally exposed port of the auxiliary service.
    pub seaweed_s3_port: Option<u16>,
    /// An explicit location of the auxiliary service's executable.
    pub seaweed_weed_path: Option<String>,
    /// Whether the monitor may restart the primary service on its own.
    pub auto_restart: bool,
    /// Whether closing the window hides it instead of ending the services.
    pub minimize_on_exit: bool,
    /// The size, in megabytes, above which a log file is rotated.
    pub max_log_size_mb: u32,
}

pub struct WizardSettingsView {
    pub faceforge_home: Seq<char>,
    pub core_port: u16,
    pub seaweed_enabled: bool,
    pub seaweed_s3_port: Option<u16>,
    pub seaweed_weed_path: Option<Seq<char>>,
    pub auto_restart: bool,
    pub minimize_on_exit: bool,
    pub max_log_size_mb: u32,
}

impl View for WizardSettings {
    type V = WizardSettingsView;

    open spec fn view(&self) -> WizardSettingsView {
        WizardSettingsView {
            faceforge_home: self.faceforge_home@,
            core_port: self.core_port,
            seaweed_enabled: self.seaweed_enabled,
            seaweed_s3_port: self.seaweed_s3_port,
            seaweed_weed_path: opt_text(self.seaweed_weed_path),
            auto_restart: self.auto_restart,
            minimize_on_exit: self.minimize_on_exit,
            max_log_size_mb: self.max_log_size_mb,
        }
    }
}

/// The `auth` section of the primary service's configuration file.
#[derive(Clone, Debug, PartialEq, Eq)]
pub struct AuthConfig {
    pub install_token: String,
}

/// The `network` section of the primary service's configuration file.
#[derive(Clone, Debug, PartialEq, Eq)]
pub struct NetworkConfig {
    pub bind_host: String,
    pub core_port: u16,
    pub seaweed_s3_port: Option<u16>,
}

/// The primary service's configuration file, section by section.
#[derive(Debug, PartialEq, Eq)]
pub struct CoreJsonConfig {
    pub version: String,
    pub auth: AuthConfig,
    pub network: NetworkConfig,
    pub paths: JsonValue,
    pub tools: JsonValue,
    pub storage: JsonValue,
    pub seaweed: JsonValue,
}

pub struct CoreJsonConfigView {
    pub version: Seq<char>,
    pub install_token: Seq<char>,
    pub bind_host: Seq<char>,
    pub core_port: u16,
    pub seaweed_s3_port: Option<u16>,
    pub paths: JsonModel,
    pub tools: JsonModel,
    pub storage: JsonModel,
    pub seaweed: JsonModel,
}

impl View for CoreJsonConfig {
    type V = CoreJsonConfigView;

    open spec fn view(&self) -> CoreJsonConfigView {
        CoreJsonConfigView {
            version: self.version@,
            install_token: self.auth.install_token@,
            bind_host: self.network.bind_host@,
            core_port: self.network.core_port,
            seaweed_s3_port: self.network.seaweed_s3_port,
            paths: self.paths.model(),
            tools: self.tools.model(),
            storage: self.storage.model(),
            seaweed: self.seaweed.model(),
        }
    }
}

/// The keys with which the primary service reaches the object store.
#[derive(Clone, Debug, PartialEq, Eq)]
pub struct S3Credentials {
    pub access_key: String,
    pub secret_key: String,
}

/// The views of optional credentials.
pub open spec fn credential_texts(credentials: Option<S3Credentials>) -> Option<
    (Seq<char>, Seq<char>),
> {
    match credentials {
        Some(c) => Some((c.access_key@, c.secret_key@)),
        None => None,
    }
}

/// What the desktop's settings file holds under each of its keys, as far as
/// it holds something of the right kind there.
#[derive(Clone, Debug, PartialEq, Eq)]
pub struct DesktopFields {
    pub faceforge_home: Option<String>,
    pub core_port: Option<u64>,
    pub seaweed_enabled: Option<bool>,
    pub seaweed_s3_port: Option<u64>,
    pub seaweed_weed_path: Option<String>,
    pub auto_restart: Option<bool>,
    pub minimize_on_exit: Option<bool>,
    pub max_log_size_mb: Option<u64>,
}

pub struct DesktopFieldsView {
    pub faceforge_home: Option<Seq<char>>,
    pub core_port: Option<u64>,
    pub seaweed_enabled: Option<bool>,
    pub seaweed_s3_port: Option<u64>,
    pub seaweed_weed_path: Option<Seq<char>>,
    pub auto_restart: Option<bool>,
    pub minimize_on_exit: Option<bool>,
    pub max_log_size_mb: Option<u64>,
}

impl View for DesktopFields {
    type V = DesktopFieldsView;

    open spec fn view(&self) -> DesktopFieldsView {
        DesktopFieldsView {
            faceforge_home: opt_text(self.faceforge_home),
            core_port: self.core_port,
            seaweed_enabled: self.seaweed_enabled,
            seaweed_s3_port: self.seaweed_s3_port,
            seaweed_weed_path: opt_text(self.seaweed_weed_path),
            auto_restart: self.auto_restart,
            minimize_on_exit: self.minimize_on_exit,
            max_log_size_mb: self.max_log_size_mb,
        }
    }
}

/// Why a configuration file could not be read or made.
#[derive(Clone, Debug, PartialEq, Eq)]
pub enum SettingsError {
    /// The file's text is no JSON.
    InvalidJson { detail: String },
    /// The JSON writer failed.
    Encoding { detail: String },
    /// The primary service's configuration holds no install token.
    MissingToken,
}

pub enum SettingsErrorView {
    InvalidJson { detail: Seq<char> },
    Encoding { detail: Seq<char> },
    MissingToken,
}

impl View for SettingsError {
    type V = SettingsErrorView;

    open spec fn view(&self) -> SettingsErrorView {
        match self {
            SettingsError::InvalidJson { detail } => SettingsErrorView::InvalidJson {
                detail: detail@,
            },
            SettingsError::Encoding { detail } => SettingsErrorView::Encoding { detail: detail@ },
            SettingsError::MissingToken => SettingsErrorView::MissingToken,
        }
    }
}

/// The message of each failure.
pub open spec fn settings_error_text(error: SettingsErrorView) -> Seq<char> {
    match error {
        SettingsErrorView::InvalidJson { detail } => detail,
        SettingsErrorView::Encoding { detail } => detail,
        SettingsErrorView::MissingToken => "install_token missing in core.json"@,
    }
}

impl SettingsError {
    /// The message of this failure.
    pub fn message(&self) -> (s: String)
        ensures
            s@ == settings_error_text(self@),
    {
        match self {
            SettingsError::InvalidJson { detail } => detail.clone(),
            SettingsError::Encoding { detail } => detail.clone(),
            SettingsError::MissingToken => String::from_str("install_token missing in core.json"),
        }
    }
}

/// The directory of the configuration files in the managed home directory.
pub open spec fn config_dir(home: Seq<char>) -> Seq<char> {
    child_of(home, "config"@)
}

/// The place of the primary service's configuration file: `config/core.json`
/// in the managed home directory.
pub open spec fn core_json_file(home: Seq<char>) -> Seq<char> {
    child2(home, "config"@, "core.json"@)
}

/// The place of the desktop's own settings file: `config/desktop.json` in the
/// managed home directory.
pub open spec fn desktop_json_file(home: Seq<char>) -> Seq<char> {
    child2(home, "config"@, "desktop.json"@)
}

/// The path of the primary service's configuration file.
pub fn core_json_path(faceforge_home: &str) -> (path: String)
    ensures
        path@ == core_json_file(faceforge_home@),
{
    join2(faceforge_home, "config", "core.json")
}

/// The path of the desktop's own settings file.
pub fn desktop_json_path(faceforge_home: &str) -> (path: String)
    ensures
        path@ == desktop_json_file(faceforge_home@),
{
    join2(faceforge_home, "config", "desktop.json")
}

/// The file in the configuration directory that holds a rendered document,
/// or the failure of the rendering.
pub open spec fn config_file_of(
    home: Seq<char>,
    name: Seq<char>,
    rendered: Result<Seq<u8>, Seq<char>>,
) -> Result<FileWriteView, SettingsErrorView> {
    match rendered {
        Ok(contents) => Ok(
            FileWriteView {
                dir: config_dir(home),
                path: child2(home, "config"@, name),
                contents,
            },
        ),
        Err(detail) => Err(SettingsErrorView::Encoding { detail }),
    }
}

/// Places a rendered document in the configuration directory under `name`.
/// `rendered` is what the JSON writer made of the document.
pub fn config_file(faceforge_home: &str, name: &str, rendered: Result<Vec<u8>, String>) -> (file:
    Result<FileWrite, SettingsError>)
    ensures
        (match file {
            Ok(write) => Ok(write@),
            Err(error) => Err(error@),
        }) == config_file_of(
            faceforge_home@,
            name@,
            match rendered {
                Ok(bytes) => Ok(bytes@),
                Err(message) => Err(message@),
            },
        ),
{
    match rendered {
        Ok(contents) => Ok(
            FileWrite {
                dir: join_path(faceforge_home, "config"),
                path: join2(faceforge_home, "config", name),
                contents,
            },
        ),
        Err(detail) => Err(SettingsError::Encoding { detail }),
    }
}

/// Whether `text` is the base64 text of some `count` bytes.
pub open spec fn is_secret_of(text: Seq<char>, count: nat) -> bool {
    exists|bytes: Seq<u8>| bytes.len() == count && text == #[trigger] base64_url(bytes)
}

fn fresh_secret(count: usize) -> (text: String)
    requires
        count <= 0x2000_0000,
    ensures
        is_secret_of(text@, count as nat),
        text@.len() == base64_len(count as nat),
{
    let bytes = random_bytes(count);
    let text = encode_base64_url(&bytes);
    assert(bytes@.len() == count && text@ == base64_url(bytes@));
    text
}

/// Makes a new install token: 32 random bytes as 43 characters of URL-safe
/// base64.
pub fn generate_install_token() -> (token: String)
    ensures
        is_secret_of(token@, INSTALL_TOKEN_BYTES as nat),
        token@.len() == 43,
{
    fresh_secret(INSTALL_TOKEN_BYTES)
}

/// Makes new keys for the object store: an access key of 16 random bytes and
/// a secret key of 32.
pub fn generate_s3_credentials() -> (credentials: S3Credentials)
    ensures
        is_secret_of(credentials.access_key@, ACCESS_KEY_BYTES as nat),
        is_secret_of(credentials.secret_key@, SECRET_KEY_BYTES as nat),
{
    let access_key = fresh_secret(ACCESS_KEY_BYTES);
    let secret_key = fresh_secret(SECRET_KEY_BYTES);
    S3Credentials { access_key, secret_key }
}

/// The install token of a configuration: the token without the white space
/// around it, which must leave something.
pub open spec fn install_token_of(token: Seq<char>) -> Result<Seq<char>, SettingsErrorView> {
    if trimmed(token).len() == 0 {
        Err(SettingsErrorView::MissingToken)
    } else {
        Ok(trimmed(token))
    }
}

/// Reads the install token out of the `auth` section of the primary
/// service's configuration.
pub fn read_install_token(auth: &AuthConfig) -> (token: Result<String, SettingsError>)
    ensures
        (match token {
            Ok(text) => Ok(text@),
            Err(error) => Err(error@),
        }) == install_token_of(auth.install_token@),
{
    let token = trim(auth.install_token.as_str());
    if token.as_str().is_empty() {
        Err(SettingsError::MissingToken)
    } else {
        Ok(token)
    }
}

/// The settings that the fields of a settings file give. A missing home
/// directory is `default_home`, a missing port the default port, a missing
/// flag its default. A number that is too large for its field keeps its low
/// bits.
pub open spec fn settings_of(fields: DesktopFieldsView, default_home: Seq<char>)
    -> WizardSettingsView {
    WizardSettingsView {
        faceforge_home: match fields.faceforge_home {
            Some(home) => home,
            None => default_home,
        },
        core_port: match fields.core_port {
            Some(n) => (n % 0x1_0000) as u16,
            None => DEFAULT_CORE_PORT,
        },
        seaweed_enabled: match fields.seaweed_enabled {
            Some(flag) => flag,
            None => false,
        },
        seaweed_s3_port: match fields.seaweed_s3_port {
            Some(n) => Some((n % 0x1_0000) as u16),
            None => None,
        },
        seaweed_weed_path: fields.seaweed_weed_path,
        auto_restart: match fields.auto_restart {
            Some(flag) => flag,
            None => false,
        },
        minimize_on_exit: match fields.minimize_on_exit {
            Some(flag) => flag,
            None => true,
        },
        max_log_size_mb: match fields.max_log_size_mb {
            Some(n) => (n % 0x1_0000_0000) as u32,
            None => DEFAULT_MAX_LOG_SIZE_MB,
        },
    }
}

/// Makes the settings out of the fields of a settings file.
pub fn settings_from_fields(fields: DesktopFields, default_home: &str) -> (settings: WizardSettings)
    ensures
        settings@ == settings_of(fields@, default_home@),
{
    WizardSettings {
        faceforge_home: match fields.faceforge_home {
            Some(home) => home,
            None => String::from_str(default_home),
        },
        core_port: match fields.core_port {
            Some(n) => (n % 0x1_0000) as u16,
            None => DEFAULT_CORE_PORT,
        },
        seaweed_enabled: match fields.seaweed_enabled {
            Some(flag) => flag,
            None => false,
        },
        seaweed_s3_port: match fields.seaweed_s3_port {
            Some(n) => Some((n % 0x1_0000) as u16),
            None => None,
        },
        seaweed_weed_path: fields.seaweed_weed_path,
        auto_restart: match fields.auto_restart {
            Some(flag) => flag,
            None => false,
        },
        minimize_on_exit: match fields.minimize_on_exit {
            Some(flag) => flag,
            None => true,
        },
        max_log_size_mb: match fields.max_log_size_mb {
            Some(n) => (n % 0x1_0000_0000) as u32,
            None => DEFAULT_MAX_LOG_SIZE_MB,
        },
    }
}

/// The fields that a parsed settings file holds.
pub open spec fn desktop_fields_in(document: serde_json::Value) -> DesktopFieldsView {
    DesktopFieldsView {
        faceforge_home: text_member(document, "faceforge_home"@),
        core_port: number_member(document, "core_port"@),
        seaweed_enabled: flag_member(document, "seaweed_enabled"@),
        seaweed_s3_port: number_member(document, "seaweed_s3_port"@),
        seaweed_weed_path: text_member(document, "seaweed_weed_path"@),
        auto_restart: flag_member(document, "auto_restart"@),
        minimize_on_exit: flag_member(document, "minimize_on_exit"@),
        max_log_size_mb: number_member(document, "max_log_size_mb"@),
    }
}

/// What the text of a settings file means: the settings that its fields
/// give, or the reader's complaint where the text is no JSON.
pub open spec fn desktop_settings_in(raw: Seq<char>, default_home: Seq<char>) -> Result<
    WizardSettingsView,
    SettingsErrorView,
> {
    match parsed_json(raw) {
        Ok(document) => Ok(settings_of(desktop_fields_in(document), default_home)),
        Err(detail) => Err(SettingsErrorView::InvalidJson { detail }),
    }
}

/// Reads the settings out of the text of the desktop's settings file, which
/// lies in the managed home directory `faceforge_home`.
pub fn read_desktop_json(raw: &str, faceforge_home: &str) -> (settings: Result<
    WizardSettings,
    SettingsError,
>)
    ensures
        (match settings {
            Ok(s) => Ok(s@),
            Err(error) => Err(error@),
        }) == desktop_settings_in(raw@, faceforge_home@),
{
    let document = match parse_json(raw) {
        Ok(document) => document,
        Err(detail) => {
            return Err(SettingsError::InvalidJson { detail });
        },
    };
    let fields = DesktopFields {
        faceforge_home: text_of(&document, "faceforge_home"),
        core_port: number_of(&document, "core_port"),
        seaweed_enabled: flag_of(&document, "seaweed_enabled"),
        seaweed_s3_port: number_of(&document, "seaweed_s3_port"),
        seaweed_weed_path: text_of(&document, "seaweed_weed_path"),
        auto_restart: flag_of(&document, "auto_restart"),
        minimize_on_exit: flag_of(&document, "minimize_on_exit"),
        max_log_size_mb: number_of(&document, "max_log_size_mb"),
    };
    Ok(settings_from_fields(fields, faceforge_home))
}

/// What the desktop's settings file holds.
pub open spec fn desktop_document(settings: WizardSettingsView) -> JsonModel {
    JsonModel::Object(
        seq![
            ("faceforge_home"@, JsonModel::Text(settings.faceforge_home)),
            ("core_port"@, JsonModel::Number(settings.core_port as u64)),
            ("seaweed_enabled"@, JsonModel::Bool(settings.seaweed_enabled)),
            ("seaweed_s3_port"@, port_model(settings.seaweed_s3_port)),
            ("seaweed_weed_path"@, text_or_null(settings.seaweed_weed_path)),
            ("auto_restart"@, JsonModel::Bool(settings.auto_restart)),
            ("minimize_on_exit"@, JsonModel::Bool(settings.minimize_on_exit)),
            ("max_log_size_mb"@, JsonModel::Number(settings.max_log_size_mb as u64)),
        ],
    )
}

/// Builds the document of the desktop's settings file.
pub fn desktop_json_document(settings: &WizardSettings) -> (document: JsonValue)
    ensures
        document.model() == desktop_document(settings@),
{
    let mut fields = no_members();
    add_member(&mut fields, "faceforge_home", text_value(settings.faceforge_home.as_str()));
    add_member(&mut fields, "core_port", JsonValue::Number(settings.core_port as u64));
    add_member(&mut fields, "seaweed_enabled", JsonValue::Bool(settings.seaweed_enabled));
    add_member(&mut fields, "seaweed_s3_port", port_value(settings.seaweed_s3_port));
    add_member(&mut fields, "seaweed_weed_path", optional_text_value(&settings.seaweed_weed_path));
    add_member(&mut fields, "auto_restart", JsonValue::Bool(settings.auto_restart));
    add_member(&mut fields, "minimize_on_exit", JsonValue::Bool(settings.minimize_on_exit));
    add_member(&mut fields, "max_log_size_mb", JsonValue::Number(settings.max_log_size_mb as u64));
    assert(members(fields@) =~= desktop_document(settings@)->Object_0);
    object(fields)
}

/// Makes the desktop's settings file for the managed home directory
/// `faceforge_home`.
pub fn write_desktop_json(faceforge_home: &str, settings: &WizardSettings) -> (file: Result<
    FileWrite,
    SettingsError,
>)
    ensures
        (match file {
            Ok(write) => Ok(write@),
            Err(error) => Err(error@),
        }) == config_file_of(
            faceforge_home@,
            "desktop.json"@,
            pretty_json(desktop_document(settings@)),
        ),
{
    let document = desktop_json_document(settings);
    config_file(faceforge_home, "desktop.json", render_pretty(&document))
}

/// The `paths` section: every directory is left to the primary service.
pub open spec fn paths_section() -> JsonModel {
    JsonModel::Object(
        seq![
            ("db_dir"@, JsonModel::Null),
            ("s3_dir"@, JsonModel::Null),
            ("logs_dir"@, JsonModel::Null),
            ("plugins_dir"@, JsonModel::Null),
        ],
    )
}

/// The `tools` section.
pub open spec fn tools_section() -> JsonModel {
    JsonModel::Object(
        seq![("exiftool_enabled"@, JsonModel::Bool(true)), ("exiftool_path"@, JsonModel::Null)],
    )
}

/// The `storage` section: with credentials everything goes to the object
/// store, without them to the file system.
pub open spec fn storage_section(credentials: Option<(Seq<char>, Seq<char>)>) -> JsonModel {
    JsonModel::Object(
        seq![
            (
                "routing"@,
                JsonModel::Object(
                    seq![
                        (
                            "default_provider"@,
                            JsonModel::Text(
                                if credentials is Some {
                                    "s3"@
                                } else {
                                    "fs"@
                                },
                            ),
                        ),
                        ("kind_map"@, JsonModel::Object(Seq::empty())),
                        ("s3_min_size_bytes"@, JsonModel::Null),
                    ],
                ),
            ),
            (
                "s3"@,
                JsonModel::Object(
                    seq![
                        ("enabled"@, JsonModel::Bool(credentials is Some)),
                        ("endpoint_url"@, JsonModel::Null),
                        (
                            "access_key"@,
                            text_or_null(
                                match credentials {
                                    Some(c) => Some(c.0),
                                    None => None,
                                },
                            ),
                        ),
                        (
                            "secret_key"@,
                            text_or_null(
                                match credentials {
                                    Some(c) => Some(c.1),
                                    None => None,
                                },
                            ),
                        ),
                        ("bucket"@, JsonModel::Text("faceforge"@)),
                        ("region"@, JsonModel::Text("us-east-1"@)),
                        ("use_ssl"@, JsonModel::Bool(false)),
                    ],
                ),
            ),
        ],
    )
}

/// The `seaweed` section. The primary service does not manage the object
/// store itself, so that the store is never spawned twice.
pub open spec fn seaweed_section(s3_port: Option<u16>) -> JsonModel {
    JsonModel::Object(
        seq![
            ("enabled"@, JsonModel::Bool(false)),
            ("weed_path"@, JsonModel::Null),
            ("data_dir"@, JsonModel::Null),
            ("ip"@, JsonModel::Text("127.0.0.1"@)),
            ("master_port"@, JsonModel::Number(MASTER_PORT as u64)),
            ("volume_port"@, JsonModel::Number(VOLUME_PORT as u64)),
            ("filer_port"@, JsonModel::Number(FILER_PORT as u64)),
            ("s3_port"@, port_model(s3_port)),
        ],
    )
}

/// The configuration of the primary service for given settings. The object
/// store is used where it is enabled and has credentials.
pub open spec fn core_config_for(
    settings: WizardSettingsView,
    token: Seq<char>,
    credentials: Option<(Seq<char>, Seq<char>)>,
) -> CoreJsonConfigView {
    CoreJsonConfigView {
        version: "1"@,
        install_token: token,
        bind_host: "127.0.0.1"@,
        core_port: settings.core_port,
        seaweed_s3_port: settings.seaweed_s3_port,
        paths: paths_section(),
        tools: tools_section(),
        storage: storage_section(
            if settings.seaweed_enabled {
                credentials
            } else {
                None
            },
        ),
        seaweed: seaweed_section(settings.seaweed_s3_port),
    }
}

fn build_paths_section() -> (section: JsonValue)
    ensures
        section.model() == paths_section(),
{
    let mut fields = no_members();
    add_member(&mut fields, "db_dir", JsonValue::Null);
    add_member(&mut fields, "s3_dir", JsonValue::Null);
    add_member(&mut fields, "logs_dir", JsonValue::Null);
    add_member(&mut fields, "plugins_dir", JsonValue::Null);
    assert(members(fields@) =~= paths_section()->Object_0);
    object(fields)
}

fn build_tools_section() -> (section: JsonValue)
    ensures
        section.model() == tools_section(),
{
    let mut fields = no_members();
    add_member(&mut fields, "exiftool_enabled", JsonValue::Bool(true));
    add_member(&mut fields, "exiftool_path", JsonValue::Null);
    assert(members(fields@) =~= tools_section()->Object_0);
    object(fields)
}

fn build_storage_section(credentials: &Option<S3Credentials>) -> (section: JsonValue)
    ensures
        section.model() == storage_section(credential_texts(*credentials)),
{
    let ghost texts = credential_texts(*credentials);
    let mut routing = no_members();
    let provider = match credentials {
        Some(_) => text_value("s3"),
        None => text_value("fs"),
    };
    add_member(&mut routing, "default_provider", provider);
    add_member(&mut routing, "kind_map", object(no_members()));
    add_member(&mut routing, "s3_min_size_bytes", JsonValue::Null);
    let routing = object(routing);
    let (access_key, secret_key) = match credentials {
        Some(c) => (text_value(c.access_key.as_str()), text_value(c.secret_key.as_str())),
        None => (JsonValue::Null, JsonValue::Null),
    };
    let mut s3 = no_members();
    add_member(&mut s3, "enabled", JsonValue::Bool(credentials.is_some()));
    add_member(&mut s3, "endpoint_url", JsonValue::Null);
    add_member(&mut s3, "access_key", access_key);
    add_member(&mut s3, "secret_key", secret_key);
    add_member(&mut s3, "bucket", text_value("faceforge"));
    add_member(&mut s3, "region", text_value("us-east-1"));
    add_member(&mut s3, "use_ssl", JsonValue::Bool(false));
    let s3 = object(s3);
    let mut fields = no_members();
    add_member(&mut fields, "routing", routing);
    add_member(&mut fields, "s3", s3);
    proof {
        let expected = storage_section(texts)->Object_0;
        assert(routing.model()->Object_0 =~= expected[0].1->Object_0);
        assert(s3.model()->Object_0 =~= expected[1].1->Object_0);
        assert(members(fields@) =~= expected);
    }
    object(fields)
}

fn build_seaweed_section(s3_port: Option<u16>) -> (section: JsonValue)
    ensures
        section.model() == seaweed_section(s3_port),
{
    let mut fields = no_members();
    add_member(&mut fields, "enabled", JsonValue::Bool(false));
    add_member(&mut fields, "weed_path", JsonValue::Null);
    add_member(&mut fields, "data_dir", JsonValue::Null);
    add_member(&mut fields, "ip", text_value("127.0.0.1"));
    add_member(&mut fields, "master_port", JsonValue::Number(MASTER_PORT as u64));
    add_member(&mut fields, "volume_port", JsonValue::Number(VOLUME_PORT as u64));
    add_member(&mut fields, "filer_port", JsonValue::Number(FILER_PORT as u64));
    add_member(&mut fields, "s3_port", port_value(s3_port));
    assert(members(fields@) =~= seaweed_section(s3_port)->Object_0);
    object(fields)
}

/// Builds the configuration of the primary service.
pub fn core_json_config(
    settings: &WizardSettings,
    token: String,
    credentials: Option<S3Credentials>,
) -> (config: CoreJsonConfig)
    ensures
        config@ == core_config_for(settings@, token@, credential_texts(credentials)),
{
    let used: Option<S3Credentials> = if settings.seaweed_enabled {
        credentials
    } else {
        None
    };
    CoreJsonConfig {
        version: String::from_str("1"),
        auth: AuthConfig { install_token: token },
        network: NetworkConfig {
            bind_host: String::from_str("127.0.0.1"),
            core_port: settings.core_port,
            seaweed_s3_port: settings.seaweed_s3_port,
        },
        paths: build_paths_section(),
        tools: build_tools_section(),
        storage: build_storage_section(&used),
        seaweed: build_seaweed_section(settings.seaweed_s3_port),
    }
}

/// What the primary service's configuration file holds.
pub open spec fn core_document(config: CoreJsonConfigView) -> JsonModel {
    JsonModel::Object(
        seq![
            ("version"@, JsonModel::Text(config.version)),
            (
                "auth"@,
                JsonModel::Object(seq![("install_token"@, JsonModel::Text(config.install_token))]),
            ),
            (
                "network"@,
                JsonModel::Object(
                    seq![
                        ("bind_host"@, JsonModel::Text(config.bind_host)),
                        ("core_port"@, JsonModel::Number(config.core_port as u64)),
                        ("seaweed_s3_port"@, port_model(config.seaweed_s3_port)),
                    ],
                ),
            ),
            ("paths"@, config.paths),
            ("tools"@, config.tools),
            ("storage"@, config.storage),
            ("seaweed"@, config.seaweed),
        ],
    )
}

impl CoreJsonConfig {
    /// The document of this configuration.
    pub fn into_document(self) -> (document: JsonValue)
        ensures
            document.model() == core_document(self@),
    {
        let ghost expected = core_document(self@)->Object_0;
        let mut auth = no_members();
        add_member(&mut auth, "install_token", JsonValue::Text(self.auth.install_token));
        let auth = object(auth);
        let mut network = no_members();
        add_member(&mut network, "bind_host", JsonValue::Text(self.network.bind_host));
        add_member(&mut network, "core_port", JsonValue::Number(self.network.core_port as u64));
        add_member(&mut network, "seaweed_s3_port", port_value(self.network.seaweed_s3_port));
        let network = object(network);
        let mut fields = no_members();
        add_member(&mut fields, "version", JsonValue::Text(self.version));
        add_member(&mut fields, "auth", auth);
        add_member(&mut fields, "network", network);
        add_member(&mut fields, "paths", self.paths);
        add_member(&mut fields, "tools", self.tools);
        add_member(&mut fields, "storage", self.storage);
        add_member(&mut fields, "seaweed", self.seaweed);
        proof {
            assert(auth.model()->Object_0 =~= expected[1].1->Object_0);
            assert(network.model()->Object_0 =~= expected[2].1->Object_0);
            assert(members(fields@) =~= expected);
        }
        object(fields)
    }
}

/// The primary service's configuration file and the install token in it.
#[derive(Clone, Debug, PartialEq, Eq)]
pub struct CoreJsonWrite {
    pub token: String,
    pub file: FileWrite,
}

/// The configuration file of the primary service for a given token and
/// given credentials, or the failure of the JSON writer.
pub open spec fn core_json_file_of(
    home: Seq<char>,
    settings: WizardSettingsView,
    token: Seq<char>,
    credentials: Option<(Seq<char>, Seq<char>)>,
) -> Result<FileWriteView, SettingsErrorView> {
    config_file_of(
        home,
        "core.json"@,
        pretty_json(core_document(core_config_for(settings, token, credentials))),
    )
}

/// Makes the configuration file of the primary service with the given token
/// and credentials.
pub fn core_json_with(
    faceforge_home: &str,
    settings: &WizardSettings,
    token: String,
    credentials: Option<S3Credentials>,
) -> (written: Result<CoreJsonWrite, SettingsError>)
    ensures
        match written {
            Ok(write) => write.token@ == token@ && Ok::<FileWriteView, SettingsErrorView>(
                write.file@,
            ) == core_json_file_of(
                faceforge_home@,
                settings@,
                token@,
                credential_texts(credentials),
            ),
            Err(error) => Err::<FileWriteView, SettingsErrorView>(error@) == core_json_file_of(
                faceforge_home@,
                settings@,
                token@,
                credential_texts(credentials),
            ),
        },
{
    let config = core_json_config(settings, token.clone(), credentials);
    let document = config.into_document();
    match config_file(faceforge_home, "core.json", render_pretty(&document)) {
        Ok(file) => Ok(CoreJsonWrite { token, file }),
        Err(error) => Err(error),
    }
}

/// Makes the configuration file of the primary service.
///
/// The install token is the one that the existing file holds, if the host
/// found one, and else a new one. Where the object store is enabled it gets
/// new keys. The file holds the configuration for these.
pub fn write_core_json(
    faceforge_home: &str,
    settings: &WizardSettings,
    existing_token: Option<String>,
) -> (written: Result<CoreJsonWrite, SettingsError>)
    ensures
        exists|token: Seq<char>, credentials: Option<(Seq<char>, Seq<char>)>|
            {
                &&& match existing_token {
                    Some(existing) => token == existing@,
                    None => is_secret_of(token, INSTALL_TOKEN_BYTES as nat),
                }
                &&& match credentials {
                    Some(c) => settings.seaweed_enabled && is_secret_of(
                        c.0,
                        ACCESS_KEY_BYTES as nat,
                    ) && is_secret_of(c.1, SECRET_KEY_BYTES as nat),
                    None => !settings.seaweed_enabled,
                }
                &&& match written {
                    Ok(write) => write.token@ == token && Ok::<FileWriteView, SettingsErrorView>(
                        write.file@,
                    ) == #[trigger] core_json_file_of(
                        faceforge_home@,
                        settings@,
                        token,
                        credentials,
                    ),
                    Err(error) => Err::<FileWriteView, SettingsErrorView>(error@)
                        == #[trigger] core_json_file_of(
                        faceforge_home@,
                        settings@,
                        token,
                        credentials,
                    ),
                }
            },
{
    let token = match existing_token {
        Some(existing) => existing,
        None => generate_install_token(),
    };
    let credentials = if settings.seaweed_enabled {
        Some(generate_s3_credentials())
    } else {
        None
    };
    let ghost token_text = token@;
    let ghost credential_text = credential_texts(credentials);
    let written = core_json_with(faceforge_home, settings, token, credentials);
    proof {
        let file = core_json_file_of(faceforge_home@, settings@, token_text, credential_text);
        assert(match written {
            Ok(write) => write.token@ == token_text && Ok::<FileWriteView, SettingsErrorView>(
                write.file@,
            ) == file,
            Err(error) => Err::<FileWriteView, SettingsErrorView>(error@) == file,
        });
    }
    written
}

} // verus!
