//! The runtime ports file, through which the primary service learns the ports
//! that were negotiated for it.

use vstd::prelude::*;
use vstd::string::*;
use crate::json::{
    add_member,
    members,
    no_members,
    object,
    port_model,
    port_value,
    pretty_json,
    render_pretty,
    FileWrite,
    JsonModel,
    JsonValue,
};
use crate::paths::{child2, join2};
use crate::settings::{config_file, config_file_of, SettingsError};

verus! {

/// The ports in use: that of the primary service and the external one of the
/// auxiliary service, each absent where it is not assigned.
#[derive(Clone, Copy, Debug, PartialEq, Eq)]
pub struct RuntimePorts {
    pub core: Option<u16>,
    pub seaweed_s3: Option<u16>,
}

impl Default for RuntimePorts {
    fn default() -> (ports: Self)
        ensures
            ports == (RuntimePorts { core: None, seaweed_s3: None }),
    {
        RuntimePorts { core: None, seaweed_s3: None }
    }
}

/// The place of the runtime ports file: `config/ports.json` in the managed
/// home directory.
pub open spec fn ports_file(home: Seq<char>) -> Seq<char> {
    child2(home, "config"@, "ports.json"@)
}

/// The path of the runtime ports file in the managed home directory.
pub fn ports_path(faceforge_home: &str) -> (path: String)
    ensures
        path@ == ports_file(faceforge_home@),
{
    join2(faceforge_home, "config", "ports.json")
}

/// What the runtime ports file holds: each port, or null where it is not
/// assigned.
pub open spec fn ports_document(ports: RuntimePorts) -> JsonModel {
    JsonModel::Object(
        seq![("core"@, port_model(ports.core)), ("seaweed_s3"@, port_model(ports.seaweed_s3))],
    )
}

/// Builds the document of the runtime ports file.
pub fn ports_json_document(ports: &RuntimePorts) -> (document: JsonValue)
    ensures
        document.model() == ports_document(*ports),
{
    let mut fields = no_members();
    add_member(&mut fields, "core", port_value(ports.core));
    add_member(&mut fields, "seaweed_s3", port_value(ports.seaweed_s3));
    assert(members(fields@) =~= ports_document(*ports)->Object_0);
    object(fields)
}

/// Makes the runtime ports file for the managed home directory
/// `faceforge_home`.
pub fn write_ports(faceforge_home: &str, ports: &RuntimePorts) -> (file: Result<
    FileWrite,
    SettingsError,
>)
    ensures
        (match file {
            Ok(write) => Ok(write@),
            Err(error) => Err(error@),
        }) == config_file_of(faceforge_home@, "ports.json"@, pretty_json(ports_document(*ports))),
{
    let document = ports_json_document(ports);
    config_file(faceforge_home, "ports.json", render_pretty(&document))
}

} // verus!
