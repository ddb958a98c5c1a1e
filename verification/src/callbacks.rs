//! The reverse-direction interface: what the plugin may ask of its host.
//!
//! The capability set is enumerated explicitly, so what this host supports is
//! a table to read, not something discovered by crashing. The minimal host
//! records automation reports and answers the identity query; every other
//! capability is unimplemented and fatal when actually invoked. The handler
//! mutates no host state and takes no lock, so the plugin may call it from
//! any thread, including the render path, without re-entering the session
//! lifecycle.

use vstd::prelude::*;

verus! {

/// The capabilities a plugin may invoke on its host.
#[derive(Clone, Copy, PartialEq, Eq, Structural, Debug)]
pub enum HostCapability {
    Automate,
    GetPluginId,
    Idle,
    GetInfo,
    ProcessEvents,
    GetTimeInfo,
    GetBlockSize,
    UpdateDisplay,
}

/// One plugin-to-host request, tagged with its payload.
pub enum HostRequest {
    /// A parameter-change report. The value travels as the raw bit pattern of
    /// the plugin's single-precision number: the host only records it.
    Automate { index: i32, value_bits: u32 },
    GetPluginId,
    Idle,
    GetInfo,
    ProcessEvents,
    GetTimeInfo,
    GetBlockSize,
    UpdateDisplay,
}

/// What flows back to the plugin for an implemented request.
pub enum HostResponse {
    /// The automation report was recorded; nothing else flows back.
    Acknowledged,
    /// The fixed host identity.
    Info { version: i64, vendor: String, product: String },
}

/// The plugin invoked a capability this minimal host does not implement;
/// fatal when it actually happens.
#[derive(Clone, Copy, PartialEq, Eq, Structural, Debug)]
pub struct CallbackUnimplemented {
    pub capability: HostCapability,
}

/// The capability a request exercises.
pub open spec fn capability_of(request: HostRequest) -> HostCapability {
    match request {
        HostRequest::Automate { .. } => HostCapability::Automate,
        HostRequest::GetPluginId => HostCapability::GetPluginId,
        HostRequest::Idle => HostCapability::Idle,
        HostRequest::GetInfo => HostCapability::GetInfo,
        HostRequest::ProcessEvents => HostCapability::ProcessEvents,
        HostRequest::GetTimeInfo => HostCapability::GetTimeInfo,
        HostRequest::GetBlockSize => HostCapability::GetBlockSize,
        HostRequest::UpdateDisplay => HostCapability::UpdateDisplay,
    }
}

/// The capability table of this minimal host: exactly the automation report
/// and the identity query are implemented.
pub fn capability_supported(capability: HostCapability) -> (b: bool)
    ensures
        b == (capability is Automate || capability is GetInfo),
{
    match capability {
        HostCapability::Automate | HostCapability::GetInfo => true,
        _ => false,
    }
}

/// The fixed identity this host reports: version 1, vendor and product both
/// named after the host.
pub fn host_info() -> (r: (i64, String, String))
    ensures
        r.0 == 1,
        r.1@ == "Mixlab"@,
        r.2@ == "Mixlab"@,
{
    (1, "Mixlab".to_owned(), "Mixlab".to_owned())
}

/// Answers one plugin callback: an automation report is acknowledged, the
/// identity query gets the fixed host identity, and every other capability
/// comes back unimplemented, naming itself.
pub fn handle_host_request(request: &HostRequest) -> (r: Result<
    HostResponse,
    CallbackUnimplemented,
>)
    ensures
        r is Ok <==> (request is Automate || request is GetInfo),
        request is Automate ==> (r matches Ok(resp) && resp is Acknowledged),
        request is GetInfo ==> (r matches Ok(resp) && (resp matches HostResponse::Info {
            version,
            vendor,
            product,
        } && version == 1 && vendor@ == "Mixlab"@ && product@ == "Mixlab"@)),
        r matches Err(e) ==> e.capability == capability_of(*request),
{
    match request {
        HostRequest::Automate { .. } => Ok(HostResponse::Acknowledged),
        HostRequest::GetInfo => {
            let info = host_info();
            Ok(HostResponse::Info { version: info.0, vendor: info.1, product: info.2 })
        },
        HostRequest::GetPluginId => Err(
            CallbackUnimplemented { capability: HostCapability::GetPluginId },
        ),
        HostRequest::Idle => Err(CallbackUnimplemented { capability: HostCapability::Idle }),
        HostRequest::ProcessEvents => Err(
            CallbackUnimplemented { capability: HostCapability::ProcessEvents },
        ),
        HostRequest::GetTimeInfo => Err(
            CallbackUnimplemented { capability: HostCapability::GetTimeInfo },
        ),
        HostRequest::GetBlockSize => Err(
            CallbackUnimplemented { capability: HostCapability::GetBlockSize },
        ),
        HostRequest::UpdateDisplay => Err(
            CallbackUnimplemented { capability: HostCapability::UpdateDisplay },
        ),
    }
}

} // verus!
