//! The identity service, which every role serves.

use crate::driver::{DRIVER_NAME, DRIVER_VERSION};
use crate::map::ParamMap;
use vstd::prelude::*;

verus! {

/// What `GetPluginInfo` answers.
pub struct PluginInfo {
    pub name: String,
    pub vendor_version: String,
    pub manifest: ParamMap,
}

/// A service that the plugin may advertise.
#[derive(Debug, Clone, Copy, PartialEq, Eq, Structural)]
pub enum PluginService {
    ControllerService,
}

/// The identity service.
#[derive(Debug, Default)]
pub struct IdentityService;

impl IdentityService {
    /// The driver's name and version.
    pub fn get_plugin_info(&self) -> (r: PluginInfo)
        ensures
            r.name@ == DRIVER_NAME@,
            r.vendor_version@ == DRIVER_VERSION@,
            r.manifest@ == Map::<Seq<char>, Seq<char>>::empty(),
    {
        PluginInfo {
            name: DRIVER_NAME.to_string(),
            vendor_version: DRIVER_VERSION.to_string(),
            manifest: ParamMap::new(),
        }
    }

    /// There is a controller service. Volumes are not bound to a topology.
    pub fn get_plugin_capabilities(&self) -> (r: Vec<PluginService>)
        ensures
            r@ == seq![PluginService::ControllerService],
    {
        let r = vec![PluginService::ControllerService];
        assert(r@ =~= seq![PluginService::ControllerService]);
        r
    }

    /// The plugin is ready as soon as it answers.
    pub fn probe(&self) -> (r: Option<bool>)
        ensures
            r == Some(true),
    {
        Some(true)
    }
}

/// The plugin tells its name and version, offers a controller service, and is
/// ready.
pub proof fn law_identity(
    svc: &IdentityService,
    info: PluginInfo,
    services: Vec<PluginService>,
    ready: Option<bool>,
)
    ensures
        call_ensures(IdentityService::get_plugin_info, (svc,), info) ==> info.name@
            == "rspacefs.csi.g8.io"@ && info.vendor_version@ == "0.1.0"@ && info.manifest@
            =~= Map::<Seq<char>, Seq<char>>::empty(),
        call_ensures(IdentityService::get_plugin_capabilities, (svc,), services) ==> services@.len()
            == 1 && services@[0] == PluginService::ControllerService,
        call_ensures(IdentityService::probe, (svc,), ready) ==> ready == Some(true),
{
}

} // verus!
