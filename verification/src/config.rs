//! Run configuration: the API credential and the name of the firewall to
//! reconcile. Both arrive as already-validated strings -- reading and
//! parsing the settings file is the caller's job -- and the core treats
//! them as opaque values: it never inspects, logs or alters them.

use vstd::prelude::*;

verus! {

/// The two values one reconciliation run needs.
#[derive(Debug)]
pub struct Config {
    pub api_key: String,
    pub firewall_name: String,
}

impl Config {
    /// Takes the credential and firewall name as the settings file gave
    /// them, carrying both through unchanged.
    pub fn load(api_key: String, firewall_name: String) -> (config: Config)
        ensures
            config.api_key == api_key,
            config.firewall_name == firewall_name,
    {
        Config { api_key, firewall_name }
    }
}

} // verus!
