//! The startup configuration record: which addresses to splice and
//! which inspection stages to assemble.

use vstd::prelude::*;

verus! {

/// The options the proxy recognizes. The caller reads them from its
/// configuration source and hands them over as plain values.
#[derive(Clone)]
pub struct CinchConfig {
    /// TCP endpoint of the host machine that owns the device.
    pub red_addr: String,
    /// TCP endpoint this proxy accepts guest connections on.
    pub cinch_addr: String,
    /// Insert the logging stage.
    pub log: bool,
    /// Path prefix of per-connection log files.
    pub log_prefix: String,
    /// Insert the validator stage, wiring the reset terminal on port 1.
    pub checks_active: bool,
    /// Insert the signature patcher stage on the host-to-guest side.
    pub patch_active: bool,
    /// Directory holding the patcher's signature records.
    pub patches: String,
    /// Directory holding the third-party constraint records.
    pub third_party_folder: String,
}

} // verus!
