//! `wl_registry.global_remove`: a global that was advertised is gone.

use vstd::prelude::*;
use crate::protocol::error::{error_view, WlError, WlErrorView};
use crate::protocol::types::primitive::{get_u32, spec_get_u32};

verus! {

/// The arguments of a `global_remove` event.
#[derive(Debug, Clone, Copy, PartialEq, Eq, Structural)]
pub struct WlRegistryGlobalRemove {
    /// The numeric name under which the global was advertised.
    pub name: u32,
}

/// The `global_remove` arguments that the payload `buf` holds.
pub open spec fn parse_global_remove(buf: Seq<u8>) -> Result<WlRegistryGlobalRemove, WlErrorView> {
    match spec_get_u32(buf, 0) {
        Ok(name) => Ok(WlRegistryGlobalRemove { name }),
        Err(e) => Err(e),
    }
}

impl WlRegistryGlobalRemove {
    /// Reads the arguments of a `global_remove` event from its payload.
    pub fn from_bytes(buf: &[u8]) -> (r: Result<WlRegistryGlobalRemove, WlError>)
        ensures
            error_view(r) == parse_global_remove(buf@),
    {
        match get_u32(buf, 0) {
            Ok(name) => Ok(WlRegistryGlobalRemove { name }),
            Err(e) => Err(e),
        }
    }
}

/// Decodes a `global_remove` event and hands its arguments to the caller.
pub fn handle_wl_registry_global_remove(buf: &[u8]) -> (r: Result<WlRegistryGlobalRemove, WlError>)
    ensures
        error_view(r) == parse_global_remove(buf@),
{
    WlRegistryGlobalRemove::from_bytes(buf)
}

} // verus!
