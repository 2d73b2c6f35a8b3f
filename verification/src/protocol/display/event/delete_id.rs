//! `wl_display.delete_id`: the compositor has seen an object go, and its id
//! may be used again.

use vstd::prelude::*;
use crate::protocol::error::{error_view, result_view, WlError, WlErrorView};
use crate::protocol::types::primitive::{get_u32, spec_get_u32};

verus! {

/// The arguments of a `delete_id` event.
#[derive(Debug, Clone, Copy, PartialEq, Eq, Structural)]
pub struct WlDisplayDeleteId {
    /// The id that is free again.
    pub id: u32,
}

impl View for WlDisplayDeleteId {
    type V = WlDisplayDeleteId;

    open spec fn view(&self) -> WlDisplayDeleteId {
        *self
    }
}

/// The `delete_id` arguments that the payload `buf` holds.
pub open spec fn parse_delete_id(buf: Seq<u8>) -> Result<WlDisplayDeleteId, WlErrorView> {
    match spec_get_u32(buf, 0) {
        Ok(id) => Ok(WlDisplayDeleteId { id }),
        Err(e) => Err(e),
    }
}

impl WlDisplayDeleteId {
    /// Reads the arguments of a `delete_id` event from its payload.
    pub fn from_bytes(buf: &[u8]) -> (r: Result<WlDisplayDeleteId, WlError>)
        ensures
            error_view(r) == parse_delete_id(buf@),
    {
        match get_u32(buf, 0) {
            Ok(id) => Ok(WlDisplayDeleteId { id }),
            Err(e) => Err(e),
        }
    }
}

/// Decodes a `delete_id` event and hands its arguments to the caller, who
/// keeps track of the ids that are free.
pub fn handle_wl_display_delete_id(buf: &[u8]) -> (r: Result<WlDisplayDeleteId, WlError>)
    ensures
        result_view(r) == parse_delete_id(buf@),
{
    WlDisplayDeleteId::from_bytes(buf)
}

} // verus!
