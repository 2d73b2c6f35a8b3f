//! `wl_registry.global`: the compositor offers a global object.

use vstd::prelude::*;
use vstd::slice::slice_subrange;
use crate::protocol::error::{result_view, WlError, WlErrorView};
use crate::protocol::types::primitive::{
    get_u32, lemma_u32_wire_round_trip, spec_get_u32, u32_wire,
};
use crate::protocol::types::wlstring::{
    lemma_string_round_trip, parse_string, string_fits, string_wire, WlString,
};

verus! {

/// Width in bytes of the numeric name that a `global` event starts with.
pub const WL_REGISTRY_GLOBAL_NAME_LEN: usize = 4;

/// Width in bytes of the version that a `global` event ends with.
pub const WL_REGISTRY_GLOBAL_VERSION_LEN: usize = 4;

/// The arguments of a `global` event.
#[derive(Debug, Clone, PartialEq, Eq)]
pub struct WlRegistryGlobal {
    /// The numeric name of the global, by which a client binds to it.
    pub name: u32,
    /// The interface that the global implements, such as `wl_compositor`.
    pub interface: WlString,
    /// The version of the interface that the compositor offers.
    pub version: u32,
}

/// What a `global` event says, apart from how it is held in memory.
pub ghost struct GlobalView {
    pub name: u32,
    pub interface: Seq<u8>,
    pub version: u32,
}

impl View for WlRegistryGlobal {
    type V = GlobalView;

    open spec fn view(&self) -> GlobalView {
        GlobalView { name: self.name, interface: self.interface@, version: self.version }
    }
}

/// The `global` arguments that the payload `buf` holds: a name, a string,
/// and behind the string and its padding a version.
pub open spec fn parse_global(buf: Seq<u8>) -> Result<GlobalView, WlErrorView> {
    match spec_get_u32(buf, 0) {
        Err(e) => Err(e),
        Ok(name) => match parse_string(buf.skip(4)) {
            Err(e) => Err(e),
            Ok((interface, used)) => match spec_get_u32(buf, 4 + used) {
                Err(e) => Err(e),
                Ok(version) => Ok(GlobalView { name, interface, version }),
            },
        },
    }
}

/// The payload of a `global` event with the given arguments.
pub open spec fn global_wire(g: GlobalView) -> Seq<u8>
    recommends
        string_fits(g.interface.len()),
{
    u32_wire(g.name) + string_wire(g.interface) + u32_wire(g.version)
}

/// A `global` event decodes to the arguments it was encoded from. The
/// interface name comes back byte for byte, whatever its padding and
/// whatever follows the event in the buffer.
pub proof fn lemma_global_round_trip(g: GlobalView, rest: Seq<u8>)
    requires
        string_fits(g.interface.len()),
        !g.interface.contains(0u8),
        global_wire(g).len() + rest.len() <= usize::MAX,
    ensures
        parse_global(global_wire(g) + rest) == Ok::<_, WlErrorView>(g),
{
    let buf = global_wire(g) + rest;
    let text = string_wire(g.interface);
    let behind = u32_wire(g.version) + rest;
    lemma_u32_wire_round_trip(g.name);
    lemma_u32_wire_round_trip(g.version);
    lemma_string_round_trip(g.interface, behind);
    assert(buf.subrange(0, 4) =~= u32_wire(g.name));
    assert(buf.skip(4) =~= text + behind);
    let used = text.len() as int;
    assert(buf.subrange(4 + used, 4 + used + 4) =~= u32_wire(g.version));
}

impl WlRegistryGlobal {
    /// Reads the arguments of a `global` event from its payload.
    pub fn from_bytes(buf: &[u8]) -> (r: Result<WlRegistryGlobal, WlError>)
        ensures
            result_view(r) == parse_global(buf@),
    {
        let name = match get_u32(buf, 0) {
            Ok(v) => v,
            Err(e) => {
                return Err(e);
            },
        };
        let tail = slice_subrange(buf, WL_REGISTRY_GLOBAL_NAME_LEN, buf.len());
        assert(tail@ =~= buf@.skip(4));
        let (interface, used) = match WlString::from_bytes(tail) {
            Ok(pair) => pair,
            Err(e) => {
                return Err(e);
            },
        };
        let version = match get_u32(buf, WL_REGISTRY_GLOBAL_NAME_LEN + used) {
            Ok(v) => v,
            Err(e) => {
                return Err(e);
            },
        };
        Ok(WlRegistryGlobal { name, interface, version })
    }
}

/// Decodes a `global` event and hands its arguments to the caller.
pub fn handle_wl_registry_global(buf: &[u8]) -> (r: Result<WlRegistryGlobal, WlError>)
    ensures
        result_view(r) == parse_global(buf@),
{
    WlRegistryGlobal::from_bytes(buf)
}

} // verus!
