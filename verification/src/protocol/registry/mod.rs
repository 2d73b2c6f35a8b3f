//! `wl_registry`: the object through which the compositor advertises its
//! globals.

pub mod event;
