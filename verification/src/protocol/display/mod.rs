//! `wl_display`: the object every connection starts with, under id 1.

pub mod event;
pub mod request;
