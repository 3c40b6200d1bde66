//! Core of a desktop-streaming daemon: the client wire protocol, the
//! request/reply correlation used against the screen-capture broker, the
//! capture-session negotiation state machine and the input-event translation.
use vstd::prelude::*;

pub mod api;
pub mod capture;
pub mod encoder;
pub mod input;
pub mod protocol;
pub mod screencast;
pub mod session_request;
pub mod text;
pub mod unique_token;

verus! {

/// The bus name of the desktop portal.
pub const DESTINATION: &'static str = "org.freedesktop.portal.Desktop";

/// The object path of the desktop portal.
pub const PATH: &'static str = "/org/freedesktop/portal/desktop";

} // verus!
