//! Core of a relayed remote-filesystem: wire codec, message taxonomy,
//! access control, relay sessions and routing, and the client's
//! retry and correlation logic.

pub mod protocol;
pub mod codec;
pub mod wire;
pub mod msgspec;
pub mod msgexec;
pub mod frames;
pub mod paths;
mod strutil;
pub mod filters;
pub mod clock;
pub mod crypto;
pub mod config;
pub mod status;
pub mod agentexec;
pub mod relay;
pub mod clientcfg;
pub mod cli;
pub mod macoscfg;
pub mod fusecfg;
pub mod locations;
pub mod validation;
pub mod access;
pub mod session;
pub mod auth;
pub mod routing;
pub mod client;
pub mod bytesize;

use vstd::prelude::*;

verus! {

/// Library version string.
pub const VERSION: &'static str = "0.1.0";

/// Library name.
pub const NAME: &'static str = "remotefs";

} // verus!
