//! Apollo media state service: the verified core.
use vstd::prelude::*;

pub mod art;
pub mod config;
pub mod framing;
pub mod mock;
pub mod sendspin;
pub mod session;
pub mod shairport;
pub mod state;
pub mod text;
pub mod upnp;
pub mod xml;

verus! {
} // verus!
