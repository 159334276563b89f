//! Control-plane safety logic for the zeroclaw assistant runtime: consent
//! codes, onboarding checks, security profile reports, emergency stop state,
//! and the browser tool's URL and selector handling.
use vstd::prelude::*;

pub mod action_args;
pub mod auth;
pub mod browser;
pub mod consent;
pub mod estop;
pub mod netaddr;
pub mod onboard;
pub mod preset;
pub mod preset_doc;
pub mod reports;
pub mod security;
pub mod selection;
pub mod selector;
pub mod text;

verus! {

} // verus!
