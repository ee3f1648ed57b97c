//! The logic of a broker that answers Microsoft identity requests for remote
//! desktop sign-in: the state machine of the sign-in window, the URLs and
//! forms of the OAuth authorization-code flow, and the JSON replies of the
//! broker's D-Bus methods.

pub mod outside;

pub mod authcode;
pub mod broker;
pub mod text;

use vstd::prelude::*;

verus! {

} // verus!
