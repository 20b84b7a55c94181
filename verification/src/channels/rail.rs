use vstd::prelude::*;

verus! {

/// Name of the static virtual channel for remote applications.
pub const SVC_CHANNEL_NAME: &'static str = "rail";

} // verus!
