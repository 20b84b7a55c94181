use vstd::prelude::*;

verus! {

/// Name of the dynamic virtual channel for touch input.
pub const DVC_CHANNEL_NAME: &'static str = "Microsoft::Windows::RDS::Input";

} // verus!
