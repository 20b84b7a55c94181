use vstd::prelude::*;

verus! {

/// Name of the dynamic virtual channel of the graphics pipeline.
pub const DVC_CHANNEL_NAME: &'static str = "Microsoft::Windows::RDS::Graphics";

} // verus!
