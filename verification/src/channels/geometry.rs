use vstd::prelude::*;

verus! {

/// Name of the dynamic virtual channel that tracks the geometry of video windows.
pub const DVC_CHANNEL_NAME: &'static str = "Microsoft::Windows::RDS::Geometry::v08.01";

} // verus!
