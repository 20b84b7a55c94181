use vstd::prelude::*;

verus! {

/// Name of the dynamic virtual channel that controls video streams.
pub const CONTROL_DVC_CHANNEL_NAME: &'static str = "Microsoft::Windows::RDS::Video::Control::v08.01";

/// Name of the dynamic virtual channel that carries video data.
pub const DATA_DVC_CHANNEL_NAME: &'static str = "Microsoft::Windows::RDS::Video::Data::v08.01";

} // verus!
