use vstd::prelude::*;
use vstd::std_specs::convert::FromSpecImpl;

verus! {

/// The kind of network link, as announced to the server.
#[derive(Clone, Copy, Debug, PartialEq, Eq, Structural)]
pub enum ConnectionType {
    Modem,
    BroadbandLow,
    Satellite,
    BroadbandHigh,
    Wan,
    Lan,
    Auto,
}

impl ConnectionType {
    /// The protocol's numeric identifier of this connection type.
    pub open spec fn code(self) -> u32 {
        match self {
            ConnectionType::Modem => 1,
            ConnectionType::BroadbandLow => 2,
            ConnectionType::Satellite => 3,
            ConnectionType::BroadbandHigh => 4,
            ConnectionType::Wan => 5,
            ConnectionType::Lan => 6,
            ConnectionType::Auto => 7,
        }
    }
}

impl From<ConnectionType> for u32 {
    fn from(type_: ConnectionType) -> (ret: u32) {
        match type_ {
            ConnectionType::Modem => 1,
            ConnectionType::BroadbandLow => 2,
            ConnectionType::Satellite => 3,
            ConnectionType::BroadbandHigh => 4,
            ConnectionType::Wan => 5,
            ConnectionType::Lan => 6,
            ConnectionType::Auto => 7,
        }
    }
}

impl FromSpecImpl<ConnectionType> for u32 {
    open spec fn obeys_from_spec() -> bool {
        true
    }

    open spec fn from_spec(type_: ConnectionType) -> u32 {
        type_.code()
    }
}

/// Distinct connection types have distinct identifiers, all in `1..=7`.
pub proof fn connection_type_codes_distinct(a: ConnectionType, b: ConnectionType)
    ensures
        1 <= a.code() <= 7,
        a.code() == b.code() <==> a == b,
{
}

} // verus!
