use vstd::prelude::*;
use vstd::std_specs::convert::TryFromSpecImpl;

verus! {

/// The three families into which a numeric error code falls, read from its
/// upper sixteen bits.
#[derive(Clone, Copy, Debug, PartialEq, Eq, Structural)]
pub enum RdpCodeClass {
    Base,
    Info,
    Connect,
}

impl RdpCodeClass {
    /// The number that stands for this class in the upper half of a code.
    pub open spec fn spec_code(&self) -> u32 {
        match self {
            RdpCodeClass::Base => 0,
            RdpCodeClass::Info => 1,
            RdpCodeClass::Connect => 2,
        }
    }

    /// The class that `value` stands for, if there is one.
    pub open spec fn of_code(value: u32) -> Option<RdpCodeClass> {
        if value == 0 {
            Some(RdpCodeClass::Base)
        } else if value == 1 {
            Some(RdpCodeClass::Info)
        } else if value == 2 {
            Some(RdpCodeClass::Connect)
        } else {
            None
        }
    }

    #[verifier::when_used_as_spec(spec_code)]
    pub fn code(&self) -> (ret: u32)
        ensures
            ret == self.spec_code(),
    {
        match self {
            RdpCodeClass::Base => 0,
            RdpCodeClass::Info => 1,
            RdpCodeClass::Connect => 2,
        }
    }

    /// Decoding undoes encoding, and nothing else decodes to a class.
    pub proof fn of_code_inverts_code(c: RdpCodeClass, value: u32)
        ensures
            RdpCodeClass::of_code(c.spec_code()) == Some(c),
            RdpCodeClass::of_code(value) == Some(c) <==> value == c.spec_code(),
    {
    }
}

impl TryFrom<u32> for RdpCodeClass {
    type Error = RdpError;

    fn try_from(value: u32) -> (ret: Result<RdpCodeClass, RdpError>) {
        match value {
            0 => Ok(RdpCodeClass::Base),
            1 => Ok(RdpCodeClass::Info),
            2 => Ok(RdpCodeClass::Connect),
            _ => Err(RdpError::Unsupported),
        }
    }
}

impl TryFromSpecImpl<u32> for RdpCodeClass {
    open spec fn obeys_try_from_spec() -> bool {
        true
    }

    open spec fn try_from_spec(value: u32) -> Result<RdpCodeClass, RdpError> {
        match RdpCodeClass::of_code(value) {
            Some(c) => Ok(c),
            None => Err(RdpError::Unsupported),
        }
    }
}

/// Outcomes of the base class: no error information was set.
#[derive(Clone, Copy, Debug, PartialEq, Eq, Structural)]
pub enum RdpErrBase {
    Success,
    Unset,
}

impl RdpErrBase {
    /// The number that stands for this variant on the wire.
    pub open spec fn spec_code(&self) -> u32 {
        match self {
            RdpErrBase::Success => 0,
            RdpErrBase::Unset => 0xFFFFFFFF,
        }
    }

    /// The variant that `value` stands for, if there is one.
    pub open spec fn of_code(value: u32) -> Option<RdpErrBase> {
        match value {
            0 => Some(RdpErrBase::Success),
            0xFFFFFFFF => Some(RdpErrBase::Unset),
            _ => None,
        }
    }

    #[verifier::when_used_as_spec(spec_code)]
    pub fn code(&self) -> (ret: u32)
        ensures
            ret == self.spec_code(),
    {
        match self {
            RdpErrBase::Success => 0,
            RdpErrBase::Unset => 0xFFFFFFFF,
        }
    }
}

impl TryFrom<u32> for RdpErrBase {
    type Error = RdpError;

    fn try_from(value: u32) -> (ret: Result<RdpErrBase, RdpError>) {
        match value {
            0 => Ok(RdpErrBase::Success),
            0xFFFFFFFF => Ok(RdpErrBase::Unset),
            _ => Err(RdpError::Unsupported),
        }
    }
}

impl TryFromSpecImpl<u32> for RdpErrBase {
    open spec fn obeys_try_from_spec() -> bool {
        true
    }

    open spec fn try_from_spec(value: u32) -> Result<RdpErrBase, RdpError> {
        match RdpErrBase::of_code(value) {
            Some(e) => Ok(e),
            None => Err(RdpError::Unsupported),
        }
    }
}

impl RdpErrBase {
    /// Decoding undoes encoding, and a number decodes only to the variant
    /// that it stands for. So no two variants share a number.
    pub proof fn of_code_inverts_code(e: RdpErrBase, value: u32)
        ensures
            RdpErrBase::of_code(e.spec_code()) == Some(e),
            RdpErrBase::of_code(value) == Some(e) <==> value == e.spec_code(),
    {
    }
}

/// Reasons the server gives when it ends or refuses a session.
#[derive(Clone, Copy, Debug, PartialEq, Eq, Structural)]
pub enum RdpErrInfo {
    RpcInitiatedDisconnected,
    RpcInitiatedLogoff,
    IdleTimeout,
    LogonTimeout,
    DisconnectedByOtherConnection,
    OutOfMemory,
    ServerDeniedConnection,
    ServerInsufficientPrivileges,
    ServerFreshCredentialsRequired,
    RpcInitiatedDisconnectByUser,
    LogoffByUser,
    CloseStackOnDriverNotReady,
    ServerDwmCrash,
    CloseStackOnDriverFailure,
    CloseStackOnDriverIfaceFailure,
    ServerWinlogonCrash,
    ServerCsrssCrash,
    LicenseInternal,
    LicenseNoLicenseServer,
    LicenseNoLicense,
    LicenseBadClientMsg,
    LicenseHwidDoesntMatchLicense,
    LicenseBadClientLicense,
    LicenseCantFinishProtocol,
    LicenseClientEndedProtocol,
    LicenseBadClientEncryption,
    LicenseCantUpgradeLicense,
    LicenseNoRemoteConnections,
    CbDestinationNotFound,
    CbLoadingDestination,
    CbRedirectingToDestination,
    CbSessionOnlineVmWake,
    CbSessionOnlineVmBoot,
    CbSessionOnlineVmNoDns,
    CbDestinationPoolNotFree,
    CbConnectionCancelled,
    CbConnectionErrorInvalidSettings,
    CbSessionOnlineVmBootTimeout,
    CbSessionOnlineVmSessmonFailed,
    UnknownDataPduType,
    UnknownPduType,
    DataPduSequence,
    ControlPduSequence,
    InvalidControlPduAction,
    InvalidInputPduType,
    InvalidInputPduMouse,
    InvalidRefreshRectPdu,
    CreateUserDataFailed,
    ConnectFailed,
    ConfirmActiveHasWrongShareid,
    ConfirmActiveHasWrongOriginator,
    PersistentKeyPduBadLength,
    PersistentKeyPduIllegalFirst,
    PersistentKeyPduTooManyTotalKeys,
    PersistentKeyPduTooManyCacheKeys,
    InputPduBadLength,
    BitmapCacheErrorPduBadLength,
    SecurityDataTooShort,
    VchannelDataTooShort,
    ShareDataTooShort,
    BadSuppressOutputPdu,
    ConfirmActivePduTooShort,
    CapabilitySetTooSmall,
    CapabilitySetTooLarge,
    NoCursorCache,
    BadCapabilities,
    VirtualChannelDecompression,
    InvalidVcCompressionType,
    InvalidChannelId,
    VchannelsTooMany,
    RemoteappNotEnabled,
    CacheCapNotSet,
    BitmapCacheErrorPduBadLength2,
    OffscreenCacheErrorPduBadLength,
    DrawninegridCacheErrorPduBadLength,
    GdiplusPduBadLength,
    SecurityDataTooShort2,
    SecurityDataTooShort3,
    SecurityDataTooShort4,
    SecurityDataTooShort5,
    SecurityDataTooShort6,
    SecurityDataTooShort7,
    SecurityDataTooShort8,
    SecurityDataTooShort9,
    SecurityDataTooShort10,
    SecurityDataTooShort11,
    SecurityDataTooShort12,
    SecurityDataTooShort13,
    SecurityDataTooShort14,
    SecurityDataTooShort15,
    SecurityDataTooShort16,
    SecurityDataTooShort17,
    SecurityDataTooShort18,
    SecurityDataTooShort19,
    SecurityDataTooShort20,
    SecurityDataTooShort21,
    SecurityDataTooShort22,
    SecurityDataTooShort23,
    BadMonitorData,
    VcDecompressedReassembleFailed,
    VcDataTooLong,
    BadFrameAckData,
    GraphicsModeNotSupported,
    GraphicsSubsystemResetFailed,
    GraphicsSubsystemFailed,
    TimezoneKeyNameLengthTooShort,
    TimezoneKeyNameLengthTooLong,
    DynamicDstDisabledFieldMissing,
    VcDecodingError,
    Virtualdesktoptoolarge,
    Monitorgeometryvalidationfailed,
    Invalidmonitorcount,
    UpdateSessionKeyFailed,
    DecryptFailed,
    EncryptFailed,
    EncryptionPackageMismatch,
    DecryptFailed2,
    PeerDisconnected,
    Success,
    Unset,
}

impl RdpErrInfo {
    /// The number that stands for this variant on the wire.
    pub open spec fn spec_code(&self) -> u32 {
        match self {
            RdpErrInfo::RpcInitiatedDisconnected => 1,
            RdpErrInfo::RpcInitiatedLogoff => 2,
            RdpErrInfo::IdleTimeout => 3,
            RdpErrInfo::LogonTimeout => 4,
            RdpErrInfo::DisconnectedByOtherConnection => 5,
            RdpErrInfo::OutOfMemory => 6,
            RdpErrInfo::ServerDeniedConnection => 7,
            RdpErrInfo::ServerInsufficientPrivileges => 9,
            RdpErrInfo::ServerFreshCredentialsRequired => 0xA,
            RdpErrInfo::RpcInitiatedDisconnectByUser => 0xB,
            RdpErrInfo::LogoffByUser => 0xC,
            RdpErrInfo::CloseStackOnDriverNotReady => 0xF,
            RdpErrInfo::ServerDwmCrash => 0x10,
            RdpErrInfo::CloseStackOnDriverFailure => 0x11,
            RdpErrInfo::CloseStackOnDriverIfaceFailure => 0x12,
            RdpErrInfo::ServerWinlogonCrash => 0x17,
            RdpErrInfo::ServerCsrssCrash => 0x18,
            RdpErrInfo::LicenseInternal => 0x100,
            RdpErrInfo::LicenseNoLicenseServer => 0x101,
            RdpErrInfo::LicenseNoLicense => 0x102,
            RdpErrInfo::LicenseBadClientMsg => 0x103,
            RdpErrInfo::LicenseHwidDoesntMatchLicense => 0x104,
            RdpErrInfo::LicenseBadClientLicense => 0x105,
            RdpErrInfo::LicenseCantFinishProtocol => 0x106,
            RdpErrInfo::LicenseClientEndedProtocol => 0x107,
            RdpErrInfo::LicenseBadClientEncryption => 0x108,
            RdpErrInfo::LicenseCantUpgradeLicense => 0x109,
            RdpErrInfo::LicenseNoRemoteConnections => 0x10A,
            RdpErrInfo::CbDestinationNotFound => 0x400,
            RdpErrInfo::CbLoadingDestination => 0x402,
            RdpErrInfo::CbRedirectingToDestination => 0x404,
            RdpErrInfo::CbSessionOnlineVmWake => 0x405,
            RdpErrInfo::CbSessionOnlineVmBoot => 0x406,
            RdpErrInfo::CbSessionOnlineVmNoDns => 0x407,
            RdpErrInfo::CbDestinationPoolNotFree => 0x408,
            RdpErrInfo::CbConnectionCancelled => 0x409,
            RdpErrInfo::CbConnectionErrorInvalidSettings => 0x410,
            RdpErrInfo::CbSessionOnlineVmBootTimeout => 0x411,
            RdpErrInfo::CbSessionOnlineVmSessmonFailed => 0x412,
            RdpErrInfo::UnknownDataPduType => 0x10C9,
            RdpErrInfo::UnknownPduType => 0x10CA,
            RdpErrInfo::DataPduSequence => 0x10CB,
            RdpErrInfo::ControlPduSequence => 0x10CD,
            RdpErrInfo::InvalidControlPduAction => 0x10CE,
            RdpErrInfo::InvalidInputPduType => 0x10CF,
            RdpErrInfo::InvalidInputPduMouse => 0x10D0,
            RdpErrInfo::InvalidRefreshRectPdu => 0x10D1,
            RdpErrInfo::CreateUserDataFailed => 0x10D2,
            RdpErrInfo::ConnectFailed => 0x10D3,
            RdpErrInfo::ConfirmActiveHasWrongShareid => 0x10D4,
            RdpErrInfo::ConfirmActiveHasWrongOriginator => 0x10D5,
            RdpErrInfo::PersistentKeyPduBadLength => 0x10DA,
            RdpErrInfo::PersistentKeyPduIllegalFirst => 0x10DB,
            RdpErrInfo::PersistentKeyPduTooManyTotalKeys => 0x10DC,
            RdpErrInfo::PersistentKeyPduTooManyCacheKeys => 0x10DD,
            RdpErrInfo::InputPduBadLength => 0x10DE,
            RdpErrInfo::BitmapCacheErrorPduBadLength => 0x10DF,
            RdpErrInfo::SecurityDataTooShort => 0x10E0,
            RdpErrInfo::VchannelDataTooShort => 0x10E1,
            RdpErrInfo::ShareDataTooShort => 0x10E2,
            RdpErrInfo::BadSuppressOutputPdu => 0x10E3,
            RdpErrInfo::ConfirmActivePduTooShort => 0x10E5,
            RdpErrInfo::CapabilitySetTooSmall => 0x10E7,
            RdpErrInfo::CapabilitySetTooLarge => 0x10E8,
            RdpErrInfo::NoCursorCache => 0x10E9,
            RdpErrInfo::BadCapabilities => 0x10EA,
            RdpErrInfo::VirtualChannelDecompression => 0x10EC,
            RdpErrInfo::InvalidVcCompressionType => 0x10ED,
            RdpErrInfo::InvalidChannelId => 0x10EF,
            RdpErrInfo::VchannelsTooMany => 0x10F0,
            RdpErrInfo::RemoteappNotEnabled => 0x10F3,
            RdpErrInfo::CacheCapNotSet => 0x10F4,
            RdpErrInfo::BitmapCacheErrorPduBadLength2 => 0x10F5,
            RdpErrInfo::OffscreenCacheErrorPduBadLength => 0x10F6,
            RdpErrInfo::DrawninegridCacheErrorPduBadLength => 0x10F7,
            RdpErrInfo::GdiplusPduBadLength => 0x10F8,
            RdpErrInfo::SecurityDataTooShort2 => 0x1111,
            RdpErrInfo::SecurityDataTooShort3 => 0x1112,
            RdpErrInfo::SecurityDataTooShort4 => 0x1113,
            RdpErrInfo::SecurityDataTooShort5 => 0x1114,
            RdpErrInfo::SecurityDataTooShort6 => 0x1115,
            RdpErrInfo::SecurityDataTooShort7 => 0x1116,
            RdpErrInfo::SecurityDataTooShort8 => 0x1117,
            RdpErrInfo::SecurityDataTooShort9 => 0x1118,
            RdpErrInfo::SecurityDataTooShort10 => 0x1119,
            RdpErrInfo::SecurityDataTooShort11 => 0x111A,
            RdpErrInfo::SecurityDataTooShort12 => 0x111B,
            RdpErrInfo::SecurityDataTooShort13 => 0x111C,
            RdpErrInfo::SecurityDataTooShort14 => 0x111D,
            RdpErrInfo::SecurityDataTooShort15 => 0x111E,
            RdpErrInfo::SecurityDataTooShort16 => 0x111F,
            RdpErrInfo::SecurityDataTooShort17 => 0x1120,
            RdpErrInfo::SecurityDataTooShort18 => 0x1121,
            RdpErrInfo::SecurityDataTooShort19 => 0x1122,
            RdpErrInfo::SecurityDataTooShort20 => 0x1123,
            RdpErrInfo::SecurityDataTooShort21 => 0x1124,
            RdpErrInfo::SecurityDataTooShort22 => 0x1125,
            RdpErrInfo::SecurityDataTooShort23 => 0x1126,
            RdpErrInfo::BadMonitorData => 0x1129,
            RdpErrInfo::VcDecompressedReassembleFailed => 0x112A,
            RdpErrInfo::VcDataTooLong => 0x112B,
            RdpErrInfo::BadFrameAckData => 0x112C,
            RdpErrInfo::GraphicsModeNotSupported => 0x112D,
            RdpErrInfo::GraphicsSubsystemResetFailed => 0x112E,
            RdpErrInfo::GraphicsSubsystemFailed => 0x112F,
            RdpErrInfo::TimezoneKeyNameLengthTooShort => 0x1130,
            RdpErrInfo::TimezoneKeyNameLengthTooLong => 0x1131,
            RdpErrInfo::DynamicDstDisabledFieldMissing => 0x1132,
            RdpErrInfo::VcDecodingError => 0x1133,
            RdpErrInfo::Virtualdesktoptoolarge => 0x1134,
            RdpErrInfo::Monitorgeometryvalidationfailed => 0x1135,
            RdpErrInfo::Invalidmonitorcount => 0x1136,
            RdpErrInfo::UpdateSessionKeyFailed => 0x1191,
            RdpErrInfo::DecryptFailed => 0x1192,
            RdpErrInfo::EncryptFailed => 0x1193,
            RdpErrInfo::EncryptionPackageMismatch => 0x1194,
            RdpErrInfo::DecryptFailed2 => 0x1195,
            RdpErrInfo::PeerDisconnected => 0x1196,
            RdpErrInfo::Success => 0,
            RdpErrInfo::Unset => 0xFFFFFFFF,
        }
    }

    /// The variant that `value` stands for, if there is one.
    pub open spec fn of_code(value: u32) -> Option<RdpErrInfo> {
        match value {
            1 => Some(RdpErrInfo::RpcInitiatedDisconnected),
            2 => Some(RdpErrInfo::RpcInitiatedLogoff),
            3 => Some(RdpErrInfo::IdleTimeout),
            4 => Some(RdpErrInfo::LogonTimeout),
            5 => Some(RdpErrInfo::DisconnectedByOtherConnection),
            6 => Some(RdpErrInfo::OutOfMemory),
            7 => Some(RdpErrInfo::ServerDeniedConnection),
            9 => Some(RdpErrInfo::ServerInsufficientPrivileges),
            0xA => Some(RdpErrInfo::ServerFreshCredentialsRequired),
            0xB => Some(RdpErrInfo::RpcInitiatedDisconnectByUser),
            0xC => Some(RdpErrInfo::LogoffByUser),
            0xF => Some(RdpErrInfo::CloseStackOnDriverNotReady),
            0x10 => Some(RdpErrInfo::ServerDwmCrash),
            0x11 => Some(RdpErrInfo::CloseStackOnDriverFailure),
            0x12 => Some(RdpErrInfo::CloseStackOnDriverIfaceFailure),
            0x17 => Some(RdpErrInfo::ServerWinlogonCrash),
            0x18 => Some(RdpErrInfo::ServerCsrssCrash),
            0x100 => Some(RdpErrInfo::LicenseInternal),
            0x101 => Some(RdpErrInfo::LicenseNoLicenseServer),
            0x102 => Some(RdpErrInfo::LicenseNoLicense),
            0x103 => Some(RdpErrInfo::LicenseBadClientMsg),
            0x104 => Some(RdpErrInfo::LicenseHwidDoesntMatchLicense),
            0x105 => Some(RdpErrInfo::LicenseBadClientLicense),
            0x106 => Some(RdpErrInfo::LicenseCantFinishProtocol),
            0x107 => Some(RdpErrInfo::LicenseClientEndedProtocol),
            0x108 => Some(RdpErrInfo::LicenseBadClientEncryption),
            0x109 => Some(RdpErrInfo::LicenseCantUpgradeLicense),
            0x10A => Some(RdpErrInfo::LicenseNoRemoteConnections),
            0x400 => Some(RdpErrInfo::CbDestinationNotFound),
            0x402 => Some(RdpErrInfo::CbLoadingDestination),
            0x404 => Some(RdpErrInfo::CbRedirectingToDestination),
            0x405 => Some(RdpErrInfo::CbSessionOnlineVmWake),
            0x406 => Some(RdpErrInfo::CbSessionOnlineVmBoot),
            0x407 => Some(RdpErrInfo::CbSessionOnlineVmNoDns),
            0x408 => Some(RdpErrInfo::CbDestinationPoolNotFree),
            0x409 => Some(RdpErrInfo::CbConnectionCancelled),
            0x410 => Some(RdpErrInfo::CbConnectionErrorInvalidSettings),
            0x411 => Some(RdpErrInfo::CbSessionOnlineVmBootTimeout),
            0x412 => Some(RdpErrInfo::CbSessionOnlineVmSessmonFailed),
            0x10C9 => Some(RdpErrInfo::UnknownDataPduType),
            0x10CA => Some(RdpErrInfo::UnknownPduType),
            0x10CB => Some(RdpErrInfo::DataPduSequence),
            0x10CD => Some(RdpErrInfo::ControlPduSequence),
            0x10CE => Some(RdpErrInfo::InvalidControlPduAction),
            0x10CF => Some(RdpErrInfo::InvalidInputPduType),
            0x10D0 => Some(RdpErrInfo::InvalidInputPduMouse),
            0x10D1 => Some(RdpErrInfo::InvalidRefreshRectPdu),
            0x10D2 => Some(RdpErrInfo::CreateUserDataFailed),
            0x10D3 => Some(RdpErrInfo::ConnectFailed),
            0x10D4 => Some(RdpErrInfo::ConfirmActiveHasWrongShareid),
            0x10D5 => Some(RdpErrInfo::ConfirmActiveHasWrongOriginator),
            0x10DA => Some(RdpErrInfo::PersistentKeyPduBadLength),
            0x10DB => Some(RdpErrInfo::PersistentKeyPduIllegalFirst),
            0x10DC => Some(RdpErrInfo::PersistentKeyPduTooManyTotalKeys),
            0x10DD => Some(RdpErrInfo::PersistentKeyPduTooManyCacheKeys),
            0x10DE => Some(RdpErrInfo::InputPduBadLength),
            0x10DF => Some(RdpErrInfo::BitmapCacheErrorPduBadLength),
            0x10E0 => Some(RdpErrInfo::SecurityDataTooShort),
            0x10E1 => Some(RdpErrInfo::VchannelDataTooShort),
            0x10E2 => Some(RdpErrInfo::ShareDataTooShort),
            0x10E3 => Some(RdpErrInfo::BadSuppressOutputPdu),
            0x10E5 => Some(RdpErrInfo::ConfirmActivePduTooShort),
            0x10E7 => Some(RdpErrInfo::CapabilitySetTooSmall),
            0x10E8 => Some(RdpErrInfo::CapabilitySetTooLarge),
            0x10E9 => Some(RdpErrInfo::NoCursorCache),
            0x10EA => Some(RdpErrInfo::BadCapabilities),
            0x10EC => Some(RdpErrInfo::VirtualChannelDecompression),
            0x10ED => Some(RdpErrInfo::InvalidVcCompressionType),
            0x10EF => Some(RdpErrInfo::InvalidChannelId),
            0x10F0 => Some(RdpErrInfo::VchannelsTooMany),
            0x10F3 => Some(RdpErrInfo::RemoteappNotEnabled),
            0x10F4 => Some(RdpErrInfo::CacheCapNotSet),
            0x10F5 => Some(RdpErrInfo::BitmapCacheErrorPduBadLength2),
            0x10F6 => Some(RdpErrInfo::OffscreenCacheErrorPduBadLength),
            0x10F7 => Some(RdpErrInfo::DrawninegridCacheErrorPduBadLength),
            0x10F8 => Some(RdpErrInfo::GdiplusPduBadLength),
            0x1111 => Some(RdpErrInfo::SecurityDataTooShort2),
            0x1112 => Some(RdpErrInfo::SecurityDataTooShort3),
            0x1113 => Some(RdpErrInfo::SecurityDataTooShort4),
            0x1114 => Some(RdpErrInfo::SecurityDataTooShort5),
            0x1115 => Some(RdpErrInfo::SecurityDataTooShort6),
            0x1116 => Some(RdpErrInfo::SecurityDataTooShort7),
            0x1117 => Some(RdpErrInfo::SecurityDataTooShort8),
            0x1118 => Some(RdpErrInfo::SecurityDataTooShort9),
            0x1119 => Some(RdpErrInfo::SecurityDataTooShort10),
            0x111A => Some(RdpErrInfo::SecurityDataTooShort11),
            0x111B => Some(RdpErrInfo::SecurityDataTooShort12),
            0x111C => Some(RdpErrInfo::SecurityDataTooShort13),
            0x111D => Some(RdpErrInfo::SecurityDataTooShort14),
            0x111E => Some(RdpErrInfo::SecurityDataTooShort15),
            0x111F => Some(RdpErrInfo::SecurityDataTooShort16),
            0x1120 => Some(RdpErrInfo::SecurityDataTooShort17),
            0x1121 => Some(RdpErrInfo::SecurityDataTooShort18),
            0x1122 => Some(RdpErrInfo::SecurityDataTooShort19),
            0x1123 => Some(RdpErrInfo::SecurityDataTooShort20),
            0x1124 => Some(RdpErrInfo::SecurityDataTooShort21),
            0x1125 => Some(RdpErrInfo::SecurityDataTooShort22),
            0x1126 => Some(RdpErrInfo::SecurityDataTooShort23),
            0x1129 => Some(RdpErrInfo::BadMonitorData),
            0x112A => Some(RdpErrInfo::VcDecompressedReassembleFailed),
            0x112B => Some(RdpErrInfo::VcDataTooLong),
            0x112C => Some(RdpErrInfo::BadFrameAckData),
            0x112D => Some(RdpErrInfo::GraphicsModeNotSupported),
            0x112E => Some(RdpErrInfo::GraphicsSubsystemResetFailed),
            0x112F => Some(RdpErrInfo::GraphicsSubsystemFailed),
            0x1130 => Some(RdpErrInfo::TimezoneKeyNameLengthTooShort),
            0x1131 => Some(RdpErrInfo::TimezoneKeyNameLengthTooLong),
            0x1132 => Some(RdpErrInfo::DynamicDstDisabledFieldMissing),
            0x1133 => Some(RdpErrInfo::VcDecodingError),
            0x1134 => Some(RdpErrInfo::Virtualdesktoptoolarge),
            0x1135 => Some(RdpErrInfo::Monitorgeometryvalidationfailed),
            0x1136 => Some(RdpErrInfo::Invalidmonitorcount),
            0x1191 => Some(RdpErrInfo::UpdateSessionKeyFailed),
            0x1192 => Some(RdpErrInfo::DecryptFailed),
            0x1193 => Some(RdpErrInfo::EncryptFailed),
            0x1194 => Some(RdpErrInfo::EncryptionPackageMismatch),
            0x1195 => Some(RdpErrInfo::DecryptFailed2),
            0x1196 => Some(RdpErrInfo::PeerDisconnected),
            0 => Some(RdpErrInfo::Success),
            0xFFFFFFFF => Some(RdpErrInfo::Unset),
            _ => None,
        }
    }

    #[verifier::when_used_as_spec(spec_code)]
    pub fn code(&self) -> (ret: u32)
        ensures
            ret == self.spec_code(),
    {
        match self {
            RdpErrInfo::RpcInitiatedDisconnected => 1,
            RdpErrInfo::RpcInitiatedLogoff => 2,
            RdpErrInfo::IdleTimeout => 3,
            RdpErrInfo::LogonTimeout => 4,
            RdpErrInfo::DisconnectedByOtherConnection => 5,
            RdpErrInfo::OutOfMemory => 6,
            RdpErrInfo::ServerDeniedConnection => 7,
            RdpErrInfo::ServerInsufficientPrivileges => 9,
            RdpErrInfo::ServerFreshCredentialsRequired => 0xA,
            RdpErrInfo::RpcInitiatedDisconnectByUser => 0xB,
            RdpErrInfo::LogoffByUser => 0xC,
            RdpErrInfo::CloseStackOnDriverNotReady => 0xF,
            RdpErrInfo::ServerDwmCrash => 0x10,
            RdpErrInfo::CloseStackOnDriverFailure => 0x11,
            RdpErrInfo::CloseStackOnDriverIfaceFailure => 0x12,
            RdpErrInfo::ServerWinlogonCrash => 0x17,
            RdpErrInfo::ServerCsrssCrash => 0x18,
            RdpErrInfo::LicenseInternal => 0x100,
            RdpErrInfo::LicenseNoLicenseServer => 0x101,
            RdpErrInfo::LicenseNoLicense => 0x102,
            RdpErrInfo::LicenseBadClientMsg => 0x103,
            RdpErrInfo::LicenseHwidDoesntMatchLicense => 0x104,
            RdpErrInfo::LicenseBadClientLicense => 0x105,
            RdpErrInfo::LicenseCantFinishProtocol => 0x106,
            RdpErrInfo::LicenseClientEndedProtocol => 0x107,
            RdpErrInfo::LicenseBadClientEncryption => 0x108,
            RdpErrInfo::LicenseCantUpgradeLicense => 0x109,
            RdpErrInfo::LicenseNoRemoteConnections => 0x10A,
            RdpErrInfo::CbDestinationNotFound => 0x400,
            RdpErrInfo::CbLoadingDestination => 0x402,
            RdpErrInfo::CbRedirectingToDestination => 0x404,
            RdpErrInfo::CbSessionOnlineVmWake => 0x405,
            RdpErrInfo::CbSessionOnlineVmBoot => 0x406,
            RdpErrInfo::CbSessionOnlineVmNoDns => 0x407,
            RdpErrInfo::CbDestinationPoolNotFree => 0x408,
            RdpErrInfo::CbConnectionCancelled => 0x409,
            RdpErrInfo::CbConnectionErrorInvalidSettings => 0x410,
            RdpErrInfo::CbSessionOnlineVmBootTimeout => 0x411,
            RdpErrInfo::CbSessionOnlineVmSessmonFailed => 0x412,
            RdpErrInfo::UnknownDataPduType => 0x10C9,
            RdpErrInfo::UnknownPduType => 0x10CA,
            RdpErrInfo::DataPduSequence => 0x10CB,
            RdpErrInfo::ControlPduSequence => 0x10CD,
            RdpErrInfo::InvalidControlPduAction => 0x10CE,
            RdpErrInfo::InvalidInputPduType => 0x10CF,
            RdpErrInfo::InvalidInputPduMouse => 0x10D0,
            RdpErrInfo::InvalidRefreshRectPdu => 0x10D1,
            RdpErrInfo::CreateUserDataFailed => 0x10D2,
            RdpErrInfo::ConnectFailed => 0x10D3,
            RdpErrInfo::ConfirmActiveHasWrongShareid => 0x10D4,
            RdpErrInfo::ConfirmActiveHasWrongOriginator => 0x10D5,
            RdpErrInfo::PersistentKeyPduBadLength => 0x10DA,
            RdpErrInfo::PersistentKeyPduIllegalFirst => 0x10DB,
            RdpErrInfo::PersistentKeyPduTooManyTotalKeys => 0x10DC,
            RdpErrInfo::PersistentKeyPduTooManyCacheKeys => 0x10DD,
            RdpErrInfo::InputPduBadLength => 0x10DE,
            RdpErrInfo::BitmapCacheErrorPduBadLength => 0x10DF,
            RdpErrInfo::SecurityDataTooShort => 0x10E0,
            RdpErrInfo::VchannelDataTooShort => 0x10E1,
            RdpErrInfo::ShareDataTooShort => 0x10E2,
            RdpErrInfo::BadSuppressOutputPdu => 0x10E3,
            RdpErrInfo::ConfirmActivePduTooShort => 0x10E5,
            RdpErrInfo::CapabilitySetTooSmall => 0x10E7,
            RdpErrInfo::CapabilitySetTooLarge => 0x10E8,
            RdpErrInfo::NoCursorCache => 0x10E9,
            RdpErrInfo::BadCapabilities => 0x10EA,
            RdpErrInfo::VirtualChannelDecompression => 0x10EC,
            RdpErrInfo::InvalidVcCompressionType => 0x10ED,
            RdpErrInfo::InvalidChannelId => 0x10EF,
            RdpErrInfo::VchannelsTooMany => 0x10F0,
            RdpErrInfo::RemoteappNotEnabled => 0x10F3,
            RdpErrInfo::CacheCapNotSet => 0x10F4,
            RdpErrInfo::BitmapCacheErrorPduBadLength2 => 0x10F5,
            RdpErrInfo::OffscreenCacheErrorPduBadLength => 0x10F6,
            RdpErrInfo::DrawninegridCacheErrorPduBadLength => 0x10F7,
            RdpErrInfo::GdiplusPduBadLength => 0x10F8,
            RdpErrInfo::SecurityDataTooShort2 => 0x1111,
            RdpErrInfo::SecurityDataTooShort3 => 0x1112,
            RdpErrInfo::SecurityDataTooShort4 => 0x1113,
            RdpErrInfo::SecurityDataTooShort5 => 0x1114,
            RdpErrInfo::SecurityDataTooShort6 => 0x1115,
            RdpErrInfo::SecurityDataTooShort7 => 0x1116,
            RdpErrInfo::SecurityDataTooShort8 => 0x1117,
            RdpErrInfo::SecurityDataTooShort9 => 0x1118,
            RdpErrInfo::SecurityDataTooShort10 => 0x1119,
            RdpErrInfo::SecurityDataTooShort11 => 0x111A,
            RdpErrInfo::SecurityDataTooShort12 => 0x111B,
            RdpErrInfo::SecurityDataTooShort13 => 0x111C,
            RdpErrInfo::SecurityDataTooShort14 => 0x111D,
            RdpErrInfo::SecurityDataTooShort15 => 0x111E,
            RdpErrInfo::SecurityDataTooShort16 => 0x111F,
            RdpErrInfo::SecurityDataTooShort17 => 0x1120,
            RdpErrInfo::SecurityDataTooShort18 => 0x1121,
            RdpErrInfo::SecurityDataTooShort19 => 0x1122,
            RdpErrInfo::SecurityDataTooShort20 => 0x1123,
            RdpErrInfo::SecurityDataTooShort21 => 0x1124,
            RdpErrInfo::SecurityDataTooShort22 => 0x1125,
            RdpErrInfo::SecurityDataTooShort23 => 0x1126,
            RdpErrInfo::BadMonitorData => 0x1129,
            RdpErrInfo::VcDecompressedReassembleFailed => 0x112A,
            RdpErrInfo::VcDataTooLong => 0x112B,
            RdpErrInfo::BadFrameAckData => 0x112C,
            RdpErrInfo::GraphicsModeNotSupported => 0x112D,
            RdpErrInfo::GraphicsSubsystemResetFailed => 0x112E,
            RdpErrInfo::GraphicsSubsystemFailed => 0x112F,
            RdpErrInfo::TimezoneKeyNameLengthTooShort => 0x1130,
            RdpErrInfo::TimezoneKeyNameLengthTooLong => 0x1131,
            RdpErrInfo::DynamicDstDisabledFieldMissing => 0x1132,
            RdpErrInfo::VcDecodingError => 0x1133,
            RdpErrInfo::Virtualdesktoptoolarge => 0x1134,
            RdpErrInfo::Monitorgeometryvalidationfailed => 0x1135,
            RdpErrInfo::Invalidmonitorcount => 0x1136,
            RdpErrInfo::UpdateSessionKeyFailed => 0x1191,
            RdpErrInfo::DecryptFailed => 0x1192,
            RdpErrInfo::EncryptFailed => 0x1193,
            RdpErrInfo::EncryptionPackageMismatch => 0x1194,
            RdpErrInfo::DecryptFailed2 => 0x1195,
            RdpErrInfo::PeerDisconnected => 0x1196,
            RdpErrInfo::Success => 0,
            RdpErrInfo::Unset => 0xFFFFFFFF,
        }
    }
}

impl TryFrom<u32> for RdpErrInfo {
    type Error = RdpError;

    fn try_from(value: u32) -> (ret: Result<RdpErrInfo, RdpError>) {
        match value {
            1 => Ok(RdpErrInfo::RpcInitiatedDisconnected),
            2 => Ok(RdpErrInfo::RpcInitiatedLogoff),
            3 => Ok(RdpErrInfo::IdleTimeout),
            4 => Ok(RdpErrInfo::LogonTimeout),
            5 => Ok(RdpErrInfo::DisconnectedByOtherConnection),
            6 => Ok(RdpErrInfo::OutOfMemory),
            7 => Ok(RdpErrInfo::ServerDeniedConnection),
            9 => Ok(RdpErrInfo::ServerInsufficientPrivileges),
            0xA => Ok(RdpErrInfo::ServerFreshCredentialsRequired),
            0xB => Ok(RdpErrInfo::RpcInitiatedDisconnectByUser),
            0xC => Ok(RdpErrInfo::LogoffByUser),
            0xF => Ok(RdpErrInfo::CloseStackOnDriverNotReady),
            0x10 => Ok(RdpErrInfo::ServerDwmCrash),
            0x11 => Ok(RdpErrInfo::CloseStackOnDriverFailure),
            0x12 => Ok(RdpErrInfo::CloseStackOnDriverIfaceFailure),
            0x17 => Ok(RdpErrInfo::ServerWinlogonCrash),
            0x18 => Ok(RdpErrInfo::ServerCsrssCrash),
            0x100 => Ok(RdpErrInfo::LicenseInternal),
            0x101 => Ok(RdpErrInfo::LicenseNoLicenseServer),
            0x102 => Ok(RdpErrInfo::LicenseNoLicense),
            0x103 => Ok(RdpErrInfo::LicenseBadClientMsg),
            0x104 => Ok(RdpErrInfo::LicenseHwidDoesntMatchLicense),
            0x105 => Ok(RdpErrInfo::LicenseBadClientLicense),
            0x106 => Ok(RdpErrInfo::LicenseCantFinishProtocol),
            0x107 => Ok(RdpErrInfo::LicenseClientEndedProtocol),
            0x108 => Ok(RdpErrInfo::LicenseBadClientEncryption),
            0x109 => Ok(RdpErrInfo::LicenseCantUpgradeLicense),
            0x10A => Ok(RdpErrInfo::LicenseNoRemoteConnections),
            0x400 => Ok(RdpErrInfo::CbDestinationNotFound),
            0x402 => Ok(RdpErrInfo::CbLoadingDestination),
            0x404 => Ok(RdpErrInfo::CbRedirectingToDestination),
            0x405 => Ok(RdpErrInfo::CbSessionOnlineVmWake),
            0x406 => Ok(RdpErrInfo::CbSessionOnlineVmBoot),
            0x407 => Ok(RdpErrInfo::CbSessionOnlineVmNoDns),
            0x408 => Ok(RdpErrInfo::CbDestinationPoolNotFree),
            0x409 => Ok(RdpErrInfo::CbConnectionCancelled),
            0x410 => Ok(RdpErrInfo::CbConnectionErrorInvalidSettings),
            0x411 => Ok(RdpErrInfo::CbSessionOnlineVmBootTimeout),
            0x412 => Ok(RdpErrInfo::CbSessionOnlineVmSessmonFailed),
            0x10C9 => Ok(RdpErrInfo::UnknownDataPduType),
            0x10CA => Ok(RdpErrInfo::UnknownPduType),
            0x10CB => Ok(RdpErrInfo::DataPduSequence),
            0x10CD => Ok(RdpErrInfo::ControlPduSequence),
            0x10CE => Ok(RdpErrInfo::InvalidControlPduAction),
            0x10CF => Ok(RdpErrInfo::InvalidInputPduType),
            0x10D0 => Ok(RdpErrInfo::InvalidInputPduMouse),
            0x10D1 => Ok(RdpErrInfo::InvalidRefreshRectPdu),
            0x10D2 => Ok(RdpErrInfo::CreateUserDataFailed),
            0x10D3 => Ok(RdpErrInfo::ConnectFailed),
            0x10D4 => Ok(RdpErrInfo::ConfirmActiveHasWrongShareid),
            0x10D5 => Ok(RdpErrInfo::ConfirmActiveHasWrongOriginator),
            0x10DA => Ok(RdpErrInfo::PersistentKeyPduBadLength),
            0x10DB => Ok(RdpErrInfo::PersistentKeyPduIllegalFirst),
            0x10DC => Ok(RdpErrInfo::PersistentKeyPduTooManyTotalKeys),
            0x10DD => Ok(RdpErrInfo::PersistentKeyPduTooManyCacheKeys),
            0x10DE => Ok(RdpErrInfo::InputPduBadLength),
            0x10DF => Ok(RdpErrInfo::BitmapCacheErrorPduBadLength),
            0x10E0 => Ok(RdpErrInfo::SecurityDataTooShort),
            0x10E1 => Ok(RdpErrInfo::VchannelDataTooShort),
            0x10E2 => Ok(RdpErrInfo::ShareDataTooShort),
            0x10E3 => Ok(RdpErrInfo::BadSuppressOutputPdu),
            0x10E5 => Ok(RdpErrInfo::ConfirmActivePduTooShort),
            0x10E7 => Ok(RdpErrInfo::CapabilitySetTooSmall),
            0x10E8 => Ok(RdpErrInfo::CapabilitySetTooLarge),
            0x10E9 => Ok(RdpErrInfo::NoCursorCache),
            0x10EA => Ok(RdpErrInfo::BadCapabilities),
            0x10EC => Ok(RdpErrInfo::VirtualChannelDecompression),
            0x10ED => Ok(RdpErrInfo::InvalidVcCompressionType),
            0x10EF => Ok(RdpErrInfo::InvalidChannelId),
            0x10F0 => Ok(RdpErrInfo::VchannelsTooMany),
            0x10F3 => Ok(RdpErrInfo::RemoteappNotEnabled),
            0x10F4 => Ok(RdpErrInfo::CacheCapNotSet),
            0x10F5 => Ok(RdpErrInfo::BitmapCacheErrorPduBadLength2),
            0x10F6 => Ok(RdpErrInfo::OffscreenCacheErrorPduBadLength),
            0x10F7 => Ok(RdpErrInfo::DrawninegridCacheErrorPduBadLength),
            0x10F8 => Ok(RdpErrInfo::GdiplusPduBadLength),
            0x1111 => Ok(RdpErrInfo::SecurityDataTooShort2),
            0x1112 => Ok(RdpErrInfo::SecurityDataTooShort3),
            0x1113 => Ok(RdpErrInfo::SecurityDataTooShort4),
            0x1114 => Ok(RdpErrInfo::SecurityDataTooShort5),
            0x1115 => Ok(RdpErrInfo::SecurityDataTooShort6),
            0x1116 => Ok(RdpErrInfo::SecurityDataTooShort7),
            0x1117 => Ok(RdpErrInfo::SecurityDataTooShort8),
            0x1118 => Ok(RdpErrInfo::SecurityDataTooShort9),
            0x1119 => Ok(RdpErrInfo::SecurityDataTooShort10),
            0x111A => Ok(RdpErrInfo::SecurityDataTooShort11),
            0x111B => Ok(RdpErrInfo::SecurityDataTooShort12),
            0x111C => Ok(RdpErrInfo::SecurityDataTooShort13),
            0x111D => Ok(RdpErrInfo::SecurityDataTooShort14),
            0x111E => Ok(RdpErrInfo::SecurityDataTooShort15),
            0x111F => Ok(RdpErrInfo::SecurityDataTooShort16),
            0x1120 => Ok(RdpErrInfo::SecurityDataTooShort17),
            0x1121 => Ok(RdpErrInfo::SecurityDataTooShort18),
            0x1122 => Ok(RdpErrInfo::SecurityDataTooShort19),
            0x1123 => Ok(RdpErrInfo::SecurityDataTooShort20),
            0x1124 => Ok(RdpErrInfo::SecurityDataTooShort21),
            0x1125 => Ok(RdpErrInfo::SecurityDataTooShort22),
            0x1126 => Ok(RdpErrInfo::SecurityDataTooShort23),
            0x1129 => Ok(RdpErrInfo::BadMonitorData),
            0x112A => Ok(RdpErrInfo::VcDecompressedReassembleFailed),
            0x112B => Ok(RdpErrInfo::VcDataTooLong),
            0x112C => Ok(RdpErrInfo::BadFrameAckData),
            0x112D => Ok(RdpErrInfo::GraphicsModeNotSupported),
            0x112E => Ok(RdpErrInfo::GraphicsSubsystemResetFailed),
            0x112F => Ok(RdpErrInfo::GraphicsSubsystemFailed),
            0x1130 => Ok(RdpErrInfo::TimezoneKeyNameLengthTooShort),
            0x1131 => Ok(RdpErrInfo::TimezoneKeyNameLengthTooLong),
            0x1132 => Ok(RdpErrInfo::DynamicDstDisabledFieldMissing),
            0x1133 => Ok(RdpErrInfo::VcDecodingError),
            0x1134 => Ok(RdpErrInfo::Virtualdesktoptoolarge),
            0x1135 => Ok(RdpErrInfo::Monitorgeometryvalidationfailed),
            0x1136 => Ok(RdpErrInfo::Invalidmonitorcount),
            0x1191 => Ok(RdpErrInfo::UpdateSessionKeyFailed),
            0x1192 => Ok(RdpErrInfo::DecryptFailed),
            0x1193 => Ok(RdpErrInfo::EncryptFailed),
            0x1194 => Ok(RdpErrInfo::EncryptionPackageMismatch),
            0x1195 => Ok(RdpErrInfo::DecryptFailed2),
            0x1196 => Ok(RdpErrInfo::PeerDisconnected),
            0 => Ok(RdpErrInfo::Success),
            0xFFFFFFFF => Ok(RdpErrInfo::Unset),
            _ => Err(RdpError::Unsupported),
        }
    }
}

impl TryFromSpecImpl<u32> for RdpErrInfo {
    open spec fn obeys_try_from_spec() -> bool {
        true
    }

    open spec fn try_from_spec(value: u32) -> Result<RdpErrInfo, RdpError> {
        match RdpErrInfo::of_code(value) {
            Some(e) => Ok(e),
            None => Err(RdpError::Unsupported),
        }
    }
}

impl RdpErrInfo {
    /// Decoding undoes encoding, and a number decodes only to the variant
    /// that it stands for. So no two variants share a number.
    pub proof fn of_code_inverts_code(e: RdpErrInfo, value: u32)
        ensures
            RdpErrInfo::of_code(e.spec_code()) == Some(e),
            RdpErrInfo::of_code(value) == Some(e) <==> value == e.spec_code(),
    {
    }
}

/// Reasons for which establishing a connection failed.
#[derive(Clone, Copy, Debug, PartialEq, Eq, Structural)]
pub enum RdpErrConnect {
    PreConnectFailed,
    ConnectUndefined,
    PostConnectFailed,
    DnsError,
    DnsNameNotFound,
    ConnectFailed,
    McsConnectInitialError,
    TlsConnectFailed,
    AuthenticationFailed,
    InsufficientPrivileges,
    ConnectCancelled,
    SecurityNegoConnectFailed,
    ConnectTransportFailed,
    PasswordExpired,
    PasswordCertainlyExpired,
    ClientRevoked,
    KdcUnreachable,
    AccountDisabled,
    PasswordMustChange,
    LogonFailure,
    WrongPassword,
    AccessDenied,
    AccountRestriction,
    AccountLockedOut,
    AccountExpired,
    LogonTypeNotGranted,
    NoOrMissingCredentials,
    Success,
    Unset,
}

impl RdpErrConnect {
    /// The number that stands for this variant on the wire.
    pub open spec fn spec_code(&self) -> u32 {
        match self {
            RdpErrConnect::PreConnectFailed => 1,
            RdpErrConnect::ConnectUndefined => 2,
            RdpErrConnect::PostConnectFailed => 3,
            RdpErrConnect::DnsError => 4,
            RdpErrConnect::DnsNameNotFound => 5,
            RdpErrConnect::ConnectFailed => 6,
            RdpErrConnect::McsConnectInitialError => 7,
            RdpErrConnect::TlsConnectFailed => 8,
            RdpErrConnect::AuthenticationFailed => 9,
            RdpErrConnect::InsufficientPrivileges => 0xA,
            RdpErrConnect::ConnectCancelled => 0xB,
            RdpErrConnect::SecurityNegoConnectFailed => 0xC,
            RdpErrConnect::ConnectTransportFailed => 0xD,
            RdpErrConnect::PasswordExpired => 0xE,
            RdpErrConnect::PasswordCertainlyExpired => 0xF,
            RdpErrConnect::ClientRevoked => 0x10,
            RdpErrConnect::KdcUnreachable => 0x11,
            RdpErrConnect::AccountDisabled => 0x12,
            RdpErrConnect::PasswordMustChange => 0x13,
            RdpErrConnect::LogonFailure => 0x14,
            RdpErrConnect::WrongPassword => 0x15,
            RdpErrConnect::AccessDenied => 0x16,
            RdpErrConnect::AccountRestriction => 0x17,
            RdpErrConnect::AccountLockedOut => 0x18,
            RdpErrConnect::AccountExpired => 0x19,
            RdpErrConnect::LogonTypeNotGranted => 0x1A,
            RdpErrConnect::NoOrMissingCredentials => 0x1B,
            RdpErrConnect::Success => 0,
            RdpErrConnect::Unset => 0xFFFFFFFF,
        }
    }

    /// The variant that `value` stands for, if there is one.
    pub open spec fn of_code(value: u32) -> Option<RdpErrConnect> {
        match value {
            1 => Some(RdpErrConnect::PreConnectFailed),
            2 => Some(RdpErrConnect::ConnectUndefined),
            3 => Some(RdpErrConnect::PostConnectFailed),
            4 => Some(RdpErrConnect::DnsError),
            5 => Some(RdpErrConnect::DnsNameNotFound),
            6 => Some(RdpErrConnect::ConnectFailed),
            7 => Some(RdpErrConnect::McsConnectInitialError),
            8 => Some(RdpErrConnect::TlsConnectFailed),
            9 => Some(RdpErrConnect::AuthenticationFailed),
            0xA => Some(RdpErrConnect::InsufficientPrivileges),
            0xB => Some(RdpErrConnect::ConnectCancelled),
            0xC => Some(RdpErrConnect::SecurityNegoConnectFailed),
            0xD => Some(RdpErrConnect::ConnectTransportFailed),
            0xE => Some(RdpErrConnect::PasswordExpired),
            0xF => Some(RdpErrConnect::PasswordCertainlyExpired),
            0x10 => Some(RdpErrConnect::ClientRevoked),
            0x11 => Some(RdpErrConnect::KdcUnreachable),
            0x12 => Some(RdpErrConnect::AccountDisabled),
            0x13 => Some(RdpErrConnect::PasswordMustChange),
            0x14 => Some(RdpErrConnect::LogonFailure),
            0x15 => Some(RdpErrConnect::WrongPassword),
            0x16 => Some(RdpErrConnect::AccessDenied),
            0x17 => Some(RdpErrConnect::AccountRestriction),
            0x18 => Some(RdpErrConnect::AccountLockedOut),
            0x19 => Some(RdpErrConnect::AccountExpired),
            0x1A => Some(RdpErrConnect::LogonTypeNotGranted),
            0x1B => Some(RdpErrConnect::NoOrMissingCredentials),
            0 => Some(RdpErrConnect::Success),
            0xFFFFFFFF => Some(RdpErrConnect::Unset),
            _ => None,
        }
    }

    #[verifier::when_used_as_spec(spec_code)]
    pub fn code(&self) -> (ret: u32)
        ensures
            ret == self.spec_code(),
    {
        match self {
            RdpErrConnect::PreConnectFailed => 1,
            RdpErrConnect::ConnectUndefined => 2,
            RdpErrConnect::PostConnectFailed => 3,
            RdpErrConnect::DnsError => 4,
            RdpErrConnect::DnsNameNotFound => 5,
            RdpErrConnect::ConnectFailed => 6,
            RdpErrConnect::McsConnectInitialError => 7,
            RdpErrConnect::TlsConnectFailed => 8,
            RdpErrConnect::AuthenticationFailed => 9,
            RdpErrConnect::InsufficientPrivileges => 0xA,
            RdpErrConnect::ConnectCancelled => 0xB,
            RdpErrConnect::SecurityNegoConnectFailed => 0xC,
            RdpErrConnect::ConnectTransportFailed => 0xD,
            RdpErrConnect::PasswordExpired => 0xE,
            RdpErrConnect::PasswordCertainlyExpired => 0xF,
            RdpErrConnect::ClientRevoked => 0x10,
            RdpErrConnect::KdcUnreachable => 0x11,
            RdpErrConnect::AccountDisabled => 0x12,
            RdpErrConnect::PasswordMustChange => 0x13,
            RdpErrConnect::LogonFailure => 0x14,
            RdpErrConnect::WrongPassword => 0x15,
            RdpErrConnect::AccessDenied => 0x16,
            RdpErrConnect::AccountRestriction => 0x17,
            RdpErrConnect::AccountLockedOut => 0x18,
            RdpErrConnect::AccountExpired => 0x19,
            RdpErrConnect::LogonTypeNotGranted => 0x1A,
            RdpErrConnect::NoOrMissingCredentials => 0x1B,
            RdpErrConnect::Success => 0,
            RdpErrConnect::Unset => 0xFFFFFFFF,
        }
    }
}

impl TryFrom<u32> for RdpErrConnect {
    type Error = RdpError;

    fn try_from(value: u32) -> (ret: Result<RdpErrConnect, RdpError>) {
        match value {
            1 => Ok(RdpErrConnect::PreConnectFailed),
            2 => Ok(RdpErrConnect::ConnectUndefined),
            3 => Ok(RdpErrConnect::PostConnectFailed),
            4 => Ok(RdpErrConnect::DnsError),
            5 => Ok(RdpErrConnect::DnsNameNotFound),
            6 => Ok(RdpErrConnect::ConnectFailed),
            7 => Ok(RdpErrConnect::McsConnectInitialError),
            8 => Ok(RdpErrConnect::TlsConnectFailed),
            9 => Ok(RdpErrConnect::AuthenticationFailed),
            0xA => Ok(RdpErrConnect::InsufficientPrivileges),
            0xB => Ok(RdpErrConnect::ConnectCancelled),
            0xC => Ok(RdpErrConnect::SecurityNegoConnectFailed),
            0xD => Ok(RdpErrConnect::ConnectTransportFailed),
            0xE => Ok(RdpErrConnect::PasswordExpired),
            0xF => Ok(RdpErrConnect::PasswordCertainlyExpired),
            0x10 => Ok(RdpErrConnect::ClientRevoked),
            0x11 => Ok(RdpErrConnect::KdcUnreachable),
            0x12 => Ok(RdpErrConnect::AccountDisabled),
            0x13 => Ok(RdpErrConnect::PasswordMustChange),
            0x14 => Ok(RdpErrConnect::LogonFailure),
            0x15 => Ok(RdpErrConnect::WrongPassword),
            0x16 => Ok(RdpErrConnect::AccessDenied),
            0x17 => Ok(RdpErrConnect::AccountRestriction),
            0x18 => Ok(RdpErrConnect::AccountLockedOut),
            0x19 => Ok(RdpErrConnect::AccountExpired),
            0x1A => Ok(RdpErrConnect::LogonTypeNotGranted),
            0x1B => Ok(RdpErrConnect::NoOrMissingCredentials),
            0 => Ok(RdpErrConnect::Success),
            0xFFFFFFFF => Ok(RdpErrConnect::Unset),
            _ => Err(RdpError::Unsupported),
        }
    }
}

impl TryFromSpecImpl<u32> for RdpErrConnect {
    open spec fn obeys_try_from_spec() -> bool {
        true
    }

    open spec fn try_from_spec(value: u32) -> Result<RdpErrConnect, RdpError> {
        match RdpErrConnect::of_code(value) {
            Some(e) => Ok(e),
            None => Err(RdpError::Unsupported),
        }
    }
}

impl RdpErrConnect {
    /// Decoding undoes encoding, and a number decodes only to the variant
    /// that it stands for. So no two variants share a number.
    pub proof fn of_code_inverts_code(e: RdpErrConnect, value: u32)
        ensures
            RdpErrConnect::of_code(e.spec_code()) == Some(e),
            RdpErrConnect::of_code(value) == Some(e) <==> value == e.spec_code(),
    {
    }
}

/// A decoded error: its class together with the reason inside that class.
#[derive(Clone, Copy, Debug, PartialEq, Eq, Structural)]
pub enum RdpErr {
    RdpErrBase(RdpErrBase),
    RdpErrInfo(RdpErrInfo),
    RdpErrConnect(RdpErrConnect),
}

/// A raw 32-bit error code: a class in the upper sixteen bits, a reason in the
/// lower sixteen.
#[derive(Clone, Copy, Debug, PartialEq, Eq, Structural)]
pub struct RdpCode(pub u32);

impl RdpCode {
    /// The class named by the upper half of the code.
    pub open spec fn spec_class(&self) -> Option<RdpCodeClass> {
        RdpCodeClass::of_code(self.0 >> 16)
    }

    /// The structured error that the code stands for: the reason named by the
    /// lower half, looked up in the table of the code's class.
    pub open spec fn spec_as_err(&self) -> Option<RdpErr> {
        let reason = self.0 & 0xffff;
        match self.spec_class() {
            Some(RdpCodeClass::Base) => match RdpErrBase::of_code(reason) {
                Some(e) => Some(RdpErr::RdpErrBase(e)),
                None => None,
            },
            Some(RdpCodeClass::Info) => match RdpErrInfo::of_code(reason) {
                Some(e) => Some(RdpErr::RdpErrInfo(e)),
                None => None,
            },
            Some(RdpCodeClass::Connect) => match RdpErrConnect::of_code(reason) {
                Some(e) => Some(RdpErr::RdpErrConnect(e)),
                None => None,
            },
            None => None,
        }
    }

    #[verifier::when_used_as_spec(spec_class)]
    pub fn class(&self) -> (ret: Option<RdpCodeClass>)
        ensures
            ret == self.spec_class(),
    {
        match RdpCodeClass::try_from(self.0 >> 16) {
            Ok(c) => Some(c),
            Err(_) => None,
        }
    }

    #[verifier::when_used_as_spec(spec_as_err)]
    pub fn as_err(&self) -> (ret: Option<RdpErr>)
        ensures
            ret == self.spec_as_err(),
    {
        let reason: u32 = self.0 & 0xffff;
        match self.class() {
            Some(RdpCodeClass::Base) => match RdpErrBase::try_from(reason) {
                Ok(e) => Some(RdpErr::RdpErrBase(e)),
                Err(_) => None,
            },
            Some(RdpCodeClass::Info) => match RdpErrInfo::try_from(reason) {
                Ok(e) => Some(RdpErr::RdpErrInfo(e)),
                Err(_) => None,
            },
            Some(RdpCodeClass::Connect) => match RdpErrConnect::try_from(reason) {
                Ok(e) => Some(RdpErr::RdpErrConnect(e)),
                Err(_) => None,
            },
            None => None,
        }
    }
}

/// Everything that can go wrong in this library.
#[derive(Debug, PartialEq, Eq)]
pub enum RdpError {
    /// Early return or missing implementation.
    Unsupported,
    /// A generic failure, with the message that describes it.
    Failed(String),
    /// An error code of the native stack.
    Code(RdpCode),
    /// A text could not cross to the native side: it holds a NUL byte, at
    /// this position.
    NulError(usize),
    /// An operating-system error, by its number.
    IOError(i32),
    /// An integer did not fit the type it was converted to.
    TryFromIntError(core::num::TryFromIntError),
}

} // verus!
