use freerdp2::client::context::cvt_nz;
use freerdp2::error::{
    RdpCode, RdpCodeClass, RdpErr, RdpErrBase, RdpErrConnect, RdpErrInfo, RdpError,
};

#[test]
fn class_is_read_from_the_upper_half() {
    assert_eq!(RdpCode(0x0000_0000).class(), Some(RdpCodeClass::Base));
    assert_eq!(RdpCode(0x0001_0003).class(), Some(RdpCodeClass::Info));
    assert_eq!(RdpCode(0x0002_0014).class(), Some(RdpCodeClass::Connect));
    assert_eq!(RdpCode(0x0003_0000).class(), None);
    assert_eq!(RdpCode(0xFFFF_FFFF).class(), None);
}

#[test]
fn reason_is_read_from_the_lower_half() {
    assert_eq!(
        RdpCode(0x0002_0014).as_err(),
        Some(RdpErr::RdpErrConnect(RdpErrConnect::LogonFailure))
    );
    assert_eq!(
        RdpCode(0x0001_0003).as_err(),
        Some(RdpErr::RdpErrInfo(RdpErrInfo::IdleTimeout))
    );
    assert_eq!(
        RdpCode(0x0001_1196).as_err(),
        Some(RdpErr::RdpErrInfo(RdpErrInfo::PeerDisconnected))
    );
    assert_eq!(RdpCode(0).as_err(), Some(RdpErr::RdpErrBase(RdpErrBase::Success)));
    assert_eq!(RdpCode(0x0001_0008).as_err(), None);
    assert_eq!(RdpCode(0x0002_001C).as_err(), None);
    assert_eq!(RdpCode(0x0000_FFFF).as_err(), None);
    assert_eq!(RdpCode(0x0003_0001).as_err(), None);
}

#[test]
fn unset_codes_never_come_out_of_a_masked_reason() {
    assert_eq!(RdpErrBase::Unset.code(), 0xFFFF_FFFF);
    assert_eq!(RdpErrInfo::Unset.code(), 0xFFFF_FFFF);
    assert_eq!(RdpErrConnect::Unset.code(), 0xFFFF_FFFF);
    assert_eq!(RdpErrInfo::try_from(0xFFFF_FFFF), Ok(RdpErrInfo::Unset));
    assert_eq!(RdpCode(0x0001_FFFF).as_err(), None);
}

#[test]
fn class_numbers() {
    assert_eq!(RdpCodeClass::Base.code(), 0);
    assert_eq!(RdpCodeClass::Info.code(), 1);
    assert_eq!(RdpCodeClass::Connect.code(), 2);
    assert_eq!(RdpCodeClass::try_from(2), Ok(RdpCodeClass::Connect));
    assert_eq!(RdpCodeClass::try_from(3), Err(RdpError::Unsupported));
}

#[test]
fn info_reasons_decode_to_the_variant_with_that_number() {
    assert_eq!(RdpErrInfo::try_from(1), Ok(RdpErrInfo::RpcInitiatedDisconnected));
    assert_eq!(RdpErrInfo::try_from(7), Ok(RdpErrInfo::ServerDeniedConnection));
    assert_eq!(RdpErrInfo::try_from(9), Ok(RdpErrInfo::ServerInsufficientPrivileges));
    assert_eq!(RdpErrInfo::try_from(0x100), Ok(RdpErrInfo::LicenseInternal));
    assert_eq!(RdpErrInfo::try_from(0x10C9), Ok(RdpErrInfo::UnknownDataPduType));
    assert_eq!(RdpErrInfo::try_from(0x1191), Ok(RdpErrInfo::UpdateSessionKeyFailed));
    assert_eq!(RdpErrInfo::try_from(0), Ok(RdpErrInfo::Success));
    assert_eq!(RdpErrInfo::try_from(8), Err(RdpError::Unsupported));
    assert_eq!(RdpErrInfo::try_from(0x1197), Err(RdpError::Unsupported));
}

#[test]
fn connect_reasons_decode_to_the_variant_with_that_number() {
    assert_eq!(RdpErrConnect::try_from(1), Ok(RdpErrConnect::PreConnectFailed));
    assert_eq!(RdpErrConnect::try_from(0x0B), Ok(RdpErrConnect::ConnectCancelled));
    assert_eq!(RdpErrConnect::try_from(0x1B), Ok(RdpErrConnect::NoOrMissingCredentials));
    assert_eq!(RdpErrConnect::try_from(0), Ok(RdpErrConnect::Success));
    assert_eq!(RdpErrConnect::try_from(0x1C), Err(RdpError::Unsupported));
    assert_eq!(RdpErrBase::try_from(0), Ok(RdpErrBase::Success));
    assert_eq!(RdpErrBase::try_from(1), Err(RdpError::Unsupported));
}

#[test]
fn decoding_undoes_encoding_for_every_connect_reason() {
    let mut found = 0;
    for value in 0u32..=0x40 {
        if let Ok(reason) = RdpErrConnect::try_from(value) {
            assert_eq!(reason.code(), value);
            found += 1;
        }
    }
    assert_eq!(found, 28);
}

#[test]
fn decoding_undoes_encoding_for_every_info_reason() {
    let mut found = 0;
    for value in 0u32..=0xFFFF {
        if let Ok(reason) = RdpErrInfo::try_from(value) {
            assert_eq!(reason.code(), value);
            found += 1;
        }
    }
    assert_eq!(found, 119);
}

#[test]
fn zero_is_success_and_anything_else_the_code() {
    assert_eq!(cvt_nz(0), Ok(()));
    assert_eq!(cvt_nz(0x0002_0014), Err(RdpError::Code(RdpCode(0x0002_0014))));
    assert_eq!(cvt_nz(u32::MAX), Err(RdpError::Code(RdpCode(u32::MAX))));
}
