use freerdp2::channels::name_by_id;
use freerdp2::error::RdpError;
use freerdp2::locale::KeyboardLayout;
use freerdp2::text::{c_string, optional_c_string, optional_text, same_text};

#[test]
fn a_text_without_nul_crosses_as_its_bytes() {
    assert_eq!(c_string("localhost"), Ok(b"localhost".to_vec()));
    assert_eq!(c_string(""), Ok(Vec::new()));
    assert_eq!(c_string("h\u{e9}"), Ok(vec![0x68, 0xC3, 0xA9]));
}

#[test]
fn a_text_with_nul_is_refused_at_the_first_one() {
    assert_eq!(c_string("ab\0cd\0"), Err(RdpError::NulError(2)));
    assert_eq!(c_string("\0"), Err(RdpError::NulError(0)));
    assert_eq!(c_string("\u{e9}\0"), Err(RdpError::NulError(2)));
}

#[test]
fn a_missing_text_crosses_as_nothing() {
    assert_eq!(optional_c_string(None), Ok(None));
    assert_eq!(optional_c_string(Some("user")), Ok(Some(b"user".to_vec())));
    assert_eq!(optional_c_string(Some("us\0er")), Err(RdpError::NulError(2)));
}

#[test]
fn native_text_is_decoded_leniently() {
    assert_eq!(optional_text(None), None);
    assert_eq!(optional_text(Some(b"3389")), Some("3389".to_string()));
    assert_eq!(
        optional_text(Some(&[0x61, 0xFF, 0x62])),
        Some("a\u{FFFD}b".to_string())
    );
    assert_eq!(KeyboardLayout(0x409).name(b"US"), "US");
    assert_eq!(KeyboardLayout(0x409).name(&[0xC3, 0xA9]), "\u{e9}");
}

#[test]
fn channel_names() {
    assert_eq!(name_by_id(Some(b"cliprdr")), Ok("cliprdr".to_string()));
    assert_eq!(
        name_by_id(None),
        Err(RdpError::Failed("Unknown channel ID name".to_string()))
    );
}

#[test]
fn texts_are_compared_character_for_character() {
    assert!(same_text("rail", "rail"));
    assert!(!same_text("rail", "rails"));
    assert!(!same_text("rail", "Rail"));
    assert!(same_text("", ""));
}
