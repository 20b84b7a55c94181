use freerdp2::error::RdpError;
use freerdp2::winpr::{
    timeout_millis, wait_for_multiple_objects, wait_for_single_object, FdEvent, FdMode, Handle,
    WaitResult, INFINITE, MAX_WAIT_OBJECTS, WAIT_ABANDONED, WAIT_FAILED, WAIT_OBJECT_0,
    WAIT_TIMEOUT,
};

#[test]
fn wait_constants() {
    assert_eq!(MAX_WAIT_OBJECTS, 64);
    assert_eq!(INFINITE, u32::MAX);
    assert_eq!(WAIT_OBJECT_0, 0);
    assert_eq!(WAIT_ABANDONED, 0x80);
    assert_eq!(WAIT_TIMEOUT, 0x102);
    assert_eq!(WAIT_FAILED, u32::MAX);
}

#[test]
fn a_status_below_the_count_names_the_signalled_object() {
    assert_eq!(wait_for_multiple_objects(0, 3, 0), Ok(WaitResult::Object(0)));
    assert_eq!(wait_for_multiple_objects(2, 3, 0), Ok(WaitResult::Object(2)));
    assert_eq!(wait_for_multiple_objects(63, 64, 0), Ok(WaitResult::Object(63)));
}

#[test]
fn a_status_above_abandoned_names_the_abandoned_object() {
    assert_eq!(wait_for_multiple_objects(0x80, 3, 0), Ok(WaitResult::Abandoned(0)));
    assert_eq!(wait_for_multiple_objects(0x82, 3, 0), Ok(WaitResult::Abandoned(2)));
}

#[test]
fn the_signalled_reading_wins_over_the_abandoned_one() {
    assert_eq!(wait_for_multiple_objects(0x80, 0x90, 0), Ok(WaitResult::Object(0x80)));
    assert_eq!(wait_for_multiple_objects(0x90, 0x90, 0), Ok(WaitResult::Abandoned(0x10)));
}

#[test]
fn timeout_failure_and_the_rest() {
    assert_eq!(wait_for_multiple_objects(0x102, 3, 0), Ok(WaitResult::Timeout));
    assert_eq!(wait_for_multiple_objects(u32::MAX, 3, 11), Err(RdpError::IOError(11)));
    assert_eq!(
        wait_for_multiple_objects(3, 3, 0),
        Err(RdpError::Failed("Unhandled WaitForMultipleObjects() return: 3".to_string()))
    );
    assert_eq!(
        wait_for_multiple_objects(0x83, 3, 0),
        Err(RdpError::Failed("Unhandled WaitForMultipleObjects() return: 83".to_string()))
    );
    assert_eq!(
        wait_for_multiple_objects(0xC0, 3, 0),
        Err(RdpError::Failed("Unhandled WaitForMultipleObjects() return: c0".to_string()))
    );
    assert_eq!(
        wait_for_multiple_objects(0xDEAD_BEEF, 0, 0),
        Err(RdpError::Failed(
            "Unhandled WaitForMultipleObjects() return: deadbeef".to_string()
        ))
    );
}

#[test]
fn waiting_on_nothing_knows_no_object() {
    assert_eq!(
        wait_for_multiple_objects(0, 0, 0),
        Err(RdpError::Failed("Unhandled WaitForMultipleObjects() return: 0".to_string()))
    );
    assert_eq!(
        wait_for_multiple_objects(0x80, 0, 0),
        Err(RdpError::Failed("Unhandled WaitForMultipleObjects() return: 80".to_string()))
    );
    assert_eq!(
        wait_for_multiple_objects(0x0FED_CBA9, 0, 0),
        Err(RdpError::Failed("Unhandled WaitForMultipleObjects() return: fedcba9".to_string()))
    );
    assert_eq!(wait_for_multiple_objects(0x102, 0, 0), Ok(WaitResult::Timeout));
}

#[test]
fn a_large_count_does_not_wrap_around() {
    assert_eq!(
        wait_for_multiple_objects(0x102, u32::MAX, 0),
        Ok(WaitResult::Object(0x102))
    );
    assert_eq!(wait_for_multiple_objects(u32::MAX, u32::MAX, 5), Ok(WaitResult::Abandoned(u32::MAX - 0x80)));
}

#[test]
fn a_single_object_is_the_first_or_none() {
    assert_eq!(wait_for_single_object(0, 0), Ok(WaitResult::Object(0)));
    assert_eq!(wait_for_single_object(0x80, 0), Ok(WaitResult::Abandoned(0)));
    assert_eq!(wait_for_single_object(0x102, 0), Ok(WaitResult::Timeout));
    assert_eq!(wait_for_single_object(u32::MAX, -3), Err(RdpError::IOError(-3)));
    assert_eq!(
        wait_for_single_object(1, 0),
        Err(RdpError::Failed("Unhandled WaitForMultipleObjects() return: 1".to_string()))
    );
    let handle = Handle::new(0x7000, false);
    assert_eq!(handle.wait(0, 0), Ok(WaitResult::Object(0)));
    assert_eq!(handle.wait(0x81, 0), Err(RdpError::Failed(
        "Unhandled WaitForMultipleObjects() return: 81".to_string()
    )));
}

#[test]
fn timeouts_are_milliseconds_in_32_bits() {
    assert_eq!(timeout_millis(None), u32::MAX);
    assert_eq!(timeout_millis(Some(0)), 0);
    assert_eq!(timeout_millis(Some(1500)), 1500);
    assert_eq!(timeout_millis(Some(0x1_0000_0005)), 5);
    assert_eq!(timeout_millis(Some(u128::MAX)), u32::MAX);
}

#[test]
fn handles_remember_who_closes_them() {
    let borrowed = Handle::new(0x7000, false);
    assert_eq!(borrowed.as_raw(), 0x7000);
    assert!(!borrowed.owned());
    let owned = Handle::new(0x7008, true);
    assert!(owned.owned());
    let nothing = Handle::default();
    assert_eq!(nothing.as_raw(), 0);
    assert!(!nothing.owned());
}

#[test]
fn an_fd_event_takes_truth_values_as_numbers() {
    let event = FdEvent::new(&[], true, false, 7, FdMode::from_bits_truncate(FdMode::READ));
    assert_eq!(
        event,
        FdEvent { manual_reset: 1, initial_state: 0, file_descriptor: 7, mode: 1 }
    );
    let event = FdEvent::new(&[], false, true, -1, FdMode::all());
    assert_eq!(
        event,
        FdEvent { manual_reset: 0, initial_state: 1, file_descriptor: -1, mode: 3 }
    );
}
