use std::cell::RefCell;
use std::rc::Rc;

use freerdp2::channels::encomsp::{ParticipantCreated, ParticipantCreatedFlags, UnicodeString, SVC_CHANNEL_NAME};
use freerdp2::client::cliprdr::{CliprdrClientContext, CliprdrHandler};
use freerdp2::client::custom::Custom;
use freerdp2::client::encomsp::{rdp_participant_created, EncomspClientContext, EncomspHandler};
use freerdp2::error::RdpError;
use freerdp2::native::NativeRef;

struct Counted {
    drops: Rc<RefCell<u32>>,
}

impl Drop for Counted {
    fn drop(&mut self) {
        *self.drops.borrow_mut() += 1;
    }
}

impl CliprdrHandler for Counted {}

#[derive(Default)]
struct Guests {
    seen: Vec<(u32, u32, u16, Option<String>)>,
    fail: bool,
}

impl EncomspHandler for Guests {
    fn participant_created(
        &mut self,
        _ctxt: &mut EncomspClientContext,
        participant: &ParticipantCreated,
    ) -> Result<(), RdpError> {
        self.seen.push((
            participant.participant_id(),
            participant.group_id(),
            participant.flags().bits(),
            participant.friendly_name().ok(),
        ));
        if self.fail {
            Err(RdpError::Unsupported)
        } else {
            Ok(())
        }
    }
}

struct Quiet;

impl EncomspHandler for Quiet {}

fn guest(name: &[u16], count: u16) -> ParticipantCreated {
    ParticipantCreated {
        participant_id: 7,
        group_id: 3,
        flags: 0xFFFD,
        friendly_name: UnicodeString { cch_string: count, w_string: name.to_vec() },
    }
}

#[test]
fn a_native_reference_is_never_null() {
    assert!(NativeRef::new(0).is_none());
    let r = NativeRef::new(0x1000).unwrap();
    assert_eq!(r.addr(), 0x1000);
    assert_eq!(NativeRef::new_unchecked(0x2000).addr(), 0x2000);
    assert!(r.same_as(&NativeRef::new_unchecked(0x1000)));
    assert!(!r.same_as(&NativeRef::new_unchecked(0x1008)));
}

#[test]
fn a_context_takes_one_handler() {
    let drops = Rc::new(RefCell::new(0));
    let mut context = CliprdrClientContext::from_ptr(0x1000, true, false);
    assert_eq!(context.as_ptr(), 0x1000);
    assert!(context.owned());
    assert!(!context.is_registered());
    let custom = context.register_handler(Counted { drops: drops.clone() });
    assert!(context.is_registered());
    assert!(!custom.is_released());
    assert_eq!(context.as_ptr(), 0x1000);
    assert!(context.owned());
    assert_eq!(*drops.borrow(), 0);
}

#[test]
fn a_second_handler_is_refused_and_the_first_stays() {
    let first = Rc::new(RefCell::new(0));
    let second = Rc::new(RefCell::new(0));
    let mut context = CliprdrClientContext::from_ptr(0x1000, true, false);
    let mut custom = match context.try_register_handler(Counted { drops: first.clone() }) {
        Ok(custom) => custom,
        Err(_) => panic!("an empty context takes a handler"),
    };
    assert!(context.is_registered());
    let refused = match context.try_register_handler(Counted { drops: second.clone() }) {
        Ok(_) => panic!("a context takes one handler"),
        Err(handler) => handler,
    };
    assert!(Rc::ptr_eq(&refused.drops, &second));
    assert_eq!(*second.borrow(), 0);
    assert_eq!(*first.borrow(), 0);
    assert!(context.is_registered());
    assert!(context.owned());
    assert_eq!(context.as_ptr(), 0x1000);
    assert!(!custom.is_released());
    assert!(Rc::ptr_eq(&custom.handler().drops, &first));
    drop(refused);
    assert_eq!(*second.borrow(), 1);
    assert_eq!(*first.borrow(), 0);

    let mut party = EncomspClientContext::from_ptr(0x3000, false, true);
    assert!(party.try_register_handler(Quiet).is_err());
    assert!(party.is_registered());
    let mut empty = EncomspClientContext::from_ptr(0x3000, false, false);
    assert!(empty.try_register_handler(Quiet).is_ok());
    assert!(empty.is_registered());
    assert!(empty.try_register_handler(Quiet).is_err());
}

#[test]
fn the_handler_is_released_exactly_once() {
    let drops = Rc::new(RefCell::new(0));
    let mut custom = Custom::new(Counted { drops: drops.clone() });
    assert_eq!(*drops.borrow(), 0);
    assert!(custom.release().is_some());
    assert_eq!(*drops.borrow(), 1);
    assert!(custom.release().is_none());
    assert!(custom.release().is_none());
    assert!(custom.is_released());
    drop(custom);
    assert_eq!(*drops.borrow(), 1);
}

#[test]
fn a_slot_that_is_never_released_destroys_its_handler_with_itself() {
    let drops = Rc::new(RefCell::new(0));
    let custom = Custom::new(Counted { drops: drops.clone() });
    drop(custom);
    assert_eq!(*drops.borrow(), 1);
}

#[test]
fn the_recovered_handler_is_the_stored_one() {
    let mut custom = Custom::new(Guests::default());
    custom.handler().fail = true;
    custom.handler().seen.push((1, 2, 3, None));
    let handler = custom.release().unwrap();
    assert!(handler.fail);
    assert_eq!(handler.seen, vec![(1, 2, 3, None)]);
}

#[test]
fn only_an_owning_wrapper_asks_for_the_release() {
    let mut owned = CliprdrClientContext::from_ptr(0x1000, true, true);
    assert!(owned.teardown());
    assert!(!owned.is_registered());
    assert!(!owned.teardown());

    let mut borrowed = CliprdrClientContext::from_ptr(0x1000, false, true);
    assert!(!borrowed.teardown());
    assert!(borrowed.is_registered());
    assert!(!borrowed.teardown());

    let mut empty = CliprdrClientContext::from_ptr(0x1000, true, false);
    assert!(!empty.teardown());
    assert!(!empty.is_registered());
}

#[test]
fn a_registered_owner_releases_once_over_its_life() {
    let drops = Rc::new(RefCell::new(0));
    let mut context = CliprdrClientContext::from_ptr(0x1000, true, false);
    let mut custom = context.register_handler(Counted { drops: drops.clone() });
    let mut releases = 0;
    for _ in 0..3 {
        if context.teardown() {
            drop(custom.release());
            releases += 1;
        }
    }
    assert_eq!(releases, 1);
    assert_eq!(*drops.borrow(), 1);
}

#[test]
fn the_multiparty_context_follows_the_same_life() {
    assert_eq!(SVC_CHANNEL_NAME, "encomsp");
    let mut context = EncomspClientContext::from_ptr(0x3000, true, false);
    assert_eq!(context.as_ptr(), 0x3000);
    assert!(!context.is_registered());
    let mut custom = context.register_handler(Guests::default());
    assert!(context.is_registered());
    assert!(context.teardown());
    assert!(!context.teardown());
    assert!(custom.release().is_some());
    let mut borrowed = EncomspClientContext::from_ptr(0x3000, false, true);
    assert!(!borrowed.owned());
    assert!(!borrowed.teardown());
    assert!(borrowed.is_registered());
}

#[test]
fn a_participant_is_shown_to_the_handler() {
    let mut context = EncomspClientContext::from_ptr(0x3000, false, true);
    let mut custom = Custom::new(Guests::default());
    let name: Vec<u16> = "Zo\u{eb} \u{1F600}!!".encode_utf16().collect();
    let participant = guest(&name, 6);
    assert_eq!(rdp_participant_created(&mut context, &mut custom, &participant), 0);
    custom.handler().fail = true;
    assert_eq!(rdp_participant_created(&mut context, &mut custom, &guest(&[0xD800, 0x41], 2)), 1);
    let seen = custom.release().unwrap().seen;
    assert_eq!(
        seen,
        vec![
            (7, 3, 5, Some("Zo\u{eb} \u{1F600}".to_string())),
            (7, 3, 5, None),
        ]
    );
    assert_eq!(rdp_participant_created(&mut context, &mut custom, &participant), 1);
    let mut quiet = Custom::new(Quiet);
    assert_eq!(rdp_participant_created(&mut context, &mut quiet, &participant), 0);
}

#[test]
fn a_name_is_the_counted_part_of_its_units() {
    let units: Vec<u16> = "Alice and Bob".encode_utf16().collect();
    assert_eq!(guest(&units, 5).friendly_name().unwrap(), "Alice");
    assert_eq!(guest(&units, 0).friendly_name().unwrap(), "");
    assert_eq!(guest(&units, 13).friendly_name().unwrap(), "Alice and Bob");
    assert!(guest(&[0x41, 0xDC00], 2).friendly_name().is_err());
    assert_eq!(guest(&[0x41, 0xDC00], 1).friendly_name().unwrap(), "A");
    assert_eq!(
        guest(&units, 1).flags(),
        ParticipantCreatedFlags::from_bits_truncate(
            ParticipantCreatedFlags::MAY_VIEW | ParticipantCreatedFlags::IS_PARTICIPANT
        )
    );
}
