use smarthome::Error;
use smarthome::Smarthome;
use smarthome::StateChange;

const ALICE: u64 = 1;
const BOB: u64 = 2;
const CALLEE: u64 = 3;

/// We test if the default constructor does its job.
#[test]
fn default_works() {
    let _ = Smarthome::new(ALICE);
}

fn add_device(smarthome: &mut Smarthome, smarthome_item: u64) {
    // The smart home item registers itself, naming the callee as its owner.
    let owner = CALLEE;
    let dev_count = smarthome.device_count(owner).unwrap();
    let _ = smarthome.add_new_device(smarthome_item, owner);

    assert_eq!(smarthome.device_count(owner), Ok(dev_count + 1));
}

#[test]
fn add_and_test_device() {
    let mut smarthome = Smarthome::new(ALICE);
    let smarthome_item = BOB;
    add_device(&mut smarthome, smarthome_item);

    let _ = smarthome.change_state(ALICE, smarthome_item, false);
}

#[test]
fn owner_registers_changes_and_others_are_rejected() {
    let a: u64 = 10;
    let d1: u64 = 11;
    let b: u64 = 12;
    let mut registry = Smarthome::new(a);

    // D1 self-registers, naming A as owner.
    assert_eq!(registry.add_new_device(d1, a), Ok(()));
    assert_eq!(registry.device_count(a), Ok(1));

    // A flips D1's state; the read sees it and exactly one event exists.
    assert_eq!(registry.change_state(a, d1, true), Ok(()));
    assert_eq!(registry.get_state(d1), Ok(true));
    assert_eq!(registry.events().len(), 1);
    assert_eq!(registry.events()[0], StateChange { device: d1, new_state: true });

    // B is not the owner: the change is rejected and the state is kept.
    assert_eq!(registry.change_state(b, d1, false), Err(Error::NotDevOwner));
    assert_eq!(registry.get_state(d1), Ok(true));
    assert_eq!(registry.events().len(), 1);
}

#[test]
fn second_registration_of_same_device_fails() {
    let a: u64 = 20;
    let d1: u64 = 21;
    let mut registry = Smarthome::new(a);

    assert_eq!(registry.add_new_device(d1, a), Ok(()));
    assert_eq!(registry.add_new_device(d1, a), Err(Error::DevExists));
    assert_eq!(registry.device_count(a), Ok(1));
}

#[test]
fn registration_under_another_owner_still_fails_and_counts_are_kept() {
    let a: u64 = 30;
    let b: u64 = 31;
    let d1: u64 = 32;
    let mut registry = Smarthome::new(a);

    assert_eq!(registry.add_new_device(d1, a), Ok(()));
    // Naming a different owner does not open a re-registration path.
    assert_eq!(registry.add_new_device(d1, b), Err(Error::DevExists));
    assert_eq!(registry.device_count(a), Ok(1));
    assert_eq!(registry.device_count(b), Ok(0));
}

#[test]
fn unknown_device_is_rejected_on_read_and_change() {
    let a: u64 = 40;
    let ghost_dev: u64 = 41;
    let mut registry = Smarthome::new(a);

    assert_eq!(registry.get_state(ghost_dev), Err(Error::DevDoesNotExist));
    assert_eq!(registry.change_state(a, ghost_dev, true), Err(Error::DevDoesNotExist));
    assert_eq!(registry.events().len(), 0);
}

#[test]
fn unknown_owner_counts_zero() {
    let a: u64 = 50;
    let registry = Smarthome::new(a);
    assert_eq!(registry.device_count(a), Ok(0));
    assert_eq!(registry.device_count(12345), Ok(0));
}

#[test]
fn fresh_device_state_is_false() {
    let a: u64 = 60;
    let d1: u64 = 61;
    let mut registry = Smarthome::new(a);
    assert_eq!(registry.add_new_device(d1, a), Ok(()));
    assert_eq!(registry.get_state(d1), Ok(false));
}

#[test]
fn setting_the_same_state_twice_emits_two_events() {
    let a: u64 = 70;
    let d1: u64 = 71;
    let mut registry = Smarthome::new(a);
    assert_eq!(registry.add_new_device(d1, a), Ok(()));

    assert_eq!(registry.change_state(a, d1, true), Ok(()));
    assert_eq!(registry.change_state(a, d1, true), Ok(()));
    assert_eq!(registry.get_state(d1), Ok(true));
    assert_eq!(registry.events().len(), 2);
    assert_eq!(registry.events()[0], StateChange { device: d1, new_state: true });
    assert_eq!(registry.events()[1], StateChange { device: d1, new_state: true });
}

#[test]
fn counters_track_each_owner_separately() {
    let a: u64 = 80;
    let b: u64 = 81;
    let mut registry = Smarthome::new(a);

    assert_eq!(registry.add_new_device(90, a), Ok(()));
    assert_eq!(registry.add_new_device(91, a), Ok(()));
    assert_eq!(registry.add_new_device(92, b), Ok(()));
    assert_eq!(registry.device_count(a), Ok(2));
    assert_eq!(registry.device_count(b), Ok(1));

    // A failing registration moves no counter.
    assert_eq!(registry.add_new_device(92, a), Err(Error::DevExists));
    assert_eq!(registry.device_count(a), Ok(2));
    assert_eq!(registry.device_count(b), Ok(1));
}

#[test]
fn device_may_register_itself_as_its_own_owner() {
    let d: u64 = 100;
    let mut registry = Smarthome::new(ALICE);
    assert_eq!(registry.add_new_device(d, d), Ok(()));
    assert_eq!(registry.device_count(d), Ok(1));
    assert_eq!(registry.change_state(d, d, true), Ok(()));
    assert_eq!(registry.get_state(d), Ok(true));
}

#[test]
fn events_record_call_order() {
    let a: u64 = 110;
    let d1: u64 = 111;
    let d2: u64 = 112;
    let mut registry = Smarthome::new(a);
    assert_eq!(registry.add_new_device(d1, a), Ok(()));
    assert_eq!(registry.add_new_device(d2, a), Ok(()));

    assert_eq!(registry.change_state(a, d2, true), Ok(()));
    assert_eq!(registry.change_state(a, d1, true), Ok(()));
    assert_eq!(registry.change_state(a, d2, false), Ok(()));
    let events = registry.events();
    assert_eq!(events.len(), 3);
    assert_eq!(events[0], StateChange { device: d2, new_state: true });
    assert_eq!(events[1], StateChange { device: d1, new_state: true });
    assert_eq!(events[2], StateChange { device: d2, new_state: false });
}
