use pallet_kitties::mock::{new_test_ext, run_to_block};
use pallet_kitties::pallet::Module;
use pallet_kitties::system::System;
use pallet_kitties::types::{DispatchError, Error, Event, EventRecord, Kitty, Origin, Phase};

/// The seed the test runtime's randomness source yields before it has gathered any
/// block hashes: the all-zero hash.
const SEED: [u8; 32] = [0u8; 32];

fn expected_dna(seed: [u8; 32], sender: u64, extrinsic_index: Option<u32>) -> [u8; 16] {
    let mut bytes: Vec<u8> = seed.to_vec();
    bytes.extend_from_slice(&sender.to_le_bytes());
    match extrinsic_index {
        None => bytes.push(0),
        Some(i) => {
            bytes.push(1);
            bytes.extend_from_slice(&i.to_le_bytes());
        }
    }
    sp_io::hashing::blake2_128(&bytes)
}

#[test]
fn lib_owned_kitties_can_append_values() {
    let mut ext = new_test_ext();
    run_to_block(&mut ext.system, 10);
    assert_eq!(ext.kitties.create(&mut ext.system, Origin::Signed(1), SEED), Ok(()));
}

#[test]
fn tests_owned_kitties_can_append_values() {
    let mut ext = new_test_ext();
    run_to_block(&mut ext.system, 10);
    assert_eq!(ext.kitties.create(&mut ext.system, Origin::Signed(1), SEED), Ok(()));
    let _ = ext.kitties.create(&mut ext.system, Origin::Signed(1), SEED);
    let events = ext.system.events();
    assert_eq!(events.len(), 2);
    assert_eq!(ext.system.events()[0].event, Event::Created(1u64, 0));
}

#[test]
fn create_stores_kitty_with_hashed_dna() {
    let mut ext = new_test_ext();
    run_to_block(&mut ext.system, 3);
    assert_eq!(ext.kitties.create(&mut ext.system, Origin::Signed(7), SEED), Ok(()));
    assert_eq!(ext.kitties.kitties_count(), 1);
    assert_eq!(ext.kitties.kitty_owner(0), Some(7));
    let kitty = ext.kitties.kitties(0).unwrap();
    assert_eq!(kitty.0, expected_dna(SEED, 7, Some(0)));
    assert_ne!(kitty.0, [0u8; 16]);
}

#[test]
fn create_uses_extrinsic_index_and_seed() {
    let mut ext = new_test_ext();
    run_to_block(&mut ext.system, 1);
    ext.system.set_extrinsic_index(Some(3));
    let mut seed = [0u8; 32];
    seed[0] = 0xab;
    seed[31] = 0x01;
    assert_eq!(ext.kitties.create(&mut ext.system, Origin::Signed(0x0102030405060708), seed), Ok(()));
    let kitty = ext.kitties.kitties(0).unwrap();
    assert_eq!(kitty.0, expected_dna(seed, 0x0102030405060708, Some(3)));
    assert_ne!(kitty.0, expected_dna(seed, 0x0102030405060708, None));
}

#[test]
fn create_issues_indices_in_order() {
    let mut ext = new_test_ext();
    run_to_block(&mut ext.system, 2);
    assert_eq!(ext.kitties.create(&mut ext.system, Origin::Signed(1), SEED), Ok(()));
    assert_eq!(ext.kitties.create(&mut ext.system, Origin::Signed(2), SEED), Ok(()));
    assert_eq!(ext.kitties.kitties_count(), 2);
    assert_eq!(ext.kitties.kitty_owner(0), Some(1));
    assert_eq!(ext.kitties.kitty_owner(1), Some(2));
    let events = ext.system.events();
    assert_eq!(
        events,
        vec![
            EventRecord { phase: Phase::Initialization, event: Event::Created(1, 0) },
            EventRecord { phase: Phase::Initialization, event: Event::Created(2, 1) },
        ]
    );
}

#[test]
fn create_in_genesis_block_records_no_event() {
    let mut ext = new_test_ext();
    assert_eq!(ext.kitties.create(&mut ext.system, Origin::Signed(1), SEED), Ok(()));
    assert_eq!(ext.kitties.kitties_count(), 1);
    assert!(ext.system.events().is_empty());
}

#[test]
fn create_refuses_unsigned_origins() {
    let mut ext = new_test_ext();
    run_to_block(&mut ext.system, 4);
    assert_eq!(ext.kitties.create(&mut ext.system, Origin::Root, SEED), Err(DispatchError::BadOrigin));
    assert_eq!(
        ext.kitties.create(&mut ext.system, Origin::Unsigned, SEED),
        Err(DispatchError::BadOrigin)
    );
    assert_eq!(ext.kitties.kitties_count(), 0);
    assert_eq!(ext.kitties.kitties(0), None);
    assert!(ext.system.events().is_empty());
}

#[test]
fn create_refuses_when_counter_is_full() {
    let mut ext = new_test_ext();
    run_to_block(&mut ext.system, 4);
    ext.kitties.insert_kitty(&5, u32::MAX - 1, Kitty([9u8; 16]));
    assert_eq!(ext.kitties.kitties_count(), u32::MAX);
    assert_eq!(
        ext.kitties.create(&mut ext.system, Origin::Signed(1), SEED),
        Err(DispatchError::Module(Error::KittiesCountOverflow))
    );
    assert_eq!(ext.kitties.kitties_count(), u32::MAX);
    assert_eq!(ext.kitties.kitties(u32::MAX), None);
    assert!(ext.system.events().is_empty());
}

#[test]
fn insert_kitty_sets_counter_owner_and_kitty() {
    let mut m = Module::new();
    m.insert_kitty(&42, 7, Kitty([3u8; 16]));
    assert_eq!(m.kitties_count(), 8);
    assert_eq!(m.kitty_owner(7), Some(42));
    assert_eq!(m.kitties(7), Some(Kitty([3u8; 16])));
    assert_eq!(m.kitties(6), None);
}

#[test]
fn combine_dna_takes_bits_by_selector() {
    assert_eq!(Module::combine_dna(0xf0, 0x0f, 0xaa), 0xa5);
    assert_eq!(Module::combine_dna(0b1100, 0b1010, 0b1000), 0b1010);
    assert_eq!(Module::combine_dna(0x12, 0x34, 0xff), 0x12);
    assert_eq!(Module::combine_dna(0x12, 0x34, 0x00), 0x34);
    assert_eq!(Module::combine_dna(0x5c, 0x5c, 0x3e), 0x5c);
    assert_eq!(Module::combine_dna(0x12, 0x34, 0x0f), Module::combine_dna(0x34, 0x12, 0xf0));
}

#[test]
fn breed_mixes_parents_under_random_selector() {
    let mut ext = new_test_ext();
    run_to_block(&mut ext.system, 5);
    ext.kitties.insert_kitty(&1, 0, Kitty([0xf0u8; 16]));
    ext.kitties.insert_kitty(&2, 1, Kitty([0x0fu8; 16]));
    let mut seed = [0u8; 32];
    seed[5] = 77;
    assert_eq!(ext.kitties.breed(&mut ext.system, Origin::Signed(9), 0, 1, seed), Ok(()));
    assert_eq!(ext.kitties.kitties_count(), 3);
    assert_eq!(ext.kitties.kitty_owner(2), Some(9));
    let selector = expected_dna(seed, 9, Some(0));
    let child = ext.kitties.kitties(2).unwrap();
    for i in 0..16 {
        assert_eq!(child.0[i], (selector[i] & 0xf0) | (!selector[i] & 0x0f));
    }
    assert_eq!(ext.system.events()[0].event, Event::Created(9, 2));
}

#[test]
fn breed_of_twins_keeps_their_dna() {
    let mut ext = new_test_ext();
    run_to_block(&mut ext.system, 5);
    let dna = [0x3cu8, 1, 2, 3, 4, 5, 6, 7, 8, 9, 10, 11, 12, 13, 14, 0xff];
    ext.kitties.insert_kitty(&1, 0, Kitty(dna));
    ext.kitties.insert_kitty(&1, 1, Kitty(dna));
    assert_eq!(ext.kitties.breed(&mut ext.system, Origin::Signed(1), 0, 1, SEED), Ok(()));
    assert_eq!(ext.kitties.kitties(2), Some(Kitty(dna)));
}

#[test]
fn breed_refuses_missing_or_equal_parents() {
    let mut ext = new_test_ext();
    run_to_block(&mut ext.system, 5);
    ext.kitties.insert_kitty(&1, 0, Kitty([1u8; 16]));
    assert_eq!(
        ext.kitties.breed(&mut ext.system, Origin::Signed(1), 0, 4, SEED),
        Err(DispatchError::Module(Error::InvalidKittyId))
    );
    assert_eq!(
        ext.kitties.breed(&mut ext.system, Origin::Signed(1), 4, 0, SEED),
        Err(DispatchError::Module(Error::InvalidKittyId))
    );
    assert_eq!(
        ext.kitties.breed(&mut ext.system, Origin::Signed(1), 0, 0, SEED),
        Err(DispatchError::Module(Error::RequireDifferentParent))
    );
    assert_eq!(
        ext.kitties.breed(&mut ext.system, Origin::Signed(1), 3, 3, SEED),
        Err(DispatchError::Module(Error::InvalidKittyId))
    );
    assert_eq!(
        ext.kitties.breed(&mut ext.system, Origin::Root, 0, 1, SEED),
        Err(DispatchError::BadOrigin)
    );
    assert_eq!(ext.kitties.kitties_count(), 1);
    assert!(ext.system.events().is_empty());
}

#[test]
fn breed_refuses_when_counter_is_full() {
    let mut ext = new_test_ext();
    run_to_block(&mut ext.system, 5);
    ext.kitties.insert_kitty(&1, 0, Kitty([1u8; 16]));
    ext.kitties.insert_kitty(&1, u32::MAX - 1, Kitty([2u8; 16]));
    assert_eq!(
        ext.kitties.breed(&mut ext.system, Origin::Signed(1), 0, u32::MAX - 1, SEED),
        Err(DispatchError::Module(Error::KittiesCountOverflow))
    );
    assert!(ext.system.events().is_empty());
}

#[test]
fn transfer_sets_owner_for_any_index() {
    let mut ext = new_test_ext();
    run_to_block(&mut ext.system, 2);
    assert_eq!(ext.kitties.create(&mut ext.system, Origin::Signed(1), SEED), Ok(()));
    assert_eq!(ext.kitties.transfer(&mut ext.system, Origin::Signed(3), 4, 0), Ok(()));
    assert_eq!(ext.kitties.kitty_owner(0), Some(4));
    assert_eq!(ext.kitties.transfer(&mut ext.system, Origin::Signed(3), 5, 99), Ok(()));
    assert_eq!(ext.kitties.kitty_owner(99), Some(5));
    assert_eq!(ext.kitties.kitties(99), None);
    assert_eq!(ext.kitties.kitties_count(), 1);
    assert_eq!(ext.system.events()[1].event, Event::Transferred(3, 4, 0));
    assert_eq!(ext.system.events()[2].event, Event::Transferred(3, 5, 99));
    assert_eq!(
        ext.kitties.transfer(&mut ext.system, Origin::Unsigned, 5, 0),
        Err(DispatchError::BadOrigin)
    );
    assert_eq!(ext.kitties.kitty_owner(0), Some(4));
}

#[test]
fn genesis_has_extrinsic_index_zero() {
    let ext = new_test_ext();
    assert_eq!(ext.system.block_number(), 0);
    assert_eq!(ext.system.extrinsic_index(), Some(0));
    assert_eq!(ext.kitties.kitties_count(), 0);
}

#[test]
fn run_to_block_only_moves_forward() {
    let mut system = System::new();
    run_to_block(&mut system, 10);
    assert_eq!(system.block_number(), 10);
    run_to_block(&mut system, 5);
    assert_eq!(system.block_number(), 10);
    run_to_block(&mut system, 12);
    assert_eq!(system.block_number(), 12);
    assert!(system.events().is_empty());
}

#[test]
fn events_carry_execution_phase() {
    let mut ext = new_test_ext();
    run_to_block(&mut ext.system, 1);
    ext.system.set_execution_phase(Some(Phase::ApplyExtrinsic(2)));
    assert_eq!(ext.kitties.create(&mut ext.system, Origin::Signed(1), SEED), Ok(()));
    assert_eq!(
        ext.system.events(),
        vec![EventRecord { phase: Phase::ApplyExtrinsic(2), event: Event::Created(1, 0) }]
    );
}
