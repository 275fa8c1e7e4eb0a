use licensed_aura::digests::{PreRuntimeDigest, AURA_ENGINE_ID};
use licensed_aura::pallet::{take_halt_request, Config, ConsensusError, HaltRequest, Pallet};
use licensed_aura::Handoff;

fn test_config() -> Config {
    Config { max_authorities: 32, allow_multiple_blocks_per_slot: false, slot_duration: 6000 }
}

fn slot_digest(slot: u64) -> PreRuntimeDigest {
    PreRuntimeDigest { engine_id: AURA_ENGINE_ID, payload: slot.to_le_bytes().to_vec() }
}

fn no_digests() -> Vec<PreRuntimeDigest> {
    Vec::new()
}

#[test]
fn running_guard_initializes_block() {
    let mut p = Pallet::new(test_config());
    assert_eq!(p.on_initialize(1, None, &no_digests(), &Vec::new()), Ok(()));
    assert!(!p.is_halted());
}

#[test]
fn halted_block_is_rejected_within_window() {
    let mut p = Pallet::new(test_config());
    p.sudo_halt_production(50, None).unwrap();
    // Heights 51 .. 150 are all within the window of 100 blocks past 50.
    assert_eq!(
        p.on_initialize(51, None, &no_digests(), &Vec::new()),
        Err(ConsensusError::ProductionHalted { halted_at: 50 })
    );
    assert_eq!(
        p.on_initialize(150, None, &no_digests(), &Vec::new()),
        Err(ConsensusError::ProductionHalted { halted_at: 50 })
    );
    assert!(p.is_halted());
    assert_eq!(p.halted_at_block, Some(50));
}

#[test]
fn auto_recovery_at_window_boundary() {
    // Halted at height 50: height 150 = 50 + 100 is still rejected, and
    // height 151 = 50 + 101 recovers.
    let mut p = Pallet::new(test_config());
    p.sudo_halt_production(50, Some(b"halt".to_vec())).unwrap();
    assert!(p.on_initialize(150, None, &no_digests(), &Vec::new()).is_err());
    assert_eq!(p.on_initialize(151, None, &no_digests(), &Vec::new()), Ok(()));
    assert!(!p.is_halted());
    assert_eq!(p.halted_at_block, None);
    assert_eq!(p.halt_reason, None);
}

#[test]
fn halt_request_is_consumed_and_block_rejected() {
    // The node turns a pending handoff flag into the unsigned request-halt
    // operation; once included, the operation halts the guard at this
    // block, which is then rejected.
    let mut p = Pallet::new(test_config());
    let mut h = Handoff::new();
    h.halt_requested = true;
    let request = take_halt_request(&mut h, &p);
    assert!(request.is_some());
    // The flag was taken into the operation.
    assert!(!h.halt_requested);
    let r = p.on_initialize(30, request, &no_digests(), &Vec::new());
    assert_eq!(r, Err(ConsensusError::ProductionHalted { halted_at: 30 }));
    assert!(p.is_halted());
    assert_eq!(p.halted_at_block, Some(30));
    assert_eq!(p.halt_reason, Some(b"License check failed by offchain worker".to_vec()));
}

#[test]
fn halt_request_not_consumed_while_already_halted() {
    let mut p = Pallet::new(test_config());
    let mut h = Handoff::new();
    p.sudo_halt_production(10, Some(b"manual".to_vec())).unwrap();
    h.halt_requested = true;
    // The submission step does not take the flag while halted.
    assert!(take_halt_request(&mut h, &p).is_none());
    assert!(h.halt_requested);
    // And an included request is ignored while halted: the manual reason
    // and height are untouched.
    let request = Some(HaltRequest { reason: Some(b"ignored".to_vec()) });
    let r = p.on_initialize(11, request, &no_digests(), &Vec::new());
    assert_eq!(r, Err(ConsensusError::ProductionHalted { halted_at: 10 }));
    assert_eq!(p.halt_reason, Some(b"manual".to_vec()));
}

#[test]
fn halted_without_height_is_a_hard_stop() {
    let mut p = Pallet::new(test_config());
    p.halt_production = true;
    let r = p.on_initialize(77, None, &no_digests(), &Vec::new());
    assert_eq!(r, Err(ConsensusError::HaltMissingStartHeight));
    // The height is recorded so the next evaluation has a window to count
    // from.
    assert_eq!(p.halted_at_block, Some(77));
}

#[test]
fn slot_is_adopted_from_digests() {
    let mut p = Pallet::new(test_config());
    let digests = vec![slot_digest(9)];
    assert_eq!(p.on_initialize(1, None, &digests, &Vec::new()), Ok(()));
    assert_eq!(p.current_slot, 9);
}

#[test]
fn slot_must_increase() {
    let mut p = Pallet::new(test_config());
    p.current_slot = 9;
    assert_eq!(
        p.on_initialize(2, None, &vec![slot_digest(9)], &Vec::new()),
        Err(ConsensusError::SlotMustIncrease)
    );
    assert_eq!(p.current_slot, 9);
}

#[test]
fn equal_slot_allowed_when_multiple_blocks_per_slot() {
    let mut config = test_config();
    config.allow_multiple_blocks_per_slot = true;
    let mut p = Pallet::new(config);
    p.current_slot = 9;
    assert_eq!(p.on_initialize(2, None, &vec![slot_digest(9)], &Vec::new()), Ok(()));
    assert_eq!(
        p.on_initialize(3, None, &vec![slot_digest(8)], &Vec::new()),
        Err(ConsensusError::SlotMustNotDecrease)
    );
}

#[test]
fn disabled_author_rejects_block() {
    let mut p = Pallet::new(test_config());
    p.authorities = vec![100, 200, 300];
    // Slot 7 selects authority index 7 % 3 == 1.
    let r = p.on_initialize(1, None, &vec![slot_digest(7)], &vec![1]);
    assert_eq!(r, Err(ConsensusError::AuthorityDisabled { authority_index: 1 }));
    // Another disabled index does not hit.
    let mut p2 = Pallet::new(test_config());
    p2.authorities = vec![100, 200, 300];
    assert_eq!(p2.on_initialize(1, None, &vec![slot_digest(7)], &vec![0, 2]), Ok(()));
}

#[test]
fn short_digest_payload_is_ignored() {
    let mut p = Pallet::new(test_config());
    let digests = vec![PreRuntimeDigest { engine_id: AURA_ENGINE_ID, payload: vec![1, 2, 3] }];
    assert_eq!(p.on_initialize(1, None, &digests, &Vec::new()), Ok(()));
    assert_eq!(p.current_slot, 0);
}

#[test]
fn foreign_digest_entries_are_skipped() {
    let mut p = Pallet::new(test_config());
    let digests = vec![
        PreRuntimeDigest { engine_id: 0x1111_2222, payload: 99u64.to_le_bytes().to_vec() },
        slot_digest(5),
    ];
    assert_eq!(p.on_initialize(1, None, &digests, &Vec::new()), Ok(()));
    assert_eq!(p.current_slot, 5);
}

#[test]
fn included_request_halts_with_its_reason() {
    let mut p = Pallet::new(test_config());
    let request = Some(HaltRequest { reason: Some(b"license invalid".to_vec()) });
    let r = p.on_initialize(12, request, &no_digests(), &Vec::new());
    assert_eq!(r, Err(ConsensusError::ProductionHalted { halted_at: 12 }));
    assert_eq!(p.halt_reason, Some(b"license invalid".to_vec()));
}
