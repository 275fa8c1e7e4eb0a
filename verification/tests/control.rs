use licensed_aura::pallet::{Config, GenesisConfig, Pallet};
use licensed_aura::{Error, Event};

fn test_config() -> Config {
    Config { max_authorities: 32, allow_multiple_blocks_per_slot: false, slot_duration: 6000 }
}

#[test]
fn halt_records_reason_and_height() {
    let mut p = Pallet::new(test_config());
    let reason = b"maintenance window".to_vec();
    let ev = p.sudo_halt_production(42, Some(reason.clone())).unwrap();
    assert_eq!(ev, Event::ProductionHalted { block_number: 42 });
    assert!(p.is_halted());
    assert_eq!(p.halted_at_block, Some(42));
    assert_eq!(p.halt_reason, Some(reason));
}

#[test]
fn halt_accepts_reason_at_exact_bound() {
    let mut p = Pallet::new(test_config());
    let reason = vec![b'x'; 256];
    assert!(p.sudo_halt_production(7, Some(reason.clone())).is_ok());
    assert_eq!(p.halt_reason, Some(reason));
}

#[test]
fn halt_rejects_oversized_reason_without_state_change() {
    let mut p = Pallet::new(test_config());
    let reason = vec![b'x'; 257];
    assert_eq!(p.sudo_halt_production(7, Some(reason)), Err(Error::ReasonTooLong));
    assert!(!p.is_halted());
    assert_eq!(p.halted_at_block, None);
    assert_eq!(p.halt_reason, None);
}

#[test]
fn halt_rejects_non_utf8_reason_without_state_change() {
    let mut p = Pallet::new(test_config());
    assert_eq!(p.sudo_halt_production(7, Some(vec![0xff])), Err(Error::ReasonNotUtf8));
    assert!(!p.is_halted());
    assert_eq!(p.halted_at_block, None);
    assert_eq!(p.halt_reason, None);
    // The length bound is checked first: an oversized non-UTF-8 reason
    // reports the length.
    assert_eq!(p.sudo_halt_production(7, Some(vec![0xff; 257])), Err(Error::ReasonTooLong));
    assert!(!p.is_halted());
}

#[test]
fn halt_accepts_multibyte_utf8_reason() {
    let mut p = Pallet::new(test_config());
    let reason = "licence expir\u{e9}e".as_bytes().to_vec();
    assert!(p.sudo_halt_production(3, Some(reason.clone())).is_ok());
    assert_eq!(p.halt_reason, Some(reason));
}

#[test]
fn halt_without_reason() {
    let mut p = Pallet::new(test_config());
    assert!(p.sudo_halt_production(9, None).is_ok());
    assert!(p.is_halted());
    assert_eq!(p.halted_at_block, Some(9));
    assert_eq!(p.halt_reason, None);
}

#[test]
fn halt_then_resume_clears_everything() {
    let mut p = Pallet::new(test_config());
    p.set_license_key(b"key-1".to_vec()).unwrap();
    p.sudo_halt_production(10, Some(b"why".to_vec())).unwrap();
    let ev = p.sudo_resume_production(11);
    assert_eq!(ev, Event::ProductionResumed { block_number: 11 });
    assert!(!p.is_halted());
    assert_eq!(p.halted_at_block, None);
    assert_eq!(p.halt_reason, None);
    assert_eq!(p.license_key, Some(b"key-1".to_vec()));
}

#[test]
fn offchain_worker_halt_behaves_like_privileged_halt() {
    let mut p = Pallet::new(test_config());
    let ev = p.offchain_worker_halt_production(5, Some(b"invalid license".to_vec())).unwrap();
    assert_eq!(ev, Event::ProductionHalted { block_number: 5 });
    assert!(p.is_halted());
    assert_eq!(p.halted_at_block, Some(5));
}

#[test]
fn set_license_key_stores_key() {
    let mut p = Pallet::new(test_config());
    assert_eq!(p.set_license_key(vec![b'k'; 128]), Ok(()));
    assert_eq!(p.license_key, Some(vec![b'k'; 128]));
}

#[test]
fn set_license_key_rejects_oversized_key_and_keeps_prior() {
    let mut p = Pallet::new(test_config());
    assert_eq!(p.set_license_key(vec![b'a'; 129]), Err(Error::LicenseKeyTooLong));
    assert_eq!(p.license_key, None);

    p.set_license_key(b"old-key".to_vec()).unwrap();
    assert_eq!(p.set_license_key(vec![b'b'; 129]), Err(Error::LicenseKeyTooLong));
    assert_eq!(p.license_key, Some(b"old-key".to_vec()));
}

#[test]
fn genesis_build_installs_authorities_and_key() {
    let genesis = GenesisConfig {
        authorities: vec![11, 22, 33],
        license_key: Some(b"genesis-key".to_vec()),
    };
    let p = genesis.build(test_config());
    assert_eq!(p.authorities, vec![11, 22, 33]);
    assert_eq!(p.license_key, Some(b"genesis-key".to_vec()));
    assert!(!p.is_halted());
    assert_eq!(p.current_slot, 0);
}

#[test]
fn genesis_build_without_key() {
    let genesis = GenesisConfig { authorities: vec![], license_key: None };
    let p = genesis.build(test_config());
    assert_eq!(p.authorities_len(), 0);
    assert_eq!(p.license_key, None);
}
