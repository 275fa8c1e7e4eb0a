use licensed_aura::filter::{AuraHaltFilter, RuntimeCall};
use licensed_aura::pallet::{Call, Config, InvalidTransaction, Pallet};

fn test_config() -> Config {
    Config { max_authorities: 32, allow_multiple_blocks_per_slot: false, slot_duration: 6000 }
}

fn transfer() -> RuntimeCall {
    RuntimeCall::Transfer { to: 7, amount: 1000 }
}

fn resume() -> RuntimeCall {
    RuntimeCall::LicensedAura(Call::SudoResumeProduction)
}

fn offchain_halt() -> RuntimeCall {
    RuntimeCall::LicensedAura(Call::OffchainWorkerHaltProduction { reason: None })
}

#[test]
fn running_guard_admits_everything() {
    let p = Pallet::new(test_config());
    assert!(AuraHaltFilter::contains(&p, &transfer()));
    assert!(AuraHaltFilter::contains(&p, &resume()));
    assert!(AuraHaltFilter::contains(&p, &RuntimeCall::TimestampSet));
    assert!(AuraHaltFilter::contains(&p, &RuntimeCall::Sudo(Box::new(transfer()))));
}

#[test]
fn halted_guard_rejects_ordinary_operations() {
    let mut p = Pallet::new(test_config());
    p.sudo_halt_production(1, None).unwrap();
    assert!(!AuraHaltFilter::contains(&p, &transfer()));
    assert!(!AuraHaltFilter::contains(
        &p,
        &RuntimeCall::LicensedAura(Call::SetLicenseKey { license_key: vec![1] })
    ));
    assert!(!AuraHaltFilter::contains(
        &p,
        &RuntimeCall::LicensedAura(Call::SudoHaltProduction { reason: None })
    ));
}

#[test]
fn halted_guard_admits_resume_and_halt_request() {
    let mut p = Pallet::new(test_config());
    p.sudo_halt_production(1, None).unwrap();
    assert!(AuraHaltFilter::contains(&p, &resume()));
    assert!(AuraHaltFilter::contains(&p, &offchain_halt()));
}

#[test]
fn clock_operation_is_always_admitted() {
    let mut p = Pallet::new(test_config());
    assert!(AuraHaltFilter::contains(&p, &RuntimeCall::TimestampSet));
    p.sudo_halt_production(1, None).unwrap();
    assert!(AuraHaltFilter::contains(&p, &RuntimeCall::TimestampSet));
}

#[test]
fn sudo_wrapped_whitelist_is_admitted_one_level_deep() {
    let mut p = Pallet::new(test_config());
    p.sudo_halt_production(1, None).unwrap();
    assert!(AuraHaltFilter::contains(&p, &RuntimeCall::Sudo(Box::new(resume()))));
    assert!(AuraHaltFilter::contains(&p, &RuntimeCall::Sudo(Box::new(offchain_halt()))));
    // A wrapper around an ordinary operation stays rejected.
    assert!(!AuraHaltFilter::contains(&p, &RuntimeCall::Sudo(Box::new(transfer()))));
    // Only one level of wrapping is inspected.
    assert!(!AuraHaltFilter::contains(
        &p,
        &RuntimeCall::Sudo(Box::new(RuntimeCall::Sudo(Box::new(resume()))))
    ));
}

#[test]
fn allowed_while_halted_whitelist() {
    assert!(AuraHaltFilter::allowed_while_halted(&resume()));
    assert!(AuraHaltFilter::allowed_while_halted(&offchain_halt()));
    assert!(AuraHaltFilter::allowed_while_halted(&RuntimeCall::Sudo(Box::new(resume()))));
    assert!(!AuraHaltFilter::allowed_while_halted(&transfer()));
    assert!(!AuraHaltFilter::allowed_while_halted(&RuntimeCall::TimestampSet));
}

#[test]
fn validate_unsigned_admits_only_the_probe_halt() {
    let valid = Pallet::validate_unsigned(&Call::OffchainWorkerHaltProduction {
        reason: Some(b"invalid".to_vec()),
    })
    .unwrap();
    assert_eq!(valid.priority, u64::MAX);
    assert_eq!(valid.longevity, 1);
    assert!(valid.propagate);
    // The pool's deduplication key: at most one provider of this tag is
    // included per block.
    assert_eq!(valid.tag_prefix, "AuraHalt");
    assert_eq!(valid.provides, "halt_production");
    assert!(matches!(
        Pallet::validate_unsigned(&Call::SudoResumeProduction),
        Err(InvalidTransaction::Call)
    ));
    assert!(matches!(
        Pallet::validate_unsigned(&Call::SudoHaltProduction { reason: None }),
        Err(InvalidTransaction::Call)
    ));
    assert!(matches!(
        Pallet::validate_unsigned(&Call::SetLicenseKey { license_key: vec![1, 2] }),
        Err(InvalidTransaction::Call)
    ));
}
