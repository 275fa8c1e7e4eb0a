//! The call filter: which operations are admitted while production is
//! halted.
//!
//! While the guard runs, every operation is admitted. While it is halted,
//! only the operations that can end the halt are admitted — resume, the
//! probe's halt request, and a privileged wrapper around one of those —
//! plus the mandatory clock operation, which is admitted in every state so
//! the chain's time source keeps advancing.
//!
//! The runtime's call type is opaque to this crate, so the filter asks it
//! questions through the three traits below; a runtime implements them for
//! its own call enum. [`RuntimeCall`] is this crate's own such enum,
//! carrying exactly what the filter reads.

use vstd::prelude::*;
use crate::pallet::{Call, Pallet};

verus! {

/// Recognizes the guard's own operations inside a runtime call.
pub trait IsLicensedAuraCall {
    /// Whether this call is the privileged resume operation.
    spec fn spec_is_sudo_resume_production(&self) -> bool;

    /// Returns [`Self::spec_is_sudo_resume_production`].
    fn is_sudo_resume_production(&self) -> (r: bool)
        ensures
            r == self.spec_is_sudo_resume_production(),
    ;

    /// Whether this call is the probe's unsigned halt request.
    spec fn spec_is_offchain_worker_halt(&self) -> bool;

    /// Returns [`Self::spec_is_offchain_worker_halt`].
    fn is_offchain_worker_halt(&self) -> (r: bool)
        ensures
            r == self.spec_is_offchain_worker_halt(),
    ;

    /// Whether this call is an unsigned resume request, for runtimes that
    /// offer one.
    spec fn spec_is_offchain_worker_resume(&self) -> bool;

    /// Returns [`Self::spec_is_offchain_worker_resume`].
    fn is_offchain_worker_resume(&self) -> (r: bool)
        ensures
            r == self.spec_is_offchain_worker_resume(),
    ;
}

/// Recognizes the mandatory clock operation inside a runtime call.
pub trait IsTimestampCall {
    /// Whether this call sets the block's timestamp.
    spec fn spec_is_timestamp_set(&self) -> bool;

    /// Returns [`Self::spec_is_timestamp_set`].
    fn is_timestamp_set(&self) -> (r: bool)
        ensures
            r == self.spec_is_timestamp_set(),
    ;
}

/// Recognizes a privileged wrapper around an admissible call.
pub trait IsSudoCall<RuntimeCall> {
    /// Whether this call is a privileged wrapper whose single wrapped call
    /// is one of the operations admitted while halted.
    spec fn spec_is_sudo_wrapping_allowed(&self) -> bool;

    /// Returns [`Self::spec_is_sudo_wrapping_allowed`].
    fn is_sudo_wrapping_allowed(&self) -> (r: bool)
        ensures
            r == self.spec_is_sudo_wrapping_allowed(),
    ;
}

/// The admission rule while halted: resume, the probe's halt request, an
/// unsigned resume, or a privileged wrapper around one of those.
pub open spec fn spec_allowed_while_halted<C: IsLicensedAuraCall + IsSudoCall<C>>(
    call: &C,
) -> bool {
    ||| call.spec_is_sudo_resume_production()
    ||| call.spec_is_offchain_worker_halt()
    ||| call.spec_is_offchain_worker_resume()
    ||| call.spec_is_sudo_wrapping_allowed()
}

/// Filter that enforces "empty blocks while halted": when the guard is
/// halted, every operation is rejected except the whitelist of
/// [`AuraHaltFilter::allowed_while_halted`] and the mandatory clock
/// operation.
pub struct AuraHaltFilter;

impl AuraHaltFilter {
    /// What is admitted *while halted*; the exact rule is
    /// [`spec_allowed_while_halted`].
    pub fn allowed_while_halted<C: IsLicensedAuraCall + IsSudoCall<C>>(call: &C) -> (r: bool)
        ensures
            r == spec_allowed_while_halted(call),
    {
        call.is_sudo_resume_production() || call.is_offchain_worker_halt()
            || call.is_offchain_worker_resume() || call.is_sudo_wrapping_allowed()
    }

    /// The full admission rule: the clock operation always, everything
    /// while running, only the whitelist while halted.
    pub open spec fn spec_contains<C: IsLicensedAuraCall + IsTimestampCall + IsSudoCall<C>>(
        halted: bool,
        call: &C,
    ) -> bool {
        ||| call.spec_is_timestamp_set()
        ||| !halted
        ||| spec_allowed_while_halted(call)
    }

    /// Decides whether `call` may be included and executed, consulting the
    /// guard's current halt state.
    pub fn contains<C: IsLicensedAuraCall + IsTimestampCall + IsSudoCall<C>>(
        pallet: &Pallet,
        call: &C,
    ) -> (r: bool)
        ensures
            r == Self::spec_contains(pallet.halt_production, call),
            call.spec_is_timestamp_set() ==> r,
            !pallet.halt_production ==> r,
            (pallet.halt_production && !call.spec_is_timestamp_set()) ==> r
                == spec_allowed_while_halted(call),
    {
        // The mandatory clock operation keeps block production working
        // even while halted.
        if call.is_timestamp_set() {
            return true;
        }
        if pallet.is_halted() {
            Self::allowed_while_halted(call)
        } else {
            true
        }
    }
}

/// A runtime call enum carrying exactly what the filter reads: the guard's
/// own operations, the clock operation, a privileged wrapper, and an
/// ordinary value transfer standing for everything else.
#[derive(Debug)]
pub enum RuntimeCall {
    /// One of the guard's operations.
    LicensedAura(Call),
    /// The mandatory clock operation.
    TimestampSet,
    /// A privileged wrapper around one inner call.
    Sudo(Box<RuntimeCall>),
    /// An ordinary operation with no special standing, such as a token
    /// transfer.
    Transfer { to: u64, amount: u64 },
}

impl IsLicensedAuraCall for RuntimeCall {
    open spec fn spec_is_sudo_resume_production(&self) -> bool {
        self matches RuntimeCall::LicensedAura(Call::SudoResumeProduction)
    }

    fn is_sudo_resume_production(&self) -> (r: bool) {
        matches!(self, RuntimeCall::LicensedAura(Call::SudoResumeProduction))
    }

    open spec fn spec_is_offchain_worker_halt(&self) -> bool {
        self matches RuntimeCall::LicensedAura(Call::OffchainWorkerHaltProduction { .. })
    }

    fn is_offchain_worker_halt(&self) -> (r: bool) {
        matches!(self, RuntimeCall::LicensedAura(Call::OffchainWorkerHaltProduction { .. }))
    }

    open spec fn spec_is_offchain_worker_resume(&self) -> bool {
        false
    }

    fn is_offchain_worker_resume(&self) -> (r: bool) {
        // The guard has no unsigned resume operation.
        false
    }
}

impl IsTimestampCall for RuntimeCall {
    open spec fn spec_is_timestamp_set(&self) -> bool {
        self matches RuntimeCall::TimestampSet
    }

    fn is_timestamp_set(&self) -> (r: bool) {
        matches!(self, RuntimeCall::TimestampSet)
    }
}

impl IsSudoCall<RuntimeCall> for RuntimeCall {
    open spec fn spec_is_sudo_wrapping_allowed(&self) -> bool {
        match self {
            RuntimeCall::Sudo(inner) => {
                ||| inner.spec_is_sudo_resume_production()
                ||| inner.spec_is_offchain_worker_halt()
                ||| inner.spec_is_offchain_worker_resume()
            },
            _ => false,
        }
    }

    fn is_sudo_wrapping_allowed(&self) -> (r: bool) {
        match self {
            RuntimeCall::Sudo(inner) => {
                inner.is_sudo_resume_production() || inner.is_offchain_worker_halt()
                    || inner.is_offchain_worker_resume()
            },
            _ => false,
        }
    }
}

} // verus!
