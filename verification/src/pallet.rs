//! The deterministic core of the guard: the consensus-visible state, the
//! privileged control surface, and the block-initialization state machine.
//!
//! All state lives in an explicit [`Pallet`] value that the surrounding
//! runtime owns and hands into every deterministic transition, so that the
//! transitions themselves are pure functions of their arguments and every
//! validator computes the same outcome.

use vstd::prelude::*;
use vstd::string::StrSliceExecFns;
use vstd::utf8::valid_utf8;
use crate::{bytes_as_str, copy_bytes, copy_u64s, opt_bytes, Error, Event, Handoff, AUTO_RECOVERY_WINDOW, MAX_LICENSE_KEY_LEN, MAX_REASON_LEN};
use crate::digests::{current_slot_from_digests, spec_current_slot_from_digests, PreRuntimeDigest};

verus! {

/// Fixed configuration of the guard, chosen when the chain is built and
/// never changed while it runs.
#[derive(Clone, Copy, Debug, PartialEq, Eq, Structural)]
pub struct Config {
    /// The most authorities the guard will hold.
    pub max_authorities: u32,
    /// Whether sequential blocks may claim the same slot. When false, every
    /// block must claim a strictly larger slot than its parent.
    pub allow_multiple_blocks_per_slot: bool,
    /// The slot duration in milliseconds.
    pub slot_duration: u64,
}

/// Consensus-visible state of the guard. Every validator holds an identical
/// copy, and only the deterministic transitions in this module mutate it.
#[derive(Debug)]
pub struct Pallet {
    /// Fixed configuration.
    pub config: Config,
    /// The current authority set.
    pub authorities: Vec<u64>,
    /// The slot claimed by the block being built, updated at block
    /// initialization.
    pub current_slot: u64,
    /// Whether block production is halted.
    pub halt_production: bool,
    /// Height at which the halt was recorded, used by auto-recovery.
    pub halted_at_block: Option<u64>,
    /// Reason recorded for the halt, at most [`MAX_REASON_LEN`] bytes.
    pub halt_reason: Option<Vec<u8>>,
    /// License key probed against the validation endpoint, at most
    /// [`MAX_LICENSE_KEY_LEN`] bytes. Absent means the probe cannot run.
    pub license_key: Option<Vec<u8>>,
}

impl Pallet {
    /// Well-formedness: bounds on the stored byte strings and the authority
    /// set, the halt reason valid UTF-8 text, and no stale halt record
    /// while running.
    pub open spec fn wf(self) -> bool {
        &&& self.authorities@.len() <= self.config.max_authorities
        &&& (self.halt_reason matches Some(r) ==> r@.len() <= MAX_REASON_LEN && valid_utf8(r@))
        &&& (self.license_key matches Some(k) ==> k@.len() <= MAX_LICENSE_KEY_LEN)
        &&& (!self.halt_production ==> self.halted_at_block is None && self.halt_reason is None)
    }

    /// A reason is acceptable when absent, or when it is valid UTF-8 text
    /// of at most [`MAX_REASON_LEN`] bytes: the reason is bounded text, and
    /// construction fails on anything else.
    pub open spec fn reason_ok(reason: Option<Seq<u8>>) -> bool {
        reason matches Some(r) ==> r.len() <= MAX_REASON_LEN && valid_utf8(r)
    }

    /// The error surfaced for an unacceptable reason: the length bound is
    /// checked first, then UTF-8 validity.
    pub open spec fn reason_error(reason: Option<Seq<u8>>) -> Error
        recommends
            !Self::reason_ok(reason),
    {
        match reason {
            Some(r) => if r.len() > MAX_REASON_LEN {
                Error::ReasonTooLong
            } else {
                Error::ReasonNotUtf8
            },
            None => Error::ReasonTooLong,
        }
    }

    /// The halt flag, halt height and halt reason agree in `a` and `b`.
    pub open spec fn same_halt_fields(a: Pallet, b: Pallet) -> bool {
        &&& a.halt_production == b.halt_production
        &&& a.halted_at_block == b.halted_at_block
        &&& opt_bytes(a.halt_reason) == opt_bytes(b.halt_reason)
    }

    /// Configuration, authority set and current slot agree in `a` and `b`.
    pub open spec fn same_slot_fields(a: Pallet, b: Pallet) -> bool {
        &&& a.config == b.config
        &&& a.authorities@ == b.authorities@
        &&& a.current_slot == b.current_slot
    }

    /// The stored license key agrees in `a` and `b`.
    pub open spec fn same_license_key(a: Pallet, b: Pallet) -> bool {
        opt_bytes(a.license_key) == opt_bytes(b.license_key)
    }

    /// What a successful halt does: records the halt at `block` with the
    /// given reason and touches nothing else.
    pub open spec fn halt_post(pre: Pallet, post: Pallet, block: u64, reason: Option<Seq<u8>>) -> bool {
        &&& post.halt_production == true
        &&& post.halted_at_block == Some(block)
        &&& opt_bytes(post.halt_reason) == reason
        &&& Self::same_slot_fields(pre, post)
        &&& Self::same_license_key(pre, post)
    }

    /// What a resume does: clears the halt record entirely and touches
    /// nothing else.
    pub open spec fn resume_post(pre: Pallet, post: Pallet) -> bool {
        &&& post.halt_production == false
        &&& post.halted_at_block is None
        &&& post.halt_reason is None
        &&& Self::same_slot_fields(pre, post)
        &&& Self::same_license_key(pre, post)
    }

    /// A fresh guard: running, no authorities, no license key, slot zero.
    pub fn new(config: Config) -> (r: Pallet)
        ensures
            r.wf(),
            r.config == config,
            r.authorities@ == Seq::<u64>::empty(),
            r.current_slot == 0,
            r.halt_production == false,
            r.halted_at_block is None,
            r.halt_reason is None,
            r.license_key is None,
    {
        Pallet {
            config,
            authorities: Vec::new(),
            current_slot: 0,
            halt_production: false,
            halted_at_block: None,
            halt_reason: None,
            license_key: None,
        }
    }

    /// Whether block production is halted.
    pub fn is_halted(&self) -> (r: bool)
        ensures
            r == self.halt_production,
    {
        self.halt_production
    }

    /// Number of authorities currently held.
    pub fn authorities_len(&self) -> (r: usize)
        ensures
            r == self.authorities@.len(),
    {
        self.authorities.len()
    }

    /// The slot duration the chain runs with, in milliseconds.
    pub fn slot_duration(&self) -> (r: u64)
        ensures
            r == self.config.slot_duration,
    {
        self.config.slot_duration
    }

    /// Whether the given authority belongs to the current authority set.
    pub fn is_member(&self, authority_id: u64) -> (r: bool)
        ensures
            r == self.authorities@.contains(authority_id),
    {
        let mut i: usize = 0;
        while i < self.authorities.len()
            invariant
                0 <= i <= self.authorities@.len(),
                forall|j: int| 0 <= j < i ==> self.authorities@[j] != authority_id,
            decreases self.authorities@.len() - i,
        {
            if self.authorities[i] == authority_id {
                return true;
            }
            i = i + 1;
        }
        false
    }

    /// Shared body of the halt operations: validates that the reason is
    /// bounded UTF-8 text, then records the halt at `current_block`.
    fn halt_production_internal(&mut self, current_block: u64, reason: Option<Vec<u8>>) -> (r: Result<(), Error>)
        ensures
            Self::reason_ok(opt_bytes(reason)) ==> {
                &&& r == Ok::<(), Error>(())
                &&& Self::halt_post(*old(self), *final(self), current_block, opt_bytes(reason))
            },
            !Self::reason_ok(opt_bytes(reason)) ==> {
                &&& r == Err::<(), Error>(Self::reason_error(opt_bytes(reason)))
                &&& *final(self) == *old(self)
            },
    {
        if let Some(ref r) = reason {
            if r.len() > MAX_REASON_LEN {
                return Err(Error::ReasonTooLong);
            }
            if bytes_as_str(r).is_none() {
                return Err(Error::ReasonNotUtf8);
            }
        }
        self.halt_production = true;
        self.halted_at_block = Some(current_block);
        self.halt_reason = reason;
        Ok(())
    }

    /// Privileged halt: forces the guard into the halted state
    /// unconditionally, recording `current_block` and the given reason, and
    /// emits the halt event. A reason longer than [`MAX_REASON_LEN`] bytes
    /// or not valid UTF-8 text is rejected without any state change.
    ///
    /// The caller is responsible for having authorized the operation; the
    /// origin check belongs to the surrounding dispatch logic.
    pub fn sudo_halt_production(&mut self, current_block: u64, reason: Option<Vec<u8>>) -> (r: Result<Event, Error>)
        requires
            old(self).wf(),
        ensures
            final(self).wf(),
            Self::reason_ok(opt_bytes(reason)) ==> {
                &&& r == Ok::<Event, Error>(Event::ProductionHalted { block_number: current_block })
                &&& Self::halt_post(*old(self), *final(self), current_block, opt_bytes(reason))
            },
            !Self::reason_ok(opt_bytes(reason)) ==> {
                &&& r == Err::<Event, Error>(Self::reason_error(opt_bytes(reason)))
                &&& *final(self) == *old(self)
            },
    {
        self.halt_production_internal(current_block, reason)?;
        Ok(Event::ProductionHalted { block_number: current_block })
    }

    /// Unprivileged halt, submitted by the node's own background probe as
    /// an unsigned operation. Identical to the privileged halt once it is
    /// included in a block; admission is governed by
    /// [`Pallet::validate_unsigned`].
    pub fn offchain_worker_halt_production(&mut self, current_block: u64, reason: Option<Vec<u8>>) -> (r: Result<Event, Error>)
        requires
            old(self).wf(),
        ensures
            final(self).wf(),
            Self::reason_ok(opt_bytes(reason)) ==> {
                &&& r == Ok::<Event, Error>(Event::ProductionHalted { block_number: current_block })
                &&& Self::halt_post(*old(self), *final(self), current_block, opt_bytes(reason))
            },
            !Self::reason_ok(opt_bytes(reason)) ==> {
                &&& r == Err::<Event, Error>(Self::reason_error(opt_bytes(reason)))
                &&& *final(self) == *old(self)
            },
    {
        self.halt_production_internal(current_block, reason)?;
        Ok(Event::ProductionHalted { block_number: current_block })
    }

    /// Privileged resume: forces the guard back to running, clears the halt
    /// height and reason, and emits the resume event.
    pub fn sudo_resume_production(&mut self, current_block: u64) -> (r: Event)
        requires
            old(self).wf(),
        ensures
            final(self).wf(),
            Self::resume_post(*old(self), *final(self)),
            r == (Event::ProductionResumed { block_number: current_block }),
    {
        self.halt_production = false;
        self.halted_at_block = None;
        self.halt_reason = None;
        Event::ProductionResumed { block_number: current_block }
    }

    /// Privileged replacement of the stored license key. Rejects a key
    /// longer than [`MAX_LICENSE_KEY_LEN`] bytes, leaving the prior key, or
    /// its absence, unchanged.
    pub fn set_license_key(&mut self, license_key: Vec<u8>) -> (r: Result<(), Error>)
        requires
            old(self).wf(),
        ensures
            final(self).wf(),
            license_key@.len() <= MAX_LICENSE_KEY_LEN ==> {
                &&& r == Ok::<(), Error>(())
                &&& opt_bytes(final(self).license_key) == Some(license_key@)
                &&& Self::same_halt_fields(*old(self), *final(self))
                &&& Self::same_slot_fields(*old(self), *final(self))
            },
            license_key@.len() > MAX_LICENSE_KEY_LEN ==> {
                &&& r == Err::<(), Error>(Error::LicenseKeyTooLong)
                &&& *final(self) == *old(self)
            },
    {
        if license_key.len() > MAX_LICENSE_KEY_LEN {
            return Err(Error::LicenseKeyTooLong);
        }
        self.license_key = Some(license_key);
        Ok(())
    }
}

/// Consensus-invariant violations: deterministic reasons to refuse to
/// initialize or finalize a block. Every honest validator computes the same
/// one, so refusing the block cannot fork the chain.
#[derive(Clone, Copy, Debug, PartialEq, Eq, Structural)]
pub enum ConsensusError {
    /// Production is halted and the auto-recovery window has not yet
    /// passed: the block is rejected.
    ProductionHalted { halted_at: u64 },
    /// Production is halted but no halt height was recorded: an internal
    /// inconsistency, surfaced as a hard stop rather than masked.
    HaltMissingStartHeight,
    /// A block claimed a smaller slot than its parent.
    SlotMustNotDecrease,
    /// A block failed to claim a strictly larger slot than its parent.
    SlotMustIncrease,
    /// The authority selected by the claimed slot is disabled and must not
    /// author blocks.
    AuthorityDisabled { authority_index: u64 },
    /// The current slot reached the largest representable value and can no
    /// longer increase.
    CurrentSlotAtMax,
    /// The authority set is empty.
    EmptyAuthorities,
    /// The configured slot duration is zero.
    ZeroSlotDuration,
    /// The slot derived from the block's timestamp disagrees with the slot
    /// claimed in its digests.
    TimestampSlotMismatch,
}

/// The reason recorded when block initialization consumes a halt request
/// left by the background license probe.
pub open spec fn offchain_halt_reason() -> Seq<u8> {
    vstd::utf8::encode_utf8("License check failed by offchain worker"@)
}

proof fn lemma_encode_utf8_len_le(chars: Seq<char>)
    ensures
        vstd::utf8::encode_utf8(chars).len() <= 4 * chars.len(),
    decreases chars.len(),
{
    if chars.len() != 0 {
        lemma_encode_utf8_len_le(chars.drop_first());
        assert(vstd::utf8::encode_scalar(chars[0] as u32).len() <= 4);
    }
}

/// Builds the probe-requested halt reason as bytes.
pub fn offchain_halt_reason_bytes() -> (r: Vec<u8>)
    ensures
        r@ == offchain_halt_reason(),
        r@.len() <= MAX_REASON_LEN,
        valid_utf8(r@),
{
    let s = "License check failed by offchain worker";
    let v = s.as_bytes_vec();
    proof {
        reveal_strlit("License check failed by offchain worker");
        lemma_encode_utf8_len_le(s@);
        vstd::utf8::encode_utf8_valid_utf8(s@);
    }
    v
}

/// `a - b`, stopping at zero.
pub open spec fn spec_saturating_sub(a: u64, b: u64) -> u64 {
    if a >= b {
        (a - b) as u64
    } else {
        0
    }
}

fn contains_u32(values: &Vec<u32>, x: u32) -> (r: bool)
    ensures
        r == values@.contains(x),
{
    let mut i: usize = 0;
    while i < values.len()
        invariant
            0 <= i <= values@.len(),
            forall|j: int| 0 <= j < i ==> values@[j] != x,
        decreases values@.len() - i,
    {
        if values[i] == x {
            return true;
        }
        i = i + 1;
    }
    false
}

/// A request-halt operation included in the block being initialized: the
/// consensus-visible form of the probe's halt request. Only an operation
/// included in a block may move the halt state; the node-local handoff
/// flag never reaches the deterministic transition itself, it only feeds
/// the node's own submission step, [`take_halt_request`].
#[derive(Debug)]
pub struct HaltRequest {
    /// The reason the request carries, bounded UTF-8 text.
    pub reason: Option<Vec<u8>>,
}

/// The reason carried by an included request-halt operation, if any.
pub open spec fn request_reason(halt_request: Option<HaltRequest>) -> Option<Seq<u8>> {
    match halt_request {
        Some(hr) => opt_bytes(hr.reason),
        None => None,
    }
}

/// The node-local submission step, run by each node's driver while it
/// assembles a block: a pending handoff flag becomes an unsigned
/// request-halt operation carrying the probe's fixed reason, and is
/// cleared once taken. The flag is taken only while production runs —
/// while halted it stays set, so a request can still be submitted after a
/// resume if the license is still invalid. Losing a submitted request to
/// a race costs at most one block's delay: the flag is set again by the
/// next probe cycle, and consensus state moves only when the operation is
/// included in a block.
pub fn take_halt_request(handoff: &mut Handoff, pallet: &Pallet) -> (r: Option<HaltRequest>)
    ensures
        (old(handoff).halt_requested && !pallet.halt_production) ==> {
            &&& final(handoff).halt_requested == false
            &&& (r matches Some(hr) && opt_bytes(hr.reason) == Some(offchain_halt_reason()))
        },
        !(old(handoff).halt_requested && !pallet.halt_production) ==> {
            &&& *final(handoff) == *old(handoff)
            &&& r is None
        },
        final(handoff).last_check_timestamp == old(handoff).last_check_timestamp,
        (r matches Some(hr) ==> Pallet::reason_ok(opt_bytes(hr.reason))),
{
    if handoff.halt_requested && !pallet.halt_production {
        handoff.halt_requested = false;
        Some(HaltRequest { reason: Some(offchain_halt_reason_bytes()) })
    } else {
        None
    }
}

impl Pallet {
    /// What the slot stage of block initialization does, given the slot
    /// `slot` claimed in the digests: it enforces slot monotonicity, adopts
    /// the new slot, and refuses a block authored in a disabled authority's
    /// slot. `pre_slot` is the slot before the block, `post_slot` after.
    pub open spec fn slot_stage_post(
        pre_slot: u64,
        config: Config,
        n_authorities: u64,
        disabled: Seq<u32>,
        slot: Option<u64>,
        post_slot: u64,
        r: Result<(), ConsensusError>,
    ) -> bool {
        match slot {
            None => post_slot == pre_slot && r is Ok,
            Some(s) => {
                if config.allow_multiple_blocks_per_slot && !(pre_slot <= s) {
                    &&& post_slot == pre_slot
                    &&& r == Err::<(), ConsensusError>(ConsensusError::SlotMustNotDecrease)
                } else if !config.allow_multiple_blocks_per_slot && !(pre_slot < s) {
                    &&& post_slot == pre_slot
                    &&& r == Err::<(), ConsensusError>(ConsensusError::SlotMustIncrease)
                } else {
                    &&& post_slot == s
                    &&& if n_authorities > 0 && disabled.contains((s % n_authorities) as u32) {
                        r == Err::<(), ConsensusError>(
                            ConsensusError::AuthorityDisabled { authority_index: s % n_authorities },
                        )
                    } else {
                        r is Ok
                    }
                }
            }
        }
    }

    /// The full transition of [`Pallet::on_initialize`], relating the state
    /// before (`pre`) to after (`post`) for a block at height `n` that
    /// includes `halt_request` and whose digests claim `slot`, with the
    /// given disabled authorities. In order:
    ///
    /// 1. A request-halt operation included in the block is consumed, but
    ///    only while running: the guard halts at `n` with the request's
    ///    reason. While halted the request is ignored.
    /// 2. While halted, the block is rejected, except that a block more
    ///    than [`AUTO_RECOVERY_WINDOW`] blocks past the recorded halt
    ///    height resumes production and proceeds; a halt without a
    ///    recorded height is a hard stop that records `n`.
    /// 3. A running (or just resumed) guard runs the slot stage.
    pub open spec fn on_initialize_post(
        pre: Pallet,
        n: u64,
        halt_request: Option<HaltRequest>,
        slot: Option<u64>,
        disabled: Seq<u32>,
        post: Pallet,
        r: Result<(), ConsensusError>,
    ) -> bool {
        let consumed = halt_request is Some && !pre.halt_production;
        let halt1 = pre.halt_production || consumed;
        let at1: Option<u64> = if consumed { Some(n) } else { pre.halted_at_block };
        let reason1: Option<Seq<u8>> = if consumed {
            request_reason(halt_request)
        } else {
            opt_bytes(pre.halt_reason)
        };
        &&& post.config == pre.config
        &&& post.authorities@ == pre.authorities@
        &&& opt_bytes(post.license_key) == opt_bytes(pre.license_key)
        &&& if halt1 {
            match at1 {
                Some(halted_at) => {
                    if spec_saturating_sub(n, halted_at) > AUTO_RECOVERY_WINDOW {
                        &&& post.halt_production == false
                        &&& post.halted_at_block is None
                        &&& post.halt_reason is None
                        &&& Self::slot_stage_post(
                            pre.current_slot,
                            pre.config,
                            pre.authorities@.len() as u64,
                            disabled,
                            slot,
                            post.current_slot,
                            r,
                        )
                    } else {
                        &&& post.halt_production == true
                        &&& post.halted_at_block == at1
                        &&& opt_bytes(post.halt_reason) == reason1
                        &&& post.current_slot == pre.current_slot
                        &&& r == Err::<(), ConsensusError>(
                            ConsensusError::ProductionHalted { halted_at },
                        )
                    }
                }
                None => {
                    &&& post.halt_production == true
                    &&& post.halted_at_block == Some(n)
                    &&& opt_bytes(post.halt_reason) == reason1
                    &&& post.current_slot == pre.current_slot
                    &&& r == Err::<(), ConsensusError>(ConsensusError::HaltMissingStartHeight)
                }
            }
        } else {
            &&& post.halt_production == false
            &&& post.halted_at_block == pre.halted_at_block
            &&& opt_bytes(post.halt_reason) == opt_bytes(pre.halt_reason)
            &&& Self::slot_stage_post(
                pre.current_slot,
                pre.config,
                pre.authorities@.len() as u64,
                disabled,
                slot,
                post.current_slot,
                r,
            )
        }
    }

    /// Deterministic evaluation of the guard at the start of block
    /// initialization, for the block at height `n`, with the request-halt
    /// operation included in this block, if one was.
    ///
    /// Only that included operation — never any node-local state — can
    /// move the guard to halted here, so every validator computes the same
    /// transition. Returns `Err` when the block must be rejected; the
    /// surrounding driver translates that into refusing the block. The
    /// exact transition is [`Pallet::on_initialize_post`].
    pub fn on_initialize(
        &mut self,
        n: u64,
        halt_request: Option<HaltRequest>,
        digests: &Vec<PreRuntimeDigest>,
        disabled_validators: &Vec<u32>,
    ) -> (r: Result<(), ConsensusError>)
        requires
            old(self).wf(),
            (halt_request matches Some(hr) ==> Self::reason_ok(opt_bytes(hr.reason))),
        ensures
            final(self).wf(),
            Self::on_initialize_post(
                *old(self),
                n,
                halt_request,
                spec_current_slot_from_digests(digests@),
                disabled_validators@,
                *final(self),
                r,
            ),
    {
        // Consume a request-halt operation included in this block, but
        // only while running: an already halted guard ignores it.
        if !self.halt_production {
            if let Some(request) = halt_request {
                self.halt_production = true;
                self.halted_at_block = Some(n);
                self.halt_reason = request.reason;
            }
        }

        // Enforce the halt, or recover from it once the window has passed.
        if self.halt_production {
            let recorded = self.halted_at_block;
            match recorded {
                Some(halted_at) => {
                    let blocks_halted: u64 = if n >= halted_at {
                        n - halted_at
                    } else {
                        0
                    };
                    if blocks_halted > AUTO_RECOVERY_WINDOW {
                        self.halt_production = false;
                        self.halted_at_block = None;
                        self.halt_reason = None;
                    } else {
                        return Err(ConsensusError::ProductionHalted { halted_at });
                    }
                }
                None => {
                    self.halted_at_block = Some(n);
                    return Err(ConsensusError::HaltMissingStartHeight);
                }
            }
        }

        // Slot stage: adopt the slot claimed in the digests, enforcing
        // monotonicity and refusing a disabled author.
        if let Some(new_slot) = current_slot_from_digests(digests) {
            if self.config.allow_multiple_blocks_per_slot {
                if !(self.current_slot <= new_slot) {
                    return Err(ConsensusError::SlotMustNotDecrease);
                }
            } else {
                if !(self.current_slot < new_slot) {
                    return Err(ConsensusError::SlotMustIncrease);
                }
            }
            self.current_slot = new_slot;
            let n_authorities = self.authorities.len();
            if n_authorities > 0 {
                let authority_index: u64 = new_slot % (n_authorities as u64);
                if contains_u32(disabled_validators, authority_index as u32) {
                    return Err(ConsensusError::AuthorityDisabled { authority_index });
                }
            }
        }
        Ok(())
    }
}

/// Auto-recovery, the recovering side: a guard halted at height `halted_at`
/// resumes during the initialization of any block at a height more than
/// [`AUTO_RECOVERY_WINDOW`] blocks later, with the halt record cleared; and
/// when that block's digests claim no slot, its initialization succeeds.
/// (A block whose digests claim a non-monotonic slot is still refused by
/// the slot stage, after the recovery has taken effect.)
pub proof fn lemma_auto_recovery_after_window(
    pre: Pallet,
    n: u64,
    halt_request: Option<HaltRequest>,
    slot: Option<u64>,
    disabled: Seq<u32>,
    post: Pallet,
    r: Result<(), ConsensusError>,
    halted_at: u64,
)
    requires
        pre.halt_production,
        pre.halted_at_block == Some(halted_at),
        n > halted_at + AUTO_RECOVERY_WINDOW,
        Pallet::on_initialize_post(pre, n, halt_request, slot, disabled, post, r),
    ensures
        post.halt_production == false,
        post.halted_at_block is None,
        post.halt_reason is None,
        slot is None ==> r is Ok,
{
}

/// Auto-recovery, the rejecting side: while the block height has not yet
/// passed the recorded halt height by more than [`AUTO_RECOVERY_WINDOW`]
/// blocks, the block is rejected and the guard stays halted where it was.
pub proof fn lemma_halted_block_rejected(
    pre: Pallet,
    n: u64,
    halt_request: Option<HaltRequest>,
    slot: Option<u64>,
    disabled: Seq<u32>,
    post: Pallet,
    r: Result<(), ConsensusError>,
    halted_at: u64,
)
    requires
        pre.halt_production,
        pre.halted_at_block == Some(halted_at),
        n <= halted_at + AUTO_RECOVERY_WINDOW,
        Pallet::on_initialize_post(pre, n, halt_request, slot, disabled, post, r),
    ensures
        r == Err::<(), ConsensusError>(ConsensusError::ProductionHalted { halted_at }),
        post.halt_production == true,
        post.halted_at_block == Some(halted_at),
        opt_bytes(post.halt_reason) == opt_bytes(pre.halt_reason),
{
}

/// Halting and then resuming returns the guard to running and clears both
/// the recorded reason and the halt height, whatever reason was given and
/// wherever the halt was recorded, while the license key survives.
pub proof fn lemma_halt_then_resume(
    p0: Pallet,
    p1: Pallet,
    p2: Pallet,
    halt_block: u64,
    reason: Option<Seq<u8>>,
)
    requires
        Pallet::halt_post(p0, p1, halt_block, reason),
        Pallet::resume_post(p1, p2),
    ensures
        p2.halt_production == false,
        p2.halted_at_block is None,
        p2.halt_reason is None,
        Pallet::same_slot_fields(p0, p2),
        Pallet::same_license_key(p0, p2),
{
}

/// The guard's dispatchable operations, as they appear in a runtime call.
#[derive(Debug)]
pub enum Call {
    /// Privileged halt with an optional reason.
    SudoHaltProduction { reason: Option<Vec<u8>> },
    /// Privileged resume.
    SudoResumeProduction,
    /// Unsigned halt request submitted by the node's background probe.
    OffchainWorkerHaltProduction { reason: Option<Vec<u8>> },
    /// Privileged replacement of the license key.
    SetLicenseKey { license_key: Vec<u8> },
}

/// Admission of a valid unsigned operation: its priority, how many blocks
/// it stays valid, whether it is propagated to peers, and the tag it
/// provides. The transaction pool admits at most one operation per block
/// providing the same tag, which is how the request-halt operation is
/// limited to one inclusion per block.
#[derive(Debug)]
pub struct ValidTransaction {
    /// Inclusion priority; the probe's halt request uses the highest.
    pub priority: u64,
    /// Number of blocks the operation stays valid.
    pub longevity: u64,
    /// Whether the operation is propagated to peers.
    pub propagate: bool,
    /// Namespace prefix of the provided tag.
    pub tag_prefix: String,
    /// The datum this operation provides, the pool's deduplication key.
    pub provides: String,
}

/// Why an unsigned operation is refused admission.
#[derive(Clone, Copy, Debug, PartialEq, Eq, Structural)]
pub enum InvalidTransaction {
    /// The operation may not be submitted unsigned.
    Call,
}

/// Genesis state of the guard: the initial authority set and, optionally,
/// the license key.
#[derive(Debug)]
pub struct GenesisConfig {
    /// Initial authorities; at most the configured maximum.
    pub authorities: Vec<u64>,
    /// Initial license key, at most [`MAX_LICENSE_KEY_LEN`] bytes.
    pub license_key: Option<Vec<u8>>,
}

impl GenesisConfig {
    /// Builds the guard's initial state: running, with the given
    /// authorities and license key.
    pub fn build(&self, config: Config) -> (r: Pallet)
        requires
            self.authorities@.len() <= config.max_authorities,
            (self.license_key matches Some(k) ==> k@.len() <= MAX_LICENSE_KEY_LEN),
        ensures
            r.wf(),
            r.config == config,
            r.authorities@ == self.authorities@,
            opt_bytes(r.license_key) == opt_bytes(self.license_key),
            r.current_slot == 0,
            r.halt_production == false,
            r.halted_at_block is None,
            r.halt_reason is None,
    {
        let mut p = Pallet::new(config);
        p.initialize_authorities(&self.authorities);
        if let Some(ref key) = self.license_key {
            p.license_key = Some(copy_bytes(key));
        }
        p
    }
}

impl Pallet {
    /// Admission rule for unsigned operations: only the probe's halt
    /// request is admitted, at the highest priority, valid for one block,
    /// propagated, and providing the halt-production tag — the pool admits
    /// at most one provider of that tag per block, which rate-limits the
    /// request to one inclusion per block.
    pub fn validate_unsigned(call: &Call) -> (r: Result<ValidTransaction, InvalidTransaction>)
        ensures
            (call matches Call::OffchainWorkerHaltProduction { .. }) ==> (r matches Ok(v) && {
                &&& v.priority == u64::MAX
                &&& v.longevity == 1
                &&& v.propagate == true
                &&& v.tag_prefix@ == "AuraHalt"@
                &&& v.provides@ == "halt_production"@
            }),
            !(call matches Call::OffchainWorkerHaltProduction { .. }) ==> r == Err::<
                ValidTransaction,
                InvalidTransaction,
            >(InvalidTransaction::Call),
    {
        match call {
            Call::OffchainWorkerHaltProduction { .. } => Ok(
                ValidTransaction {
                    priority: u64::MAX,
                    longevity: 1,
                    propagate: true,
                    tag_prefix: "AuraHalt".to_owned(),
                    provides: "halt_production".to_owned(),
                },
            ),
            _ => Err(InvalidTransaction::Call),
        }
    }

    /// Installs the initial authorities. A no-op for an empty set; a
    /// non-empty set may only be installed once, over an empty one.
    pub fn initialize_authorities(&mut self, authorities: &Vec<u64>)
        requires
            old(self).wf(),
            authorities@.len() > 0 ==> old(self).authorities@.len() == 0,
            authorities@.len() <= old(self).config.max_authorities,
        ensures
            final(self).wf(),
            authorities@.len() > 0 ==> final(self).authorities@ == authorities@,
            authorities@.len() == 0 ==> final(self).authorities@ == old(self).authorities@,
            final(self).config == old(self).config,
            final(self).current_slot == old(self).current_slot,
            Self::same_halt_fields(*old(self), *final(self)),
            Self::same_license_key(*old(self), *final(self)),
    {
        if !authorities.is_empty() {
            self.authorities = copy_u64s(authorities);
        }
    }

    /// Replaces the authority set. A no-op for an empty set. Returns
    /// whether the set was replaced, in which case the surrounding runtime
    /// must append an authorities-change entry to the block's log.
    pub fn change_authorities(&mut self, new: Vec<u64>) -> (log_change: bool)
        requires
            old(self).wf(),
            new@.len() <= old(self).config.max_authorities,
        ensures
            final(self).wf(),
            new@.len() > 0 ==> final(self).authorities@ == new@ && log_change,
            new@.len() == 0 ==> final(self).authorities@ == old(self).authorities@ && !log_change,
            final(self).config == old(self).config,
            final(self).current_slot == old(self).current_slot,
            Self::same_halt_fields(*old(self), *final(self)),
            Self::same_license_key(*old(self), *final(self)),
    {
        if new.is_empty() {
            return false;
        }
        self.authorities = new;
        true
    }

    /// The authority set a session rotation yields: the new validators,
    /// truncated to the configured maximum.
    pub open spec fn spec_truncated_authorities(validators: Seq<u64>, max: u32) -> Seq<u64> {
        if validators.len() <= max {
            validators
        } else {
            validators.take(max as int)
        }
    }

    /// Session rotation: when the validator set changed and differs from
    /// the current authorities, installs it, truncated to the configured
    /// maximum. Returns whether the authorities were replaced, in which
    /// case the surrounding runtime must append an authorities-change
    /// entry to the block's log.
    pub fn on_new_session(&mut self, changed: bool, validators: &Vec<u64>) -> (log_change: bool)
        requires
            old(self).wf(),
        ensures
            final(self).wf(),
            ({
                let next = Self::spec_truncated_authorities(
                    validators@,
                    old(self).config.max_authorities,
                );
                &&& (changed && validators@ != old(self).authorities@ && next.len() > 0) ==> (
                final(self).authorities@ == next && log_change)
                &&& !(changed && validators@ != old(self).authorities@ && next.len() > 0) ==> (
                final(self).authorities@ == old(self).authorities@ && !log_change)
            }),
            final(self).config == old(self).config,
            final(self).current_slot == old(self).current_slot,
            Self::same_halt_fields(*old(self), *final(self)),
            Self::same_license_key(*old(self), *final(self)),
    {
        if !changed {
            return false;
        }
        if vecs_equal(&self.authorities, validators) {
            return false;
        }
        let mut next = copy_u64s(validators);
        let max = self.config.max_authorities as usize;
        if next.len() > max {
            next.truncate(max);
        }
        proof {
            assert(next@ == Self::spec_truncated_authorities(
                validators@,
                self.config.max_authorities,
            ));
        }
        self.change_authorities(next)
    }

    /// Sanity check of the guard's state, valid before or after any
    /// transition: the current slot has room to grow (unless several
    /// blocks may share a slot), the authority set is non-empty, and the
    /// authority owning the current slot is not disabled.
    pub fn do_try_state(
        &self,
        digests: &Vec<PreRuntimeDigest>,
        disabled_validators: &Vec<u32>,
    ) -> (r: Result<(), ConsensusError>)
        requires
            self.wf(),
        ensures
            ({
                let cs = match spec_current_slot_from_digests(digests@) {
                    Some(s) => s,
                    None => self.current_slot,
                };
                let n_auth = self.authorities@.len() as u64;
                if !self.config.allow_multiple_blocks_per_slot && cs == u64::MAX {
                    r == Err::<(), ConsensusError>(ConsensusError::CurrentSlotAtMax)
                } else if n_auth == 0 {
                    r == Err::<(), ConsensusError>(ConsensusError::EmptyAuthorities)
                } else if disabled_validators@.contains((cs % n_auth) as u32) {
                    r == Err::<(), ConsensusError>(
                        ConsensusError::AuthorityDisabled { authority_index: cs % n_auth },
                    )
                } else {
                    r is Ok
                }
            }),
    {
        let cs = match current_slot_from_digests(digests) {
            Some(s) => s,
            None => self.current_slot,
        };
        if !self.config.allow_multiple_blocks_per_slot && cs == u64::MAX {
            return Err(ConsensusError::CurrentSlotAtMax);
        }
        let n_auth = self.authorities.len();
        if n_auth == 0 {
            return Err(ConsensusError::EmptyAuthorities);
        }
        let authority_index: u64 = cs % (n_auth as u64);
        if contains_u32(disabled_validators, authority_index as u32) {
            return Err(ConsensusError::AuthorityDisabled { authority_index });
        }
        Ok(())
    }

    /// Consistency check run when the block's timestamp is set: the slot
    /// derived from the timestamp must match the slot claimed in the
    /// digests, and the configured slot duration must not be zero.
    pub fn on_timestamp_set(&self, moment: u64) -> (r: Result<(), ConsensusError>)
        ensures
            self.config.slot_duration == 0 ==> r == Err::<(), ConsensusError>(
                ConsensusError::ZeroSlotDuration,
            ),
            (self.config.slot_duration != 0 && self.current_slot == moment
                / self.config.slot_duration) ==> r is Ok,
            (self.config.slot_duration != 0 && self.current_slot != moment
                / self.config.slot_duration) ==> r == Err::<(), ConsensusError>(
                ConsensusError::TimestampSlotMismatch,
            ),
    {
        let slot_duration = self.config.slot_duration;
        if slot_duration == 0 {
            return Err(ConsensusError::ZeroSlotDuration);
        }
        let timestamp_slot = moment / slot_duration;
        if self.current_slot == timestamp_slot {
            Ok(())
        } else {
            Err(ConsensusError::TimestampSlotMismatch)
        }
    }

    /// The author of a block, as an index into the authority set: the slot
    /// claimed in the digests, modulo the number of authorities.
    pub fn find_author(&self, digests: &Vec<PreRuntimeDigest>) -> (r: Option<u32>)
        requires
            self.wf(),
            spec_current_slot_from_digests(digests@) is Some ==> self.authorities@.len() > 0,
        ensures
            r == match spec_current_slot_from_digests(digests@) {
                Some(s) => Some((s % self.authorities@.len() as u64) as u32),
                None => None,
            },
    {
        match current_slot_from_digests(digests) {
            Some(slot) => {
                let n_auth = self.authorities.len();
                Some((slot % (n_auth as u64)) as u32)
            },
            None => None,
        }
    }
}

fn vecs_equal(a: &Vec<u64>, b: &Vec<u64>) -> (r: bool)
    ensures
        r == (a@ == b@),
{
    if a.len() != b.len() {
        return false;
    }
    let mut i: usize = 0;
    while i < a.len()
        invariant
            a@.len() == b@.len(),
            0 <= i <= a@.len(),
            forall|j: int| 0 <= j < i ==> a@[j] == b@[j],
        decreases a@.len() - i,
    {
        if a[i] != b[i] {
            return false;
        }
        i = i + 1;
    }
    proof {
        assert(a@ =~= b@);
    }
    true
}

/// Maps the author index found in the digests back to the authority
/// identifier that owns it.
pub struct FindAccountFromAuthorIndex;

impl FindAccountFromAuthorIndex {
    /// The authority that authored the block with the given digests.
    pub fn find_author(pallet: &Pallet, digests: &Vec<PreRuntimeDigest>) -> (r: Option<u64>)
        requires
            pallet.wf(),
            spec_current_slot_from_digests(digests@) is Some ==> pallet.authorities@.len() > 0,
        ensures
            r == match spec_current_slot_from_digests(digests@) {
                Some(s) => Some(
                    pallet.authorities@[(s % pallet.authorities@.len() as u64) as int],
                ),
                None => None,
            },
    {
        match pallet.find_author(digests) {
            Some(index) => {
                proof {
                    assert((index as int) < pallet.authorities@.len());
                }
                Some(pallet.authorities[index as usize])
            },
            None => None,
        }
    }
}

/// A slot duration provider that doubles the clock pallet's minimum
/// period, so that an author has the majority of its slot to author
/// within; the doubling saturates at the largest representable value.
pub struct MinimumPeriodTimesTwo;

impl MinimumPeriodTimesTwo {
    /// Twice the given minimum period, saturating.
    pub fn get(minimum_period: u64) -> (r: u64)
        ensures
            minimum_period <= u64::MAX / 2 ==> r == 2 * minimum_period,
            minimum_period > u64::MAX / 2 ==> r == u64::MAX,
    {
        if minimum_period <= u64::MAX / 2 {
            2 * minimum_period
        } else {
            u64::MAX
        }
    }
}

} // verus!
