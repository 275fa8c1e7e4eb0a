//! A license-gated block-production guard for a slot-based blockchain
//! validator.
//!
//! The guard owns a deterministic halt/resume state machine that every
//! validator evaluates identically at block initialization, a call filter
//! that restricts which operations run while production is halted, and the
//! decision logic of a per-node background license probe. The probe itself
//! performs network requests and clock reads outside this crate; only its
//! decisions are made here, on plain values, so that nothing
//! non-deterministic can leak into consensus state.

use vstd::prelude::*;
use vstd::utf8::{decode_utf8, valid_utf8};

pub mod digests;
pub mod filter;
pub mod checker;
pub mod pallet;

verus! {

/// Largest halt reason the guard will record, in bytes.
pub const MAX_REASON_LEN: usize = 256;

/// Largest license key the guard will store, in bytes.
pub const MAX_LICENSE_KEY_LEN: usize = 128;

/// Number of blocks after which a halted chain resumes on its own: a block
/// whose height exceeds the recorded halt height by more than this window
/// clears the halt during its initialization.
pub const AUTO_RECOVERY_WINDOW: u64 = 100;

/// Minimum number of milliseconds between two license probes on one node.
pub const LICENSE_CHECK_INTERVAL_MS: u64 = 30_000;

/// Deadline handed to the license probe's HTTP request, in milliseconds.
pub const LICENSE_PROBE_DEADLINE_MS: u64 = 5_000;

/// The byte contents of an optional byte string, as a mathematical value.
pub open spec fn opt_bytes(o: Option<Vec<u8>>) -> Option<Seq<u8>> {
    match o {
        Some(v) => Some(v@),
        None => None,
    }
}

/// Relies on `core::str::from_utf8`: it returns `Ok` exactly when the
/// bytes are valid UTF-8, and the returned string slice is their decoding.
#[verifier::external_body]
pub(crate) fn bytes_as_str<'a>(bytes: &'a Vec<u8>) -> (r: Option<&'a str>)
    ensures
        r is Some <==> valid_utf8(bytes@),
        (r matches Some(s) ==> s@ == decode_utf8(bytes@)),
{
    core::str::from_utf8(bytes.as_slice()).ok()
}

/// A fresh byte vector with the same contents.
pub(crate) fn copy_bytes(src: &Vec<u8>) -> (r: Vec<u8>)
    ensures
        r@ == src@,
{
    let r = src.clone();
    proof {
        assert(r@ =~= src@);
    }
    r
}

/// A fresh vector with the same contents.
pub(crate) fn copy_u64s(src: &Vec<u64>) -> (r: Vec<u64>)
    ensures
        r@ == src@,
{
    let r = src.clone();
    proof {
        assert(r@ =~= src@);
    }
    r
}

/// Errors surfaced to the callers of the control operations.
#[derive(Clone, Copy, Debug, PartialEq, Eq, Structural)]
pub enum Error {
    /// A halt reason longer than [`MAX_REASON_LEN`] bytes was supplied.
    ReasonTooLong,
    /// A halt reason that is not valid UTF-8 text was supplied. The halt
    /// reason is bounded *text*: construction fails on arbitrary bytes.
    ReasonNotUtf8,
    /// A license key longer than [`MAX_LICENSE_KEY_LEN`] bytes was supplied.
    LicenseKeyTooLong,
    /// The license probe cannot run because no license key is stored.
    LicenseKeyNotSet,
}

/// Observable events emitted by successful halt and resume operations.
#[derive(Clone, Copy, Debug, PartialEq, Eq, Structural)]
pub enum Event {
    /// Block production was halted at the given height.
    ProductionHalted { block_number: u64 },
    /// Block production was resumed at the given height.
    ProductionResumed { block_number: u64 },
}

/// The node-local, non-consensus channel between the background license
/// probe and the node's block-assembly driver.
///
/// Each node holds its own copy, and neither field ever reaches a
/// deterministic transition: the probe sets `halt_requested`, and the
/// node's submission step turns it into the unsigned request-halt
/// operation, which moves consensus state only once included in a block.
/// `last_check_timestamp` rate-limits the probe.
#[derive(Clone, Copy, Debug, PartialEq, Eq, Structural)]
pub struct Handoff {
    /// Set by the probe when the license turned out invalid; cleared by the
    /// node's submission step once turned into an operation.
    pub halt_requested: bool,
    /// Milliseconds since the epoch at the last completed probe attempt.
    pub last_check_timestamp: u64,
}

impl Handoff {
    /// A fresh handoff: nothing requested, no probe recorded yet.
    pub fn new() -> (r: Handoff)
        ensures
            r.halt_requested == false,
            r.last_check_timestamp == 0,
    {
        Handoff { halt_requested: false, last_check_timestamp: 0 }
    }
}

} // verus!
