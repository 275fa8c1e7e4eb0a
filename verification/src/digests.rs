//! Pre-runtime digest entries and slot extraction.
//!
//! Each block carries digest entries tagged with a consensus engine
//! identifier. The slot claimed by the block author is the fixed-width
//! little-endian 64-bit payload of the first entry tagged with the
//! slot-based engine's identifier.

use vstd::prelude::*;
use vstd::bytes::{spec_u64_from_le_bytes, u64_from_le_bytes};
use vstd::slice::slice_subrange;

verus! {

/// The four ASCII bytes `aura` of the slot-based engine's identifier,
/// packed little-endian into one word.
pub const AURA_ENGINE_ID: u32 = 0x6172_7561;

/// One pre-runtime digest entry of a block header: the identifier of the
/// consensus engine that wrote it, and its raw payload.
#[derive(Debug)]
pub struct PreRuntimeDigest {
    /// Engine identifier, four bytes packed little-endian.
    pub engine_id: u32,
    /// Raw payload of the entry.
    pub payload: Vec<u8>,
}

/// The slot carried by a digest payload: the first 8 bytes read as a
/// little-endian 64-bit integer, or nothing when the payload is shorter.
/// Any bytes past the first 8 are ignored.
pub open spec fn spec_decode_slot(payload: Seq<u8>) -> Option<u64> {
    if payload.len() >= 8 {
        Some(spec_u64_from_le_bytes(payload.subrange(0, 8)))
    } else {
        None
    }
}

/// Reads the slot number out of one digest payload.
pub fn decode_slot(payload: &Vec<u8>) -> (r: Option<u64>)
    ensures
        r == spec_decode_slot(payload@),
{
    if payload.len() >= 8 {
        let head = slice_subrange(payload.as_slice(), 0, 8);
        Some(u64_from_le_bytes(head))
    } else {
        None
    }
}

/// The slot of the first entry written by the slot-based engine, if that
/// entry carries a well-formed slot payload. Entries of other engines are
/// skipped; once the engine's first entry is found, no later entry is
/// consulted, even when its payload does not decode.
pub open spec fn spec_current_slot_from_digests(digests: Seq<PreRuntimeDigest>) -> Option<u64>
    decreases digests.len(),
{
    if digests.len() == 0 {
        None
    } else if digests[0].engine_id == AURA_ENGINE_ID {
        spec_decode_slot(digests[0].payload@)
    } else {
        spec_current_slot_from_digests(digests.drop_first())
    }
}

proof fn lemma_slot_from_digests_skip(digests: Seq<PreRuntimeDigest>, i: int)
    requires
        0 <= i < digests.len(),
        digests[i].engine_id != AURA_ENGINE_ID,
    ensures
        spec_current_slot_from_digests(digests.subrange(i, digests.len() as int))
            == spec_current_slot_from_digests(digests.subrange(i + 1, digests.len() as int)),
{
    let tail = digests.subrange(i, digests.len() as int);
    assert(tail.drop_first() =~= digests.subrange(i + 1, digests.len() as int));
}

/// Finds the slot claimed in the given pre-runtime digest entries.
pub fn current_slot_from_digests(digests: &Vec<PreRuntimeDigest>) -> (r: Option<u64>)
    ensures
        r == spec_current_slot_from_digests(digests@),
{
    let ghost all = digests@;
    proof {
        assert(all.subrange(0, all.len() as int) =~= all);
    }
    let mut i: usize = 0;
    while i < digests.len()
        invariant
            0 <= i <= all.len(),
            all == digests@,
            spec_current_slot_from_digests(all)
                == spec_current_slot_from_digests(all.subrange(i as int, all.len() as int)),
        decreases digests.len() - i,
    {
        let entry = &digests[i];
        if entry.engine_id == AURA_ENGINE_ID {
            proof {
                assert(all.subrange(i as int, all.len() as int)[0] == all[i as int]);
            }
            return decode_slot(&entry.payload);
        }
        proof {
            lemma_slot_from_digests_skip(all, i as int);
        }
        i = i + 1;
    }
    proof {
        assert(all.subrange(all.len() as int, all.len() as int).len() == 0);
    }
    None
}

} // verus!
