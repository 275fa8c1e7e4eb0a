//! Decision logic of the per-node background license checker.
//!
//! The checker runs outside the deterministic path: it reads the clock,
//! performs one HTTP probe against the license endpoint, and leaves at most
//! a halt request in the node-local [`Handoff`], which the node's
//! submission step later turns into an unsigned operation. Everything the
//! checker
//! *decides* — whether a probe is due, what a probe outcome means, and what
//! it does to the handoff — is computed here on plain values, so the
//! surrounding driver only moves bytes.

use vstd::prelude::*;
use vstd::string::StrSliceExecFns;
use vstd::utf8::{decode_utf8, valid_utf8};
use crate::{bytes_as_str, copy_bytes, opt_bytes, Error, Handoff, LICENSE_CHECK_INTERVAL_MS};
use crate::pallet::Pallet;

verus! {

/// A probe is due once the clock has advanced by at least
/// [`LICENSE_CHECK_INTERVAL_MS`] past the last recorded attempt. A clock
/// reading earlier than the recorded attempt counts as within the
/// interval.
pub open spec fn spec_probe_due(last_check: u64, now: u64) -> bool {
    now >= last_check + LICENSE_CHECK_INTERVAL_MS
}

/// What one checker cycle should do, decided from the guard state, the
/// handoff and one clock reading.
#[derive(Debug)]
pub enum ProbePlan {
    /// The rate limit has not elapsed: do nothing this cycle.
    Skip,
    /// Probe the endpoint with this license key.
    Probe { license_key: Vec<u8> },
}

/// Plans one checker cycle: skips inside the rate-limit interval, fails
/// with [`Error::LicenseKeyNotSet`] when no key is stored, and otherwise
/// asks for a probe with the stored key.
pub fn plan_license_check(pallet: &Pallet, handoff: &Handoff, now_ms: u64) -> (r: Result<
    ProbePlan,
    Error,
>)
    ensures
        !spec_probe_due(handoff.last_check_timestamp, now_ms) ==> (r matches Ok(
            p,
        ) && p is Skip),
        spec_probe_due(handoff.last_check_timestamp, now_ms) && pallet.license_key is None ==> r
            == Err::<ProbePlan, Error>(Error::LicenseKeyNotSet),
        (spec_probe_due(handoff.last_check_timestamp, now_ms) && pallet.license_key is Some)
            ==> (r matches Ok(p) && (p matches ProbePlan::Probe { license_key } && Some(
            license_key@,
        ) == opt_bytes(pallet.license_key))),
{
    let last = handoff.last_check_timestamp;
    let due = now_ms >= last && now_ms - last >= LICENSE_CHECK_INTERVAL_MS;
    if !due {
        return Ok(ProbePlan::Skip);
    }
    match &pallet.license_key {
        None => Err(Error::LicenseKeyNotSet),
        Some(key) => Ok(ProbePlan::Probe { license_key: copy_bytes(key) }),
    }
}

/// The observable outcome of one probe attempt, as the driver reports it
/// back to the checker.
#[derive(Debug)]
pub enum ProbeOutcome {
    /// The request could not be sent, timed out, or failed in transport
    /// before any response arrived.
    TransportFailed,
    /// A response arrived, with its HTTP status code and raw body.
    Response { status: u16, body: Vec<u8> },
}

/// What a probe outcome does to the handoff.
#[derive(Clone, Copy, Debug, PartialEq, Eq, Structural)]
pub struct ProbeEffects {
    /// Whether the attempt completed, so the rate limiter records it.
    pub update_last_check: bool,
    /// Whether the license was found invalid, so a halt is requested.
    pub request_halt: bool,
}

/// The meaning of a probe outcome, in order:
///
/// - transport failure: nothing is recorded and no halt is requested (a
///   transient network problem must not halt the chain);
/// - any status other than 200: the attempt is recorded and a halt is
///   requested, whatever the body holds;
/// - a 200 response whose body is not UTF-8: the attempt is recorded but
///   absorbed as a soft failure, no halt;
/// - a 200 response with a UTF-8 body: the attempt is recorded, and a halt
///   is requested exactly when the body does not announce a valid license.
pub open spec fn spec_probe_effects(outcome: ProbeOutcome) -> ProbeEffects {
    match outcome {
        ProbeOutcome::TransportFailed => ProbeEffects {
            update_last_check: false,
            request_halt: false,
        },
        ProbeOutcome::Response { status, body } => {
            if status != 200 {
                ProbeEffects { update_last_check: true, request_halt: true }
            } else if !valid_utf8(body@) {
                ProbeEffects { update_last_check: true, request_halt: false }
            } else {
                ProbeEffects {
                    update_last_check: true,
                    request_halt: !spec_parse_license_response(decode_utf8(body@)),
                }
            }
        },
    }
}

/// Evaluates one probe outcome to its effects on the handoff; the exact
/// meaning is [`spec_probe_effects`].
pub fn evaluate_probe(outcome: &ProbeOutcome) -> (e: ProbeEffects)
    ensures
        e == spec_probe_effects(*outcome),
{
    match outcome {
        ProbeOutcome::TransportFailed => ProbeEffects {
            update_last_check: false,
            request_halt: false,
        },
        ProbeOutcome::Response { status, body } => {
            if *status != 200 {
                ProbeEffects { update_last_check: true, request_halt: true }
            } else {
                match bytes_as_str(body) {
                    None => ProbeEffects { update_last_check: true, request_halt: false },
                    Some(text) => ProbeEffects {
                        update_last_check: true,
                        request_halt: !parse_license_response(text),
                    },
                }
            }
        },
    }
}

/// Applies probe effects to the handoff: records the clock reading of a
/// completed attempt, and raises — never clears — the halt request. Only
/// the node's submission step clears the request, so a concurrently
/// running check can never lose a request that was not turned into an
/// operation.
pub fn record_probe_outcome(handoff: &mut Handoff, now_ms: u64, effects: ProbeEffects)
    ensures
        final(handoff).last_check_timestamp == if effects.update_last_check {
            now_ms
        } else {
            old(handoff).last_check_timestamp
        },
        final(handoff).halt_requested == (old(handoff).halt_requested || effects.request_halt),
{
    if effects.update_last_check {
        handoff.last_check_timestamp = now_ms;
    }
    if effects.request_halt {
        handoff.halt_requested = true;
    }
}

/// Probe rate limiting: once a completed attempt records its clock reading
/// `t1`, a second attempt read at `t2` is skipped when less than
/// [`LICENSE_CHECK_INTERVAL_MS`] has passed, and due again once at least
/// the interval has passed.
pub proof fn lemma_probe_rate_limit(t1: u64, t2: u64)
    ensures
        t2 < t1 + LICENSE_CHECK_INTERVAL_MS ==> !spec_probe_due(t1, t2),
        t2 >= t1 + LICENSE_CHECK_INTERVAL_MS ==> spec_probe_due(t1, t2),
{
}

/// The seven characters `"valid"`, quotes included.
pub open spec fn valid_key_chars() -> Seq<char> {
    seq!['"', 'v', 'a', 'l', 'i', 'd', '"']
}

/// The four characters of the literal `true`.
pub open spec fn true_chars() -> Seq<char> {
    seq!['t', 'r', 'u', 'e']
}

/// The characters with the Unicode `White_Space` property, which is what
/// the language's whitespace trimming removes.
pub open spec fn spec_is_whitespace(c: char) -> bool {
    ||| c == '\u{09}'
    ||| c == '\u{0A}'
    ||| c == '\u{0B}'
    ||| c == '\u{0C}'
    ||| c == '\u{0D}'
    ||| c == ' '
    ||| c == '\u{85}'
    ||| c == '\u{A0}'
    ||| c == '\u{1680}'
    ||| c == '\u{2000}'
    ||| c == '\u{2001}'
    ||| c == '\u{2002}'
    ||| c == '\u{2003}'
    ||| c == '\u{2004}'
    ||| c == '\u{2005}'
    ||| c == '\u{2006}'
    ||| c == '\u{2007}'
    ||| c == '\u{2008}'
    ||| c == '\u{2009}'
    ||| c == '\u{200A}'
    ||| c == '\u{2028}'
    ||| c == '\u{2029}'
    ||| c == '\u{202F}'
    ||| c == '\u{205F}'
    ||| c == '\u{3000}'
}

fn is_whitespace_char(c: char) -> (r: bool)
    ensures
        r == spec_is_whitespace(c),
{
    c == '\u{09}' || c == '\u{0A}' || c == '\u{0B}' || c == '\u{0C}' || c == '\u{0D}' || c == ' '
        || c == '\u{85}' || c == '\u{A0}' || c == '\u{1680}' || c == '\u{2000}' || c == '\u{2001}'
        || c == '\u{2002}' || c == '\u{2003}' || c == '\u{2004}' || c == '\u{2005}' || c
        == '\u{2006}' || c == '\u{2007}' || c == '\u{2008}' || c == '\u{2009}' || c == '\u{200A}'
        || c == '\u{2028}' || c == '\u{2029}' || c == '\u{202F}' || c == '\u{205F}' || c
        == '\u{3000}'
}

/// The pattern `pat` occurs in `s` at position `i`.
pub open spec fn spec_matches_at(s: Seq<char>, pat: Seq<char>, i: int) -> bool {
    &&& 0 <= i
    &&& i + pat.len() <= s.len()
    &&& s.subrange(i, i + pat.len()) == pat
}

/// The first position at or after `i` where `pat` occurs in `s`.
pub open spec fn spec_find_from(s: Seq<char>, pat: Seq<char>, i: int) -> Option<int>
    recommends
        0 <= i,
    decreases s.len() + 1 - i,
{
    if i + pat.len() > s.len() {
        None
    } else if s.subrange(i, i + pat.len()) == pat {
        Some(i)
    } else {
        spec_find_from(s, pat, i + 1)
    }
}

/// The first position at or after `i` holding a non-whitespace character,
/// or the length of `s`.
pub open spec fn spec_skip_ws(s: Seq<char>, i: int) -> int
    decreases s.len() - i,
{
    if 0 <= i < s.len() && spec_is_whitespace(s[i]) {
        spec_skip_ws(s, i + 1)
    } else {
        i
    }
}

/// Whether a response body announces a valid license: at the first
/// occurrence of `"valid"` (quotes included), after optional whitespace, a
/// colon, and again optional whitespace, the text continues with the
/// literal `true`. Everything else — no `"valid"`, no colon after it, or
/// any other continuation — does not.
pub open spec fn spec_parse_license_response(s: Seq<char>) -> bool {
    match spec_find_from(s, valid_key_chars(), 0) {
        None => false,
        Some(i) => {
            let j = spec_skip_ws(s, i + valid_key_chars().len());
            &&& j < s.len()
            &&& s[j] == ':'
            &&& spec_matches_at(s, true_chars(), spec_skip_ws(s, j + 1))
        },
    }
}

proof fn lemma_find_step(s: Seq<char>, pat: Seq<char>, i: int)
    requires
        0 <= i,
        !spec_matches_at(s, pat, i),
    ensures
        spec_find_from(s, pat, i) == spec_find_from(s, pat, i + 1),
{
}

proof fn lemma_skip_ws_bounds(s: Seq<char>, i: int)
    requires
        0 <= i <= s.len(),
    ensures
        i <= spec_skip_ws(s, i) <= s.len(),
    decreases s.len() - i,
{
    if i < s.len() && spec_is_whitespace(s[i]) {
        lemma_skip_ws_bounds(s, i + 1);
    }
}

fn matches_valid_key_at(s: &str, i: usize) -> (r: bool)
    requires
        i + 7 <= s@.len(),
        i <= usize::MAX - 7,
    ensures
        r == spec_matches_at(s@, valid_key_chars(), i as int),
{
    let r = s.get_char(i) == '"' && s.get_char(i + 1) == 'v' && s.get_char(i + 2) == 'a'
        && s.get_char(i + 3) == 'l' && s.get_char(i + 4) == 'i' && s.get_char(i + 5) == 'd'
        && s.get_char(i + 6) == '"';
    proof {
        let sub = s@.subrange(i as int, i as int + 7);
        if r {
            assert(sub =~= valid_key_chars());
        } else {
            if spec_matches_at(s@, valid_key_chars(), i as int) {
                assert(s@[i as int] == sub[0]);
                assert(s@[i as int + 1] == sub[1]);
                assert(s@[i as int + 2] == sub[2]);
                assert(s@[i as int + 3] == sub[3]);
                assert(s@[i as int + 4] == sub[4]);
                assert(s@[i as int + 5] == sub[5]);
                assert(s@[i as int + 6] == sub[6]);
            }
        }
    }
    r
}

fn matches_true_at(s: &str, i: usize) -> (r: bool)
    requires
        i + 4 <= s@.len(),
        i <= usize::MAX - 4,
    ensures
        r == spec_matches_at(s@, true_chars(), i as int),
{
    let r = s.get_char(i) == 't' && s.get_char(i + 1) == 'r' && s.get_char(i + 2) == 'u'
        && s.get_char(i + 3) == 'e';
    proof {
        let sub = s@.subrange(i as int, i as int + 4);
        if r {
            assert(sub =~= true_chars());
        } else {
            if spec_matches_at(s@, true_chars(), i as int) {
                assert(s@[i as int] == sub[0]);
                assert(s@[i as int + 1] == sub[1]);
                assert(s@[i as int + 2] == sub[2]);
                assert(s@[i as int + 3] == sub[3]);
            }
        }
    }
    r
}

/// Scans a response body for `"valid"` followed by a colon and the literal
/// `true`, with optional whitespace around the colon; the exact meaning is
/// [`spec_parse_license_response`]. This is deliberately a minimal scan of
/// the body, not a grammar for the whole response.
pub fn parse_license_response(response_str: &str) -> (r: bool)
    ensures
        r == spec_parse_license_response(response_str@),
{
    let ghost s = response_str@;
    let n = response_str.unicode_len();
    let mut i: usize = 0;
    while n - i >= 7
        invariant
            0 <= i <= n,
            n == s.len(),
            s == response_str@,
            spec_find_from(s, valid_key_chars(), 0) == spec_find_from(s, valid_key_chars(), i as int),
        decreases n - i,
    {
        if matches_valid_key_at(response_str, i) {
            proof {
                assert(spec_find_from(s, valid_key_chars(), i as int) == Some(i as int));
            }
            return parse_after_key(response_str, i);
        }
        proof {
            lemma_find_step(s, valid_key_chars(), i as int);
        }
        i = i + 1;
    }
    false
}

fn parse_after_key(response_str: &str, found: usize) -> (r: bool)
    requires
        spec_find_from(response_str@, valid_key_chars(), 0) == Some(found as int),
        spec_matches_at(response_str@, valid_key_chars(), found as int),
    ensures
        r == spec_parse_license_response(response_str@),
{
    let ghost s = response_str@;
    let n = response_str.unicode_len();
    proof {
        lemma_skip_ws_bounds(s, found as int + 7);
    }
    let mut j: usize = found + 7;
    while j < n && is_whitespace_char(response_str.get_char(j))
        invariant
            found + 7 <= j <= n,
            n == s.len(),
            s == response_str@,
            spec_skip_ws(s, found as int + 7) == spec_skip_ws(s, j as int),
        decreases n - j,
    {
        j = j + 1;
    }
    proof {
        assert(spec_skip_ws(s, j as int) == j as int);
    }
    if j >= n {
        return false;
    }
    if response_str.get_char(j) != ':' {
        return false;
    }
    proof {
        lemma_skip_ws_bounds(s, j as int + 1);
    }
    let mut k: usize = j + 1;
    while k < n && is_whitespace_char(response_str.get_char(k))
        invariant
            j + 1 <= k <= n,
            n == s.len(),
            s == response_str@,
            spec_skip_ws(s, j as int + 1) == spec_skip_ws(s, k as int),
        decreases n - k,
    {
        k = k + 1;
    }
    proof {
        assert(spec_skip_ws(s, k as int) == k as int);
    }
    if n - k >= 4 {
        matches_true_at(response_str, k)
    } else {
        false
    }
}

} // verus!
