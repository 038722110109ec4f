//! Work-state refresh and submission statistics: replace the current job
//! only when its challenge actually changed, and count accepted and
//! rejected shares from submission outcomes.

use vstd::prelude::*;

use crate::api::Ticker;
use crate::engine::{decode_challenge, MAX_CHALLENGE_BYTES};
use crate::wire::is_hex_str;

verus! {

/// A double-SHA-256 digest has 32 bytes, so 64 nibbles: no higher
/// difficulty can ever be met, and a work item demanding one is malformed.
pub const MAX_DIFFICULTY: i32 = 64;

/// Whether a work item is usable by the search: its challenge is
/// well-formed hex that fits the preimage buffer, and its difficulty does
/// not exceed the digest's nibble count.
pub open spec fn spec_valid_work(t: Ticker) -> bool {
    &&& is_hex_str(t.challenge@)
    &&& t.challenge@.len() <= 2 * MAX_CHALLENGE_BYTES
    &&& t.difficulty <= MAX_DIFFICULTY
}

/// Decides whether a work item is usable by the search.
pub fn valid_work(t: &Ticker) -> (r: bool)
    ensures
        r == spec_valid_work(*t),
{
    if t.difficulty > MAX_DIFFICULTY {
        return false;
    }
    decode_challenge(t.challenge.as_str()).is_some()
}

/// Process-lifetime counters of submission outcomes.
#[derive(Clone, Debug)]
pub struct Stats {
    pub accepted: i64,
    pub rejected: i64,
}

impl Default for Stats {
    fn default() -> (s: Stats)
        ensures
            s.accepted == 0,
            s.rejected == 0,
    {
        Stats { accepted: 0, rejected: 0 }
    }
}

/// Whether a refresh with `candidate` raises a "new job" event when the
/// current challenge is `current`: only a present candidate with a
/// different challenge does.
pub open spec fn refresh_event(current: Seq<char>, candidate: Option<Seq<char>>) -> bool {
    match candidate {
        None => false,
        Some(c) => c != current,
    }
}

/// The challenge held after a refresh with `candidate`.
pub open spec fn refresh_challenge(current: Seq<char>, candidate: Option<Seq<char>>) -> Seq<char> {
    match candidate {
        None => current,
        Some(c) => c,
    }
}

/// The challenge a refresh candidate offers. A missing candidate (a failed
/// fetch) and a malformed one (challenge not hex, challenge too long for
/// the preimage buffer, difficulty beyond the digest's nibbles) offer
/// nothing: both drop the refresh and keep the previous work item.
pub open spec fn candidate_challenge(candidate: Option<Ticker>) -> Option<Seq<char>> {
    match candidate {
        None => None,
        Some(c) => if spec_valid_work(c) {
            Some(c.challenge@)
        } else {
            None
        },
    }
}

/// One refresh of the work state. A missing candidate, a malformed one,
/// and one whose challenge equals the current one leave the state
/// untouched; a valid candidate with a changed challenge replaces the job
/// wholesale. The result says whether a "new job" event is to be raised.
pub fn update_work(current: &mut Ticker, candidate: Option<Ticker>) -> (changed: bool)
    ensures
        changed == refresh_event(old(current).challenge@, candidate_challenge(candidate)),
        !changed ==> *final(current) == *old(current),
        changed ==> (candidate matches Some(c) && *final(current) == c && spec_valid_work(c)),
        final(current).challenge@ == refresh_challenge(
            old(current).challenge@,
            candidate_challenge(candidate),
        ),
{
    match candidate {
        None => false,
        Some(c) => {
            if !valid_work(&c) {
                false
            } else if c.challenge == current.challenge {
                false
            } else {
                *current = c;
                true
            }
        },
    }
}

/// One submission outcome folded into the counters. Status 201 is the sole
/// acceptance signal; any other status is a rejection; a transport failure
/// (no status at all) changes neither counter. A refresh is owed after
/// every outcome, so the result is always true.
pub fn submit_work(stats: &mut Stats, status: Option<u16>) -> (refresh: bool)
    requires
        (status matches Some(code) && code == 201) ==> old(stats).accepted < i64::MAX,
        (status matches Some(code) && code != 201) ==> old(stats).rejected < i64::MAX,
    ensures
        refresh,
        match status {
            Some(code) => if code == 201 {
                final(stats).accepted == old(stats).accepted + 1 && final(stats).rejected == old(
                    stats,
                ).rejected
            } else {
                final(stats).rejected == old(stats).rejected + 1 && final(stats).accepted == old(
                    stats,
                ).accepted
            },
            None => *final(stats) == *old(stats),
        },
{
    match status {
        Some(code) => {
            if code == 201 {
                stats.accepted = stats.accepted + 1;
            } else {
                stats.rejected = stats.rejected + 1;
            }
        },
        None => {},
    }
    true
}

/// The challenge held after a whole sequence of refreshes.
pub open spec fn run_refreshes(current: Seq<char>, candidates: Seq<Option<Seq<char>>>) -> Seq<char>
    decreases candidates.len(),
{
    if candidates.len() == 0 {
        current
    } else {
        run_refreshes(refresh_challenge(current, candidates[0]), candidates.skip(1))
    }
}

/// How many "new job" events a sequence of refreshes raises.
pub open spec fn count_events(current: Seq<char>, candidates: Seq<Option<Seq<char>>>) -> nat
    decreases candidates.len(),
{
    if candidates.len() == 0 {
        0
    } else {
        (if refresh_event(current, candidates[0]) {
            1nat
        } else {
            0nat
        }) + count_events(refresh_challenge(current, candidates[0]), candidates.skip(1))
    }
}

/// How many refreshes in a sequence actually change the held challenge.
pub open spec fn count_challenge_changes(
    current: Seq<char>,
    candidates: Seq<Option<Seq<char>>>,
) -> nat
    decreases candidates.len(),
{
    if candidates.len() == 0 {
        0
    } else {
        (if refresh_challenge(current, candidates[0]) != current {
            1nat
        } else {
            0nat
        }) + count_challenge_changes(refresh_challenge(current, candidates[0]), candidates.skip(1))
    }
}

/// A single refresh raises an event exactly when it changes the challenge.
pub proof fn lemma_event_iff_challenge_changes(
    current: Seq<char>,
    candidate: Option<Seq<char>>,
)
    ensures
        refresh_event(current, candidate) <==> refresh_challenge(current, candidate) != current,
{
}

/// Over any sequence of refresh candidates, the number of "new job" events
/// equals the number of refreshes that change the held challenge — not the
/// number of refresh calls.
pub proof fn lemma_event_count_is_change_count(
    current: Seq<char>,
    candidates: Seq<Option<Seq<char>>>,
)
    ensures
        count_events(current, candidates) == count_challenge_changes(current, candidates),
    decreases candidates.len(),
{
    if candidates.len() > 0 {
        lemma_event_count_is_change_count(
            refresh_challenge(current, candidates[0]),
            candidates.skip(1),
        );
    }
}

/// When every candidate in a sequence carries one and the same challenge,
/// at most the first refresh raises an event: none when it already equals
/// the current challenge, exactly one otherwise.
pub proof fn lemma_repeated_challenge_one_event(
    current: Seq<char>,
    candidates: Seq<Option<Seq<char>>>,
    c: Seq<char>,
)
    requires
        forall|i: int| 0 <= i < candidates.len() ==> candidates[i] == Some(c),
    ensures
        count_events(current, candidates) == if candidates.len() == 0 || c == current {
            0nat
        } else {
            1nat
        },
    decreases candidates.len(),
{
    if candidates.len() > 0 {
        assert(candidates[0] == Some(c));
        assert(forall|i: int|
            0 <= i < candidates.skip(1).len() ==> candidates.skip(1)[i] == candidates[i + 1]);
        lemma_repeated_challenge_one_event(c, candidates.skip(1), c);
    }
}

} // verus!
