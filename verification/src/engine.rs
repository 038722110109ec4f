//! The search step: build a candidate preimage from the challenge, an index
//! prefix and fresh randomness, hash it, and keep it when it meets the
//! difficulty. One batch sweeps a contiguous range of prefixes.

use vstd::prelude::*;

use crate::api::Ticker;
use crate::difficulty::{passes, spec_passes};
use crate::digest::{sha256d, sha256d_of};
use crate::wire::{hex_decode, hex_encode, is_hex_str, spec_hex_decode, spec_hex_encode};

verus! {

/// A candidate that satisfied the difficulty: the nonce and digest in wire
/// form, where to deposit it, the job it answers, and the raw (reversed)
/// challenge bytes it was built from.
#[derive(Debug)]
pub struct Solution {
    pub nonce: String,
    pub hash: String,
    pub location: String,
    pub token_id: String,
    pub challenge: Vec<u8>,
}

/// The preimage buffer is bounded to 64 bytes; 8 are taken by the nonce.
pub const MAX_CHALLENGE_BYTES: usize = 56;

/// Relies on `rand::random`: four bytes from the thread-local generator.
/// Nothing is promised of their values.
#[verifier::external_body]
fn random_bytes() -> (r: Vec<u8>)
    ensures
        r@.len() == 4,
{
    rand::random::<[u8; 4]>().to_vec()
}

/// An exact copy of a byte buffer.
fn copy_bytes(src: &Vec<u8>) -> (r: Vec<u8>)
    ensures
        r@ == src@,
{
    let mut r: Vec<u8> = Vec::new();
    let mut i: usize = 0;
    while i < src.len()
        invariant
            i <= src@.len(),
            r@ =~= src@.take(i as int),
        decreases src@.len() - i,
    {
        r.push(src[i]);
        i += 1;
    }
    proof {
        assert(src@.take(src@.len() as int) =~= src@);
    }
    r
}

/// Decodes a hex challenge and reverses its byte order, normalizing the
/// big-endian wire form to the little-endian preimage convention.
/// `None` exactly when the challenge is not well-formed hex or is too long
/// for the preimage buffer: such a work item is rejected, never searched.
pub fn decode_challenge(challenge: &str) -> (r: Option<Vec<u8>>)
    ensures
        r is Some <==> is_hex_str(challenge@) && challenge@.len() <= 2 * MAX_CHALLENGE_BYTES,
        r is Some ==> r->0@ == spec_hex_decode(challenge@).reverse() && r->0@.len()
            <= MAX_CHALLENGE_BYTES,
{
    let bytes = match hex_decode(challenge) {
        Some(b) => b,
        None => {
            return None;
        },
    };
    if bytes.len() > MAX_CHALLENGE_BYTES {
        return None;
    }
    let mut rev: Vec<u8> = Vec::new();
    let mut i: usize = bytes.len();
    while i > 0
        invariant
            i <= bytes@.len(),
            rev@.len() == bytes@.len() - i,
            forall|j: int| 0 <= j < rev@.len() ==> rev@[j] == bytes@[bytes@.len() - 1 - j],
        decreases i,
    {
        i -= 1;
        rev.push(bytes[i]);
    }
    proof {
        assert(rev@ =~= spec_hex_decode(challenge@).reverse());
    }
    Some(rev)
}

/// The 8-byte nonce for one attempt: the little-endian prefix then the
/// four random bytes.
pub open spec fn spec_nonce(prefix: u32, random: Seq<u8>) -> Seq<u8> {
    vstd::bytes::spec_u32_to_le_bytes(prefix) + random
}

/// The preimage hashed for one attempt: reversed challenge bytes then nonce.
pub open spec fn spec_preimage(challenge: Seq<u8>, prefix: u32, random: Seq<u8>) -> Seq<u8> {
    challenge + spec_nonce(prefix, random)
}

/// What `attempt` returns: `Some` exactly when the digest of the candidate
/// preimage meets the work item's difficulty, and then a solution whose
/// every field is determined by the snapshot and the attempt's inputs.
pub open spec fn spec_attempt_result(
    work: Ticker,
    challenge: Seq<u8>,
    prefix: u32,
    random: Seq<u8>,
    r: Option<Solution>,
) -> bool {
    let digest = sha256d_of(spec_preimage(challenge, prefix, random));
    match r {
        Some(s) => {
            &&& spec_passes(digest, work.difficulty as int)
            &&& s.nonce@ == spec_hex_encode(spec_nonce(prefix, random))
            &&& s.hash@ == spec_hex_encode(digest)
            &&& s.location == work.current_location
            &&& s.token_id == work.id
            &&& s.challenge@ == challenge
        },
        None => !spec_passes(digest, work.difficulty as int),
    }
}

/// One attempt: hash `challenge || nonce(prefix, random)` and keep the
/// candidate when it meets `work.difficulty`. The outcome is a function of
/// the arguments alone, so checking is deterministic and reproducible.
pub fn attempt(work: &Ticker, challenge_bytes: &Vec<u8>, prefix: u32, random: &Vec<u8>) -> (r:
    Option<Solution>)
    requires
        challenge_bytes@.len() <= MAX_CHALLENGE_BYTES,
        random@.len() == 4,
    ensures
        spec_attempt_result(*work, challenge_bytes@, prefix, random@, r),
{
    let mut nonce = vstd::bytes::u32_to_le_bytes(prefix);
    let mut i: usize = 0;
    while i < 4
        invariant
            random@.len() == 4,
            i <= 4,
            nonce@ =~= vstd::bytes::spec_u32_to_le_bytes(prefix) + random@.take(i as int),
        decreases 4 - i,
    {
        nonce.push(random[i]);
        i += 1;
    }
    proof {
        assert(random@.take(4) =~= random@);
        assert(nonce@ == spec_nonce(prefix, random@));
    }
    let mut preimage = copy_bytes(challenge_bytes);
    let mut j: usize = 0;
    while j < nonce.len()
        invariant
            j <= nonce@.len(),
            preimage@ =~= challenge_bytes@ + nonce@.take(j as int),
        decreases nonce@.len() - j,
    {
        preimage.push(nonce[j]);
        j += 1;
    }
    proof {
        assert(nonce@.take(nonce@.len() as int) =~= nonce@);
        assert(preimage@ == spec_preimage(challenge_bytes@, prefix, random@));
    }
    let digest = sha256d(&preimage);
    if passes(&digest, work.difficulty) {
        Some(
            Solution {
                nonce: hex_encode(&nonce),
                hash: hex_encode(&digest),
                location: work.current_location.clone(),
                token_id: work.id.clone(),
                challenge: copy_bytes(challenge_bytes),
            },
        )
    } else {
        None
    }
}

/// Checking is deterministic: for a fixed preimage — fixed work snapshot,
/// challenge bytes, prefix and random bytes — any two outcomes that satisfy
/// the attempt contract agree, both on whether the candidate passes and on
/// every field of the solution.
pub proof fn lemma_attempt_deterministic(
    work: Ticker,
    challenge: Seq<u8>,
    prefix: u32,
    random: Seq<u8>,
    r1: Option<Solution>,
    r2: Option<Solution>,
)
    requires
        spec_attempt_result(work, challenge, prefix, random, r1),
        spec_attempt_result(work, challenge, prefix, random, r2),
    ensures
        r1 is Some <==> r2 is Some,
        r1 is Some ==> {
            &&& r1->0.nonce@ == r2->0.nonce@
            &&& r1->0.hash@ == r2->0.hash@
            &&& r1->0.location@ == r2->0.location@
            &&& r1->0.token_id@ == r2->0.token_id@
            &&& r1->0.challenge@ == r2->0.challenge@
        },
{
}

/// Whether `s` could have been found for `work` over `challenge` with a
/// prefix in `[start, start + count)`.
pub open spec fn found_in_range(
    s: Solution,
    work: Ticker,
    challenge: Seq<u8>,
    start: u32,
    count: u32,
) -> bool {
    exists|prefix: u32, random: Seq<u8>|
        {
            &&& start <= prefix < start + count
            &&& random.len() == 4
            &&& #[trigger] spec_attempt_result(work, challenge, prefix, random, Some(s))
        }
}

/// One batch: an attempt per prefix in `[start, start + count)`, each with
/// fresh randomness, collecting every candidate that met the difficulty.
/// With a non-positive difficulty every attempt passes, so the batch
/// returns exactly one solution per attempt.
pub fn search_batch(work: &Ticker, challenge_bytes: &Vec<u8>, start: u32, count: u32) -> (r: Vec<
    Solution,
>)
    requires
        challenge_bytes@.len() <= MAX_CHALLENGE_BYTES,
        start + count <= u32::MAX,
    ensures
        r@.len() <= count,
        work.difficulty <= 0 ==> r@.len() == count,
        forall|k: int|
            0 <= k < r@.len() ==> found_in_range(#[trigger] r@[k], *work, challenge_bytes@, start, count),
{
    let mut out: Vec<Solution> = Vec::new();
    let mut done: u32 = 0;
    while done < count
        invariant
            challenge_bytes@.len() <= MAX_CHALLENGE_BYTES,
            start + count <= u32::MAX,
            done <= count,
            out@.len() <= done,
            work.difficulty <= 0 ==> out@.len() == done,
            forall|k: int|
                0 <= k < out@.len() ==> found_in_range(
                    #[trigger] out@[k],
                    *work,
                    challenge_bytes@,
                    start,
                    count,
                ),
        decreases count - done,
    {
        let prefix = start + done;
        let random = random_bytes();
        match attempt(work, challenge_bytes, prefix, &random) {
            Some(s) => {
                out.push(s);
            },
            None => {},
        }
        done += 1;
    }
    out
}

} // verus!
