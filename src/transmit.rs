//! Splitting a newline-terminated request into the segments written to the
//! device.
use vstd::prelude::*;
use crate::error::Error;

verus! {

/// The largest chunk the device accepts in one write.
pub const CHUNK_LENGTH_MAX: usize = 127;

/// The chunk length asked for.
pub const CHUNK_LENGTH_I: usize = 30;

/// The device's nominal segment budget, in bytes.
pub const SEGMENT_BUDGET: usize = 250;

/// The chunk length used: the one asked for, capped at the device maximum.
pub open spec fn chunk_len_spec(requested: nat, max: nat) -> nat {
    if requested < max {
        requested
    } else {
        max
    }
}

/// The segment length: the largest multiple of `chunk` within `budget`.
pub open spec fn segment_len_spec(chunk: nat, budget: nat) -> nat
    recommends
        chunk > 0,
{
    (budget / chunk) * chunk
}

/// The chunk length for a requested length and a device maximum.
pub fn chunk_length_for(requested: usize, max: usize) -> (r: usize)
    ensures
        r == chunk_len_spec(requested as nat, max as nat),
{
    if requested < max {
        requested
    } else {
        max
    }
}

/// The segment length for a chunk length and a segment budget.
pub fn segment_length_for(chunk: usize, budget: usize) -> (r: usize)
    requires
        chunk > 0,
    ensures
        r == segment_len_spec(chunk as nat, budget as nat),
{
    proof {
        vstd::arithmetic::div_mod::lemma_fundamental_div_mod(budget as int, chunk as int);
        assert((budget / chunk) * chunk <= budget) by (nonlinear_arith)
            requires
                budget == chunk * (budget / chunk) + budget % chunk,
                budget % chunk >= 0,
        ;
    }
    (budget / chunk) * chunk
}

/// The chunk length of this device.
pub fn chunk_length() -> (r: usize)
    ensures
        r == chunk_len_spec(CHUNK_LENGTH_I as nat, CHUNK_LENGTH_MAX as nat),
        r == 30,
{
    chunk_length_for(CHUNK_LENGTH_I, CHUNK_LENGTH_MAX)
}

/// The segment length of this device.
pub fn segment_length() -> (r: usize)
    ensures
        r == segment_len_spec(
            chunk_len_spec(CHUNK_LENGTH_I as nat, CHUNK_LENGTH_MAX as nat),
            SEGMENT_BUDGET as nat,
        ),
        r == 240,
{
    segment_length_for(chunk_length(), SEGMENT_BUDGET)
}

/// For any requested chunk length, device maximum and segment budget, the
/// chunk length never exceeds the device maximum, and the segment length is a
/// multiple of the chunk length, within the budget, and no smaller than any
/// other multiple within the budget.
pub proof fn lemma_segment_length(requested: nat, max: nat, budget: nat)
    requires
        requested > 0,
        max > 0,
    ensures
        chunk_len_spec(requested, max) <= max,
        chunk_len_spec(requested, max) <= requested,
        segment_len_spec(chunk_len_spec(requested, max), budget) % chunk_len_spec(requested, max)
            == 0,
        segment_len_spec(chunk_len_spec(requested, max), budget) <= budget,
        budget < segment_len_spec(chunk_len_spec(requested, max), budget) + chunk_len_spec(
            requested,
            max,
        ),
        forall|m: nat|
            #[trigger] (m * chunk_len_spec(requested, max)) <= budget ==> m * chunk_len_spec(
                requested,
                max,
            ) <= segment_len_spec(chunk_len_spec(requested, max), budget),
{
    let c = chunk_len_spec(requested, max);
    let s = segment_len_spec(c, budget);
    let q = budget / c;
    vstd::arithmetic::div_mod::lemma_fundamental_div_mod(budget as int, c as int);
    vstd::arithmetic::div_mod::lemma_mod_multiples_basic(q as int, c as int);
    assert(s % c == 0);
    assert forall|m: nat| #[trigger] (m * c) <= budget implies m * c <= s by {
        if m > q {
            vstd::arithmetic::mul::lemma_mul_inequality((q + 1) as int, m as int, c as int);
            assert((q + 1) * c == q * c + c) by (nonlinear_arith);
        } else {
            vstd::arithmetic::mul::lemma_mul_inequality(m as int, q as int, c as int);
        }
    }
}

/// The `i`th segment of a request of `len` bytes: its start and its end.
pub open spec fn segment_spec(len: nat, seg: nat, i: nat) -> (usize, usize) {
    let start = i * seg;
    let end = if start + seg <= len {
        start + seg
    } else {
        len
    };
    (start as usize, end as usize)
}

/// Number of segments of a request of `len` bytes.
pub open spec fn segment_count(len: nat, seg: nat) -> nat
    recommends
        seg > 0,
{
    if len % seg == 0 {
        len / seg
    } else {
        len / seg + 1
    }
}

proof fn lemma_last_segment(len: nat, k: nat)
    requires
        k * 240 < len <= k * 240 + 240,
    ensures
        segment_count(len, 240) == k + 1,
{
    vstd::arithmetic::div_mod::lemma_fundamental_div_mod(len as int, 240);
    let q = len / 240;
    let r = len % 240;
    if q < k {
        vstd::arithmetic::mul::lemma_mul_inequality((q + 1) as int, k as int, 240);
        assert((q + 1) * 240 == q * 240 + 240) by (nonlinear_arith);
    } else if q > k + 1 {
        vstd::arithmetic::mul::lemma_mul_inequality((k + 2) as int, q as int, 240);
        assert((k + 2) * 240 == k * 240 + 480) by (nonlinear_arith);
    } else if q == k + 1 {
        assert((k + 1) * 240 == k * 240 + 240) by (nonlinear_arith);
    }
}

/// Whether `bytes` is a request: non-empty and ending in a newline.
pub open spec fn is_request(bytes: Seq<u8>) -> bool {
    bytes.len() > 0 && bytes.last() == 10u8
}

/// The segments that a request is written in, in order: consecutive pieces
/// of `segment_length()` bytes, the last one possibly shorter. A buffer that
/// does not end in a newline is refused, and nothing is to be written.
pub fn plan_segments(bytes: &[u8]) -> (r: Result<Vec<(usize, usize)>, Error>)
    ensures
        !is_request(bytes@) ==> r == Err::<Vec<(usize, usize)>, Error>(Error::InvalidRequest),
        is_request(bytes@) ==> (r matches Ok(segs) && segs@.len() == segment_count(
            bytes@.len(),
            240,
        ) && forall|i: int|
            0 <= i < segs@.len() ==> #[trigger] segs@[i] == segment_spec(bytes@.len(), 240, i as nat)),
{
    let len = bytes.len();
    if len == 0 || bytes[len - 1] != 10u8 {
        return Err(Error::InvalidRequest);
    }
    let seg = segment_length();
    let mut segs: Vec<(usize, usize)> = Vec::new();
    let mut start: usize = 0;
    while start < len
        invariant
            seg == 240,
            len == bytes@.len(),
            start <= len,
            start < len ==> start % 240 == 0,
            start < len ==> segs@.len() == start / 240,
            start == len ==> segs@.len() == segment_count(len as nat, 240),
            forall|i: int|
                0 <= i < segs@.len() ==> #[trigger] segs@[i] == segment_spec(len as nat, 240, i as nat),
        decreases len - start,
    {
        let end = if len - start > seg { start + seg } else { len };
        let ghost k = segs@.len();
        proof {
            vstd::arithmetic::div_mod::lemma_fundamental_div_mod(start as int, 240);
            assert(k * 240 == start);
        }
        segs.push((start, end));
        start = end;
        proof {
            assert(segs@[k as int] == segment_spec(len as nat, 240, k));
            if start < len {
                assert(start == (k + 1) * 240);
                vstd::arithmetic::div_mod::lemma_mod_multiples_basic((k + 1) as int, 240);
                vstd::arithmetic::div_mod::lemma_div_multiples_vanish((k + 1) as int, 240);
            } else {
                lemma_last_segment(len as nat, k);
            }
        }
    }
    Ok(segs)
}

} // verus!
