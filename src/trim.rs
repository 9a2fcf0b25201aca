//! Removal of the zero-filled capacity that trails the encoder's output.
//!
//! The encoder is handed a worst-case-sized buffer and fills only a prefix of
//! it. Rather than inspecting every byte, the scan probes one byte in every
//! `stride` bytes, walking backward from the last index. At the first probe
//! that holds a nonzero byte it cuts the buffer one stride higher, so the
//! probed byte and the unprobed bytes of its window stay, and fewer than
//! `stride` padding bytes remain behind the data.
use vstd::prelude::*;
use vstd::arithmetic::div_mod::lemma_fundamental_div_mod_converse;

verus! {

/// Number of bytes between two probes: about ten milliseconds of audio at
/// `sample_rate_hz`, and never less than one.
pub open spec fn stride_of(sample_rate_hz: u32) -> int {
    if sample_rate_hz / 100 == 0 {
        1
    } else {
        (sample_rate_hz / 100) as int
    }
}

/// `i` is one of the indices that the backward scan of a buffer of `len`
/// bytes visits: it lies a whole number of strides below the last index and
/// is above zero (index zero is never inspected).
pub open spec fn is_probe(len: int, stride: int, i: int) -> bool {
    &&& 0 < i < len
    &&& (len - 1 - i) % stride == 0
}

/// `j` is where the scan stops: a probe holding a nonzero byte, with every
/// probe above it holding zero.
pub open spec fn is_end_of_data(b: Seq<u8>, stride: int, j: int) -> bool {
    &&& is_probe(b.len() as int, stride, j)
    &&& b[j] > 0
    &&& forall|i: int| #[trigger] is_probe(b.len() as int, stride, i) && j < i ==> b[i] == 0
}

/// The scan finds a nonzero probe somewhere in `b`.
pub open spec fn has_end_of_data(b: Seq<u8>, stride: int) -> bool {
    exists|j: int| is_end_of_data(b, stride, j)
}

/// The index at which the scan stops (meaningful when `has_end_of_data`).
pub open spec fn end_of_data(b: Seq<u8>, stride: int) -> int {
    choose|j: int| is_end_of_data(b, stride, j)
}

/// Where trimming cuts once the scan stopped at `j`: one stride above the
/// probe, so the probed byte and the unprobed bytes behind it stay, but never
/// past the end of `b`.
pub open spec fn cut_index(b: Seq<u8>, stride: int, j: int) -> int {
    if j + stride < b.len() {
        j + stride
    } else {
        b.len() as int
    }
}

/// What trimming leaves of `b`: the bytes before the cut above the index
/// where the scan stops, or all of `b` when no probe holds a nonzero byte.
pub open spec fn trimmed(b: Seq<u8>, stride: int) -> Seq<u8> {
    if has_end_of_data(b, stride) {
        b.subrange(0, cut_index(b, stride, end_of_data(b, stride)))
    } else {
        b
    }
}

/// At most one index satisfies `is_end_of_data`.
pub proof fn lemma_end_of_data_unique(b: Seq<u8>, stride: int, j1: int, j2: int)
    requires
        is_end_of_data(b, stride, j1),
        is_end_of_data(b, stride, j2),
    ensures
        j1 == j2,
{
    if j1 < j2 {
        assert(is_probe(b.len() as int, stride, j2));
    } else if j2 < j1 {
        assert(is_probe(b.len() as int, stride, j1));
    }
}

/// No index strictly between two neighbouring probes is a probe.
proof fn lemma_no_probe_between(len: int, stride: int, idx: int, k: int)
    requires
        stride > 0,
        len - 1 - idx == k * stride,
    ensures
        forall|i: int| idx - stride < i < idx ==> !#[trigger] is_probe(len, stride, i),
{
    assert forall|i: int| idx - stride < i < idx implies !#[trigger] is_probe(len, stride, i) by {
        let d = idx - i;
        assert(len - 1 - i == k * stride + d);
        lemma_fundamental_div_mod_converse(len - 1 - i, stride, k, d);
    }
}

/// Trimming a buffer whose every byte is zero inspects nothing out of range
/// and hands the buffer back unchanged.
pub proof fn lemma_trim_all_zero(b: Seq<u8>, sample_rate_hz: u32)
    requires
        forall|i: int| 0 <= i < b.len() ==> b[i] == 0,
    ensures
        !has_end_of_data(b, stride_of(sample_rate_hz)),
        trimmed(b, stride_of(sample_rate_hz)) == b,
{
    let st = stride_of(sample_rate_hz);
    if has_end_of_data(b, st) {
        let j = end_of_data(b, st);
        assert(b[j] == 0);
    }
}

/// Where the scan stops at a probe `p`, trimming keeps exactly the bytes
/// before `min(p + stride, len)`.
proof fn lemma_trimmed_at(b: Seq<u8>, stride: int, p: int)
    requires
        is_end_of_data(b, stride, p),
    ensures
        has_end_of_data(b, stride),
        trimmed(b, stride) == b.subrange(0, cut_index(b, stride, p)),
{
    lemma_end_of_data_unique(b, stride, p, end_of_data(b, stride));
}

/// Trimming again changes nothing, except where trimming cut the buffer
/// short, the last byte it kept is zero, and the kept prefix still holds a
/// nonzero byte at a probe of its own scan: there a second pass cuts further.
pub proof fn lemma_trim_idempotent(b: Seq<u8>, sample_rate_hz: u32)
    requires
        ({
            let t = trimmed(b, stride_of(sample_rate_hz));
            t == b || t[t.len() - 1] > 0 || !has_end_of_data(t, stride_of(sample_rate_hz))
        }),
    ensures
        trimmed(trimmed(b, stride_of(sample_rate_hz)), stride_of(sample_rate_hz)) == trimmed(
            b,
            stride_of(sample_rate_hz),
        ),
{
    let st = stride_of(sample_rate_hz);
    let t = trimmed(b, st);
    if t != b && has_end_of_data(t, st) {
        // The scan of `b` found data, so `t` is not empty and its last byte is nonzero.
        let c = t.len() as int;
        if c - 1 > 0 {
            lemma_fundamental_div_mod_converse(0, st, 0, 0);
            assert(is_probe(c, st, c - 1));
            assert(is_end_of_data(t, st, c - 1));
            lemma_trimmed_at(t, st, c - 1);
            assert(t.subrange(0, c) =~= t);
        } else {
            let j = end_of_data(t, st);
            assert(is_end_of_data(t, st, j));
        }
    }
}

/// A buffer whose only nonzero byte sits at index `i` keeps a length in
/// `(i, i + stride]` after trimming, wherever the scan probes `i` or the
/// buffer ends within a stride of it. Elsewhere the scan skips the byte and
/// the whole buffer stays.
pub proof fn lemma_trim_single_nonzero(b: Seq<u8>, sample_rate_hz: u32, i: int)
    requires
        0 <= i < b.len(),
        b[i] > 0,
        forall|k: int| 0 <= k < b.len() && k != i ==> b[k] == 0,
        is_probe(b.len() as int, stride_of(sample_rate_hz), i) || b.len() <= i + stride_of(
            sample_rate_hz,
        ),
    ensures
        i < trimmed(b, stride_of(sample_rate_hz)).len() <= i + stride_of(sample_rate_hz),
{
    let st = stride_of(sample_rate_hz);
    if is_probe(b.len() as int, st, i) {
        assert(is_end_of_data(b, st, i));
        lemma_trimmed_at(b, st, i);
    } else if has_end_of_data(b, st) {
        let j = end_of_data(b, st);
        assert(b[j] > 0);
    }
}

/// No data is lost: when `m` is the last nonzero byte of `b` and the probe
/// `p` of the stride window holding `m` is nonzero, trimming keeps a prefix
/// of `b` that ends after `m`, with fewer than `stride` bytes past it.
pub proof fn lemma_trim_keeps_data(b: Seq<u8>, sample_rate_hz: u32, m: int, p: int)
    requires
        0 <= m < b.len(),
        b[m] > 0,
        forall|k: int| m < k < b.len() ==> b[k] == 0,
        is_probe(b.len() as int, stride_of(sample_rate_hz), p),
        p <= m < p + stride_of(sample_rate_hz),
        b[p] > 0,
    ensures
        trimmed(b, stride_of(sample_rate_hz)) == b.subrange(
            0,
            trimmed(b, stride_of(sample_rate_hz)).len() as int,
        ),
        m < trimmed(b, stride_of(sample_rate_hz)).len(),
        trimmed(b, stride_of(sample_rate_hz)).len() <= m + stride_of(sample_rate_hz),
        trimmed(b, stride_of(sample_rate_hz)).len() <= b.len(),
{
    let st = stride_of(sample_rate_hz);
    let len = b.len() as int;
    vstd::arithmetic::div_mod::lemma_fundamental_div_mod(len - 1 - p, st);
    let q = (len - 1 - p) / st;
    assert((len - 1 - p) == st * q);
    assert(len - 1 - (p + st) == (q - 1) * st) by (nonlinear_arith)
        requires
            len - 1 - p == st * q,
    ;
    lemma_no_probe_between(len, st, p + st, q - 1);
    assert forall|i: int| #[trigger] is_probe(len, st, i) && p < i implies b[i] == 0 by {
        if i < p + st {
            assert(!is_probe(len, st, i));
        }
    }
    assert(is_end_of_data(b, st, p));
    lemma_trimmed_at(b, st, p);
}

/// Computes `stride_of(sample_rate_hz)`.
pub fn stride_for_rate(sample_rate_hz: u32) -> (r: usize)
    ensures
        r as int == stride_of(sample_rate_hz),
        r >= 1,
{
    let per_10ms = sample_rate_hz / 100;
    if per_10ms == 0 {
        1
    } else {
        per_10ms as usize
    }
}

/// Scans `buffer` backward from its last index in steps of
/// `stride_of(sample_rate_hz)` and returns the first probe holding a nonzero
/// byte, or `None` when every probe holds zero (an empty buffer included).
pub fn find_end_of_data(buffer: &Vec<u8>, sample_rate_hz: u32) -> (r: Option<usize>)
    ensures
        match r {
            Some(j) => is_end_of_data(buffer@, stride_of(sample_rate_hz), j as int),
            None => !has_end_of_data(buffer@, stride_of(sample_rate_hz)),
        },
{
    let stride = stride_for_rate(sample_rate_hz);
    let ghost st = stride as int;
    let ghost len = buffer.len() as int;
    if buffer.len() == 0 {
        return None;
    }
    let mut idx: usize = buffer.len() - 1;
    let ghost mut k: int = 0;
    loop
        invariant
            st == stride_of(sample_rate_hz),
            st == stride as int,
            st >= 1,
            len == buffer@.len(),
            idx < len,
            k >= 0,
            len - 1 - idx == k * st,
            forall|i: int| #[trigger] is_probe(len, st, i) && idx < i ==> buffer@[i] == 0,
        decreases idx,
    {
        if idx == 0 {
            return None;
        }
        if buffer[idx] > 0 {
            proof {
                lemma_fundamental_div_mod_converse(len - 1 - idx, st, k, 0);
            }
            return Some(idx);
        }
        proof {
            lemma_no_probe_between(len, st, idx as int, k);
        }
        if idx < stride {
            return None;
        }
        idx = idx - stride;
        proof {
            k = k + 1;
            assert(len - 1 - idx == k * st) by (nonlinear_arith)
                requires
                    len - 1 - (idx + st) == (k - 1) * st,
            ;
        }
    }
}

/// Cuts `buffer` one stride above `j`, the index where its scan stops, or
/// at its end if that comes first.
pub fn cut_behind(buffer: Vec<u8>, sample_rate_hz: u32, j: usize) -> (r: Vec<u8>)
    requires
        is_end_of_data(buffer@, stride_of(sample_rate_hz), j as int),
    ensures
        r@ == trimmed(buffer@, stride_of(sample_rate_hz)),
        j < r@.len() <= buffer@.len(),
{
    let mut buffer = buffer;
    let stride = stride_for_rate(sample_rate_hz);
    proof {
        lemma_trimmed_at(buffer@, stride as int, j as int);
    }
    if buffer.len() - j > stride {
        buffer.truncate(j + stride);
    }
    buffer
}

/// Cuts `buffer` one stride above the index where the backward scan stops,
/// dropping the zero-filled capacity behind the encoded data while keeping
/// the probed byte and the unprobed bytes of its window. When no probe holds
/// a nonzero byte the buffer comes back unchanged.
pub fn trim_trailing_padding(buffer: Vec<u8>, sample_rate_hz: u32) -> (r: Vec<u8>)
    ensures
        r@ == trimmed(buffer@, stride_of(sample_rate_hz)),
        r@ == buffer@.subrange(0, r@.len() as int),
        has_end_of_data(buffer@, stride_of(sample_rate_hz)) ==> end_of_data(
            buffer@,
            stride_of(sample_rate_hz),
        ) < r@.len(),
{
    match find_end_of_data(&buffer, sample_rate_hz) {
        Some(j) => {
            proof {
                lemma_trimmed_at(buffer@, stride_of(sample_rate_hz), j as int);
            }
            cut_behind(buffer, sample_rate_hz, j)
        },
        None => {
            proof {
                assert(buffer@.subrange(0, buffer@.len() as int) =~= buffer@);
            }
            buffer
        },
    }
}

} // verus!
