//! Frame scheduling.
//!
//! Analysis reads frames of `frame_size` samples whose start offsets are
//! consecutive multiples of `hop_size`, as long as a whole frame fits in the
//! buffer. The functions here fix, once and for all, how many frames a buffer
//! of `audio_len` samples yields and where each one starts; the analysis
//! driver and any caller pre-sizing result storage both go by them.

use vstd::arithmetic::div_mod::{lemma_div_nonincreasing, lemma_fundamental_div_mod, lemma_mod_bound};
use vstd::arithmetic::mul::lemma_mul_inequality;
use vstd::prelude::*;

verus! {

/// Number of frames of `frame_size` samples that a buffer of `audio_len`
/// samples yields when consecutive frames start `hop_size` samples apart:
/// zero when no whole frame fits, otherwise one frame for every multiple of
/// `hop_size` at which a whole frame still fits.
pub open spec fn spec_frame_count(audio_len: int, frame_size: int, hop_size: int) -> int {
    if audio_len < frame_size {
        0
    } else {
        (audio_len - frame_size) / hop_size + 1
    }
}

/// How many frames the analysis of a buffer of `audio_len` samples produces.
///
/// A buffer shorter than one frame yields no frames at all; this is a defined
/// outcome, not an error. Zero-sized frames or hops are malformed parameters
/// and are excluded up front (a zero hop would slide the window nowhere).
pub fn get_frame_count(audio_len: usize, frame_size: usize, hop_size: usize) -> (count: usize)
    requires
        frame_size >= 1,
        hop_size >= 1,
    ensures
        count == spec_frame_count(audio_len as int, frame_size as int, hop_size as int),
        audio_len < frame_size ==> count == 0,
        count <= audio_len,
{
    if audio_len < frame_size {
        0
    } else {
        let span: usize = audio_len - frame_size;
        proof {
            lemma_div_nonincreasing(span as int, hop_size as int);
        }
        span / hop_size + 1
    }
}

/// Every start offset of a frame that the count admits leaves room for a
/// whole frame before the end of the buffer.
proof fn lemma_start_in_range(audio_len: int, frame_size: int, hop_size: int, k: int)
    requires
        frame_size >= 1,
        hop_size >= 1,
        0 <= k < spec_frame_count(audio_len, frame_size, hop_size),
    ensures
        k * hop_size + frame_size <= audio_len,
{
    let span = audio_len - frame_size;
    lemma_fundamental_div_mod(span, hop_size);
    lemma_mod_bound(span, hop_size);
    lemma_mul_inequality(k, span / hop_size, hop_size);
}

/// The start offsets of every frame the analysis will read, in frame order:
/// offset `i * hop_size` for each frame index `i`, exactly as many as
/// [`get_frame_count`] reports, and each leaving a whole frame inside the
/// buffer.
pub fn frame_starts(audio_len: usize, frame_size: usize, hop_size: usize) -> (starts: Vec<usize>)
    requires
        frame_size >= 1,
        hop_size >= 1,
    ensures
        starts@.len() == spec_frame_count(audio_len as int, frame_size as int, hop_size as int),
        forall|i: int| 0 <= i < starts@.len() ==> starts@[i] == i * hop_size,
        forall|i: int| 0 <= i < starts@.len() ==> starts@[i] + frame_size <= audio_len,
        audio_len < frame_size ==> starts@.len() == 0,
{
    let count: usize = get_frame_count(audio_len, frame_size, hop_size);
    let mut starts: Vec<usize> = Vec::new();
    let mut k: usize = 0;
    while k < count
        invariant
            k <= count,
            count == spec_frame_count(audio_len as int, frame_size as int, hop_size as int),
            frame_size >= 1,
            hop_size >= 1,
            starts@.len() == k,
            forall|i: int| 0 <= i < k ==> starts@[i] == i * hop_size,
            forall|i: int| 0 <= i < k ==> starts@[i] + frame_size <= audio_len,
        decreases count - k,
    {
        proof {
            lemma_start_in_range(audio_len as int, frame_size as int, hop_size as int, k as int);
        }
        let start: usize = k * hop_size;
        starts.push(start);
        k = k + 1;
    }
    starts
}

/// Length of the flat result sequence for a buffer of `audio_len` samples:
/// each frame contributes exactly one `(pitch, confidence, tau)` triple, so a
/// caller pre-sizes its receiving buffer to three entries per frame.
pub fn result_len(audio_len: usize, frame_size: usize, hop_size: usize) -> (n: usize)
    requires
        frame_size >= 1,
        hop_size >= 1,
        3 * audio_len <= usize::MAX,
    ensures
        n == 3 * spec_frame_count(audio_len as int, frame_size as int, hop_size as int),
{
    let count: usize = get_frame_count(audio_len, frame_size, hop_size);
    3 * count
}

} // verus!
