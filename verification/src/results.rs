//! Assembly of the flat result sequence.
//!
//! Analysis reports one `(pitch, confidence, tau)` triple per frame, and the
//! sole output artifact is the flat concatenation of those triples in frame
//! order. The flattening is verified here over any scalar element type; the
//! caller converts its numeric values to and from that type at the boundary.

use vstd::prelude::*;

verus! {

/// Concatenate per-frame triples into the flat result sequence: three entries
/// per triple, in frame order, with each triple's fields adjacent and in
/// field order.
pub fn flatten_triples<T: Copy>(triples: &Vec<(T, T, T)>) -> (flat: Vec<T>)
    ensures
        flat@.len() == 3 * triples@.len(),
        forall|i: int|
            0 <= i < triples@.len() ==> #[trigger] triples@[i] == (
                flat@[3 * i],
                flat@[3 * i + 1],
                flat@[3 * i + 2],
            ),
{
    let mut flat: Vec<T> = Vec::new();
    let mut i: usize = 0;
    while i < triples.len()
        invariant
            i <= triples@.len(),
            flat@.len() == 3 * i,
            forall|j: int|
                0 <= j < i ==> #[trigger] triples@[j] == (
                    flat@[3 * j],
                    flat@[3 * j + 1],
                    flat@[3 * j + 2],
                ),
        decreases triples@.len() - i,
    {
        let triple = triples[i];
        flat.push(triple.0);
        flat.push(triple.1);
        flat.push(triple.2);
        i = i + 1;
    }
    flat
}

} // verus!
