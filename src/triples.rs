use vstd::prelude::*;

verus! {

/// The values grouped by three, in order; a last group of fewer than three is
/// dropped.
pub open spec fn triples<T>(s: Seq<T>) -> Seq<[T; 3]> {
    Seq::new(s.len() / 3, |k: int| [s[3 * k], s[3 * k + 1], s[3 * k + 2]])
}

/// Groups every three consecutive values into one triple.
pub fn chunk_triples<T: Copy>(values: &Vec<T>) -> (r: Vec<[T; 3]>)
    ensures
        r@ == triples(values@),
{
    let len = values.len();
    let count = len / 3;
    let mut out: Vec<[T; 3]> = Vec::new();
    let mut k: usize = 0;
    while k < count
        invariant
            len == values@.len(),
            count == values@.len() / 3,
            k <= count,
            out@.len() == k,
            forall|j: int| 0 <= j < k ==> #[trigger] out@[j] == triples(values@)[j],
        decreases count - k,
    {
        assert(3 * k + 2 < values@.len()) by (nonlinear_arith)
            requires
                k < count,
                count == values@.len() / 3,
        ;
        let b = 3 * k;
        out.push([values[b], values[b + 1], values[b + 2]]);
        k += 1;
    }
    assert(out@ =~= triples(values@));
    out
}

} // verus!
