use vstd::prelude::*;

use crate::error::MeshError;

verus! {

/// Applies `f` to each item with its position, in order: the list of results
/// when every item succeeds, else the error of the first item that fails.
pub open spec fn collect_all<A, B>(
    items: Seq<A>,
    f: spec_fn(A, int) -> Result<B, MeshError>,
) -> Result<Seq<B>, MeshError>
    decreases items.len(),
{
    if items.len() == 0 {
        Ok(Seq::empty())
    } else {
        match collect_all(items.drop_last(), f) {
            Err(e) => Err(e),
            Ok(done) => match f(items.last(), items.len() - 1) {
                Err(e) => Err(e),
                Ok(b) => Ok(done.push(b)),
            },
        }
    }
}

/// One more item of the prefix: how `collect_all` grows with it.
pub proof fn lemma_collect_step<A, B>(
    items: Seq<A>,
    f: spec_fn(A, int) -> Result<B, MeshError>,
    i: int,
)
    requires
        0 <= i < items.len(),
    ensures
        collect_all(items.take(i + 1), f) == (match collect_all(items.take(i), f) {
            Err(e) => Err(e),
            Ok(done) => match f(items[i], i) {
                Err(e) => Err(e),
                Ok(b) => Ok(done.push(b)),
            },
        }),
{
    assert(items.take(i + 1).drop_last() =~= items.take(i));
}

/// Once a prefix fails, the whole list fails with the same error.
pub proof fn lemma_collect_error_persists<A, B>(
    items: Seq<A>,
    f: spec_fn(A, int) -> Result<B, MeshError>,
    n: int,
)
    requires
        0 <= n <= items.len(),
        collect_all(items.take(n), f) is Err,
    ensures
        collect_all(items, f) == collect_all(items.take(n), f),
    decreases items.len() - n,
{
    if n < items.len() {
        lemma_collect_step(items, f, n);
        lemma_collect_error_persists(items, f, n + 1);
    } else {
        assert(items.take(n) =~= items);
    }
}

/// Lists whose items give the same results, position by position, give the
/// same collected result.
pub proof fn lemma_collect_pointwise<A, B>(
    a: Seq<A>,
    b: Seq<A>,
    f: spec_fn(A, int) -> Result<B, MeshError>,
)
    requires
        a.len() == b.len(),
        forall|i: int| 0 <= i < a.len() ==> f(#[trigger] a[i], i) == f(b[i], i),
    ensures
        collect_all(a, f) == collect_all(b, f),
    decreases a.len(),
{
    if a.len() > 0 {
        let n = a.len() - 1;
        assert forall|i: int| 0 <= i < n implies f(#[trigger] a.drop_last()[i], i) == f(
            b.drop_last()[i],
            i,
        ) by {
            assert(f(a[i], i) == f(b[i], i));
        }
        lemma_collect_pointwise(a.drop_last(), b.drop_last(), f);
        assert(f(a[n], n) == f(b[n], n));
    }
}

/// The whole list is its own longest prefix.
pub proof fn lemma_collect_full<A, B>(items: Seq<A>, f: spec_fn(A, int) -> Result<B, MeshError>)
    ensures
        collect_all(items.take(items.len() as int), f) == collect_all(items, f),
{
    assert(items.take(items.len() as int) =~= items);
}

/// The lists that `f` gives for the items, concatenated in order.
pub open spec fn concat_map<A, B>(items: Seq<A>, f: spec_fn(A) -> Seq<B>) -> Seq<B>
    decreases items.len(),
{
    if items.len() == 0 {
        Seq::empty()
    } else {
        concat_map(items.drop_last(), f) + f(items.last())
    }
}

/// One more item of the prefix adds its list at the end.
pub proof fn lemma_concat_map_step<A, B>(items: Seq<A>, f: spec_fn(A) -> Seq<B>, i: int)
    requires
        0 <= i < items.len(),
    ensures
        concat_map(items.take(i + 1), f) == concat_map(items.take(i), f) + f(items[i]),
{
    assert(items.take(i + 1).drop_last() =~= items.take(i));
}

/// The empty prefix gives nothing and the whole list is its own longest prefix.
pub proof fn lemma_concat_map_ends<A, B>(items: Seq<A>, f: spec_fn(A) -> Seq<B>)
    ensures
        concat_map(items.take(0), f) == Seq::<B>::empty(),
        concat_map(items.take(items.len() as int), f) == concat_map(items, f),
{
    assert(items.take(0) =~= Seq::<A>::empty());
    assert(items.take(items.len() as int) =~= items);
}

/// The mathematical view of an extractor's result: the vertices and the
/// triangles as sequences, or the error.
pub open spec fn raw_view<V>(r: Result<(Vec<V>, Vec<[u32; 3]>), MeshError>) -> Result<
    (Seq<V>, Seq<[u32; 3]>),
    MeshError,
> {
    match r {
        Ok((vs, ts)) => Ok((vs@, ts@)),
        Err(e) => Err(e),
    }
}

} // verus!
