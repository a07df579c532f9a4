use vstd::prelude::*;

verus! {

/// The mathematical view of a list of sub-meshes: each one's vertices and
/// triangles.
pub open spec fn mesh_views<V>(meshes: Seq<(Vec<V>, Vec<[u32; 3]>)>) -> Seq<
    (Seq<V>, Seq<[u32; 3]>),
> {
    meshes.map_values(|m: (Vec<V>, Vec<[u32; 3]>)| (m.0@, m.1@))
}

/// The vertices of all sub-meshes, one after the other.
pub open spec fn merged_vertices<V>(meshes: Seq<(Seq<V>, Seq<[u32; 3]>)>) -> Seq<V>
    decreases meshes.len(),
{
    if meshes.len() == 0 {
        Seq::empty()
    } else {
        merged_vertices(meshes.drop_last()) + meshes.last().0
    }
}

/// Where the vertices of sub-mesh `k` start in the merged vertex buffer.
pub open spec fn vertex_offset<V>(meshes: Seq<(Seq<V>, Seq<[u32; 3]>)>, k: int) -> int {
    merged_vertices(meshes.take(k)).len() as int
}

/// A triangle whose three indices are moved up by `offset`.
pub open spec fn rebase(t: [u32; 3], offset: int) -> [u32; 3] {
    [(t[0] + offset) as u32, (t[1] + offset) as u32, (t[2] + offset) as u32]
}

/// The triangles of all sub-meshes, one after the other, each sub-mesh's
/// indices moved up by the number of vertices that come before it.
pub open spec fn merged_indices<V>(meshes: Seq<(Seq<V>, Seq<[u32; 3]>)>) -> Seq<[u32; 3]>
    decreases meshes.len(),
{
    if meshes.len() == 0 {
        Seq::empty()
    } else {
        let before = meshes.drop_last();
        let offset = merged_vertices(before).len() as int;
        merged_indices(before) + meshes.last().1.map_values(|t: [u32; 3]| rebase(t, offset))
    }
}

/// Every index of sub-mesh `k`, moved up by its offset, is still a `u32`.
pub open spec fn rebased_mesh_fits<V>(meshes: Seq<(Seq<V>, Seq<[u32; 3]>)>, k: int) -> bool {
    forall|j: int, c: int|
        0 <= j < meshes[k].1.len() && 0 <= c < 3 ==> vertex_offset(meshes, k)
            + #[trigger] meshes[k].1[j][c] <= u32::MAX
}

/// Every rebased index of the merged mesh is still a `u32`.
pub open spec fn rebased_indices_fit<V>(meshes: Seq<(Seq<V>, Seq<[u32; 3]>)>) -> bool {
    forall|k: int| 0 <= k < meshes.len() ==> #[trigger] rebased_mesh_fits(meshes, k)
}

proof fn lemma_rebase_zero(t: [u32; 3])
    ensures
        rebase(t, 0) == t,
{
    assert(rebase(t, 0) =~= t);
}

proof fn lemma_take_succ<A>(s: Seq<A>, k: int)
    requires
        0 <= k < s.len(),
    ensures
        s.take(k + 1).drop_last() == s.take(k),
        s.take(k + 1).last() == s[k],
        s.take(k + 1).len() == k + 1,
{
    assert(s.take(k + 1).drop_last() =~= s.take(k));
}

/// Merging a single sub-mesh gives that sub-mesh back, value for value.
pub proof fn lemma_merge_single<V>(mesh: (Seq<V>, Seq<[u32; 3]>))
    ensures
        merged_vertices(seq![mesh]) == mesh.0,
        merged_indices(seq![mesh]) == mesh.1,
{
    let s = seq![mesh];
    let none = Seq::<(Seq<V>, Seq<[u32; 3]>)>::empty();
    assert(s.drop_last() =~= none);
    assert(s.last() == mesh);
    assert(merged_vertices(none) == Seq::<V>::empty());
    assert(merged_indices(none) == Seq::<[u32; 3]>::empty());
    assert(merged_vertices(s) =~= mesh.0);
    assert forall|j: int| 0 <= j < mesh.1.len() implies rebase(#[trigger] mesh.1[j], 0)
        == mesh.1[j] by {
        lemma_rebase_zero(mesh.1[j]);
    }
    assert(merged_indices(s) =~= mesh.1);
}

/// Merging two sub-meshes keeps the first one's triangles as they are and
/// moves every index of the second up by the first one's vertex count.
pub proof fn lemma_merge_two<V>(a: (Seq<V>, Seq<[u32; 3]>), b: (Seq<V>, Seq<[u32; 3]>))
    ensures
        merged_vertices(seq![a, b]) == a.0 + b.0,
        merged_indices(seq![a, b]) == a.1 + b.1.map_values(
            |t: [u32; 3]| rebase(t, a.0.len() as int),
        ),
{
    let s = seq![a, b];
    assert(s.drop_last() =~= seq![a]);
    lemma_merge_single(a);
}

/// Every index of the mesh names one of its vertices.
pub open spec fn indices_in_range<V>(mesh: (Seq<V>, Seq<[u32; 3]>)) -> bool {
    forall|j: int, c: int|
        0 <= j < mesh.1.len() && 0 <= c < 3 ==> #[trigger] mesh.1[j][c] < mesh.0.len()
}

/// Merging keeps every index pointing at a vertex: when each sub-mesh's
/// indices name its own vertices, every index of the merged mesh names one
/// of the merged vertices.
pub proof fn lemma_merge_keeps_indices_in_range<V>(meshes: Seq<(Seq<V>, Seq<[u32; 3]>)>)
    requires
        forall|k: int| 0 <= k < meshes.len() ==> #[trigger] indices_in_range(meshes[k]),
        rebased_indices_fit(meshes),
    ensures
        indices_in_range((merged_vertices(meshes), merged_indices(meshes))),
    decreases meshes.len(),
{
    if meshes.len() > 0 {
        let n = meshes.len() - 1;
        let before = meshes.drop_last();
        assert(before.len() == n);
        assert forall|k: int| 0 <= k < before.len() implies #[trigger] rebased_mesh_fits(
            before,
            k,
        ) by {
            assert(before.take(k) =~= meshes.take(k));
            assert(rebased_mesh_fits(meshes, k));
        }
        assert forall|k: int| 0 <= k < before.len() implies #[trigger] indices_in_range(
            before[k],
        ) by {
            assert(indices_in_range(meshes[k]));
        }
        lemma_merge_keeps_indices_in_range(before);
        let offset = merged_vertices(before).len() as int;
        let last = meshes.last();
        assert(meshes.take(n) =~= before);
        assert(rebased_mesh_fits(meshes, n));
        assert(indices_in_range(meshes[n]));
        let all_v = merged_vertices(meshes);
        let all_i = merged_indices(meshes);
        assert forall|j: int, c: int| 0 <= j < all_i.len() && 0 <= c < 3 implies #[trigger] all_i[j][c]
            < all_v.len() by {
            let first = merged_indices(before);
            if j < first.len() {
                let prefix = (merged_vertices(before), first);
                assert(indices_in_range(prefix));
                assert(prefix.1[j][c] < prefix.0.len());
                assert(all_i[j] == first[j]);
            } else {
                let t = last.1[j - first.len()];
                assert(all_i[j] == rebase(t, offset));
                assert(offset + meshes[n].1[j - first.len()][c] <= u32::MAX);
                assert(t[c] < last.0.len());
            }
        }
    }
}

/// Concatenates the sub-meshes into one, in order. Each sub-mesh's indices are
/// moved up by the number of vertices of the sub-meshes before it, so that
/// they still name that sub-mesh's own vertices. A single sub-mesh comes back
/// unchanged.
pub fn merge_meshes<V>(meshes: Vec<(Vec<V>, Vec<[u32; 3]>)>) -> (r: (Vec<V>, Vec<[u32; 3]>))
    requires
        rebased_indices_fit(mesh_views(meshes@)),
    ensures
        r.0@ == merged_vertices(mesh_views(meshes@)),
        r.1@ == merged_indices(mesh_views(meshes@)),
        meshes@.len() == 1 ==> r.0@ == meshes@[0].0@ && r.1@ == meshes@[0].1@,
{
    let ghost views = mesh_views(meshes@);
    let mut rest = meshes;
    if rest.len() == 1 {
        let only = rest.remove(0);
        proof {
            assert(views =~= seq![(only.0@, only.1@)]);
            lemma_merge_single((only.0@, only.1@));
        }
        return only;
    }
    let n = rest.len();
    let mut vertices_out: Vec<V> = Vec::new();
    let mut indices_out: Vec<[u32; 3]> = Vec::new();
    let mut k: usize = 0;
    while k < n
        invariant
            n == views.len(),
            k <= n,
            mesh_views(rest@) == views.subrange(k as int, n as int),
            vertices_out@ == merged_vertices(views.take(k as int)),
            indices_out@ == merged_indices(views.take(k as int)),
            rebased_indices_fit(views),
        decreases n - k,
    {
        let ghost before = rest@;
        proof {
            assert(mesh_views(before).len() == before.len());
            assert(mesh_views(before)[0] == views[k as int]);
        }
        let (mut vertices, indices) = rest.remove(0);
        proof {
            lemma_take_succ(views, k as int);
            assert(before[0] == (vertices, indices));
            assert(views[k as int] == (vertices@, indices@));
            assert(rebased_mesh_fits(views, k as int));
            assert(rest@ =~= before.subrange(1, before.len() as int));
            assert forall|q: int| 0 <= q < rest@.len() implies #[trigger] mesh_views(rest@)[q]
                == views[k + 1 + q] by {
                assert(rest@[q] == before[q + 1]);
                assert(mesh_views(before)[q + 1] == views.subrange(k as int, n as int)[q + 1]);
            }
            assert(mesh_views(rest@) =~= views.subrange(k + 1, n as int));
        }
        let offset = vertices_out.len();
        let ghost base = indices_out@;
        let mut j: usize = 0;
        while j < indices.len()
            invariant
                j <= indices@.len(),
                views[k as int].1 == indices@,
                0 <= k < views.len(),
                offset == vertex_offset(views, k as int),
                rebased_mesh_fits(views, k as int),
                indices_out@ == base + indices@.take(j as int).map_values(
                    |t: [u32; 3]| rebase(t, offset as int),
                ),
            decreases indices@.len() - j,
        {
            let t = indices[j];
            proof {
                assert(vertex_offset(views, k as int) + views[k as int].1[j as int][0] <= u32::MAX);
                assert(vertex_offset(views, k as int) + views[k as int].1[j as int][1] <= u32::MAX);
                assert(vertex_offset(views, k as int) + views[k as int].1[j as int][2] <= u32::MAX);
            }
            let o = offset as u32;
            indices_out.push([t[0] + o, t[1] + o, t[2] + o]);
            proof {
                assert(indices@.take(j + 1) =~= indices@.take(j as int).push(t));
            }
            j += 1;
        }
        proof {
            assert(indices@.take(j as int) =~= indices@);
        }
        vertices_out.append(&mut vertices);
        k += 1;
    }
    proof {
        assert(views.take(n as int) =~= views);
    }
    (vertices_out, indices_out)
}

/// One more than the largest `u32`: the point from which no offset leaves room
/// for an index.
const OFFSET_LIMIT: u64 = 0x1_0000_0000;

proof fn lemma_offset_step<V>(views: Seq<(Seq<V>, Seq<[u32; 3]>)>, k: int)
    requires
        0 <= k < views.len(),
    ensures
        vertex_offset(views, k + 1) == vertex_offset(views, k) + views[k].0.len(),
{
    lemma_take_succ(views, k);
}

/// The first sub-mesh that has an index which, moved up by the sub-mesh's
/// offset, would no longer fit in `u32`; `None` when every index fits.
pub fn first_overflowing_mesh<V>(meshes: &Vec<(Vec<V>, Vec<[u32; 3]>)>) -> (r: Option<usize>)
    ensures
        match r {
            None => rebased_indices_fit(mesh_views(meshes@)),
            Some(k) => k < meshes@.len() && !rebased_mesh_fits(mesh_views(meshes@), k as int)
                && forall|g: int| 0 <= g < k ==> rebased_mesh_fits(mesh_views(meshes@), g),
        },
{
    let ghost views = mesh_views(meshes@);
    let mut offset: u64 = 0;
    let mut k: usize = 0;
    proof {
        assert(views.take(0) =~= Seq::<(Seq<V>, Seq<[u32; 3]>)>::empty());
    }
    while k < meshes.len()
        invariant
            views == mesh_views(meshes@),
            k <= meshes@.len(),
            offset == (if vertex_offset(views, k as int) < OFFSET_LIMIT {
                vertex_offset(views, k as int)
            } else {
                OFFSET_LIMIT as int
            }),
            forall|g: int| 0 <= g < k ==> #[trigger] rebased_mesh_fits(views, g),
        decreases meshes@.len() - k,
    {
        let indices = &meshes[k].1;
        proof {
            assert(views[k as int] == (meshes@[k as int].0@, indices@));
        }
        let mut j: usize = 0;
        while j < indices.len()
            invariant
                views == mesh_views(meshes@),
                k < meshes@.len(),
                views.len() == meshes@.len(),
                j <= indices@.len(),
                views[k as int].1 == indices@,
                offset == (if vertex_offset(views, k as int) < OFFSET_LIMIT {
                    vertex_offset(views, k as int)
                } else {
                    OFFSET_LIMIT as int
                }),
                forall|g: int| 0 <= g < k ==> #[trigger] rebased_mesh_fits(views, g),
                forall|jj: int, c: int|
                    0 <= jj < j && 0 <= c < 3 ==> offset + #[trigger] indices@[jj][c] <= u32::MAX,
            decreases indices@.len() - j,
        {
            let t = indices[j];
            if offset + t[0] as u64 > u32::MAX as u64 || offset + t[1] as u64 > u32::MAX as u64
                || offset + t[2] as u64 > u32::MAX as u64 {
                proof {
                    let c: int = if offset + t[0] > u32::MAX {
                        0
                    } else if offset + t[1] > u32::MAX {
                        1
                    } else {
                        2
                    };
                    assert(vertex_offset(views, k as int) + views[k as int].1[j as int][c]
                        > u32::MAX);
                }
                return Some(k);
            }
            j += 1;
        }
        proof {
            assert forall|jj: int, c: int|
                0 <= jj < views[k as int].1.len() && 0 <= c < 3 implies vertex_offset(
                views,
                k as int,
            ) + #[trigger] views[k as int].1[jj][c] <= u32::MAX by {
                assert(offset + indices@[jj][c] <= u32::MAX);
            }
            assert(rebased_mesh_fits(views, k as int));
            lemma_offset_step(views, k as int);
        }
        let len = meshes[k].0.len() as u64;
        offset = if len >= OFFSET_LIMIT - offset {
            OFFSET_LIMIT
        } else {
            offset + len
        };
        k += 1;
    }
    None
}

} // verus!
