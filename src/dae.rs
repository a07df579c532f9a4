use vstd::prelude::*;

use crate::error::MeshError;
use crate::merge::{
    first_overflowing_mesh,
    merge_meshes,
    merged_indices,
    merged_vertices,
    mesh_views,
    rebased_indices_fit,
    rebased_mesh_fits,
};
use crate::results::{concat_map, lemma_concat_map_ends, lemma_concat_map_step, raw_view};
use crate::text::same_text;
use crate::triples::{chunk_triples, triples};

verus! {

/// What a geometry input stands for; only positions matter here.
#[derive(Debug, Clone, Copy, PartialEq, Eq, Structural)]
pub enum InputSemantic {
    Position,
    Other,
}

/// An input of a mesh's vertex definition: its semantic and the reference
/// (a fragment such as `#cube-positions`) of the source that holds its data.
pub struct SceneInput {
    pub semantic: InputSemantic,
    pub source: String,
}

/// A data source of a mesh: its id, and its values when it holds a float array.
pub struct SceneSource<F> {
    pub id: Option<String>,
    pub floats: Option<Vec<F>>,
}

/// A primitive block of a mesh; only triangle lists are read.
pub enum ScenePrimitive {
    /// A triangle list: its vertex indices, three per triangle, when present.
    Triangles { prim: Option<Vec<u32>> },
    Other,
}

/// The mesh definition of a geometry.
pub struct SceneMesh<F> {
    pub sources: Vec<SceneSource<F>>,
    /// The inputs of the vertex definition, when the mesh has one.
    pub vertex_inputs: Option<Vec<SceneInput>>,
    pub primitives: Vec<ScenePrimitive>,
}

/// A geometry of the geometry library.
pub enum SceneGeometry<F> {
    Mesh(SceneMesh<F>),
    Other,
}

/// An entry of the document's library.
pub enum SceneLibraryItem<F> {
    Geometries(Vec<SceneGeometry<F>>),
    Other,
}

/// A parsed scene-graph document.
pub struct SceneDocument<F> {
    pub library: Vec<SceneLibraryItem<F>>,
}

/// The id that a source reference names: the reference without a leading `#`.
pub open spec fn source_reference(uri: Seq<char>) -> Seq<char> {
    if uri.len() > 0 && uri[0] == '#' {
        uri.drop_first()
    } else {
        uri
    }
}

/// The vertices that a source contributes for the id `id`: its floats grouped
/// by three when its id is `id` and it holds a float array.
pub open spec fn source_positions<F>(source: SceneSource<F>, id: Seq<char>) -> Seq<[F; 3]> {
    match source.id {
        Some(sid) => if sid@ == id {
            match source.floats {
                Some(values) => triples(values@),
                None => Seq::empty(),
            }
        } else {
            Seq::empty()
        },
        None => Seq::empty(),
    }
}

pub open spec fn sources_positions<F>(sources: Seq<SceneSource<F>>, id: Seq<char>) -> Seq<[F; 3]> {
    concat_map(sources, |s: SceneSource<F>| source_positions(s, id))
}

/// The vertices that an input contributes: those of the sources it references
/// when it is a position input.
pub open spec fn input_positions<F>(input: SceneInput, sources: Seq<SceneSource<F>>) -> Seq<
    [F; 3],
> {
    if input.semantic is Position {
        sources_positions(sources, source_reference(input.source@))
    } else {
        Seq::empty()
    }
}

pub open spec fn inputs_positions<F>(inputs: Seq<SceneInput>, sources: Seq<SceneSource<F>>) -> Seq<
    [F; 3],
> {
    concat_map(inputs, |i: SceneInput| input_positions(i, sources))
}

pub open spec fn primitive_triangles(p: ScenePrimitive) -> Seq<[u32; 3]> {
    match p {
        ScenePrimitive::Triangles { prim: Some(values) } => triples(values@),
        _ => Seq::empty(),
    }
}

pub open spec fn primitives_triangles(ps: Seq<ScenePrimitive>) -> Seq<[u32; 3]> {
    concat_map(ps, |p: ScenePrimitive| primitive_triangles(p))
}

/// The sub-mesh of a geometry: none without a vertex definition, else its
/// position vertices and its triangles.
pub open spec fn geometry_meshes<F>(g: SceneGeometry<F>) -> Seq<(Seq<[F; 3]>, Seq<[u32; 3]>)> {
    match g {
        SceneGeometry::Mesh(m) => match m.vertex_inputs {
            Some(inputs) => seq![
                (inputs_positions(inputs@, m.sources@), primitives_triangles(m.primitives@)),
            ],
            None => Seq::empty(),
        },
        SceneGeometry::Other => Seq::empty(),
    }
}

pub open spec fn item_meshes<F>(item: SceneLibraryItem<F>) -> Seq<(Seq<[F; 3]>, Seq<[u32; 3]>)> {
    match item {
        SceneLibraryItem::Geometries(gs) => concat_map(gs@, |g: SceneGeometry<F>| geometry_meshes(g)),
        SceneLibraryItem::Other => Seq::empty(),
    }
}

/// The sub-meshes of all geometries of the document, in document order.
pub open spec fn document_meshes<F>(doc: SceneDocument<F>) -> Seq<(Seq<[F; 3]>, Seq<[u32; 3]>)> {
    concat_map(doc.library@, |item: SceneLibraryItem<F>| item_meshes(item))
}

/// Whether a sub-mesh has neither a vertex nor a triangle.
pub open spec fn is_empty_mesh<V>(mesh: (Seq<V>, Seq<[u32; 3]>)) -> bool {
    mesh.0.len() == 0 && mesh.1.len() == 0
}

/// Whether some sub-mesh has a vertex or a triangle.
pub open spec fn has_mesh_content<V>(meshes: Seq<(Seq<V>, Seq<[u32; 3]>)>) -> bool {
    exists|k: int| 0 <= k < meshes.len() && !#[trigger] is_empty_mesh(meshes[k])
}

/// The raw mesh of a scene-graph document: its sub-meshes merged, or the
/// error that keeps them from being merged. A document whose geometries give
/// no vertex and no triangle at all has no usable geometry.
pub open spec fn scene_graph_mesh<F>(doc: SceneDocument<F>) -> Result<
    (Seq<[F; 3]>, Seq<[u32; 3]>),
    MeshError,
> {
    let meshes = document_meshes(doc);
    if !has_mesh_content(meshes) {
        Err(MeshError::EmptyMesh)
    } else if rebased_indices_fit(meshes) {
        Ok((merged_vertices(meshes), merged_indices(meshes)))
    } else {
        let g = choose|g: int|
            0 <= g < meshes.len() && !rebased_mesh_fits(meshes, g) && forall|h: int|
                0 <= h < g ==> rebased_mesh_fits(meshes, h);
        Err(MeshError::IndexOverflow { geometry: g as usize })
    }
}

/// The id that a source reference names.
pub fn source_id(uri: &str) -> (r: &str)
    ensures
        r@ == source_reference(uri@),
{
    let n = uri.unicode_len();
    if n > 0 && uri.get_char(0) == '#' {
        let r = uri.substring_char(1, n);
        assert(r@ =~= uri@.drop_first());
        r
    } else {
        uri
    }
}

fn append_source_positions<F: Copy>(
    sources: &Vec<SceneSource<F>>,
    id: &str,
    out: &mut Vec<[F; 3]>,
)
    ensures
        final(out)@ == old(out)@ + sources_positions(sources@, id@),
{
    let ghost start = out@;
    let ghost f = |s: SceneSource<F>| source_positions(s, id@);
    let mut i: usize = 0;
    proof {
        lemma_concat_map_ends(sources@, f);
    }
    while i < sources.len()
        invariant
            i <= sources@.len(),
            f == (|s: SceneSource<F>| source_positions(s, id@)),
            out@ == start + concat_map(sources@.take(i as int), f),
        decreases sources@.len() - i,
    {
        proof {
            lemma_concat_map_step(sources@, f, i as int);
        }
        let source = &sources[i];
        let ghost before = out@;
        match &source.id {
            Some(sid) => {
                if same_text(sid.as_str(), id) {
                    match &source.floats {
                        Some(values) => {
                            let mut vs = chunk_triples(values);
                            out.append(&mut vs);
                        },
                        None => {},
                    }
                }
            },
            None => {},
        }
        proof {
            assert(out@ =~= before + f(sources@[i as int]));
        }
        i += 1;
    }
    proof {
        lemma_concat_map_ends(sources@, f);
    }
}

fn mesh_vertices<F: Copy>(inputs: &Vec<SceneInput>, sources: &Vec<SceneSource<F>>) -> (r: Vec<
    [F; 3],
>)
    ensures
        r@ == inputs_positions(inputs@, sources@),
{
    let ghost f = |i: SceneInput| input_positions(i, sources@);
    let mut out: Vec<[F; 3]> = Vec::new();
    let mut k: usize = 0;
    proof {
        lemma_concat_map_ends(inputs@, f);
    }
    while k < inputs.len()
        invariant
            k <= inputs@.len(),
            f == (|i: SceneInput| input_positions(i, sources@)),
            out@ == concat_map(inputs@.take(k as int), f),
        decreases inputs@.len() - k,
    {
        proof {
            lemma_concat_map_step(inputs@, f, k as int);
        }
        let input = &inputs[k];
        let ghost before = out@;
        match input.semantic {
            InputSemantic::Position => {
                let id = source_id(input.source.as_str());
                append_source_positions(sources, id, &mut out);
            },
            InputSemantic::Other => {},
        }
        proof {
            assert(out@ =~= before + f(inputs@[k as int]));
        }
        k += 1;
    }
    proof {
        lemma_concat_map_ends(inputs@, f);
    }
    out
}

fn mesh_triangles(primitives: &Vec<ScenePrimitive>) -> (r: Vec<[u32; 3]>)
    ensures
        r@ == primitives_triangles(primitives@),
{
    let ghost f = |p: ScenePrimitive| primitive_triangles(p);
    let mut out: Vec<[u32; 3]> = Vec::new();
    let mut k: usize = 0;
    proof {
        lemma_concat_map_ends(primitives@, f);
    }
    while k < primitives.len()
        invariant
            k <= primitives@.len(),
            f == (|p: ScenePrimitive| primitive_triangles(p)),
            out@ == concat_map(primitives@.take(k as int), f),
        decreases primitives@.len() - k,
    {
        proof {
            lemma_concat_map_step(primitives@, f, k as int);
        }
        let ghost before = out@;
        match &primitives[k] {
            ScenePrimitive::Triangles { prim: Some(values) } => {
                let mut ts = chunk_triples(values);
                out.append(&mut ts);
            },
            _ => {},
        }
        proof {
            assert(out@ =~= before + f(primitives@[k as int]));
        }
        k += 1;
    }
    proof {
        lemma_concat_map_ends(primitives@, f);
    }
    out
}

fn append_geometry_meshes<F: Copy>(
    geometries: &Vec<SceneGeometry<F>>,
    out: &mut Vec<(Vec<[F; 3]>, Vec<[u32; 3]>)>,
)
    ensures
        mesh_views(final(out)@) == mesh_views(old(out)@) + concat_map(
            geometries@,
            |g: SceneGeometry<F>| geometry_meshes(g),
        ),
{
    let ghost start = mesh_views(out@);
    let ghost f = |g: SceneGeometry<F>| geometry_meshes(g);
    let mut k: usize = 0;
    proof {
        lemma_concat_map_ends(geometries@, f);
    }
    while k < geometries.len()
        invariant
            k <= geometries@.len(),
            f == (|g: SceneGeometry<F>| geometry_meshes(g)),
            mesh_views(out@) == start + concat_map(geometries@.take(k as int), f),
        decreases geometries@.len() - k,
    {
        proof {
            lemma_concat_map_step(geometries@, f, k as int);
        }
        let ghost before = out@;
        match &geometries[k] {
            SceneGeometry::Mesh(mesh) => match &mesh.vertex_inputs {
                Some(inputs) => {
                    let vertices = mesh_vertices(inputs, &mesh.sources);
                    let triangles = mesh_triangles(&mesh.primitives);
                    out.push((vertices, triangles));
                },
                None => {},
            },
            SceneGeometry::Other => {},
        }
        proof {
            assert(mesh_views(out@) =~= mesh_views(before) + f(geometries@[k as int]));
        }
        k += 1;
    }
    proof {
        lemma_concat_map_ends(geometries@, f);
    }
}

/// The sub-meshes of every geometry of the document, in document order.
pub fn collect_geometry_meshes<F: Copy>(doc: &SceneDocument<F>) -> (r: Vec<
    (Vec<[F; 3]>, Vec<[u32; 3]>),
>)
    ensures
        mesh_views(r@) == document_meshes(*doc),
{
    let ghost f = |item: SceneLibraryItem<F>| item_meshes(item);
    let mut out: Vec<(Vec<[F; 3]>, Vec<[u32; 3]>)> = Vec::new();
    let mut k: usize = 0;
    proof {
        lemma_concat_map_ends(doc.library@, f);
        assert(mesh_views(out@) =~= Seq::<(Seq<[F; 3]>, Seq<[u32; 3]>)>::empty());
    }
    while k < doc.library.len()
        invariant
            k <= doc.library@.len(),
            f == (|item: SceneLibraryItem<F>| item_meshes(item)),
            mesh_views(out@) == concat_map(doc.library@.take(k as int), f),
        decreases doc.library@.len() - k,
    {
        proof {
            lemma_concat_map_step(doc.library@, f, k as int);
        }
        let ghost before = out@;
        match &doc.library[k] {
            SceneLibraryItem::Geometries(geometries) => {
                append_geometry_meshes(geometries, &mut out);
            },
            SceneLibraryItem::Other => {},
        }
        proof {
            assert(mesh_views(out@) =~= mesh_views(before) + f(doc.library@[k as int]));
        }
        k += 1;
    }
    proof {
        lemma_concat_map_ends(doc.library@, f);
    }
    out
}

/// Whether some sub-mesh has a vertex or a triangle.
pub fn any_mesh_content<V>(meshes: &Vec<(Vec<V>, Vec<[u32; 3]>)>) -> (r: bool)
    ensures
        r == has_mesh_content(mesh_views(meshes@)),
{
    let ghost views = mesh_views(meshes@);
    let mut k: usize = 0;
    while k < meshes.len()
        invariant
            views == mesh_views(meshes@),
            views.len() == meshes@.len(),
            k <= meshes@.len(),
            forall|j: int| 0 <= j < k ==> #[trigger] is_empty_mesh(views[j]),
        decreases meshes@.len() - k,
    {
        proof {
            assert(views[k as int] == (meshes@[k as int].0@, meshes@[k as int].1@));
        }
        if meshes[k].0.len() > 0 || meshes[k].1.len() > 0 {
            assert(!is_empty_mesh(views[k as int]));
            return true;
        }
        assert(is_empty_mesh(views[k as int]));
        k += 1;
    }
    false
}

/// Builds the raw mesh of a scene-graph document: the sub-mesh of each
/// geometry that has a vertex definition, merged in document order with each
/// geometry's indices moved past the vertices of the geometries before it.
/// A document whose geometries give no vertex and no triangle at all (none
/// with a vertex definition, or only empty ones) is an empty-mesh error; a
/// geometry whose moved indices would not fit in `u32` is an index-range error.
pub fn extract_dae_document<F: Copy>(doc: &SceneDocument<F>) -> (r: Result<
    (Vec<[F; 3]>, Vec<[u32; 3]>),
    MeshError,
>)
    ensures
        ({
            let meshes = document_meshes(*doc);
            if !has_mesh_content(meshes) {
                r == Err::<(Vec<[F; 3]>, Vec<[u32; 3]>), MeshError>(MeshError::EmptyMesh)
            } else if rebased_indices_fit(meshes) {
                r matches Ok((vs, ts)) && vs@ == merged_vertices(meshes) && ts@ == merged_indices(
                    meshes,
                )
            } else {
                r matches Err(MeshError::IndexOverflow { geometry }) && geometry < meshes.len()
                    && !rebased_mesh_fits(meshes, geometry as int) && forall|g: int|
                    0 <= g < geometry ==> rebased_mesh_fits(meshes, g)
            }
        }),
        raw_view(r) == scene_graph_mesh(*doc),
{
    let meshes = collect_geometry_meshes(doc);
    if !any_mesh_content(&meshes) {
        return Err(MeshError::EmptyMesh);
    }
    match first_overflowing_mesh(&meshes) {
        Some(geometry) => {
            proof {
                let views = mesh_views(meshes@);
                let g = choose|g: int|
                    0 <= g < views.len() && !rebased_mesh_fits(views, g) && forall|h: int|
                        0 <= h < g ==> rebased_mesh_fits(views, h);
                assert(0 <= geometry < views.len() && !rebased_mesh_fits(views, geometry as int));
                if g < geometry {
                } else if g > geometry {
                    assert(rebased_mesh_fits(views, geometry as int));
                }
                assert(g == geometry);
            }
            Err(MeshError::IndexOverflow { geometry })
        },
        None => Ok(merge_meshes(meshes)),
    }
}

} // verus!
