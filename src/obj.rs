use vstd::prelude::*;

use crate::triples::{chunk_triples, triples};

verus! {

/// One model of a scene-model document: a flat array of coordinates, three
/// per vertex, and a flat array of vertex indices, three per triangle.
pub struct SceneModel<F> {
    pub positions: Vec<F>,
    pub indices: Vec<u32>,
}

/// The vertices of all models, in document order.
pub open spec fn models_vertices<F>(models: Seq<SceneModel<F>>) -> Seq<[F; 3]>
    decreases models.len(),
{
    if models.len() == 0 {
        Seq::empty()
    } else {
        models_vertices(models.drop_last()) + triples(models.last().positions@)
    }
}

/// The triangles of all models, in document order, with their indices as
/// written.
pub open spec fn models_triangles<F>(models: Seq<SceneModel<F>>) -> Seq<[u32; 3]>
    decreases models.len(),
{
    if models.len() == 0 {
        Seq::empty()
    } else {
        models_triangles(models.drop_last()) + triples(models.last().indices@)
    }
}

/// Flattens every model's coordinates into vertices and its indices into
/// triangles, concatenating the models in order. The indices are kept as they
/// are: this format's indices already address the whole document.
pub fn extract_obj_models<F: Copy>(models: &Vec<SceneModel<F>>) -> (r: (Vec<[F; 3]>, Vec<[u32; 3]>))
    ensures
        r.0@ == models_vertices(models@),
        r.1@ == models_triangles(models@),
{
    let mut vertices: Vec<[F; 3]> = Vec::new();
    let mut triangles: Vec<[u32; 3]> = Vec::new();
    let mut k: usize = 0;
    while k < models.len()
        invariant
            k <= models@.len(),
            vertices@ == models_vertices(models@.take(k as int)),
            triangles@ == models_triangles(models@.take(k as int)),
        decreases models@.len() - k,
    {
        let model = &models[k];
        let mut model_vertices = chunk_triples(&model.positions);
        let mut model_triangles = chunk_triples(&model.indices);
        vertices.append(&mut model_vertices);
        triangles.append(&mut model_triangles);
        proof {
            assert(models@.take(k + 1).drop_last() =~= models@.take(k as int));
        }
        k += 1;
    }
    proof {
        assert(models@.take(k as int) =~= models@);
    }
    (vertices, triangles)
}

} // verus!
