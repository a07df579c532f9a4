use vstd::prelude::*;

use crate::coerce::{extract_indices, index_values, triangle_from};
use crate::error::MeshError;
use crate::results::{
    collect_all,
    lemma_collect_error_persists,
    lemma_collect_full,
    lemma_collect_step,
};

verus! {

/// The triangles of a triangle-soup document, each face's indices narrowed to
/// `u32`, or the error of the first face with an index that does not fit.
pub open spec fn soup_triangles(faces: Seq<[usize; 3]>) -> Result<Seq<[u32; 3]>, MeshError> {
    collect_all(faces, |face: [usize; 3], i: int| triangle_from(index_values(face@), i as usize))
}

/// Builds the raw mesh of a triangle-soup document: the vertices as they are,
/// and each face's three vertex indices converted to `u32`. An index that does
/// not fit is an error naming the face, the position and the value; nothing
/// is truncated.
pub fn extract_stl_mesh<V>(vertices: Vec<V>, faces: &Vec<[usize; 3]>) -> (r: Result<
    (Vec<V>, Vec<[u32; 3]>),
    MeshError,
>)
    ensures
        match soup_triangles(faces@) {
            Ok(ts) => r matches Ok((vs, t)) && vs@ == vertices@ && t@ == ts,
            Err(e) => r == Err::<(Vec<V>, Vec<[u32; 3]>), MeshError>(e),
        },
{
    let ghost f = |face: [usize; 3], i: int| triangle_from(index_values(face@), i as usize);
    let mut triangles: Vec<[u32; 3]> = Vec::new();
    let mut i: usize = 0;
    while i < faces.len()
        invariant
            i <= faces@.len(),
            f == (|face: [usize; 3], i: int| triangle_from(index_values(face@), i as usize)),
            collect_all(faces@.take(i as int), f) == Ok::<Seq<[u32; 3]>, MeshError>(triangles@),
        decreases faces@.len() - i,
    {
        let face: [usize; 3] = faces[i];
        proof {
            lemma_collect_step(faces@, f, i as int);
        }
        match extract_indices(face.as_slice(), i) {
            Ok(t) => triangles.push(t),
            Err(e) => {
                proof {
                    lemma_collect_error_persists(faces@, f, (i + 1) as int);
                }
                return Err(e);
            },
        }
        i += 1;
    }
    proof {
        lemma_collect_full(faces@, f);
    }
    Ok((vertices, triangles))
}

} // verus!
