use vstd::prelude::*;

use crate::dae::{extract_dae_document, scene_graph_mesh, SceneDocument};
use crate::error::MeshError;
use crate::obj::{extract_obj_models, models_triangles, models_vertices, SceneModel};
use crate::ply::{extract_ply_payload, payload_mesh, PolygonPayload};
use crate::results::raw_view;
use crate::stl::{extract_stl_mesh, soup_triangles};
use crate::text::same_text;

verus! {

/// The supported file formats.
#[derive(Debug, Clone, Copy, PartialEq, Eq, Structural)]
pub enum MeshFormat {
    /// Triangle soup: a vertex list and faces of three vertex indices.
    Stl,
    /// Polygon payload: named blocks of typed records.
    Ply,
    /// Scene models: flat position and index arrays per model.
    Obj,
    /// Scene graph: a library of geometries, each with its own vertices.
    Dae,
}

/// The extension of a path, as `std::path::Path::extension` finds it.
pub uninterp spec fn extension_of(path: Seq<char>) -> Option<Seq<char>>;

/// The lowercase form of a text, as `str::to_lowercase` maps it.
pub uninterp spec fn lower_of(text: Seq<char>) -> Seq<char>;

/// Relies on `std::path::Path::extension`: the text after the last `.` of the
/// path's file name, or none when the name has no `.` other than a leading
/// one (or there is no file name). It depends on the path alone. A `&str` path
/// is valid UTF-8, so the extension always converts back to a string.
#[verifier::external_body]
fn path_extension(path: &str) -> (r: Option<String>)
    ensures
        match r {
            Some(ext) => extension_of(path@) == Some(ext@),
            None => extension_of(path@) is None,
        },
{
    std::path::Path::new(path).extension().and_then(|ext| ext.to_str()).map(|ext| ext.to_string())
}

/// Relies on `str::to_lowercase`: the lowercase mapping of the characters,
/// which depends on them alone.
#[verifier::external_body]
fn lowercase(text: &str) -> (r: String)
    ensures
        r@ == lower_of(text@),
{
    text.to_lowercase()
}

/// The format that a lowercase extension names.
pub open spec fn format_of(ext: Seq<char>) -> Option<MeshFormat> {
    if ext == "stl"@ {
        Some(MeshFormat::Stl)
    } else if ext == "ply"@ {
        Some(MeshFormat::Ply)
    } else if ext == "obj"@ {
        Some(MeshFormat::Obj)
    } else if ext == "dae"@ {
        Some(MeshFormat::Dae)
    } else {
        None
    }
}

/// The format that an already lowercased extension names, if any.
pub fn format_for_extension(ext: &str) -> (r: Option<MeshFormat>)
    ensures
        r == format_of(ext@),
{
    if same_text(ext, "stl") {
        Some(MeshFormat::Stl)
    } else if same_text(ext, "ply") {
        Some(MeshFormat::Ply)
    } else if same_text(ext, "obj") {
        Some(MeshFormat::Obj)
    } else if same_text(ext, "dae") {
        Some(MeshFormat::Dae)
    } else {
        None
    }
}

/// The format of a file, from its extension, whatever its case. A path with
/// no extension, or with one that names no supported format, is an
/// unsupported-format error that names the extension as written (empty when
/// there is none).
pub fn mesh_format(path: &str) -> (r: Result<MeshFormat, MeshError>)
    ensures
        match extension_of(path@) {
            None => r matches Err(MeshError::UnsupportedFormat { extension }) && extension@.len()
                == 0,
            Some(ext) => match format_of(lower_of(ext)) {
                Some(f) => r == Ok::<MeshFormat, MeshError>(f),
                None => r matches Err(MeshError::UnsupportedFormat { extension }) && extension@
                    == ext,
            },
        },
{
    match path_extension(path) {
        None => Err(MeshError::UnsupportedFormat { extension: String::new() }),
        Some(ext) => {
            let lower = lowercase(ext.as_str());
            match format_for_extension(lower.as_str()) {
                Some(f) => Ok(f),
                None => Err(MeshError::UnsupportedFormat { extension: ext }),
            }
        },
    }
}

/// A parsed document of one of the supported formats, with coordinates of
/// type `F`.
pub enum MeshDocument<F> {
    /// A triangle soup: its vertices and each face's three vertex indices.
    Stl { vertices: Vec<[F; 3]>, faces: Vec<[usize; 3]> },
    Ply(PolygonPayload<F>),
    Obj(Vec<SceneModel<F>>),
    Dae(SceneDocument<F>),
}

impl<F> MeshDocument<F> {
    pub open spec fn spec_format(&self) -> MeshFormat {
        match self {
            MeshDocument::Stl { .. } => MeshFormat::Stl,
            MeshDocument::Ply(_) => MeshFormat::Ply,
            MeshDocument::Obj(_) => MeshFormat::Obj,
            MeshDocument::Dae(_) => MeshFormat::Dae,
        }
    }

    /// The format the document was read in.
    #[verifier::when_used_as_spec(spec_format)]
    pub fn format(&self) -> (r: MeshFormat)
        ensures
            r == self.spec_format(),
    {
        match self {
            MeshDocument::Stl { .. } => MeshFormat::Stl,
            MeshDocument::Ply(_) => MeshFormat::Ply,
            MeshDocument::Obj(_) => MeshFormat::Obj,
            MeshDocument::Dae(_) => MeshFormat::Dae,
        }
    }
}

/// The raw mesh of a parsed document, by its format's rules.
pub open spec fn document_raw_mesh<F>(doc: MeshDocument<F>) -> Result<
    (Seq<[F; 3]>, Seq<[u32; 3]>),
    MeshError,
> {
    match doc {
        MeshDocument::Stl { vertices, faces } => match soup_triangles(faces@) {
            Ok(ts) => Ok((vertices@, ts)),
            Err(e) => Err(e),
        },
        MeshDocument::Ply(payload) => payload_mesh(payload),
        MeshDocument::Obj(models) => Ok((models_vertices(models@), models_triangles(models@))),
        MeshDocument::Dae(scene) => scene_graph_mesh(scene),
    }
}

/// Extracts the raw mesh of a parsed document with the extractor of its
/// format: one vertex buffer and one triangle buffer, sub-meshes merged.
pub fn extract_raw_mesh<F: Copy>(doc: MeshDocument<F>) -> (r: Result<
    (Vec<[F; 3]>, Vec<[u32; 3]>),
    MeshError,
>)
    ensures
        raw_view(r) == document_raw_mesh(doc),
{
    match doc {
        MeshDocument::Stl { vertices, faces } => extract_stl_mesh(vertices, &faces),
        MeshDocument::Ply(payload) => extract_ply_payload(&payload),
        MeshDocument::Obj(models) => Ok(extract_obj_models(&models)),
        MeshDocument::Dae(scene) => extract_dae_document(&scene),
    }
}

} // verus!
