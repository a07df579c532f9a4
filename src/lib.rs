//! Loading of triangulated surface meshes: the format-agnostic core that turns
//! already-parsed geometry documents into one vertex buffer and one triangle
//! buffer.
pub mod coerce;
pub mod dae;
pub mod error;
pub mod format;
pub mod merge;
pub mod obj;
pub mod ply;
pub mod results;
pub mod stl;
pub mod text;
pub mod triples;

pub use coerce::{extract_indices, IndexValue};
pub use dae::{
    extract_dae_document, InputSemantic, SceneDocument, SceneGeometry, SceneInput,
    SceneLibraryItem, SceneMesh, ScenePrimitive, SceneSource,
};
pub use error::{Axis, Element, ErrorKind, MeshError};
pub use format::{extract_raw_mesh, format_for_extension, mesh_format, MeshDocument, MeshFormat};
pub use merge::merge_meshes;
pub use obj::{extract_obj_models, SceneModel};
pub use ply::{
    extract_ply_payload, ElementBlock, PolygonPayload, Property, PropertyValue, Record,
};
pub use stl::extract_stl_mesh;
