use vstd::prelude::*;

verus! {

/// One of the three coordinates of a vertex record.
#[derive(Debug, Clone, Copy, PartialEq, Eq, Structural)]
pub enum Axis {
    X,
    Y,
    Z,
}

/// A named block of a polygon-payload document.
#[derive(Debug, Clone, Copy, PartialEq, Eq, Structural)]
pub enum Element {
    Vertex,
    Face,
}

/// The kinds of failure a load can end in, without their details.
#[derive(Debug, Clone, Copy, PartialEq, Eq, Structural)]
pub enum ErrorKind {
    UnsupportedFormat,
    MissingData,
    TypeMismatch,
    IndexRange,
    EmptyMesh,
}

/// Why a mesh could not be extracted, with enough context to find the
/// offending record.
#[derive(Debug, Clone, PartialEq, Eq)]
pub enum MeshError {
    /// The path's extension (as written, empty when there is none) names no
    /// supported format.
    UnsupportedFormat { extension: String },
    /// A required block of a polygon-payload document is absent.
    MissingElement { element: Element },
    /// A vertex record lacks one of its coordinates.
    MissingCoordinate { vertex: usize, axis: Axis },
    /// A vertex coordinate is not a floating-point scalar.
    CoordinateType { vertex: usize, axis: Axis },
    /// A face record lacks its index list.
    MissingFaceIndices { face: usize },
    /// A face's index list is not a 16- or 32-bit integer list.
    FaceIndicesType { face: usize },
    /// A face lists fewer than three vertex indices.
    TooFewIndices { face: usize, count: usize },
    /// A vertex index of a face does not fit in `u32`.
    IndexOutOfRange { face: usize, position: usize, value: i128 },
    /// A geometry of a scene-graph document has an index that, moved past the
    /// vertices of the geometries before it, no longer fits in `u32`.
    IndexOverflow { geometry: usize },
    /// A scene-graph document has no usable geometry: none of its geometries
    /// gives a vertex or a triangle.
    EmptyMesh,
}

impl MeshError {
    pub open spec fn spec_kind(&self) -> ErrorKind {
        match self {
            MeshError::UnsupportedFormat { .. } => ErrorKind::UnsupportedFormat,
            MeshError::MissingElement { .. } => ErrorKind::MissingData,
            MeshError::MissingCoordinate { .. } => ErrorKind::MissingData,
            MeshError::MissingFaceIndices { .. } => ErrorKind::MissingData,
            MeshError::CoordinateType { .. } => ErrorKind::TypeMismatch,
            MeshError::FaceIndicesType { .. } => ErrorKind::TypeMismatch,
            MeshError::TooFewIndices { .. } => ErrorKind::IndexRange,
            MeshError::IndexOutOfRange { .. } => ErrorKind::IndexRange,
            MeshError::IndexOverflow { .. } => ErrorKind::IndexRange,
            MeshError::EmptyMesh => ErrorKind::EmptyMesh,
        }
    }

    /// The kind of this failure.
    #[verifier::when_used_as_spec(spec_kind)]
    pub fn kind(&self) -> (r: ErrorKind)
        ensures
            r == self.spec_kind(),
    {
        match self {
            MeshError::UnsupportedFormat { .. } => ErrorKind::UnsupportedFormat,
            MeshError::MissingElement { .. } => ErrorKind::MissingData,
            MeshError::MissingCoordinate { .. } => ErrorKind::MissingData,
            MeshError::MissingFaceIndices { .. } => ErrorKind::MissingData,
            MeshError::CoordinateType { .. } => ErrorKind::TypeMismatch,
            MeshError::FaceIndicesType { .. } => ErrorKind::TypeMismatch,
            MeshError::TooFewIndices { .. } => ErrorKind::IndexRange,
            MeshError::IndexOutOfRange { .. } => ErrorKind::IndexRange,
            MeshError::IndexOverflow { .. } => ErrorKind::IndexRange,
            MeshError::EmptyMesh => ErrorKind::EmptyMesh,
        }
    }
}

} // verus!
