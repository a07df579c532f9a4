use vstd::prelude::*;

use crate::coerce::{extract_indices, index_values, triangle_from};
use crate::error::{Axis, Element, MeshError};
use crate::results::{
    collect_all,
    lemma_collect_error_persists,
    lemma_collect_full,
    lemma_collect_pointwise,
    lemma_collect_step,
};
use crate::text::same_text;

verus! {

/// A typed value of a polygon-payload record.
///
/// `F` is the coordinate type of the finished mesh. A floating-point scalar
/// or list is handed over already in that type, whatever its width in the
/// file: narrowing a double is float arithmetic, which the host does when it
/// builds the record. The variant still tells the two widths apart.
#[derive(Debug, Clone, PartialEq)]
pub enum PropertyValue<F> {
    Int8(i8),
    UInt8(u8),
    Int16(i16),
    UInt16(u16),
    Int32(i32),
    UInt32(u32),
    Float32(F),
    Float64(F),
    ListInt8(Vec<i8>),
    ListUInt8(Vec<u8>),
    ListInt16(Vec<i16>),
    ListUInt16(Vec<u16>),
    ListInt32(Vec<i32>),
    ListUInt32(Vec<u32>),
    ListFloat32(Vec<F>),
    ListFloat64(Vec<F>),
}

/// A named value of a record.
pub struct Property<F> {
    pub name: String,
    pub value: PropertyValue<F>,
}

/// One record of a block: its properties, each name at most once.
pub struct Record<F> {
    pub properties: Vec<Property<F>>,
}

/// A named block of records, such as the vertices or the faces.
pub struct ElementBlock<F> {
    pub name: String,
    pub records: Vec<Record<F>>,
}

/// A parsed polygon-payload document: its blocks, each name at most once.
pub struct PolygonPayload<F> {
    pub elements: Vec<ElementBlock<F>>,
}

/// The value of the first property called `name`.
pub open spec fn lookup_property<F>(props: Seq<Property<F>>, name: Seq<char>) -> Option<
    PropertyValue<F>,
>
    decreases props.len(),
{
    if props.len() == 0 {
        None
    } else if props[0].name@ == name {
        Some(props[0].value)
    } else {
        lookup_property(props.drop_first(), name)
    }
}

/// The records of the first block called `name`.
pub open spec fn lookup_element<F>(elements: Seq<ElementBlock<F>>, name: Seq<char>) -> Option<
    Seq<Record<F>>,
>
    decreases elements.len(),
{
    if elements.len() == 0 {
        None
    } else if elements[0].name@ == name {
        Some(elements[0].records@)
    } else {
        lookup_element(elements.drop_first(), name)
    }
}

pub open spec fn axis_name(axis: Axis) -> Seq<char> {
    match axis {
        Axis::X => "x"@,
        Axis::Y => "y"@,
        Axis::Z => "z"@,
    }
}

/// A coordinate of vertex record `vertex`: a float of either width, else an
/// error naming the record and the axis.
pub open spec fn coordinate_of<F>(record: Record<F>, vertex: usize, axis: Axis) -> Result<
    F,
    MeshError,
> {
    match lookup_property(record.properties@, axis_name(axis)) {
        None => Err(MeshError::MissingCoordinate { vertex, axis }),
        Some(PropertyValue::Float32(v)) => Ok(v),
        Some(PropertyValue::Float64(v)) => Ok(v),
        Some(_) => Err(MeshError::CoordinateType { vertex, axis }),
    }
}

/// The vertex that record `vertex` describes, or the error of its first
/// unusable coordinate (x, then y, then z).
pub open spec fn vertex_of<F>(record: Record<F>, vertex: usize) -> Result<[F; 3], MeshError> {
    match coordinate_of(record, vertex, Axis::X) {
        Err(e) => Err(e),
        Ok(x) => match coordinate_of(record, vertex, Axis::Y) {
            Err(e) => Err(e),
            Ok(y) => match coordinate_of(record, vertex, Axis::Z) {
                Err(e) => Err(e),
                Ok(z) => Ok([x, y, z]),
            },
        },
    }
}

/// The triangle that the index-list property of face `face` gives. The list
/// may hold unsigned or signed 16- or 32-bit integers; any other type, or no
/// list, is an error naming the face.
pub open spec fn face_list_triangle<F>(list: Option<PropertyValue<F>>, face: usize) -> Result<
    [u32; 3],
    MeshError,
> {
    match list {
        None => Err(MeshError::MissingFaceIndices { face }),
        Some(PropertyValue::ListUInt32(l)) => triangle_from(index_values(l@), face),
        Some(PropertyValue::ListInt32(l)) => triangle_from(index_values(l@), face),
        Some(PropertyValue::ListUInt16(l)) => triangle_from(index_values(l@), face),
        Some(PropertyValue::ListInt16(l)) => triangle_from(index_values(l@), face),
        Some(_) => Err(MeshError::FaceIndicesType { face }),
    }
}

/// The triangle that face record `face` describes, from its
/// "vertex_indices" property.
pub open spec fn face_of<F>(record: Record<F>, face: usize) -> Result<[u32; 3], MeshError> {
    face_list_triangle(lookup_property(record.properties@, "vertex_indices"@), face)
}

/// The four integer encodings of one face index list give one and the same
/// triangle: lists of unsigned and signed 16- and 32-bit integers that hold
/// the same values coerce identically, and, having at least three entries,
/// to the triangle of their first three values.
pub proof fn lemma_index_encodings_agree<F>(
    as_u32: Vec<u32>,
    as_i32: Vec<i32>,
    as_u16: Vec<u16>,
    as_i16: Vec<i16>,
    face: usize,
)
    requires
        index_values(as_i32@) == index_values(as_u32@),
        index_values(as_u16@) == index_values(as_u32@),
        index_values(as_i16@) == index_values(as_u32@),
    ensures
        face_list_triangle(Some(PropertyValue::<F>::ListInt32(as_i32)), face)
            == face_list_triangle(Some(PropertyValue::<F>::ListUInt32(as_u32)), face),
        face_list_triangle(Some(PropertyValue::<F>::ListUInt16(as_u16)), face)
            == face_list_triangle(Some(PropertyValue::<F>::ListUInt32(as_u32)), face),
        face_list_triangle(Some(PropertyValue::<F>::ListInt16(as_i16)), face)
            == face_list_triangle(Some(PropertyValue::<F>::ListUInt32(as_u32)), face),
        as_u32@.len() >= 3 ==> face_list_triangle(
            Some(PropertyValue::<F>::ListInt16(as_i16)),
            face,
        ) == Ok::<[u32; 3], MeshError>([as_u32@[0], as_u32@[1], as_u32@[2]]),
{
    if as_u32@.len() >= 3 {
        assert(index_values(as_i16@)[0] == as_i16@[0] as int);
        assert(index_values(as_u32@)[0] == as_u32@[0] as int);
        assert(index_values(as_u32@)[1] == as_u32@[1] as int);
        assert(index_values(as_u32@)[2] == as_u32@[2] as int);
    }
}

pub open spec fn payload_vertices<F>(records: Seq<Record<F>>) -> Result<Seq<[F; 3]>, MeshError> {
    collect_all(records, |r: Record<F>, i: int| vertex_of(r, i as usize))
}

pub open spec fn payload_faces<F>(records: Seq<Record<F>>) -> Result<Seq<[u32; 3]>, MeshError> {
    collect_all(records, |r: Record<F>, i: int| face_of(r, i as usize))
}

/// The raw mesh of a polygon-payload document: the vertices of the "vertex"
/// block and the triangles of the "face" block, or the first error met in
/// that order.
pub open spec fn payload_mesh<F>(payload: PolygonPayload<F>) -> Result<
    (Seq<[F; 3]>, Seq<[u32; 3]>),
    MeshError,
> {
    match lookup_element(payload.elements@, "vertex"@) {
        None => Err(MeshError::MissingElement { element: Element::Vertex }),
        Some(vertex_records) => match payload_vertices(vertex_records) {
            Err(e) => Err(e),
            Ok(vs) => match lookup_element(payload.elements@, "face"@) {
                None => Err(MeshError::MissingElement { element: Element::Face }),
                Some(face_records) => match payload_faces(face_records) {
                    Err(e) => Err(e),
                    Ok(fs) => Ok((vs, fs)),
                },
            },
        },
    }
}

/// The position of the first property called `name`.
pub fn find_property<F>(props: &Vec<Property<F>>, name: &str) -> (r: Option<usize>)
    ensures
        match r {
            Some(i) => i < props@.len() && lookup_property(props@, name@) == Some(
                props@[i as int].value,
            ),
            None => lookup_property(props@, name@) is None,
        },
{
    let mut i: usize = 0;
    assert(props@.skip(0) =~= props@);
    while i < props.len()
        invariant
            i <= props@.len(),
            lookup_property(props@, name@) == lookup_property(props@.skip(i as int), name@),
        decreases props@.len() - i,
    {
        assert(props@.skip(i as int)[0] == props@[i as int]);
        if same_text(props[i].name.as_str(), name) {
            return Some(i);
        }
        assert(props@.skip(i as int).drop_first() =~= props@.skip(i + 1));
        i += 1;
    }
    None
}

/// The position of the first block called `name`.
pub fn find_element<F>(elements: &Vec<ElementBlock<F>>, name: &str) -> (r: Option<usize>)
    ensures
        match r {
            Some(i) => i < elements@.len() && lookup_element(elements@, name@) == Some(
                elements@[i as int].records@,
            ),
            None => lookup_element(elements@, name@) is None,
        },
{
    let mut i: usize = 0;
    assert(elements@.skip(0) =~= elements@);
    while i < elements.len()
        invariant
            i <= elements@.len(),
            lookup_element(elements@, name@) == lookup_element(elements@.skip(i as int), name@),
        decreases elements@.len() - i,
    {
        assert(elements@.skip(i as int)[0] == elements@[i as int]);
        if same_text(elements[i].name.as_str(), name) {
            return Some(i);
        }
        assert(elements@.skip(i as int).drop_first() =~= elements@.skip(i + 1));
        i += 1;
    }
    None
}

/// The values of an index list held in one of the four integer encodings.
pub open spec fn integer_list_values<F>(v: PropertyValue<F>) -> Option<Seq<int>> {
    match v {
        PropertyValue::ListUInt32(l) => Some(index_values(l@)),
        PropertyValue::ListInt32(l) => Some(index_values(l@)),
        PropertyValue::ListUInt16(l) => Some(index_values(l@)),
        PropertyValue::ListInt16(l) => Some(index_values(l@)),
        _ => None,
    }
}

/// Two index-list properties that are the same, or that hold the same values
/// in any of the four integer encodings.
pub open spec fn same_index_list<F>(a: Option<PropertyValue<F>>, b: Option<PropertyValue<F>>) -> bool {
    ||| a == b
    ||| a matches Some(x) && b matches Some(y) && integer_list_values(x) is Some
        && integer_list_values(x) == integer_list_values(y)
}

/// Face blocks whose records correspond one for one, each pair of index
/// lists the same up to their integer encoding.
pub open spec fn faces_agree_up_to_encoding<F>(a: Seq<Record<F>>, b: Seq<Record<F>>) -> bool {
    &&& a.len() == b.len()
    &&& forall|i: int|
        0 <= i < a.len() ==> same_index_list(
            lookup_property(#[trigger] a[i].properties@, "vertex_indices"@),
            lookup_property(b[i].properties@, "vertex_indices"@),
        )
}

proof fn lemma_same_index_list_triangle<F>(
    a: Option<PropertyValue<F>>,
    b: Option<PropertyValue<F>>,
    face: usize,
)
    requires
        same_index_list(a, b),
    ensures
        face_list_triangle(a, face) == face_list_triangle(b, face),
{
}

/// Documents that differ only in the integer encoding of their face index
/// lists (unsigned or signed, 16 or 32 bits, holding the same values) give
/// the same mesh, or the same error.
pub proof fn lemma_payload_encodings_agree<F>(p: PolygonPayload<F>, q: PolygonPayload<F>)
    requires
        lookup_element(p.elements@, "vertex"@) == lookup_element(q.elements@, "vertex"@),
        match (lookup_element(p.elements@, "face"@), lookup_element(q.elements@, "face"@)) {
            (None, None) => true,
            (Some(pf), Some(qf)) => faces_agree_up_to_encoding(pf, qf),
            _ => false,
        },
    ensures
        payload_mesh(p) == payload_mesh(q),
{
    match (lookup_element(p.elements@, "face"@), lookup_element(q.elements@, "face"@)) {
        (Some(pf), Some(qf)) => {
            let f = |r: Record<F>, i: int| face_of(r, i as usize);
            assert forall|i: int| 0 <= i < pf.len() implies f(#[trigger] pf[i], i) == f(qf[i], i) by {
                lemma_same_index_list_triangle(
                    lookup_property(pf[i].properties@, "vertex_indices"@),
                    lookup_property(qf[i].properties@, "vertex_indices"@),
                    i as usize,
                );
            }
            lemma_collect_pointwise(pf, qf, f);
        },
        _ => {},
    }
}

/// Reads one coordinate of a vertex record as the mesh's coordinate type.
pub fn extract_coordinate<F: Copy>(record: &Record<F>, vertex: usize, axis: Axis) -> (r: Result<
    F,
    MeshError,
>)
    ensures
        r == coordinate_of(*record, vertex, axis),
{
    let name = match axis {
        Axis::X => "x",
        Axis::Y => "y",
        Axis::Z => "z",
    };
    match find_property(&record.properties, name) {
        None => Err(MeshError::MissingCoordinate { vertex, axis }),
        Some(i) => match &record.properties[i].value {
            PropertyValue::Float32(v) => Ok(*v),
            PropertyValue::Float64(v) => Ok(*v),
            _ => Err(MeshError::CoordinateType { vertex, axis }),
        },
    }
}

/// Reads the vertex of a vertex record.
pub fn extract_vertex<F: Copy>(record: &Record<F>, vertex: usize) -> (r: Result<
    [F; 3],
    MeshError,
>)
    ensures
        r == vertex_of(*record, vertex),
{
    let x = extract_coordinate(record, vertex, Axis::X)?;
    let y = extract_coordinate(record, vertex, Axis::Y)?;
    let z = extract_coordinate(record, vertex, Axis::Z)?;
    Ok([x, y, z])
}

/// Reads the triangle of a face record: the first three entries of its
/// "vertex_indices" list, whichever of the four integer encodings it uses.
pub fn extract_face<F>(record: &Record<F>, face: usize) -> (r: Result<[u32; 3], MeshError>)
    ensures
        r == face_of(*record, face),
{
    match find_property(&record.properties, "vertex_indices") {
        None => Err(MeshError::MissingFaceIndices { face }),
        Some(i) => match &record.properties[i].value {
            PropertyValue::ListUInt32(l) => extract_indices(l.as_slice(), face),
            PropertyValue::ListInt32(l) => extract_indices(l.as_slice(), face),
            PropertyValue::ListUInt16(l) => extract_indices(l.as_slice(), face),
            PropertyValue::ListInt16(l) => extract_indices(l.as_slice(), face),
            _ => Err(MeshError::FaceIndicesType { face }),
        },
    }
}

fn extract_vertices<F: Copy>(records: &Vec<Record<F>>) -> (r: Result<Vec<[F; 3]>, MeshError>)
    ensures
        match payload_vertices(records@) {
            Ok(vs) => r matches Ok(v) && v@ == vs,
            Err(e) => r == Err::<Vec<[F; 3]>, MeshError>(e),
        },
{
    let ghost f = |r: Record<F>, i: int| vertex_of(r, i as usize);
    let mut vertices: Vec<[F; 3]> = Vec::new();
    let mut i: usize = 0;
    while i < records.len()
        invariant
            i <= records@.len(),
            f == (|r: Record<F>, i: int| vertex_of(r, i as usize)),
            collect_all(records@.take(i as int), f) == Ok::<Seq<[F; 3]>, MeshError>(vertices@),
        decreases records@.len() - i,
    {
        proof {
            lemma_collect_step(records@, f, i as int);
        }
        match extract_vertex(&records[i], i) {
            Ok(v) => vertices.push(v),
            Err(e) => {
                proof {
                    lemma_collect_error_persists(records@, f, (i + 1) as int);
                }
                return Err(e);
            },
        }
        i += 1;
    }
    proof {
        lemma_collect_full(records@, f);
    }
    Ok(vertices)
}

fn extract_faces<F>(records: &Vec<Record<F>>) -> (r: Result<Vec<[u32; 3]>, MeshError>)
    ensures
        match payload_faces(records@) {
            Ok(fs) => r matches Ok(t) && t@ == fs,
            Err(e) => r == Err::<Vec<[u32; 3]>, MeshError>(e),
        },
{
    let ghost f = |r: Record<F>, i: int| face_of(r, i as usize);
    let mut triangles: Vec<[u32; 3]> = Vec::new();
    let mut i: usize = 0;
    while i < records.len()
        invariant
            i <= records@.len(),
            f == (|r: Record<F>, i: int| face_of(r, i as usize)),
            collect_all(records@.take(i as int), f) == Ok::<Seq<[u32; 3]>, MeshError>(
                triangles@,
            ),
        decreases records@.len() - i,
    {
        proof {
            lemma_collect_step(records@, f, i as int);
        }
        match extract_face(&records[i], i) {
            Ok(t) => triangles.push(t),
            Err(e) => {
                proof {
                    lemma_collect_error_persists(records@, f, (i + 1) as int);
                }
                return Err(e);
            },
        }
        i += 1;
    }
    proof {
        lemma_collect_full(records@, f);
    }
    Ok(triangles)
}

/// Builds the raw mesh of a polygon-payload document from its "vertex" and
/// "face" blocks. A missing block, a missing or mistyped property, or a face
/// with an unusable index list is an error that names what failed.
pub fn extract_ply_payload<F: Copy>(payload: &PolygonPayload<F>) -> (r: Result<
    (Vec<[F; 3]>, Vec<[u32; 3]>),
    MeshError,
>)
    ensures
        match payload_mesh(*payload) {
            Ok((vs, fs)) => r matches Ok((v, t)) && v@ == vs && t@ == fs,
            Err(e) => r == Err::<(Vec<[F; 3]>, Vec<[u32; 3]>), MeshError>(e),
        },
{
    let vertex_block = match find_element(&payload.elements, "vertex") {
        Some(i) => i,
        None => {
            return Err(MeshError::MissingElement { element: Element::Vertex });
        },
    };
    let vertices = extract_vertices(&payload.elements[vertex_block].records)?;
    let face_block = match find_element(&payload.elements, "face") {
        Some(i) => i,
        None => {
            return Err(MeshError::MissingElement { element: Element::Face });
        },
    };
    let triangles = extract_faces(&payload.elements[face_block].records)?;
    Ok((vertices, triangles))
}

} // verus!
