use rs_read_trimesh::{
    extract_dae_document, extract_indices, extract_ply_payload, extract_stl_mesh, Axis, Element,
    ElementBlock, ErrorKind, InputSemantic, MeshError, PolygonPayload, Property, PropertyValue,
    Record, SceneDocument, SceneGeometry, SceneInput, SceneLibraryItem, SceneMesh, ScenePrimitive,
    SceneSource,
};

fn prop(name: &str, value: PropertyValue<f32>) -> Property<f32> {
    Property { name: name.to_string(), value }
}

fn vertex(x: Option<PropertyValue<f32>>) -> Record<f32> {
    let mut properties = vec![prop("y", PropertyValue::Float32(1.0)), prop("z", PropertyValue::Float32(2.0))];
    if let Some(x) = x {
        properties.push(prop("x", x));
    }
    Record { properties }
}

fn good_vertex() -> Record<f32> {
    vertex(Some(PropertyValue::Float32(0.5)))
}

fn face(value: Option<PropertyValue<f32>>) -> Record<f32> {
    Record { properties: value.map(|v| vec![prop("vertex_indices", v)]).unwrap_or_default() }
}

fn payload(blocks: Vec<(&str, Vec<Record<f32>>)>) -> PolygonPayload<f32> {
    PolygonPayload {
        elements: blocks
            .into_iter()
            .map(|(name, records)| ElementBlock { name: name.to_string(), records })
            .collect(),
    }
}

fn ply_error(p: PolygonPayload<f32>) -> MeshError {
    match extract_ply_payload(&p) {
        Err(e) => e,
        Ok(_) => panic!("expected an error"),
    }
}

#[test]
fn short_index_list_is_rejected() {
    let r = extract_indices(&[0u32, 1][..], 4);
    assert_eq!(r, Err(MeshError::TooFewIndices { face: 4, count: 2 }));
    assert_eq!(r.unwrap_err().kind(), ErrorKind::IndexRange);
    let empty: [i16; 0] = [];
    assert_eq!(extract_indices(&empty[..], 0), Err(MeshError::TooFewIndices { face: 0, count: 0 }));
}

#[test]
fn short_face_in_payload_is_rejected() {
    let p = payload(vec![
        ("vertex", vec![good_vertex()]),
        ("face", vec![face(Some(PropertyValue::ListInt32(vec![0, 0, 0]))), face(Some(PropertyValue::ListUInt16(vec![0, 0])))]),
    ]);
    assert_eq!(ply_error(p), MeshError::TooFewIndices { face: 1, count: 2 });
}

#[test]
fn negative_index_is_out_of_range() {
    assert_eq!(
        extract_indices(&[3i32, -1, 2][..], 7),
        Err(MeshError::IndexOutOfRange { face: 7, position: 1, value: -1 })
    );
    assert_eq!(
        extract_indices(&[0i16, 1, i16::MIN][..], 0),
        Err(MeshError::IndexOutOfRange { face: 0, position: 2, value: -32768 })
    );
}

#[test]
fn extreme_index_values_convert() {
    assert_eq!(extract_indices(&[u32::MAX, 0, 1][..], 0), Ok([u32::MAX, 0, 1]));
    assert_eq!(extract_indices(&[i32::MAX, 0, 1][..], 0), Ok([i32::MAX as u32, 0, 1]));
    assert_eq!(extract_indices(&[u16::MAX, i16::MAX as u16, 0][..], 0), Ok([65535, 32767, 0]));
    assert_eq!(extract_indices(&[usize::MIN, 1, 2][..], 0), Ok([0, 1, 2]));
}

#[test]
fn triangle_soup_index_beyond_u32_is_rejected() {
    let big = u32::MAX as usize + 1;
    let r = extract_stl_mesh(vec![[0.0f32; 3]], &vec![[0, 0, 0], [0, big, 0]]);
    assert_eq!(r.err(), Some(MeshError::IndexOutOfRange { face: 1, position: 1, value: big as i128 }));
}

#[test]
fn missing_vertex_block() {
    let p = payload(vec![("face", vec![])]);
    let e = ply_error(p);
    assert_eq!(e, MeshError::MissingElement { element: Element::Vertex });
    assert_eq!(e.kind(), ErrorKind::MissingData);
}

#[test]
fn missing_face_block() {
    let p = payload(vec![("vertex", vec![good_vertex()])]);
    assert_eq!(ply_error(p), MeshError::MissingElement { element: Element::Face });
}

#[test]
fn vertex_errors_come_before_a_missing_face_block() {
    let p = payload(vec![("vertex", vec![good_vertex(), vertex(None)])]);
    assert_eq!(ply_error(p), MeshError::MissingCoordinate { vertex: 1, axis: Axis::X });
}

#[test]
fn mistyped_coordinate() {
    let p = payload(vec![
        ("vertex", vec![vertex(Some(PropertyValue::Int32(1)))]),
        ("face", vec![]),
    ]);
    let e = ply_error(p);
    assert_eq!(e, MeshError::CoordinateType { vertex: 0, axis: Axis::X });
    assert_eq!(e.kind(), ErrorKind::TypeMismatch);
}

#[test]
fn missing_face_indices() {
    let p = payload(vec![("vertex", vec![good_vertex()]), ("face", vec![face(None)])]);
    assert_eq!(ply_error(p), MeshError::MissingFaceIndices { face: 0 });
}

#[test]
fn mistyped_face_indices() {
    let p = payload(vec![
        ("vertex", vec![good_vertex()]),
        ("face", vec![face(Some(PropertyValue::ListUInt8(vec![0, 0, 0])))]),
    ]);
    assert_eq!(ply_error(p), MeshError::FaceIndicesType { face: 0 });
    let p = payload(vec![
        ("vertex", vec![good_vertex()]),
        ("face", vec![face(Some(PropertyValue::UInt32(0)))]),
    ]);
    assert_eq!(ply_error(p), MeshError::FaceIndicesType { face: 0 });
}

#[test]
fn scene_graph_without_meshes_is_empty() {
    let doc: SceneDocument<f32> = SceneDocument {
        library: vec![SceneLibraryItem::Other, SceneLibraryItem::Geometries(vec![SceneGeometry::Other])],
    };
    let e = extract_dae_document(&doc).err().unwrap();
    assert_eq!(e, MeshError::EmptyMesh);
    assert_eq!(e.kind(), ErrorKind::EmptyMesh);
}

#[test]
fn scene_graph_index_overflow_after_rebasing() {
    let mesh = |values: Vec<f32>, prim: Vec<u32>| {
        SceneGeometry::Mesh(SceneMesh {
            sources: vec![SceneSource { id: Some("p".to_string()), floats: Some(values) }],
            vertex_inputs: Some(vec![SceneInput { semantic: InputSemantic::Position, source: "#p".to_string() }]),
            primitives: vec![ScenePrimitive::Triangles { prim: Some(prim) }],
        })
    };
    let doc = SceneDocument {
        library: vec![SceneLibraryItem::Geometries(vec![
            mesh(vec![0.0; 6], vec![u32::MAX, 0, 0]),
            mesh(vec![0.0; 3], vec![0, 0, u32::MAX - 1]),
            mesh(vec![0.0; 3], vec![0, 0, u32::MAX]),
        ])],
    };
    let e = extract_dae_document(&doc).err().unwrap();
    assert_eq!(e, MeshError::IndexOverflow { geometry: 1 });
    assert_eq!(e.kind(), ErrorKind::IndexRange);
}

fn unmatched_geometry() -> SceneGeometry<f32> {
    SceneGeometry::Mesh(SceneMesh {
        sources: vec![SceneSource { id: Some("positions".to_string()), floats: Some(vec![0.0; 9]) }],
        vertex_inputs: Some(vec![SceneInput { semantic: InputSemantic::Position, source: "#elsewhere".to_string() }]),
        primitives: vec![ScenePrimitive::Other, ScenePrimitive::Triangles { prim: None }],
    })
}

#[test]
fn scene_graph_with_only_empty_geometries_is_empty() {
    let doc = SceneDocument {
        library: vec![SceneLibraryItem::Geometries(vec![unmatched_geometry(), unmatched_geometry()])],
    };
    assert_eq!(extract_dae_document(&doc).err(), Some(MeshError::EmptyMesh));
}

#[test]
fn scene_graph_empty_geometry_beside_a_real_one() {
    let real = SceneGeometry::Mesh(SceneMesh {
        sources: vec![SceneSource { id: Some("p".to_string()), floats: Some(vec![1.0, 2.0, 3.0]) }],
        vertex_inputs: Some(vec![SceneInput { semantic: InputSemantic::Position, source: "#p".to_string() }]),
        primitives: vec![ScenePrimitive::Triangles { prim: Some(vec![0, 0, 0]) }],
    });
    let doc = SceneDocument {
        library: vec![SceneLibraryItem::Geometries(vec![unmatched_geometry(), real])],
    };
    let (v, i) = extract_dae_document(&doc).unwrap();
    assert_eq!(v, vec![[1.0, 2.0, 3.0]]);
    assert_eq!(i, vec![[0, 0, 0]]);
}
