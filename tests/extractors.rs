use rs_read_trimesh::{
    extract_dae_document, extract_obj_models, extract_ply_payload, extract_raw_mesh,
    extract_stl_mesh, ElementBlock, InputSemantic, MeshDocument, MeshFormat, PolygonPayload,
    Property, PropertyValue, Record, SceneDocument, SceneGeometry, SceneInput, SceneLibraryItem,
    SceneMesh, SceneModel, ScenePrimitive, SceneSource,
};

const EXPECTED: [[f32; 3]; 3] = [[-0.7, 2.1, 0.0], [1.4, 4.2, 0.0], [-3.5, 4.9, 0.0]];

fn assert_single_triangle(vertices: &[[f32; 3]], indices: &[[u32; 3]]) {
    assert_eq!(vertices.len(), 3);
    for (actual, expected) in vertices.iter().zip(EXPECTED.iter()) {
        for c in 0..3 {
            assert!((actual[c] - expected[c]).abs() < 1e-6, "{:?} vs {:?}", actual, expected);
        }
    }
    assert_eq!(indices, &[[0, 1, 2]]);
}

fn prop(name: &str, value: PropertyValue<f32>) -> Property<f32> {
    Property { name: name.to_string(), value }
}

fn block(name: &str, records: Vec<Record<f32>>) -> ElementBlock<f32> {
    ElementBlock { name: name.to_string(), records }
}

fn float_vertices() -> Vec<Record<f32>> {
    EXPECTED
        .iter()
        .map(|v| Record {
            properties: vec![
                prop("x", PropertyValue::Float32(v[0])),
                prop("y", PropertyValue::Float32(v[1])),
                prop("z", PropertyValue::Float32(v[2])),
            ],
        })
        .collect()
}

fn double_vertices() -> Vec<Record<f32>> {
    let doubles: [[f64; 3]; 3] = [[-0.7, 2.1, 0.0], [1.4, 4.2, 0.0], [-3.5, 4.9, 0.0]];
    doubles
        .iter()
        .map(|v| Record {
            properties: vec![
                prop("x", PropertyValue::Float64(v[0] as f32)),
                prop("y", PropertyValue::Float64(v[1] as f32)),
                prop("z", PropertyValue::Float64(v[2] as f32)),
            ],
        })
        .collect()
}

fn face(value: PropertyValue<f32>) -> Record<f32> {
    Record { properties: vec![prop("vertex_indices", value)] }
}

fn payload(vertices: Vec<Record<f32>>, faces: Vec<Record<f32>>) -> PolygonPayload<f32> {
    PolygonPayload { elements: vec![block("vertex", vertices), block("face", faces)] }
}

fn triangle_soup() -> MeshDocument<f32> {
    MeshDocument::Stl { vertices: EXPECTED.to_vec(), faces: vec![[0, 1, 2]] }
}

fn scene_models() -> Vec<SceneModel<f32>> {
    vec![SceneModel {
        positions: EXPECTED.iter().flat_map(|v| v.iter().copied()).collect(),
        indices: vec![0, 1, 2],
    }]
}

fn scene_geometry(id: &str, values: Vec<f32>, prim: Vec<u32>) -> SceneGeometry<f32> {
    SceneGeometry::Mesh(SceneMesh {
        sources: vec![
            SceneSource { id: Some(format!("{}-normals", id)), floats: Some(vec![0.0; 9]) },
            SceneSource { id: Some(id.to_string()), floats: Some(values) },
        ],
        vertex_inputs: Some(vec![
            SceneInput { semantic: InputSemantic::Other, source: format!("#{}-normals", id) },
            SceneInput { semantic: InputSemantic::Position, source: format!("#{}", id) },
        ]),
        primitives: vec![ScenePrimitive::Other, ScenePrimitive::Triangles { prim: Some(prim) }],
    })
}

fn scene_graph() -> SceneDocument<f32> {
    let values = EXPECTED.iter().flat_map(|v| v.iter().copied()).collect();
    SceneDocument {
        library: vec![
            SceneLibraryItem::Other,
            SceneLibraryItem::Geometries(vec![scene_geometry("tri", values, vec![0, 1, 2])]),
        ],
    }
}

#[test]
fn triangle_soup_gives_the_triangle() {
    let (v, i) = extract_stl_mesh(EXPECTED.to_vec(), &vec![[0, 1, 2]]).unwrap();
    assert_single_triangle(&v, &i);
}

#[test]
fn polygon_payload_gives_the_triangle() {
    let p = payload(float_vertices(), vec![face(PropertyValue::ListUInt32(vec![0, 1, 2]))]);
    let (v, i) = extract_ply_payload(&p).unwrap();
    assert_single_triangle(&v, &i);
}

#[test]
fn scene_models_give_the_triangle() {
    let (v, i) = extract_obj_models(&scene_models());
    assert_single_triangle(&v, &i);
}

#[test]
fn scene_graph_gives_the_triangle() {
    let (v, i) = extract_dae_document(&scene_graph()).unwrap();
    assert_single_triangle(&v, &i);
}

#[test]
fn every_format_gives_the_same_triangle() {
    let docs = vec![
        triangle_soup(),
        MeshDocument::Ply(payload(double_vertices(), vec![face(PropertyValue::ListInt16(vec![0, 1, 2]))])),
        MeshDocument::Obj(scene_models()),
        MeshDocument::Dae(scene_graph()),
    ];
    let formats: Vec<MeshFormat> = docs.iter().map(|d| d.format()).collect();
    assert_eq!(formats, vec![MeshFormat::Stl, MeshFormat::Ply, MeshFormat::Obj, MeshFormat::Dae]);
    for doc in docs {
        let (v, i) = extract_raw_mesh(doc).unwrap();
        assert_single_triangle(&v, &i);
    }
}

#[test]
fn payload_floats_ints() {
    let p = payload(float_vertices(), vec![face(PropertyValue::ListInt32(vec![0, 1, 2]))]);
    let (v, i) = extract_ply_payload(&p).unwrap();
    assert_single_triangle(&v, &i);
}

#[test]
fn payload_floats_shorts() {
    let p = payload(float_vertices(), vec![face(PropertyValue::ListInt16(vec![0, 1, 2]))]);
    let (v, i) = extract_ply_payload(&p).unwrap();
    assert_single_triangle(&v, &i);
}

#[test]
fn payload_doubles_ints() {
    let p = payload(double_vertices(), vec![face(PropertyValue::ListUInt32(vec![0, 1, 2]))]);
    let (v, i) = extract_ply_payload(&p).unwrap();
    assert_single_triangle(&v, &i);
}

#[test]
fn payload_doubles_shorts() {
    let p = payload(double_vertices(), vec![face(PropertyValue::ListUInt16(vec![0, 1, 2]))]);
    let (v, i) = extract_ply_payload(&p).unwrap();
    assert_single_triangle(&v, &i);
}

#[test]
fn four_index_encodings_agree() {
    let encodings = vec![
        PropertyValue::ListUInt32(vec![7, 300, 12]),
        PropertyValue::ListInt32(vec![7, 300, 12]),
        PropertyValue::ListUInt16(vec![7, 300, 12]),
        PropertyValue::ListInt16(vec![7, 300, 12]),
    ];
    for encoding in encodings {
        let p = payload(float_vertices(), vec![face(encoding)]);
        let (_, i) = extract_ply_payload(&p).unwrap();
        assert_eq!(i, vec![[7, 300, 12]]);
    }
}

#[test]
fn only_first_three_indices_are_used() {
    let p = payload(float_vertices(), vec![face(PropertyValue::ListUInt32(vec![2, 1, 0, 1]))]);
    let (_, i) = extract_ply_payload(&p).unwrap();
    assert_eq!(i, vec![[2, 1, 0]]);
}

#[test]
fn payload_properties_in_any_order_and_extra_blocks() {
    let mut vertices = float_vertices();
    for r in vertices.iter_mut() {
        r.properties.reverse();
        r.properties.insert(0, prop("red", PropertyValue::UInt8(255)));
    }
    let p = PolygonPayload {
        elements: vec![
            block("face", vec![face(PropertyValue::ListInt32(vec![0, 1, 2]))]),
            block("edge", vec![]),
            block("vertex", vertices),
        ],
    };
    let (v, i) = extract_ply_payload(&p).unwrap();
    assert_single_triangle(&v, &i);
}

#[test]
fn scene_graph_merges_two_geometries() {
    let first = scene_geometry("a", vec![0.0, 0.0, 0.0, 1.0, 0.0, 0.0, 0.0, 1.0, 0.0], vec![0, 1, 2]);
    let second = scene_geometry("b", vec![1.0, 1.0, 0.0, 2.0, 1.0, 0.0, 1.0, 2.0, 0.0], vec![0, 1, 2]);
    let doc = SceneDocument { library: vec![SceneLibraryItem::Geometries(vec![first, second])] };
    let (v, i) = extract_dae_document(&doc).unwrap();
    assert_eq!(
        v,
        vec![
            [0.0, 0.0, 0.0],
            [1.0, 0.0, 0.0],
            [0.0, 1.0, 0.0],
            [1.0, 1.0, 0.0],
            [2.0, 1.0, 0.0],
            [1.0, 2.0, 0.0],
        ]
    );
    assert_eq!(i, vec![[0, 1, 2], [3, 4, 5]]);
}

#[test]
fn scene_graph_skips_geometries_without_vertices() {
    let mut doc = scene_graph();
    doc.library.insert(
        0,
        SceneLibraryItem::Geometries(vec![
            SceneGeometry::Other,
            SceneGeometry::Mesh(SceneMesh { sources: vec![], vertex_inputs: None, primitives: vec![] }),
        ]),
    );
    let (v, i) = extract_dae_document(&doc).unwrap();
    assert_single_triangle(&v, &i);
}

#[test]
fn scene_graph_reference_without_hash() {
    let geometry = SceneGeometry::Mesh(SceneMesh {
        sources: vec![SceneSource { id: Some("p".to_string()), floats: Some(vec![1.0, 2.0, 3.0, 4.0]) }],
        vertex_inputs: Some(vec![SceneInput { semantic: InputSemantic::Position, source: "p".to_string() }]),
        primitives: vec![ScenePrimitive::Triangles { prim: None }],
    });
    let doc = SceneDocument { library: vec![SceneLibraryItem::Geometries(vec![geometry])] };
    let (v, i) = extract_dae_document(&doc).unwrap();
    assert_eq!(v, vec![[1.0, 2.0, 3.0]]);
    assert!(i.is_empty());
}

#[test]
fn scene_models_keep_indices_and_drop_partial_groups() {
    let models = vec![
        SceneModel { positions: vec![1.0f32, 2.0, 3.0, 4.0], indices: vec![0, 0, 0, 9] },
        SceneModel { positions: vec![5.0, 6.0, 7.0], indices: vec![1, 2, 3] },
    ];
    let (v, i) = extract_obj_models(&models);
    assert_eq!(v, vec![[1.0, 2.0, 3.0], [5.0, 6.0, 7.0]]);
    assert_eq!(i, vec![[0, 0, 0], [1, 2, 3]]);
}
