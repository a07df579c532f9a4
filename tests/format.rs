use rs_read_trimesh::{format_for_extension, mesh_format, ErrorKind, MeshError, MeshFormat};

#[test]
fn unknown_extension_is_unsupported() {
    let e = mesh_format("model.xyz").unwrap_err();
    assert_eq!(e, MeshError::UnsupportedFormat { extension: "xyz".to_string() });
    assert_eq!(e.kind(), ErrorKind::UnsupportedFormat);
}

#[test]
fn missing_extension_is_unsupported() {
    assert_eq!(mesh_format("model"), Err(MeshError::UnsupportedFormat { extension: String::new() }));
    assert_eq!(mesh_format("dir.d/.hidden"), Err(MeshError::UnsupportedFormat { extension: String::new() }));
}

#[test]
fn extensions_of_each_format() {
    assert_eq!(mesh_format("a.stl"), Ok(MeshFormat::Stl));
    assert_eq!(mesh_format("tests/sample_files/floats_ints.ply"), Ok(MeshFormat::Ply));
    assert_eq!(mesh_format("/tmp/x.y/object.obj"), Ok(MeshFormat::Obj));
    assert_eq!(mesh_format("robot.dae"), Ok(MeshFormat::Dae));
}

#[test]
fn extension_case_is_ignored() {
    assert_eq!(mesh_format("MESH.STL"), Ok(MeshFormat::Stl));
    assert_eq!(mesh_format("Mesh.Ply"), Ok(MeshFormat::Ply));
    assert_eq!(
        mesh_format("MESH.XYZ"),
        Err(MeshError::UnsupportedFormat { extension: "XYZ".to_string() })
    );
}

#[test]
fn lowercase_extensions_only_in_lookup() {
    assert_eq!(format_for_extension("dae"), Some(MeshFormat::Dae));
    assert_eq!(format_for_extension("obj"), Some(MeshFormat::Obj));
    assert_eq!(format_for_extension("OBJ"), None);
    assert_eq!(format_for_extension(""), None);
    assert_eq!(format_for_extension("stl "), None);
}
