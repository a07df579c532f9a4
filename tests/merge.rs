use parry3d::math::Vector;
use rs_read_trimesh::merge_meshes;

#[test]
fn test_merge_meshes() {
    let mesh1 = (
        vec![
            Vector::new(0.0, 0.0, 0.0),
            Vector::new(1.0, 0.0, 0.0),
            Vector::new(0.0, 1.0, 0.0),
        ],
        vec![[0, 1, 2]],
    );

    let mesh2 = (
        vec![
            Vector::new(1.0, 1.0, 0.0),
            Vector::new(2.0, 1.0, 0.0),
            Vector::new(1.0, 2.0, 0.0),
        ],
        vec![[0, 1, 2]],
    );

    let (merged_vertices, merged_indices) = merge_meshes(vec![mesh1, mesh2]);

    let expected_vertices = vec![
        Vector::new(0.0, 0.0, 0.0),
        Vector::new(1.0, 0.0, 0.0),
        Vector::new(0.0, 1.0, 0.0),
        Vector::new(1.0, 1.0, 0.0),
        Vector::new(2.0, 1.0, 0.0),
        Vector::new(1.0, 2.0, 0.0),
    ];

    let expected_indices = vec![[0, 1, 2], [3, 4, 5]];

    assert_eq!(merged_vertices, expected_vertices);
    assert_eq!(merged_indices, expected_indices);
}

#[test]
fn merge_single_mesh_is_unchanged() {
    let vertices = vec![[5u8, 6, 7], [8, 9, 10]];
    let indices = vec![[1, 0, 1], [7, 8, 9]];
    let (v, i) = merge_meshes(vec![(vertices.clone(), indices.clone())]);
    assert_eq!(v, vertices);
    assert_eq!(i, indices);
}

#[test]
fn merge_offsets_by_all_earlier_meshes() {
    let a = (vec![1u8, 2], vec![[0, 1, 1]]);
    let b = (vec![3u8, 4, 5], vec![]);
    let c = (vec![6u8], vec![[0, 0, 0], [0, 0, 0]]);
    let (v, i) = merge_meshes(vec![a, b, c]);
    assert_eq!(v, vec![1, 2, 3, 4, 5, 6]);
    assert_eq!(i, vec![[0, 1, 1], [5, 5, 5], [5, 5, 5]]);
}

#[test]
fn merge_of_nothing_is_empty() {
    let (v, i) = merge_meshes::<u8>(vec![]);
    assert!(v.is_empty());
    assert!(i.is_empty());
}
