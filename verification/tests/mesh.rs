use actual_game::mesh::{interleave, MeshError, MeshVertex};

#[test]
fn interleave_takes_each_vertex_from_its_place() {
    let positions = vec![0.0f32, 0.1, 0.2, 1.0, 1.1, 1.2];
    let texcoords = vec![0.25f32, 0.75, 0.5, 1.0];
    let normals = vec![0.0f32, 1.0, 0.0, 0.0, 0.0, -1.0];
    let vertices = interleave(&positions, &texcoords, &normals, 0.0).unwrap();
    assert_eq!(
        vertices,
        vec![
            MeshVertex {
                position: [0.0, 0.1, 0.2],
                tex_coords: [0.25, 0.75],
                normal: [0.0, 1.0, 0.0],
            },
            MeshVertex {
                position: [1.0, 1.1, 1.2],
                tex_coords: [0.5, 1.0],
                normal: [0.0, 0.0, -1.0],
            },
        ]
    );
}

#[test]
fn interleave_without_normals_fills_in_the_zero() {
    let positions = vec![1u32, 2, 3, 4, 5, 6];
    let texcoords = vec![7u32, 8, 9, 10];
    let vertices = interleave(&positions, &texcoords, &Vec::new(), 0).unwrap();
    assert_eq!(
        vertices,
        vec![
            MeshVertex { position: [1, 2, 3], tex_coords: [7, 8], normal: [0, 0, 0] },
            MeshVertex { position: [4, 5, 6], tex_coords: [9, 10], normal: [0, 0, 0] },
        ]
    );
}

#[test]
fn interleave_drops_an_unfinished_position() {
    let positions = vec![1u8, 2, 3, 4, 5];
    let texcoords = vec![6u8, 7, 8];
    let vertices = interleave(&positions, &texcoords, &Vec::new(), 9).unwrap();
    assert_eq!(
        vertices,
        vec![MeshVertex { position: [1, 2, 3], tex_coords: [6, 7], normal: [9, 9, 9] }]
    );
}

#[test]
fn interleave_of_nothing_is_nothing() {
    let none: Vec<i32> = Vec::new();
    assert_eq!(interleave(&none, &none, &none, 0), Ok(Vec::new()));
    assert_eq!(interleave(&vec![1, 2], &none, &vec![3], 0), Ok(Vec::new()));
}

#[test]
fn interleave_misses_texture_coordinates() {
    let positions = vec![0i32; 6];
    let normals = vec![0i32; 6];
    assert_eq!(
        interleave(&positions, &vec![0; 3], &normals, 0),
        Err(MeshError::MissingTexCoords)
    );
    assert_eq!(
        interleave(&positions, &Vec::new(), &Vec::new(), 0),
        Err(MeshError::MissingTexCoords)
    );
    assert_eq!(
        interleave(&positions, &vec![0; 3], &vec![0; 1], 0),
        Err(MeshError::MissingTexCoords)
    );
}

#[test]
fn interleave_misses_normals() {
    let positions = vec![0i32; 6];
    let texcoords = vec![0i32; 4];
    assert_eq!(
        interleave(&positions, &texcoords, &vec![0; 5], 0),
        Err(MeshError::MissingNormals)
    );
    assert_eq!(
        interleave(&positions, &texcoords, &vec![0; 1], 0),
        Err(MeshError::MissingNormals)
    );
    assert!(interleave(&positions, &texcoords, &vec![0; 6], 0).is_ok());
}
