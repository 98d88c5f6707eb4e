use sdf_render::geometry::{cube_indices, CUBE_INDEX_COUNT};

#[test]
fn cube_has_thirty_six_indices() {
    let indices = cube_indices();
    assert_eq!(indices.len(), 36);
    assert_eq!(indices.len(), CUBE_INDEX_COUNT);
}

#[test]
fn cube_indices_name_the_eight_corners() {
    let indices = cube_indices();
    assert!(indices.iter().all(|&i| i < 8));
    for corner in 0..8u32 {
        assert!(indices.contains(&corner), "corner {} is never drawn", corner);
    }
}

#[test]
fn cube_indices_are_the_same_every_time() {
    assert_eq!(cube_indices(), cube_indices());
}

#[test]
fn cube_indices_written_out() {
    let expected: Vec<u32> = vec![
        0, 4, 2, 2, 4, 6, //
        1, 3, 5, 5, 3, 7, //
        0, 1, 4, 4, 1, 5, //
        2, 6, 3, 3, 6, 7, //
        0, 2, 1, 1, 2, 3, //
        4, 5, 6, 6, 5, 7,
    ];
    assert_eq!(cube_indices(), expected);
}

#[test]
fn cube_faces_lie_in_side_planes() {
    let indices = cube_indices();
    for face in 0..6usize {
        let axis_bit = 1u32 << (face / 2);
        let far = face % 2 == 1;
        for k in 0..6usize {
            let index = indices[face * 6 + k];
            assert_eq!(index & axis_bit != 0, far, "face {} index {}", face, k);
        }
    }
}

#[test]
fn cube_triangles_have_three_corners() {
    let indices = cube_indices();
    for triangle in indices.chunks(3) {
        assert_ne!(triangle[0], triangle[1]);
        assert_ne!(triangle[1], triangle[2]);
        assert_ne!(triangle[0], triangle[2]);
    }
}

#[test]
fn cube_faces_are_two_triangles_sharing_an_edge() {
    let indices = cube_indices();
    for face in indices.chunks(6) {
        assert_eq!(face[1], face[4]);
        assert_eq!(face[2], face[3]);
        assert_ne!(face[0], face[5]);
    }
}
