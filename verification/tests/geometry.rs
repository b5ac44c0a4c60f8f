use cube_spin::geometry::{cube_indices, cube_positions, face_colors, vertex_colors};

#[test]
fn positions_are_24_corners_of_the_unit_cube() {
    let p = cube_positions();
    assert_eq!(p.len(), 72);
    for v in p {
        assert!(v == 1 || v == -1);
    }
    // front face, first corner
    assert_eq!(&p[0..3], &[-1, -1, 1]);
    // left face, last corner
    assert_eq!(&p[69..72], &[-1, 1, -1]);
    // every face's four corners share the coordinate of its plane
    assert_eq!(p[2], 1); // front face is at z = 1
    assert_eq!(p[5], 1);
    assert_eq!(p[8], 1);
    assert_eq!(p[11], 1);
}

#[test]
fn face_colors_are_the_six_flat_colors() {
    let c = face_colors();
    let expected: [u8; 24] = [
        1, 1, 1, 1, // white
        1, 0, 0, 1, // red
        0, 1, 0, 1, // green
        0, 0, 1, 1, // blue
        1, 1, 0, 1, // yellow
        1, 0, 1, 1, // purple
    ];
    assert_eq!(c, expected);
}

#[test]
fn vertex_colors_repeat_each_face_color_four_times() {
    let faces = face_colors();
    let verts = vertex_colors();
    assert_eq!(verts.len(), 96);
    for f in 0..6 {
        for v in 0..4 {
            for k in 0..4 {
                assert_eq!(verts[f * 16 + v * 4 + k], faces[f * 4 + k]);
            }
        }
    }
    // the first face is white, the second red
    assert_eq!(&verts[0..4], &[1, 1, 1, 1]);
    assert_eq!(&verts[16..20], &[1, 0, 0, 1]);
}

#[test]
fn indices_are_two_triangles_per_face() {
    let idx = cube_indices();
    let expected: [u16; 36] = [
        0, 1, 2, 0, 2, 3, //
        4, 5, 6, 4, 6, 7, //
        8, 9, 10, 8, 10, 11, //
        12, 13, 14, 12, 14, 15, //
        16, 17, 18, 16, 18, 19, //
        20, 21, 22, 20, 22, 23,
    ];
    assert_eq!(idx.as_slice(), &expected);
    for i in idx {
        assert!(i < 24);
    }
}
