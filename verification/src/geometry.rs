//! Static cube geometry.
//!
//! A unit cube as 24 vertices (6 faces of 4 corners each, so every
//! face can carry its own flat color), a flat color per face, the
//! per-vertex expansion of those colors, and the 36 triangle indices
//! (two triangles per face) that the render step draws.  Coordinates
//! are the integers -1 and 1; color channels are 0 or 1.  The host
//! layer converts them to its floating-point vertex formats.

use vstd::prelude::*;
use vstd::arithmetic::div_mod::{
    lemma_div_is_ordered, lemma_fundamental_div_mod_converse_div,
    lemma_fundamental_div_mod_converse_mod,
};

verus! {

/// The 72 vertex coordinates of the cube, three per vertex, four
/// vertices per face, in face order: front, back, top, bottom, right,
/// left.
pub open spec fn cube_positions_spec() -> Seq<i32> {
    seq![
        -1i32, -1i32, 1i32, 1i32, -1i32, 1i32, 1i32, 1i32, 1i32, -1i32, 1i32, 1i32,
        -1i32, -1i32, -1i32, -1i32, 1i32, -1i32, 1i32, 1i32, -1i32, 1i32, -1i32, -1i32,
        -1i32, 1i32, -1i32, -1i32, 1i32, 1i32, 1i32, 1i32, 1i32, 1i32, 1i32, -1i32,
        -1i32, -1i32, -1i32, 1i32, -1i32, -1i32, 1i32, -1i32, 1i32, -1i32, -1i32, 1i32,
        1i32, -1i32, -1i32, 1i32, 1i32, -1i32, 1i32, 1i32, 1i32, 1i32, -1i32, 1i32,
        -1i32, -1i32, -1i32, -1i32, -1i32, 1i32, -1i32, 1i32, 1i32, -1i32, 1i32, -1i32,
    ]
}

/// The flat color of each face, four channels per face: white, red,
/// green, blue, yellow, purple.
pub open spec fn face_colors_spec() -> Seq<u8> {
    seq![
        1u8, 1u8, 1u8, 1u8,
        1u8, 0u8, 0u8, 1u8,
        0u8, 1u8, 0u8, 1u8,
        0u8, 0u8, 1u8, 1u8,
        1u8, 1u8, 0u8, 1u8,
        1u8, 0u8, 1u8, 1u8,
    ]
}

/// Which corner of a face each of its six triangle indices names: the
/// two triangles of a quad are corners (0, 1, 2) and (0, 2, 3).
pub open spec fn tri_corner(k: int) -> int {
    if k == 0 {
        0
    } else if k == 1 {
        1
    } else if k == 2 {
        2
    } else if k == 3 {
        0
    } else if k == 4 {
        2
    } else {
        3
    }
}

/// The vertex positions of the cube.
pub fn cube_positions() -> (r: [i32; 72])
    ensures
        r@ =~= cube_positions_spec(),
{
    [
        -1, -1, 1, 1, -1, 1, 1, 1, 1, -1, 1, 1,
        -1, -1, -1, -1, 1, -1, 1, 1, -1, 1, -1, -1,
        -1, 1, -1, -1, 1, 1, 1, 1, 1, 1, 1, -1,
        -1, -1, -1, 1, -1, -1, 1, -1, 1, -1, -1, 1,
        1, -1, -1, 1, 1, -1, 1, 1, 1, 1, -1, 1,
        -1, -1, -1, -1, -1, 1, -1, 1, 1, -1, 1, -1,
    ]
}

/// The flat face colors.
pub fn face_colors() -> (r: [u8; 24])
    ensures
        r@ =~= face_colors_spec(),
{
    [
        1, 1, 1, 1,
        1, 0, 0, 1,
        0, 1, 0, 1,
        0, 0, 1, 1,
        1, 1, 0, 1,
        1, 0, 1, 1,
    ]
}

/// The per-vertex colors: each of the four corners of face `f` carries
/// face `f`'s color, channel for channel.  Entry `j` belongs to vertex
/// `j / 4`, hence to face `j / 16`, and is channel `j % 4`.
pub fn vertex_colors() -> (r: Vec<u8>)
    ensures
        r@.len() == 96,
        forall|j: int|
            0 <= j < 96 ==> r@[j] == face_colors_spec()[4 * (j / 16) + (j % 4)],
{
    let colors = face_colors();
    let mut out: Vec<u8> = Vec::new();
    let mut j: usize = 0;
    while j < 96
        invariant
            0 <= j <= 96,
            out@.len() == j,
            colors@ =~= face_colors_spec(),
            forall|i: int|
                0 <= i < j ==> out@[i] == face_colors_spec()[4 * (i / 16) + (i % 4)],
        decreases 96 - j,
    {
        proof {
            lemma_div_is_ordered(j as int, 95, 16);
        }
        let f: usize = j / 16;
        let k: usize = j % 4;
        out.push(colors[4 * f + k]);
        j = j + 1;
    }
    out
}

/// Law: in the per-vertex color layout, corner `v`'s channel `k` on
/// face `f` sits at flat position `f * 16 + v * 4 + k` and belongs to
/// face `f`, channel `k`.
pub proof fn lemma_vertex_color_layout(f: int, v: int, k: int)
    requires
        0 <= f < 6,
        0 <= v < 4,
        0 <= k < 4,
    ensures
        (f * 16 + v * 4 + k) / 16 == f,
        (f * 16 + v * 4 + k) % 4 == k,
{
    let j: int = f * 16 + v * 4 + k;
    lemma_fundamental_div_mod_converse_div(j, 16, f, v * 4 + k);
    lemma_fundamental_div_mod_converse_mod(j, 4, 4 * f + v, k);
}

/// The 36 triangle indices: entry `j` belongs to face `j / 6` and
/// names that face's corner `tri_corner(j % 6)`, so every face is two
/// triangles over its four corners and every index is below 24.
pub fn cube_indices() -> (r: Vec<u16>)
    ensures
        r@.len() == 36,
        forall|j: int|
            0 <= j < 36 ==> r@[j] == 4 * (j / 6) + tri_corner(j % 6),
        forall|j: int| 0 <= j < 36 ==> 0 <= #[trigger] r@[j] < 24,
{
    let mut out: Vec<u16> = Vec::new();
    let mut j: usize = 0;
    while j < 36
        invariant
            0 <= j <= 36,
            out@.len() == j,
            forall|i: int|
                0 <= i < j ==> out@[i] == 4 * (i / 6) + tri_corner(i % 6),
            forall|i: int| 0 <= i < j ==> 0 <= #[trigger] out@[i] < 24,
        decreases 36 - j,
    {
        proof {
            lemma_div_is_ordered(j as int, 35, 6);
        }
        let f: usize = j / 6;
        let k: usize = j % 6;
        let corner: u16 = if k == 0 {
            0
        } else if k == 1 {
            1
        } else if k == 2 {
            2
        } else if k == 3 {
            0
        } else if k == 4 {
            2
        } else {
            3
        };
        out.push(4 * (f as u16) + corner);
        j = j + 1;
    }
    out
}

} // verus!
