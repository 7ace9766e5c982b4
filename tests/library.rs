use raytracer::axis::{get_axis, Axis, Plane};
use raytracer::bvh::{bvh_split, BvhError, BvhSplit};
use raytracer::integrator::{path_action, PathAction};
use raytracer::perlin::{
    check_permutation, perlin_generate_perm, permute, permute_with, PerlinLattice, POINT_COUNT,
};
use raytracer::scan::pixel_coords;
use raytracer::texture::ImageTexture;
use raytracer::vector::{Vector3Const, VectorConst};

fn is_perm(v: &[usize], n: usize) -> bool {
    let mut seen = vec![false; n];
    if v.len() != n {
        return false;
    }
    for &x in v {
        if x >= n || seen[x] {
            return false;
        }
        seen[x] = true;
    }
    true
}

#[test]
fn plane_axes_are_cyclic() {
    assert_eq!(Plane::YZ.axes(), (0, 1, 2));
    assert_eq!(Plane::ZX.axes(), (1, 2, 0));
    assert_eq!(Plane::XY.axes(), (2, 0, 1));
}

#[test]
fn rotation_axes_are_cyclic() {
    assert_eq!(get_axis(&Axis::X), (0, 1, 2));
    assert_eq!(get_axis(&Axis::Y), (1, 2, 0));
    assert_eq!(get_axis(&Axis::Z), (2, 0, 1));
}

// A 2 by 2 image: top row red, green; bottom row blue, white.
fn two_by_two() -> ImageTexture {
    let data = vec![
        255, 0, 0, 0, 255, 0, //
        0, 0, 255, 255, 255, 255,
    ];
    ImageTexture::new(data, 2, 2)
}

#[test]
fn image_texture_keeps_dimensions() {
    let t = two_by_two();
    assert_eq!(t.nx(), 2);
    assert_eq!(t.ny(), 2);
    assert!(t.is_well_formed());
}

#[test]
fn image_texture_reads_each_pixel() {
    let t = two_by_two();
    assert_eq!(t.texel(0, 0), (255, 0, 0));
    assert_eq!(t.texel(1, 0), (0, 255, 0));
    assert_eq!(t.texel(0, 1), (0, 0, 255));
    assert_eq!(t.texel(1, 1), (255, 255, 255));
    assert_eq!(t.texel_index(1, 1), 9);
}

#[test]
fn image_texture_clamps_past_the_edge() {
    let t = two_by_two();
    assert_eq!(t.texel(2, 0), (0, 255, 0));
    assert_eq!(t.texel(7, 9), (255, 255, 255));
    assert_eq!(t.texel_index(usize::MAX, usize::MAX), 9);
}

#[test]
fn image_texture_rejects_short_or_empty_data() {
    assert!(!ImageTexture::new(vec![0; 11], 2, 2).is_well_formed());
    assert!(!ImageTexture::new(vec![], 0, 3).is_well_formed());
    assert!(!ImageTexture::new(vec![1, 2, 3], 1, 0).is_well_formed());
    assert!(ImageTexture::new(vec![1, 2, 3], 1, 1).is_well_formed());
}

#[test]
fn permute_with_follows_targets() {
    let mut p = vec![0, 1, 2, 3];
    // i = 3 swaps with 0, then i = 2 with 2, i = 1 with 0, i = 0 with 0.
    permute_with(&mut p, &vec![0, 0, 2, 0]);
    assert_eq!(p, vec![1, 3, 2, 0]);
}

#[test]
fn permute_with_touches_only_the_prefix() {
    let mut p = vec![5, 6, 7, 8, 9];
    permute_with(&mut p, &vec![0, 0]);
    assert_eq!(p, vec![6, 5, 7, 8, 9]);
}

#[test]
fn permute_keeps_the_elements() {
    let mut p: Vec<usize> = (0..50).collect();
    permute(&mut p, 40);
    assert!(is_perm(&p, 50));
    assert_eq!(&p[40..], &(40..50).collect::<Vec<usize>>()[..]);
}

#[test]
fn generated_perm_is_a_permutation() {
    for _ in 0..20 {
        let p = perlin_generate_perm();
        assert_eq!(p.len(), POINT_COUNT);
        assert!(is_perm(&p, POINT_COUNT));
        assert!(check_permutation(&p));
    }
}

#[test]
fn check_permutation_spots_defects() {
    let id: Vec<usize> = (0..256).collect();
    assert!(check_permutation(&id));
    let mut dup = id.clone();
    dup[7] = 3;
    assert!(!check_permutation(&dup));
    let mut big = id.clone();
    big[0] = 256;
    assert!(!check_permutation(&big));
    assert!(!check_permutation(&id[..255].to_vec()));
}

#[test]
fn lattice_hashes_with_xor() {
    let id: Vec<usize> = (0..256).collect();
    let rev: Vec<usize> = (0..256).rev().collect();
    let l = PerlinLattice::from_tables(id.clone(), rev, id.clone()).unwrap();
    assert_eq!(l.corner(0, 0, 0), 255);
    assert_eq!(l.corner(1, 2, 3), 1 ^ 253 ^ 3);
    // Coordinates wrap every 256 cells.
    assert_eq!(l.corner(257, 2, 259), l.corner(1, 2, 3));
    assert_eq!(l.corner(usize::MAX, 0, 0), 255 ^ 255 ^ 0);
}

#[test]
fn lattice_rejects_bad_tables() {
    let id: Vec<usize> = (0..256).collect();
    let short: Vec<usize> = (0..10).collect();
    assert!(PerlinLattice::from_tables(id.clone(), short, id.clone()).is_none());
}

#[test]
fn random_lattice_stays_in_range() {
    let l = PerlinLattice::new();
    for i in 0..300 {
        assert!(l.corner(i, i * 7, i * 13) < POINT_COUNT);
    }
}

#[test]
fn scan_order_starts_at_top_left() {
    assert_eq!(pixel_coords(0, 4, 3), (0, 2));
    assert_eq!(pixel_coords(3, 4, 3), (3, 2));
    assert_eq!(pixel_coords(4, 4, 3), (0, 1));
    assert_eq!(pixel_coords(11, 4, 3), (3, 0));
}

#[derive(Clone, Copy, PartialEq, Debug)]
struct V(i32, i32, i32);

impl VectorConst for V {
    const ZERO: Self = V(0, 0, 0);
    const ONE: Self = V(1, 1, 1);
}

impl Vector3Const for V {
    const X: Self = V(1, 0, 0);
    const Y: Self = V(0, 1, 0);
    const Z: Self = V(0, 0, 1);
}

#[test]
fn vector_constants_can_be_provided() {
    assert_eq!(V::ZERO, V(0, 0, 0));
    assert_eq!(<V as Vector3Const>::Y, V(0, 1, 0));
}

#[test]
fn bvh_split_refuses_an_empty_list() {
    assert_eq!(bvh_split(0, true), Err(BvhError::Empty));
    assert_eq!(bvh_split(0, false), Err(BvhError::Empty));
}

#[test]
fn bvh_split_refuses_an_unbounded_object() {
    assert_eq!(bvh_split(1, false), Err(BvhError::Unbounded));
    assert_eq!(bvh_split(9, false), Err(BvhError::Unbounded));
}

#[test]
fn bvh_split_makes_a_leaf_of_one_object() {
    assert_eq!(bvh_split(1, true), Ok(BvhSplit::Leaf));
}

#[test]
fn bvh_split_halves_at_the_midpoint() {
    assert_eq!(bvh_split(2, true), Ok(BvhSplit::Branch { mid: 1 }));
    assert_eq!(bvh_split(7, true), Ok(BvhSplit::Branch { mid: 3 }));
    assert_eq!(bvh_split(1000, true), Ok(BvhSplit::Branch { mid: 500 }));
}

fn leaves(len: usize) -> usize {
    match bvh_split(len, true).unwrap() {
        BvhSplit::Leaf => 1,
        BvhSplit::Branch { mid } => leaves(mid) + leaves(len - mid),
    }
}

#[test]
fn bvh_split_puts_each_object_in_one_leaf() {
    for n in 1..200 {
        assert_eq!(leaves(n), n);
    }
}

#[test]
fn path_action_on_a_miss_is_black() {
    assert_eq!(path_action(0, false), PathAction::Background);
    assert_eq!(path_action(50, false), PathAction::Background);
}

#[test]
fn path_action_at_depth_zero_only_emits() {
    assert_eq!(path_action(0, true), PathAction::Emit);
    assert_eq!(path_action(-3, true), PathAction::Emit);
}

#[test]
fn path_action_bounces_with_one_less_depth() {
    assert_eq!(path_action(50, true), PathAction::Bounce { depth: 49 });
    assert_eq!(path_action(1, true), PathAction::Bounce { depth: 0 });
}

#[test]
fn path_action_stops_within_the_depth() {
    let mut depth = 50;
    let mut bounces = 0;
    while let PathAction::Bounce { depth: next } = path_action(depth, true) {
        depth = next;
        bounces += 1;
    }
    assert_eq!(bounces, 50);
}

#[test]
fn texel_checked_reads_like_texel() {
    let t = two_by_two();
    assert_eq!(t.texel_checked(1, 0), Some((0, 255, 0)));
    assert_eq!(t.texel_checked(5, 5), Some((255, 255, 255)));
}

#[test]
fn texel_checked_reports_missing_bytes() {
    // Only the top row is present.
    let t = ImageTexture::new(vec![1, 2, 3, 4, 5, 6], 2, 2);
    assert_eq!(t.texel_checked(1, 0), Some((4, 5, 6)));
    assert_eq!(t.texel_checked(0, 1), None);
    assert_eq!(ImageTexture::new(vec![1, 2, 3], 0, 1).texel_checked(0, 0), None);
    assert_eq!(ImageTexture::new(vec![1, 2, 3], 1, 0).texel_checked(0, 0), None);
}
