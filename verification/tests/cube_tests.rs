use diorama_mc::cube::{
    AtlasPlacement, Axis, Cube, Face, ATLAS_COLUMNS, ATLAS_HEIGHT, ATLAS_ROWS, ATLAS_WIDTH,
    CELL_HEIGHT, CELL_WIDTH,
};
use diorama_mc::material::Material;
use diorama_mc::scalar::Scalar;

fn s(x: f32) -> Scalar {
    Scalar::from_bits(x.to_bits())
}

fn f(x: Scalar) -> f32 {
    f32::from_bits(x.to_bits())
}

fn v(x: f32, y: f32, z: f32) -> [Scalar; 3] {
    [s(x), s(y), s(z)]
}

fn faces() -> [Face; 6] {
    [Face::Left, Face::Right, Face::Bottom, Face::Top, Face::Back, Face::Front]
}

fn unit_cube() -> Cube {
    Cube { min: v(-0.5, -0.5, -0.5), max: v(0.5, 0.5, 0.5), material: Material::black() }
}

/// The plane parameters of a ray against a box, as the host computes them.
fn parameters(
    min: [f32; 3],
    max: [f32; 3],
    origin: [f32; 3],
    direction: [f32; 3],
) -> ([Scalar; 3], [Scalar; 3]) {
    let mut t_min = [Scalar::zero(); 3];
    let mut t_max = [Scalar::zero(); 3];
    for axis in 0..3 {
        let inverse = 1.0 / direction[axis];
        t_min[axis] = s((min[axis] - origin[axis]) * inverse);
        t_max[axis] = s((max[axis] - origin[axis]) * inverse);
    }
    (t_min, t_max)
}

fn hit(origin: [f32; 3], direction: [f32; 3]) -> Option<f32> {
    let (t_min, t_max) = parameters([-0.5; 3], [0.5; 3], origin, direction);
    Cube::slab_hit(&t_min, &t_max).map(f)
}

#[test]
fn atlas_is_three_by_four_cells() {
    assert_eq!(ATLAS_COLUMNS * CELL_WIDTH, ATLAS_WIDTH);
    assert_eq!(ATLAS_ROWS * CELL_HEIGHT, ATLAS_HEIGHT);
    assert_eq!((ATLAS_WIDTH, ATLAS_HEIGHT), (375, 500));
    assert_eq!((CELL_WIDTH, CELL_HEIGHT), (125, 125));
}

#[test]
fn normals_are_the_axis_directions() {
    let expected: [(Face, [f32; 3]); 6] = [
        (Face::Left, [-1.0, 0.0, 0.0]),
        (Face::Right, [1.0, 0.0, 0.0]),
        (Face::Bottom, [0.0, -1.0, 0.0]),
        (Face::Top, [0.0, 1.0, 0.0]),
        (Face::Back, [0.0, 0.0, -1.0]),
        (Face::Front, [0.0, 0.0, 1.0]),
    ];
    for (face, normal) in expected {
        let n = face.normal();
        for axis in 0..3 {
            assert_eq!(n[axis].to_bits(), normal[axis].to_bits(), "{face:?} axis {axis}");
        }
    }
}

#[test]
fn the_normal_of_a_face_gives_the_face_back() {
    for face in faces() {
        assert_eq!(Face::from_normal(&face.normal()), face);
    }
}

#[test]
fn from_normal_reads_the_first_coordinate_that_is_not_zero() {
    assert_eq!(Face::from_normal(&v(0.2, -3.0, 5.0)), Face::Right);
    assert_eq!(Face::from_normal(&v(-0.2, 3.0, 5.0)), Face::Left);
    assert_eq!(Face::from_normal(&v(0.0, 0.1, -5.0)), Face::Top);
    assert_eq!(Face::from_normal(&v(-0.0, -0.1, 5.0)), Face::Bottom);
    assert_eq!(Face::from_normal(&v(0.0, 0.0, 0.3)), Face::Front);
    assert_eq!(Face::from_normal(&v(0.0, 0.0, -0.3)), Face::Back);
    assert_eq!(Face::from_normal(&v(0.0, 0.0, 0.0)), Face::Back);
    assert_eq!(Face::from_normal(&v(f32::NAN, f32::NAN, f32::NAN)), Face::Back);
    assert_eq!(Face::from_normal(&v(f32::NAN, 1.0, 0.0)), Face::Top);
}

#[test]
fn placements_follow_the_atlas_layout() {
    let cell = |column, row, u_axis, u_flipped, v_axis, v_flipped| AtlasPlacement {
        column,
        row,
        u_axis,
        u_flipped,
        v_axis,
        v_flipped,
    };
    assert_eq!(Face::Right.placement(), cell(2, 1, Axis::Y, false, Axis::Z, true));
    assert_eq!(Face::Left.placement(), cell(0, 1, Axis::Y, true, Axis::Z, true));
    assert_eq!(Face::Top.placement(), cell(1, 3, Axis::X, false, Axis::Z, false));
    assert_eq!(Face::Bottom.placement(), cell(1, 1, Axis::X, false, Axis::Z, false));
    assert_eq!(Face::Front.placement(), cell(1, 0, Axis::X, false, Axis::Y, true));
    assert_eq!(Face::Back.placement(), cell(1, 2, Axis::X, false, Axis::Y, false));
}

#[test]
fn origins_are_cell_corners() {
    assert_eq!(Face::Right.placement().origin(), (250, 125));
    assert_eq!(Face::Left.placement().origin(), (0, 125));
    assert_eq!(Face::Top.placement().origin(), (125, 375));
    assert_eq!(Face::Bottom.placement().origin(), (125, 125));
    assert_eq!(Face::Front.placement().origin(), (125, 0));
    assert_eq!(Face::Back.placement().origin(), (125, 250));
}

#[test]
fn every_pixel_of_a_cell_maps_back_to_its_face() {
    for face in faces() {
        let (ox, oy) = face.placement().origin();
        for dy in 0..CELL_HEIGHT {
            for dx in 0..CELL_WIDTH {
                let px = ox as u32 + dx;
                let py = oy as u32 + dy;
                assert_eq!(Face::at_atlas_pixel(px, py), Some(face), "({px}, {py})");
            }
        }
    }
}

#[test]
fn no_two_faces_share_a_cell() {
    let all = faces();
    for a in 0..6 {
        for b in 0..6 {
            if a != b {
                let pa = all[a].placement();
                let pb = all[b].placement();
                assert!((pa.column, pa.row) != (pb.column, pb.row));
            }
        }
    }
}

#[test]
fn cells_without_a_face_map_to_none() {
    assert_eq!(Face::at_atlas_pixel(0, 0), None);
    assert_eq!(Face::at_atlas_pixel(124, 124), None);
    assert_eq!(Face::at_atlas_pixel(250, 0), None);
    assert_eq!(Face::at_atlas_pixel(0, 250), None);
    assert_eq!(Face::at_atlas_pixel(300, 300), None);
    assert_eq!(Face::at_atlas_pixel(0, 400), None);
    assert_eq!(Face::at_atlas_pixel(374, 499), None);
    assert_eq!(Face::at_atlas_pixel(375, 125), None);
    assert_eq!(Face::at_atlas_pixel(125, 500), None);
    assert_eq!(Face::at_atlas_pixel(u32::MAX, u32::MAX), None);
    assert_eq!(Face::at_atlas_pixel(125, 0), Some(Face::Front));
    assert_eq!(Face::at_atlas_pixel(249, 124), Some(Face::Front));
    assert_eq!(Face::at_atlas_pixel(250, 125), Some(Face::Right));
    assert_eq!(Face::at_atlas_pixel(124, 125), Some(Face::Left));
}

#[test]
fn get_uv_goes_by_the_normal() {
    let cube = unit_cube();
    for face in faces() {
        assert_eq!(cube.get_uv(&face.normal()), face.placement());
        assert_eq!(cube.get_uv(&face.normal()), cube.get_uv(&face.normal()));
    }
    assert_eq!(cube.get_uv(&v(0.0, 0.0, 0.0)), Face::Back.placement());
}

#[test]
fn face_at_tries_x_then_y_then_z() {
    let far = 0.4f32;
    let near = 0.0005f32;
    assert_eq!(Cube::face_at(&v(near, far, far), &v(-far, -far, -far)), Face::Left);
    assert_eq!(Cube::face_at(&v(-near, far, far), &v(-far, -far, -far)), Face::Left);
    assert_eq!(Cube::face_at(&v(far, far, far), &v(-near, -far, -far)), Face::Right);
    assert_eq!(Cube::face_at(&v(far, near, far), &v(-far, -far, -far)), Face::Bottom);
    assert_eq!(Cube::face_at(&v(far, far, far), &v(-far, near, -far)), Face::Top);
    assert_eq!(Cube::face_at(&v(far, far, near), &v(-far, -far, -far)), Face::Back);
    assert_eq!(Cube::face_at(&v(far, far, far), &v(-far, -far, near)), Face::Front);
    assert_eq!(Cube::face_at(&v(far, far, far), &v(-far, -far, -far)), Face::Front);
    assert_eq!(Cube::face_at(&v(near, near, near), &v(near, near, near)), Face::Left);
    assert_eq!(Cube::face_at(&v(far, near, near), &v(near, near, near)), Face::Right);
    assert_eq!(Cube::face_at(&v(far, near, near), &v(far, near, near)), Face::Bottom);
}

#[test]
fn the_tolerance_is_strict() {
    let far = 0.4f32;
    assert_eq!(Cube::face_at(&v(0.001, far, far), &v(-far, -far, -far)), Face::Front);
    assert_eq!(
        Cube::face_at(&v(f32::from_bits(0.001f32.to_bits() - 1), far, far), &v(-far, -far, -far)),
        Face::Left
    );
    assert_eq!(Cube::face_at(&v(f32::NAN, far, far), &v(-far, -far, -far)), Face::Front);
}

#[test]
fn a_ray_straight_at_the_front_hits_at_the_front_plane() {
    assert_eq!(hit([0.0, 0.0, 5.0], [0.0, 0.0, -1.0]), Some(4.5));
    assert_eq!(hit([0.25, -0.25, 5.0], [0.0, 0.0, -1.0]), Some(4.5));
    assert_eq!(hit([-3.0, 0.0, 0.0], [1.0, 0.0, 0.0]), Some(2.5));
    assert_eq!(hit([0.0, 7.0, 0.0], [0.0, -2.0, 0.0]), Some(3.25));
}

#[test]
fn a_slanted_ray_enters_through_the_last_slab_it_reaches() {
    assert_eq!(hit([-2.0, -2.0, -2.0], [1.0, 1.0, 1.0]), Some(1.5));
    assert_eq!(hit([-1.5, 0.0, 0.0], [1.0, 0.25, 0.0]), Some(1.0));
}

#[test]
fn a_ray_outside_the_overlap_of_the_slabs_misses() {
    assert_eq!(hit([2.0, 0.0, 5.0], [0.0, 0.0, -1.0]), None);
    assert_eq!(hit([0.0, 0.51, 5.0], [0.0, 0.0, -1.0]), None);
    assert_eq!(hit([-2.0, -2.0, 0.0], [1.0, -1.0, 0.0]), None);
    assert_eq!(hit([-2.0, 0.0, 0.0], [1.0, 2.0, 0.0]), None);
    assert_eq!(hit([5.0, 5.0, 5.0], [-1.0, -1.0, 1.0]), None);
}

#[test]
fn a_box_behind_the_ray_is_missed() {
    assert_eq!(hit([0.0, 0.0, 5.0], [0.0, 0.0, 1.0]), None);
    assert_eq!(hit([0.0, 0.0, -5.0], [0.0, 0.0, -1.0]), None);
    assert_eq!(hit([3.0, 3.0, 3.0], [1.0, 1.0, 1.0]), None);
}

#[test]
fn a_ray_from_inside_hits_where_it_starts() {
    for (origin, direction) in [
        ([0.0, 0.0, 0.0], [0.0, 0.0, -1.0]),
        ([0.25, 0.0, 0.0], [1.0, 0.0, 0.0]),
        ([0.1, 0.2, 0.3], [0.3, -0.2, 0.9]),
        ([-0.4, 0.4, -0.4], [-1.0, 1.0, -1.0]),
    ] {
        let t = hit(origin, direction).unwrap();
        assert_eq!(t.to_bits(), 0.0f32.to_bits(), "from {origin:?} along {direction:?}");
    }
}

#[test]
fn no_hit_lies_behind_the_ray() {
    let places = [-3.0f32, -0.6, -0.5, -0.25, 0.0, 0.25, 0.5, 0.6, 3.0];
    let directions = [[1.0f32, 0.0, 0.0], [0.0, -1.0, 0.0], [1.0, 1.0, 1.0], [-2.0, 0.5, 0.1]];
    for x in places {
        for y in places {
            for z in places {
                for direction in directions {
                    if let Some(t) = hit([x, y, z], direction) {
                        assert!(t >= 0.0 && !t.is_sign_negative(), "({x}, {y}, {z}): {t}");
                    }
                }
            }
        }
    }
}

#[test]
fn a_ray_on_a_face_looking_in_hits_at_zero() {
    let t = hit([0.0, 0.0, 0.5], [0.0, 0.0, -1.0]).unwrap();
    assert_eq!(t.to_bits(), 0.0f32.to_bits());
    assert_eq!(hit([0.0, 0.0, 0.5], [0.0, 0.0, 1.0]), None);
}

#[test]
fn a_ray_along_a_slab_has_infinite_parameters_and_still_hits() {
    let (t_min, t_max) = parameters([-0.5; 3], [0.5; 3], [0.0, 0.0, 5.0], [0.0, 0.0, -1.0]);
    assert!(f(t_min[0]).is_infinite() && f(t_max[0]).is_infinite());
    assert!(f(t_min[1]).is_infinite() && f(t_max[1]).is_infinite());
    assert_eq!(Cube::slab_hit(&t_min, &t_max).map(f), Some(4.5));
}

#[test]
fn a_ray_in_a_face_plane_misses() {
    let (t_min, t_max) = parameters([-0.5; 3], [0.5; 3], [0.5, 0.0, 5.0], [0.0, 0.0, -1.0]);
    assert!(f(t_max[0]).is_nan());
    assert_eq!(Cube::slab_hit(&t_min, &t_max).map(f), None);
}

#[test]
fn the_slab_test_reads_parameters_only() {
    let inf = f32::INFINITY;
    assert_eq!(Cube::slab_hit(&v(1.0, -inf, -inf), &v(2.0, inf, inf)).map(f), Some(1.0));
    assert_eq!(Cube::slab_hit(&v(2.0, -inf, -inf), &v(1.0, inf, inf)).map(f), Some(1.0));
    assert_eq!(Cube::slab_hit(&v(1.0, 3.0, 0.0), &v(2.0, 4.0, 5.0)).map(f), None);
    assert_eq!(Cube::slab_hit(&v(1.0, 2.0, 0.0), &v(2.0, 4.0, 5.0)).map(f), None);
    assert_eq!(Cube::slab_hit(&v(1.0, 1.5, 0.0), &v(2.0, 4.0, 5.0)).map(f), Some(1.5));
    assert_eq!(Cube::slab_hit(&v(-3.0, -2.0, -4.0), &v(-1.0, -1.0, -0.5)).map(f), None);
    assert_eq!(Cube::slab_hit(&v(-3.0, -2.0, -4.0), &v(0.0, 1.0, 0.5)).map(f), None);
    let inside = Cube::slab_hit(&v(-3.0, -2.0, -4.0), &v(0.25, 1.0, 0.5)).unwrap();
    assert_eq!(inside.to_bits(), 0.0f32.to_bits());
    let on_the_entry = Cube::slab_hit(&v(-3.0, -0.0, -4.0), &v(0.25, 1.0, 0.5)).unwrap();
    assert_eq!(on_the_entry.to_bits(), 0.0f32.to_bits());
}

#[test]
fn a_hit_lies_inside_every_slab() {
    let rays: [([f32; 3], [f32; 3]); 5] = [
        ([0.0, 0.0, 5.0], [0.0, 0.0, -1.0]),
        ([-2.0, -2.0, -2.0], [1.0, 1.0, 1.0]),
        ([-1.5, 0.0, 0.0], [1.0, 0.25, 0.0]),
        ([3.0, 0.2, -0.1], [-2.0, 0.1, 0.1]),
        ([0.1, 0.2, 0.3], [0.3, -0.2, 0.9]),
    ];
    for (origin, direction) in rays {
        let (t_min, t_max) = parameters([-0.5; 3], [0.5; 3], origin, direction);
        let t = f(Cube::slab_hit(&t_min, &t_max).unwrap());
        let mut entered_here = false;
        for axis in 0..3 {
            let near = f(t_min[axis].min(t_max[axis]));
            let far = f(t_min[axis].max(t_max[axis]));
            assert!(near <= t && t < far, "axis {axis}: {near} <= {t} < {far}");
            entered_here = entered_here || near == t;
        }
        assert!(t >= 0.0);
        assert!(entered_here || t == 0.0);
    }
}

#[test]
fn slabs_that_do_not_overlap_are_missed() {
    // The ray leaves the x slab at 2 and enters the y slab at 3.
    assert_eq!(Cube::slab_hit(&v(1.0, 3.0, 0.0), &v(2.0, 4.0, 5.0)).map(f), None);
    // It leaves the x slab just as it enters the y slab.
    assert_eq!(Cube::slab_hit(&v(1.0, 2.0, 0.0), &v(2.0, 4.0, 5.0)).map(f), None);
    // All three overlap from 1.5 to 2.
    assert_eq!(Cube::slab_hit(&v(1.0, 1.5, 0.0), &v(2.0, 4.0, 5.0)).map(f), Some(1.5));
}
