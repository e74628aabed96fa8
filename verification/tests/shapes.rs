use voxel_sculptor::shapes::{generate_shape, Shape, ShapeType, VoxelData};

const KINDS: [ShapeType; 6] = [
    ShapeType::Circle,
    ShapeType::Sphere,
    ShapeType::Cube,
    ShapeType::SquarePyramid,
    ShapeType::Cone,
    ShapeType::Cylinder,
];

fn shape(shape_type: ShapeType, width: u32, height: u32, depth: u32) -> Shape {
    Shape { shape_type, width, height, depth }
}

fn voxels(shape_type: ShapeType, width: u32, height: u32, depth: u32) -> Vec<(i32, i32, i32)> {
    generate_shape(&shape(shape_type, width, height, depth))
}

fn position(s: &Shape, v: &(i32, i32, i32)) -> u64 {
    (v.0 as u64 * s.height as u64 + v.1 as u64) * s.depth as u64 + v.2 as u64
}

#[test]
fn unit_cube_is_a_single_voxel() {
    assert_eq!(voxels(ShapeType::Cube, 1, 1, 1), vec![(0, 0, 0)]);
}

#[test]
fn cube_of_two_cells_runs_along_x() {
    assert_eq!(voxels(ShapeType::Cube, 2, 1, 1), vec![(0, 0, 0), (1, 0, 0)]);
}

#[test]
fn cube_traverses_x_then_y_then_z() {
    assert_eq!(
        voxels(ShapeType::Cube, 2, 2, 3),
        vec![
            (0, 0, 0),
            (0, 0, 1),
            (0, 0, 2),
            (0, 1, 0),
            (0, 1, 1),
            (0, 1, 2),
            (1, 0, 0),
            (1, 0, 1),
            (1, 0, 2),
            (1, 1, 0),
            (1, 1, 1),
            (1, 1, 2),
        ]
    );
}

#[test]
fn cube_fills_the_grid_once() {
    let s = shape(ShapeType::Cube, 3, 4, 5);
    let out = generate_shape(&s);
    assert_eq!(out.len(), 3 * 4 * 5);
    for (k, v) in out.iter().enumerate() {
        assert_eq!(position(&s, v), k as u64);
    }
    for x in 0..3 {
        for y in 0..4 {
            for z in 0..5 {
                assert_eq!(out.iter().filter(|v| **v == (x, y, z)).count(), 1);
            }
        }
    }
}

#[test]
fn cube_counts() {
    for (n, count) in [(1u32, 1usize), (2, 8), (3, 27), (4, 64), (5, 125), (8, 512), (32, 32768)] {
        assert_eq!(voxels(ShapeType::Cube, n, n, n).len(), count);
    }
}

#[test]
fn sphere_of_three_drops_the_corners() {
    assert_eq!(
        voxels(ShapeType::Sphere, 3, 3, 3),
        vec![
            (0, 0, 1),
            (0, 1, 0),
            (0, 1, 1),
            (0, 1, 2),
            (0, 2, 1),
            (1, 0, 0),
            (1, 0, 1),
            (1, 0, 2),
            (1, 1, 0),
            (1, 1, 1),
            (1, 1, 2),
            (1, 2, 0),
            (1, 2, 1),
            (1, 2, 2),
            (2, 0, 1),
            (2, 1, 0),
            (2, 1, 1),
            (2, 1, 2),
            (2, 2, 1),
        ]
    );
}

#[test]
fn sphere_counts() {
    for (n, count) in [(1u32, 1usize), (2, 8), (3, 19), (4, 32), (5, 81), (8, 280), (32, 17256)] {
        assert_eq!(voxels(ShapeType::Sphere, n, n, n).len(), count);
    }
    assert_eq!(voxels(ShapeType::Sphere, 4, 2, 6).len(), 24);
}

#[test]
fn circle_lies_in_the_bottom_layer() {
    assert_eq!(
        voxels(ShapeType::Circle, 4, 3, 4),
        vec![
            (0, 0, 1),
            (0, 0, 2),
            (1, 0, 0),
            (1, 0, 1),
            (1, 0, 2),
            (1, 0, 3),
            (2, 0, 0),
            (2, 0, 1),
            (2, 0, 2),
            (2, 0, 3),
            (3, 0, 1),
            (3, 0, 2),
        ]
    );
}

#[test]
fn circle_counts() {
    for (n, count) in [(1u32, 1usize), (2, 4), (3, 9), (4, 12), (5, 21), (8, 52), (32, 812)] {
        assert_eq!(voxels(ShapeType::Circle, n, n, n).len(), count);
    }
}

#[test]
fn circle_without_height_is_empty() {
    assert_eq!(voxels(ShapeType::Circle, 4, 0, 4), vec![]);
}

#[test]
fn cylinder_repeats_the_circle_in_every_layer() {
    let circle = voxels(ShapeType::Circle, 5, 1, 4);
    let cylinder = voxels(ShapeType::Cylinder, 5, 3, 4);
    assert_eq!(cylinder.len(), 3 * circle.len());
    for y in 0..3 {
        for v in &circle {
            assert!(cylinder.contains(&(v.0, y, v.2)));
        }
    }
}

#[test]
fn cylinder_counts() {
    for (n, count) in [(1u32, 1usize), (2, 8), (3, 27), (4, 48), (5, 105), (8, 416), (32, 25984)] {
        assert_eq!(voxels(ShapeType::Cylinder, n, n, n).len(), count);
    }
    assert_eq!(voxels(ShapeType::Cylinder, 4, 2, 4).len(), 24);
    assert_eq!(
        voxels(ShapeType::Cylinder, 2, 1, 3),
        vec![(0, 0, 0), (0, 0, 1), (0, 0, 2), (1, 0, 0), (1, 0, 1), (1, 0, 2)]
    );
}

#[test]
fn cone_narrows_with_height() {
    assert_eq!(
        voxels(ShapeType::Cone, 4, 2, 4),
        vec![
            (0, 0, 1),
            (0, 0, 2),
            (1, 0, 0),
            (1, 0, 1),
            (1, 0, 2),
            (1, 0, 3),
            (1, 1, 1),
            (1, 1, 2),
            (2, 0, 0),
            (2, 0, 1),
            (2, 0, 2),
            (2, 0, 3),
            (2, 1, 1),
            (2, 1, 2),
            (3, 0, 1),
            (3, 0, 2),
        ]
    );
}

#[test]
fn cone_keeps_cells_on_its_surface() {
    // At y = 1 of 3 the factor is 2/3, and z = 0 and z = 2 lie at exactly 2/3.
    assert_eq!(
        voxels(ShapeType::Cone, 1, 3, 3),
        vec![(0, 0, 0), (0, 0, 1), (0, 0, 2), (0, 1, 0), (0, 1, 1), (0, 1, 2), (0, 2, 1)]
    );
}

#[test]
fn cone_counts() {
    for (n, count) in [(1u32, 1usize), (2, 4), (3, 15), (4, 20), (5, 49), (8, 152), (32, 8904)] {
        assert_eq!(voxels(ShapeType::Cone, n, n, n).len(), count);
    }
}

#[test]
fn pyramid_of_five_narrows_layer_by_layer() {
    let out = voxels(ShapeType::SquarePyramid, 5, 5, 5);
    let layer = |y: i32| out.iter().filter(|v| v.1 == y).count();
    // Half extents 3, 2, 2, 1, 1 around the centre cell 2.
    assert_eq!([layer(0), layer(1), layer(2), layer(3), layer(4)], [25, 16, 16, 4, 4]);
    let top: Vec<(i32, i32, i32)> = out.iter().copied().filter(|v| v.1 == 4).collect();
    assert_eq!(top, vec![(1, 4, 1), (1, 4, 2), (2, 4, 1), (2, 4, 2)]);
    for y in 1..5 {
        assert!(layer(y) <= layer(y - 1));
    }
}

#[test]
fn pyramid_half_extent_is_exact_where_it_is_whole() {
    // 12 * (1/6) / 2 is exactly 1, so the top layer spans two cells a side.
    let out = voxels(ShapeType::SquarePyramid, 12, 6, 12);
    let top: Vec<(i32, i32, i32)> = out.iter().copied().filter(|v| v.1 == 5).collect();
    assert_eq!(top, vec![(5, 5, 5), (5, 5, 6), (6, 5, 5), (6, 5, 6)]);
}

#[test]
fn pyramid_lower_bound_is_clamped() {
    // Half extent 1 around centre cell 0: the span [-1, 1) is cut to [0, 1).
    assert_eq!(voxels(ShapeType::SquarePyramid, 1, 1, 1), vec![(0, 0, 0)]);
    assert_eq!(voxels(ShapeType::SquarePyramid, 1, 2, 1), vec![(0, 0, 0), (0, 1, 0)]);
}

#[test]
fn pyramid_counts() {
    for (n, count) in [(1u32, 1usize), (2, 8), (3, 17), (4, 40), (5, 65), (8, 240), (32, 11968)] {
        assert_eq!(voxels(ShapeType::SquarePyramid, n, n, n).len(), count);
    }
}

#[test]
fn every_voxel_lies_in_the_grid() {
    for kind in KINDS {
        for (w, h, d) in [(1u32, 1u32, 1u32), (2, 3, 4), (5, 5, 5), (7, 2, 9), (32, 32, 32)] {
            for v in generate_shape(&shape(kind, w, h, d)) {
                assert!(0 <= v.0 && (v.0 as u32) < w);
                assert!(0 <= v.1 && (v.1 as u32) < h);
                assert!(0 <= v.2 && (v.2 as u32) < d);
            }
        }
    }
}

#[test]
fn voxels_follow_the_traversal_without_repeats() {
    for kind in KINDS {
        let s = shape(kind, 6, 5, 7);
        let out = generate_shape(&s);
        for pair in out.windows(2) {
            assert!(position(&s, &pair[0]) < position(&s, &pair[1]));
        }
    }
}

#[test]
fn same_shape_gives_the_same_sequence() {
    for kind in KINDS {
        let s = shape(kind, 9, 6, 4);
        assert_eq!(generate_shape(&s), generate_shape(&s));
        assert_eq!(generate_shape(&s), generate_shape(&s.clone()));
    }
}

#[test]
fn no_solid_outgrows_the_cube() {
    for kind in KINDS {
        for (w, h, d) in [(1u32, 1u32, 1u32), (3, 3, 3), (4, 7, 2), (16, 16, 16)] {
            let cube = voxels(ShapeType::Cube, w, h, d);
            let solid = voxels(kind, w, h, d);
            assert_eq!(cube.len(), (w * h * d) as usize);
            assert!(solid.len() <= cube.len());
        }
    }
}

#[test]
fn cone_and_pyramid_without_height_are_empty() {
    assert_eq!(voxels(ShapeType::Cone, 5, 0, 5), vec![]);
    assert_eq!(voxels(ShapeType::SquarePyramid, 5, 0, 5), vec![]);
}

#[test]
fn grid_without_width_is_empty() {
    for kind in KINDS {
        assert_eq!(voxels(kind, 0, 4, 4), vec![]);
    }
}

#[test]
fn grid_without_depth_or_height_is_empty() {
    for kind in KINDS {
        assert_eq!(voxels(kind, 4, 0, 4), vec![]);
        assert_eq!(voxels(kind, 4, 4, 0), vec![]);
        assert_eq!(voxels(kind, 0, 0, 0), vec![]);
    }
}

#[test]
fn default_kind_is_the_cube() {
    assert_eq!(ShapeType::default(), ShapeType::Cube);
}

#[test]
fn default_shape_has_no_extent() {
    assert_eq!(Shape::default(), shape(ShapeType::Cube, 0, 0, 0));
    assert_eq!(generate_shape(&Shape::default()), vec![]);
}

#[test]
fn default_model_is_empty() {
    let data = VoxelData::default();
    assert_eq!(data.shape, Shape::default());
    assert!(data.voxels.is_empty());
}

#[test]
fn model_holds_the_shape_and_its_voxels() {
    let s = shape(ShapeType::Sphere, 5, 5, 5);
    let data = VoxelData::new(s);
    assert_eq!(data.shape, s);
    assert_eq!(data.voxels, generate_shape(&s));
    assert_eq!(data.voxels.len(), 81);
}

#[test]
fn kinds_have_names_and_labels() {
    let names = ["Circle", "Sphere", "Cube", "SquarePyramid", "Cone", "Cylinder"];
    let labels = ["Circle", "Sphere", "Cube", "Square Pyramid", "Cone", "Cylinder"];
    for (i, kind) in KINDS.iter().enumerate() {
        assert_eq!(kind.name(), names[i]);
        assert_eq!(kind.label(), labels[i]);
        assert_eq!(format!("{:?}", kind), names[i]);
    }
}

fn normalised(i: u32, n: u32) -> f32 {
    let centre = (n as f32 - 1.0) / 2.0;
    let radius = n as f32 / 2.0;
    (i as f32 - centre) / radius
}

#[test]
fn ellipse_agrees_with_single_precision() {
    for w in 1..=12u32 {
        for d in 1..=12u32 {
            let mut expected = Vec::new();
            for x in 0..w {
                for z in 0..d {
                    let (dx, dz) = (normalised(x, w), normalised(z, d));
                    if dx * dx + dz * dz <= 1.0 {
                        expected.push((x as i32, 0, z as i32));
                    }
                }
            }
            assert_eq!(voxels(ShapeType::Circle, w, 1, d), expected);
            assert_eq!(voxels(ShapeType::Cylinder, w, 1, d), expected);
        }
    }
}

#[test]
fn ellipsoid_agrees_with_single_precision() {
    for w in 1..=8u32 {
        for h in 1..=8u32 {
            for d in 1..=8u32 {
                let mut expected = Vec::new();
                for x in 0..w {
                    for y in 0..h {
                        for z in 0..d {
                            let (dx, dy, dz) =
                                (normalised(x, w), normalised(y, h), normalised(z, d));
                            if dx * dx + dy * dy + dz * dz <= 1.0 {
                                expected.push((x as i32, y as i32, z as i32));
                            }
                        }
                    }
                }
                assert_eq!(voxels(ShapeType::Sphere, w, h, d), expected);
            }
        }
    }
}

#[test]
fn cone_holds_what_single_precision_holds() {
    // Rounding can only lose a cell that lies exactly on the surface.
    for w in 1..=8u32 {
        for h in 1..=8u32 {
            for d in 1..=8u32 {
                let out = voxels(ShapeType::Cone, w, h, d);
                for x in 0..w {
                    for y in 0..h {
                        for z in 0..d {
                            let (dx, dz) = (normalised(x, w), normalised(z, d));
                            let factor = 1.0 - (y as f32 / h as f32);
                            let rounded = dx * dx + dz * dz <= factor * factor;
                            let kept = out.contains(&(x as i32, y as i32, z as i32));
                            let (a, c) = (
                                2 * x as i64 + 1 - w as i64,
                                2 * z as i64 + 1 - d as i64,
                            );
                            let (w, h, d, y) = (w as i64, h as i64, d as i64, y as i64);
                            let left = (a * a * d * d + c * c * w * w) * h * h;
                            let right = (h - y) * (h - y) * w * w * d * d;
                            assert_eq!(kept, left <= right);
                            if rounded != kept {
                                assert!(kept && left == right);
                            }
                        }
                    }
                }
            }
        }
    }
}
