//! Shape descriptions and the voxel model generated from them.

use vstd::prelude::*;
use crate::grid::{
    cell_at, cell_count, cell_index, cell_of, coordinates_fit, in_grid, lemma_above_bottom,
    lemma_flat_grid_is_empty, lemma_index_carry, lemma_prefix_ends, lemma_prefix_skip,
    lemma_rasterize_len, lemma_rasterize_no_duplicates, lemma_rasterize_sound, lemma_scan_cell,
    rasterize, rasterize_prefix, voxel_of,
};
use crate::rules::{cone_test, ellipse_test, occupied, pyramid_test, sphere_test};

verus! {

/// The solids that can be rasterised.
#[derive(Debug, Clone, Copy, PartialEq, Eq, Structural)]
pub enum ShapeType {
    Circle,
    Sphere,
    Cube,
    SquarePyramid,
    Cone,
    Cylinder,
}

impl Default for ShapeType {
    fn default() -> (kind: Self)
        ensures
            kind == ShapeType::Cube,
    {
        ShapeType::Cube
    }
}

impl ShapeType {
    /// The identifier of the kind, as written into an exported mesh.
    pub open spec fn name_view(self) -> Seq<char> {
        match self {
            ShapeType::Circle => "Circle"@,
            ShapeType::Sphere => "Sphere"@,
            ShapeType::Cube => "Cube"@,
            ShapeType::SquarePyramid => "SquarePyramid"@,
            ShapeType::Cone => "Cone"@,
            ShapeType::Cylinder => "Cylinder"@,
        }
    }

    /// The name of the kind as shown to a user.
    pub open spec fn label_view(self) -> Seq<char> {
        match self {
            ShapeType::Circle => "Circle"@,
            ShapeType::Sphere => "Sphere"@,
            ShapeType::Cube => "Cube"@,
            ShapeType::SquarePyramid => "Square Pyramid"@,
            ShapeType::Cone => "Cone"@,
            ShapeType::Cylinder => "Cylinder"@,
        }
    }

    /// Neither name holds a line feed.
    pub proof fn lemma_names_are_one_line(self)
        ensures
            !self.name_view().contains('\n'),
            !self.label_view().contains('\n'),
    {
        reveal_strlit("Circle");
        reveal_strlit("Sphere");
        reveal_strlit("Cube");
        reveal_strlit("SquarePyramid");
        reveal_strlit("Square Pyramid");
        reveal_strlit("Cone");
        reveal_strlit("Cylinder");
    }

    /// The identifier of the kind: the variant's name as it is spelled.
    pub fn name(&self) -> (name: &'static str)
        ensures
            name@ == self.name_view(),
    {
        match self {
            ShapeType::Circle => "Circle",
            ShapeType::Sphere => "Sphere",
            ShapeType::Cube => "Cube",
            ShapeType::SquarePyramid => "SquarePyramid",
            ShapeType::Cone => "Cone",
            ShapeType::Cylinder => "Cylinder",
        }
    }

    /// The name of the kind in words, for display.
    pub fn label(&self) -> (label: &'static str)
        ensures
            label@ == self.label_view(),
    {
        match self {
            ShapeType::Circle => "Circle",
            ShapeType::Sphere => "Sphere",
            ShapeType::Cube => "Cube",
            ShapeType::SquarePyramid => "Square Pyramid",
            ShapeType::Cone => "Cone",
            ShapeType::Cylinder => "Cylinder",
        }
    }
}

/// A solid and the dimensions of the grid it is inscribed in.
#[derive(Debug, Clone, Copy, PartialEq, Eq, Structural)]
pub struct Shape {
    pub shape_type: ShapeType,
    pub width: u32,
    pub height: u32,
    pub depth: u32,
}

impl Default for Shape {
    fn default() -> (shape: Self)
        ensures
            shape == (Shape { shape_type: ShapeType::Cube, width: 0, height: 0, depth: 0 }),
    {
        Shape { shape_type: ShapeType::Cube, width: 0, height: 0, depth: 0 }
    }
}

/// A shape together with the voxels generated from it.
#[derive(Debug, Clone)]
pub struct VoxelData {
    pub shape: Shape,
    pub voxels: Vec<(i32, i32, i32)>,
}

impl VoxelData {
    /// Every voxel lies in the grid of the shape, and none occurs twice.
    pub open spec fn wf(&self) -> bool {
        &&& forall|i: int|
            0 <= i < self.voxels@.len() ==> in_grid(self.shape, cell_of(#[trigger] self.voxels@[i]))
        &&& self.voxels@.no_duplicates()
    }

    /// The model of `shape`: the shape with its voxel sequence.
    pub fn new(shape: Shape) -> (data: Self)
        ensures
            data.shape == shape,
            data.voxels@ == rasterize(shape),
            coordinates_fit(shape) ==> data.wf(),
    {
        proof {
            if coordinates_fit(shape) {
                lemma_rasterize_no_duplicates(shape);
            }
        }
        let voxels = generate_shape(&shape);
        VoxelData { shape, voxels }
    }
}

impl Default for VoxelData {
    fn default() -> (data: Self)
        ensures
            data.shape == (Shape { shape_type: ShapeType::Cube, width: 0, height: 0, depth: 0 }),
            data.voxels@ == Seq::<(i32, i32, i32)>::empty(),
            data.wf(),
    {
        VoxelData { shape: Shape::default(), voxels: Vec::new() }
    }
}

/// Rasterises `shape`: the voxels of the cells of its grid that the solid
/// occupies, in traversal order (`x` slowest, `z` fastest). The result is a
/// function of the shape alone.
pub fn generate_shape(shape: &Shape) -> (voxels: Vec<(i32, i32, i32)>)
    ensures
        voxels@ == rasterize(*shape),
        voxels@.len() <= cell_count(*shape),
        shape.width == 0 || shape.height == 0 || shape.depth == 0 ==> voxels@.len() == 0,
        coordinates_fit(*shape) ==> forall|i: int|
            0 <= i < voxels@.len() ==> in_grid(*shape, cell_of(#[trigger] voxels@[i])),
{
    let mut voxels = Vec::new();
    match shape.shape_type {
        ShapeType::Cube => generate_cube(shape, &mut voxels),
        ShapeType::Sphere => generate_sphere(shape, &mut voxels),
        ShapeType::Circle => generate_circle(shape, &mut voxels),
        ShapeType::SquarePyramid => generate_square_pyramid(shape, &mut voxels),
        ShapeType::Cone => generate_cone(shape, &mut voxels),
        ShapeType::Cylinder => generate_cylinder(shape, &mut voxels),
    }
    proof {
        assert(voxels@ =~= rasterize(*shape));
        lemma_rasterize_len(*shape);
        if shape.width == 0 || shape.height == 0 || shape.depth == 0 {
            lemma_flat_grid_is_empty(*shape);
        }
        if coordinates_fit(*shape) {
            assert forall|i: int| 0 <= i < voxels@.len() implies in_grid(
                *shape,
                cell_of(#[trigger] voxels@[i]),
            ) by {
                lemma_rasterize_sound(*shape, i);
            }
        }
    }
    voxels
}

/// Rasterising is deterministic: whatever two calls on the same shape return
/// holds the same voxels in the same order.
pub proof fn lemma_generate_shape_is_deterministic(
    shape: Shape,
    first: Vec<(i32, i32, i32)>,
    second: Vec<(i32, i32, i32)>,
)
    requires
        call_ensures(generate_shape, (&shape,), first),
        call_ensures(generate_shape, (&shape,), second),
    ensures
        first@ == second@,
{
}

/// The voxel of the cell `(x, y, z)`.
fn voxel(x: u32, y: u32, z: u32) -> (v: (i32, i32, i32))
    ensures
        v == voxel_of((x as int, y as int, z as int)),
{
    (
        #[verifier::truncate]
        (x as i32),
        #[verifier::truncate]
        (y as i32),
        #[verifier::truncate]
        (z as i32),
    )
}

/// Appends the voxels of the full grid: a cube occupies every cell.
fn generate_cube(shape: &Shape, voxels: &mut Vec<(i32, i32, i32)>)
    requires
        shape.shape_type == ShapeType::Cube,
    ensures
        final(voxels)@ == old(voxels)@ + rasterize(*shape),
{
    let ghost start = voxels@;
    proof {
        lemma_prefix_ends(*shape);
        lemma_index_carry(*shape, 0, 0);
        assert(start + rasterize_prefix(*shape, 0) =~= start);
    }
    let mut x: u32 = 0;
    while x < shape.width
        invariant
            shape.shape_type == ShapeType::Cube,
            x <= shape.width,
            voxels@ == start + rasterize_prefix(*shape, cell_index(*shape, (x as int, 0, 0))),
        decreases shape.width - x,
    {
        let mut y: u32 = 0;
        while y < shape.height
            invariant
                shape.shape_type == ShapeType::Cube,
                x < shape.width,
                y <= shape.height,
                voxels@ == start + rasterize_prefix(
                    *shape,
                    cell_index(*shape, (x as int, y as int, 0)),
                ),
            decreases shape.height - y,
        {
            let mut z: u32 = 0;
            while z < shape.depth
                invariant
                    shape.shape_type == ShapeType::Cube,
                    x < shape.width,
                    y < shape.height,
                    z <= shape.depth,
                    voxels@ == start + rasterize_prefix(
                        *shape,
                        cell_index(*shape, (x as int, y as int, z as int)),
                    ),
                decreases shape.depth - z,
            {
                proof {
                    lemma_scan_cell(*shape, (x as int, y as int, z as int));
                }
                let ghost before = rasterize_prefix(
                    *shape,
                    cell_index(*shape, (x as int, y as int, z as int)),
                );
                voxels.push(voxel(x, y, z));
                assert(voxels@ =~= start + before.push(voxel_of((x as int, y as int, z as int))));
                z += 1;
            }
            proof {
                lemma_index_carry(*shape, x as int, y as int);
            }
            y += 1;
        }
        proof {
            lemma_index_carry(*shape, x as int, 0);
        }
        x += 1;
    }
    proof {
        lemma_index_carry(*shape, 0, 0);
    }
}

/// Appends the voxels of the inscribed ellipsoid.
fn generate_sphere(shape: &Shape, voxels: &mut Vec<(i32, i32, i32)>)
    requires
        shape.shape_type == ShapeType::Sphere,
    ensures
        final(voxels)@ == old(voxels)@ + rasterize(*shape),
{
    let ghost start = voxels@;
    proof {
        lemma_prefix_ends(*shape);
        lemma_index_carry(*shape, 0, 0);
        assert(start + rasterize_prefix(*shape, 0) =~= start);
    }
    let mut x: u32 = 0;
    while x < shape.width
        invariant
            shape.shape_type == ShapeType::Sphere,
            x <= shape.width,
            voxels@ == start + rasterize_prefix(*shape, cell_index(*shape, (x as int, 0, 0))),
        decreases shape.width - x,
    {
        let mut y: u32 = 0;
        while y < shape.height
            invariant
                shape.shape_type == ShapeType::Sphere,
                x < shape.width,
                y <= shape.height,
                voxels@ == start + rasterize_prefix(
                    *shape,
                    cell_index(*shape, (x as int, y as int, 0)),
                ),
            decreases shape.height - y,
        {
            let mut z: u32 = 0;
            while z < shape.depth
                invariant
                    shape.shape_type == ShapeType::Sphere,
                    x < shape.width,
                    y < shape.height,
                    z <= shape.depth,
                    voxels@ == start + rasterize_prefix(
                        *shape,
                        cell_index(*shape, (x as int, y as int, z as int)),
                    ),
                decreases shape.depth - z,
            {
                proof {
                    lemma_scan_cell(*shape, (x as int, y as int, z as int));
                }
                let ghost before = rasterize_prefix(
                    *shape,
                    cell_index(*shape, (x as int, y as int, z as int)),
                );
                if sphere_test(shape.width, shape.height, shape.depth, x, y, z) {
                    voxels.push(voxel(x, y, z));
                    assert(voxels@ =~= start + before.push(
                        voxel_of((x as int, y as int, z as int)),
                    ));
                }
                z += 1;
            }
            proof {
                lemma_index_carry(*shape, x as int, y as int);
            }
            y += 1;
        }
        proof {
            lemma_index_carry(*shape, x as int, 0);
        }
        x += 1;
    }
    proof {
        lemma_index_carry(*shape, 0, 0);
    }
}

/// In a circle nothing is occupied from the end of the bottom row of slab `x`
/// to the end of that slab.
proof fn lemma_rest_of_slab(shape: Shape, x: int)
    requires
        shape.shape_type == ShapeType::Circle,
        0 <= x < shape.width,
        0 < shape.height,
    ensures
        rasterize_prefix(shape, cell_index(shape, (x, 1, 0))) == rasterize_prefix(
            shape,
            cell_index(shape, (x + 1, 0, 0)),
        ),
{
    let from = cell_index(shape, (x, 1, 0));
    let to = cell_index(shape, (x + 1, 0, 0));
    let (w, h, d) = (shape.width as int, shape.height as int, shape.depth as int);
    assert(0 <= (x * h + 1) * d + 0 <= ((x + 1) * h + 0) * d + 0 <= w * h * d) by (nonlinear_arith)
        requires
            0 <= x < w,
            0 < h,
            0 <= d,
    ;
    assert forall|k: int| from <= k < to implies !occupied(shape, #[trigger] cell_at(shape, k)) by {
        lemma_above_bottom(shape, x, k);
    }
    lemma_prefix_skip(shape, from, to);
}

/// Appends the voxels of the inscribed ellipse, which lies in the bottom layer alone.
fn generate_circle(shape: &Shape, voxels: &mut Vec<(i32, i32, i32)>)
    requires
        shape.shape_type == ShapeType::Circle,
    ensures
        final(voxels)@ == old(voxels)@ + rasterize(*shape),
{
    let ghost start = voxels@;
    proof {
        lemma_prefix_ends(*shape);
        lemma_index_carry(*shape, 0, 0);
        assert(start + rasterize_prefix(*shape, 0) =~= start);
    }
    let layers: u32 = if shape.height < 1 {
        shape.height
    } else {
        1
    };
    let mut x: u32 = 0;
    while x < shape.width
        invariant
            shape.shape_type == ShapeType::Circle,
            layers == if shape.height < 1 {
                shape.height
            } else {
                1
            },
            x <= shape.width,
            voxels@ == start + rasterize_prefix(*shape, cell_index(*shape, (x as int, 0, 0))),
        decreases shape.width - x,
    {
        let mut y: u32 = 0;
        while y < layers
            invariant
                shape.shape_type == ShapeType::Circle,
                layers <= 1,
                layers <= shape.height,
                x < shape.width,
                y <= layers,
                voxels@ == start + rasterize_prefix(
                    *shape,
                    cell_index(*shape, (x as int, y as int, 0)),
                ),
            decreases layers - y,
        {
            let mut z: u32 = 0;
            while z < shape.depth
                invariant
                    shape.shape_type == ShapeType::Circle,
                    y == 0,
                    x < shape.width,
                    y < shape.height,
                    z <= shape.depth,
                    voxels@ == start + rasterize_prefix(
                        *shape,
                        cell_index(*shape, (x as int, y as int, z as int)),
                    ),
                decreases shape.depth - z,
            {
                proof {
                    lemma_scan_cell(*shape, (x as int, y as int, z as int));
                }
                let ghost before = rasterize_prefix(
                    *shape,
                    cell_index(*shape, (x as int, y as int, z as int)),
                );
                if ellipse_test(shape.width, shape.depth, x, z) {
                    voxels.push(voxel(x, y, z));
                    assert(voxels@ =~= start + before.push(
                        voxel_of((x as int, y as int, z as int)),
                    ));
                }
                z += 1;
            }
            proof {
                lemma_index_carry(*shape, x as int, y as int);
            }
            y += 1;
        }
        proof {
            if shape.height == 0 {
                lemma_index_carry(*shape, x as int, 0);
            } else {
                lemma_rest_of_slab(*shape, x as int);
            }
        }
        x += 1;
    }
    proof {
        lemma_index_carry(*shape, 0, 0);
    }
}

/// Appends the voxels of the cylinder over the inscribed ellipse.
fn generate_cylinder(shape: &Shape, voxels: &mut Vec<(i32, i32, i32)>)
    requires
        shape.shape_type == ShapeType::Cylinder,
    ensures
        final(voxels)@ == old(voxels)@ + rasterize(*shape),
{
    let ghost start = voxels@;
    proof {
        lemma_prefix_ends(*shape);
        lemma_index_carry(*shape, 0, 0);
        assert(start + rasterize_prefix(*shape, 0) =~= start);
    }
    let mut x: u32 = 0;
    while x < shape.width
        invariant
            shape.shape_type == ShapeType::Cylinder,
            x <= shape.width,
            voxels@ == start + rasterize_prefix(*shape, cell_index(*shape, (x as int, 0, 0))),
        decreases shape.width - x,
    {
        let mut y: u32 = 0;
        while y < shape.height
            invariant
                shape.shape_type == ShapeType::Cylinder,
                x < shape.width,
                y <= shape.height,
                voxels@ == start + rasterize_prefix(
                    *shape,
                    cell_index(*shape, (x as int, y as int, 0)),
                ),
            decreases shape.height - y,
        {
            let mut z: u32 = 0;
            while z < shape.depth
                invariant
                    shape.shape_type == ShapeType::Cylinder,
                    x < shape.width,
                    y < shape.height,
                    z <= shape.depth,
                    voxels@ == start + rasterize_prefix(
                        *shape,
                        cell_index(*shape, (x as int, y as int, z as int)),
                    ),
                decreases shape.depth - z,
            {
                proof {
                    lemma_scan_cell(*shape, (x as int, y as int, z as int));
                }
                let ghost before = rasterize_prefix(
                    *shape,
                    cell_index(*shape, (x as int, y as int, z as int)),
                );
                if ellipse_test(shape.width, shape.depth, x, z) {
                    voxels.push(voxel(x, y, z));
                    assert(voxels@ =~= start + before.push(
                        voxel_of((x as int, y as int, z as int)),
                    ));
                }
                z += 1;
            }
            proof {
                lemma_index_carry(*shape, x as int, y as int);
            }
            y += 1;
        }
        proof {
            lemma_index_carry(*shape, x as int, 0);
        }
        x += 1;
    }
    proof {
        lemma_index_carry(*shape, 0, 0);
    }
}

/// Appends the voxels of the cone over the inscribed ellipse.
fn generate_cone(shape: &Shape, voxels: &mut Vec<(i32, i32, i32)>)
    requires
        shape.shape_type == ShapeType::Cone,
    ensures
        final(voxels)@ == old(voxels)@ + rasterize(*shape),
{
    let ghost start = voxels@;
    proof {
        lemma_prefix_ends(*shape);
        lemma_index_carry(*shape, 0, 0);
        assert(start + rasterize_prefix(*shape, 0) =~= start);
    }
    let mut x: u32 = 0;
    while x < shape.width
        invariant
            shape.shape_type == ShapeType::Cone,
            x <= shape.width,
            voxels@ == start + rasterize_prefix(*shape, cell_index(*shape, (x as int, 0, 0))),
        decreases shape.width - x,
    {
        let mut y: u32 = 0;
        while y < shape.height
            invariant
                shape.shape_type == ShapeType::Cone,
                x < shape.width,
                y <= shape.height,
                voxels@ == start + rasterize_prefix(
                    *shape,
                    cell_index(*shape, (x as int, y as int, 0)),
                ),
            decreases shape.height - y,
        {
            let mut z: u32 = 0;
            while z < shape.depth
                invariant
                    shape.shape_type == ShapeType::Cone,
                    x < shape.width,
                    y < shape.height,
                    z <= shape.depth,
                    voxels@ == start + rasterize_prefix(
                        *shape,
                        cell_index(*shape, (x as int, y as int, z as int)),
                    ),
                decreases shape.depth - z,
            {
                proof {
                    lemma_scan_cell(*shape, (x as int, y as int, z as int));
                }
                let ghost before = rasterize_prefix(
                    *shape,
                    cell_index(*shape, (x as int, y as int, z as int)),
                );
                if cone_test(shape.width, shape.height, shape.depth, x, y, z) {
                    voxels.push(voxel(x, y, z));
                    assert(voxels@ =~= start + before.push(
                        voxel_of((x as int, y as int, z as int)),
                    ));
                }
                z += 1;
            }
            proof {
                lemma_index_carry(*shape, x as int, y as int);
            }
            y += 1;
        }
        proof {
            lemma_index_carry(*shape, x as int, 0);
        }
        x += 1;
    }
    proof {
        lemma_index_carry(*shape, 0, 0);
    }
}

/// Appends the voxels of the square pyramid.
fn generate_square_pyramid(shape: &Shape, voxels: &mut Vec<(i32, i32, i32)>)
    requires
        shape.shape_type == ShapeType::SquarePyramid,
    ensures
        final(voxels)@ == old(voxels)@ + rasterize(*shape),
{
    let ghost start = voxels@;
    proof {
        lemma_prefix_ends(*shape);
        lemma_index_carry(*shape, 0, 0);
        assert(start + rasterize_prefix(*shape, 0) =~= start);
    }
    let mut x: u32 = 0;
    while x < shape.width
        invariant
            shape.shape_type == ShapeType::SquarePyramid,
            x <= shape.width,
            voxels@ == start + rasterize_prefix(*shape, cell_index(*shape, (x as int, 0, 0))),
        decreases shape.width - x,
    {
        let mut y: u32 = 0;
        while y < shape.height
            invariant
                shape.shape_type == ShapeType::SquarePyramid,
                x < shape.width,
                y <= shape.height,
                voxels@ == start + rasterize_prefix(
                    *shape,
                    cell_index(*shape, (x as int, y as int, 0)),
                ),
            decreases shape.height - y,
        {
            let mut z: u32 = 0;
            while z < shape.depth
                invariant
                    shape.shape_type == ShapeType::SquarePyramid,
                    x < shape.width,
                    y < shape.height,
                    z <= shape.depth,
                    voxels@ == start + rasterize_prefix(
                        *shape,
                        cell_index(*shape, (x as int, y as int, z as int)),
                    ),
                decreases shape.depth - z,
            {
                proof {
                    lemma_scan_cell(*shape, (x as int, y as int, z as int));
                }
                let ghost before = rasterize_prefix(
                    *shape,
                    cell_index(*shape, (x as int, y as int, z as int)),
                );
                if pyramid_test(shape.width, shape.height, shape.depth, x, y, z) {
                    voxels.push(voxel(x, y, z));
                    assert(voxels@ =~= start + before.push(
                        voxel_of((x as int, y as int, z as int)),
                    ));
                }
                z += 1;
            }
            proof {
                lemma_index_carry(*shape, x as int, y as int);
            }
            y += 1;
        }
        proof {
            lemma_index_carry(*shape, x as int, 0);
        }
        x += 1;
    }
    proof {
        lemma_index_carry(*shape, 0, 0);
    }
}

} // verus!
