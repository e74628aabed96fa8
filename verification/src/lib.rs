//! Voxel sculpting: solids inscribed in a grid of cells are rasterised into
//! voxels, and a voxel model is exported as the text of a triangle mesh.
//!
//! - [`shapes`] holds the shape description, the voxel model and
//!   [`shapes::generate_shape`], the rasteriser.
//! - [`rules`] states which cells each solid occupies and decides it in
//!   exact integer arithmetic, with [`arith`] for the widest products.
//! - [`grid`] defines the traversal of the grid and the voxel sequence of a
//!   shape, and proves what holds of every such sequence.
//! - [`export`] renders a model as an OBJ mesh, with [`decimal`] for its numbers.
//! - [`ui`] holds the state behind a control panel and what a frame does with it.

pub mod arith;
pub mod decimal;
pub mod export;
pub mod grid;
pub mod rules;
pub mod shapes;
pub mod ui;
