//! Procedural mesh generation for parametric solids (torus, sphere, flat
//! rectangle), together with the small typed-array and binding layer that
//! feeds generated vertex data to a GPU pipeline.
//!
//! The heart of the crate is the mesh topology: the row-major vertex grids
//! that the parametric sweeps enumerate, and the triangle index buffers that
//! stitch neighbouring grid vertices into quads. Both are integer
//! computations and are verified here, down to the exact value of every
//! emitted index. Evaluating the trigonometric vertex attributes themselves
//! is left to the rendering layer on top of this crate.

mod arrays;
pub mod cell;
mod grid;
mod rect;
mod settings;
mod shader;
pub mod shared;
mod sphere;
mod texture;
mod torus;
pub mod webgl;

pub use arrays::Vec3;
pub use arrays::Vec4;
pub use cell::Cell;
pub use cell::Vector3Cell;
pub use grid::GridPoint;
pub use grid::index_within;
pub use grid::is_vertex_grid;
pub use grid::lemma_vertex_grid_deterministic;
pub use grid::sweep_vertex_count;
pub use grid::triangle_orientation;
pub use grid::vertex_grid;
pub use grid::vertex_inner;
pub use grid::vertex_outer;
pub use rect::rect_corner_signs;
pub use rect::rect_indexes;
pub use rect::rect_tex_coords;
pub use settings::BlendFactor;
pub use settings::DepthFunc;
pub use shader::Attribute;
pub use shader::AttributeType;
pub use shared::Shared;
pub use shared::SharedVector3;
pub use sphere::is_sphere_index_seq;
pub use sphere::lemma_sphere_indexes_address_grid;
pub use sphere::lemma_sphere_indexes_deterministic;
pub use sphere::lemma_sphere_winding;
pub use sphere::sphere_index_at;
pub use sphere::sphere_indexes;
pub use texture::GlTextureUnit;
pub use texture::MagMethod;
pub use texture::MinMethod;
pub use texture::WrapMethod;
pub use torus::is_torus_index_seq;
pub use torus::lemma_torus_indexes_address_grid;
pub use torus::lemma_torus_indexes_deterministic;
pub use torus::lemma_torus_indexes_match_reference;
pub use torus::lemma_torus_winding;
pub use torus::reference_torus_index_at;
pub use torus::torus_index_at;
pub use torus::torus_indexes;
