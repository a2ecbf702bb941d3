//! An H-tree fractal renderer.
//!
//! The renderer turns a recursion depth and a centre point into the finite
//! list of drawing commands (coloured line segments and filled discs) that
//! make up an H-tree: at each level a segment is split in two coloured
//! halves, and each endpoint spawns a perpendicular child segment scaled by
//! `1 / sqrt(2)`, until the configured depth is reached.
//!
//! All geometry is kept exact: because every length in the tree is the
//! initial length times a power of `1 / sqrt(2)`, every coordinate lies in
//! the integer lattice spanned by `1` and `1 / sqrt(2)` when measured in
//! 512ths of the initial length. A host that owns a real canvas scales the
//! emitted commands to pixels.

pub mod geometry;
pub mod renderer;
