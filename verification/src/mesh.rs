//! The triangulated output: plain vertex and index buffers, ready to hand to
//! a rendering collaborator.

use vstd::prelude::*;

verus! {

/// A `(u, v)` parameter pair: the texture coordinate of a vertex.
#[derive(Debug, Clone, Copy)]
pub struct Uv<F> {
    pub u: F,
    pub v: F,
}

/// One vertex of a triangulated surface: a position, the surface normal
/// there, and the `(u, v)` parameter pair it was sampled at.
#[derive(Debug, Clone, Copy)]
pub struct Vertex<V, F> {
    pub position: V,
    pub normal: V,
    pub uv: Uv<F>,
}

/// A triangulated surface as plain buffers: one vertex per grid sample, and
/// three indices into the vertex buffer per triangle. The mesh is a value
/// object owned by its caller; it holds no reference back to the surface
/// that produced it.
#[derive(Debug, Clone)]
pub struct Mesh<V, F> {
    pub vertices: Vec<Vertex<V, F>>,
    pub indices: Vec<u32>,
}

} // verus!
