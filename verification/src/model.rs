//! A model: indexed triangle geometry with a placement and a pixel shader.
//! The vertex, texture-coordinate and normal index streams are independent,
//! so shared vertices can carry per-face texture coordinates and normals.

use vstd::prelude::*;
use crate::math::{Float2, Float3};
use crate::shader::ModelShader;
use crate::shader::PixelShader;
use crate::transform::Transform;

verus! {

/// A model described by triangles with normals and texture coordinates.
pub struct Model {
    /// Vertices making up the model.
    pub vertices: Vec<Float3>,
    /// Indices in groups of three describing the triangles, into
    /// [`vertices`](Model::vertices).
    pub vertex_indices: Vec<usize>,
    /// Texture coordinates.
    pub texture_coords: Vec<Float2>,
    /// Indices of texture coordinates in groups of three per triangle, into
    /// [`texture_coords`](Model::texture_coords).
    pub texture_coord_indices: Vec<usize>,
    /// Normals at each vertex.
    pub normals: Vec<Float3>,
    /// Indices of normals in groups of three per triangle, into
    /// [`normals`](Model::normals).
    pub normal_indices: Vec<usize>,
    /// Placement of the model in the world.
    pub transform: Transform,
    /// Pixel shader applied to the model.
    pub shader: ModelShader,
}

impl Model {
    /// Whether the index streams describe whole triangles and every index
    /// lands inside its array, and the shader can run.
    pub open spec fn wf(self) -> bool {
        &&& self.vertex_indices@.len() % 3 == 0
        &&& self.texture_coord_indices@.len() == self.vertex_indices@.len()
        &&& self.normal_indices@.len() == self.vertex_indices@.len()
        &&& forall|i: int|
            0 <= i < self.vertex_indices@.len() ==> ((#[trigger] self.vertex_indices@[i]) as int) < self.vertices@.len()
        &&& forall|i: int|
            0 <= i < self.texture_coord_indices@.len() ==> ((#[trigger] self.texture_coord_indices@[i]) as int) < self.texture_coords@.len()
        &&& forall|i: int|
            0 <= i < self.normal_indices@.len() ==> ((#[trigger] self.normal_indices@[i]) as int) < self.normals@.len()
        &&& self.shader.shader_wf()
    }

    /// Build a model from its geometry, placement, and shader. Returns the
    /// model exactly when the index streams are consistent.
    pub fn new(
        vertices: Vec<Float3>,
        vertex_indices: Vec<usize>,
        texture_coords: Vec<Float2>,
        texture_coord_indices: Vec<usize>,
        normals: Vec<Float3>,
        normal_indices: Vec<usize>,
        transform: Transform,
        shader: ModelShader,
    ) -> (r: Option<Model>)
        requires
            shader.shader_wf(),
        ensures
            r is Some <==> vertex_indices@.len() % 3 == 0 && texture_coord_indices@.len()
                == vertex_indices@.len() && normal_indices@.len() == vertex_indices@.len() && (
            forall|i: int|
                0 <= i < vertex_indices@.len() ==> ((#[trigger] vertex_indices@[i]) as int) < vertices@.len()) && (forall|i: int|
                0 <= i < texture_coord_indices@.len() ==> ((#[trigger] texture_coord_indices@[i]) as int) < texture_coords@.len()) && (
            forall|i: int|
                0 <= i < normal_indices@.len() ==> ((#[trigger] normal_indices@[i]) as int) < normals@.len()),
            r matches Some(m) ==> m.wf() && m.vertices == vertices && m.vertex_indices
                == vertex_indices && m.texture_coords == texture_coords && m.texture_coord_indices
                == texture_coord_indices && m.normals == normals && m.normal_indices
                == normal_indices && m.transform == transform && m.shader == shader,
    {
        if vertex_indices.len() % 3 != 0 {
            return None;
        }
        if texture_coord_indices.len() != vertex_indices.len() {
            return None;
        }
        if normal_indices.len() != vertex_indices.len() {
            return None;
        }
        if !indices_in_range(&vertex_indices, vertices.len()) {
            return None;
        }
        if !indices_in_range(&texture_coord_indices, texture_coords.len()) {
            return None;
        }
        if !indices_in_range(&normal_indices, normals.len()) {
            return None;
        }
        Some(
            Model {
                vertices,
                vertex_indices,
                texture_coords,
                texture_coord_indices,
                normals,
                normal_indices,
                transform,
                shader,
            },
        )
    }
}

/// Whether every index in the stream lands inside an array of length
/// `bound`.
pub fn indices_in_range(indices: &Vec<usize>, bound: usize) -> (r: bool)
    ensures
        r <==> forall|i: int|
            0 <= i < indices@.len() ==> ((#[trigger] indices@[i]) as int) < bound,
{
    let n: usize = indices.len();
    let mut k: usize = 0;
    while k < n
        invariant
            k <= n,
            n == indices@.len(),
            forall|i: int| 0 <= i < k ==> ((#[trigger] indices@[i]) as int) < bound,
        decreases n - k,
    {
        if indices[k] >= bound {
            return false;
        }
        k = k + 1;
    }
    true
}

} // verus!
