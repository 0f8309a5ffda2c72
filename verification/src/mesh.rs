//! Mesh geometry: how the separate position, texture-coordinate and normal
//! streams of a loaded mesh are put together into vertices.
//!
//! The components are of any copyable type `T`; the library moves them and
//! never computes with them.

use vstd::prelude::*;

verus! {

/// One vertex of a loaded mesh.
#[derive(Clone, Copy, Debug, PartialEq, Eq)]
pub struct MeshVertex<T> {
    pub position: [T; 3],
    pub tex_coords: [T; 2],
    pub normal: [T; 3],
}

/// Why the streams of a mesh do not make up its vertices.
#[derive(Clone, Copy, Debug, PartialEq, Eq, Structural)]
pub enum MeshError {
    /// There are fewer than two texture coordinates for each vertex.
    MissingTexCoords,
    /// There are normals, but fewer than three for each vertex.
    MissingNormals,
}

/// The number of vertices that a position stream holds: three components
/// make one position, and what is left over at the end is dropped.
pub open spec fn vertex_count(positions: int) -> int {
    positions / 3
}

/// Whether `vertex` is the vertex at `index` of the given streams: its
/// position and its texture coordinate are taken from where the index
/// points, and its normal too, or made of `zero` where there are no normals.
pub open spec fn is_vertex_at<T>(
    vertex: MeshVertex<T>,
    positions: Seq<T>,
    texcoords: Seq<T>,
    normals: Seq<T>,
    zero: T,
    index: int,
) -> bool {
    &&& vertex.position@ == seq![
        positions[index * 3],
        positions[index * 3 + 1],
        positions[index * 3 + 2],
    ]
    &&& vertex.tex_coords@ == seq![texcoords[index * 2], texcoords[index * 2 + 1]]
    &&& vertex.normal@ == if normals.len() == 0 {
        seq![zero, zero, zero]
    } else {
        seq![normals[index * 3], normals[index * 3 + 1], normals[index * 3 + 2]]
    }
}

/// Puts the streams of a mesh together into its vertices, one for every
/// three position components, in order.
///
/// Fails exactly when a stream is too short for the positions: the texture
/// coordinates first, then the normals unless there are none at all.
pub fn interleave<T: Copy>(
    positions: &Vec<T>,
    texcoords: &Vec<T>,
    normals: &Vec<T>,
    zero: T,
) -> (vertices: Result<Vec<MeshVertex<T>>, MeshError>)
    ensures
        match vertices {
            Ok(vertices) => {
                &&& texcoords@.len() >= 2 * vertex_count(positions@.len() as int)
                &&& normals@.len() == 0 || normals@.len() >= 3 * vertex_count(
                    positions@.len() as int,
                )
                &&& vertices@.len() == vertex_count(positions@.len() as int)
                &&& forall|i: int|
                    0 <= i < vertices@.len() ==> is_vertex_at(
                        #[trigger] vertices@[i],
                        positions@,
                        texcoords@,
                        normals@,
                        zero,
                        i,
                    )
            },
            Err(MeshError::MissingTexCoords) => texcoords@.len() < 2 * vertex_count(
                positions@.len() as int,
            ),
            Err(MeshError::MissingNormals) => {
                &&& texcoords@.len() >= 2 * vertex_count(positions@.len() as int)
                &&& 0 < normals@.len() < 3 * vertex_count(positions@.len() as int)
            },
        },
{
    let count: usize = positions.len() / 3;
    if texcoords.len() / 2 < count {
        return Err(MeshError::MissingTexCoords);
    }
    if normals.len() != 0 && normals.len() / 3 < count {
        return Err(MeshError::MissingNormals);
    }
    let mut vertices: Vec<MeshVertex<T>> = Vec::new();
    let mut i: usize = 0;
    while i < count
        invariant
            i <= count,
            count == vertex_count(positions@.len() as int),
            3 * count <= positions@.len() <= usize::MAX,
            texcoords@.len() >= 2 * count,
            normals@.len() == 0 || normals@.len() >= 3 * count,
            vertices@.len() == i,
            forall|j: int|
                0 <= j < i ==> is_vertex_at(
                    #[trigger] vertices@[j],
                    positions@,
                    texcoords@,
                    normals@,
                    zero,
                    j,
                ),
        decreases count - i,
    {
        let normal: [T; 3] = if normals.len() == 0 {
            [zero, zero, zero]
        } else {
            [normals[i * 3], normals[i * 3 + 1], normals[i * 3 + 2]]
        };
        let vertex = MeshVertex {
            position: [positions[i * 3], positions[i * 3 + 1], positions[i * 3 + 2]],
            tex_coords: [texcoords[i * 2], texcoords[i * 2 + 1]],
            normal,
        };
        assert(is_vertex_at(vertex, positions@, texcoords@, normals@, zero, i as int));
        vertices.push(vertex);
        i += 1;
    }
    Ok(vertices)
}

} // verus!
