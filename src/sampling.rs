use vstd::prelude::*;
use rand::Rng;

verus! {

/// How output points are drawn from a mesh.
#[derive(Debug, Clone, Copy, PartialEq, Eq, Structural)]
pub enum SamplingStrategy {
    /// Every triangle equally likely, whatever its size.
    Uniform,
    /// Triangles chosen in proportion to their area.
    AreaWeighted,
    /// The mesh vertices themselves, in order.
    Vertices,
}

/// What the engine actually does for a strategy and an index list.
#[derive(Debug, Clone, Copy, PartialEq, Eq, Structural)]
pub enum SamplingMode {
    /// Walk the vertices in order.
    VertexWalk,
    /// Draw points on triangles.
    Triangles,
    /// Draw random vertices: the index list holds no full triangle.
    VertexFallback,
}

pub open spec fn mode_spec(strategy: SamplingStrategy, index_count: nat) -> SamplingMode {
    match strategy {
        SamplingStrategy::Vertices => SamplingMode::VertexWalk,
        _ => if index_count >= 3 {
            SamplingMode::Triangles
        } else {
            SamplingMode::VertexFallback
        },
    }
}

/// The mode for `strategy` over a mesh with `index_count` triangle indices:
/// `Vertices` always walks the vertices; the two triangle strategies sample
/// triangles when there is at least one full triangle and fall back to
/// random vertices otherwise.
pub fn sampling_mode(strategy: SamplingStrategy, index_count: usize) -> (r: SamplingMode)
    ensures
        r == mode_spec(strategy, index_count as nat),
{
    match strategy {
        SamplingStrategy::Vertices => SamplingMode::VertexWalk,
        _ => if index_count >= 3 {
            SamplingMode::Triangles
        } else {
            SamplingMode::VertexFallback
        },
    }
}

/// Whether a point drawn from vertex `i` carries the attribute: it is
/// requested, the mesh has it, and it has an entry for `i`.
pub fn attach_attribute(requested: bool, source_len: usize, i: usize) -> (r: bool)
    ensures
        r == (requested && source_len > 0 && i < source_len),
{
    requested && source_len > 0 && i < source_len
}

/// The vertices that the vertex walk visits: the first
/// `min(point_count, vertex_count)` vertices, in order.
pub fn vertex_walk_indices(point_count: usize, vertex_count: usize) -> (r: Vec<usize>)
    ensures
        r@.len() == if point_count < vertex_count { point_count } else { vertex_count },
        forall|i: int| 0 <= i < r@.len() ==> #[trigger] r@[i] == i,
{
    let n = if point_count < vertex_count { point_count } else { vertex_count };
    let mut r: Vec<usize> = Vec::new();
    let mut i: usize = 0;
    while i < n
        invariant
            i <= n,
            r@.len() == i,
            forall|j: int| 0 <= j < i ==> #[trigger] r@[j] == j,
        decreases n - i,
    {
        r.push(i);
        i = i + 1;
    }
    r
}

/// The full triangles of a flat index list, three indices each, in order; a
/// trailing partial triangle is left out.
pub fn full_triangles(indices: &Vec<usize>) -> (r: Vec<[usize; 3]>)
    ensures
        r@.len() == indices@.len() / 3,
        forall|t: int|
            0 <= t < r@.len() ==> #[trigger] r@[t] == [indices@[3 * t], indices@[3 * t + 1], indices@[
                3 * t + 2
            ]],
{
    let len = indices.len();
    let n = len / 3;
    let mut r: Vec<[usize; 3]> = Vec::new();
    let mut t: usize = 0;
    while t < n
        invariant
            len == indices@.len(),
            n == len / 3,
            t <= n,
            r@.len() == t,
            forall|u: int|
                0 <= u < t ==> #[trigger] r@[u] == [indices@[3 * u], indices@[3 * u + 1], indices@[3
                    * u + 2]],
        decreases n - t,
    {
        assert(3 * t + 2 < len) by (nonlinear_arith)
            requires
                t < n,
                n == len / 3,
        ;
        let k = 3 * t;
        r.push([indices[k], indices[k + 1], indices[k + 2]]);
        t = t + 1;
    }
    r
}

/// Whether every index names one of `vertex_count` vertices.
pub fn indices_in_range(indices: &Vec<usize>, vertex_count: usize) -> (r: bool)
    ensures
        r == forall|i: int| 0 <= i < indices@.len() ==> #[trigger] indices@[i] < vertex_count,
{
    let mut i: usize = 0;
    while i < indices.len()
        invariant
            i <= indices@.len(),
            forall|j: int| 0 <= j < i ==> #[trigger] indices@[j] < vertex_count,
        decreases indices@.len() - i,
    {
        if indices[i] >= vertex_count {
            return false;
        }
        i = i + 1;
    }
    true
}

/// Whether an attribute list fits the mesh: absent (empty) or one entry per
/// vertex.
pub fn attribute_fits(attribute_count: usize, vertex_count: usize) -> (r: bool)
    ensures
        r == (attribute_count == 0 || attribute_count == vertex_count),
{
    attribute_count == 0 || attribute_count == vertex_count
}

/// Relies on rand's `thread_rng().gen_range(0..n)`, which returns a value in
/// `0..n` and panics only when the range is empty.
#[verifier::external_body]
fn random_below(n: usize) -> (r: usize)
    requires
        n > 0,
    ensures
        r < n,
{
    rand::thread_rng().gen_range(0..n)
}

/// `count` vertex indices drawn at random, each below `vertex_count`.
pub fn random_vertex_indices(count: usize, vertex_count: usize) -> (r: Vec<usize>)
    requires
        vertex_count > 0,
    ensures
        r@.len() == count,
        forall|i: int| 0 <= i < r@.len() ==> #[trigger] r@[i] < vertex_count,
{
    let mut r: Vec<usize> = Vec::new();
    let mut i: usize = 0;
    while i < count
        invariant
            vertex_count > 0,
            i <= count,
            r@.len() == i,
            forall|j: int| 0 <= j < i ==> #[trigger] r@[j] < vertex_count,
        decreases count - i,
    {
        let k = random_below(vertex_count);
        r.push(k);
        i = i + 1;
    }
    r
}

} // verus!
