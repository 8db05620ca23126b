use vstd::prelude::*;

use crate::mesh::{check_indices, indices_in_range, Tessellate, TessellateVertex};

verus! {

/// Bytes of one vertex in the vertex buffer: four 32-bit colour channels, then
/// three 32-bit position coordinates.
pub const VERTEX_STRIDE: u64 = 28;

/// Byte offset of the colour within a vertex.
pub const COLOR_OFFSET: u64 = 0;

/// Byte offset of the position within a vertex.
pub const POSITION_OFFSET: u64 = 16;

/// Bytes of one index in the index buffer.
pub const INDEX_SIZE: u64 = 2;

/// Bytes of each chunk of the staging helper that batches buffer writes.
pub const STAGING_CHUNK_SIZE: u64 = 1024;

/// Vertices that 16-bit indices can name.
pub const MAX_VERTICES: usize = 65536;

/// Why a frame's mesh cannot be uploaded.
#[derive(Debug, Clone, Copy, PartialEq, Eq, Structural)]
pub enum UploadError {
    /// More vertices than 16-bit indices can name.
    TooManyVertices,
    /// More indices than one indexed draw can take.
    TooManyIndices,
    /// A mesh whose index count is not a multiple of four, or with an index
    /// that names none of its vertices.
    MalformedMesh,
}

/// What happens to one GPU buffer in a frame.
#[derive(Debug, Clone, Copy, PartialEq, Eq, Structural)]
pub enum BufferWrite {
    /// Nothing to write: the buffer is left as it is.
    Skip,
    /// Write `bytes` bytes through the staging helper into the buffer.
    Write { bytes: u64 },
    /// The buffer is too small: create it anew with room for exactly `bytes`
    /// bytes, then write them.
    Recreate { bytes: u64 },
}

/// How the buffers are brought up to date for one frame, and how many indices
/// the frame draws.
#[derive(Debug, Clone, Copy, PartialEq, Eq, Structural)]
pub struct UploadPlan {
    pub vertices: BufferWrite,
    pub indices: BufferWrite,
    pub draw_count: u32,
}

/// The write for a buffer of `capacity` bytes that must take `bytes` bytes.
pub open spec fn write_for(capacity: u64, bytes: u64) -> BufferWrite {
    if bytes == 0 {
        BufferWrite::Skip
    } else if bytes > capacity {
        BufferWrite::Recreate { bytes }
    } else {
        BufferWrite::Write { bytes }
    }
}

/// The capacity of a buffer of `capacity` bytes after it took `bytes` bytes.
pub open spec fn capacity_after(capacity: u64, bytes: u64) -> u64 {
    if bytes > capacity { bytes } else { capacity }
}

fn plan_write(capacity: u64, bytes: u64) -> (r: BufferWrite)
    ensures
        r == write_for(capacity, bytes),
{
    if bytes == 0 {
        BufferWrite::Skip
    } else if bytes > capacity {
        BufferWrite::Recreate { bytes }
    } else {
        BufferWrite::Write { bytes }
    }
}

/// The vertex and index buffers of the stroke pipeline, by their sizes in
/// bytes, and the number of indices of the mesh they hold.
///
/// Both buffers start empty. Each frame uploads a freshly built mesh; a buffer
/// grows when a frame needs more room than it has and is otherwise reused.
pub struct BufferPair {
    pub vertex_capacity: u64,
    pub index_capacity: u64,
    pub num_indices: u32,
}

impl BufferPair {
    /// Buffers of zero bytes, holding nothing to draw.
    pub fn new() -> (r: BufferPair)
        ensures
            r.vertex_capacity == 0,
            r.index_capacity == 0,
            r.num_indices == 0,
    {
        BufferPair { vertex_capacity: 0, index_capacity: 0, num_indices: 0 }
    }

    /// Plans the upload of `mesh` for this frame and records the sizes that the
    /// buffers have afterwards.
    ///
    /// Each write is exactly as long as the data; a buffer that is too small is
    /// recreated at that length first. An empty mesh writes nothing and draws
    /// nothing.
    pub fn plan_upload<C, Q>(&mut self, mesh: &Tessellate<C, Q>) -> (r: Result<
        UploadPlan,
        UploadError,
    >)
        ensures
            mesh.vertices@.len() > MAX_VERTICES ==> r == Err::<UploadPlan, UploadError>(
                UploadError::TooManyVertices,
            ),
            mesh.vertices@.len() <= MAX_VERTICES && mesh.indices@.len() > u32::MAX ==> r == Err::<
                UploadPlan,
                UploadError,
            >(UploadError::TooManyIndices),
            r is Err ==> *final(self) == *old(self),
            mesh.vertices@.len() <= MAX_VERTICES && mesh.indices@.len() <= u32::MAX ==> {
                let vb = (mesh.vertices@.len() * VERTEX_STRIDE) as u64;
                let ib = (mesh.indices@.len() * INDEX_SIZE) as u64;
                &&& r == Ok::<UploadPlan, UploadError>(
                    UploadPlan {
                        vertices: write_for(old(self).vertex_capacity, vb),
                        indices: write_for(old(self).index_capacity, ib),
                        draw_count: mesh.indices@.len() as u32,
                    },
                )
                &&& final(self).vertex_capacity == capacity_after(old(self).vertex_capacity, vb)
                &&& final(self).index_capacity == capacity_after(old(self).index_capacity, ib)
                &&& final(self).num_indices == mesh.indices@.len()
                &&& final(self).vertex_capacity >= vb
                &&& final(self).index_capacity >= ib
            },
    {
        let nv = mesh.vertices.len();
        let ni = mesh.indices.len();
        if nv > MAX_VERTICES {
            return Err(UploadError::TooManyVertices);
        }
        if ni > 0xffff_ffffusize {
            return Err(UploadError::TooManyIndices);
        }
        let vb: u64 = nv as u64 * VERTEX_STRIDE;
        let ib: u64 = ni as u64 * INDEX_SIZE;
        let plan = UploadPlan {
            vertices: plan_write(self.vertex_capacity, vb),
            indices: plan_write(self.index_capacity, ib),
            draw_count: ni as u32,
        };
        if vb > self.vertex_capacity {
            self.vertex_capacity = vb;
        }
        if ib > self.index_capacity {
            self.index_capacity = ib;
        }
        self.num_indices = ni as u32;
        Ok(plan)
    }
}

/// The vertices of `ms`, one mesh after another.
pub open spec fn all_vertices<C, Q>(ms: Seq<Tessellate<C, Q>>) -> Seq<TessellateVertex<C, Q>>
    decreases ms.len(),
{
    if ms.len() == 0 {
        Seq::empty()
    } else {
        all_vertices(ms.drop_last()) + ms.last().vertices@
    }
}

/// The indices of `ms`, one mesh after another, each shifted by the number of
/// vertices of the meshes before its own.
pub open spec fn all_indices<C, Q>(ms: Seq<Tessellate<C, Q>>) -> Seq<int>
    decreases ms.len(),
{
    if ms.len() == 0 {
        Seq::empty()
    } else {
        all_indices(ms.drop_last()) + ms.last().indices@.map_values(
            |i: u16| i as int + all_vertices(ms.drop_last()).len(),
        )
    }
}

/// The indices of `s` as integers.
pub open spec fn as_ints(s: Seq<u16>) -> Seq<int> {
    s.map_values(|i: u16| i as int)
}

proof fn lemma_all_vertices_prefix<C, Q>(ms: Seq<Tessellate<C, Q>>, k: int)
    requires
        0 <= k <= ms.len(),
    ensures
        all_vertices(ms.subrange(0, k)).len() <= all_vertices(ms).len(),
    decreases ms.len(),
{
    if k < ms.len() {
        lemma_all_vertices_prefix(ms.drop_last(), k);
        assert(ms.drop_last().subrange(0, k) =~= ms.subrange(0, k));
    } else {
        assert(ms.subrange(0, k) =~= ms);
    }
}

/// Whether every mesh of `meshes` is well formed.
pub fn all_well_formed<C, Q>(meshes: &Vec<Tessellate<C, Q>>) -> (r: bool)
    ensures
        r == forall|k: int| 0 <= k < meshes@.len() ==> (#[trigger] meshes@[k]).wf(),
{
    let mut k: usize = 0;
    while k < meshes.len()
        invariant
            k <= meshes@.len(),
            forall|j: int| 0 <= j < k ==> (#[trigger] meshes@[j]).wf(),
        decreases meshes@.len() - k,
    {
        let m = &meshes[k];
        if m.indices.len() % 4 != 0 || !check_indices(&m.indices, m.vertices.len()) {
            return false;
        }
        k = k + 1;
    }
    true
}

/// Joins the meshes of a frame into one mesh for a single upload and a single
/// indexed draw: the vertices one mesh after another, and each mesh's indices
/// shifted past the vertices of the meshes before it.
pub fn concat_meshes<C: Copy, Q: Copy>(meshes: &Vec<Tessellate<C, Q>>) -> (r: Result<
    Tessellate<C, Q>,
    UploadError,
>)
    ensures
        !(forall|k: int| 0 <= k < meshes@.len() ==> (#[trigger] meshes@[k]).wf()) ==> r == Err::<
            Tessellate<C, Q>,
            UploadError,
        >(UploadError::MalformedMesh),
        (forall|k: int| 0 <= k < meshes@.len() ==> (#[trigger] meshes@[k]).wf()) && all_vertices(
            meshes@,
        ).len() > MAX_VERTICES ==> r == Err::<Tessellate<C, Q>, UploadError>(
            UploadError::TooManyVertices,
        ),
        (forall|k: int| 0 <= k < meshes@.len() ==> (#[trigger] meshes@[k]).wf()) && all_vertices(
            meshes@,
        ).len() <= MAX_VERTICES ==> (r matches Ok(m) && m.vertices@ == all_vertices(meshes@)
            && as_ints(m.indices@) == all_indices(meshes@) && m.wf()),
{
    if !all_well_formed(meshes) {
        return Err(UploadError::MalformedMesh);
    }
    let mut vertices: Vec<TessellateVertex<C, Q>> = Vec::new();
    let mut indices: Vec<u16> = Vec::new();
    let mut k: usize = 0;
    while k < meshes.len()
        invariant
            k <= meshes@.len(),
            forall|k: int| 0 <= k < meshes@.len() ==> (#[trigger] meshes@[k]).wf(),
            vertices@ == all_vertices(meshes@.subrange(0, k as int)),
            as_ints(indices@) == all_indices(meshes@.subrange(0, k as int)),
            vertices@.len() <= MAX_VERTICES,
            indices@.len() % 4 == 0,
            indices_in_range(indices@, vertices@.len()),
        decreases meshes@.len() - k,
    {
        let mesh = &meshes[k];
        let ghost pre = meshes@.subrange(0, k as int);
        let ghost next = meshes@.subrange(0, k + 1);
        assert(next.drop_last() =~= pre);
        assert(next.last() == *mesh);
        let base = vertices.len();
        if mesh.vertices.len() > MAX_VERTICES - base {
            proof {
                lemma_all_vertices_prefix(meshes@, k + 1);
            }
            return Err(UploadError::TooManyVertices);
        }
        let ghost v0 = vertices@;
        let mut j: usize = 0;
        while j < mesh.vertices.len()
            invariant
                j <= mesh.vertices@.len(),
                vertices@ =~= v0 + mesh.vertices@.subrange(0, j as int),
            decreases mesh.vertices@.len() - j,
        {
            let v = mesh.vertices[j];
            vertices.push(v);
            j = j + 1;
        }
        assert(mesh.vertices@.subrange(0, j as int) =~= mesh.vertices@);
        let ghost i0 = indices@;
        let mut j: usize = 0;
        while j < mesh.indices.len()
            invariant
                j <= mesh.indices@.len(),
                mesh.wf(),
                base + mesh.vertices@.len() <= MAX_VERTICES,
                vertices@.len() == base + mesh.vertices@.len(),
                indices_in_range(i0, base as nat),
                indices@.len() == i0.len() + j,
                as_ints(indices@) =~= as_ints(i0) + mesh.indices@.subrange(0, j as int).map_values(
                    |i: u16| i as int + base,
                ),
                indices_in_range(indices@, vertices@.len()),
            decreases mesh.indices@.len() - j,
        {
            let i = mesh.indices[j];
            assert((i as nat) < mesh.vertices@.len());
            let shifted = (i as usize + base) as u16;
            assert(shifted as int == i as int + base);
            let ghost before = indices@;
            indices.push(shifted);
            assert(as_ints(indices@) =~= as_ints(before).push(shifted as int));
            assert(mesh.indices@.subrange(0, j + 1) =~= mesh.indices@.subrange(0, j as int).push(i));
            j = j + 1;
        }
        assert(mesh.indices@.subrange(0, j as int) =~= mesh.indices@);
        k = k + 1;
    }
    assert(meshes@.subrange(0, k as int) =~= meshes@);
    Ok(Tessellate { vertices, indices })
}

} // verus!
