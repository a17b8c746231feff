//! Mesh entities and the lazy GPU-buffer binder.
//!
//! A mesh owns its vertex bytes, an optional 32-bit index sequence, and two
//! buffer identifiers that start at the sentinel zero. The binder runs when a
//! mesh is first observed: it allocates a GPU buffer per sub-resource, stores
//! it in [`GpuMeshes`] under a fresh random non-zero identifier, and records
//! the identifier on the mesh. A second run on an already-bound mesh is a
//! no-op, so the binder may be re-triggered safely.

use vstd::prelude::*;
use std::collections::HashMap;
use crate::gpu;
use crate::pipeline::{Pipelines, UniformState};
use crate::render::{Renderable, resolve_renderable};

verus! {

broadcast use vstd::std_specs::hash::group_hash_axioms;

/// Bytes of one 3D vertex: position (three 32-bit floats) and color (three
/// 32-bit floats).
pub const VERTEX_SIZE: usize = 24;

/// Bytes of one 2D vertex: position (two 32-bit floats) and color (three
/// 32-bit floats).
pub const VERTEX2D_SIZE: usize = 20;

/// The GPU buffer cache: every allocated vertex or index buffer, keyed by the
/// randomly generated identifier the binder assigned to it. No entry is ever
/// removed.
///
/// The buffer type is a parameter so that the binder's identifier logic can
/// be exercised with a stand-in where no GPU device exists; the renderer uses
/// `wgpu::Buffer`.
pub struct GpuMeshes<B> {
    pub buffers_map: HashMap<u64, B>,
}

impl<B> GpuMeshes<B> {
    /// An empty cache.
    pub fn new() -> (r: GpuMeshes<B>)
        ensures
            r.buffers_map@ == Map::<u64, B>::empty(),
    {
        GpuMeshes { buffers_map: HashMap::new() }
    }
}

/// The mathematical content of a mesh: its vertex bytes and derived vertex
/// count, its index sequence where it has one, its two buffer identifiers
/// and its two shader handles.
pub struct MeshView {
    pub vertex_data: Seq<u8>,
    pub vertex_count: int,
    pub indices: Option<Seq<u32>>,
    pub vertex_buffer_id: u64,
    pub index_buffer_id: u64,
    pub vertex_shader: u64,
    pub fragment_shader: u64,
}

impl MeshView {
    pub open spec fn has_indices(&self) -> bool {
        self.indices is Some
    }

    pub open spec fn num_indices(&self) -> int {
        match self.indices {
            Some(s) => s.len() as int,
            None => 0,
        }
    }

    /// The binder never touches anything but the two buffer identifiers.
    pub open spec fn same_geometry(self, other: MeshView) -> bool {
        &&& self.vertex_data == other.vertex_data
        &&& self.vertex_count == other.vertex_count
        &&& self.indices == other.indices
        &&& self.vertex_shader == other.vertex_shader
        &&& self.fragment_shader == other.fragment_shader
    }
}

/// A 3D mesh: vertex bytes, an optional index sequence, the two lazily
/// assigned buffer identifiers (zero until the binder runs), and the handles
/// of the shaders that draw it.
pub struct Mesh {
    vertex_data: Vec<u8>,
    indices: Option<Vec<u32>>,
    pub vertex_buffer_id: u64,
    pub index_buffer_id: u64,
    pub vertex_shader: u64,
    pub fragment_shader: u64,
}

impl View for Mesh {
    type V = MeshView;

    closed spec fn view(&self) -> MeshView {
        MeshView {
            vertex_data: self.vertex_data@,
            vertex_count: self.vertex_data@.len() as int / (VERTEX_SIZE as int),
            indices: match self.indices {
                Some(ref v) => Some(v@),
                None => None,
            },
            vertex_buffer_id: self.vertex_buffer_id,
            index_buffer_id: self.index_buffer_id,
            vertex_shader: self.vertex_shader,
            fragment_shader: self.fragment_shader,
        }
    }
}

impl Mesh {
    /// A mesh without indices, drawn with the default shader. `vertices`
    /// holds the raw bytes of the vertex array, [`VERTEX_SIZE`] bytes per
    /// vertex.
    pub fn new(vertices: Vec<u8>) -> (m: Mesh)
        requires
            vertices@.len() as int % (VERTEX_SIZE as int) == 0,
            vertices@.len() as int / (VERTEX_SIZE as int) <= u32::MAX,
        ensures
            m@ == (MeshView {
                vertex_data: vertices@,
                vertex_count: vertices@.len() as int / (VERTEX_SIZE as int),
                indices: None,
                vertex_buffer_id: 0,
                index_buffer_id: 0,
                vertex_shader: 0,
                fragment_shader: 0,
            }),
    {
        Mesh {
            vertex_data: vertices,
            indices: None,
            vertex_buffer_id: 0,
            index_buffer_id: 0,
            vertex_shader: 0,
            fragment_shader: 0,
        }
    }

    /// A mesh with a 32-bit index sequence, drawn with the default shader.
    pub fn with_indices(vertices: Vec<u8>, indices: Vec<u32>) -> (m: Mesh)
        requires
            vertices@.len() as int % (VERTEX_SIZE as int) == 0,
            vertices@.len() as int / (VERTEX_SIZE as int) <= u32::MAX,
            indices@.len() <= u32::MAX,
        ensures
            m@ == (MeshView {
                vertex_data: vertices@,
                vertex_count: vertices@.len() as int / (VERTEX_SIZE as int),
                indices: Some(indices@),
                vertex_buffer_id: 0,
                index_buffer_id: 0,
                vertex_shader: 0,
                fragment_shader: 0,
            }),
    {
        Mesh {
            vertex_data: vertices,
            indices: Some(indices),
            vertex_buffer_id: 0,
            index_buffer_id: 0,
            vertex_shader: 0,
            fragment_shader: 0,
        }
    }

    pub fn num_vertices(&self) -> (n: usize)
        ensures
            n == self@.vertex_count,
    {
        self.vertex_data.len() / VERTEX_SIZE
    }

    pub fn num_indices(&self) -> (n: usize)
        ensures
            n == self@.num_indices(),
    {
        match &self.indices {
            Some(indices) => indices.len(),
            None => 0,
        }
    }

    pub fn has_indices(&self) -> (r: bool)
        ensures
            r == self@.has_indices(),
    {
        self.indices.is_some()
    }

    /// Reads the vertex-buffer identifier (zero while unassigned).
    pub fn vertex_buffer_id(&self) -> (id: u64)
        ensures
            id == self@.vertex_buffer_id,
    {
        self.vertex_buffer_id
    }

    /// Reads the index-buffer identifier (zero while unassigned).
    pub fn index_buffer_id(&self) -> (id: u64)
        ensures
            id == self@.index_buffer_id,
    {
        self.index_buffer_id
    }

    /// Picks the shaders that draw this mesh.
    pub fn set_shaders(&mut self, vertex_shader: u64, fragment_shader: u64)
        ensures
            final(self)@ == (MeshView {
                vertex_shader,
                fragment_shader,
                ..old(self)@
            }),
    {
        self.vertex_shader = vertex_shader;
        self.fragment_shader = fragment_shader;
    }

    /// Reads the handle of the vertex shader.
    pub fn vertex_shader(&self) -> (h: u64)
        ensures
            h == self@.vertex_shader,
    {
        self.vertex_shader
    }
}

/// A 2D mesh: the same shape as [`Mesh`] with two-float positions, so
/// [`VERTEX2D_SIZE`] bytes per vertex, drawn with the default 2D shader.
pub struct Mesh2D {
    vertex_data: Vec<u8>,
    indices: Option<Vec<u32>>,
    pub vertex_buffer_id: u64,
    pub index_buffer_id: u64,
    pub vertex_shader: u64,
    pub fragment_shader: u64,
}

impl View for Mesh2D {
    type V = MeshView;

    closed spec fn view(&self) -> MeshView {
        MeshView {
            vertex_data: self.vertex_data@,
            vertex_count: self.vertex_data@.len() as int / (VERTEX2D_SIZE as int),
            indices: match self.indices {
                Some(ref v) => Some(v@),
                None => None,
            },
            vertex_buffer_id: self.vertex_buffer_id,
            index_buffer_id: self.index_buffer_id,
            vertex_shader: self.vertex_shader,
            fragment_shader: self.fragment_shader,
        }
    }
}

impl Mesh2D {
    /// A 2D mesh without indices, drawn with the default 2D shader (handle 1
    /// when the registry was initialized freshly).
    pub fn new(vertices: Vec<u8>) -> (m: Mesh2D)
        requires
            vertices@.len() as int % (VERTEX2D_SIZE as int) == 0,
            vertices@.len() as int / (VERTEX2D_SIZE as int) <= u32::MAX,
        ensures
            m@ == (MeshView {
                vertex_data: vertices@,
                vertex_count: vertices@.len() as int / (VERTEX2D_SIZE as int),
                indices: None,
                vertex_buffer_id: 0,
                index_buffer_id: 0,
                vertex_shader: 1,
                fragment_shader: 1,
            }),
    {
        Mesh2D {
            vertex_data: vertices,
            indices: None,
            vertex_buffer_id: 0,
            index_buffer_id: 0,
            vertex_shader: 1,
            fragment_shader: 1,
        }
    }

    /// A 2D mesh with a 32-bit index sequence.
    pub fn with_indices(vertices: Vec<u8>, indices: Vec<u32>) -> (m: Mesh2D)
        requires
            vertices@.len() as int % (VERTEX2D_SIZE as int) == 0,
            vertices@.len() as int / (VERTEX2D_SIZE as int) <= u32::MAX,
            indices@.len() <= u32::MAX,
        ensures
            m@ == (MeshView {
                vertex_data: vertices@,
                vertex_count: vertices@.len() as int / (VERTEX2D_SIZE as int),
                indices: Some(indices@),
                vertex_buffer_id: 0,
                index_buffer_id: 0,
                vertex_shader: 1,
                fragment_shader: 1,
            }),
    {
        Mesh2D {
            vertex_data: vertices,
            indices: Some(indices),
            vertex_buffer_id: 0,
            index_buffer_id: 0,
            vertex_shader: 1,
            fragment_shader: 1,
        }
    }

    pub fn num_vertices(&self) -> (n: usize)
        ensures
            n == self@.vertex_count,
    {
        self.vertex_data.len() / VERTEX2D_SIZE
    }

    pub fn num_indices(&self) -> (n: usize)
        ensures
            n == self@.num_indices(),
    {
        match &self.indices {
            Some(indices) => indices.len(),
            None => 0,
        }
    }

    pub fn has_indices(&self) -> (r: bool)
        ensures
            r == self@.has_indices(),
    {
        self.indices.is_some()
    }

    /// Reads the vertex-buffer identifier (zero while unassigned).
    pub fn vertex_buffer_id(&self) -> (id: u64)
        ensures
            id == self@.vertex_buffer_id,
    {
        self.vertex_buffer_id
    }

    /// Reads the index-buffer identifier (zero while unassigned).
    pub fn index_buffer_id(&self) -> (id: u64)
        ensures
            id == self@.index_buffer_id,
    {
        self.index_buffer_id
    }

    /// Picks the shaders that draw this mesh.
    pub fn set_shaders(&mut self, vertex_shader: u64, fragment_shader: u64)
        ensures
            final(self)@ == (MeshView {
                vertex_shader,
                fragment_shader,
                ..old(self)@
            }),
    {
        self.vertex_shader = vertex_shader;
        self.fragment_shader = fragment_shader;
    }

    /// Reads the handle of the vertex shader.
    pub fn vertex_shader(&self) -> (h: u64)
        ensures
            h == self@.vertex_shader,
    {
        self.vertex_shader
    }
}

/// Relies on `rand::random`: a value drawn from the standard distribution.
/// Nothing is promised of the result.
pub assume_specification<T>[ rand::random::<T> ]() -> (r: T)
    where
        rand::distributions::Standard: rand::distributions::Distribution<T>,
;

/// The non-zero identifiers up to `n`.
spec fn id_range(n: int) -> Set<u64> {
    Set::new(|k: u64| 1 <= k && k <= n)
}

proof fn lemma_id_range_len(n: int)
    requires
        0 <= n <= u64::MAX,
    ensures
        id_range(n).finite(),
        id_range(n).len() == n,
    decreases n,
{
    if n == 0 {
        assert(id_range(0) =~= Set::<u64>::empty());
    } else {
        lemma_id_range_len(n - 1);
        assert(id_range(n) =~= id_range(n - 1).insert(n as u64));
        vstd::set::axiom_set_insert_len(id_range(n - 1), n as u64);
    }
}

/// Picks an identifier that is non-zero and not yet used by the cache:
/// normally a freshly drawn random one, with a linear probe as the fallback
/// that bounds the search.
fn fresh_buffer_id<B>(gpu_meshes: &GpuMeshes<B>) -> (id: u64)
    requires
        gpu_meshes.buffers_map@.len() < u64::MAX,
    ensures
        id != 0,
        !gpu_meshes.buffers_map@.contains_key(id),
{
    let mut attempts: usize = 0;
    let mut id: u64 = rand::random();
    while (id == 0 || gpu_meshes.buffers_map.contains_key(&id)) && attempts < 64
        invariant
            attempts <= 64,
        decreases 64 - attempts,
    {
        id = rand::random();
        attempts += 1;
    }
    if id != 0 && !gpu_meshes.buffers_map.contains_key(&id) {
        return id;
    }
    let n64 = gpu_meshes.buffers_map.len() as u64;
    let mut cand: u64 = 1;
    while gpu_meshes.buffers_map.contains_key(&cand)
        invariant
            1 <= cand <= n64 + 1,
            n64 == gpu_meshes.buffers_map@.len(),
            n64 < u64::MAX,
            forall|k: u64| 1 <= k < cand ==> gpu_meshes.buffers_map@.contains_key(k),
        decreases n64 + 1 - cand,
    {
        proof {
            lemma_id_range_len(cand as int);
            assert forall|k: u64|
                id_range(cand as int).contains(k) implies gpu_meshes.buffers_map@.dom().contains(
                k,
            ) by {
                if k < cand {
                    assert(gpu_meshes.buffers_map@.contains_key(k));
                }
            }
            vstd::set_lib::lemma_len_subset(
                id_range(cand as int),
                gpu_meshes.buffers_map@.dom(),
            );
        }
        cand = cand + 1;
    }
    cand
}

/// Relies on `bytemuck::cast_slice`: reinterprets the 32-bit index array as
/// its raw bytes, four bytes per index.
#[verifier::external_body]
fn index_contents(indices: &[u32]) -> (r: &[u8])
    ensures
        r@.len() == 4 * indices@.len(),
{
    bytemuck::cast_slice(indices)
}

/// The mesh invariant: a buffer identifier is either the sentinel zero or a
/// live key of the buffer cache. Constructors establish it (both identifiers
/// start at zero) and the binder preserves it.
pub open spec fn mesh_buffers_live<B>(m: MeshView, g: Map<u64, B>) -> bool {
    &&& (m.vertex_buffer_id != 0 ==> g.contains_key(m.vertex_buffer_id))
    &&& (m.index_buffer_id != 0 ==> g.contains_key(m.index_buffer_id))
}

/// What one run of the binder does to the buffer cache and to a mesh's two
/// buffer identifiers: an identifier that was zero becomes a fresh non-zero
/// key of the cache (the index identifier only where the mesh has indices),
/// an identifier that was non-zero is left alone, every cache entry that
/// existed is kept unchanged, and nothing else enters the cache.
pub open spec fn binds_gpu_buffers<B>(
    g0: Map<u64, B>,
    g1: Map<u64, B>,
    vid0: u64,
    vid1: u64,
    iid0: u64,
    iid1: u64,
    has_idx: bool,
) -> bool {
    &&& (vid0 != 0 ==> vid1 == vid0)
    &&& (vid0 == 0 ==> vid1 != 0 && !g0.contains_key(vid1) && g1.contains_key(vid1))
    &&& (!(has_idx && iid0 == 0) ==> iid1 == iid0)
    &&& (has_idx && iid0 == 0 ==> iid1 != 0 && iid1 != vid1 && !g0.contains_key(iid1)
        && g1.contains_key(iid1))
    &&& g1.dom() == g0.dom().union(bound_ids(vid0, vid1, iid0, iid1, has_idx))
    &&& (forall|k: u64| g0.contains_key(k) ==> g1[k] == g0[k])
}

/// The identifiers one binder run adds to the cache.
pub open spec fn bound_ids(vid0: u64, vid1: u64, iid0: u64, iid1: u64, has_idx: bool) -> Set<
    u64,
> {
    (if vid0 == 0 {
        set![vid1]
    } else {
        Set::empty()
    }).union(
        if has_idx && iid0 == 0 {
            set![iid1]
        } else {
            Set::empty()
        },
    )
}

/// Binds the GPU buffers of one 3D mesh, creating them on the device. Runs
/// when the mesh is first observed; the sentinel-zero checks make a second
/// run a no-op.
pub fn create_gpu_buffer_for_mesh(
    mesh: &mut Mesh,
    renderable: &mut Renderable,
    gpu_meshes: &mut GpuMeshes<wgpu::Buffer>,
    pipelines: &Pipelines<wgpu::RenderPipeline, UniformState>,
    device: &wgpu::Device,
) -> (resolved: bool)
    requires
        old(gpu_meshes).buffers_map@.len() + 2 <= u64::MAX,
        mesh_buffers_live(old(mesh)@, old(gpu_meshes).buffers_map@),
    ensures
        binds_gpu_buffers(
            old(gpu_meshes).buffers_map@,
            final(gpu_meshes).buffers_map@,
            old(mesh)@.vertex_buffer_id,
            final(mesh)@.vertex_buffer_id,
            old(mesh)@.index_buffer_id,
            final(mesh)@.index_buffer_id,
            old(mesh)@.has_indices(),
        ),
        mesh_buffers_live(final(mesh)@, final(gpu_meshes).buffers_map@),
        final(mesh)@.same_geometry(old(mesh)@),
        old(mesh)@.vertex_buffer_id != 0 ==> *final(renderable) == *old(renderable),
        old(mesh)@.vertex_buffer_id == 0 ==> final(renderable).pipeline_id
            == pipelines.spec_pipeline_id(old(mesh)@.vertex_shader),
        resolved == !(old(mesh)@.vertex_buffer_id == 0 && pipelines.spec_pipeline_id(
            old(mesh)@.vertex_shader,
        ) == 0),
{
    let mut resolved = true;
    if mesh.vertex_buffer_id == 0 {
        let buffer_id = fresh_buffer_id(gpu_meshes);
        let buffer = gpu::create_vertex_buffer(device, buffer_id, mesh.vertex_data.as_slice());
        gpu_meshes.buffers_map.insert(buffer_id, buffer);
        mesh.vertex_buffer_id = buffer_id;
        resolved = resolve_renderable(renderable, pipelines, mesh.vertex_shader);
    }
    if mesh.has_indices() && mesh.index_buffer_id == 0 {
        let buffer_id = fresh_buffer_id(gpu_meshes);
        let buffer = match &mesh.indices {
            Some(indices) => Some(
                gpu::create_index_buffer(device, buffer_id, index_contents(indices.as_slice())),
            ),
            None => None,
        };
        if let Some(buffer) = buffer {
            gpu_meshes.buffers_map.insert(buffer_id, buffer);
            mesh.index_buffer_id = buffer_id;
        }
    }
    proof {
        assert(final(gpu_meshes).buffers_map@.dom() =~= old(gpu_meshes).buffers_map@.dom().union(
            bound_ids(
                old(mesh)@.vertex_buffer_id,
                final(mesh)@.vertex_buffer_id,
                old(mesh)@.index_buffer_id,
                final(mesh)@.index_buffer_id,
                old(mesh)@.has_indices(),
            ),
        ));
    }
    resolved
}

/// Binds the GPU buffers of one 2D mesh, creating them on the device.
/// Behaves exactly as [`create_gpu_buffer_for_mesh`] does for 3D meshes.
pub fn create_gpu_buffer_for_mesh2d(
    mesh: &mut Mesh2D,
    renderable: &mut Renderable,
    gpu_meshes: &mut GpuMeshes<wgpu::Buffer>,
    pipelines: &Pipelines<wgpu::RenderPipeline, UniformState>,
    device: &wgpu::Device,
) -> (resolved: bool)
    requires
        old(gpu_meshes).buffers_map@.len() + 2 <= u64::MAX,
        mesh_buffers_live(old(mesh)@, old(gpu_meshes).buffers_map@),
    ensures
        binds_gpu_buffers(
            old(gpu_meshes).buffers_map@,
            final(gpu_meshes).buffers_map@,
            old(mesh)@.vertex_buffer_id,
            final(mesh)@.vertex_buffer_id,
            old(mesh)@.index_buffer_id,
            final(mesh)@.index_buffer_id,
            old(mesh)@.has_indices(),
        ),
        mesh_buffers_live(final(mesh)@, final(gpu_meshes).buffers_map@),
        final(mesh)@.same_geometry(old(mesh)@),
        old(mesh)@.vertex_buffer_id != 0 ==> *final(renderable) == *old(renderable),
        old(mesh)@.vertex_buffer_id == 0 ==> final(renderable).pipeline_id
            == pipelines.spec_pipeline_id(old(mesh)@.vertex_shader),
        resolved == !(old(mesh)@.vertex_buffer_id == 0 && pipelines.spec_pipeline_id(
            old(mesh)@.vertex_shader,
        ) == 0),
{
    let mut resolved = true;
    if mesh.vertex_buffer_id == 0 {
        let buffer_id = fresh_buffer_id(gpu_meshes);
        let buffer = gpu::create_vertex_buffer(device, buffer_id, mesh.vertex_data.as_slice());
        gpu_meshes.buffers_map.insert(buffer_id, buffer);
        mesh.vertex_buffer_id = buffer_id;
        resolved = resolve_renderable(renderable, pipelines, mesh.vertex_shader);
    }
    if mesh.has_indices() && mesh.index_buffer_id == 0 {
        let buffer_id = fresh_buffer_id(gpu_meshes);
        let buffer = match &mesh.indices {
            Some(indices) => Some(
                gpu::create_index_buffer(device, buffer_id, index_contents(indices.as_slice())),
            ),
            None => None,
        };
        if let Some(buffer) = buffer {
            gpu_meshes.buffers_map.insert(buffer_id, buffer);
            mesh.index_buffer_id = buffer_id;
        }
    }
    proof {
        assert(final(gpu_meshes).buffers_map@.dom() =~= old(gpu_meshes).buffers_map@.dom().union(
            bound_ids(
                old(mesh)@.vertex_buffer_id,
                final(mesh)@.vertex_buffer_id,
                old(mesh)@.index_buffer_id,
                final(mesh)@.index_buffer_id,
                old(mesh)@.has_indices(),
            ),
        ));
    }
    resolved
}

/// What one run of the binder allocated.
#[derive(Clone, Copy, Debug, PartialEq, Eq, Structural)]
pub struct BindReport {
    pub vertex_allocated: bool,
    pub index_allocated: bool,
}

/// Binds the buffers of one 3D mesh against caller-supplied buffer values
/// instead of a GPU device: the identifier logic is the same as in
/// [`create_gpu_buffer_for_mesh`], and a buffer value is consumed only where
/// the matching identifier was still unassigned.
pub fn bind_mesh_buffers<B>(
    mesh: &mut Mesh,
    gpu_meshes: &mut GpuMeshes<B>,
    vertex_buf: Option<B>,
    index_buf: Option<B>,
) -> (report: BindReport)
    requires
        old(gpu_meshes).buffers_map@.len() + 2 <= u64::MAX,
        mesh_buffers_live(old(mesh)@, old(gpu_meshes).buffers_map@),
        old(mesh)@.vertex_buffer_id == 0 ==> vertex_buf is Some,
        old(mesh)@.has_indices() && old(mesh)@.index_buffer_id == 0 ==> index_buf is Some,
    ensures
        binds_gpu_buffers(
            old(gpu_meshes).buffers_map@,
            final(gpu_meshes).buffers_map@,
            old(mesh)@.vertex_buffer_id,
            final(mesh)@.vertex_buffer_id,
            old(mesh)@.index_buffer_id,
            final(mesh)@.index_buffer_id,
            old(mesh)@.has_indices(),
        ),
        mesh_buffers_live(final(mesh)@, final(gpu_meshes).buffers_map@),
        final(mesh)@.same_geometry(old(mesh)@),
        old(mesh)@.vertex_buffer_id == 0
            ==> final(gpu_meshes).buffers_map@[final(mesh)@.vertex_buffer_id]
            == vertex_buf.unwrap(),
        old(mesh)@.has_indices() && old(mesh)@.index_buffer_id == 0
            ==> final(gpu_meshes).buffers_map@[final(mesh)@.index_buffer_id]
            == index_buf.unwrap(),
        report.vertex_allocated == (old(mesh)@.vertex_buffer_id == 0),
        report.index_allocated == (old(mesh)@.has_indices() && old(mesh)@.index_buffer_id == 0),
{
    let mut report = BindReport { vertex_allocated: false, index_allocated: false };
    if mesh.vertex_buffer_id == 0 {
        let buffer_id = fresh_buffer_id(gpu_meshes);
        if let Some(buffer) = vertex_buf {
            gpu_meshes.buffers_map.insert(buffer_id, buffer);
            mesh.vertex_buffer_id = buffer_id;
            report.vertex_allocated = true;
        }
    }
    if mesh.has_indices() && mesh.index_buffer_id == 0 {
        let buffer_id = fresh_buffer_id(gpu_meshes);
        if let Some(buffer) = index_buf {
            gpu_meshes.buffers_map.insert(buffer_id, buffer);
            mesh.index_buffer_id = buffer_id;
            report.index_allocated = true;
        }
    }
    proof {
        assert(final(gpu_meshes).buffers_map@.dom() =~= old(gpu_meshes).buffers_map@.dom().union(
            bound_ids(
                old(mesh)@.vertex_buffer_id,
                final(mesh)@.vertex_buffer_id,
                old(mesh)@.index_buffer_id,
                final(mesh)@.index_buffer_id,
                old(mesh)@.has_indices(),
            ),
        ));
    }
    report
}

/// As [`bind_mesh_buffers`], for 2D meshes.
pub fn bind_mesh2d_buffers<B>(
    mesh: &mut Mesh2D,
    gpu_meshes: &mut GpuMeshes<B>,
    vertex_buf: Option<B>,
    index_buf: Option<B>,
) -> (report: BindReport)
    requires
        old(gpu_meshes).buffers_map@.len() + 2 <= u64::MAX,
        mesh_buffers_live(old(mesh)@, old(gpu_meshes).buffers_map@),
        old(mesh)@.vertex_buffer_id == 0 ==> vertex_buf is Some,
        old(mesh)@.has_indices() && old(mesh)@.index_buffer_id == 0 ==> index_buf is Some,
    ensures
        binds_gpu_buffers(
            old(gpu_meshes).buffers_map@,
            final(gpu_meshes).buffers_map@,
            old(mesh)@.vertex_buffer_id,
            final(mesh)@.vertex_buffer_id,
            old(mesh)@.index_buffer_id,
            final(mesh)@.index_buffer_id,
            old(mesh)@.has_indices(),
        ),
        mesh_buffers_live(final(mesh)@, final(gpu_meshes).buffers_map@),
        final(mesh)@.same_geometry(old(mesh)@),
        old(mesh)@.vertex_buffer_id == 0
            ==> final(gpu_meshes).buffers_map@[final(mesh)@.vertex_buffer_id]
            == vertex_buf.unwrap(),
        old(mesh)@.has_indices() && old(mesh)@.index_buffer_id == 0
            ==> final(gpu_meshes).buffers_map@[final(mesh)@.index_buffer_id]
            == index_buf.unwrap(),
        report.vertex_allocated == (old(mesh)@.vertex_buffer_id == 0),
        report.index_allocated == (old(mesh)@.has_indices() && old(mesh)@.index_buffer_id == 0),
{
    let mut report = BindReport { vertex_allocated: false, index_allocated: false };
    if mesh.vertex_buffer_id == 0 {
        let buffer_id = fresh_buffer_id(gpu_meshes);
        if let Some(buffer) = vertex_buf {
            gpu_meshes.buffers_map.insert(buffer_id, buffer);
            mesh.vertex_buffer_id = buffer_id;
            report.vertex_allocated = true;
        }
    }
    if mesh.has_indices() && mesh.index_buffer_id == 0 {
        let buffer_id = fresh_buffer_id(gpu_meshes);
        if let Some(buffer) = index_buf {
            gpu_meshes.buffers_map.insert(buffer_id, buffer);
            mesh.index_buffer_id = buffer_id;
            report.index_allocated = true;
        }
    }
    proof {
        assert(final(gpu_meshes).buffers_map@.dom() =~= old(gpu_meshes).buffers_map@.dom().union(
            bound_ids(
                old(mesh)@.vertex_buffer_id,
                final(mesh)@.vertex_buffer_id,
                old(mesh)@.index_buffer_id,
                final(mesh)@.index_buffer_id,
                old(mesh)@.has_indices(),
            ),
        ));
    }
    report
}

/// Law: after one binder pass over a previously unbound mesh, the mesh's
/// vertex-buffer identifier is non-zero and names a live cache entry, and,
/// where the mesh has indices, the index-buffer identifier is non-zero, names
/// a live entry, and differs from the vertex-buffer identifier.
pub proof fn lemma_binder_assigns_fresh_ids<B>(
    g0: Map<u64, B>,
    g1: Map<u64, B>,
    vid1: u64,
    iid1: u64,
    has_idx: bool,
)
    requires
        binds_gpu_buffers(g0, g1, 0, vid1, 0, iid1, has_idx),
    ensures
        vid1 != 0,
        g1.contains_key(vid1),
        has_idx ==> iid1 != 0 && iid1 != vid1 && g1.contains_key(iid1),
{
}

/// Law: identifiers assigned by two successive binder passes over distinct,
/// previously unbound meshes are pairwise distinct, so every bound mesh's
/// identifiers are unique among all meshes bound against the cache.
pub proof fn lemma_binder_ids_unique<B>(
    g0: Map<u64, B>,
    g1: Map<u64, B>,
    g2: Map<u64, B>,
    vid_a: u64,
    iid_a: u64,
    has_idx_a: bool,
    vid_b: u64,
    iid_b: u64,
    has_idx_b: bool,
)
    requires
        binds_gpu_buffers(g0, g1, 0, vid_a, 0, iid_a, has_idx_a),
        binds_gpu_buffers(g1, g2, 0, vid_b, 0, iid_b, has_idx_b),
    ensures
        vid_b != vid_a,
        has_idx_a ==> iid_a != vid_b,
        has_idx_b ==> iid_b != vid_a,
        has_idx_a && has_idx_b ==> iid_b != iid_a,
{
}

/// Law: the identifiers one binder pass assigns are unique among all meshes
/// already bound against the cache: a bound mesh's identifiers name live
/// cache entries, and the newly assigned identifiers are fresh.
pub proof fn lemma_binder_ids_unique_among_bound<B>(
    g0: Map<u64, B>,
    g1: Map<u64, B>,
    bound: MeshView,
    vid1: u64,
    iid1: u64,
    has_idx: bool,
)
    requires
        mesh_buffers_live(bound, g0),
        binds_gpu_buffers(g0, g1, 0, vid1, 0, iid1, has_idx),
    ensures
        bound.vertex_buffer_id != 0 ==> vid1 != bound.vertex_buffer_id,
        bound.index_buffer_id != 0 ==> vid1 != bound.index_buffer_id,
        has_idx && bound.vertex_buffer_id != 0 ==> iid1 != bound.vertex_buffer_id,
        has_idx && bound.index_buffer_id != 0 ==> iid1 != bound.index_buffer_id,
{
}

/// Law: the binder is idempotent. A pass over a mesh whose buffers are
/// already bound (the vertex identifier assigned, and the index identifier
/// assigned where the mesh has indices) changes neither the cache nor the
/// identifiers.
pub proof fn lemma_binder_idempotent<B>(
    g0: Map<u64, B>,
    g1: Map<u64, B>,
    vid0: u64,
    vid1: u64,
    iid0: u64,
    iid1: u64,
    has_idx: bool,
)
    requires
        vid0 != 0,
        has_idx ==> iid0 != 0,
        binds_gpu_buffers(g0, g1, vid0, vid1, iid0, iid1, has_idx),
    ensures
        vid1 == vid0,
        iid1 == iid0,
        g1 == g0,
{
    assert(g1.dom() =~= g0.dom());
    assert(g1 =~= g0);
}

} // verus!
