//! The pipeline cache: compiled render pipelines keyed by the identifier the
//! cache assigned at registration, the resolution maps from shader and
//! material identity to that identifier, and the per-pipeline uniform state
//! used for camera/transform uploads.
//!
//! Identifiers are assigned sequentially starting at 1; zero is the sentinel
//! "unresolved", and callers must treat it as "skip the draw", never as a
//! valid pipeline. Registration happens exactly once per shader identity;
//! there is no cache invalidation.

use vstd::prelude::*;
use std::collections::HashMap;
use crate::gpu;

verus! {

broadcast use vstd::std_specs::hash::group_hash_axioms;

pub type PipelineId = u64;

/// The per-pipeline uniform state of the 3D path: a uniform buffer seeded at
/// registration, rebound every frame through its bind group.
pub struct UniformState {
    pub pipeline_layout: wgpu::PipelineLayout,
    pub uniform_buffer: wgpu::Buffer,
    pub uniform_bind_group: wgpu::BindGroup,
}

/// The pipeline cache.
///
/// The pipeline and uniform-state types are parameters so that resolution
/// can be exercised with stand-ins where no GPU device exists; the renderer
/// uses `wgpu::RenderPipeline` and [`UniformState`].
pub struct Pipelines<P, U> {
    pub registered_pipelines: HashMap<PipelineId, P>,
    pub shader_to_pipeline_id_map: HashMap<u64, PipelineId>,
    pub material_to_pipeline_id_map: HashMap<u64, PipelineId>,
    pub render_pipeline_state: HashMap<PipelineId, U>,
    pub default_material: Option<u64>,
}

impl<P, U> Pipelines<P, U> {
    /// Well-formedness: registered identifiers are exactly the non-zero
    /// values up to the cache's size (so the next sequential identifier is
    /// always fresh), and both resolution maps point at registered
    /// pipelines.
    pub open spec fn wf(&self) -> bool {
        &&& (forall|k: PipelineId| #[trigger]
            self.registered_pipelines@.contains_key(k) ==> 1 <= k
                <= self.registered_pipelines@.len())
        &&& (forall|s: u64| #[trigger]
            self.shader_to_pipeline_id_map@.contains_key(s)
                ==> self.registered_pipelines@.contains_key(self.shader_to_pipeline_id_map@[s]))
        &&& (forall|m: u64| #[trigger]
            self.material_to_pipeline_id_map@.contains_key(m)
                ==> self.registered_pipelines@.contains_key(self.material_to_pipeline_id_map@[m]))
    }

    /// The pipeline identifier a shader identity resolves to: the registered
    /// one, or the sentinel zero where none is registered.
    pub open spec fn spec_pipeline_id(&self, shader: u64) -> PipelineId {
        if self.shader_to_pipeline_id_map@.contains_key(shader) {
            self.shader_to_pipeline_id_map@[shader]
        } else {
            0
        }
    }

    /// The pipeline identifier a material handle resolves to: the registered
    /// one, or the sentinel zero where none is registered.
    pub open spec fn spec_material_pipeline_id(&self, material: u64) -> PipelineId {
        if self.material_to_pipeline_id_map@.contains_key(material) {
            self.material_to_pipeline_id_map@[material]
        } else {
            0
        }
    }

    /// An empty cache.
    pub fn new() -> (r: Pipelines<P, U>)
        ensures
            r.registered_pipelines@ == Map::<PipelineId, P>::empty(),
            r.shader_to_pipeline_id_map@ == Map::<u64, PipelineId>::empty(),
            r.material_to_pipeline_id_map@ == Map::<u64, PipelineId>::empty(),
            r.render_pipeline_state@ == Map::<PipelineId, U>::empty(),
            r.default_material is None,
            r.wf(),
    {
        Pipelines {
            registered_pipelines: HashMap::new(),
            shader_to_pipeline_id_map: HashMap::new(),
            material_to_pipeline_id_map: HashMap::new(),
            render_pipeline_state: HashMap::new(),
            default_material: None,
        }
    }

    /// Resolves a shader identity, returning the sentinel zero where no
    /// pipeline is registered for it. Resolution is a pure function of the
    /// shader identity.
    pub fn get_pipeline_id(&self, shader: u64) -> (id: PipelineId)
        ensures
            id == self.spec_pipeline_id(shader),
    {
        match self.shader_to_pipeline_id_map.get(&shader) {
            Some(id) => *id,
            None => 0,
        }
    }

    /// Resolves a material handle to its pipeline identifier.
    pub fn get_pipeline_id_by_material(&self, material: u64) -> (r: Option<PipelineId>)
        ensures
            r is Some <==> self.material_to_pipeline_id_map@.contains_key(material),
            r is Some ==> r.unwrap() == self.material_to_pipeline_id_map@[material],
    {
        match self.material_to_pipeline_id_map.get(&material) {
            Some(id) => Some(*id),
            None => None,
        }
    }

    /// Resolves a material handle all the way to its registered pipeline.
    pub fn get_pipeline_by_material(&self, material: u64) -> (r: Option<&P>)
        ensures
            r is Some <==> (self.material_to_pipeline_id_map@.contains_key(material)
                && self.registered_pipelines@.contains_key(
                self.material_to_pipeline_id_map@[material],
            )),
            r is Some ==> *r.unwrap() == self.registered_pipelines@[self.material_to_pipeline_id_map@[material]],
    {
        match self.material_to_pipeline_id_map.get(&material) {
            Some(pipeline_id) => self.registered_pipelines.get(pipeline_id),
            None => None,
        }
    }

    /// Registers a compiled pipeline for a shader identity, assigning it the
    /// next sequential identifier, and stores its uniform state where it has
    /// one. A shader identity is registered at most once.
    pub fn register_pipeline(&mut self, shader: u64, pipeline: P, uniform: Option<U>) -> (id:
        PipelineId)
        requires
            old(self).wf(),
            old(self).registered_pipelines@.len() + 1 <= u64::MAX,
            !old(self).shader_to_pipeline_id_map@.contains_key(shader),
        ensures
            final(self).wf(),
            id == old(self).registered_pipelines@.len() + 1,
            id != 0,
            !old(self).registered_pipelines@.contains_key(id),
            final(self).registered_pipelines@ == old(self).registered_pipelines@.insert(
                id,
                pipeline,
            ),
            final(self).shader_to_pipeline_id_map@ == old(self).shader_to_pipeline_id_map@.insert(
                shader,
                id,
            ),
            final(self).render_pipeline_state@ == (match uniform {
                Some(u) => old(self).render_pipeline_state@.insert(id, u),
                None => old(self).render_pipeline_state@,
            }),
            final(self).material_to_pipeline_id_map@ == old(self).material_to_pipeline_id_map@,
            final(self).default_material == old(self).default_material,
            final(self).spec_pipeline_id(shader) == id,
    {
        let ghost len0 = self.registered_pipelines@.len();
        let id = self.registered_pipelines.len() as u64 + 1;
        self.registered_pipelines.insert(id, pipeline);
        self.shader_to_pipeline_id_map.insert(shader, id);
        match uniform {
            Some(u) => {
                self.render_pipeline_state.insert(id, u);
            },
            None => {},
        }
        proof {
            assert(final(self).registered_pipelines@.dom() =~= old(
                self,
            ).registered_pipelines@.dom().insert(id));
        }
        id
    }

    /// Creates the uniform buffer, its bind group and the pipeline layout
    /// that expose a small buffer (seeded with `contents`) to the vertex
    /// stage at group 0.
    pub fn create_uniform(device: &wgpu::Device, contents: &[u8]) -> (wgpu::PipelineLayout, wgpu::Buffer, wgpu::BindGroup) {
        let uniform_bind_group_layout = gpu::create_uniform_bind_group_layout(device);
        let uniform_buffer = gpu::create_uniform_buffer(device, contents);
        let uniform_bind_group = gpu::create_uniform_bind_group(
            device,
            &uniform_bind_group_layout,
            &uniform_buffer,
        );
        let pipeline_layout = gpu::create_pipeline_layout(device, &uniform_bind_group_layout);
        (pipeline_layout, uniform_buffer, uniform_bind_group)
    }

    /// Starts building a render pipeline on `device`.
    pub fn pipeline_builder<'a>(device: &'a wgpu::Device) -> (b: PipelineBuilder<'a>)
        ensures
            b.device == device,
            b.label is None,
            b.layout is None,
            b.module is None,
            b.vertex_entry_point is None,
            b.fragment_entry_point is None,
            b.vertex_buffers is None,
            b.targets is None,
    {
        PipelineBuilder {
            device,
            label: None,
            layout: None,
            module: None,
            vertex_entry_point: None,
            fragment_entry_point: None,
            vertex_buffers: None,
            targets: None,
        }
    }
}

/// Step-by-step construction of a render pipeline. A shader module and both
/// entry points are required before [`PipelineBuilder::build`] can run.
pub struct PipelineBuilder<'a> {
    pub device: &'a wgpu::Device,
    pub label: Option<&'a str>,
    pub layout: Option<&'a wgpu::PipelineLayout>,
    pub module: Option<&'a wgpu::ShaderModule>,
    pub vertex_entry_point: Option<&'a str>,
    pub fragment_entry_point: Option<&'a str>,
    pub vertex_buffers: Option<&'a [wgpu::VertexBufferLayout<'a>]>,
    pub targets: Option<&'a [Option<wgpu::ColorTargetState>]>,
}

impl<'a> PipelineBuilder<'a> {
    pub fn with_label(self, label: &'a str) -> (r: PipelineBuilder<'a>)
        ensures
            r == (PipelineBuilder { label: Some(label), ..self }),
    {
        PipelineBuilder { label: Some(label), ..self }
    }

    pub fn with_layout(self, layout: &'a wgpu::PipelineLayout) -> (r: PipelineBuilder<'a>)
        ensures
            r == (PipelineBuilder { layout: Some(layout), ..self }),
    {
        PipelineBuilder { layout: Some(layout), ..self }
    }

    pub fn with_vertex_shader(self, shader_module: &'a wgpu::ShaderModule) -> (r: PipelineBuilder<
        'a,
    >)
        ensures
            r == (PipelineBuilder { module: Some(shader_module), ..self }),
    {
        PipelineBuilder { module: Some(shader_module), ..self }
    }

    pub fn with_fragment_shader(self, shader_module: &'a wgpu::ShaderModule) -> (r:
        PipelineBuilder<'a>)
        ensures
            r == (PipelineBuilder { module: Some(shader_module), ..self }),
    {
        PipelineBuilder { module: Some(shader_module), ..self }
    }

    pub fn with_vertex_entry_point(self, vertex_entry_point: &'a str) -> (r: PipelineBuilder<'a>)
        ensures
            r == (PipelineBuilder { vertex_entry_point: Some(vertex_entry_point), ..self }),
    {
        PipelineBuilder { vertex_entry_point: Some(vertex_entry_point), ..self }
    }

    pub fn with_fragment_entry_point(self, fragment_entry_point: &'a str) -> (r: PipelineBuilder<
        'a,
    >)
        ensures
            r == (PipelineBuilder { fragment_entry_point: Some(fragment_entry_point), ..self }),
    {
        PipelineBuilder { fragment_entry_point: Some(fragment_entry_point), ..self }
    }

    pub fn with_vertex_buffers(self, vertex_buffers: &'a [wgpu::VertexBufferLayout<'a>]) -> (r:
        PipelineBuilder<'a>)
        ensures
            r == (PipelineBuilder { vertex_buffers: Some(vertex_buffers), ..self }),
    {
        PipelineBuilder { vertex_buffers: Some(vertex_buffers), ..self }
    }

    pub fn with_color_state_targets(
        self,
        color_state_targets: &'a [Option<wgpu::ColorTargetState>],
    ) -> (r: PipelineBuilder<'a>)
        ensures
            r == (PipelineBuilder { targets: Some(color_state_targets), ..self }),
    {
        PipelineBuilder { targets: Some(color_state_targets), ..self }
    }

    /// Compiles the pipeline. The shader module and both entry points must
    /// have been set; a missing layout, vertex-buffer list or target list
    /// falls back to the empty default.
    pub fn build(self) -> wgpu::RenderPipeline
        requires
            self.module is Some,
            self.vertex_entry_point is Some,
            self.fragment_entry_point is Some,
    {
        let vertex_buffers: &[wgpu::VertexBufferLayout] = match self.vertex_buffers {
            Some(buffers) => buffers,
            None => &[],
        };
        let targets: &[Option<wgpu::ColorTargetState>] = match self.targets {
            Some(targets) => targets,
            None => &[],
        };
        gpu::create_render_pipeline(
            self.device,
            self.label,
            self.layout,
            self.module.unwrap(),
            self.vertex_entry_point.unwrap(),
            self.fragment_entry_point.unwrap(),
            vertex_buffers,
            targets,
        )
    }
}

/// Law: pipeline resolution is a pure function of shader identity. Two
/// meshes that share a vertex-shader identity resolve to the same pipeline
/// identifier against the same cache.
pub proof fn lemma_pipeline_resolution_pure<P, U>(
    pipelines: Pipelines<P, U>,
    shader_a: u64,
    shader_b: u64,
)
    requires
        shader_a == shader_b,
    ensures
        pipelines.spec_pipeline_id(shader_a) == pipelines.spec_pipeline_id(shader_b),
{
}

} // verus!
