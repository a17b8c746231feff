//! The frame renderer: per-frame draw dispatch over the pipeline cache and
//! the GPU buffer cache.
//!
//! Each frame first *plans*: for every renderable entity it resolves the
//! mesh's shader identity to a pipeline and its buffer identifiers to cache
//! entries; if the pipeline, the vertex buffer, or a carried index buffer
//! fails to resolve, the entity is planned as a skip record (it is not drawn
//! this frame, one error is reported for it, and it is reconsidered next
//! frame, never poisoned). The renderer then executes the plan: one render
//! pass per drawn entity, an indexed draw exactly where the mesh carries
//! indices, and one submit and present for the whole frame.

use vstd::prelude::*;
use std::collections::HashMap;
use crate::gpu;
use crate::mesh::{Mesh, Mesh2D, MeshView, GpuMeshes};
use crate::pipeline::{PipelineId, Pipelines, UniformState};
use crate::shaders::{ShaderRegistry, ShadersState, ShaderEntry, DEFAULT_3D_SHADER, DEFAULT_2D_SHADER};

verus! {

broadcast use vstd::std_specs::hash::group_hash_axioms;

/// Marker component of every drawable entity, carrying its resolved pipeline
/// identifier; the sentinel zero means "unresolved".
#[derive(Clone, Copy, Debug, PartialEq, Eq, Structural)]
pub struct Renderable {
    pub pipeline_id: PipelineId,
}

impl Default for Renderable {
    /// A renderable starts unresolved.
    fn default() -> (r: Renderable)
        ensures
            r.pipeline_id == 0,
    {
        Renderable { pipeline_id: 0 }
    }
}

/// The process-wide GPU state: instance, adapter, logical device, command
/// queue and presentable surface. Initialized once at startup and alive for
/// the process lifetime.
pub struct RendererState {
    pub instance: wgpu::Instance,
    pub surface: wgpu::Surface<'static>,
    pub adapter: wgpu::Adapter,
    pub device: wgpu::Device,
    pub queue: wgpu::Queue,
}

impl RendererState {
    pub fn new(
        instance: wgpu::Instance,
        surface: wgpu::Surface<'static>,
        adapter: wgpu::Adapter,
        device: wgpu::Device,
        queue: wgpu::Queue,
    ) -> (r: RendererState)
        ensures
            r == (RendererState { instance, surface, adapter, device, queue }),
    {
        RendererState { instance, surface, adapter, device, queue }
    }
}

/// What the renderer decides to do for one entity in one frame.
#[derive(Clone, Copy, Debug, PartialEq, Eq)]
pub enum DrawCommand {
    /// Bind the pipeline and vertex buffer, bind the uniform group where the
    /// pipeline has uniform state, then issue one indexed draw over the whole
    /// index sequence where the mesh carries one, else one non-indexed draw
    /// over the whole vertex range.
    Draw {
        pipeline_id: PipelineId,
        vertex_buffer_id: u64,
        bind_uniform: bool,
        indexed: Option<(u64, u32)>,
        vertex_count: u32,
    },
    /// The entity is not drawn this frame; one error is reported for it,
    /// naming the pipeline identifier and vertex-buffer identifier that
    /// failed to resolve.
    Skip { pipeline_id: PipelineId, vertex_buffer_id: u64 },
}

/// The draw and index counts of a mesh fit the 32-bit ranges the GPU draw
/// calls take. The mesh constructors establish these bounds.
pub open spec fn mesh_counts_fit(m: MeshView) -> bool {
    &&& 0 <= m.vertex_count <= u32::MAX
    &&& m.num_indices() <= u32::MAX
}

/// Whether every GPU resource an entity's draw needs resolves: its pipeline
/// is registered, its vertex buffer is in the cache, and, where the mesh
/// carries indices, so is its index buffer.
pub open spec fn entity_resolves<P, U, B>(
    pipelines: Pipelines<P, U>,
    gpu_meshes: GpuMeshes<B>,
    pipeline_id: PipelineId,
    mesh: MeshView,
) -> bool {
    &&& pipelines.registered_pipelines@.contains_key(pipeline_id)
    &&& gpu_meshes.buffers_map@.contains_key(mesh.vertex_buffer_id)
    &&& (mesh.has_indices() ==> gpu_meshes.buffers_map@.contains_key(mesh.index_buffer_id))
}

/// What the renderer decides for one entity, resolving the mesh's
/// vertex-shader identity through the pipeline cache: a draw when the
/// pipeline and every needed buffer resolve, a skip (one error record)
/// otherwise. A draw is indexed exactly when the mesh carries indices, over
/// the full index count; the uniform group is bound only on the path that
/// uses uniforms (`with_uniform`) and only where the pipeline has uniform
/// state.
pub open spec fn plan_entity<P, U, B>(
    pipelines: Pipelines<P, U>,
    gpu_meshes: GpuMeshes<B>,
    renderable: Renderable,
    mesh: MeshView,
    with_uniform: bool,
) -> DrawCommand {
    let pipeline_id = pipelines.spec_pipeline_id(mesh.vertex_shader);
    if entity_resolves(pipelines, gpu_meshes, pipeline_id, mesh) {
        DrawCommand::Draw {
            pipeline_id,
            vertex_buffer_id: mesh.vertex_buffer_id,
            bind_uniform: with_uniform && pipelines.render_pipeline_state@.contains_key(
                pipeline_id,
            ),
            indexed: if mesh.has_indices() {
                Some((mesh.index_buffer_id, mesh.num_indices() as u32))
            } else {
                None
            },
            vertex_count: mesh.vertex_count as u32,
        }
    } else {
        DrawCommand::Skip {
            pipeline_id: renderable.pipeline_id,
            vertex_buffer_id: mesh.vertex_buffer_id,
        }
    }
}

/// Plans one 3D frame: one command per renderable entity, in entity order.
pub fn plan_frame3d<P, U, B>(
    pipelines: &Pipelines<P, U>,
    gpu_meshes: &GpuMeshes<B>,
    entities: &Vec<(Renderable, &Mesh)>,
) -> (plan: Vec<DrawCommand>)
    requires
        forall|i: int| 0 <= i < entities@.len() ==> mesh_counts_fit(#[trigger] entities@[i].1@),
    ensures
        plan@.len() == entities@.len(),
        forall|i: int|
            0 <= i < entities@.len() ==> plan@[i] == plan_entity(
                *pipelines,
                *gpu_meshes,
                entities@[i].0,
                #[trigger] entities@[i].1@,
                true,
            ),
{
    let mut plan: Vec<DrawCommand> = Vec::new();
    let mut i: usize = 0;
    while i < entities.len()
        invariant
            i <= entities@.len(),
            plan@.len() == i,
            forall|j: int| 0 <= j < entities@.len() ==> mesh_counts_fit(#[trigger] entities@[j].1@),
            forall|j: int|
                0 <= j < i ==> plan@[j] == plan_entity(
                    *pipelines,
                    *gpu_meshes,
                    entities@[j].0,
                    #[trigger] entities@[j].1@,
                    true,
                ),
        decreases entities@.len() - i,
    {
        let entity = &entities[i];
        let renderable = &entity.0;
        let mesh = &entity.1;
        let pipeline_id: u64 = pipelines.get_pipeline_id(mesh.vertex_shader());
        let vid: u64 = mesh.vertex_buffer_id();
        let iid: u64 = mesh.index_buffer_id();
        let resolved = pipelines.registered_pipelines.contains_key(&pipeline_id)
            && gpu_meshes.buffers_map.contains_key(&vid) && (!mesh.has_indices()
            || gpu_meshes.buffers_map.contains_key(&iid));
        let cmd = if resolved {
            let indexed: Option<(u64, u32)> = if mesh.has_indices() {
                Some((iid, mesh.num_indices() as u32))
            } else {
                None
            };
            DrawCommand::Draw {
                pipeline_id,
                vertex_buffer_id: vid,
                bind_uniform: pipelines.render_pipeline_state.contains_key(&pipeline_id),
                indexed,
                vertex_count: mesh.num_vertices() as u32,
            }
        } else {
            DrawCommand::Skip { pipeline_id: renderable.pipeline_id, vertex_buffer_id: vid }
        };
        plan.push(cmd);
        i += 1;
    }
    plan
}

/// Plans one 2D frame: as [`plan_frame3d`], but the 2D path binds no
/// uniform state.
pub fn plan_frame2d<P, U, B>(
    pipelines: &Pipelines<P, U>,
    gpu_meshes: &GpuMeshes<B>,
    entities: &Vec<(Renderable, &Mesh2D)>,
) -> (plan: Vec<DrawCommand>)
    requires
        forall|i: int| 0 <= i < entities@.len() ==> mesh_counts_fit(#[trigger] entities@[i].1@),
    ensures
        plan@.len() == entities@.len(),
        forall|i: int|
            0 <= i < entities@.len() ==> plan@[i] == plan_entity(
                *pipelines,
                *gpu_meshes,
                entities@[i].0,
                #[trigger] entities@[i].1@,
                false,
            ),
{
    let mut plan: Vec<DrawCommand> = Vec::new();
    let mut i: usize = 0;
    while i < entities.len()
        invariant
            i <= entities@.len(),
            plan@.len() == i,
            forall|j: int| 0 <= j < entities@.len() ==> mesh_counts_fit(#[trigger] entities@[j].1@),
            forall|j: int|
                0 <= j < i ==> plan@[j] == plan_entity(
                    *pipelines,
                    *gpu_meshes,
                    entities@[j].0,
                    #[trigger] entities@[j].1@,
                    false,
                ),
        decreases entities@.len() - i,
    {
        let entity = &entities[i];
        let renderable = &entity.0;
        let mesh = &entity.1;
        let pipeline_id: u64 = pipelines.get_pipeline_id(mesh.vertex_shader());
        let vid: u64 = mesh.vertex_buffer_id();
        let iid: u64 = mesh.index_buffer_id();
        let resolved = pipelines.registered_pipelines.contains_key(&pipeline_id)
            && gpu_meshes.buffers_map.contains_key(&vid) && (!mesh.has_indices()
            || gpu_meshes.buffers_map.contains_key(&iid));
        let cmd = if resolved {
            let indexed: Option<(u64, u32)> = if mesh.has_indices() {
                Some((iid, mesh.num_indices() as u32))
            } else {
                None
            };
            DrawCommand::Draw {
                pipeline_id,
                vertex_buffer_id: vid,
                bind_uniform: false,
                indexed,
                vertex_count: mesh.num_vertices() as u32,
            }
        } else {
            DrawCommand::Skip { pipeline_id: renderable.pipeline_id, vertex_buffer_id: vid }
        };
        plan.push(cmd);
        i += 1;
    }
    plan
}

/// Error of a frame that could not even begin.
#[derive(Clone, Copy, Debug, PartialEq, Eq, Structural)]
pub enum RenderError {
    /// The surface handed out no presentable frame.
    SurfaceUnavailable,
}

/// What one executed frame did: the command the renderer carried out for
/// each entity, in entity order. A `Skip` stands for one error to report.
#[derive(Debug)]
pub struct FrameReport {
    pub commands: Vec<DrawCommand>,
}

/// Renders one 3D frame: acquires the presentable frame, records one render
/// pass per drawable entity into a single command encoder following the
/// frame plan, then submits and presents once. Fails only when no frame is
/// available.
pub fn render3d(
    renderer_state: &RendererState,
    pipelines: &Pipelines<wgpu::RenderPipeline, UniformState>,
    gpu_meshes: &GpuMeshes<wgpu::Buffer>,
    entities: &Vec<(Renderable, &Mesh)>,
) -> (r: Result<FrameReport, RenderError>)
    requires
        forall|i: int| 0 <= i < entities@.len() ==> mesh_counts_fit(#[trigger] entities@[i].1@),
    ensures
        r matches Ok(report) ==> report.commands@.len() == entities@.len() && forall|i: int|
            0 <= i < entities@.len() ==> report.commands@[i] == plan_entity(
                *pipelines,
                *gpu_meshes,
                entities@[i].0,
                #[trigger] entities@[i].1@,
                true,
            ),
        r matches Err(e) ==> e == RenderError::SurfaceUnavailable,
{
    let frame = match gpu::get_current_texture(&renderer_state.surface) {
        Ok(frame) => frame,
        Err(_) => {
            return Err(RenderError::SurfaceUnavailable);
        },
    };
    let view = gpu::create_surface_view(&frame);
    let mut encoder = gpu::create_command_encoder(&renderer_state.device);
    let plan = plan_frame3d(pipelines, gpu_meshes, entities);
    let mut i: usize = 0;
    while i < plan.len()
        invariant
            plan@.len() == entities@.len(),
            forall|j: int|
                0 <= j < entities@.len() ==> plan@[j] == plan_entity(
                    *pipelines,
                    *gpu_meshes,
                    entities@[j].0,
                    #[trigger] entities@[j].1@,
                    true,
                ),
        decreases plan@.len() - i,
    {
        let cmd = &plan[i];
        proof {
            assert(plan@[i as int] == plan_entity(
                *pipelines,
                *gpu_meshes,
                entities@[i as int].0,
                entities@[i as int].1@,
                true,
            ));
        }
        match cmd {
            DrawCommand::Draw { pipeline_id, vertex_buffer_id, bind_uniform, indexed, vertex_count } => {
                let pipeline = pipelines.registered_pipelines.get(pipeline_id).unwrap();
                let vertex_buffer = gpu_meshes.buffers_map.get(vertex_buffer_id).unwrap();
                let mut render_pass = gpu::begin_render_pass(&mut encoder, &view);
                gpu::set_pipeline(&mut render_pass, pipeline);
                gpu::set_vertex_buffer(&mut render_pass, vertex_buffer);
                if *bind_uniform {
                    let uniform = pipelines.render_pipeline_state.get(pipeline_id).unwrap();
                    gpu::set_bind_group(&mut render_pass, &uniform.uniform_bind_group);
                }
                match indexed {
                    Some((index_buffer_id, index_count)) => {
                        let index_buffer = gpu_meshes.buffers_map.get(index_buffer_id).unwrap();
                        gpu::set_index_buffer(&mut render_pass, index_buffer);
                        gpu::draw_indexed(&mut render_pass, *index_count);
                    },
                    None => {
                        gpu::draw(&mut render_pass, *vertex_count);
                    },
                }
            },
            DrawCommand::Skip { .. } => {},
        }
        i += 1;
    }
    gpu::submit(&renderer_state.queue, gpu::finish_encoder(encoder));
    gpu::present(frame);
    Ok(FrameReport { commands: plan })
}

/// Renders one 2D frame; as [`render3d`] without uniform binding.
pub fn render2d(
    renderer_state: &RendererState,
    pipelines: &Pipelines<wgpu::RenderPipeline, UniformState>,
    gpu_meshes: &GpuMeshes<wgpu::Buffer>,
    entities: &Vec<(Renderable, &Mesh2D)>,
) -> (r: Result<FrameReport, RenderError>)
    requires
        forall|i: int| 0 <= i < entities@.len() ==> mesh_counts_fit(#[trigger] entities@[i].1@),
    ensures
        r matches Ok(report) ==> report.commands@.len() == entities@.len() && forall|i: int|
            0 <= i < entities@.len() ==> report.commands@[i] == plan_entity(
                *pipelines,
                *gpu_meshes,
                entities@[i].0,
                #[trigger] entities@[i].1@,
                false,
            ),
        r matches Err(e) ==> e == RenderError::SurfaceUnavailable,
{
    let frame = match gpu::get_current_texture(&renderer_state.surface) {
        Ok(frame) => frame,
        Err(_) => {
            return Err(RenderError::SurfaceUnavailable);
        },
    };
    let view = gpu::create_surface_view(&frame);
    let mut encoder = gpu::create_command_encoder(&renderer_state.device);
    let plan = plan_frame2d(pipelines, gpu_meshes, entities);
    let mut i: usize = 0;
    while i < plan.len()
        invariant
            plan@.len() == entities@.len(),
            forall|j: int|
                0 <= j < entities@.len() ==> plan@[j] == plan_entity(
                    *pipelines,
                    *gpu_meshes,
                    entities@[j].0,
                    #[trigger] entities@[j].1@,
                    false,
                ),
        decreases plan@.len() - i,
    {
        let cmd = &plan[i];
        proof {
            assert(plan@[i as int] == plan_entity(
                *pipelines,
                *gpu_meshes,
                entities@[i as int].0,
                entities@[i as int].1@,
                false,
            ));
        }
        match cmd {
            DrawCommand::Draw { pipeline_id, vertex_buffer_id, bind_uniform: _, indexed, vertex_count } => {
                let pipeline = pipelines.registered_pipelines.get(pipeline_id).unwrap();
                let vertex_buffer = gpu_meshes.buffers_map.get(vertex_buffer_id).unwrap();
                let mut render_pass = gpu::begin_render_pass(&mut encoder, &view);
                gpu::set_pipeline(&mut render_pass, pipeline);
                gpu::set_vertex_buffer(&mut render_pass, vertex_buffer);
                match indexed {
                    Some((index_buffer_id, index_count)) => {
                        let index_buffer = gpu_meshes.buffers_map.get(index_buffer_id).unwrap();
                        gpu::set_index_buffer(&mut render_pass, index_buffer);
                        gpu::draw_indexed(&mut render_pass, *index_count);
                    },
                    None => {
                        gpu::draw(&mut render_pass, *vertex_count);
                    },
                }
            },
            DrawCommand::Skip { .. } => {},
        }
        i += 1;
    }
    gpu::submit(&renderer_state.queue, gpu::finish_encoder(encoder));
    gpu::present(frame);
    Ok(FrameReport { commands: plan })
}

/// Error of the per-frame uniform upload.
#[derive(Clone, Copy, Debug, PartialEq, Eq, Structural)]
pub enum UniformError {
    /// The pipeline has no uniform state registered.
    NoUniformState,
}

/// Uploads the combined projection-and-view matrix bytes into the uniform
/// buffer of the given pipeline, before the frame's draw pass. Fails exactly
/// when the pipeline has no uniform state.
pub fn upload_uniform<P>(
    queue: &wgpu::Queue,
    pipelines: &Pipelines<P, UniformState>,
    pipeline_id: PipelineId,
    data: &[u8],
) -> (r: Result<(), UniformError>)
    ensures
        r is Ok <==> pipelines.render_pipeline_state@.contains_key(pipeline_id),
        r is Err ==> r->Err_0 == UniformError::NoUniformState,
{
    match pipelines.render_pipeline_state.get(&pipeline_id) {
        Some(state) => {
            gpu::write_buffer(queue, &state.uniform_buffer, data);
            Ok(())
        },
        None => Err(UniformError::NoUniformState),
    }
}

/// Requests the default 3D and 2D shaders from the registry (their handles
/// become the well-known slots 0 and 1 of the shader state) and creates the
/// empty pipeline cache and GPU buffer cache.
pub fn initialize_render_resources<P, U, M, B>(registry: &mut ShaderRegistry) -> (r: (
    Pipelines<P, U>,
    ShadersState<M>,
    GpuMeshes<B>,
))
    requires
        old(registry)@.len() + 2 <= u64::MAX,
    ensures
        final(registry)@.len() == old(registry)@.len() + 2,
        forall|i: int| 0 <= i < old(registry)@.len() ==> final(registry)@[i] == old(registry)@[i],
        (final(registry)@[old(registry)@.len() as int] matches ShaderEntry::Pending { path }
            && path@ == DEFAULT_3D_SHADER@),
        (final(registry)@[old(registry)@.len() as int + 1] matches ShaderEntry::Pending { path }
            && path@ == DEFAULT_2D_SHADER@),
        r.0.registered_pipelines@ == Map::<PipelineId, P>::empty(),
        r.0.shader_to_pipeline_id_map@ == Map::<u64, PipelineId>::empty(),
        r.0.material_to_pipeline_id_map@ == Map::<u64, PipelineId>::empty(),
        r.0.render_pipeline_state@ == Map::<PipelineId, U>::empty(),
        r.0.wf(),
        r.1.loaded_shader_modules@ == Map::<u64, M>::empty(),
        r.1.shader_handles@ == seq![old(registry)@.len() as u64, (old(registry)@.len() + 1) as u64],
        r.2.buffers_map@ == Map::<u64, B>::empty(),
{
    let default_3d_shader = registry.load(DEFAULT_3D_SHADER.to_string());
    let default_2d_shader = registry.load(DEFAULT_2D_SHADER.to_string());

    let pipelines = Pipelines::<P, U>::new();
    let mut shaders_state = ShadersState::<M>::new();
    shaders_state.shader_handles.push(default_3d_shader);
    shaders_state.shader_handles.push(default_2d_shader);
    let gpu_meshes = GpuMeshes::<B>::new();

    (pipelines, shaders_state, gpu_meshes)
}

/// Resolves a renderable's pipeline identifier from a mesh's vertex-shader
/// identity, as the binder records it at first observation; the identifier
/// stays at the sentinel zero, and `false` is returned (one error to
/// report), where no pipeline is registered for that identity.
pub fn resolve_renderable<P, U>(
    renderable: &mut Renderable,
    pipelines: &Pipelines<P, U>,
    vertex_shader: u64,
) -> (resolved: bool)
    ensures
        final(renderable).pipeline_id == pipelines.spec_pipeline_id(vertex_shader),
        resolved == (pipelines.spec_pipeline_id(vertex_shader) != 0),
{
    renderable.pipeline_id = pipelines.get_pipeline_id(vertex_shader);
    renderable.pipeline_id != 0
}

/// Error of the default-resource registration.
#[derive(Clone, Copy, Debug, PartialEq, Eq, Structural)]
pub enum RenderResourceError {
    /// The shader state holds no handle at the expected well-known slot.
    NoShaderHandle,
    /// The default shader's load has not completed successfully.
    ShaderNotLoaded,
    /// A pipeline is already registered for the default shader.
    AlreadyRegistered,
}

/// The conditions under which the default pipeline for the handle at
/// `slot` of the shader state can be registered: the handle exists, its
/// shader has finished loading, and no pipeline is registered for it yet.
pub open spec fn default_resources_ready<M>(
    registry: Seq<ShaderEntry>,
    shaders_state: ShadersState<M>,
    shader_map: Map<u64, PipelineId>,
    slot: int,
) -> bool {
    &&& shaders_state.shader_handles@.len() > slot
    &&& ({
        let h = shaders_state.shader_handles@[slot];
        &&& h < registry.len()
        &&& registry[h as int] is Ready
        &&& !shader_map.contains_key(h)
    })
}

/// Registers the default 3D render resources: compiles the shader at the
/// well-known slot 0 into a module, builds its uniform state seeded with
/// `initial_uniform` (the identity transform), compiles the render pipeline
/// over `vertex_buffers` and `targets`, and registers it — the first
/// registration gets pipeline identifier 1.
pub fn add_default_render_resources(
    renderer_state: &RendererState,
    registry: &ShaderRegistry,
    shaders_state: &mut ShadersState<wgpu::ShaderModule>,
    pipelines: &mut Pipelines<wgpu::RenderPipeline, UniformState>,
    vertex_buffers: &[wgpu::VertexBufferLayout],
    targets: &[Option<wgpu::ColorTargetState>],
    initial_uniform: &[u8],
) -> (r: Result<PipelineId, RenderResourceError>)
    requires
        old(pipelines).wf(),
        old(pipelines).registered_pipelines@.len() + 1 <= u64::MAX,
    ensures
        final(pipelines).wf(),
        r is Ok <==> default_resources_ready(
            registry@,
            *old(shaders_state),
            old(pipelines).shader_to_pipeline_id_map@,
            0,
        ),
        old(shaders_state).shader_handles@.len() == 0 ==> r == Err::<
            PipelineId,
            _,
        >(RenderResourceError::NoShaderHandle),
        r is Err ==> *final(shaders_state) == *old(shaders_state) && *final(pipelines) == *old(
            pipelines,
        ),
        r matches Ok(id) ==> ({
            let h = old(shaders_state).shader_handles@[0];
            &&& id == old(pipelines).registered_pipelines@.len() + 1
            &&& final(pipelines).shader_to_pipeline_id_map@ == old(
                pipelines,
            ).shader_to_pipeline_id_map@.insert(h, id)
            &&& final(pipelines).registered_pipelines@.dom() == old(
                pipelines,
            ).registered_pipelines@.dom().insert(id)
            &&& final(pipelines).render_pipeline_state@.dom() == old(
                pipelines,
            ).render_pipeline_state@.dom().insert(id)
            &&& final(pipelines).material_to_pipeline_id_map@ == old(
                pipelines,
            ).material_to_pipeline_id_map@
            &&& final(pipelines).default_material == old(pipelines).default_material
            &&& final(shaders_state).shader_handles@ == old(shaders_state).shader_handles@
            &&& final(shaders_state).loaded_shader_modules@.dom() == old(
                shaders_state,
            ).loaded_shader_modules@.dom().insert(h)
            &&& final(pipelines).spec_pipeline_id(h) == id
        }),
{
    let device = &renderer_state.device;
    if shaders_state.shader_handles.len() == 0 {
        return Err(RenderResourceError::NoShaderHandle);
    }
    let shader_handle = shaders_state.shader_handles[0];
    let default_shader = match registry.get(shader_handle) {
        Ok(shader) => shader,
        Err(_) => {
            return Err(RenderResourceError::ShaderNotLoaded);
        },
    };
    if pipelines.shader_to_pipeline_id_map.contains_key(&shader_handle) {
        return Err(RenderResourceError::AlreadyRegistered);
    }

    let shader_module = gpu::create_shader_module(
        device,
        "default_3d_shader",
        default_shader.content().as_str(),
    );
    shaders_state.loaded_shader_modules.insert(shader_handle, shader_module);
    let module = shaders_state.loaded_shader_modules.get(&shader_handle).unwrap();

    let (pipeline_layout, uniform_buffer, uniform_bind_group) = Pipelines::<
        wgpu::RenderPipeline,
        UniformState,
    >::create_uniform(device, initial_uniform);

    let render_pipeline = Pipelines::<wgpu::RenderPipeline, UniformState>::pipeline_builder(device)
        .with_label("Default 3D Render Pipeline")
        .with_layout(&pipeline_layout)
        .with_vertex_shader(module)
        .with_fragment_shader(module)
        .with_vertex_entry_point("vertex_main")
        .with_fragment_entry_point("fragment_main")
        .with_vertex_buffers(vertex_buffers)
        .with_color_state_targets(targets)
        .build();

    let uniform = UniformState { pipeline_layout, uniform_buffer, uniform_bind_group };
    let id = pipelines.register_pipeline(shader_handle, render_pipeline, Some(uniform));
    proof {
        assert(final(pipelines).registered_pipelines@.dom() =~= old(
            pipelines,
        ).registered_pipelines@.dom().insert(id));
        assert(final(pipelines).render_pipeline_state@.dom() =~= old(
            pipelines,
        ).render_pipeline_state@.dom().insert(id));
        assert(final(shaders_state).loaded_shader_modules@.dom() =~= old(
            shaders_state,
        ).loaded_shader_modules@.dom().insert(old(shaders_state).shader_handles@[0]));
    }
    Ok(id)
}

/// Registers the default 2D render resources: the shader at the well-known
/// slot 1, compiled and registered without uniform state. Registered after
/// the 3D defaults, it gets pipeline identifier 2.
pub fn add_default_2d_render_resources(
    renderer_state: &RendererState,
    registry: &ShaderRegistry,
    shaders_state: &mut ShadersState<wgpu::ShaderModule>,
    pipelines: &mut Pipelines<wgpu::RenderPipeline, UniformState>,
    vertex_buffers: &[wgpu::VertexBufferLayout],
    targets: &[Option<wgpu::ColorTargetState>],
) -> (r: Result<PipelineId, RenderResourceError>)
    requires
        old(pipelines).wf(),
        old(pipelines).registered_pipelines@.len() + 1 <= u64::MAX,
    ensures
        final(pipelines).wf(),
        r is Ok <==> default_resources_ready(
            registry@,
            *old(shaders_state),
            old(pipelines).shader_to_pipeline_id_map@,
            1,
        ),
        old(shaders_state).shader_handles@.len() <= 1 ==> r == Err::<
            PipelineId,
            _,
        >(RenderResourceError::NoShaderHandle),
        r is Err ==> *final(shaders_state) == *old(shaders_state) && *final(pipelines) == *old(
            pipelines,
        ),
        r matches Ok(id) ==> ({
            let h = old(shaders_state).shader_handles@[1];
            &&& id == old(pipelines).registered_pipelines@.len() + 1
            &&& final(pipelines).shader_to_pipeline_id_map@ == old(
                pipelines,
            ).shader_to_pipeline_id_map@.insert(h, id)
            &&& final(pipelines).registered_pipelines@.dom() == old(
                pipelines,
            ).registered_pipelines@.dom().insert(id)
            &&& final(pipelines).render_pipeline_state@ == old(pipelines).render_pipeline_state@
            &&& final(pipelines).material_to_pipeline_id_map@ == old(
                pipelines,
            ).material_to_pipeline_id_map@
            &&& final(pipelines).default_material == old(pipelines).default_material
            &&& final(shaders_state).shader_handles@ == old(shaders_state).shader_handles@
            &&& final(shaders_state).loaded_shader_modules@.dom() == old(
                shaders_state,
            ).loaded_shader_modules@.dom().insert(h)
            &&& final(pipelines).spec_pipeline_id(h) == id
        }),
{
    let device = &renderer_state.device;
    if shaders_state.shader_handles.len() <= 1 {
        return Err(RenderResourceError::NoShaderHandle);
    }
    let shader_handle = shaders_state.shader_handles[1];
    let default_shader = match registry.get(shader_handle) {
        Ok(shader) => shader,
        Err(_) => {
            return Err(RenderResourceError::ShaderNotLoaded);
        },
    };
    if pipelines.shader_to_pipeline_id_map.contains_key(&shader_handle) {
        return Err(RenderResourceError::AlreadyRegistered);
    }

    let shader_module = gpu::create_shader_module(
        device,
        "default_2d_shader",
        default_shader.content().as_str(),
    );
    shaders_state.loaded_shader_modules.insert(shader_handle, shader_module);
    let module = shaders_state.loaded_shader_modules.get(&shader_handle).unwrap();

    let render_pipeline = Pipelines::<wgpu::RenderPipeline, UniformState>::pipeline_builder(device)
        .with_label("Default 2D Render Pipeline")
        .with_vertex_shader(module)
        .with_fragment_shader(module)
        .with_vertex_entry_point("vertex_main")
        .with_fragment_entry_point("fragment_main")
        .with_vertex_buffers(vertex_buffers)
        .with_color_state_targets(targets)
        .build();

    let id = pipelines.register_pipeline(shader_handle, render_pipeline, None);
    proof {
        assert(final(pipelines).registered_pipelines@.dom() =~= old(
            pipelines,
        ).registered_pipelines@.dom().insert(id));
        assert(final(shaders_state).loaded_shader_modules@.dom() =~= old(
            shaders_state,
        ).loaded_shader_modules@.dom().insert(old(shaders_state).shader_handles@[1]));
    }
    Ok(id)
}

/// Law: an entity whose pipeline is unresolved (its shader identity maps to
/// the sentinel zero) is planned as a skip — zero draw calls, and exactly
/// the one error record its skip stands for — in every frame where it stays
/// unresolved.
pub proof fn lemma_unresolved_entity_skipped<P, U, B>(
    pipelines: Pipelines<P, U>,
    gpu_meshes: GpuMeshes<B>,
    renderable: Renderable,
    mesh: MeshView,
    with_uniform: bool,
)
    requires
        pipelines.wf(),
        pipelines.spec_pipeline_id(mesh.vertex_shader) == 0,
    ensures
        plan_entity(pipelines, gpu_meshes, renderable, mesh, with_uniform) is Skip,
{
    assert(!pipelines.registered_pipelines@.contains_key(0));
}

/// Law: draw dispatch selects an indexed draw exactly when the mesh carries
/// indices, and the index count it uses is the literal length of the index
/// sequence; a mesh without indices gets one non-indexed draw over its full
/// vertex count. An entity is drawn exactly when its pipeline and every
/// buffer its draw needs resolve; otherwise it is skipped with one error
/// record.
pub proof fn lemma_draw_dispatch<P, U, B>(
    pipelines: Pipelines<P, U>,
    gpu_meshes: GpuMeshes<B>,
    renderable: Renderable,
    mesh: MeshView,
    with_uniform: bool,
)
    requires
        mesh_counts_fit(mesh),
    ensures
        ({
            let resolved = entity_resolves(
                pipelines,
                gpu_meshes,
                pipelines.spec_pipeline_id(mesh.vertex_shader),
                mesh,
            );
            let cmd = plan_entity(pipelines, gpu_meshes, renderable, mesh, with_uniform);
            &&& (resolved <==> cmd is Draw)
            &&& (!resolved <==> cmd is Skip)
            &&& (cmd is Draw ==> (cmd->Draw_indexed is Some <==> mesh.has_indices()))
            &&& (cmd is Draw && mesh.has_indices() ==> cmd->Draw_indexed.unwrap().1
                == mesh.num_indices())
            &&& (cmd is Draw ==> cmd->Draw_vertex_count == mesh.vertex_count)
        }),
{
}

} // verus!

