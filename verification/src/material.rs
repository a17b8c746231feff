//! Materials: a shader pair bound to a registered pipeline, and the render
//! path that resolves each mesh's material handle instead of its shader
//! identity. An unregistered material handle resolves to the sentinel zero,
//! and an entity whose pipeline or buffers fail to resolve is skipped with
//! one error record and reconsidered next frame, as on the shader path.

use vstd::prelude::*;
use std::collections::HashMap;
use crate::gpu;
use crate::mesh::{Mesh, MeshView, GpuMeshes};
use crate::pipeline::{PipelineId, Pipelines, UniformState};
use crate::render::{
    DrawCommand, FrameReport, RenderError, RendererState, entity_resolves, mesh_counts_fit,
};

verus! {

broadcast use vstd::std_specs::hash::group_hash_axioms;

/// A material asset: the shader pair it renders with and the pipeline
/// compiled for that pair.
#[derive(Clone, Copy, Debug, PartialEq, Eq, Structural)]
pub struct Material {
    pub vertex_shader: u64,
    pub fragment_shader: u64,
    pub material_pipeline_id: PipelineId,
}

/// The handle of the material used where an entity names none.
#[derive(Clone, Copy, Debug, PartialEq, Eq, Structural)]
pub struct DefaultMaterial(pub u64);

/// Component tying a mesh entity to the material that draws it.
#[derive(Clone, Copy, Debug, PartialEq, Eq, Structural)]
pub struct MeshMaterial {
    pub material: u64,
}

/// What the renderer decides for one entity on the material path: its
/// material handle resolves to a pipeline identifier (the sentinel zero
/// where it is unregistered), and the draw or skip then follows exactly the
/// shader path's rules, uniform state included.
pub open spec fn plan_entity_material<P, U, B>(
    pipelines: Pipelines<P, U>,
    gpu_meshes: GpuMeshes<B>,
    mesh: MeshView,
    material: u64,
) -> DrawCommand {
    let pipeline_id = pipelines.spec_material_pipeline_id(material);
    if entity_resolves(pipelines, gpu_meshes, pipeline_id, mesh) {
        DrawCommand::Draw {
            pipeline_id,
            vertex_buffer_id: mesh.vertex_buffer_id,
            bind_uniform: pipelines.render_pipeline_state@.contains_key(pipeline_id),
            indexed: if mesh.has_indices() {
                Some((mesh.index_buffer_id, mesh.num_indices() as u32))
            } else {
                None
            },
            vertex_count: mesh.vertex_count as u32,
        }
    } else {
        DrawCommand::Skip {
            pipeline_id,
            vertex_buffer_id: mesh.vertex_buffer_id,
        }
    }
}

/// Plans one frame of the material path: one command per entity, in entity
/// order.
pub fn plan_frame_material<P, U, B>(
    pipelines: &Pipelines<P, U>,
    gpu_meshes: &GpuMeshes<B>,
    entities: &Vec<(&Mesh, MeshMaterial)>,
) -> (plan: Vec<DrawCommand>)
    requires
        forall|i: int| 0 <= i < entities@.len() ==> mesh_counts_fit(#[trigger] entities@[i].0@),
    ensures
        plan@.len() == entities@.len(),
        forall|i: int|
            0 <= i < entities@.len() ==> plan@[i] == plan_entity_material(
                *pipelines,
                *gpu_meshes,
                #[trigger] entities@[i].0@,
                entities@[i].1.material,
            ),
{
    let mut plan: Vec<DrawCommand> = Vec::new();
    let mut i: usize = 0;
    while i < entities.len()
        invariant
            i <= entities@.len(),
            plan@.len() == i,
            forall|j: int| 0 <= j < entities@.len() ==> mesh_counts_fit(#[trigger] entities@[j].0@),
            forall|j: int|
                0 <= j < i ==> plan@[j] == plan_entity_material(
                    *pipelines,
                    *gpu_meshes,
                    #[trigger] entities@[j].0@,
                    entities@[j].1.material,
                ),
        decreases entities@.len() - i,
    {
        let entity = &entities[i];
        let mesh = &entity.0;
        let material_handle: u64 = entity.1.material;
        let pipeline_id: u64 = match pipelines.get_pipeline_id_by_material(material_handle) {
            Some(id) => id,
            None => 0,
        };
        let vid: u64 = mesh.vertex_buffer_id();
        let iid: u64 = mesh.index_buffer_id();
        let resolved = pipelines.registered_pipelines.contains_key(&pipeline_id)
            && gpu_meshes.buffers_map.contains_key(&vid) && (!mesh.has_indices()
            || gpu_meshes.buffers_map.contains_key(&iid));
        let cmd = if resolved {
            let indexed: Option<(u64, u32)> = if mesh.has_indices() {
                Some((iid, mesh.num_indices() as u32))
            } else {
                None
            };
            DrawCommand::Draw {
                pipeline_id,
                vertex_buffer_id: vid,
                bind_uniform: pipelines.render_pipeline_state.contains_key(&pipeline_id),
                indexed,
                vertex_count: mesh.num_vertices() as u32,
            }
        } else {
            DrawCommand::Skip { pipeline_id, vertex_buffer_id: vid }
        };
        plan.push(cmd);
        i += 1;
    }
    plan
}

/// Renders one frame of the material path. As `render::render3d`, with the
/// pipeline resolved through each entity's material handle.
pub fn render_mesh_with_material(
    renderer_state: &RendererState,
    pipelines: &Pipelines<wgpu::RenderPipeline, UniformState>,
    gpu_meshes: &GpuMeshes<wgpu::Buffer>,
    entities: &Vec<(&Mesh, MeshMaterial)>,
) -> (r: Result<FrameReport, RenderError>)
    requires
        forall|i: int| 0 <= i < entities@.len() ==> mesh_counts_fit(#[trigger] entities@[i].0@),
    ensures
        r matches Ok(report) ==> report.commands@.len() == entities@.len() && forall|i: int|
            0 <= i < entities@.len() ==> report.commands@[i] == plan_entity_material(
                *pipelines,
                *gpu_meshes,
                #[trigger] entities@[i].0@,
                entities@[i].1.material,
            ),
        r matches Err(e) ==> e == RenderError::SurfaceUnavailable,
{
    let frame = match gpu::get_current_texture(&renderer_state.surface) {
        Ok(frame) => frame,
        Err(_) => {
            return Err(RenderError::SurfaceUnavailable);
        },
    };
    let view = gpu::create_surface_view(&frame);
    let mut encoder = gpu::create_command_encoder(&renderer_state.device);
    let plan = plan_frame_material(pipelines, gpu_meshes, entities);
    let mut i: usize = 0;
    while i < plan.len()
        invariant
            plan@.len() == entities@.len(),
            forall|j: int|
                0 <= j < entities@.len() ==> plan@[j] == plan_entity_material(
                    *pipelines,
                    *gpu_meshes,
                    #[trigger] entities@[j].0@,
                    entities@[j].1.material,
                ),
        decreases plan@.len() - i,
    {
        let cmd = &plan[i];
        proof {
            assert(plan@[i as int] == plan_entity_material(
                *pipelines,
                *gpu_meshes,
                entities@[i as int].0@,
                entities@[i as int].1.material,
            ));
        }
        match cmd {
            DrawCommand::Draw { pipeline_id, vertex_buffer_id, bind_uniform, indexed, vertex_count } => {
                let pipeline = pipelines.registered_pipelines.get(pipeline_id).unwrap();
                let vertex_buffer = gpu_meshes.buffers_map.get(vertex_buffer_id).unwrap();
                let mut render_pass = gpu::begin_render_pass(&mut encoder, &view);
                gpu::set_pipeline(&mut render_pass, pipeline);
                gpu::set_vertex_buffer(&mut render_pass, vertex_buffer);
                if *bind_uniform {
                    let uniform = pipelines.render_pipeline_state.get(pipeline_id).unwrap();
                    gpu::set_bind_group(&mut render_pass, &uniform.uniform_bind_group);
                }
                match indexed {
                    Some((index_buffer_id, index_count)) => {
                        let index_buffer = gpu_meshes.buffers_map.get(index_buffer_id).unwrap();
                        gpu::set_index_buffer(&mut render_pass, index_buffer);
                        gpu::draw_indexed(&mut render_pass, *index_count);
                    },
                    None => {
                        gpu::draw(&mut render_pass, *vertex_count);
                    },
                }
            },
            DrawCommand::Skip { .. } => {},
        }
        i += 1;
    }
    gpu::submit(&renderer_state.queue, gpu::finish_encoder(encoder));
    gpu::present(frame);
    Ok(FrameReport { commands: plan })
}

} // verus!
