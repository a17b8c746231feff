//! The trusted boundary to `wgpu`.
//!
//! The renderer's logic — caching, identifier management, draw dispatch — is
//! verified; the GPU itself is not. Every `wgpu` type the library stores or
//! passes through is declared opaque here, and every `wgpu` call the logic
//! makes stands behind one small wrapper whose body only makes that call and
//! converts its arguments. `wgpu` reports invalid API usage through its own
//! error handler at run time; nothing about the GPU's behaviour is claimed
//! beyond the shape of each result.

use vstd::prelude::*;
use wgpu::util::DeviceExt;

verus! {

#[verifier::external_type_specification]
#[verifier::external_body]
pub struct ExInstance(wgpu::Instance);

#[verifier::external_type_specification]
#[verifier::external_body]
pub struct ExAdapter(wgpu::Adapter);

#[verifier::external_type_specification]
#[verifier::external_body]
pub struct ExDevice(wgpu::Device);

#[verifier::external_type_specification]
#[verifier::external_body]
pub struct ExQueue(wgpu::Queue);

#[verifier::external_type_specification]
#[verifier::external_body]
pub struct ExSurface<'window>(wgpu::Surface<'window>);

#[verifier::external_type_specification]
#[verifier::external_body]
pub struct ExSurfaceTexture(wgpu::SurfaceTexture);

#[verifier::external_type_specification]
#[verifier::external_body]
pub struct ExSurfaceError(wgpu::SurfaceError);

#[verifier::external_type_specification]
#[verifier::external_body]
pub struct ExTextureView(wgpu::TextureView);

#[verifier::external_type_specification]
#[verifier::external_body]
pub struct ExCommandEncoder(wgpu::CommandEncoder);

#[verifier::external_type_specification]
#[verifier::external_body]
pub struct ExCommandBuffer(wgpu::CommandBuffer);

#[verifier::external_type_specification]
#[verifier::external_body]
pub struct ExRenderPass<'encoder>(wgpu::RenderPass<'encoder>);

#[verifier::external_type_specification]
#[verifier::external_body]
pub struct ExBuffer(wgpu::Buffer);

#[verifier::external_type_specification]
#[verifier::external_body]
pub struct ExShaderModule(wgpu::ShaderModule);

#[verifier::external_type_specification]
#[verifier::external_body]
pub struct ExPipelineLayout(wgpu::PipelineLayout);

#[verifier::external_type_specification]
#[verifier::external_body]
pub struct ExBindGroupLayout(wgpu::BindGroupLayout);

#[verifier::external_type_specification]
#[verifier::external_body]
pub struct ExBindGroup(wgpu::BindGroup);

#[verifier::external_type_specification]
#[verifier::external_body]
pub struct ExRenderPipeline(wgpu::RenderPipeline);

#[verifier::external_type_specification]
#[verifier::external_body]
pub struct ExVertexBufferLayout<'a>(wgpu::VertexBufferLayout<'a>);

#[verifier::external_type_specification]
#[verifier::external_body]
pub struct ExColorTargetState(wgpu::ColorTargetState);

/// Relies on `wgpu::util::DeviceExt::create_buffer_init`: allocates a GPU
/// buffer with `VERTEX` usage, filled with `contents` and labelled with the
/// buffer identifier.
#[verifier::external_body]
pub(crate) fn create_vertex_buffer(device: &wgpu::Device, id: u64, contents: &[u8]) -> wgpu::Buffer {
    device.create_buffer_init(&wgpu::util::BufferInitDescriptor {
        label: Some(format!("{}", id).as_str()),
        contents,
        usage: wgpu::BufferUsages::VERTEX,
    })
}

/// Relies on `wgpu::util::DeviceExt::create_buffer_init`: allocates a GPU
/// buffer with `INDEX` usage, filled with `contents` and labelled with the
/// buffer identifier.
#[verifier::external_body]
pub(crate) fn create_index_buffer(device: &wgpu::Device, id: u64, contents: &[u8]) -> wgpu::Buffer {
    device.create_buffer_init(&wgpu::util::BufferInitDescriptor {
        label: Some(format!("{}", id).as_str()),
        contents,
        usage: wgpu::BufferUsages::INDEX,
    })
}

/// Relies on `wgpu::util::DeviceExt::create_buffer_init`: allocates a GPU
/// buffer with `UNIFORM | COPY_DST` usage, filled with `contents`.
#[verifier::external_body]
pub(crate) fn create_uniform_buffer(device: &wgpu::Device, contents: &[u8]) -> wgpu::Buffer {
    device.create_buffer_init(&wgpu::util::BufferInitDescriptor {
        label: Some("Uniform Buffer"),
        contents,
        usage: wgpu::BufferUsages::UNIFORM | wgpu::BufferUsages::COPY_DST,
    })
}

/// Relies on `wgpu::Device::create_shader_module`: compiles WGSL source text.
#[verifier::external_body]
pub(crate) fn create_shader_module(device: &wgpu::Device, label: &str, source: &str) -> wgpu::ShaderModule {
    device.create_shader_module(wgpu::ShaderModuleDescriptor {
        label: Some(label),
        source: wgpu::ShaderSource::Wgsl(String::from(source).into()),
    })
}

/// Relies on `wgpu::Device::create_bind_group_layout`: one uniform-buffer
/// binding at slot 0, visible to the vertex stage.
#[verifier::external_body]
pub(crate) fn create_uniform_bind_group_layout(device: &wgpu::Device) -> wgpu::BindGroupLayout {
    let ty = wgpu::BindingType::Buffer { ty: wgpu::BufferBindingType::Uniform, has_dynamic_offset: false, min_binding_size: None };
    let entry = wgpu::BindGroupLayoutEntry { binding: 0, visibility: wgpu::ShaderStages::VERTEX, ty, count: None };
    device.create_bind_group_layout(&wgpu::BindGroupLayoutDescriptor { entries: &[entry], label: None })
}

/// Relies on `wgpu::Device::create_bind_group`: binds the whole of `buffer`
/// at slot 0 of `layout`.
#[verifier::external_body]
pub(crate) fn create_uniform_bind_group(
    device: &wgpu::Device,
    layout: &wgpu::BindGroupLayout,
    buffer: &wgpu::Buffer,
) -> wgpu::BindGroup {
    device.create_bind_group(&wgpu::BindGroupDescriptor {
        layout,
        entries: &[wgpu::BindGroupEntry { binding: 0, resource: buffer.as_entire_binding() }],
        label: Some("Uniform Bind Group"),
    })
}

/// Relies on `wgpu::Device::create_pipeline_layout`: a layout with the one
/// given bind group layout and no push constants.
#[verifier::external_body]
pub(crate) fn create_pipeline_layout(
    device: &wgpu::Device,
    bind_group_layout: &wgpu::BindGroupLayout,
) -> wgpu::PipelineLayout {
    device.create_pipeline_layout(&wgpu::PipelineLayoutDescriptor {
        label: None,
        bind_group_layouts: &[bind_group_layout],
        push_constant_ranges: &[],
    })
}

/// Relies on `wgpu::Device::create_render_pipeline`: a triangle-list pipeline
/// with the given stages, no depth/stencil, default multisampling.
#[verifier::external_body]
pub(crate) fn create_render_pipeline(
    device: &wgpu::Device,
    label: Option<&str>,
    layout: Option<&wgpu::PipelineLayout>,
    module: &wgpu::ShaderModule,
    vertex_entry_point: &str,
    fragment_entry_point: &str,
    vertex_buffers: &[wgpu::VertexBufferLayout],
    targets: &[Option<wgpu::ColorTargetState>],
) -> wgpu::RenderPipeline {
    let vertex = wgpu::VertexState { module, entry_point: vertex_entry_point, compilation_options: Default::default(), buffers: vertex_buffers };
    let fragment = Some(wgpu::FragmentState { module, entry_point: fragment_entry_point, compilation_options: Default::default(), targets });
    let primitive = wgpu::PrimitiveState { topology: wgpu::PrimitiveTopology::TriangleList, strip_index_format: None, ..Default::default() };
    device.create_render_pipeline(&wgpu::RenderPipelineDescriptor { label, layout, vertex, primitive, depth_stencil: None, multisample: Default::default(), fragment, multiview: None, cache: None })
}

/// Relies on `wgpu::Queue::write_buffer`: schedules `data` to be written to
/// `buffer` at offset 0.
#[verifier::external_body]
pub(crate) fn write_buffer(queue: &wgpu::Queue, buffer: &wgpu::Buffer, data: &[u8]) {
    queue.write_buffer(buffer, 0, data);
}

/// Relies on `wgpu::Surface::get_current_texture`: hands out the next
/// presentable frame, or a surface error when none is available.
#[verifier::external_body]
pub(crate) fn get_current_texture<'w>(
    surface: &wgpu::Surface<'w>,
) -> Result<wgpu::SurfaceTexture, wgpu::SurfaceError> {
    surface.get_current_texture()
}

/// Relies on `wgpu::Texture::create_view`: a default view of the frame's
/// texture.
#[verifier::external_body]
pub(crate) fn create_surface_view(frame: &wgpu::SurfaceTexture) -> wgpu::TextureView {
    frame.texture.create_view(&wgpu::TextureViewDescriptor::default())
}

/// Relies on `wgpu::Device::create_command_encoder`.
#[verifier::external_body]
pub(crate) fn create_command_encoder(device: &wgpu::Device) -> wgpu::CommandEncoder {
    device.create_command_encoder(&wgpu::CommandEncoderDescriptor {
        label: Some("Main rendering command encoder"),
    })
}

/// Relies on `wgpu::CommandEncoder::begin_render_pass`: a pass with one color
/// attachment over `view` that loads the existing contents and stores the
/// result.
#[verifier::external_body]
pub(crate) fn begin_render_pass<'encoder>(
    encoder: &'encoder mut wgpu::CommandEncoder,
    view: &wgpu::TextureView,
) -> wgpu::RenderPass<'encoder> {
    let ops = wgpu::Operations { load: wgpu::LoadOp::Load, store: wgpu::StoreOp::Store };
    let attachment = wgpu::RenderPassColorAttachment { view, resolve_target: None, ops };
    encoder.begin_render_pass(&wgpu::RenderPassDescriptor { label: None, color_attachments: &[Some(attachment)], depth_stencil_attachment: None, timestamp_writes: None, occlusion_query_set: None })
}

/// Relies on `wgpu::RenderPass::set_pipeline`.
#[verifier::external_body]
pub(crate) fn set_pipeline(render_pass: &mut wgpu::RenderPass<'_>, pipeline: &wgpu::RenderPipeline) {
    render_pass.set_pipeline(pipeline);
}

/// Relies on `wgpu::RenderPass::set_vertex_buffer`: binds the whole of
/// `buffer` at slot 0.
#[verifier::external_body]
pub(crate) fn set_vertex_buffer(render_pass: &mut wgpu::RenderPass<'_>, buffer: &wgpu::Buffer) {
    render_pass.set_vertex_buffer(0, buffer.slice(..));
}

/// Relies on `wgpu::RenderPass::set_bind_group`: binds `bind_group` at group
/// 0 with no dynamic offsets.
#[verifier::external_body]
pub(crate) fn set_bind_group(render_pass: &mut wgpu::RenderPass<'_>, bind_group: &wgpu::BindGroup) {
    render_pass.set_bind_group(0, bind_group, &[]);
}

/// Relies on `wgpu::RenderPass::set_index_buffer`: binds the whole of
/// `buffer` as 32-bit indices.
#[verifier::external_body]
pub(crate) fn set_index_buffer(render_pass: &mut wgpu::RenderPass<'_>, buffer: &wgpu::Buffer) {
    render_pass.set_index_buffer(buffer.slice(..), wgpu::IndexFormat::Uint32);
}

/// Relies on `wgpu::RenderPass::draw`: one instance of vertices
/// `0..vertex_count`.
#[verifier::external_body]
pub(crate) fn draw(render_pass: &mut wgpu::RenderPass<'_>, vertex_count: u32) {
    render_pass.draw(0..vertex_count, 0..1);
}

/// Relies on `wgpu::RenderPass::draw_indexed`: one instance of indices
/// `0..index_count` with base vertex 0.
#[verifier::external_body]
pub(crate) fn draw_indexed(render_pass: &mut wgpu::RenderPass<'_>, index_count: u32) {
    render_pass.draw_indexed(0..index_count, 0, 0..1);
}

/// Relies on `wgpu::CommandEncoder::finish`.
#[verifier::external_body]
pub(crate) fn finish_encoder(encoder: wgpu::CommandEncoder) -> wgpu::CommandBuffer {
    encoder.finish()
}

/// Relies on `wgpu::Queue::submit`: submits the one command buffer.
#[verifier::external_body]
pub(crate) fn submit(queue: &wgpu::Queue, commands: wgpu::CommandBuffer) {
    queue.submit(Some(commands));
}

/// Relies on `wgpu::SurfaceTexture::present`: schedules the frame for
/// presentation.
#[verifier::external_body]
pub(crate) fn present(frame: wgpu::SurfaceTexture) {
    frame.present();
}

} // verus!
