use fathom::material::{plan_frame_material, MeshMaterial};
use fathom::mesh::{bind_mesh2d_buffers, bind_mesh_buffers, GpuMeshes, Mesh, Mesh2D, VERTEX2D_SIZE, VERTEX_SIZE};
use fathom::pipeline::Pipelines;
use fathom::render::{
    initialize_render_resources, plan_frame2d, plan_frame3d, resolve_renderable, DrawCommand,
    Renderable,
};
use fathom::shaders::ShaderRegistry;

type TestPipelines = Pipelines<i32, ()>;
type TestBuffers = GpuMeshes<u32>;

fn vertex_bytes_3d(count: usize) -> Vec<u8> {
    vec![0u8; count * VERTEX_SIZE]
}

#[test]
fn pipeline_registration_assigns_ids_from_one() {
    let mut pipelines: TestPipelines = Pipelines::new();
    assert_eq!(pipelines.get_pipeline_id(0), 0);
    let first = pipelines.register_pipeline(0, 100, Some(()));
    let second = pipelines.register_pipeline(1, 200, None);
    assert_eq!(first, 1);
    assert_eq!(second, 2);
    assert_eq!(pipelines.get_pipeline_id(0), 1);
    assert_eq!(pipelines.get_pipeline_id(1), 2);
    assert_eq!(pipelines.get_pipeline_id(9), 0);
}

#[test]
fn material_lookup() {
    let mut pipelines: TestPipelines = Pipelines::new();
    let id = pipelines.register_pipeline(0, 300, None);
    pipelines.material_to_pipeline_id_map.insert(5, id);
    assert_eq!(pipelines.get_pipeline_id_by_material(5), Some(id));
    assert_eq!(pipelines.get_pipeline_id_by_material(6), None);
    assert_eq!(pipelines.get_pipeline_by_material(5), Some(&300));
    assert_eq!(pipelines.get_pipeline_by_material(6), None);
}

#[test]
fn pipeline_resolution_is_pure_in_shader_identity() {
    let mut pipelines: TestPipelines = Pipelines::new();
    pipelines.register_pipeline(0, 1, None);

    let mut a = Mesh::new(vertex_bytes_3d(3));
    let mut b = Mesh::with_indices(vertex_bytes_3d(4), vec![0, 1, 2, 0, 2, 3]);
    a.set_shaders(0, 0);
    b.set_shaders(0, 0);

    let mut gpu_meshes: TestBuffers = GpuMeshes::new();
    bind_mesh_buffers(&mut a, &mut gpu_meshes, Some(1), None);
    bind_mesh_buffers(&mut b, &mut gpu_meshes, Some(2), Some(3));

    let entities = vec![(Renderable::default(), &a), (Renderable::default(), &b)];
    let plan = plan_frame3d(&pipelines, &gpu_meshes, &entities);
    let id_of = |cmd: &DrawCommand| match cmd {
        DrawCommand::Draw { pipeline_id, .. } => *pipeline_id,
        DrawCommand::Skip { .. } => panic!("both meshes should draw"),
    };
    assert_eq!(id_of(&plan[0]), id_of(&plan[1]));
    assert_eq!(id_of(&plan[0]), 1);
}

#[test]
fn draw_dispatch_uses_literal_index_count() {
    let mut pipelines: TestPipelines = Pipelines::new();
    pipelines.register_pipeline(0, 1, None);
    let mut gpu_meshes: TestBuffers = GpuMeshes::new();

    // a 4-vertex quad drawn through 6 indices issues 6 indexed draws, not 4
    let mut quad = Mesh::with_indices(vertex_bytes_3d(4), vec![0, 1, 2, 0, 2, 3]);
    bind_mesh_buffers(&mut quad, &mut gpu_meshes, Some(1), Some(2));
    let index_buffer_id = quad.index_buffer_id();

    let entities = vec![(Renderable::default(), &quad)];
    let plan = plan_frame3d(&pipelines, &gpu_meshes, &entities);
    assert_eq!(plan.len(), 1);
    match plan[0] {
        DrawCommand::Draw { indexed, vertex_count, .. } => {
            assert_eq!(indexed, Some((index_buffer_id, 6)));
            assert_eq!(vertex_count, 4);
        },
        DrawCommand::Skip { .. } => panic!("quad should draw"),
    }
}

#[test]
fn unresolved_entity_skips_with_one_error_record() {
    let pipelines: TestPipelines = Pipelines::new();
    let mut gpu_meshes: TestBuffers = GpuMeshes::new();

    let mut mesh = Mesh::new(vertex_bytes_3d(3));
    bind_mesh_buffers(&mut mesh, &mut gpu_meshes, Some(1), None);
    let vertex_buffer_id = mesh.vertex_buffer_id();

    let mut renderable = Renderable::default();
    let resolved = resolve_renderable(&mut renderable, &pipelines, 0);
    assert!(!resolved);
    assert_eq!(renderable.pipeline_id, 0);

    let entities = vec![(renderable, &mesh)];
    let plan = plan_frame3d(&pipelines, &gpu_meshes, &entities);
    assert_eq!(plan.len(), 1, "exactly one record per entity per frame");
    assert_eq!(plan[0], DrawCommand::Skip { pipeline_id: 0, vertex_buffer_id });
    let draws = plan.iter().filter(|c| matches!(c, DrawCommand::Draw { .. })).count();
    assert_eq!(draws, 0);
}

#[test]
fn missing_vertex_buffer_skips() {
    let mut pipelines: TestPipelines = Pipelines::new();
    pipelines.register_pipeline(0, 1, None);
    let gpu_meshes: TestBuffers = GpuMeshes::new();

    // never bound: vertex buffer id is still the sentinel zero
    let mesh = Mesh::new(vertex_bytes_3d(3));
    let entities = vec![(Renderable::default(), &mesh)];
    let plan = plan_frame3d(&pipelines, &gpu_meshes, &entities);
    assert!(matches!(plan[0], DrawCommand::Skip { .. }));
}

#[test]
fn triangle_scenario_3d() {
    // spawn a triangle mesh: 3 vertices, no indices, default shader
    let mut registry = ShaderRegistry::new();
    let (mut pipelines, mut shaders_state, mut gpu_meshes) =
        initialize_render_resources::<i32, (), u8, u32>(&mut registry);
    registry.complete_load(shaders_state.shader_handles[0], b"default 3d".to_vec()).unwrap();
    registry.complete_load(shaders_state.shader_handles[1], b"default 2d".to_vec()).unwrap();

    // stand-ins for the compiled modules and pipelines of the two defaults
    shaders_state.loaded_shader_modules.insert(shaders_state.shader_handles[0], 0u8);
    let pipeline_3d = pipelines.register_pipeline(shaders_state.shader_handles[0], 30, Some(()));
    let pipeline_2d = pipelines.register_pipeline(shaders_state.shader_handles[1], 31, None);
    assert_eq!(pipeline_3d, 1);
    assert_eq!(pipeline_2d, 2);

    let mut triangle = Mesh::new(vertex_bytes_3d(3));
    let mut renderable = Renderable::default();

    // first frame: the binder allocates one buffer and resolves pipeline id 1
    let before = gpu_meshes.buffers_map.len();
    let report = bind_mesh_buffers(&mut triangle, &mut gpu_meshes, Some(77), None);
    let resolved = resolve_renderable(&mut renderable, &pipelines, triangle.vertex_shader());
    assert!(report.vertex_allocated && !report.index_allocated);
    assert_eq!(gpu_meshes.buffers_map.len(), before + 1);
    assert!(resolved);
    assert_eq!(renderable.pipeline_id, 1);

    // the renderer issues one non-indexed draw over vertices 0..3
    let vertex_buffer_id = triangle.vertex_buffer_id();
    let entities = vec![(renderable, &triangle)];
    let plan = plan_frame3d(&pipelines, &gpu_meshes, &entities);
    assert_eq!(
        plan,
        vec![DrawCommand::Draw {
            pipeline_id: 1,
            vertex_buffer_id,
            bind_uniform: true,
            indexed: None,
            vertex_count: 3,
        }]
    );
}

#[test]
fn cube_scenario_3d() {
    // spawn a cube mesh: 8 vertices and 36 indices
    let mut pipelines: TestPipelines = Pipelines::new();
    pipelines.register_pipeline(0, 40, None);
    let mut gpu_meshes: TestBuffers = GpuMeshes::new();

    let indices: Vec<u32> = (0..36).map(|i| i % 8).collect();
    let mut cube = Mesh::with_indices(vertex_bytes_3d(8), indices);
    bind_mesh_buffers(&mut cube, &mut gpu_meshes, Some(1), Some(2));
    let vertex_buffer_id = cube.vertex_buffer_id();
    let index_buffer_id = cube.index_buffer_id();

    // the renderer issues one indexed draw over indices 0..36 with both
    // buffers bound
    let entities = vec![(Renderable::default(), &cube)];
    let plan = plan_frame3d(&pipelines, &gpu_meshes, &entities);
    assert_eq!(
        plan,
        vec![DrawCommand::Draw {
            pipeline_id: 1,
            vertex_buffer_id,
            bind_uniform: false,
            indexed: Some((index_buffer_id, 36)),
            vertex_count: 8,
        }]
    );
}

#[test]
fn square_scenario_2d() {
    let mut pipelines: TestPipelines = Pipelines::new();
    pipelines.register_pipeline(0, 50, None);
    pipelines.register_pipeline(1, 51, None);
    let mut gpu_meshes: TestBuffers = GpuMeshes::new();

    // a 2D mesh defaults to the 2D shader handle, which resolves pipeline 2
    let mut square = Mesh2D::with_indices(vec![0u8; 4 * VERTEX2D_SIZE], vec![0, 1, 2, 0, 2, 3]);
    bind_mesh2d_buffers(&mut square, &mut gpu_meshes, Some(1), Some(2));
    let index_buffer_id = square.index_buffer_id();
    let vertex_buffer_id = square.vertex_buffer_id();

    let entities = vec![(Renderable::default(), &square)];
    let plan = plan_frame2d(&pipelines, &gpu_meshes, &entities);
    assert_eq!(
        plan,
        vec![DrawCommand::Draw {
            pipeline_id: 2,
            vertex_buffer_id,
            bind_uniform: false,
            indexed: Some((index_buffer_id, 6)),
            vertex_count: 4,
        }]
    );
}

#[test]
fn material_path_resolves_through_material_handle() {
    let mut pipelines: TestPipelines = Pipelines::new();
    let id = pipelines.register_pipeline(0, 60, Some(()));
    pipelines.material_to_pipeline_id_map.insert(9, id);
    let mut gpu_meshes: TestBuffers = GpuMeshes::new();

    let mut mesh = Mesh::new(vertex_bytes_3d(3));
    bind_mesh_buffers(&mut mesh, &mut gpu_meshes, Some(1), None);
    let vertex_buffer_id = mesh.vertex_buffer_id();

    let entities = vec![(&mesh, MeshMaterial { material: 9 })];
    let plan = plan_frame_material(&pipelines, &gpu_meshes, &entities);
    assert_eq!(
        plan,
        vec![DrawCommand::Draw {
            pipeline_id: 1,
            vertex_buffer_id,
            bind_uniform: true,
            indexed: None,
            vertex_count: 3,
        }]
    );
}

#[test]
fn initialize_render_resources_registers_defaults() {
    let mut registry = ShaderRegistry::new();
    registry.load(String::from("shaders/earlier.wgsl"));
    let (pipelines, shaders_state, gpu_meshes) =
        initialize_render_resources::<i32, (), u8, u32>(&mut registry);

    assert_eq!(registry.len(), 3);
    assert_eq!(shaders_state.shader_handles, vec![1, 2]);
    assert!(pipelines.registered_pipelines.is_empty());
    assert!(gpu_meshes.buffers_map.is_empty());
}

#[test]
fn empty_frame_plans_nothing() {
    let pipelines: TestPipelines = Pipelines::new();
    let gpu_meshes: TestBuffers = GpuMeshes::new();
    let entities: Vec<(Renderable, &Mesh)> = Vec::new();
    let plan = plan_frame3d(&pipelines, &gpu_meshes, &entities);
    assert!(plan.is_empty());
}

#[test]
fn entities_sharing_a_material_share_its_pipeline() {
    let mut pipelines: TestPipelines = Pipelines::new();
    let id = pipelines.register_pipeline(0, 70, None);
    pipelines.material_to_pipeline_id_map.insert(4, id);
    let mut gpu_meshes: TestBuffers = GpuMeshes::new();

    let mut a = Mesh::new(vertex_bytes_3d(3));
    let mut b = Mesh::new(vertex_bytes_3d(6));
    bind_mesh_buffers(&mut a, &mut gpu_meshes, Some(1), None);
    bind_mesh_buffers(&mut b, &mut gpu_meshes, Some(2), None);

    let entities = vec![
        (&a, MeshMaterial { material: 4 }),
        (&b, MeshMaterial { material: 4 }),
    ];
    let plan = plan_frame_material(&pipelines, &gpu_meshes, &entities);
    let ids: Vec<u64> = plan
        .iter()
        .map(|cmd| match cmd {
            DrawCommand::Draw { pipeline_id, .. } => *pipeline_id,
            DrawCommand::Skip { pipeline_id, .. } => *pipeline_id,
        })
        .collect();
    assert_eq!(ids, vec![1, 1]);
}

#[test]
fn indexed_mesh_without_index_buffer_skips() {
    let mut pipelines: TestPipelines = Pipelines::new();
    pipelines.register_pipeline(0, 1, None);
    let mut gpu_meshes: TestBuffers = GpuMeshes::new();

    // the vertex buffer resolves, but the carried index buffer is unbound
    let mut quad = Mesh::with_indices(vertex_bytes_3d(4), vec![0, 1, 2, 0, 2, 3]);
    gpu_meshes.buffers_map.insert(7, 70);
    quad.vertex_buffer_id = 7;

    let entities = vec![(Renderable::default(), &quad)];
    let plan = plan_frame3d(&pipelines, &gpu_meshes, &entities);
    assert_eq!(plan.len(), 1);
    assert!(
        matches!(plan[0], DrawCommand::Skip { .. }),
        "an unresolvable index buffer skips the entity, never a non-indexed draw"
    );
}

#[test]
fn unregistered_material_skips_with_one_error_record() {
    let pipelines: TestPipelines = Pipelines::new();
    let mut gpu_meshes: TestBuffers = GpuMeshes::new();

    let mut mesh = Mesh::new(vertex_bytes_3d(3));
    bind_mesh_buffers(&mut mesh, &mut gpu_meshes, Some(1), None);
    let vertex_buffer_id = mesh.vertex_buffer_id();

    let entities = vec![(&mesh, MeshMaterial { material: 42 })];
    let plan = plan_frame_material(&pipelines, &gpu_meshes, &entities);
    assert_eq!(plan.len(), 1, "exactly one record per entity per frame");
    assert_eq!(plan[0], DrawCommand::Skip { pipeline_id: 0, vertex_buffer_id });
}
