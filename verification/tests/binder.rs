use fathom::mesh::{bind_mesh2d_buffers, bind_mesh_buffers, GpuMeshes, Mesh, Mesh2D, VERTEX2D_SIZE, VERTEX_SIZE};

fn vertex_bytes_3d(count: usize) -> Vec<u8> {
    vec![0u8; count * VERTEX_SIZE]
}

fn vertex_bytes_2d(count: usize) -> Vec<u8> {
    vec![0u8; count * VERTEX2D_SIZE]
}

#[test]
fn mesh_counts() {
    let mesh = Mesh::new(vertex_bytes_3d(3));
    assert_eq!(mesh.num_vertices(), 3);
    assert_eq!(mesh.num_indices(), 0);
    assert!(!mesh.has_indices());
    assert_eq!(mesh.vertex_buffer_id(), 0);
    assert_eq!(mesh.index_buffer_id(), 0);

    let quad = Mesh::with_indices(vertex_bytes_3d(4), vec![0, 1, 2, 0, 2, 3]);
    assert_eq!(quad.num_vertices(), 4);
    assert_eq!(quad.num_indices(), 6);
    assert!(quad.has_indices());
}

#[test]
fn mesh2d_counts() {
    let mesh = Mesh2D::new(vertex_bytes_2d(5));
    assert_eq!(mesh.num_vertices(), 5);
    assert!(!mesh.has_indices());

    let quad = Mesh2D::with_indices(vertex_bytes_2d(4), vec![0, 1, 2, 0, 2, 3]);
    assert_eq!(quad.num_indices(), 6);
}

#[test]
fn empty_mesh_binds_an_empty_buffer() {
    let mut gpu_meshes: GpuMeshes<u32> = GpuMeshes::new();
    let mut mesh = Mesh::new(Vec::new());
    assert_eq!(mesh.num_vertices(), 0);
    let report = bind_mesh_buffers(&mut mesh, &mut gpu_meshes, Some(0u32), None);
    assert!(report.vertex_allocated);
    assert_ne!(mesh.vertex_buffer_id(), 0);
    assert_eq!(gpu_meshes.buffers_map.len(), 1);
}

#[test]
fn binder_assigns_fresh_nonzero_ids() {
    let mut gpu_meshes: GpuMeshes<u32> = GpuMeshes::new();

    let mut triangle = Mesh::new(vertex_bytes_3d(3));
    let report = bind_mesh_buffers(&mut triangle, &mut gpu_meshes, Some(10u32), None);
    assert!(report.vertex_allocated);
    assert!(!report.index_allocated);
    assert_ne!(triangle.vertex_buffer_id(), 0);
    assert_eq!(triangle.index_buffer_id(), 0);
    assert_eq!(gpu_meshes.buffers_map.len(), 1);

    let mut cube = Mesh::with_indices(vertex_bytes_3d(8), (0..36).map(|i| i % 8).collect());
    let report = bind_mesh_buffers(&mut cube, &mut gpu_meshes, Some(20u32), Some(21u32));
    assert!(report.vertex_allocated);
    assert!(report.index_allocated);
    assert_ne!(cube.vertex_buffer_id(), 0);
    assert_ne!(cube.index_buffer_id(), 0);
    assert_ne!(cube.vertex_buffer_id(), cube.index_buffer_id());
    assert_eq!(gpu_meshes.buffers_map.len(), 3);

    // every assigned identifier is unique among all meshes bound so far
    assert_ne!(cube.vertex_buffer_id(), triangle.vertex_buffer_id());
    assert_ne!(cube.index_buffer_id(), triangle.vertex_buffer_id());
    assert!(gpu_meshes.buffers_map.contains_key(&triangle.vertex_buffer_id()));
    assert!(gpu_meshes.buffers_map.contains_key(&cube.vertex_buffer_id()));
    assert!(gpu_meshes.buffers_map.contains_key(&cube.index_buffer_id()));
}

#[test]
fn binder_is_idempotent() {
    let mut gpu_meshes: GpuMeshes<u32> = GpuMeshes::new();
    let mut cube = Mesh::with_indices(vertex_bytes_3d(8), (0..36).map(|i| i % 8).collect());

    bind_mesh_buffers(&mut cube, &mut gpu_meshes, Some(1u32), Some(2u32));
    let vid = cube.vertex_buffer_id();
    let iid = cube.index_buffer_id();
    let size = gpu_meshes.buffers_map.len();

    let report = bind_mesh_buffers(&mut cube, &mut gpu_meshes, Some(3u32), Some(4u32));
    assert!(!report.vertex_allocated);
    assert!(!report.index_allocated);
    assert_eq!(cube.vertex_buffer_id(), vid);
    assert_eq!(cube.index_buffer_id(), iid);
    assert_eq!(gpu_meshes.buffers_map.len(), size);
}

#[test]
fn binder2d_is_idempotent() {
    let mut gpu_meshes: GpuMeshes<i64> = GpuMeshes::new();
    let mut square = Mesh2D::with_indices(vertex_bytes_2d(4), vec![0, 1, 2, 0, 2, 3]);

    let report = bind_mesh2d_buffers(&mut square, &mut gpu_meshes, Some(-1i64), Some(-2i64));
    assert!(report.vertex_allocated);
    assert!(report.index_allocated);
    let vid = square.vertex_buffer_id();
    let iid = square.index_buffer_id();
    assert_ne!(vid, 0);
    assert_ne!(iid, 0);
    assert_ne!(vid, iid);
    assert_eq!(gpu_meshes.buffers_map.len(), 2);

    let report = bind_mesh2d_buffers(&mut square, &mut gpu_meshes, Some(-3i64), Some(-4i64));
    assert!(!report.vertex_allocated);
    assert!(!report.index_allocated);
    assert_eq!(square.vertex_buffer_id(), vid);
    assert_eq!(square.index_buffer_id(), iid);
    assert_eq!(gpu_meshes.buffers_map.len(), 2);
}

#[test]
fn binder_fills_missing_index_buffer_only() {
    let mut gpu_meshes: GpuMeshes<u32> = GpuMeshes::new();
    let mut quad = Mesh::with_indices(vertex_bytes_3d(4), vec![0, 1, 2, 0, 2, 3]);

    // vertex sub-resource first, index sub-resource left unbound
    let report = bind_mesh_buffers(&mut quad, &mut gpu_meshes, Some(1u32), Some(2u32));
    assert!(report.vertex_allocated && report.index_allocated);

    let mut plain = Mesh::new(vertex_bytes_3d(3));
    let report = bind_mesh_buffers(&mut plain, &mut gpu_meshes, Some(3u32), Some(4u32));
    assert!(report.vertex_allocated);
    assert!(!report.index_allocated, "a mesh without indices never gets an index buffer");
    assert_eq!(plain.index_buffer_id(), 0);
    assert_eq!(gpu_meshes.buffers_map.len(), 3);
}
