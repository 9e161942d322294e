use mesh_instancing::aggregate::prepare_buffer;
use mesh_instancing::aggregate::Child;
use mesh_instancing::buffer::prepare_instance_buffers;
use mesh_instancing::buffer::RenderDevice;
use mesh_instancing::draw::draw_custom;
use mesh_instancing::draw::DrawCommand;
use mesh_instancing::draw::DrawMeshInstanced;
use mesh_instancing::draw::RenderCommandResult;
use mesh_instancing::draw::TrackedRenderPass;
use mesh_instancing::extract::InstanceMaterialData;
use mesh_instancing::key::from_hdr;
use mesh_instancing::key::from_msaa_samples;
use mesh_instancing::key::from_primitive_topology;
use mesh_instancing::key::PipelineKey;
use mesh_instancing::key::PrimitiveTopology;
use mesh_instancing::pipeline::CustomPipeline;
use mesh_instancing::pipeline::Mesh2dPipeline;
use mesh_instancing::pipeline::MeshVertexBufferLayout;
use mesh_instancing::pipeline::SpecializedMeshPipelineError;
use mesh_instancing::pipeline::SpecializedMeshPipelines;
use mesh_instancing::pipeline::VertexAttribute;
use mesh_instancing::pipeline::VertexBufferLayout;
use mesh_instancing::pipeline::VertexFormat;
use mesh_instancing::pipeline::VertexStepMode;
use mesh_instancing::queue::queue_custom;
use mesh_instancing::queue::ExtractedView;
use mesh_instancing::queue::GpuBufferInfo;
use mesh_instancing::queue::IndexFormat;
use mesh_instancing::queue::Mesh;
use mesh_instancing::queue::RenderAssets;
use mesh_instancing::queue::RenderMesh2dInstance;
use mesh_instancing::queue::RenderMesh2dInstances;
use mesh_instancing::record::ColorWords;
use mesh_instancing::record::Vec3Words;

const QUAD_MESH_ID: u64 = 100;
const DRAW_FUNCTION: u32 = 5;

fn quad_layout() -> MeshVertexBufferLayout {
    MeshVertexBufferLayout {
        fingerprint: 0xABCD,
        buffer: VertexBufferLayout {
            array_stride: 20,
            step_mode: VertexStepMode::Vertex,
            attributes: vec![
                VertexAttribute { format: VertexFormat::Float32x3, offset: 0, shader_location: 0 },
                VertexAttribute { format: VertexFormat::Float32x2, offset: 12, shader_location: 2 },
            ],
        },
    }
}

fn quad_mesh() -> Mesh {
    Mesh {
        primitive_topology: PrimitiveTopology::TriangleList,
        layout: quad_layout(),
        vertex_buffer: 900,
        vertex_count: 4,
        buffer_info: GpuBufferInfo::Indexed { buffer: 901, index_format: IndexFormat::Uint16, count: 6 },
    }
}

fn custom_pipeline() -> CustomPipeline {
    CustomPipeline { shader: 77, mesh_pipeline: Mesh2dPipeline { shader: 11 } }
}

#[test]
fn key_flags_combine_to_exact_word() {
    let view = from_msaa_samples(4) | from_hdr(true);
    assert_eq!(view, 4 | 16);
    let flags = view | from_primitive_topology(PrimitiveTopology::TriangleList);
    assert_eq!(flags, 4 | 16 | 96);
    assert_eq!(from_primitive_topology(PrimitiveTopology::PointList), 0);
    assert_eq!(from_hdr(false), 0);
}

#[test]
fn specialized_descriptor_carries_instancing_augmentations() {
    let custom = custom_pipeline();
    let layout = quad_layout();
    let descriptor = custom.specialize(4 | 96, &layout).expect("layout has position");
    assert_eq!(descriptor.key_flags, 4 | 96);
    assert_eq!(descriptor.vertex.shader, 77);
    assert_eq!(descriptor.fragment.as_ref().unwrap().shader, 77);
    assert_eq!(descriptor.vertex.shader_defs.len(), 1);
    assert_eq!(descriptor.vertex.shader_defs[0], "MESH_BINDGROUP_1");
    assert_eq!(descriptor.vertex.buffers.len(), 2);
    let base = &descriptor.vertex.buffers[0];
    assert_eq!(base.array_stride, 20);
    let instance = &descriptor.vertex.buffers[1];
    assert_eq!(instance.array_stride, 32);
    assert_eq!(instance.step_mode, VertexStepMode::Instance);
    assert_eq!(
        instance.attributes,
        vec![
            VertexAttribute { format: VertexFormat::Float32x4, offset: 0, shader_location: 3 },
            VertexAttribute { format: VertexFormat::Float32x4, offset: 16, shader_location: 4 },
        ]
    );
}

#[test]
fn missing_position_attribute_is_a_specialization_error() {
    let custom = custom_pipeline();
    let layout = MeshVertexBufferLayout {
        fingerprint: 1,
        buffer: VertexBufferLayout {
            array_stride: 8,
            step_mode: VertexStepMode::Vertex,
            attributes: vec![
                VertexAttribute { format: VertexFormat::Float32x2, offset: 0, shader_location: 2 },
            ],
        },
    };
    let err = match custom.specialize(0, &layout) {
        Ok(_) => panic!("specialization must fail without a position attribute"),
        Err(e) => e,
    };
    assert_eq!(err, SpecializedMeshPipelineError::MissingVertexAttribute);

    let mut cache = SpecializedMeshPipelines::new();
    let key = PipelineKey { flags: 0, layout_fingerprint: 1 };
    assert!(cache.specialize(&custom, key, &layout).is_err());
    assert_eq!(cache.keys.len(), 0);
}

#[test]
fn equal_keys_share_one_cached_pipeline() {
    let custom = custom_pipeline();
    let layout = quad_layout();
    let key = PipelineKey { flags: 4 | 96, layout_fingerprint: layout.fingerprint };
    let mut cache = SpecializedMeshPipelines::new();
    let first = cache.specialize(&custom, key, &layout).unwrap();
    let second = cache.specialize(&custom, key, &layout).unwrap();
    assert_eq!(first, second);
    assert_eq!(cache.keys.len(), 1);

    let other_key = PipelineKey { flags: 4 | 16 | 96, layout_fingerprint: layout.fingerprint };
    let third = cache.specialize(&custom, other_key, &layout).unwrap();
    assert_ne!(first, third);
    assert_eq!(cache.keys.len(), 2);
}

#[test]
fn two_hosts_one_mesh_share_one_pipeline() {
    let custom = custom_pipeline();
    let meshes = RenderAssets { meshes: vec![(QUAD_MESH_ID, quad_mesh())] };
    let instances = RenderMesh2dInstances {
        entries: vec![
            (1, RenderMesh2dInstance { mesh_asset_id: QUAD_MESH_ID, translation_z: (-10.0f32).to_bits() }),
            (2, RenderMesh2dInstance { mesh_asset_id: QUAD_MESH_ID, translation_z: (3.0f32).to_bits() }),
        ],
    };
    let mut cache = SpecializedMeshPipelines::new();
    let phases = queue_custom(
        DRAW_FUNCTION,
        &custom,
        4,
        &mut cache,
        &meshes,
        &instances,
        &vec![1, 2],
        &vec![ExtractedView { hdr: false }],
    );
    assert_eq!(phases.len(), 1);
    let items = &phases[0].items;
    assert_eq!(items.len(), 2);
    assert_eq!(items[0].entity, 1);
    assert_eq!(items[1].entity, 2);
    assert_eq!(items[0].pipeline, items[1].pipeline);
    assert_eq!(cache.keys.len(), 1);
    assert_eq!(items[0].sort_key, (-10.0f32).to_bits());
    assert_eq!(items[1].sort_key, (3.0f32).to_bits());
    assert_eq!((items[0].batch_start, items[0].batch_end), (0, 1));
    assert_eq!(items[0].dynamic_offset, None);
}

#[test]
fn unresolvable_hosts_are_skipped() {
    let custom = custom_pipeline();
    let meshes = RenderAssets { meshes: vec![(QUAD_MESH_ID, quad_mesh())] };
    let instances = RenderMesh2dInstances {
        entries: vec![
            (1, RenderMesh2dInstance { mesh_asset_id: QUAD_MESH_ID, translation_z: 0 }),
            (2, RenderMesh2dInstance { mesh_asset_id: 999, translation_z: 0 }),
        ],
    };
    let mut cache = SpecializedMeshPipelines::new();
    let phases = queue_custom(
        DRAW_FUNCTION,
        &custom,
        1,
        &mut cache,
        &meshes,
        &instances,
        &vec![1, 2, 3],
        &vec![ExtractedView { hdr: true }],
    );
    // Entity 2 has no mesh asset, entity 3 no mesh binding: both skipped.
    assert_eq!(phases[0].items.len(), 1);
    assert_eq!(phases[0].items[0].entity, 1);
}

#[test]
fn draw_fails_without_resources_and_issues_nothing() {
    let meshes = RenderAssets { meshes: vec![] };
    let instances = RenderMesh2dInstances { entries: vec![] };
    let entry = mesh_instancing::queue::QueueEntry {
        sort_key: 0,
        entity: 1,
        pipeline: 0,
        draw_function: DRAW_FUNCTION,
        batch_start: 0,
        batch_end: 1,
        dynamic_offset: None,
    };
    let mut pass = TrackedRenderPass::new();
    let result = draw_custom(&entry, 500, 501, None, &meshes, &instances, &mut pass);
    assert_eq!(result, RenderCommandResult::Failure);
    assert!(pass.commands.is_empty());

    let buffer = mesh_instancing::buffer::InstanceBuffer { buffer: 0, length: 0 };
    let result = DrawMeshInstanced::render(&entry, Some(&buffer), &meshes, &instances, &mut pass);
    assert_eq!(result, RenderCommandResult::Failure);
    assert!(pass.commands.is_empty());
}

#[test]
fn zero_instances_draw_succeeds_as_noop() {
    let meshes = RenderAssets { meshes: vec![(QUAD_MESH_ID, quad_mesh())] };
    let instances = RenderMesh2dInstances {
        entries: vec![(1, RenderMesh2dInstance { mesh_asset_id: QUAD_MESH_ID, translation_z: 0 })],
    };
    let entry = mesh_instancing::queue::QueueEntry {
        sort_key: 0,
        entity: 1,
        pipeline: 0,
        draw_function: DRAW_FUNCTION,
        batch_start: 0,
        batch_end: 1,
        dynamic_offset: None,
    };
    let buffer = mesh_instancing::buffer::InstanceBuffer { buffer: 42, length: 0 };
    let mut pass = TrackedRenderPass::new();
    let result = draw_custom(&entry, 500, 501, Some(&buffer), &meshes, &instances, &mut pass);
    assert_eq!(result, RenderCommandResult::Success);
    assert_eq!(
        pass.commands.last(),
        Some(&DrawCommand::DrawIndexed { index_count: 6, instance_count: 0 })
    );
}

fn hsla_to_rgba(hue: f32, saturation: f32, lightness: f32, alpha: f32) -> [f32; 4] {
    let chroma = (1.0 - (2.0 * lightness - 1.0).abs()) * saturation;
    let hue_prime = hue / 60.0;
    let largest_component = chroma * (1.0 - (hue_prime % 2.0 - 1.0).abs());
    let (r_temp, g_temp, b_temp) = if hue_prime < 1.0 {
        (chroma, largest_component, 0.0)
    } else if hue_prime < 2.0 {
        (largest_component, chroma, 0.0)
    } else if hue_prime < 3.0 {
        (0.0, chroma, largest_component)
    } else if hue_prime < 4.0 {
        (0.0, largest_component, chroma)
    } else if hue_prime < 5.0 {
        (largest_component, 0.0, chroma)
    } else {
        (chroma, 0.0, largest_component)
    };
    let lightness_match = lightness - chroma / 2.0;
    [r_temp + lightness_match, g_temp + lightness_match, b_temp + lightness_match, alpha]
}

#[test]
fn grid_of_one_hundred_children_end_to_end() {
    // The host's children sit on a 10 by 10 grid; hue follows the column,
    // saturation the row.
    let mut children: Vec<Child> = Vec::new();
    for xi in 1..=10 {
        for yi in 1..=10 {
            let x = xi as f32 / 10.0;
            let y = yi as f32 / 10.0;
            let rgba = hsla_to_rgba(x * 360.0, y, 0.5, 1.0);
            children.push(Child {
                translation: Vec3Words {
                    x: (x * 10.0 - 5.0).to_bits(),
                    y: (y * 10.0 - 5.0).to_bits(),
                    z: (-10.0f32).to_bits(),
                },
                scale: 1.0f32.to_bits(),
                color: ColorWords {
                    r: rgba[0].to_bits(),
                    g: rgba[1].to_bits(),
                    b: rgba[2].to_bits(),
                    a: rgba[3].to_bits(),
                },
            });
        }
    }

    // Aggregation: 100 records, positions and colors exactly the children's.
    let mut host = InstanceMaterialData(vec![]);
    prepare_buffer(&mut host, &children);
    assert_eq!(host.0.len(), 100);
    for (i, c) in children.iter().enumerate() {
        assert_eq!(host.0[i].position, c.translation);
        assert_eq!(host.0[i].color, c.color);
        let x = (i / 10 + 1) as f32 / 10.0;
        let y = (i % 10 + 1) as f32 / 10.0;
        assert_eq!(f32::from_bits(host.0[i].position.x), x * 10.0 - 5.0);
        assert_eq!(f32::from_bits(host.0[i].position.y), y * 10.0 - 5.0);
        let rgba = hsla_to_rgba(x * 360.0, y, 0.5, 1.0);
        assert_eq!(f32::from_bits(host.0[i].color.r), rgba[0]);
        assert_eq!(f32::from_bits(host.0[i].color.g), rgba[1]);
    }

    // Queueing: exactly one entry for the host in the one view.
    let custom = custom_pipeline();
    let meshes = RenderAssets { meshes: vec![(QUAD_MESH_ID, quad_mesh())] };
    let instances = RenderMesh2dInstances {
        entries: vec![(1, RenderMesh2dInstance { mesh_asset_id: QUAD_MESH_ID, translation_z: (-10.0f32).to_bits() })],
    };
    let mut cache = SpecializedMeshPipelines::new();
    let phases = queue_custom(
        DRAW_FUNCTION,
        &custom,
        1,
        &mut cache,
        &meshes,
        &instances,
        &vec![1],
        &vec![ExtractedView { hdr: false }],
    );
    assert_eq!(phases.len(), 1);
    assert_eq!(phases[0].items.len(), 1);
    let entry = phases[0].items[0];

    // Buffer preparation, then sequencing: exactly one draw call with
    // instance count 100.
    let mut device = RenderDevice::new();
    let prepared = prepare_instance_buffers(&vec![(1, host)], &mut device);
    let instance_buffer = &prepared[0].1;
    assert_eq!(instance_buffer.length, 100);

    let mut pass = TrackedRenderPass::new();
    let result = draw_custom(&entry, 500, 501, Some(instance_buffer), &meshes, &instances, &mut pass);
    assert_eq!(result, RenderCommandResult::Success);
    let draws = pass
        .commands
        .iter()
        .filter(|c| matches!(c, DrawCommand::Draw { .. } | DrawCommand::DrawIndexed { .. }))
        .count();
    assert_eq!(draws, 1);
    assert_eq!(
        pass.commands,
        vec![
            DrawCommand::SetPipeline { pipeline: entry.pipeline },
            DrawCommand::SetBindGroup { index: 0, bind_group: 500 },
            DrawCommand::SetBindGroup { index: 1, bind_group: 501 },
            DrawCommand::SetVertexBuffer { slot: 0, buffer: 900 },
            DrawCommand::SetVertexBuffer { slot: 1, buffer: instance_buffer.buffer },
            DrawCommand::SetIndexBuffer { buffer: 901, index_format: IndexFormat::Uint16 },
            DrawCommand::DrawIndexed { index_count: 6, instance_count: 100 },
        ]
    );
}
