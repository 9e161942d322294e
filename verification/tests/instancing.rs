use mesh_instancing::aggregate::prepare_buffer;
use mesh_instancing::aggregate::resolve_children;
use mesh_instancing::aggregate::Child;
use mesh_instancing::aggregate::ChildStore;
use mesh_instancing::buffer::prepare_instance_buffers;
use mesh_instancing::buffer::read_back_records;
use mesh_instancing::buffer::RenderDevice;
use mesh_instancing::buffer::BUFFER_USAGE_COPY_DST;
use mesh_instancing::buffer::BUFFER_USAGE_VERTEX;
use mesh_instancing::extract::extract_component;
use mesh_instancing::extract::InstanceMaterialData;
use mesh_instancing::record::ColorWords;
use mesh_instancing::record::InstanceRecord;
use mesh_instancing::record::Vec3Words;
use mesh_instancing::record::RECORD_STRIDE;

fn vec3(x: f32, y: f32, z: f32) -> Vec3Words {
    Vec3Words { x: x.to_bits(), y: y.to_bits(), z: z.to_bits() }
}

fn color(r: f32, g: f32, b: f32, a: f32) -> ColorWords {
    ColorWords { r: r.to_bits(), g: g.to_bits(), b: b.to_bits(), a: a.to_bits() }
}

fn record(x: f32, y: f32, z: f32, s: f32, c: [f32; 4]) -> InstanceRecord {
    InstanceRecord {
        position: vec3(x, y, z),
        scale: s.to_bits(),
        color: color(c[0], c[1], c[2], c[3]),
    }
}

fn record_floats(r: &InstanceRecord) -> [f32; 8] {
    [
        f32::from_bits(r.position.x),
        f32::from_bits(r.position.y),
        f32::from_bits(r.position.z),
        f32::from_bits(r.scale),
        f32::from_bits(r.color.r),
        f32::from_bits(r.color.g),
        f32::from_bits(r.color.b),
        f32::from_bits(r.color.a),
    ]
}

#[test]
fn extract_deep_copies_records() {
    let data = InstanceMaterialData(vec![
        record(1.0, 2.0, 3.0, 0.5, [0.1, 0.2, 0.3, 1.0]),
        record(-4.0, 5.5, -10.0, 2.0, [1.0, 0.0, 0.0, 0.5]),
    ]);
    let extracted = extract_component(Some(&data)).expect("component present");
    assert_eq!(extracted.0.len(), data.0.len());
    for i in 0..data.0.len() {
        assert_eq!(extracted.0[i], data.0[i]);
    }
}

#[test]
fn extract_skips_missing_component() {
    assert!(extract_component(None).is_none());
}

#[test]
fn aggregation_is_faithful_and_order_stable() {
    let children = vec![
        Child { translation: vec3(1.0, 2.0, 3.0), scale: 1.0f32.to_bits(), color: color(1.0, 0.0, 0.0, 1.0) },
        Child { translation: vec3(-1.0, 0.0, 9.5), scale: 0.25f32.to_bits(), color: color(0.0, 1.0, 0.0, 1.0) },
        Child { translation: vec3(7.0, -8.0, 0.0), scale: 3.0f32.to_bits(), color: color(0.0, 0.0, 1.0, 0.25) },
    ];
    let mut host = InstanceMaterialData(vec![record(9.0, 9.0, 9.0, 9.0, [9.0, 9.0, 9.0, 9.0])]);
    prepare_buffer(&mut host, &children);
    assert_eq!(host.0.len(), children.len());
    for (i, c) in children.iter().enumerate() {
        assert_eq!(host.0[i].position, c.translation);
        assert_eq!(host.0[i].scale, c.scale);
        assert_eq!(host.0[i].color, c.color);
    }
}

#[test]
fn aggregation_twice_gives_identical_buffers() {
    let children = vec![
        Child { translation: vec3(0.5, 0.5, -1.0), scale: 1.0f32.to_bits(), color: color(0.3, 0.6, 0.9, 1.0) },
        Child { translation: vec3(2.5, -0.5, 4.0), scale: 2.0f32.to_bits(), color: color(0.9, 0.6, 0.3, 1.0) },
    ];
    let mut first = InstanceMaterialData(vec![]);
    prepare_buffer(&mut first, &children);
    let mut second = InstanceMaterialData(vec![]);
    prepare_buffer(&mut second, &children);
    assert_eq!(first.0, second.0);
    // A second run over the same host must also leave the same contents.
    let snapshot = first.0.clone();
    prepare_buffer(&mut first, &children);
    assert_eq!(first.0, snapshot);
}

#[test]
fn zero_children_produce_zero_length_buffer() {
    let mut host = InstanceMaterialData(vec![record(1.0, 1.0, 1.0, 1.0, [1.0, 1.0, 1.0, 1.0])]);
    prepare_buffer(&mut host, &vec![]);
    assert!(host.0.is_empty());

    let mut device = RenderDevice::new();
    let prepared = prepare_instance_buffers(&vec![(7, host)], &mut device);
    assert_eq!(prepared.len(), 1);
    assert_eq!(prepared[0].0, 7);
    assert_eq!(prepared[0].1.length, 0);
    assert!(device.read_buffer(prepared[0].1.buffer).is_empty());
}

#[test]
fn uploaded_bytes_round_trip() {
    let records = vec![
        record(1.0, -2.0, 3.5, 0.75, [0.25, 0.5, 0.75, 1.0]),
        record(-10.0, 0.0, 42.0, 2.0, [0.0, 0.0, 0.0, 0.0]),
        record(0.1, 0.2, 0.3, 0.4, [0.5, 0.6, 0.7, 0.8]),
    ];
    let mut device = RenderDevice::new();
    let prepared = prepare_instance_buffers(
        &vec![(1, InstanceMaterialData(records.clone()))],
        &mut device,
    );
    let instance_buffer = &prepared[0].1;
    assert_eq!(instance_buffer.length, records.len());
    assert_eq!(device.buffer_usage(instance_buffer.buffer), BUFFER_USAGE_VERTEX | BUFFER_USAGE_COPY_DST);

    // The uploaded bytes are exactly the tightly packed little-endian image
    // of the records, byte for byte what casting the floats produces.
    let uploaded = device.read_buffer(instance_buffer.buffer);
    assert_eq!(uploaded.len(), RECORD_STRIDE * records.len());
    let mut expected: Vec<u8> = Vec::new();
    for r in &records {
        let floats = record_floats(r);
        expected.extend_from_slice(bytemuck::cast_slice::<f32, u8>(&floats));
    }
    assert_eq!(uploaded, &expected);

    // Reading the buffer back yields the records that were written.
    let read_back = read_back_records(uploaded, instance_buffer.length);
    assert_eq!(read_back, records);
}

#[test]
fn record_layout_is_fixed_and_little_endian() {
    let r = InstanceRecord {
        position: Vec3Words { x: 0x0403_0201, y: 0x0807_0605, z: 0x0C0B_0A09 },
        scale: 0x100F_0E0D,
        color: ColorWords {
            r: 0x1413_1211,
            g: 0x1817_1615,
            b: 0x1C1B_1A19,
            a: 0x201F_1E1D,
        },
    };
    let mut device = RenderDevice::new();
    let prepared = prepare_instance_buffers(
        &vec![(0, InstanceMaterialData(vec![r]))],
        &mut device,
    );
    let bytes = device.read_buffer(prepared[0].1.buffer);
    let expected: Vec<u8> = (1..=32).collect();
    assert_eq!(bytes, &expected);
}

#[test]
fn children_resolve_in_declared_order() {
    let store = ChildStore {
        entries: vec![
            (10, Child { translation: vec3(1.0, 0.0, 0.0), scale: 1.0f32.to_bits(), color: color(1.0, 1.0, 1.0, 1.0) }),
            (20, Child { translation: vec3(2.0, 0.0, 0.0), scale: 1.0f32.to_bits(), color: color(0.5, 0.5, 0.5, 1.0) }),
            (30, Child { translation: vec3(3.0, 0.0, 0.0), scale: 1.0f32.to_bits(), color: color(0.0, 0.0, 0.0, 1.0) }),
        ],
    };
    let resolved = resolve_children(&vec![30, 10], &store);
    assert_eq!(resolved.len(), 2);
    assert_eq!(resolved[0].translation, vec3(3.0, 0.0, 0.0));
    assert_eq!(resolved[1].translation, vec3(1.0, 0.0, 0.0));
}
