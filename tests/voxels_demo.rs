use engine::octree::{Chunk, Color};
use engine::voxels_demo::{
    composite_bindings, compute_bindings, draw_request, plan_frame, viewport_push_constants,
    volume_buffer_fits, volume_bytes, workgroup_counts, Binding, BindingKind, FrameCommand,
    ShaderStage, Viewport, FRAME_LEN, QUAD_VERTEX_COUNT, VOLUME_BUFFER_SIZE,
};

#[test]
fn dispatch_counts_for_exact_multiple() {
    assert_eq!(workgroup_counts(Viewport { width: 1024, height: 768 }), (128, 96, 1));
}

#[test]
fn dispatch_counts_truncate() {
    assert_eq!(workgroup_counts(Viewport { width: 1023, height: 765 }), (127, 95, 1));
    assert_eq!(1023 - 8 * 127, 7);
    assert_eq!(765 - 8 * 95, 5);
}

#[test]
fn dispatch_counts_below_one_workgroup() {
    assert_eq!(workgroup_counts(Viewport { width: 7, height: 0 }), (0, 0, 1));
}

#[test]
fn push_constants_are_little_endian() {
    assert_eq!(
        viewport_push_constants(Viewport { width: 800, height: 600 }),
        [0x20, 0x03, 0, 0, 0x58, 0x02, 0, 0]
    );
    assert_eq!(
        viewport_push_constants(Viewport { width: u32::MAX, height: 0x0102_0304 }),
        [0xFF, 0xFF, 0xFF, 0xFF, 4, 3, 2, 1]
    );
}

#[test]
fn volume_payload_layout() {
    let mut chunk = Chunk::all_same(Color(0));
    chunk.colors[1] = Color::rgba8(9, 8, 7, 6);
    chunk.colors[4095] = Color::rgb8(1, 2, 3);
    let bytes = volume_bytes(&chunk);
    assert_eq!(bytes.len() as u64, VOLUME_BUFFER_SIZE);
    assert_eq!(&bytes[0..8], &[0, 0, 0, 0, 9, 8, 7, 6]);
    assert_eq!(&bytes[16380..], &[1, 2, 3, 255]);
}

#[test]
fn sphere_payload_matches_colors() {
    let chunk = Chunk::new_sphere();
    let bytes = volume_bytes(&chunk);
    for (i, c) in chunk.colors.iter().enumerate() {
        assert_eq!(&bytes[4 * i..4 * i + 4], &c.0.to_le_bytes());
    }
}

#[test]
fn volume_buffer_minimum() {
    assert!(volume_buffer_fits(16384));
    assert!(volume_buffer_fits(20000));
    assert!(!volume_buffer_fits(16383));
    assert!(!volume_buffer_fits(0));
}

#[test]
fn binding_layouts() {
    assert_eq!(
        compute_bindings(),
        vec![
            Binding {
                slot: 0,
                stage: ShaderStage::Compute,
                kind: BindingKind::StorageBuffer { read_only: true, min_size: 4096 * 4 },
            },
            Binding { slot: 1, stage: ShaderStage::Compute, kind: BindingKind::ReadWriteImage },
        ]
    );
    assert_eq!(
        composite_bindings(),
        vec![
            Binding { slot: 0, stage: ShaderStage::Fragment, kind: BindingKind::SampledImage },
            Binding { slot: 1, stage: ShaderStage::Fragment, kind: BindingKind::FilteringSampler },
        ]
    );
}

fn position(commands: &[FrameCommand], f: impl Fn(&FrameCommand) -> bool) -> Vec<usize> {
    commands.iter().enumerate().filter(|(_, c)| f(c)).map(|(i, _)| i).collect()
}

#[test]
fn one_frame_end_to_end() {
    let chunk = Chunk::new_sphere();
    assert_eq!(volume_bytes(&chunk).len(), 16384);
    let commands = draw_request(Some(Viewport { width: 800, height: 600 }));
    assert_eq!(commands.len(), FRAME_LEN);
    let dispatches = position(&commands, |c| matches!(c, FrameCommand::Dispatch { .. }));
    let draws = position(&commands, |c| matches!(c, FrameCommand::Draw { .. }));
    let submits = position(&commands, |c| matches!(c, FrameCommand::Submit));
    let presents = position(&commands, |c| matches!(c, FrameCommand::Present));
    assert_eq!(dispatches.len(), 1);
    assert_eq!(draws.len(), 1);
    assert_eq!(submits.len(), 1);
    assert_eq!(presents.len(), 1);
    assert_eq!(commands[dispatches[0]], FrameCommand::Dispatch { x: 100, y: 75, z: 1 });
    assert_eq!(commands[draws[0]], FrameCommand::Draw { vertex_count: 6, instance_count: 1 });
    assert_eq!(QUAD_VERTEX_COUNT, 6);
    assert!(dispatches[0] < draws[0] && draws[0] < submits[0] && submits[0] < presents[0]);
}

#[test]
fn frame_plan_pushes_viewport_to_both_passes() {
    let v = Viewport { width: 1024, height: 768 };
    let commands = plan_frame(v);
    assert_eq!(
        position(&commands, |c| matches!(c, FrameCommand::PushViewport { .. })).len(),
        2
    );
    assert!(commands.contains(&FrameCommand::PushViewport { stage: ShaderStage::Compute, viewport: v }));
    assert!(commands.contains(&FrameCommand::PushViewport { stage: ShaderStage::Vertex, viewport: v }));
    assert_eq!(commands[0], FrameCommand::BeginComputePass);
    assert_eq!(commands[6], FrameCommand::BeginCompositePass);
}

#[test]
fn failed_acquisition_records_nothing() {
    assert!(draw_request(None).is_empty());
}
