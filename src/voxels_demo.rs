use crate::octree::{unpack, Chunk, Color, CHUNK_VOLUME};
use vstd::prelude::*;

verus! {

/// Width and height of a compute workgroup, in texels.
pub const WORKGROUP_WIDTH: u32 = 8;

/// Width and height of the intermediate image that the compute pass writes.
pub const TARGET_SIZE: u32 = 1024;

/// Bytes of the uploaded volume: four per cell.
pub const VOLUME_BUFFER_SIZE: u64 = 16384;

/// Bytes of the push constant block: the viewport's width and height.
pub const PUSH_CONSTANT_SIZE: u32 = 8;

/// Vertices of the full-screen quad: two triangles, no index buffer.
pub const QUAD_VERTEX_COUNT: u32 = 6;

/// Commands in the plan of one drawn frame.
pub const FRAME_LEN: usize = 15;

/// Pixel dimensions of the image being drawn into.
#[derive(Clone, Copy, Debug, PartialEq, Eq, Structural)]
pub struct Viewport {
    pub width: u32,
    pub height: u32,
}

/// The four bytes of a colour in the uploaded buffer, red first.
pub open spec fn color_bytes(c: Color) -> Seq<u8> {
    seq![c.red(), c.green(), c.blue(), c.alpha()]
}

/// The bytes of a run of colours, each laid out by [`color_bytes`].
pub open spec fn colors_bytes(cs: Seq<Color>) -> Seq<u8>
    decreases cs.len(),
{
    if cs.len() == 0 {
        seq![]
    } else {
        colors_bytes(cs.drop_last()) + color_bytes(cs.last())
    }
}

/// A little-endian `u32`, lowest byte first.
pub open spec fn le_bytes(v: u32) -> Seq<u8> {
    seq![unpack(v).0, unpack(v).1, unpack(v).2, unpack(v).3]
}

pub proof fn lemma_colors_bytes_len(cs: Seq<Color>)
    ensures
        colors_bytes(cs).len() == 4 * cs.len(),
    decreases cs.len(),
{
    if cs.len() > 0 {
        lemma_colors_bytes_len(cs.drop_last());
    }
}

/// The payload of the volume buffer: every cell's colour in index order, four
/// bytes each, red first.
pub fn volume_bytes(chunk: &Chunk) -> (bytes: Vec<u8>)
    ensures
        bytes@ == colors_bytes(chunk.colors@),
        bytes@.len() == VOLUME_BUFFER_SIZE,
{
    let mut out: Vec<u8> = Vec::new();
    let mut i: usize = 0;
    while i < CHUNK_VOLUME
        invariant
            0 <= i <= CHUNK_VOLUME,
            chunk.colors@.len() == CHUNK_VOLUME,
            out@ == colors_bytes(chunk.colors@.subrange(0, i as int)),
        decreases CHUNK_VOLUME - i,
    {
        let b = chunk.colors[i].to_rgba8();
        out.push(b[0]);
        out.push(b[1]);
        out.push(b[2]);
        out.push(b[3]);
        proof {
            let next = chunk.colors@.subrange(0, i + 1);
            assert(next.drop_last() =~= chunk.colors@.subrange(0, i as int));
            assert(next.last() == chunk.colors@[i as int]);
            assert(out@ =~= colors_bytes(next));
        }
        i = i + 1;
    }
    proof {
        assert(chunk.colors@.subrange(0, CHUNK_VOLUME as int) =~= chunk.colors@);
        lemma_colors_bytes_len(chunk.colors@);
    }
    out
}

/// Workgroups to dispatch along each axis for a viewport: each dimension
/// divided by the workgroup width, rounded down, and one layer. Texels of a
/// partial band at the right or bottom edge are not dispatched.
pub fn workgroup_counts(viewport: Viewport) -> (counts: (u32, u32, u32))
    ensures
        counts == (viewport.width / WORKGROUP_WIDTH, viewport.height / WORKGROUP_WIDTH, 1u32),
        viewport.width - WORKGROUP_WIDTH * counts.0 == viewport.width % WORKGROUP_WIDTH,
        viewport.height - WORKGROUP_WIDTH * counts.1 == viewport.height % WORKGROUP_WIDTH,
{
    (viewport.width / WORKGROUP_WIDTH, viewport.height / WORKGROUP_WIDTH, 1)
}

/// The push constant block: width then height, each a little-endian `u32`.
pub fn viewport_push_constants(viewport: Viewport) -> (data: [u8; 8])
    ensures
        data@ == le_bytes(viewport.width) + le_bytes(viewport.height),
{
    let w = viewport.width;
    let h = viewport.height;
    let data = [
        (w % 0x100) as u8,
        ((w / 0x100) % 0x100) as u8,
        ((w / 0x1_0000) % 0x100) as u8,
        (w / 0x100_0000) as u8,
        (h % 0x100) as u8,
        ((h / 0x100) % 0x100) as u8,
        ((h / 0x1_0000) % 0x100) as u8,
        (h / 0x100_0000) as u8,
    ];
    assert(data@ =~= le_bytes(viewport.width) + le_bytes(viewport.height));
    data
}

/// A programmable stage of a pipeline.
#[derive(Clone, Copy, Debug, PartialEq, Eq, Structural)]
pub enum ShaderStage {
    Vertex,
    Fragment,
    Compute,
}

/// What a binding slot of a pipeline expects. Images are four 8-bit
/// normalised channels, two-dimensional.
#[derive(Clone, Copy, Debug, PartialEq, Eq, Structural)]
pub enum BindingKind {
    /// A structured buffer of at least `min_size` bytes.
    StorageBuffer { read_only: bool, min_size: u64 },
    /// An image that the kernel both reads and writes.
    ReadWriteImage,
    /// An image read through a sampler, with filtering allowed.
    SampledImage,
    /// A filtering sampler.
    FilteringSampler,
}

/// One entry of a binding layout.
#[derive(Clone, Copy, Debug, PartialEq, Eq, Structural)]
pub struct Binding {
    pub slot: u32,
    pub stage: ShaderStage,
    pub kind: BindingKind,
}

pub open spec fn spec_compute_bindings() -> Seq<Binding> {
    seq![
        Binding {
            slot: 0,
            stage: ShaderStage::Compute,
            kind: BindingKind::StorageBuffer { read_only: true, min_size: VOLUME_BUFFER_SIZE },
        },
        Binding { slot: 1, stage: ShaderStage::Compute, kind: BindingKind::ReadWriteImage },
    ]
}

pub open spec fn spec_composite_bindings() -> Seq<Binding> {
    seq![
        Binding { slot: 0, stage: ShaderStage::Fragment, kind: BindingKind::SampledImage },
        Binding { slot: 1, stage: ShaderStage::Fragment, kind: BindingKind::FilteringSampler },
    ]
}

/// The compute pass's layout: the volume as a read-only buffer of at least
/// the whole volume's bytes, then the intermediate image for reading and
/// writing.
pub fn compute_bindings() -> (layout: Vec<Binding>)
    ensures
        layout@ == spec_compute_bindings(),
{
    let mut layout: Vec<Binding> = Vec::new();
    layout.push(
        Binding {
            slot: 0,
            stage: ShaderStage::Compute,
            kind: BindingKind::StorageBuffer { read_only: true, min_size: VOLUME_BUFFER_SIZE },
        },
    );
    layout.push(Binding { slot: 1, stage: ShaderStage::Compute, kind: BindingKind::ReadWriteImage });
    assert(layout@ =~= spec_compute_bindings());
    layout
}

/// The composite pass's layout: the intermediate image, sampled, and a
/// filtering sampler, both seen by the fragment stage.
pub fn composite_bindings() -> (layout: Vec<Binding>)
    ensures
        layout@ == spec_composite_bindings(),
{
    let mut layout: Vec<Binding> = Vec::new();
    layout.push(Binding { slot: 0, stage: ShaderStage::Fragment, kind: BindingKind::SampledImage });
    layout.push(
        Binding { slot: 1, stage: ShaderStage::Fragment, kind: BindingKind::FilteringSampler },
    );
    assert(layout@ =~= spec_composite_bindings());
    layout
}

/// Whether a buffer of `size` bytes may be bound as the volume: it must hold
/// at least the whole volume.
pub fn volume_buffer_fits(size: u64) -> (ok: bool)
    ensures
        ok == (size >= VOLUME_BUFFER_SIZE),
{
    size >= VOLUME_BUFFER_SIZE
}

/// One step of recording, submitting and presenting a frame.
#[derive(Clone, Copy, Debug, PartialEq, Eq, Structural)]
pub enum FrameCommand {
    BeginComputePass,
    SetComputePipeline,
    /// Binds the volume buffer at slot 0 and the intermediate image at slot 1.
    BindVolumeAndTarget,
    /// Sets the push constant block, seen by `stage`, to
    /// [`viewport_push_constants`] of `viewport`.
    PushViewport { stage: ShaderStage, viewport: Viewport },
    Dispatch { x: u32, y: u32, z: u32 },
    EndComputePass,
    /// Starts drawing into the acquired image, cleared to opaque black.
    BeginCompositePass,
    SetCompositePipeline,
    /// Binds the intermediate image at slot 0 and the sampler at slot 1.
    BindTargetAndSampler,
    SetQuadVertices,
    Draw { vertex_count: u32, instance_count: u32 },
    EndCompositePass,
    Submit,
    Present,
}

/// The `i`th command of a frame drawn into an image of size `v`: the compute
/// pass, then the composite pass, in one submission, then the present.
pub open spec fn frame_command_at(v: Viewport, i: int) -> FrameCommand {
    if i == 0 {
        FrameCommand::BeginComputePass
    } else if i == 1 {
        FrameCommand::SetComputePipeline
    } else if i == 2 {
        FrameCommand::BindVolumeAndTarget
    } else if i == 3 {
        FrameCommand::PushViewport { stage: ShaderStage::Compute, viewport: v }
    } else if i == 4 {
        FrameCommand::Dispatch {
            x: v.width / WORKGROUP_WIDTH,
            y: v.height / WORKGROUP_WIDTH,
            z: 1,
        }
    } else if i == 5 {
        FrameCommand::EndComputePass
    } else if i == 6 {
        FrameCommand::BeginCompositePass
    } else if i == 7 {
        FrameCommand::SetCompositePipeline
    } else if i == 8 {
        FrameCommand::BindTargetAndSampler
    } else if i == 9 {
        FrameCommand::PushViewport { stage: ShaderStage::Vertex, viewport: v }
    } else if i == 10 {
        FrameCommand::SetQuadVertices
    } else if i == 11 {
        FrameCommand::Draw { vertex_count: QUAD_VERTEX_COUNT, instance_count: 1 }
    } else if i == 12 {
        FrameCommand::EndCompositePass
    } else if i == 13 {
        FrameCommand::Submit
    } else {
        FrameCommand::Present
    }
}

/// The plan of a frame drawn into an image of size `v`.
pub open spec fn frame_plan(v: Viewport) -> Seq<FrameCommand> {
    Seq::new(FRAME_LEN as nat, |i: int| frame_command_at(v, i))
}

/// Records the commands of one frame drawn into an image of size `viewport`:
/// the compute pass over the volume, the composite pass onto the image, one
/// submission and one present.
pub fn plan_frame(viewport: Viewport) -> (commands: Vec<FrameCommand>)
    ensures
        commands@ == frame_plan(viewport),
{
    let (x, y, z) = workgroup_counts(viewport);
    let mut commands: Vec<FrameCommand> = Vec::new();
    commands.push(FrameCommand::BeginComputePass);
    commands.push(FrameCommand::SetComputePipeline);
    commands.push(FrameCommand::BindVolumeAndTarget);
    commands.push(FrameCommand::PushViewport { stage: ShaderStage::Compute, viewport });
    commands.push(FrameCommand::Dispatch { x, y, z });
    commands.push(FrameCommand::EndComputePass);
    commands.push(FrameCommand::BeginCompositePass);
    commands.push(FrameCommand::SetCompositePipeline);
    commands.push(FrameCommand::BindTargetAndSampler);
    commands.push(FrameCommand::PushViewport { stage: ShaderStage::Vertex, viewport });
    commands.push(FrameCommand::SetQuadVertices);
    commands.push(
        FrameCommand::Draw { vertex_count: QUAD_VERTEX_COUNT, instance_count: 1 },
    );
    commands.push(FrameCommand::EndCompositePass);
    commands.push(FrameCommand::Submit);
    commands.push(FrameCommand::Present);
    assert(commands@ =~= frame_plan(viewport));
    commands
}

/// What to do on a draw request, given the size of the image that was
/// acquired, or `None` where acquisition failed: the frame's plan, or no
/// command at all, so that a failed acquisition submits and presents nothing.
pub fn draw_request(acquired: Option<Viewport>) -> (commands: Vec<FrameCommand>)
    ensures
        acquired is None ==> commands@.len() == 0,
        acquired is Some ==> commands@ == frame_plan(acquired.unwrap()),
{
    match acquired {
        Some(viewport) => plan_frame(viewport),
        None => Vec::new(),
    }
}

/// A drawn frame holds exactly one dispatch, sized by [`workgroup_counts`];
/// exactly one draw, of the six quad vertices as a single instance; exactly
/// one submission and exactly one present; and they come in that order, the
/// compute pass wholly before the composite pass.
pub proof fn lemma_frame_plan_shape(v: Viewport)
    ensures
        frame_plan(v).len() == FRAME_LEN,
        forall|i: int|
            0 <= i < FRAME_LEN ==> (#[trigger] frame_plan(v)[i] is Dispatch <==> i == 4),
        frame_plan(v)[4] == (FrameCommand::Dispatch {
            x: v.width / WORKGROUP_WIDTH,
            y: v.height / WORKGROUP_WIDTH,
            z: 1,
        }),
        forall|i: int| 0 <= i < FRAME_LEN ==> (#[trigger] frame_plan(v)[i] is Draw <==> i == 11),
        frame_plan(v)[11] == (FrameCommand::Draw { vertex_count: 6, instance_count: 1 }),
        forall|i: int|
            0 <= i < FRAME_LEN ==> (#[trigger] frame_plan(v)[i] is EndComputePass <==> i == 5),
        forall|i: int|
            0 <= i < FRAME_LEN ==> (#[trigger] frame_plan(v)[i] is BeginCompositePass <==> i
                == 6),
        forall|i: int| 0 <= i < FRAME_LEN ==> (#[trigger] frame_plan(v)[i] is Submit <==> i == 13),
        forall|i: int| 0 <= i < FRAME_LEN ==> (#[trigger] frame_plan(v)[i] is Present <==> i == 14),
{
}

} // verus!
