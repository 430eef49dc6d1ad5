//! The frame recorder: the fixed command sequence rendered into each ring
//! slot, built as plain data for the graphics API to record.

use vstd::prelude::*;

verus! {

/// An RGBA colour, eight bits per channel.
#[derive(Clone, Copy, Debug, PartialEq, Eq, Structural)]
pub struct ClearColor {
    pub r: u8,
    pub g: u8,
    pub b: u8,
    pub a: u8,
}

/// The colour every render target is cleared to: opaque blue.
pub open spec fn frame_clear_color() -> ClearColor {
    ClearColor { r: 0, g: 0, b: 255, a: 255 }
}

/// The image of one ring slot, in the ring of the given generation.
#[derive(Clone, Copy, Debug, PartialEq, Eq, Structural)]
pub struct RenderTarget {
    pub ring_generation: u64,
    pub slot: u32,
}

/// A pipeline, tagged with its kind and identified by the generation it was
/// built in.
#[derive(Clone, Copy, Debug, PartialEq, Eq, Structural)]
pub enum PipelineBinding {
    Graphics(u64),
    Compute(u64),
}

/// What a frame draws: the number of indices in the bound index buffer.
#[derive(Clone, Copy, Debug, PartialEq, Eq, Structural)]
pub struct DrawData {
    pub index_count: u32,
}

/// One recorded command.
#[derive(Clone, Copy, Debug, PartialEq, Eq, Structural)]
pub enum Command {
    BeginRenderTarget { target: RenderTarget, clear: ClearColor },
    BindPipeline(PipelineBinding),
    BindDrawBuffers,
    BindDescriptorSet { set_index: u32, descriptor_set: u64 },
    DrawIndexed { index_count: u32, instance_count: u32, first_index: u32, first_instance: u32 },
    Dispatch { x: u32, y: u32, z: u32 },
    EndRenderTarget,
}

/// The fixed command shape of a frame: clear the slot's image, bind the
/// pipeline and the buffers, draw the whole index range once, finish.
pub open spec fn frame_commands(target: RenderTarget, pipeline: u64, draw: DrawData) -> Seq<Command> {
    seq![
        Command::BeginRenderTarget { target, clear: frame_clear_color() },
        Command::BindPipeline(PipelineBinding::Graphics(pipeline)),
        Command::BindDrawBuffers,
        Command::DrawIndexed {
            index_count: draw.index_count,
            instance_count: 1,
            first_index: 0,
            first_instance: 0,
        },
        Command::EndRenderTarget,
    ]
}

/// The immutable command sequence executed to render into one ring slot.
#[derive(Clone, Debug, PartialEq, Eq)]
pub struct FrameProgram {
    pub target: RenderTarget,
    pub pipeline: u64,
    pub commands: Vec<Command>,
}

pub struct FrameProgramView {
    pub target: RenderTarget,
    pub pipeline: u64,
    pub commands: Seq<Command>,
}

impl View for FrameProgram {
    type V = FrameProgramView;

    open spec fn view(&self) -> FrameProgramView {
        FrameProgramView { target: self.target, pipeline: self.pipeline, commands: self.commands@ }
    }
}

/// The program for the slot `slot` of the ring of generation `ring_generation`.
pub open spec fn program_for(ring_generation: u64, slot: u32, pipeline: u64, draw: DrawData) -> FrameProgramView {
    let target = RenderTarget { ring_generation, slot };
    FrameProgramView { target, pipeline, commands: frame_commands(target, pipeline, draw) }
}

/// A full program set: one program per slot of the ring, in slot order, all
/// built against the same ring and pipeline.
pub open spec fn is_program_set(
    programs: Seq<FrameProgram>,
    ring_generation: u64,
    slot_count: u32,
    pipeline: u64,
    draw: DrawData,
) -> bool {
    &&& programs.len() == slot_count
    &&& forall|i: int|
        0 <= i < slot_count ==> #[trigger] programs[i]@ == program_for(ring_generation, i as u32, pipeline, draw)
}

/// Builds the program for one render target; a pure function of its inputs.
pub fn build_program(target: RenderTarget, pipeline: u64, draw: DrawData) -> (p: FrameProgram)
    ensures
        p@ == program_for(target.ring_generation, target.slot, pipeline, draw),
{
    let mut commands: Vec<Command> = Vec::new();
    commands.push(
        Command::BeginRenderTarget { target, clear: ClearColor { r: 0, g: 0, b: 255, a: 255 } },
    );
    commands.push(Command::BindPipeline(PipelineBinding::Graphics(pipeline)));
    commands.push(Command::BindDrawBuffers);
    commands.push(
        Command::DrawIndexed {
            index_count: draw.index_count,
            instance_count: 1,
            first_index: 0,
            first_instance: 0,
        },
    );
    commands.push(Command::EndRenderTarget);
    assert(commands@ =~= frame_commands(target, pipeline, draw));
    FrameProgram { target, pipeline, commands }
}

/// Builds the whole program set for a ring, every slot against the same
/// pipeline. The set is handed back only once complete.
pub fn build_program_set(ring_generation: u64, slot_count: u32, pipeline: u64, draw: DrawData) -> (r: Vec<FrameProgram>)
    ensures
        is_program_set(r@, ring_generation, slot_count, pipeline, draw),
{
    let mut r: Vec<FrameProgram> = Vec::new();
    let mut slot: u32 = 0;
    while slot < slot_count
        invariant
            slot <= slot_count,
            r@.len() == slot,
            forall|i: int| 0 <= i < slot ==> #[trigger] r@[i]@ == program_for(ring_generation, i as u32, pipeline, draw),
        decreases slot_count - slot,
    {
        let p = build_program(RenderTarget { ring_generation, slot }, pipeline, draw);
        r.push(p);
        slot = slot + 1;
    }
    r
}

/// The commands of a compute pass: bind the compute pipeline and one
/// descriptor set, then dispatch the given work-group counts.
pub open spec fn compute_commands(pipeline: u64, set_index: u32, descriptor_set: u64, x: u32, y: u32, z: u32) -> Seq<Command> {
    seq![
        Command::BindPipeline(PipelineBinding::Compute(pipeline)),
        Command::BindDescriptorSet { set_index, descriptor_set },
        Command::Dispatch { x, y, z },
    ]
}

pub fn record_compute_pipeline(pipeline: u64, set_index: u32, descriptor_set: u64, x: u32, y: u32, z: u32) -> (r: Vec<Command>)
    ensures
        r@ == compute_commands(pipeline, set_index, descriptor_set, x, y, z),
{
    let mut r: Vec<Command> = Vec::new();
    r.push(Command::BindPipeline(PipelineBinding::Compute(pipeline)));
    r.push(Command::BindDescriptorSet { set_index, descriptor_set });
    r.push(Command::Dispatch { x, y, z });
    assert(r@ =~= compute_commands(pipeline, set_index, descriptor_set, x, y, z));
    r
}

} // verus!
