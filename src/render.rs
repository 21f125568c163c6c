use vstd::prelude::*;

use crate::mesh_data::{check_mesh, mesh_check, MeshError};

verus! {

/// Where the renderer stands within a frame.
#[derive(Clone, Copy, Debug, PartialEq, Eq, Structural)]
pub enum RenderStage {
    Stopped,
    Deferred,
    Ambient,
    Directional,
    NeedsRedraw,
}

/// What the presentation engine answered when asked for the next image.
#[derive(Clone, Copy, Debug, PartialEq, Eq, Structural)]
pub enum AcquireOutcome {
    /// Image `image` was acquired; `suboptimal` when the swapchain no longer
    /// matches the surface exactly but can still be presented to.
    Acquired { image: usize, suboptimal: bool },
    /// The swapchain no longer matches the surface: nothing was acquired.
    OutOfDate,
}

/// What the presentation engine answered when the frame was handed to it.
#[derive(Clone, Copy, Debug, PartialEq, Eq, Structural)]
pub enum PresentOutcome {
    Presented,
    /// The swapchain went out of date while presenting.
    OutOfDate,
    /// Any other failure of the completion handle.
    Failed,
}

/// The work the graphics backend carries out after a call.
#[derive(Clone, Copy, Debug, PartialEq, Eq, Structural)]
pub enum FrameCommand {
    /// Nothing to record.
    Idle,
    /// Drop the command buffer being recorded; this frame is not rendered.
    Discard,
    /// Drop the command buffer being recorded and rebuild the swapchain, the
    /// size-dependent attachments and the projection; then report the result
    /// with `swapchain_rebuilt`.
    Rebuild,
    /// Acquire the next swapchain image; then report the answer with `acquired`.
    Acquire,
    /// Begin a command buffer and open the render pass on framebuffer `image`,
    /// clearing its four attachments.
    BeginPass { image: usize },
    /// Issue one indexed draw with the geometry pipeline, the model matrix
    /// written to slot `slot` of the per-object uniform pool.
    DrawGeometry { slot: u64 },
    /// The mesh cannot be drawn with 16-bit indices: nothing is recorded for
    /// it and the frame goes on.
    Rejected { error: MeshError },
    /// Move to the lighting subpass and draw the ambient full-screen quad.
    DrawAmbient,
    /// Draw one additive full-screen quad for a light, its parameters written
    /// to slot `slot` of the per-light uniform pool.
    DrawDirectional { slot: u64 },
    /// End the render pass, submit the command buffer and present image `image`;
    /// then report the answer with `presented`.
    Submit { image: usize },
    /// Replace the previous frame's completion handle by one that is already
    /// complete, and rebuild the swapchain first when `rebuild` holds (then
    /// report with `swapchain_rebuilt`).
    Recover { rebuild: bool },
}

/// One call into the frame sequencer, as the laws below speak of it.
pub enum FrameOp {
    Start,
    Acquired(AcquireOutcome),
    /// A geometry call on a mesh whose check gave this verdict.
    Geometry(Result<(), MeshError>),
    Ambient,
    Directional,
    Finish,
    Presented(PresentOutcome),
    RecreateSwapchain,
    SwapchainRebuilt(bool),
}

/// The mathematical state of a `FrameSequencer`.
pub struct FrameState {
    pub stage: RenderStage,
    /// A command buffer is being recorded into.
    pub recording: bool,
    /// A suboptimal acquire asked for a rebuild at the next `start`.
    pub redraw_scheduled: bool,
    /// The swapchain image of the frame being recorded.
    pub image: usize,
    /// The next free slot of the per-object uniform pool.
    pub model_slot: u64,
    /// The next free slot of the per-light uniform pool.
    pub light_slot: u64,
}

/// The slot that a uniform pool hands out after `slot`.
pub open spec fn slot_after(slot: u64) -> u64 {
    if slot == u64::MAX {
        0
    } else {
        (slot + 1) as u64
    }
}

/// A call in the wrong stage: the frame is dropped.
pub open spec fn aborted(s: FrameState) -> (FrameState, FrameCommand) {
    (FrameState { stage: RenderStage::Stopped, recording: false, ..s }, FrameCommand::Discard)
}

/// A call while the swapchain is stale: the frame is dropped and a rebuild asked for.
pub open spec fn rebuilding(s: FrameState) -> (FrameState, FrameCommand) {
    (FrameState { stage: RenderStage::NeedsRedraw, recording: false, ..s }, FrameCommand::Rebuild)
}

/// The state after `op` on `s`, and what the backend must do.
pub open spec fn step(s: FrameState, op: FrameOp) -> (FrameState, FrameCommand) {
    match op {
        FrameOp::Start => {
            if s.stage == RenderStage::Stopped {
                if s.redraw_scheduled {
                    rebuilding(FrameState { redraw_scheduled: false, ..s })
                } else {
                    (FrameState { stage: RenderStage::Deferred, recording: false, ..s }, FrameCommand::Acquire)
                }
            } else if s.stage == RenderStage::NeedsRedraw {
                rebuilding(s)
            } else {
                aborted(s)
            }
        },
        FrameOp::Acquired(outcome) => {
            if s.stage == RenderStage::Deferred && !s.recording {
                match outcome {
                    AcquireOutcome::OutOfDate => rebuilding(s),
                    AcquireOutcome::Acquired { image, suboptimal } => (
                        FrameState {
                            recording: true,
                            image,
                            redraw_scheduled: s.redraw_scheduled || suboptimal,
                            ..s
                        },
                        FrameCommand::BeginPass { image },
                    ),
                }
            } else if s.stage == RenderStage::NeedsRedraw {
                rebuilding(s)
            } else {
                aborted(s)
            }
        },
        FrameOp::Geometry(verdict) => {
            if s.stage == RenderStage::Deferred && s.recording {
                match verdict {
                    Ok(()) => (
                        FrameState { model_slot: slot_after(s.model_slot), ..s },
                        FrameCommand::DrawGeometry { slot: s.model_slot },
                    ),
                    Err(error) => (s, FrameCommand::Rejected { error }),
                }
            } else if s.stage == RenderStage::NeedsRedraw {
                rebuilding(s)
            } else {
                aborted(s)
            }
        },
        FrameOp::Ambient => {
            if s.stage == RenderStage::Deferred && s.recording {
                (FrameState { stage: RenderStage::Ambient, ..s }, FrameCommand::DrawAmbient)
            } else if s.stage == RenderStage::Ambient {
                (s, FrameCommand::Idle)
            } else if s.stage == RenderStage::NeedsRedraw {
                rebuilding(s)
            } else {
                aborted(s)
            }
        },
        FrameOp::Directional => {
            if (s.stage == RenderStage::Ambient || s.stage == RenderStage::Directional) && s.recording {
                (
                    FrameState {
                        stage: RenderStage::Directional,
                        light_slot: slot_after(s.light_slot),
                        ..s
                    },
                    FrameCommand::DrawDirectional { slot: s.light_slot },
                )
            } else if s.stage == RenderStage::NeedsRedraw {
                rebuilding(s)
            } else {
                aborted(s)
            }
        },
        FrameOp::Finish => {
            if s.stage == RenderStage::Directional && s.recording {
                (
                    FrameState { stage: RenderStage::Stopped, recording: false, ..s },
                    FrameCommand::Submit { image: s.image },
                )
            } else if s.stage == RenderStage::NeedsRedraw {
                rebuilding(s)
            } else {
                aborted(s)
            }
        },
        FrameOp::Presented(outcome) => match outcome {
            PresentOutcome::Presented => (s, FrameCommand::Idle),
            PresentOutcome::OutOfDate => (
                FrameState { stage: RenderStage::NeedsRedraw, recording: false, ..s },
                FrameCommand::Recover { rebuild: true },
            ),
            PresentOutcome::Failed => (s, FrameCommand::Recover { rebuild: false }),
        },
        FrameOp::RecreateSwapchain => rebuilding(s),
        FrameOp::SwapchainRebuilt(built) => {
            if s.stage == RenderStage::NeedsRedraw && built {
                (FrameState { stage: RenderStage::Stopped, recording: false, ..s }, FrameCommand::Idle)
            } else {
                (s, FrameCommand::Idle)
            }
        },
    }
}

/// The state after each of `ops` in turn, starting from `s`.
pub open spec fn run(s: FrameState, ops: Seq<FrameOp>) -> FrameState
    decreases ops.len(),
{
    if ops.len() == 0 {
        s
    } else {
        step(run(s, ops.drop_last()), ops.last()).0
    }
}

/// `cmd` may be issued from `pre`: a render pass begins only on an acquired
/// image, and each draw goes into an open command buffer, in its own subpass.
pub open spec fn issued_in_order(pre: FrameState, cmd: FrameCommand) -> bool {
    match cmd {
        FrameCommand::BeginPass { .. } => pre.stage == RenderStage::Deferred && !pre.recording,
        FrameCommand::DrawGeometry { .. } => pre.stage == RenderStage::Deferred && pre.recording,
        FrameCommand::DrawAmbient => pre.stage == RenderStage::Deferred && pre.recording,
        FrameCommand::DrawDirectional { .. } => (pre.stage == RenderStage::Ambient
            || pre.stage == RenderStage::Directional) && pre.recording,
        FrameCommand::Submit { .. } => pre.stage == RenderStage::Directional && pre.recording,
        _ => true,
    }
}

proof fn lemma_step_wf(s: FrameState, op: FrameOp)
    requires
        frame_wf(s),
    ensures
        frame_wf(step(s, op).0),
        issued_in_order(s, step(s, op).1),
{
}

proof fn lemma_run_wf(s: FrameState, ops: Seq<FrameOp>)
    requires
        frame_wf(s),
    ensures
        frame_wf(run(s, ops)),
    decreases ops.len(),
{
    if ops.len() > 0 {
        lemma_run_wf(s, ops.drop_last());
        lemma_step_wf(run(s, ops.drop_last()), ops.last());
    }
}

/// Whatever calls are made, in whatever order, from a well-formed state (such
/// as that of a new sequencer): the state stays well-formed, and every draw
/// and every submission is issued from the stage where it is valid, into an
/// open command buffer.
pub proof fn lemma_draws_only_in_valid_stage(s: FrameState, ops: Seq<FrameOp>, i: int)
    requires
        frame_wf(s),
        0 <= i < ops.len(),
    ensures
        frame_wf(run(s, ops.take(i))),
        issued_in_order(run(s, ops.take(i)), step(run(s, ops.take(i)), ops[i]).1),
        run(s, ops.take(i + 1)) == step(run(s, ops.take(i)), ops[i]).0,
{
    lemma_run_wf(s, ops.take(i));
    lemma_step_wf(run(s, ops.take(i)), ops[i]);
    assert(ops.take(i + 1).drop_last() =~= ops.take(i));
}

/// The commands issued, in order, by each of `ops` in turn from `s`.
pub open spec fn commands(s: FrameState, ops: Seq<FrameOp>) -> Seq<FrameCommand>
    decreases ops.len(),
{
    if ops.len() == 0 {
        Seq::empty()
    } else {
        commands(s, ops.drop_last()).push(step(run(s, ops.drop_last()), ops.last()).1)
    }
}

/// How many of `cmds` begin a render pass.
pub open spec fn count_passes(cmds: Seq<FrameCommand>) -> nat
    decreases cmds.len(),
{
    if cmds.len() == 0 {
        0
    } else {
        count_passes(cmds.drop_last()) + if cmds.last() is BeginPass { 1nat } else { 0nat }
    }
}

/// How many of `cmds` draw the ambient term.
pub open spec fn count_ambient(cmds: Seq<FrameCommand>) -> nat
    decreases cmds.len(),
{
    if cmds.len() == 0 {
        0
    } else {
        count_ambient(cmds.drop_last()) + if cmds.last() is DrawAmbient { 1nat } else { 0nat }
    }
}

/// How many of `cmds` submit a frame.
pub open spec fn count_submits(cmds: Seq<FrameCommand>) -> nat
    decreases cmds.len(),
{
    if cmds.len() == 0 {
        0
    } else {
        count_submits(cmds.drop_last()) + if cmds.last() is Submit { 1nat } else { 0nat }
    }
}

/// 1 while a pass is open whose ambient term is still to be drawn.
pub open spec fn awaiting_ambient(s: FrameState) -> nat {
    if s.stage == RenderStage::Deferred && s.recording { 1 } else { 0 }
}

/// 1 while a pass is open whose ambient term is drawn and which is not yet submitted.
pub open spec fn awaiting_submit(s: FrameState) -> nat {
    if (s.stage == RenderStage::Ambient || s.stage == RenderStage::Directional) && s.recording { 1 } else { 0 }
}

proof fn lemma_step_counts(pre: FrameState, op: FrameOp)
    ensures
        ({
            let (post, c) = step(pre, op);
            &&& (if c is DrawAmbient { 1nat } else { 0nat }) + awaiting_ambient(post)
                <= (if c is BeginPass { 1nat } else { 0nat }) + awaiting_ambient(pre)
            &&& (if c is Submit { 1nat } else { 0nat }) + awaiting_submit(post)
                <= (if c is DrawAmbient { 1nat } else { 0nat }) + awaiting_submit(pre)
        }),
{
}

/// Whatever calls are made, from any state: the ambient term is drawn at most
/// once for each render pass begun, and a frame is submitted at most once for
/// each ambient draw. So every submitted frame had its pass begun and its
/// ambient term drawn exactly once.
pub proof fn lemma_one_ambient_per_pass(s: FrameState, ops: Seq<FrameOp>)
    ensures
        count_ambient(commands(s, ops)) + awaiting_ambient(run(s, ops))
            <= count_passes(commands(s, ops)) + awaiting_ambient(s),
        count_submits(commands(s, ops)) + awaiting_submit(run(s, ops))
            <= count_ambient(commands(s, ops)) + awaiting_submit(s),
    decreases ops.len(),
{
    if ops.len() > 0 {
        lemma_one_ambient_per_pass(s, ops.drop_last());
        lemma_step_counts(run(s, ops.drop_last()), ops.last());
        let cmds = commands(s, ops);
        assert(cmds.drop_last() =~= commands(s, ops.drop_last()));
    }
}

/// A second `ambient` call right after a first never draws the ambient term
/// again; while in the ambient stage the call changes nothing.
pub proof fn lemma_ambient_idempotent(s: FrameState)
    ensures
        step(step(s, FrameOp::Ambient).0, FrameOp::Ambient).1 != FrameCommand::DrawAmbient,
        s.stage == RenderStage::Ambient ==> step(s, FrameOp::Ambient) == (s, FrameCommand::Idle),
{
}

/// Two geometry calls in a row in the geometry phase, on drawable meshes,
/// receive two different per-object uniform slots.
pub proof fn lemma_geometry_slots_distinct(s: FrameState)
    requires
        s.stage == RenderStage::Deferred,
        s.recording,
    ensures
        ({
            let (s1, c1) = step(s, FrameOp::Geometry(Ok(())));
            let (s2, c2) = step(s1, FrameOp::Geometry(Ok(())));
            &&& c1 == FrameCommand::DrawGeometry { slot: s.model_slot }
            &&& c2 == FrameCommand::DrawGeometry { slot: slot_after(s.model_slot) }
            &&& s.model_slot != slot_after(s.model_slot)
        }),
{
}

/// Two directional calls in a row in the lighting phase receive two different
/// per-light uniform slots.
pub proof fn lemma_light_slots_distinct(s: FrameState)
    requires
        s.stage == RenderStage::Ambient || s.stage == RenderStage::Directional,
        s.recording,
    ensures
        ({
            let (s1, c1) = step(s, FrameOp::Directional);
            let (s2, c2) = step(s1, FrameOp::Directional);
            &&& c1 == FrameCommand::DrawDirectional { slot: s.light_slot }
            &&& c2 == FrameCommand::DrawDirectional { slot: slot_after(s.light_slot) }
            &&& s.light_slot != slot_after(s.light_slot)
        }),
{
}

/// Asking for a swapchain rebuild at any point of a frame drops the command
/// buffer in flight; once the rebuild is made the sequencer is stopped, with
/// nothing being recorded.
pub proof fn lemma_recreation_resets(s: FrameState)
    ensures
        ({
            let (s1, c1) = step(s, FrameOp::RecreateSwapchain);
            let (s2, c2) = step(s1, FrameOp::SwapchainRebuilt(true));
            &&& c1 == FrameCommand::Rebuild
            &&& s1.stage == RenderStage::NeedsRedraw && !s1.recording
            &&& s2.stage == RenderStage::Stopped && !s2.recording
            &&& c2 == FrameCommand::Idle
        }),
{
}

/// The host side of the deferred renderer: it decides, call by call, what the
/// graphics backend records, and refuses any call made out of order.
pub struct FrameSequencer {
    stage: RenderStage,
    recording: bool,
    redraw_scheduled: bool,
    image: usize,
    model_slot: u64,
    light_slot: u64,
}

impl View for FrameSequencer {
    type V = FrameState;

    closed spec fn view(&self) -> FrameState {
        FrameState {
            stage: self.stage,
            recording: self.recording,
            redraw_scheduled: self.redraw_scheduled,
            image: self.image,
            model_slot: self.model_slot,
            light_slot: self.light_slot,
        }
    }
}

/// A command buffer is recorded into exactly in the stages of an open frame
/// that has its image.
pub open spec fn frame_wf(s: FrameState) -> bool {
    &&& (s.stage == RenderStage::Ambient || s.stage == RenderStage::Directional) ==> s.recording
    &&& s.recording ==> (s.stage == RenderStage::Deferred || s.stage == RenderStage::Ambient
        || s.stage == RenderStage::Directional)
}

fn next_slot(slot: u64) -> (r: u64)
    ensures
        r == slot_after(slot),
{
    if slot == u64::MAX {
        0
    } else {
        slot + 1
    }
}

impl FrameSequencer {
    pub fn new() -> (r: FrameSequencer)
        ensures
            r@ == (FrameState {
                stage: RenderStage::Stopped,
                recording: false,
                redraw_scheduled: false,
                image: 0,
                model_slot: 0,
                light_slot: 0,
            }),
            frame_wf(r@),
    {
        FrameSequencer {
            stage: RenderStage::Stopped,
            recording: false,
            redraw_scheduled: false,
            image: 0,
            model_slot: 0,
            light_slot: 0,
        }
    }

    pub fn stage(&self) -> (r: RenderStage)
        ensures
            r == self@.stage,
    {
        self.stage
    }

    pub fn is_recording(&self) -> (r: bool)
        ensures
            r == self@.recording,
    {
        self.recording
    }

    fn abort(&mut self) -> (r: FrameCommand)
        ensures
            (final(self)@, r) == aborted(old(self)@),
    {
        self.stage = RenderStage::Stopped;
        self.recording = false;
        FrameCommand::Discard
    }

    fn begin_rebuild(&mut self) -> (r: FrameCommand)
        ensures
            (final(self)@, r) == rebuilding(old(self)@),
    {
        self.stage = RenderStage::NeedsRedraw;
        self.recording = false;
        FrameCommand::Rebuild
    }

    /// Begins a frame: asks for the next swapchain image when stopped.
    pub fn start(&mut self) -> (r: FrameCommand)
        ensures
            (final(self)@, r) == step(old(self)@, FrameOp::Start),
    {
        match self.stage {
            RenderStage::Stopped => {
                if self.redraw_scheduled {
                    self.redraw_scheduled = false;
                    self.begin_rebuild()
                } else {
                    self.stage = RenderStage::Deferred;
                    self.recording = false;
                    FrameCommand::Acquire
                }
            },
            RenderStage::NeedsRedraw => self.begin_rebuild(),
            _ => self.abort(),
        }
    }

    /// Takes the presentation engine's answer to the acquire that `start` asked for.
    pub fn acquired(&mut self, outcome: AcquireOutcome) -> (r: FrameCommand)
        ensures
            (final(self)@, r) == step(old(self)@, FrameOp::Acquired(outcome)),
    {
        if self.stage == RenderStage::Deferred && !self.recording {
            match outcome {
                AcquireOutcome::OutOfDate => self.begin_rebuild(),
                AcquireOutcome::Acquired { image, suboptimal } => {
                    self.recording = true;
                    self.image = image;
                    self.redraw_scheduled = self.redraw_scheduled || suboptimal;
                    FrameCommand::BeginPass { image }
                },
            }
        } else if self.stage == RenderStage::NeedsRedraw {
            self.begin_rebuild()
        } else {
            self.abort()
        }
    }

    /// Submits one mesh of `vertex_count` vertices drawn through `indices`
    /// to the geometry pass, with a fresh per-object uniform slot.
    pub fn geometry(&mut self, vertex_count: usize, indices: &Vec<u16>) -> (r: FrameCommand)
        ensures
            (final(self)@, r) == step(old(self)@, FrameOp::Geometry(mesh_check(vertex_count, indices@))),
    {
        if self.stage == RenderStage::Deferred && self.recording {
            match check_mesh(vertex_count, indices) {
                Ok(()) => {
                    let slot = self.model_slot;
                    self.model_slot = next_slot(slot);
                    FrameCommand::DrawGeometry { slot }
                },
                Err(error) => FrameCommand::Rejected { error },
            }
        } else if self.stage == RenderStage::NeedsRedraw {
            self.begin_rebuild()
        } else {
            self.abort()
        }
    }

    /// Moves to the lighting subpass and draws the ambient term, once per frame.
    pub fn ambient(&mut self) -> (r: FrameCommand)
        ensures
            (final(self)@, r) == step(old(self)@, FrameOp::Ambient),
    {
        if self.stage == RenderStage::Deferred && self.recording {
            self.stage = RenderStage::Ambient;
            FrameCommand::DrawAmbient
        } else if self.stage == RenderStage::Ambient {
            FrameCommand::Idle
        } else if self.stage == RenderStage::NeedsRedraw {
            self.begin_rebuild()
        } else {
            self.abort()
        }
    }

    /// Adds one directional light to the lighting subpass, with a fresh
    /// per-light uniform slot.
    pub fn directional(&mut self) -> (r: FrameCommand)
        ensures
            (final(self)@, r) == step(old(self)@, FrameOp::Directional),
    {
        if (self.stage == RenderStage::Ambient || self.stage == RenderStage::Directional)
            && self.recording {
            let slot = self.light_slot;
            self.stage = RenderStage::Directional;
            self.light_slot = next_slot(slot);
            FrameCommand::DrawDirectional { slot }
        } else if self.stage == RenderStage::NeedsRedraw {
            self.begin_rebuild()
        } else {
            self.abort()
        }
    }

    /// Ends the frame: the command buffer is submitted and the image presented.
    pub fn finish(&mut self) -> (r: FrameCommand)
        ensures
            (final(self)@, r) == step(old(self)@, FrameOp::Finish),
    {
        if self.stage == RenderStage::Directional && self.recording {
            self.stage = RenderStage::Stopped;
            self.recording = false;
            FrameCommand::Submit { image: self.image }
        } else if self.stage == RenderStage::NeedsRedraw {
            self.begin_rebuild()
        } else {
            self.abort()
        }
    }

    /// Takes the presentation engine's answer to the present that `finish` asked for.
    pub fn presented(&mut self, outcome: PresentOutcome) -> (r: FrameCommand)
        ensures
            (final(self)@, r) == step(old(self)@, FrameOp::Presented(outcome)),
    {
        match outcome {
            PresentOutcome::Presented => FrameCommand::Idle,
            PresentOutcome::OutOfDate => {
                self.stage = RenderStage::NeedsRedraw;
                self.recording = false;
                FrameCommand::Recover { rebuild: true }
            },
            PresentOutcome::Failed => FrameCommand::Recover { rebuild: false },
        }
    }

    /// Marks the swapchain stale (a resize, or a failed acquire or present):
    /// the frame in flight is dropped and a rebuild asked for.
    pub fn recreate_swapchain(&mut self) -> (r: FrameCommand)
        ensures
            (final(self)@, r) == step(old(self)@, FrameOp::RecreateSwapchain),
    {
        self.begin_rebuild()
    }

    /// Takes the result of a rebuild: `built` when the new swapchain exists.
    /// A rebuild that could not be made is asked for again at the next call.
    pub fn swapchain_rebuilt(&mut self, built: bool) -> (r: FrameCommand)
        ensures
            (final(self)@, r) == step(old(self)@, FrameOp::SwapchainRebuilt(built)),
    {
        if self.stage == RenderStage::NeedsRedraw && built {
            self.stage = RenderStage::Stopped;
            self.recording = false;
        }
        FrameCommand::Idle
    }
}

} // verus!
