use vstd::prelude::*;

use crate::upload::{BufferWrite, UploadPlan};

verus! {

/// Width and height of the presentation surface, in physical pixels.
#[derive(Debug, Clone, Copy, PartialEq, Eq, Structural)]
pub struct SurfaceSize {
    pub width: u32,
    pub height: u32,
}

/// Whether the frame loop still runs.
#[derive(Debug, Clone, Copy, PartialEq, Eq, Structural)]
pub enum Phase {
    Running,
    Exited,
}

/// What the window system reports to the frame loop.
#[derive(Debug, Clone, Copy, PartialEq, Eq, Structural)]
pub enum WindowEvent {
    Resized { width: u32, height: u32 },
    RedrawRequested,
    CloseRequested,
    Other,
}

/// How an attempt to draw and present a frame ended.
#[derive(Debug, Clone, Copy, PartialEq, Eq, Structural)]
pub enum RenderOutcome {
    Presented,
    SurfaceLost,
    OutOfMemory,
    Outdated,
    Timeout,
}

/// What the frame loop asks its host to do, in order.
#[derive(Debug, Clone, Copy, PartialEq, Eq, Structural)]
pub enum Command {
    /// Configure the surface at this size and recreate the depth attachment
    /// at the same size.
    Configure { width: u32, height: u32 },
    /// Ask the window for a redraw.
    RequestRedraw,
    /// Acquire the next surface image, draw the frame and present it.
    Render,
    /// Report a failure that the next frame recovers from.
    Report(RenderOutcome),
    /// Leave the event loop and release the GPU resources.
    Exit,
}

/// A dimension raised to at least one pixel.
pub open spec fn at_least_one(x: u32) -> u32 {
    if x == 0 { 1 } else { x }
}

/// `i` is the first sRGB format of `srgb`, or the first format where there is
/// no sRGB one.
pub open spec fn first_srgb_or_first(srgb: Seq<bool>, i: int) -> bool {
    &&& 0 <= i < srgb.len()
    &&& forall|j: int| 0 <= j < i ==> !(#[trigger] srgb[j])
    &&& (srgb[i] || (i == 0 && forall|j: int| 0 <= j < srgb.len() ==> !(#[trigger] srgb[j])))
}

/// Picks the surface format among those the surface supports, given for each
/// whether it is an sRGB format: the first sRGB one, else the first one. There
/// is none to pick when the surface supports no format.
pub fn pick_surface_format(srgb: &Vec<bool>) -> (r: Option<usize>)
    ensures
        srgb@.len() == 0 ==> r is None,
        srgb@.len() > 0 ==> (r matches Some(i) && first_srgb_or_first(srgb@, i as int)),
{
    let mut i: usize = 0;
    while i < srgb.len()
        invariant
            i <= srgb@.len(),
            forall|j: int| 0 <= j < i ==> !(#[trigger] srgb@[j]),
        decreases srgb@.len() - i,
    {
        if srgb[i] {
            return Some(i);
        }
        i = i + 1;
    }
    if srgb.len() == 0 {
        None
    } else {
        Some(0)
    }
}

/// The decisions of the frame loop: the size of the window, the size at which
/// the surface is configured, the size of the depth attachment, and whether
/// the loop still runs.
pub struct FrameLoop {
    pub size: SurfaceSize,
    pub config: SurfaceSize,
    pub depth: SurfaceSize,
    pub phase: Phase,
}

impl FrameLoop {
    /// The configured surface is never empty, and the window size, the surface
    /// configuration and the depth attachment agree.
    pub open spec fn wf(&self) -> bool {
        &&& self.config.width >= 1
        &&& self.config.height >= 1
        &&& self.size == self.config
        &&& self.depth == self.config
    }

    /// The loop for a window of the given size; a zero dimension is raised to
    /// one, since an empty surface cannot be configured.
    pub fn new(width: u32, height: u32) -> (r: FrameLoop)
        ensures
            r.wf(),
            r.phase == Phase::Running,
            r.config == (SurfaceSize { width: at_least_one(width), height: at_least_one(height) }),
    {
        let w: u32 = if width == 0 { 1 } else { width };
        let h: u32 = if height == 0 { 1 } else { height };
        let s = SurfaceSize { width: w, height: h };
        FrameLoop { size: s, config: s, depth: s, phase: Phase::Running }
    }

    /// Takes `width` by `height` as the new surface size, unless one of them is
    /// zero: then nothing changes and the last valid size is kept.
    pub fn resize(&mut self, width: u32, height: u32) -> (r: Option<SurfaceSize>)
        requires
            old(self).wf(),
        ensures
            final(self).wf(),
            final(self).phase == old(self).phase,
            width > 0 && height > 0 ==> {
                &&& r == Some(SurfaceSize { width, height })
                &&& final(self).config == (SurfaceSize { width, height })
            },
            !(width > 0 && height > 0) ==> r is None && *final(self) == *old(self),
    {
        if width > 0 && height > 0 {
            let s = SurfaceSize { width, height };
            self.size = s;
            self.config = s;
            self.depth = s;
            Some(s)
        } else {
            None
        }
    }

    /// Handles one window event and says what the host must do.
    ///
    /// A resize raises each dimension to at least one, reconfigures the surface
    /// and the depth attachment, and asks for a redraw. A redraw request
    /// renders a frame. A close request ends the loop. Once the loop has ended,
    /// events are ignored.
    pub fn on_window_event(&mut self, event: WindowEvent) -> (r: Vec<Command>)
        requires
            old(self).wf(),
        ensures
            final(self).wf(),
            old(self).phase == Phase::Exited ==> r@ == Seq::<Command>::empty() && *final(self)
                == *old(self),
            old(self).phase == Phase::Running ==> match event {
                WindowEvent::Resized { width, height } => {
                    let s = SurfaceSize {
                        width: at_least_one(width),
                        height: at_least_one(height),
                    };
                    &&& final(self).config == s
                    &&& final(self).phase == Phase::Running
                    &&& r@ == seq![
                        Command::Configure { width: s.width, height: s.height },
                        Command::RequestRedraw,
                    ]
                },
                WindowEvent::RedrawRequested => *final(self) == *old(self) && r@ == seq![
                    Command::Render,
                ],
                WindowEvent::CloseRequested => {
                    &&& final(self).phase == Phase::Exited
                    &&& final(self).config == old(self).config
                    &&& r@ == seq![Command::Exit]
                },
                WindowEvent::Other => *final(self) == *old(self) && r@ == Seq::<Command>::empty(),
            },
    {
        let mut r: Vec<Command> = Vec::new();
        if let Phase::Exited = self.phase {
            return r;
        }
        match event {
            WindowEvent::Resized { width, height } => {
                let w: u32 = if width == 0 { 1 } else { width };
                let h: u32 = if height == 0 { 1 } else { height };
                self.resize(w, h);
                r.push(Command::Configure { width: w, height: h });
                r.push(Command::RequestRedraw);
            },
            WindowEvent::RedrawRequested => {
                r.push(Command::Render);
            },
            WindowEvent::CloseRequested => {
                self.phase = Phase::Exited;
                r.push(Command::Exit);
            },
            WindowEvent::Other => {},
        }
        r
    }

    /// Handles the outcome of a render and says what the host must do.
    ///
    /// A lost surface is reconfigured at the current size, so that the next
    /// redraw can render again without a resize from the window. Running out of
    /// memory ends the loop. An outdated surface or a timeout is reported and
    /// left to the next frame. Once the loop has ended, outcomes are ignored.
    pub fn on_render_outcome(&mut self, outcome: RenderOutcome) -> (r: Vec<Command>)
        requires
            old(self).wf(),
        ensures
            final(self).wf(),
            final(self).config == old(self).config,
            old(self).phase == Phase::Exited ==> r@ == Seq::<Command>::empty() && *final(self)
                == *old(self),
            old(self).phase == Phase::Running ==> match outcome {
                RenderOutcome::Presented => *final(self) == *old(self) && r@ == Seq::<
                    Command,
                >::empty(),
                RenderOutcome::SurfaceLost => *final(self) == *old(self) && r@ == seq![
                    Command::Configure {
                        width: old(self).config.width,
                        height: old(self).config.height,
                    },
                ],
                RenderOutcome::OutOfMemory => final(self).phase == Phase::Exited && r@ == seq![
                    Command::Exit,
                ],
                _ => *final(self) == *old(self) && r@ == seq![Command::Report(outcome)],
            },
    {
        let mut r: Vec<Command> = Vec::new();
        if let Phase::Exited = self.phase {
            return r;
        }
        match outcome {
            RenderOutcome::Presented => {},
            RenderOutcome::SurfaceLost => {
                let s = self.size;
                self.resize(s.width, s.height);
                r.push(Command::Configure { width: s.width, height: s.height });
            },
            RenderOutcome::OutOfMemory => {
                self.phase = Phase::Exited;
                r.push(Command::Exit);
            },
            _ => {
                r.push(Command::Report(outcome));
            },
        }
        r
    }
}

/// One step of drawing a frame once the surface image has been acquired.
#[derive(Debug, Clone, Copy, PartialEq, Eq, Structural)]
pub enum RenderStep {
    /// Create the vertex buffer anew with room for exactly `bytes` bytes.
    RecreateVertexBuffer { bytes: u64 },
    /// Write `bytes` bytes of vertices through the staging helper.
    WriteVertices { bytes: u64 },
    /// Create the index buffer anew with room for exactly `bytes` bytes.
    RecreateIndexBuffer { bytes: u64 },
    /// Write `bytes` bytes of indices through the staging helper.
    WriteIndices { bytes: u64 },
    /// Close the staging helper's writes into the command encoder.
    FinishWrites,
    /// Draw the textured scene.
    DrawScene,
    /// Draw `count` indices of the stroke mesh.
    DrawStrokes { count: u32 },
    /// Submit the command buffer to the queue.
    Submit,
    /// Take back the staging helper's chunks for the next frame.
    Recall,
    /// Present the surface image.
    Present,
}

/// The steps that bring one buffer up to date.
pub open spec fn buffer_steps(w: BufferWrite, is_vertex: bool) -> Seq<RenderStep> {
    match w {
        BufferWrite::Skip => Seq::empty(),
        BufferWrite::Write { bytes } => if is_vertex {
            seq![RenderStep::WriteVertices { bytes }]
        } else {
            seq![RenderStep::WriteIndices { bytes }]
        },
        BufferWrite::Recreate { bytes } => if is_vertex {
            seq![RenderStep::RecreateVertexBuffer { bytes }, RenderStep::WriteVertices { bytes }]
        } else {
            seq![RenderStep::RecreateIndexBuffer { bytes }, RenderStep::WriteIndices { bytes }]
        },
    }
}

/// The steps of a frame: the buffer writes, then closing them, the two draws,
/// submission, recalling the staging helper, and presentation. The strokes are
/// drawn only when there are indices to draw.
pub open spec fn frame_steps_of(plan: UploadPlan) -> Seq<RenderStep> {
    buffer_steps(plan.vertices, true) + buffer_steps(plan.indices, false) + seq![
        RenderStep::FinishWrites,
        RenderStep::DrawScene,
    ] + (if plan.draw_count > 0 {
        seq![RenderStep::DrawStrokes { count: plan.draw_count }]
    } else {
        Seq::empty()
    }) + seq![RenderStep::Submit, RenderStep::Recall, RenderStep::Present]
}

/// `s` writes into a buffer or creates one: work of the staging helper that
/// must come before its writes are closed.
pub open spec fn is_buffer_step(s: RenderStep) -> bool {
    s is RecreateVertexBuffer || s is WriteVertices || s is RecreateIndexBuffer || s is WriteIndices
}

/// In the steps of every frame the staging helper's lifecycle runs in order:
/// all buffer writes come first, then the writes are closed exactly once, and
/// nothing is written after that; the last three steps submit the command
/// buffer, then recall the helper, then present.
pub proof fn lemma_frame_steps_order(plan: UploadPlan)
    ensures
        ({
            let s = frame_steps_of(plan);
            let f = buffer_steps(plan.vertices, true).len() + buffer_steps(plan.indices, false).len();
            &&& 0 <= f < s.len() - 3
            &&& s[f as int] == RenderStep::FinishWrites
            &&& forall|i: int| 0 <= i < f ==> is_buffer_step(#[trigger] s[i])
            &&& forall|i: int|
                f < i < s.len() ==> !is_buffer_step(#[trigger] s[i]) && s[i]
                    != RenderStep::FinishWrites
            &&& s[s.len() - 3] == RenderStep::Submit
            &&& s[s.len() - 2] == RenderStep::Recall
            &&& s[s.len() - 1] == RenderStep::Present
        }),
{
    let bv = buffer_steps(plan.vertices, true);
    let bi = buffer_steps(plan.indices, false);
    let draw = if plan.draw_count > 0 {
        seq![RenderStep::DrawStrokes { count: plan.draw_count }]
    } else {
        Seq::empty()
    };
    let tail = seq![RenderStep::FinishWrites, RenderStep::DrawScene] + draw + seq![
        RenderStep::Submit,
        RenderStep::Recall,
        RenderStep::Present,
    ];
    let s = frame_steps_of(plan);
    assert(s =~= (bv + bi) + tail);
    assert forall|i: int| 0 <= i < bv.len() implies is_buffer_step(#[trigger] bv[i]) by {}
    assert forall|i: int| 0 <= i < bi.len() implies is_buffer_step(#[trigger] bi[i]) by {}
    assert forall|i: int| 0 <= i < (bv + bi).len() implies is_buffer_step(#[trigger] (bv + bi)[i]) by {
        if i < bv.len() {
            assert((bv + bi)[i] == bv[i]);
        } else {
            assert((bv + bi)[i] == bi[i - bv.len()]);
        }
    }
    assert forall|i: int| 0 < i < tail.len() implies !is_buffer_step(#[trigger] tail[i]) && tail[i]
        != RenderStep::FinishWrites by {}
}

fn push_buffer_steps(steps: &mut Vec<RenderStep>, w: BufferWrite, is_vertex: bool)
    ensures
        final(steps)@ == old(steps)@ + buffer_steps(w, is_vertex),
{
    let ghost start = steps@;
    match w {
        BufferWrite::Skip => {},
        BufferWrite::Write { bytes } => {
            if is_vertex {
                steps.push(RenderStep::WriteVertices { bytes });
            } else {
                steps.push(RenderStep::WriteIndices { bytes });
            }
        },
        BufferWrite::Recreate { bytes } => {
            if is_vertex {
                steps.push(RenderStep::RecreateVertexBuffer { bytes });
                steps.push(RenderStep::WriteVertices { bytes });
            } else {
                steps.push(RenderStep::RecreateIndexBuffer { bytes });
                steps.push(RenderStep::WriteIndices { bytes });
            }
        },
    }
    assert(steps@ =~= start + buffer_steps(w, is_vertex));
}

/// The steps that draw a frame whose buffers are brought up to date by `plan`.
///
/// Every staging write comes before the writes are closed, the writes are
/// closed before the command buffer is submitted, and the staging helper is
/// recalled only after submission.
pub fn frame_steps(plan: &UploadPlan) -> (r: Vec<RenderStep>)
    ensures
        r@ == frame_steps_of(*plan),
{
    let mut steps: Vec<RenderStep> = Vec::new();
    push_buffer_steps(&mut steps, plan.vertices, true);
    push_buffer_steps(&mut steps, plan.indices, false);
    steps.push(RenderStep::FinishWrites);
    steps.push(RenderStep::DrawScene);
    if plan.draw_count > 0 {
        steps.push(RenderStep::DrawStrokes { count: plan.draw_count });
    }
    steps.push(RenderStep::Submit);
    steps.push(RenderStep::Recall);
    steps.push(RenderStep::Present);
    assert(steps@ =~= frame_steps_of(*plan));
    steps
}

} // verus!
