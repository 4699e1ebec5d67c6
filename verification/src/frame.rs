//! One frame: what is drawn, and the order in which the GPU is told.

use vstd::prelude::*;
use crate::error::FatalError;
use crate::geometry::{Size, Span};

verus! {

/// A colour to clear the target with.
#[derive(Clone, Copy, Debug, PartialEq, Eq, Structural)]
pub enum ClearColor {
    /// All four channels zero: nothing of the overlay hides what lies under it.
    Transparent,
    Black,
    White,
}

/// What a render pass does with the target before it draws.
#[derive(Clone, Copy, Debug, PartialEq, Eq, Structural)]
pub enum LoadOp {
    /// Fill the target with a colour.
    Clear(ClearColor),
    /// Keep what the target holds.
    Load,
}

/// Everything that varies in a frame. A plan lives for one frame and is never
/// stored.
#[derive(Clone, Copy, Debug, PartialEq, Eq, Structural)]
pub struct FramePlan {
    /// Size of the texture that the surface hands out, which is the size the
    /// surface is configured to.
    pub extent: Size,
    /// What the single render pass does with the target first.
    pub load: LoadOp,
    /// Whether the pass keeps its result for presentation.
    pub store: bool,
    /// The vertices of the single draw call.
    pub vertices: Span,
    /// The instances of the single draw call.
    pub instances: Span,
}

/// One instruction to the GPU.
#[derive(Clone, Copy, Debug, PartialEq, Eq, Structural)]
pub enum GpuCommand {
    /// Take the next presentable texture from the surface.
    AcquireTexture { extent: Size },
    /// Create a view over the acquired texture.
    CreateView,
    /// Open a command encoder.
    CreateEncoder,
    /// Begin a render pass that targets the view.
    BeginRenderPass { load: LoadOp, store: bool },
    /// Bind the render pipeline.
    SetPipeline,
    /// Draw without vertex or index buffers.
    Draw { vertices: Span, instances: Span },
    /// End the render pass.
    EndRenderPass,
    /// Close the encoder into a command buffer.
    FinishEncoder,
    /// Hand the command buffer to the queue.
    Submit,
    /// Present the acquired texture.
    Present,
}

/// What the surface answered when it was asked for the next texture.
#[derive(Clone, Copy, Debug, PartialEq, Eq, Structural)]
pub enum Acquisition {
    /// A texture was handed out.
    Acquired,
    /// The surface did not answer in time.
    Timeout,
    /// The surface no longer matches the window.
    Outdated,
    /// The surface is lost.
    Lost,
    /// The GPU has no memory left for the texture.
    OutOfMemory,
}

impl Acquisition {
    /// What an outcome means for the frame.
    pub open spec fn verdict(self) -> Result<(), FatalError> {
        if self is Acquired {
            Ok(())
        } else {
            Err(FatalError::FrameAcquisitionFailed)
        }
    }

    /// Decides whether the frame goes on. It does with a texture in hand; any
    /// other outcome is final, and the frame is neither skipped nor tried
    /// again.
    pub fn check(self) -> (verdict: Result<(), FatalError>)
        ensures
            verdict == self.verdict(),
    {
        match self {
            Acquisition::Acquired => Ok(()),
            _ => Err(FatalError::FrameAcquisitionFailed),
        }
    }
}

impl FramePlan {
    /// The overlay's frame at a given size: clear to transparent, keep the
    /// result, draw three vertices once.
    pub open spec fn triangle(extent: Size) -> FramePlan {
        FramePlan {
            extent,
            load: LoadOp::Clear(ClearColor::Transparent),
            store: true,
            vertices: Span::first(3),
            instances: Span::first(1),
        }
    }

    /// The commands of a frame, in the order in which they are issued.
    pub open spec fn protocol(self) -> Seq<GpuCommand> {
        seq![
            GpuCommand::AcquireTexture { extent: self.extent },
            GpuCommand::CreateView,
            GpuCommand::CreateEncoder,
            GpuCommand::BeginRenderPass { load: self.load, store: self.store },
            GpuCommand::SetPipeline,
            GpuCommand::Draw { vertices: self.vertices, instances: self.instances },
            GpuCommand::EndRenderPass,
            GpuCommand::FinishEncoder,
            GpuCommand::Submit,
            GpuCommand::Present,
        ]
    }

    /// Writes the frame out as the list of commands to carry out.
    pub fn commands(&self) -> (cmds: Vec<GpuCommand>)
        ensures
            cmds@ == self.protocol(),
    {
        let mut cmds: Vec<GpuCommand> = Vec::new();
        cmds.push(GpuCommand::AcquireTexture { extent: self.extent });
        cmds.push(GpuCommand::CreateView);
        cmds.push(GpuCommand::CreateEncoder);
        cmds.push(GpuCommand::BeginRenderPass { load: self.load, store: self.store });
        cmds.push(GpuCommand::SetPipeline);
        cmds.push(GpuCommand::Draw { vertices: self.vertices, instances: self.instances });
        cmds.push(GpuCommand::EndRenderPass);
        cmds.push(GpuCommand::FinishEncoder);
        cmds.push(GpuCommand::Submit);
        cmds.push(GpuCommand::Present);
        cmds
    }
}

/// A frame has one of everything: whatever the plan, its protocol acquires
/// once, first; begins one render pass; draws once, inside that pass and after
/// the pipeline is bound; submits once, after the pass has ended and the
/// encoder is closed; and presents once, last.
pub proof fn law_protocol_shape(plan: FramePlan)
    ensures
        plan.protocol().len() == 10,
        forall|i: int|
            0 <= i < 10 ==> (#[trigger] plan.protocol()[i] is AcquireTexture <==> i == 0),
        forall|i: int|
            0 <= i < 10 ==> (#[trigger] plan.protocol()[i] is BeginRenderPass <==> i == 3),
        forall|i: int| 0 <= i < 10 ==> (#[trigger] plan.protocol()[i] is SetPipeline <==> i == 4),
        forall|i: int| 0 <= i < 10 ==> (#[trigger] plan.protocol()[i] is Draw <==> i == 5),
        forall|i: int|
            0 <= i < 10 ==> (#[trigger] plan.protocol()[i] is EndRenderPass <==> i == 6),
        forall|i: int| 0 <= i < 10 ==> (#[trigger] plan.protocol()[i] is Submit <==> i == 8),
        forall|i: int| 0 <= i < 10 ==> (#[trigger] plan.protocol()[i] is Present <==> i == 9),
        plan.protocol()[0] == (GpuCommand::AcquireTexture { extent: plan.extent }),
        plan.protocol()[3] == (GpuCommand::BeginRenderPass { load: plan.load, store: plan.store }),
        plan.protocol()[5] == (GpuCommand::Draw {
            vertices: plan.vertices,
            instances: plan.instances,
        }),
{
}

/// The overlay's frame clears to transparent and keeps the result, and its one
/// draw call covers three vertices and one instance, both counted from zero.
pub proof fn law_triangle_frame(extent: Size)
    ensures
        FramePlan::triangle(extent).extent == extent,
        FramePlan::triangle(extent).protocol()[3] == (GpuCommand::BeginRenderPass {
            load: LoadOp::Clear(ClearColor::Transparent),
            store: true,
        }),
        FramePlan::triangle(extent).protocol()[5] == (GpuCommand::Draw {
            vertices: Span { start: 0, end: 3 },
            instances: Span { start: 0, end: 1 },
        }),
        FramePlan::triangle(extent).vertices.count() == 3,
        FramePlan::triangle(extent).instances.count() == 1,
        FramePlan::triangle(extent).instances.start == 0,
{
}

} // verus!
