//! The graphics context: the surface configuration and the render pipeline that
//! belong together for the lifetime of the overlay.

use vstd::prelude::*;
use crate::frame::{ClearColor, FramePlan, LoadOp};
use crate::geometry::{Size, Span};
use crate::gpu::{PipelinePlan, PresentMode, SurfaceConfig, TextureUsage, Topology};

verus! {

/// What a graphics context is made of, as a plain value that contracts speak of.
#[derive(Clone, Copy, Debug, PartialEq, Eq)]
pub struct ContextModel {
    pub config: SurfaceConfig,
    pub pipeline: PipelinePlan,
}

impl ContextModel {
    /// The context right after start-up with a negotiated format and a size.
    pub open spec fn initial(format: wgpu::TextureFormat, size: Size) -> ContextModel {
        ContextModel {
            config: SurfaceConfig::overlay(format, size),
            pipeline: PipelinePlan::triangle(format),
        }
    }

    /// The context after the surface has been configured to another size. The
    /// pipeline and every other setting of the surface stay as they are.
    pub open spec fn reconfigured(self, size: Size) -> ContextModel {
        ContextModel { config: self.config.resized(size), pipeline: self.pipeline }
    }

    /// The frame that this context renders: the overlay's triangle at the size
    /// the surface is configured to.
    pub open spec fn frame(self) -> FramePlan {
        FramePlan::triangle(self.config.size)
    }

    /// A context is coherent when it is the overlay's set-up for the format that
    /// its surface presents in, at a size that is not empty. In particular the
    /// pipeline then renders to the surface's format.
    pub open spec fn coherent(self) -> bool {
        &&& self.config.size.non_empty()
        &&& self == ContextModel::initial(self.config.format, self.config.size)
    }
}

/// The persistent GPU state of the overlay. It is built once, when start-up has
/// negotiated a format, and from then on only its size changes.
#[derive(Debug)]
pub struct GraphicsContext {
    config: SurfaceConfig,
    pipeline: PipelinePlan,
}

impl View for GraphicsContext {
    type V = ContextModel;

    closed spec fn view(&self) -> ContextModel {
        ContextModel { config: self.config, pipeline: self.pipeline }
    }
}

impl GraphicsContext {
    #[verifier::type_invariant]
    spec fn inv(self) -> bool {
        self@.coherent()
    }

    /// Builds the context for the surface's preferred format and the window's
    /// size: that format becomes both the surface's format and the pipeline's
    /// colour target.
    pub fn initialize(preferred_format: wgpu::TextureFormat, size: Size) -> (ctx: GraphicsContext)
        requires
            size.non_empty(),
        ensures
            ctx@ == ContextModel::initial(preferred_format, size),
            ctx@.coherent(),
    {
        GraphicsContext {
            config: SurfaceConfig {
                usage: TextureUsage::RenderAttachment,
                format: preferred_format,
                size,
                present_mode: PresentMode::Mailbox,
            },
            pipeline: PipelinePlan {
                vertex_entry: "vs_main",
                fragment_entry: "fs_main",
                vertex_buffers: 0,
                bind_groups: 0,
                push_constant_ranges: 0,
                target_format: preferred_format,
                topology: Topology::TriangleList,
                sample_count: 1,
                depth_stencil: false,
            },
        }
    }

    /// Stores a new size in the surface configuration. The caller applies the
    /// configuration to the surface before the next frame.
    pub fn reconfigure(&mut self, new_size: Size)
        requires
            new_size.non_empty(),
        ensures
            final(self)@ == old(self)@.reconfigured(new_size),
            final(self)@.config.size == new_size,
            final(self)@.coherent(),
    {
        proof {
            use_type_invariant(&*self);
        }
        self.config.size = new_size;
    }

    /// Plans the next frame. Every call plans the whole cycle of clearing,
    /// drawing and presenting anew, at the size the surface has now; the
    /// context itself is left as it is.
    pub fn render_frame(&self) -> (plan: FramePlan)
        ensures
            plan == self@.frame(),
            plan.extent == self@.config.size,
    {
        FramePlan {
            extent: self.config.size,
            load: LoadOp::Clear(ClearColor::Transparent),
            store: true,
            vertices: Span { start: 0, end: 3 },
            instances: Span { start: 0, end: 1 },
        }
    }

    /// The surface configuration as it stands.
    pub fn surface_config(&self) -> (config: SurfaceConfig)
        ensures
            config == self@.config,
            self@.coherent(),
    {
        proof {
            use_type_invariant(self);
        }
        self.config
    }

    /// The render pipeline, which never changes after start-up.
    pub fn pipeline(&self) -> (pipeline: PipelinePlan)
        ensures
            pipeline == self@.pipeline,
            pipeline.target_format == self@.config.format,
            self@.coherent(),
    {
        proof {
            use_type_invariant(self);
        }
        self.pipeline
    }
}

/// Reconfiguring stores exactly the size it is given, and the next frame is
/// planned at that size. Doing it a second time with the same size changes
/// nothing further.
pub proof fn law_reconfigure_is_exact_and_idempotent(context: ContextModel, size: Size)
    requires
        size.non_empty(),
    ensures
        context.reconfigured(size).config.size == size,
        context.reconfigured(size).frame().extent == size,
        context.reconfigured(size).reconfigured(size) == context.reconfigured(size),
{
}

/// The pipeline's colour target is the surface's format in every coherent
/// context, and reconfiguring keeps it so: it touches neither the pipeline
/// nor the surface's format, and a coherent context stays coherent.
pub proof fn law_format_is_negotiated_once(context: ContextModel, size: Size)
    requires
        context.coherent(),
        size.non_empty(),
    ensures
        context.pipeline.target_format == context.config.format,
        context.reconfigured(size).pipeline == context.pipeline,
        context.reconfigured(size).config.format == context.config.format,
        context.reconfigured(size).coherent(),
{
}

/// A context fresh from start-up is coherent, and both its pipeline and its
/// surface carry the format that was negotiated.
pub proof fn law_initial_is_coherent(format: wgpu::TextureFormat, size: Size)
    requires
        size.non_empty(),
    ensures
        ContextModel::initial(format, size).coherent(),
        ContextModel::initial(format, size).pipeline.target_format == format,
        ContextModel::initial(format, size).config.format == format,
        ContextModel::initial(format, size).config.size == size,
{
}

} // verus!
