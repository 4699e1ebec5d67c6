//! What the overlay asks of the GPU, written down as plain values.
//!
//! Each type here describes one request. The program turns it into the GPU
//! library's own descriptor when it makes the call.

use vstd::prelude::*;
use crate::geometry::Size;
use crate::platform::Platform;

verus! {

/// `wgpu::TextureFormat`, the colour format of a texture. The library never
/// looks inside a format: it receives the surface's preferred one and hands it
/// on unchanged.
#[verifier::external_type_specification]
#[verifier::external_body]
pub struct ExTextureFormat(wgpu::TextureFormat);

/// The family of GPU backends that an instance is created for.
#[derive(Clone, Copy, Debug, PartialEq, Eq, Structural)]
pub enum BackendSet {
    /// The DirectX 12 backend alone.
    Dx12,
    /// The first-tier backends of the GPU library, whichever the host offers.
    Primary,
}

/// Which adapter to prefer where the host has several.
#[derive(Clone, Copy, Debug, PartialEq, Eq, Structural)]
pub enum PowerPreference {
    LowPower,
    HighPerformance,
}

/// The options of an adapter request.
#[derive(Clone, Copy, Debug, PartialEq, Eq, Structural)]
pub struct AdapterRequest {
    pub power_preference: PowerPreference,
    /// The adapter must be able to present to the overlay's surface.
    pub compatible_with_surface: bool,
    /// Whether a software adapter may stand in for a missing GPU.
    pub force_fallback_adapter: bool,
}

/// A named set of resource limits.
#[derive(Clone, Copy, Debug, PartialEq, Eq, Structural)]
pub enum LimitsPreset {
    /// The GPU library's default limits.
    Default,
    /// The lower limits that older backends can also meet.
    Downlevel,
}

/// The options of a device request.
#[derive(Clone, Copy, Debug, PartialEq, Eq, Structural)]
pub struct DeviceRequest {
    /// The bit set of optional features asked for; zero asks for none.
    pub features: u64,
    pub limits: LimitsPreset,
}

/// What a surface texture is used for.
#[derive(Clone, Copy, Debug, PartialEq, Eq, Structural)]
pub enum TextureUsage {
    CopySrc,
    CopyDst,
    TextureBinding,
    StorageBinding,
    RenderAttachment,
}

/// How finished frames reach the display.
#[derive(Clone, Copy, Debug, PartialEq, Eq, Structural)]
pub enum PresentMode {
    /// No waiting for the display; tearing may show.
    Immediate,
    /// No waiting for the display and no tearing: the newest frame replaces a queued one.
    Mailbox,
    /// Frames queue up and wait for the display.
    Fifo,
}

/// The configuration that a surface presents with.
#[derive(Clone, Copy, Debug, PartialEq, Eq)]
pub struct SurfaceConfig {
    pub usage: TextureUsage,
    pub format: wgpu::TextureFormat,
    pub size: Size,
    pub present_mode: PresentMode,
}

/// How vertices are assembled into primitives.
#[derive(Clone, Copy, Debug, PartialEq, Eq, Structural)]
pub enum Topology {
    PointList,
    LineList,
    LineStrip,
    TriangleList,
    TriangleStrip,
}

/// The render pipeline of the overlay: one shader program with a vertex and a
/// fragment stage, and one colour target.
#[derive(Clone, Copy, Debug, PartialEq, Eq)]
pub struct PipelinePlan {
    /// Name of the vertex stage's entry point in the shader program.
    pub vertex_entry: &'static str,
    /// Name of the fragment stage's entry point in the shader program.
    pub fragment_entry: &'static str,
    /// Number of vertex buffers that the vertex stage reads.
    pub vertex_buffers: u32,
    /// Number of bind group layouts in the pipeline layout.
    pub bind_groups: u32,
    /// Number of push constant ranges in the pipeline layout.
    pub push_constant_ranges: u32,
    /// Format of the single colour target.
    pub target_format: wgpu::TextureFormat,
    pub topology: Topology,
    /// Samples per pixel; one means no multisampling.
    pub sample_count: u32,
    /// Whether the pipeline has a depth and stencil attachment.
    pub depth_stencil: bool,
}

/// The backends for a host: DirectX 12 on Windows, the first tier elsewhere.
pub open spec fn backends_for(platform: Platform) -> BackendSet {
    if platform == Platform::Windows {
        BackendSet::Dx12
    } else {
        BackendSet::Primary
    }
}

/// Chooses the backends to create the GPU instance for.
pub fn select_backends(platform: Platform) -> (backends: BackendSet)
    ensures
        backends == backends_for(platform),
{
    match platform {
        Platform::Windows => BackendSet::Dx12,
        _ => BackendSet::Primary,
    }
}

impl AdapterRequest {
    /// The overlay's adapter request: the power-saving adapter, able to present
    /// to the surface, and never a software fallback.
    pub open spec fn overlay() -> AdapterRequest {
        AdapterRequest {
            power_preference: PowerPreference::LowPower,
            compatible_with_surface: true,
            force_fallback_adapter: false,
        }
    }
}

impl DeviceRequest {
    /// The overlay's device request: no optional feature, default limits.
    pub open spec fn overlay() -> DeviceRequest {
        DeviceRequest { features: 0, limits: LimitsPreset::Default }
    }
}

impl SurfaceConfig {
    /// The overlay's surface configuration for a format and a size: textures are
    /// render attachments and frames are presented without blocking or tearing.
    pub open spec fn overlay(format: wgpu::TextureFormat, size: Size) -> SurfaceConfig {
        SurfaceConfig {
            usage: TextureUsage::RenderAttachment,
            format,
            size,
            present_mode: PresentMode::Mailbox,
        }
    }

    /// This configuration at another size.
    pub open spec fn resized(self, size: Size) -> SurfaceConfig {
        SurfaceConfig { size, ..self }
    }
}

impl PipelinePlan {
    /// The triangle pipeline for a target format: entry points `vs_main` and
    /// `fs_main`, no vertex buffers, bind groups or push constants, triangles
    /// from a plain list, one sample per pixel, no depth or stencil.
    pub open spec fn triangle(format: wgpu::TextureFormat) -> PipelinePlan {
        PipelinePlan {
            vertex_entry: "vs_main",
            fragment_entry: "fs_main",
            vertex_buffers: 0,
            bind_groups: 0,
            push_constant_ranges: 0,
            target_format: format,
            topology: Topology::TriangleList,
            sample_count: 1,
            depth_stencil: false,
        }
    }
}

} // verus!
