//! Start-up, one answer at a time.
//!
//! The GPU is asked three things in a fixed order: for an adapter, for a
//! device, and for the surface's preferred format. Each stage is a type of its
//! own, so an answer can only be given to the question that is open, and a
//! context only exists once all three have been answered well.

use vstd::prelude::*;
use crate::context::{ContextModel, GraphicsContext};
use crate::error::FatalError;
use crate::geometry::Size;
use crate::gpu::{
    backends_for, select_backends, AdapterRequest, BackendSet, DeviceRequest, LimitsPreset,
    PowerPreference,
};
use crate::platform::Platform;

verus! {

/// Start-up while the adapter request is open.
#[derive(Debug)]
pub struct AwaitingAdapter {
    size: Size,
}

/// Start-up while the device request is open.
#[derive(Debug)]
pub struct AwaitingDevice {
    size: Size,
}

/// Start-up while the query for the surface's preferred format is open.
#[derive(Debug)]
pub struct AwaitingFormat {
    size: Size,
}

/// The first move of start-up: which backends to create the instance and the
/// surface for, and the adapter to ask for then.
#[derive(Debug)]
pub struct Opening {
    pub stage: AwaitingAdapter,
    pub backends: BackendSet,
    pub adapter_request: AdapterRequest,
}

/// Opens start-up for a window of the given size.
pub fn begin(platform: Platform, size: Size) -> (opening: Opening)
    requires
        size.non_empty(),
    ensures
        opening.stage.size() == size,
        opening.backends == backends_for(platform),
        opening.adapter_request == AdapterRequest::overlay(),
{
    Opening {
        stage: AwaitingAdapter { size },
        backends: select_backends(platform),
        adapter_request: AdapterRequest {
            power_preference: PowerPreference::LowPower,
            compatible_with_surface: true,
            force_fallback_adapter: false,
        },
    }
}

impl AwaitingAdapter {
    #[verifier::type_invariant]
    spec fn inv(self) -> bool {
        self.size.non_empty()
    }

    /// The window size that start-up was opened with.
    pub closed spec fn size(self) -> Size {
        self.size
    }

    /// Takes the answer to the adapter request. With an adapter, start-up goes
    /// on to ask for a device; without one it ends, as no other adapter is
    /// ever tried.
    pub fn adapter_resolved(self, found: bool) -> (next: Result<
        (AwaitingDevice, DeviceRequest),
        FatalError,
    >)
        ensures
            match next {
                Ok((stage, request)) => {
                    &&& found
                    &&& stage.size() == self.size()
                    &&& request == DeviceRequest::overlay()
                },
                Err(e) => !found && e == FatalError::AdapterNotFound,
            },
    {
        proof {
            use_type_invariant(&self);
        }
        if found {
            Ok(
                (
                    AwaitingDevice { size: self.size },
                    DeviceRequest { features: 0, limits: LimitsPreset::Default },
                ),
            )
        } else {
            Err(FatalError::AdapterNotFound)
        }
    }
}

impl AwaitingDevice {
    #[verifier::type_invariant]
    spec fn inv(self) -> bool {
        self.size.non_empty()
    }

    /// The window size that start-up was opened with.
    pub closed spec fn size(self) -> Size {
        self.size
    }

    /// Takes the answer to the device request. With a device and its queue,
    /// start-up goes on to ask the surface for its preferred format.
    pub fn device_resolved(self, created: bool) -> (next: Result<AwaitingFormat, FatalError>)
        ensures
            match next {
                Ok(stage) => created && stage.size() == self.size(),
                Err(e) => !created && e == FatalError::DeviceRequestFailed,
            },
    {
        proof {
            use_type_invariant(&self);
        }
        if created {
            Ok(AwaitingFormat { size: self.size })
        } else {
            Err(FatalError::DeviceRequestFailed)
        }
    }
}

impl AwaitingFormat {
    #[verifier::type_invariant]
    spec fn inv(self) -> bool {
        self.size.non_empty()
    }

    /// The window size that start-up was opened with.
    pub closed spec fn size(self) -> Size {
        self.size
    }

    /// Takes the surface's preferred format and builds the context from it:
    /// the one format goes to the pipeline and to the surface configuration.
    pub fn format_resolved(self, preferred: Option<wgpu::TextureFormat>) -> (next: Result<
        GraphicsContext,
        FatalError,
    >)
        ensures
            match next {
                Ok(ctx) => {
                    &&& preferred matches Some(format)
                    &&& ctx@ == ContextModel::initial(format, self.size())
                    &&& ctx@.coherent()
                },
                Err(e) => preferred is None && e == FatalError::SurfaceFormatUnavailable,
            },
    {
        proof {
            use_type_invariant(&self);
        }
        match preferred {
            Some(format) => Ok(GraphicsContext::initialize(format, self.size)),
            None => Err(FatalError::SurfaceFormatUnavailable),
        }
    }
}

} // verus!
