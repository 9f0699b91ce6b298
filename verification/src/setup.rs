//! Setting up a graphics context: what is asked of the platform, in which
//! order, and what each failure becomes.
//!
//! A context is made from a surface, an adapter that fits it, and a device
//! with its queue. The caller makes the three requests described here and
//! passes each outcome through the function that belongs to it; the first
//! failure ends the setup.

use vstd::prelude::*;
use crate::error::WgpuError;

verus! {

/// The graphics backends to look for.
#[derive(Clone, Copy, Debug, PartialEq, Eq, Structural)]
pub enum Backends {
    /// The backends with first-class support: Vulkan, Metal, DX12 and
    /// WebGPU in a browser.
    Primary,
    /// The backends with best-effort support.
    Secondary,
    /// Every backend.
    All,
}

/// Which adapter to prefer on a machine with several.
#[derive(Clone, Copy, Debug, PartialEq, Eq, Structural)]
pub enum PowerPreference {
    LowPower,
    HighPerformance,
}

/// What is asked of the platform when adapters are looked for.
#[derive(Clone, Copy, Debug, PartialEq, Eq, Structural)]
pub struct AdapterRequest {
    pub backends: Backends,
    pub power_preference: PowerPreference,
    /// Only an adapter that can present to the surface just made will do.
    pub compatible_with_surface: bool,
    pub force_fallback_adapter: bool,
}

impl AdapterRequest {
    /// A high-performance adapter on a primary backend that can present to
    /// the surface; no software fallback.
    pub open spec fn primary_spec() -> AdapterRequest {
        AdapterRequest {
            backends: Backends::Primary,
            power_preference: PowerPreference::HighPerformance,
            compatible_with_surface: true,
            force_fallback_adapter: false,
        }
    }

    #[verifier::when_used_as_spec(primary_spec)]
    pub fn primary() -> (request: AdapterRequest)
        ensures
            request == AdapterRequest::primary_spec(),
    {
        AdapterRequest {
            backends: Backends::Primary,
            power_preference: PowerPreference::HighPerformance,
            compatible_with_surface: true,
            force_fallback_adapter: false,
        }
    }
}

/// What is asked of an adapter when a device is requested.
#[derive(Debug)]
pub struct DeviceRequest {
    pub label: String,
    /// Whether any feature beyond the core set is asked for.
    pub extra_features: bool,
    /// Whether any limit is raised above its default.
    pub raised_limits: bool,
}

impl DeviceRequest {
    /// The primary render device: core features, default limits.
    pub fn primary() -> (request: DeviceRequest)
        ensures
            request.label@ == "primary render device"@,
            !request.extra_features,
            !request.raised_limits,
    {
        DeviceRequest {
            label: "primary render device".to_owned(),
            extra_features: false,
            raised_limits: false,
        }
    }
}

/// Takes the outcome of creating the surface: the surface, or the failure
/// as a setup error.
pub fn surface_or_error<S>(outcome: Result<S, wgpu::CreateSurfaceError>) -> (checked: Result<
    S,
    WgpuError,
>)
    ensures
        match outcome {
            Ok(surface) => checked == Ok::<S, WgpuError>(surface),
            Err(error) => checked == Err::<S, WgpuError>(WgpuError::CreateSurfaceError(error)),
        },
{
    match outcome {
        Ok(surface) => Ok(surface),
        Err(error) => Err(WgpuError::from(error)),
    }
}

/// Takes the outcome of looking for an adapter: the adapter, or the error
/// that none fits.
pub fn adapter_or_error<A>(outcome: Option<A>) -> (checked: Result<A, WgpuError>)
    ensures
        match outcome {
            Some(adapter) => checked == Ok::<A, WgpuError>(adapter),
            None => checked == Err::<A, WgpuError>(WgpuError::NoFittingAdapterFound),
        },
{
    match outcome {
        Some(adapter) => Ok(adapter),
        None => Err(WgpuError::NoFittingAdapterFound),
    }
}

/// Takes the outcome of requesting a device: the device with its queue, or
/// the failure as a setup error.
pub fn device_or_error<D>(outcome: Result<D, wgpu::RequestDeviceError>) -> (checked: Result<
    D,
    WgpuError,
>)
    ensures
        match outcome {
            Ok(device) => checked == Ok::<D, WgpuError>(device),
            Err(error) => checked == Err::<D, WgpuError>(WgpuError::RequestDeviceError(error)),
        },
{
    match outcome {
        Ok(device) => Ok(device),
        Err(error) => Err(WgpuError::from(error)),
    }
}

} // verus!
