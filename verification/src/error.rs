//! Why a graphics context could not be set up.

use vstd::prelude::*;
use vstd::std_specs::convert::FromSpecImpl;

verus! {

/// `wgpu::RequestDeviceError`, carried through as it is.
#[verifier::external_type_specification]
#[verifier::external_body]
pub struct ExRequestDeviceError(wgpu::RequestDeviceError);

/// `wgpu::CreateSurfaceError`, carried through as it is.
#[verifier::external_type_specification]
#[verifier::external_body]
pub struct ExCreateSurfaceError(wgpu::CreateSurfaceError);

/// A failure of one of the three acquisitions that a graphics context is
/// made from. None of them is recovered from.
#[derive(Debug)]
pub enum WgpuError {
    /// No adapter fits the surface.
    NoFittingAdapterFound,
    /// The adapter granted no device and queue.
    RequestDeviceError(wgpu::RequestDeviceError),
    /// The platform made no surface for the window.
    CreateSurfaceError(wgpu::CreateSurfaceError),
}

impl WgpuError {
    /// The message of the error. A failure that wgpu reported reads as wgpu
    /// words it.
    pub fn message(&self) -> (message: String)
        ensures
            match *self {
                WgpuError::NoFittingAdapterFound => message@ == "no suitable wgpu adapter found"@,
                WgpuError::RequestDeviceError(error) => vstd::string::to_string_from_display_ensures(
                    &error,
                    message,
                ),
                WgpuError::CreateSurfaceError(error) => vstd::string::to_string_from_display_ensures(
                    &error,
                    message,
                ),
            },
    {
        match self {
            WgpuError::NoFittingAdapterFound => "no suitable wgpu adapter found".to_owned(),
            WgpuError::RequestDeviceError(error) => error.to_string(),
            WgpuError::CreateSurfaceError(error) => error.to_string(),
        }
    }
}

impl From<wgpu::RequestDeviceError> for WgpuError {
    fn from(error: wgpu::RequestDeviceError) -> (wrapped: WgpuError) {
        WgpuError::RequestDeviceError(error)
    }
}

impl FromSpecImpl<wgpu::RequestDeviceError> for WgpuError {
    open spec fn obeys_from_spec() -> bool {
        true
    }

    open spec fn from_spec(error: wgpu::RequestDeviceError) -> WgpuError {
        WgpuError::RequestDeviceError(error)
    }
}

impl From<wgpu::CreateSurfaceError> for WgpuError {
    fn from(error: wgpu::CreateSurfaceError) -> (wrapped: WgpuError) {
        WgpuError::CreateSurfaceError(error)
    }
}

impl FromSpecImpl<wgpu::CreateSurfaceError> for WgpuError {
    open spec fn obeys_from_spec() -> bool {
        true
    }

    open spec fn from_spec(error: wgpu::CreateSurfaceError) -> WgpuError {
        WgpuError::CreateSurfaceError(error)
    }
}

} // verus!
