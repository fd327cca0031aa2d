//! Errors of the CoreX backend.
use vstd::prelude::*;
use cudarc::driver::DriverError;
use crate::utils::CorexFeature;

verus! {

/// CoreX backend error types.
#[derive(Debug)]
pub enum CorexError {
    /// No CoreX device with this id.
    DeviceNotFound { gpu_id: usize },
    /// The CoreX SDK is not installed or not configured.
    SdkNotFound,
    /// A feature that the device does not offer was asked for.
    UnsupportedFeature { feature: CorexFeature },
    /// The memory pool would exceed its limit.
    MemoryAllocationFailed { size: usize },
    /// A CUDA driver call failed.
    CudaError(DriverError),
    /// Any other failure, described in words.
    Custom(String),
}

} // verus!
