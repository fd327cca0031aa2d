//! The CUDA driver types and calls the backend relies on, reached through `cudarc`.
//!
//! Every item here is trusted, not proved. The driver's answers depend on the
//! machine, so the calls promise nothing of the values they return. Every call
//! here takes a context or a module, which exists only once the CUDA driver
//! library has been loaded; the calls that open the driver (counting devices,
//! opening a context) are made by the caller, which hands their outcomes in.
use vstd::prelude::*;
use std::sync::Arc;
use cudarc::driver::{CudaContext, CudaFunction, CudaModule, CudaStream, DriverError};
use cudarc::driver::sys::CUdevice_attribute;

verus! {

/// A failed CUDA driver call (`cudarc::driver::DriverError`), carried through unchanged.
#[verifier::external_type_specification]
#[verifier::external_body]
pub struct ExDriverError(cudarc::driver::DriverError);

/// A CUDA context bound to one device (`cudarc::driver::CudaContext`).
#[verifier::external_type_specification]
#[verifier::external_body]
pub struct ExCudaContext(cudarc::driver::CudaContext);

/// A CUDA stream of a context (`cudarc::driver::CudaStream`).
#[verifier::external_type_specification]
#[verifier::external_body]
pub struct ExCudaStream(cudarc::driver::CudaStream);

/// A loaded CUDA module (`cudarc::driver::CudaModule`).
#[verifier::external_type_specification]
#[verifier::external_body]
pub struct ExCudaModule(cudarc::driver::CudaModule);

/// A kernel of a loaded module (`cudarc::driver::CudaFunction`).
#[verifier::external_type_specification]
#[verifier::external_body]
pub struct ExCudaFunction(cudarc::driver::CudaFunction);

/// A device property that the backend reads.
#[derive(Clone, Copy, Debug, PartialEq, Eq, Structural)]
pub enum DeviceAttribute {
    MaxThreadsPerBlock,
    MaxBlockDimX,
    MaxBlockDimY,
    MaxBlockDimZ,
    MaxGridDimX,
    MaxGridDimY,
    MaxGridDimZ,
    WarpSize,
    MaxBlocksPerMultiprocessor,
}

/// `CudaContext::default_stream`: the context's default stream; it cannot fail.
#[verifier::external_body]
pub(crate) fn default_stream(ctx: &Arc<CudaContext>) -> (r: Arc<CudaStream>) {
    ctx.default_stream()
}

/// `CudaContext::new_stream`: a new non-blocking stream of the context, or the driver's error.
#[verifier::external_body]
pub(crate) fn new_stream(ctx: &Arc<CudaContext>) -> (r: Result<Arc<CudaStream>, DriverError>) {
    ctx.new_stream()
}

/// `CudaContext::compute_capability`: the device's (major, minor) compute capability.
#[verifier::external_body]
pub(crate) fn compute_capability(ctx: &Arc<CudaContext>) -> (r: Result<(i32, i32), DriverError>) {
    ctx.compute_capability()
}

/// `CudaContext::total_mem`: the device's total memory in bytes.
#[verifier::external_body]
pub(crate) fn total_memory(ctx: &Arc<CudaContext>) -> (r: Result<usize, DriverError>) {
    ctx.total_mem()
}

/// `CudaContext::name`: the device's name as the driver reports it.
#[verifier::external_body]
pub(crate) fn device_name(ctx: &Arc<CudaContext>) -> (r: Result<String, DriverError>) {
    ctx.name()
}

/// `CudaContext::attribute`: the value of one device attribute.
#[verifier::external_body]
pub(crate) fn device_attribute(ctx: &Arc<CudaContext>, attr: DeviceAttribute) -> (r: Result<i32, DriverError>) {
    let a = match attr {
        DeviceAttribute::MaxThreadsPerBlock => CUdevice_attribute::CU_DEVICE_ATTRIBUTE_MAX_THREADS_PER_BLOCK,
        DeviceAttribute::MaxBlockDimX => CUdevice_attribute::CU_DEVICE_ATTRIBUTE_MAX_BLOCK_DIM_X,
        DeviceAttribute::MaxBlockDimY => CUdevice_attribute::CU_DEVICE_ATTRIBUTE_MAX_BLOCK_DIM_Y,
        DeviceAttribute::MaxBlockDimZ => CUdevice_attribute::CU_DEVICE_ATTRIBUTE_MAX_BLOCK_DIM_Z,
        DeviceAttribute::MaxGridDimX => CUdevice_attribute::CU_DEVICE_ATTRIBUTE_MAX_GRID_DIM_X,
        DeviceAttribute::MaxGridDimY => CUdevice_attribute::CU_DEVICE_ATTRIBUTE_MAX_GRID_DIM_Y,
        DeviceAttribute::MaxGridDimZ => CUdevice_attribute::CU_DEVICE_ATTRIBUTE_MAX_GRID_DIM_Z,
        DeviceAttribute::WarpSize => CUdevice_attribute::CU_DEVICE_ATTRIBUTE_WARP_SIZE,
        DeviceAttribute::MaxBlocksPerMultiprocessor => CUdevice_attribute::CU_DEVICE_ATTRIBUTE_MAX_BLOCKS_PER_MULTIPROCESSOR,
    };
    ctx.attribute(a)
}

/// `CudaModule::load_function`: looks a kernel up by name in a loaded module, or
/// returns the driver's error. `cudarc` panics on a name holding a NUL character,
/// which `requires` leaves out.
#[verifier::external_body]
pub(crate) fn load_function(module: &Arc<CudaModule>, name: &str) -> (r: Result<CudaFunction, DriverError>)
    requires
        !name@.contains('\0'),
{
    module.load_function(name)
}

} // verus!
