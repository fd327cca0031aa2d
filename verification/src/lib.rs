//! A GPU backend layer for CoreX (Iluvatar) accelerators built on the CUDA driver API.
//!
//! The crate keeps the decisions of the backend (device capability queries,
//! launch geometry, memory-pool bookkeeping, configuration rules) in verified
//! code; the CUDA driver is reached through `cudarc`. Reading the host's
//! environment and file system is left to the caller, who hands the results in.
use vstd::prelude::*;

pub mod cuda;
pub mod device;
pub mod dtype;
pub mod error;
pub mod kernels;
pub mod storage;
pub mod utils;

use crate::device::{CorexDevice, CudaDevice};
use std::sync::Arc;
use cudarc::driver::{CudaContext, DriverError};
use crate::dtype::DType;
use crate::utils::count_from_answer;
pub use crate::error::CorexError;

verus! {

/// CoreX backend configuration.
#[derive(Debug, Clone)]
pub struct CorexConfig {
    /// Memory pool size in bytes
    pub memory_pool_size: Option<usize>,
    /// Enable memory optimizations
    pub enable_memory_optimization: bool,
    /// Enable kernel caching
    pub enable_kernel_cache: bool,
    /// Preferred precision
    pub preferred_precision: Option<DType>,
    /// Additional environment variables, as (name, value) pairs
    pub env_vars: Vec<(String, String)>,
}

/// No variable is named twice, so the order in which they are applied does not matter.
pub open spec fn env_names_distinct(vars: Seq<(String, String)>) -> bool {
    forall|i: int, j: int| 0 <= i < j < vars.len() ==> #[trigger] vars[i].0@ != #[trigger] vars[j].0@
}

impl Default for CorexConfig {
    /// Memory optimization and kernel caching on, pool size and precision left
    /// open, and the runtime's tuning variables: `COREX_MEMORY_POOL=1`,
    /// `COREX_KERNEL_CACHE=1`, `COREX_PRECISION=auto`.
    fn default() -> (r: Self)
        ensures
            r.memory_pool_size is None,
            r.enable_memory_optimization,
            r.enable_kernel_cache,
            r.preferred_precision is None,
            r.env_vars@.len() == 3,
            r.env_vars@[0].0@ == "COREX_MEMORY_POOL"@ && r.env_vars@[0].1@ == "1"@,
            r.env_vars@[1].0@ == "COREX_KERNEL_CACHE"@ && r.env_vars@[1].1@ == "1"@,
            r.env_vars@[2].0@ == "COREX_PRECISION"@ && r.env_vars@[2].1@ == "auto"@,
            env_names_distinct(r.env_vars@),
    {
        proof {
            reveal_strlit("COREX_MEMORY_POOL");
            reveal_strlit("COREX_KERNEL_CACHE");
            reveal_strlit("COREX_PRECISION");
        }
        let mut env_vars: Vec<(String, String)> = Vec::new();
        env_vars.push((String::from_str("COREX_MEMORY_POOL"), String::from_str("1")));
        env_vars.push((String::from_str("COREX_KERNEL_CACHE"), String::from_str("1")));
        env_vars.push((String::from_str("COREX_PRECISION"), String::from_str("auto")));
        CorexConfig {
            memory_pool_size: None,
            enable_memory_optimization: true,
            enable_kernel_cache: true,
            preferred_precision: None,
            env_vars,
        }
    }
}

/// The library search path with an SDK home in front: `<corex_home>/lib64:<current>`.
pub fn sdk_library_path(corex_home: &str, current: &str) -> (r: String)
    ensures
        r@ == corex_home@ + "/lib64:"@ + current@,
{
    let mut path = String::from_str(corex_home);
    path.append("/lib64:");
    path.append(current);
    path
}

/// The devices that the backend hands out.
pub enum Device {
    /// A CoreX device.
    Corex(CorexDevice),
    /// A plain CUDA device.
    Cuda(CudaDevice),
}

/// Get the number of available CoreX devices, given the driver's device-count
/// answer (`None` when no driver was reached): none when CoreX is not
/// available; otherwise the count that the answer gives (see
/// `count_from_answer`). The answer is never an error.
pub fn corex_device_count(corex_available: bool, driver_answer: Option<Result<i32, DriverError>>) -> (r: Result<usize, CorexError>)
    ensures
        r == Ok::<usize, CorexError>(if corex_available { count_from_answer(driver_answer) } else { 0 }),
{
    if !corex_available {
        return Ok(0);
    }
    Ok(crate::utils::device_count_from_answer(driver_answer))
}

/// Create a CoreX device if available, falling back to CUDA. `corex_attempt`
/// is the outcome of opening the CoreX device (`None` when CoreX is not
/// available and no attempt was made); `cuda_opened` is the outcome of opening
/// the context of device `gpu_id` for the fallback (`None` when it was not
/// needed). A CoreX device that opened is returned; otherwise the plain CUDA
/// device `gpu_id` is, and the only error is the fallback's CUDA error, never
/// the CoreX attempt's.
pub fn create_device_with_fallback(
    gpu_id: usize,
    corex_attempt: Option<Result<CorexDevice, CorexError>>,
    cuda_opened: Option<Result<Arc<CudaContext>, DriverError>>,
) -> (r: Result<Device, CorexError>)
    requires
        !(corex_attempt matches Some(Ok(_))) ==> cuda_opened is Some,
    ensures
        corex_attempt matches Some(Ok(d)) ==> r == Ok::<Device, CorexError>(Device::Corex(d)),
        cuda_opened matches Some(Err(e)) ==> (!(corex_attempt matches Some(Ok(_)))
            ==> r == Err::<Device, CorexError>(CorexError::CudaError(e))),
        cuda_opened matches Some(Ok(ctx)) ==> (!(corex_attempt matches Some(Ok(_)))
            ==> (r matches Ok(Device::Cuda(c)) && c.spec_gpu_id() == gpu_id && c.spec_context() == ctx
                && !c.spec_own_stream())),
{
    match corex_attempt {
        Some(Ok(device)) => Ok(Device::Corex(device)),
        _ => Ok(Device::Cuda(CudaDevice::new(gpu_id, cuda_opened.unwrap())?)),
    }
}

} // verus!
