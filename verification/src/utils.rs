//! CoreX device information, capability rules and device detection.
use vstd::prelude::*;
use std::sync::Arc;
use cudarc::driver::CudaContext;
use crate::cuda::{self, DeviceAttribute};
use crate::dtype::DType;
use crate::error::CorexError;
use cudarc::driver::DriverError;

verus! {

/// `cc` is at least compute capability `major.minor`, in the lexicographic order of (major, minor).
pub open spec fn cc_at_least(cc: (u8, u8), major: u8, minor: u8) -> bool {
    cc.0 > major || (cc.0 == major && cc.1 >= minor)
}

/// The capability order is the lexicographic order of (major, minor): a
/// capability is at least `major.minor` exactly when `256 * cc.0 + cc.1` is at
/// least `256 * major + minor`. So a larger major version is at least
/// `major.minor` whatever its minor version.
pub proof fn lemma_capability_order_is_lexicographic(cc: (u8, u8), major: u8, minor: u8)
    ensures
        cc_at_least(cc, major, minor) <==> 256 * cc.0 + cc.1 >= 256 * major + minor,
        cc.0 > major ==> cc_at_least(cc, major, minor),
        cc.0 < major ==> !cc_at_least(cc, major, minor),
{
}

/// Compare a compute capability with `major.minor`, lexicographically.
pub fn compute_capability_at_least(cc: (u8, u8), major: u8, minor: u8) -> (r: bool)
    ensures
        r == cc_at_least(cc, major, minor),
{
    cc.0 > major || (cc.0 == major && cc.1 >= minor)
}

/// CoreX device capabilities and properties.
#[derive(Debug)]
pub struct CorexDeviceInfo {
    /// GPU device ID
    pub gpu_id: usize,
    /// Compute capability (major, minor)
    pub compute_capability: (u8, u8),
    /// Total memory size in bytes
    pub memory_size: usize,
    /// CoreX SDK version
    pub corex_version: String,
    /// Supports BF16 operations
    pub supports_bf16: bool,
    /// Supports FP8 operations
    pub supports_fp8: bool,
    /// Supports Tensor Core operations
    pub supports_tensor_cores: bool,
    /// Maximum threads per block
    pub max_threads_per_block: usize,
    /// Maximum grid dimensions
    pub max_grid_dim: [u32; 3],
    /// Maximum block dimensions
    pub max_block_dim: [u32; 3],
    /// Warp size
    pub warp_size: usize,
}

impl Clone for CorexDeviceInfo {
    fn clone(&self) -> (r: Self)
        ensures
            r.gpu_id == self.gpu_id,
            r.compute_capability == self.compute_capability,
            r.memory_size == self.memory_size,
            r.corex_version@ == self.corex_version@,
            r.supports_bf16 == self.supports_bf16,
            r.supports_fp8 == self.supports_fp8,
            r.supports_tensor_cores == self.supports_tensor_cores,
            r.max_threads_per_block == self.max_threads_per_block,
            r.max_grid_dim == self.max_grid_dim,
            r.max_block_dim == self.max_block_dim,
            r.warp_size == self.warp_size,
    {
        CorexDeviceInfo {
            gpu_id: self.gpu_id,
            compute_capability: (self.compute_capability.0, self.compute_capability.1),
            memory_size: self.memory_size,
            corex_version: self.corex_version.clone(),
            supports_bf16: self.supports_bf16,
            supports_fp8: self.supports_fp8,
            supports_tensor_cores: self.supports_tensor_cores,
            max_threads_per_block: self.max_threads_per_block,
            max_grid_dim: self.max_grid_dim,
            max_block_dim: self.max_block_dim,
            warp_size: self.warp_size,
        }
    }
}

/// Types of GPU operations.
#[derive(Debug, Clone, Copy, PartialEq, Eq, Structural)]
pub enum OperationType {
    /// Matrix multiplication
    MatMul,
    /// Convolution operations
    Convolution,
    /// Element-wise operations
    ElementWise,
    /// Reduction operations
    Reduction,
}

/// CoreX-specific features that can be enabled or disabled.
#[derive(Debug, Clone, Copy, PartialEq, Eq, Structural)]
pub enum CorexFeature {
    /// Brain Float 16 precision
    BF16,
    /// 8-bit Floating Point precision
    FP8,
    /// Tensor Core acceleration
    TensorCores,
    /// Memory pooling
    MemoryPool,
    /// Asynchronous operations
    AsyncOperations,
    /// Kernel caching
    KernelCache,
    /// Custom CUDA kernels
    CustomKernels,
}

impl CorexFeature {
    /// The feature's name as it is shown to users.
    pub fn display_name(&self) -> (r: &'static str)
        ensures
            r@ == (match *self {
                CorexFeature::BF16 => "BF16"@,
                CorexFeature::FP8 => "FP8"@,
                CorexFeature::TensorCores => "Tensor Cores"@,
                CorexFeature::MemoryPool => "Memory Pool"@,
                CorexFeature::AsyncOperations => "Async Operations"@,
                CorexFeature::KernelCache => "Kernel Cache"@,
                CorexFeature::CustomKernels => "Custom Kernels"@,
            }),
    {
        match self {
            CorexFeature::BF16 => "BF16",
            CorexFeature::FP8 => "FP8",
            CorexFeature::TensorCores => "Tensor Cores",
            CorexFeature::MemoryPool => "Memory Pool",
            CorexFeature::AsyncOperations => "Async Operations",
            CorexFeature::KernelCache => "Kernel Cache",
            CorexFeature::CustomKernels => "Custom Kernels",
        }
    }
}

/// The matmul block size for a compute capability: 256 from Ampere (8.0) on,
/// 128 from Turing (7.0) on, 64 before.
pub open spec fn matmul_block_size(cc: (u8, u8)) -> usize {
    if cc_at_least(cc, 8, 0) {
        256
    } else if cc_at_least(cc, 7, 0) {
        128
    } else {
        64
    }
}

impl CorexDeviceInfo {
    /// Enhance device info with CoreX-specific information. Nothing is added
    /// yet: the info is left as it is.
    pub fn enhance_with_corex_info(&mut self) -> (r: Result<(), CorexError>)
        ensures
            r is Ok,
            *final(self) == *old(self),
    {
        Ok(())
    }

    /// Whether the device supports a precision: half precisions need BF16
    /// support, 8-bit floats need FP8 support, every other type is supported.
    pub fn supports_precision(&self, dtype: DType) -> (r: bool)
        ensures
            r == precision_supported(*self, dtype),
    {
        match dtype {
            DType::F16 | DType::BF16 => self.supports_bf16,
            DType::F8E4M3 | DType::F8E5M2 => self.supports_fp8,
            _ => true,
        }
    }

    /// The optimal block size for an operation on this device.
    pub fn optimal_block_size(&self, operation_type: OperationType) -> (r: usize)
        ensures
            r == match operation_type {
                OperationType::MatMul => matmul_block_size(self.compute_capability),
                OperationType::Convolution => if self.supports_tensor_cores { 128usize } else { 64usize },
                OperationType::ElementWise => self.warp_size,
                OperationType::Reduction => 256usize,
            },
    {
        match operation_type {
            OperationType::MatMul => {
                if compute_capability_at_least(self.compute_capability, 8, 0) {
                    256
                } else if compute_capability_at_least(self.compute_capability, 7, 0) {
                    128
                } else {
                    64
                }
            },
            OperationType::Convolution => {
                if self.supports_tensor_cores {
                    128
                } else {
                    64
                }
            },
            OperationType::ElementWise => self.warp_size,
            OperationType::Reduction => 256,
        }
    }

    /// Estimated memory bandwidth in GB/s: 1550 for major version 8 (Ampere),
    /// 900 for major version 7 (Turing), 500 otherwise.
    pub fn estimated_bandwidth(&self) -> (r: u32)
        ensures
            r == if self.compute_capability.0 == 8 {
                1550u32
            } else if self.compute_capability.0 == 7 {
                900u32
            } else {
                500u32
            },
    {
        match self.compute_capability.0 {
            8 => 1550,
            7 => 900,
            _ => 500,
        }
    }
}

/// Properties of a CUDA device as the driver reports them.
#[derive(Debug, Clone)]
pub struct DeviceProperties {
    /// The device's name
    pub name: String,
    /// Compute capability, major part
    pub major: i32,
    /// Compute capability, minor part
    pub minor: i32,
    /// Total memory in bytes
    pub total_memory: usize,
    /// Maximum threads per block
    pub max_threads_per_block: i32,
    /// Maximum grid dimensions
    pub max_grid_dim: [u32; 3],
    /// Maximum block dimensions
    pub max_block_dim: [u32; 3],
    /// Warp size
    pub warp_size: i32,
    /// Maximum resident blocks per multiprocessor
    pub max_blocks_per_multi_processor: i32,
}

impl DeviceProperties {
    /// The properties built from the driver's raw readings: the name, the
    /// (major, minor) compute capability, the total memory, the maximum threads
    /// per block, the maximum grid and block extents along x, y and z (the
    /// driver reports them as `i32`; they are kept as `u32`), the warp size and
    /// the maximum resident blocks per multiprocessor.
    pub fn from_driver_readings(
        name: String,
        capability: (i32, i32),
        total_memory: usize,
        max_threads_per_block: i32,
        grid: [i32; 3],
        block: [i32; 3],
        warp_size: i32,
        blocks_per_sm: i32,
    ) -> (r: DeviceProperties)
        ensures
            r.name@ == name@,
            r.major == capability.0,
            r.minor == capability.1,
            r.total_memory == total_memory,
            r.max_threads_per_block == max_threads_per_block,
            r.max_grid_dim@ == seq![grid[0] as u32, grid[1] as u32, grid[2] as u32],
            r.max_block_dim@ == seq![block[0] as u32, block[1] as u32, block[2] as u32],
            r.warp_size == warp_size,
            r.max_blocks_per_multi_processor == blocks_per_sm,
    {
        let r = DeviceProperties {
            name,
            major: capability.0,
            minor: capability.1,
            total_memory,
            max_threads_per_block,
            max_grid_dim: [grid[0] as u32, grid[1] as u32, grid[2] as u32],
            max_block_dim: [block[0] as u32, block[1] as u32, block[2] as u32],
            warp_size,
            max_blocks_per_multi_processor: blocks_per_sm,
        };
        assert(r.max_grid_dim@ =~= seq![grid[0] as u32, grid[1] as u32, grid[2] as u32]);
        assert(r.max_block_dim@ =~= seq![block[0] as u32, block[1] as u32, block[2] as u32]);
        r
    }
}

/// Read the properties of the device of a context from the driver.
pub fn device_props_of(ctx: &Arc<CudaContext>) -> (r: Result<DeviceProperties, CorexError>)
    ensures
        r matches Err(e) ==> e is CudaError,
{
    let name = match cuda::device_name(ctx) { Ok(v) => v, Err(e) => return Err(CorexError::CudaError(e)) };
    let (major, minor) = match cuda::compute_capability(ctx) { Ok(v) => v, Err(e) => return Err(CorexError::CudaError(e)) };
    let total_memory = match cuda::total_memory(ctx) { Ok(v) => v, Err(e) => return Err(CorexError::CudaError(e)) };
    let max_threads_per_block = match cuda::device_attribute(ctx, DeviceAttribute::MaxThreadsPerBlock) { Ok(v) => v, Err(e) => return Err(CorexError::CudaError(e)) };
    let gx = match cuda::device_attribute(ctx, DeviceAttribute::MaxGridDimX) { Ok(v) => v, Err(e) => return Err(CorexError::CudaError(e)) };
    let gy = match cuda::device_attribute(ctx, DeviceAttribute::MaxGridDimY) { Ok(v) => v, Err(e) => return Err(CorexError::CudaError(e)) };
    let gz = match cuda::device_attribute(ctx, DeviceAttribute::MaxGridDimZ) { Ok(v) => v, Err(e) => return Err(CorexError::CudaError(e)) };
    let bx = match cuda::device_attribute(ctx, DeviceAttribute::MaxBlockDimX) { Ok(v) => v, Err(e) => return Err(CorexError::CudaError(e)) };
    let by = match cuda::device_attribute(ctx, DeviceAttribute::MaxBlockDimY) { Ok(v) => v, Err(e) => return Err(CorexError::CudaError(e)) };
    let bz = match cuda::device_attribute(ctx, DeviceAttribute::MaxBlockDimZ) { Ok(v) => v, Err(e) => return Err(CorexError::CudaError(e)) };
    let warp_size = match cuda::device_attribute(ctx, DeviceAttribute::WarpSize) { Ok(v) => v, Err(e) => return Err(CorexError::CudaError(e)) };
    let blocks_per_sm = match cuda::device_attribute(ctx, DeviceAttribute::MaxBlocksPerMultiprocessor) { Ok(v) => v, Err(e) => return Err(CorexError::CudaError(e)) };
    Ok(DeviceProperties::from_driver_readings(
        name,
        (major, minor),
        total_memory,
        max_threads_per_block,
        [gx, gy, gz],
        [bx, by, bz],
        warp_size,
        blocks_per_sm,
    ))
}

/// Read the properties of a device, given the outcome of opening its context:
/// a driver error in opening is returned as a CUDA error; an opened context is queried.
pub fn get_device_props(opened: Result<Arc<CudaContext>, DriverError>) -> (r: Result<DeviceProperties, CorexError>)
    ensures
        opened matches Err(e) ==> r == Err::<DeviceProperties, CorexError>(CorexError::CudaError(e)),
        r matches Err(e) ==> e is CudaError,
{
    match opened {
        Ok(ctx) => device_props_of(&ctx),
        Err(e) => Err(CorexError::CudaError(e)),
    }
}

/// The device info that the backend derives from driver properties: the
/// compute capability truncated to bytes, BF16 and Tensor Cores from 7.0 on,
/// FP8 from 8.9 on.
pub open spec fn info_matches_props(info: CorexDeviceInfo, gpu_id: usize, props: DeviceProperties, version: Seq<char>) -> bool {
    let cc = (props.major as u8, props.minor as u8);
    &&& info.gpu_id == gpu_id
    &&& info.compute_capability == cc
    &&& info.memory_size == props.total_memory
    &&& info.corex_version@ == version
    &&& info.supports_bf16 == cc_at_least(cc, 7, 0)
    &&& info.supports_fp8 == cc_at_least(cc, 8, 9)
    &&& info.supports_tensor_cores == cc_at_least(cc, 7, 0)
    &&& info.max_threads_per_block == props.max_threads_per_block as usize
    &&& info.max_grid_dim == props.max_grid_dim
    &&& info.max_block_dim == props.max_block_dim
    &&& info.warp_size == props.warp_size as usize
}

/// The capability flags of an info agree with its compute capability.
pub open spec fn info_flags_consistent(info: CorexDeviceInfo) -> bool {
    &&& info.supports_bf16 == cc_at_least(info.compute_capability, 7, 0)
    &&& info.supports_fp8 == cc_at_least(info.compute_capability, 8, 9)
    &&& info.supports_tensor_cores == cc_at_least(info.compute_capability, 7, 0)
}

/// A device whose flags follow its compute capability and that supports FP8
/// also supports BF16 and has Tensor Cores (8.9 is above 7.0).
pub proof fn lemma_fp8_implies_bf16(info: CorexDeviceInfo)
    requires
        info_flags_consistent(info),
        info.supports_fp8,
    ensures
        info.supports_bf16,
        info.supports_tensor_cores,
{
}

/// The flags of a device's info follow its driver-reported compute capability
/// `major.minor` (each within 0..=255): BF16 and Tensor Cores from 7.0 on, FP8
/// from 8.9 on, compared as (major, minor) pairs; so a 9.0 device has FP8.
pub proof fn lemma_info_flags_from_capability(info: CorexDeviceInfo, gpu_id: usize, props: DeviceProperties, version: Seq<char>)
    requires
        info_matches_props(info, gpu_id, props, version),
        0 <= props.major <= 255,
        0 <= props.minor <= 255,
    ensures
        info.supports_bf16 <==> props.major >= 7,
        info.supports_tensor_cores <==> props.major >= 7,
        info.supports_fp8 <==> (props.major > 8 || (props.major == 8 && props.minor >= 9)),
{
    lemma_capability_order_is_lexicographic(info.compute_capability, 7, 0);
    lemma_capability_order_is_lexicographic(info.compute_capability, 8, 9);
}

/// Build the device info of `gpu_id` from its driver properties.
pub fn device_info_from_props(gpu_id: usize, props: &DeviceProperties, corex_version: String) -> (r: CorexDeviceInfo)
    ensures
        info_matches_props(r, gpu_id, *props, corex_version@),
        info_flags_consistent(r),
{
    let compute_cap = (props.major as u8, props.minor as u8);
    let mut device_info = CorexDeviceInfo {
        gpu_id,
        compute_capability: compute_cap,
        memory_size: props.total_memory,
        corex_version,
        supports_bf16: compute_capability_at_least(compute_cap, 7, 0),
        supports_fp8: compute_capability_at_least(compute_cap, 8, 9),
        supports_tensor_cores: compute_capability_at_least(compute_cap, 7, 0),
        max_threads_per_block: props.max_threads_per_block as usize,
        max_grid_dim: props.max_grid_dim,
        max_block_dim: props.max_block_dim,
        warp_size: props.warp_size as usize,
    };
    let _ = device_info.enhance_with_corex_info();
    device_info
}

/// Query device information for a specific GPU, labelled with the given SDK
/// version, from the outcome of reading its properties: an error is returned as
/// it is, properties give the info of `device_info_from_props`.
pub fn query_device_info(gpu_id: usize, corex_version: String, props: Result<DeviceProperties, CorexError>) -> (r: Result<CorexDeviceInfo, CorexError>)
    ensures
        props matches Err(e) ==> r == Err::<CorexDeviceInfo, CorexError>(e),
        props matches Ok(p) ==> (r matches Ok(info) && info_matches_props(info, gpu_id, p, corex_version@)
            && info_flags_consistent(info)),
{
    match props {
        Ok(p) => Ok(device_info_from_props(gpu_id, &p, corex_version)),
        Err(e) => Err(e),
    }
}

/// The SDK version: `COREX_VERSION` when it is set, else "4.3.8" when an SDK
/// home (`COREX_HOME`) is set, else "Unknown".
pub fn get_corex_version(version_var: Option<String>, corex_home_set: bool) -> (r: String)
    ensures
        r@ == match version_var {
            Some(v) => v@,
            None => if corex_home_set { "4.3.8"@ } else { "Unknown"@ },
        },
{
    match version_var {
        Some(version) => version,
        None => if corex_home_set {
            String::from_str("4.3.8")
        } else {
            String::from_str("Unknown")
        },
    }
}

/// `needle` occurs in `hay` at position `i`.
pub open spec fn occurs_at(hay: Seq<char>, needle: Seq<char>, i: int) -> bool {
    0 <= i && i + needle.len() <= hay.len() && hay.subrange(i, i + needle.len()) == needle
}

/// `needle` occurs somewhere in `hay`.
pub open spec fn contains_seq(hay: Seq<char>, needle: Seq<char>) -> bool {
    exists|i: int| occurs_at(hay, needle, i)
}

/// Whether `needle` occurs in `hay`.
pub fn str_contains(hay: &str, needle: &str) -> (r: bool)
    ensures
        r == contains_seq(hay@, needle@),
{
    let n = hay.unicode_len();
    let m = needle.unicode_len();
    if m > n {
        proof {
            assert forall|i: int| !occurs_at(hay@, needle@, i) by {}
        }
        return false;
    }
    let mut i: usize = 0;
    while i <= n - m
        invariant
            n == hay@.len(),
            m == needle@.len(),
            m <= n,
            i <= n - m + 1,
            forall|k: int| 0 <= k < i ==> !occurs_at(hay@, needle@, k),
        decreases n - m + 1 - i,
    {
        let mut j: usize = 0;
        let mut matched = true;
        while j < m
            invariant
                n == hay@.len(),
                m == needle@.len(),
                i + m <= n,
                j <= m,
                matched == (forall|t: int| 0 <= t < j ==> hay@[i + t] == needle@[t]),
            decreases m - j,
        {
            if hay.get_char(i + j) != needle.get_char(j) {
                matched = false;
            }
            j = j + 1;
        }
        if matched {
            proof {
                assert(hay@.subrange(i as int, i + m) =~= needle@);
                assert(occurs_at(hay@, needle@, i as int));
            }
            return true;
        }
        proof {
            assert(!occurs_at(hay@, needle@, i as int)) by {
                if occurs_at(hay@, needle@, i as int) {
                    assert forall|t: int| 0 <= t < m implies hay@[i + t] == needle@[t] by {
                        assert(hay@.subrange(i as int, i + m)[t] == hay@[i + t]);
                    }
                }
            }
        }
        i = i + 1;
    }
    proof {
        assert forall|k: int| !occurs_at(hay@, needle@, k) by {
            if 0 <= k < i {
            }
        }
    }
    false
}

/// A device name marks a CoreX device when it mentions "Iluvatar" or "CoreX".
pub fn name_indicates_corex(name: &str) -> (r: bool)
    ensures
        r == (contains_seq(name@, "Iluvatar"@) || contains_seq(name@, "CoreX"@)),
{
    str_contains(name, "Iluvatar") || str_contains(name, "CoreX")
}

/// Whether a device is a CoreX device, given what reading its properties
/// returned: one whose properties were read is, when its name mentions
/// "Iluvatar" or "CoreX" or when the CoreX environment is configured; one whose
/// properties could not be read is not.
pub fn corex_device_from_props(props: &Result<DeviceProperties, CorexError>, environment_configured: bool) -> (r: bool)
    ensures
        r == match props {
            Ok(p) => contains_seq(p.name@, "Iluvatar"@) || contains_seq(p.name@, "CoreX"@) || environment_configured,
            Err(_) => false,
        },
{
    match props {
        Ok(p) => name_indicates_corex(p.name.as_str()) || environment_configured,
        Err(_) => false,
    }
}

/// The device's properties mark it as a CoreX device (see `corex_device_from_props`).
pub open spec fn device_accepted(props: Result<DeviceProperties, CorexError>, environment_configured: bool) -> bool {
    match props {
        Ok(p) => contains_seq(p.name@, "Iluvatar"@) || contains_seq(p.name@, "CoreX"@) || environment_configured,
        Err(_) => false,
    }
}

/// Check if a device is a CoreX device, given the outcome of reading its
/// properties. Without an available SDK none is; otherwise `corex_device_from_props`
/// decides. The answer is never an error.
pub fn is_corex_device(sdk_available: bool, environment_configured: bool, props: &Result<DeviceProperties, CorexError>) -> (r: Result<bool, CorexError>)
    ensures
        r == Ok::<bool, CorexError>(sdk_available && device_accepted(*props, environment_configured)),
{
    if !sdk_available {
        return Ok(false);
    }
    Ok(corex_device_from_props(props, environment_configured))
}

/// The device count that a driver answer gives: the count it reports, 0 when
/// it reports an error or a negative count, or when no driver was reached (`None`).
pub open spec fn count_from_answer(answer: Option<Result<i32, DriverError>>) -> usize {
    match answer {
        Some(Ok(count)) => if count >= 0 { count as usize } else { 0 },
        _ => 0,
    }
}

/// The device count that a driver answer gives (see `count_from_answer`).
pub fn device_count_from_answer(answer: Option<Result<i32, DriverError>>) -> (r: usize)
    ensures
        r == count_from_answer(answer),
        r <= i32::MAX,
{
    match answer {
        Some(Ok(count)) => if count >= 0 { count as usize } else { 0 },
        _ => 0,
    }
}

/// The ids of the devices that are CoreX devices, in order, given each
/// device's property reading (device `g` at position `g`).
pub open spec fn accepted_ids(props: Seq<Result<DeviceProperties, CorexError>>, environment_configured: bool) -> Seq<usize>
    decreases props.len(),
{
    if props.len() == 0 {
        Seq::empty()
    } else {
        let prev = accepted_ids(props.drop_last(), environment_configured);
        if device_accepted(props.last(), environment_configured) {
            prev.push((props.len() - 1) as usize)
        } else {
            prev
        }
    }
}

/// `v` lists, in order, the info of the devices that `ids` names, each built
/// from its properties with this version.
pub open spec fn infos_match(
    v: Seq<CorexDeviceInfo>,
    ids: Seq<usize>,
    props: Seq<Result<DeviceProperties, CorexError>>,
    version: Seq<char>,
) -> bool {
    &&& v.len() == ids.len()
    &&& forall|i: int| #![trigger v[i]] 0 <= i < v.len() ==> {
        &&& v[i].gpu_id == ids[i]
        &&& 0 <= ids[i] < props.len()
        &&& props[ids[i] as int] matches Ok(p) && info_matches_props(v[i], ids[i], p, version)
        &&& info_flags_consistent(v[i])
    }
}

/// The accepted ids are increasing and below the number of devices.
pub proof fn lemma_accepted_ids_sorted(props: Seq<Result<DeviceProperties, CorexError>>, environment_configured: bool)
    requires
        props.len() <= usize::MAX,
    ensures
        forall|i: int| #![trigger accepted_ids(props, environment_configured)[i]]
            0 <= i < accepted_ids(props, environment_configured).len() ==> accepted_ids(props, environment_configured)[i] < props.len(),
        forall|i: int, j: int| 0 <= i < j < accepted_ids(props, environment_configured).len()
            ==> #[trigger] accepted_ids(props, environment_configured)[i] < #[trigger] accepted_ids(props, environment_configured)[j],
    decreases props.len(),
{
    if props.len() > 0 {
        let prev = accepted_ids(props.drop_last(), environment_configured);
        let cur = accepted_ids(props, environment_configured);
        lemma_accepted_ids_sorted(props.drop_last(), environment_configured);
        assert forall|i: int| 0 <= i < prev.len() implies prev[i] < props.len() - 1 by {
            assert(prev[i] == accepted_ids(props.drop_last(), environment_configured)[i]);
        }
        if device_accepted(props.last(), environment_configured) {
            assert(cur == prev.push((props.len() - 1) as usize));
            assert forall|i: int| #![trigger cur[i]] 0 <= i < cur.len() implies cur[i] < props.len() by {
                if i < prev.len() {
                    assert(cur[i] == prev[i]);
                }
            }
            assert forall|i: int, j: int| 0 <= i < j < cur.len() implies #[trigger] cur[i] < #[trigger] cur[j] by {
                assert(cur[i] == prev[i]);
                if j < prev.len() {
                    assert(cur[j] == prev[j]);
                    assert(prev[i] == accepted_ids(props.drop_last(), environment_configured)[i]);
                    assert(prev[j] == accepted_ids(props.drop_last(), environment_configured)[j]);
                } else {
                    assert(cur[j] == props.len() - 1);
                    assert(prev[i] < props.len() - 1);
                }
            }
        } else {
            assert(cur == prev);
        }
    }
}

/// Detect all available CoreX devices, given the reading of each device's
/// properties (device `g` at position `g`, one for every device the driver
/// reports): none without an available SDK; else the info of every device
/// whose properties mark it as a CoreX device, in device order.
pub fn detect_corex_devices(
    sdk_available: bool,
    environment_configured: bool,
    corex_version: &String,
    device_props: &Vec<Result<DeviceProperties, CorexError>>,
) -> (r: Result<Vec<CorexDeviceInfo>, CorexError>)
    ensures
        !sdk_available ==> (r matches Ok(v) && v@.len() == 0),
        sdk_available ==> (r matches Ok(v)
            && infos_match(v@, accepted_ids(device_props@, environment_configured), device_props@, corex_version@)),
{
    let mut devices: Vec<CorexDeviceInfo> = Vec::new();
    if !sdk_available {
        return Ok(devices);
    }
    let device_count = device_props.len();
    let mut gpu_id: usize = 0;
    while gpu_id < device_count
        invariant
            sdk_available,
            device_count == device_props@.len(),
            gpu_id <= device_count,
            infos_match(devices@, accepted_ids(device_props@.take(gpu_id as int), environment_configured), device_props@, corex_version@),
        decreases device_count - gpu_id,
    {
        let ghost before = devices@;
        let ghost ids = accepted_ids(device_props@.take(gpu_id as int), environment_configured);
        proof {
            assert(device_props@.take(gpu_id + 1).drop_last() =~= device_props@.take(gpu_id as int));
            assert(device_props@.take(gpu_id + 1).last() == device_props@[gpu_id as int]);
        }
        let is_corex = match is_corex_device(sdk_available, environment_configured, &device_props[gpu_id]) {
            Ok(b) => b,
            Err(e) => return Err(e),
        };
        if is_corex {
            match &device_props[gpu_id] {
                Ok(p) => {
                    let device_info = device_info_from_props(gpu_id, p, corex_version.clone());
                    let ghost info = device_info;
                    devices.push(device_info);
                    proof {
                        let ids2 = accepted_ids(device_props@.take(gpu_id + 1), environment_configured);
                        assert(ids2 == ids.push(gpu_id));
                        assert forall|i: int| #![trigger devices@[i]] 0 <= i < devices@.len() implies {
                            &&& devices@[i].gpu_id == ids2[i]
                            &&& 0 <= ids2[i] < device_props@.len()
                            &&& device_props@[ids2[i] as int] matches Ok(q) && info_matches_props(devices@[i], ids2[i], q, corex_version@)
                            &&& info_flags_consistent(devices@[i])
                        } by {
                            if i < before.len() {
                                assert(devices@[i] == before[i]);
                            } else {
                                assert(devices@[i] == info);
                            }
                        }
                    }
                },
                Err(_) => {},
            }
        } else {
            proof {
                assert(accepted_ids(device_props@.take(gpu_id + 1), environment_configured) == ids);
            }
        }
        gpu_id = gpu_id + 1;
    }
    proof {
        assert(device_props@.take(device_count as int) =~= device_props@);
    }
    Ok(devices)
}

/// Recommended device configuration.
#[derive(Debug, Clone, Copy, PartialEq, Eq)]
pub struct DeviceConfig {
    pub gpu_id: usize,
    pub enable_memory_pool: bool,
    pub memory_pool_size: Option<usize>,
    pub preferred_precision: Option<DType>,
    pub enable_async: bool,
    pub stream_priority: i32,
}

/// 4 GiB: devices with more memory than this get the memory pool by default.
pub const POOL_THRESHOLD_BYTES: u64 = 4294967296;

/// 128 GiB: the largest memory pool a configuration may ask for.
pub const MAX_POOL_BYTES: u64 = 137438953472;

/// Four fifths of `n`, rounded down: the 80% share of device memory that the memory pool takes.
pub open spec fn four_fifths(n: usize) -> int {
    (4 * n as int) / 5
}

/// Four fifths of `n`, rounded down, computed without overflow.
pub fn four_fifths_of(n: usize) -> (r: usize)
    ensures
        r == four_fifths(n),
{
    let q = n / 5;
    let rem = n % 5;
    assert(4 * (n as int) == 5 * (4 * q as int) + 4 * rem as int);
    assert((4 * n as int) / 5 == 4 * q as int + (4 * rem as int) / 5) by (nonlinear_arith)
        requires
            4 * (n as int) == 5 * (4 * q as int) + 4 * rem as int,
            0 <= rem < 5,
    ;
    4 * q + (4 * rem) / 5
}

/// Get the recommended configuration for a device: the memory pool for devices
/// with more than 4 GiB, sized at 80% of device memory; FP8 (E5M2) precision
/// where supported, else BF16 where supported, else none; asynchronous
/// operations on, normal stream priority.
pub fn get_recommended_config(device_info: &CorexDeviceInfo) -> (r: DeviceConfig)
    ensures
        r.gpu_id == device_info.gpu_id,
        r.enable_memory_pool == (device_info.memory_size > POOL_THRESHOLD_BYTES),
        r.memory_pool_size == Some(four_fifths(device_info.memory_size) as usize),
        r.preferred_precision == recommended_precision(*device_info),
        r.enable_async,
        r.stream_priority == 0,
{
    DeviceConfig {
        gpu_id: device_info.gpu_id,
        enable_memory_pool: device_info.memory_size as u64 > POOL_THRESHOLD_BYTES,
        memory_pool_size: Some(four_fifths_of(device_info.memory_size)),
        preferred_precision: if device_info.supports_fp8 {
            Some(DType::F8E5M2)
        } else if device_info.supports_bf16 {
            Some(DType::BF16)
        } else {
            None
        },
        enable_async: true,
        stream_priority: 0,
    }
}

/// Whether a device with this info supports a precision (see `CorexDeviceInfo::supports_precision`).
pub open spec fn precision_supported(info: CorexDeviceInfo, dtype: DType) -> bool {
    match dtype {
        DType::F16 | DType::BF16 => info.supports_bf16,
        DType::F8E4M3 | DType::F8E5M2 => info.supports_fp8,
        _ => true,
    }
}

/// The precision recommended for a device: FP8 (E5M2) where supported, else
/// BF16 where supported, else none.
pub open spec fn recommended_precision(info: CorexDeviceInfo) -> Option<DType> {
    if info.supports_fp8 {
        Some(DType::F8E5M2)
    } else if info.supports_bf16 {
        Some(DType::BF16)
    } else {
        None
    }
}

/// The precision that `get_recommended_config` recommends for a device is one
/// that the device supports.
pub proof fn lemma_recommended_precision_supported(info: CorexDeviceInfo)
    ensures
        recommended_precision(info) matches Some(d) ==> precision_supported(info, d),
{
}

/// Half precision (F16 as well as BF16) is supported exactly when the device
/// has BF16 support, whatever its FP8 support; the 8-bit floats exactly when it
/// has FP8 support; the other types always.
pub proof fn lemma_precision_support(info: CorexDeviceInfo)
    ensures
        precision_supported(info, DType::F16) == info.supports_bf16,
        precision_supported(info, DType::BF16) == info.supports_bf16,
        precision_supported(info, DType::F8E4M3) == info.supports_fp8,
        precision_supported(info, DType::F8E5M2) == info.supports_fp8,
        precision_supported(info, DType::F32),
        precision_supported(info, DType::F64),
        precision_supported(info, DType::U8),
        precision_supported(info, DType::U32),
        precision_supported(info, DType::I64),
{
}

/// Two devices that agree on BF16 support agree on half precision, however
/// they differ in FP8 support; a device whose flags follow its capability and
/// that is at least 7.0 supports F16.
pub proof fn lemma_half_precision_ignores_fp8(a: CorexDeviceInfo, b: CorexDeviceInfo)
    requires
        a.supports_bf16 == b.supports_bf16,
    ensures
        precision_supported(a, DType::F16) == precision_supported(b, DType::F16),
        info_flags_consistent(a) && a.compute_capability.0 >= 7 ==> precision_supported(a, DType::F16),
{
    lemma_capability_order_is_lexicographic(a.compute_capability, 7, 0);
}

/// The configuration asks for a memory pool larger than 128 GiB.
pub open spec fn pool_too_large(config: DeviceConfig) -> bool {
    config.memory_pool_size matches Some(p) && p > MAX_POOL_BYTES
}

/// Validate a device configuration against a known number of devices.
pub fn validate_device_config_against(config: &DeviceConfig, device_count: usize) -> (r: Result<(), CorexError>)
    ensures
        config.gpu_id >= device_count ==> r == Err::<(), CorexError>(CorexError::DeviceNotFound { gpu_id: config.gpu_id }),
        config.gpu_id < device_count && pool_too_large(*config) ==> (r matches Err(CorexError::Custom(msg))
            && msg@ == "Memory pool size too large (max 128GB)"@),
        config.gpu_id < device_count && !pool_too_large(*config) ==> r is Ok,
{
    if config.gpu_id >= device_count {
        return Err(CorexError::DeviceNotFound { gpu_id: config.gpu_id });
    }
    if let Some(pool_size) = config.memory_pool_size {
        if pool_size as u64 > MAX_POOL_BYTES {
            return Err(CorexError::Custom(String::from_str("Memory pool size too large (max 128GB)")));
        }
    }
    Ok(())
}

/// Validate a device configuration against the driver's device-count answer
/// (`None` when no driver was reached): the GPU id must name one of the devices
/// that the driver reports (none when it reports an error), and the pool may
/// not exceed 128 GiB.
pub fn validate_device_config(config: &DeviceConfig, driver_answer: Option<Result<i32, DriverError>>) -> (r: Result<(), CorexError>)
    ensures
        config.gpu_id >= count_from_answer(driver_answer)
            ==> r == Err::<(), CorexError>(CorexError::DeviceNotFound { gpu_id: config.gpu_id }),
        config.gpu_id < count_from_answer(driver_answer) && pool_too_large(*config)
            ==> (r matches Err(CorexError::Custom(msg)) && msg@ == "Memory pool size too large (max 128GB)"@),
        config.gpu_id < count_from_answer(driver_answer) && !pool_too_large(*config) ==> r is Ok,
{
    let device_count = device_count_from_answer(driver_answer);
    validate_device_config_against(config, device_count)
}

/// What the host's SDK home (`COREX_HOME`) holds: its `lib64` directory and the
/// libraries the backend needs there.
#[derive(Debug, Clone, Copy, PartialEq, Eq)]
pub struct SdkHomeProbe {
    pub lib64_exists: bool,
    pub libcuda_exists: bool,
    pub libcublas_exists: bool,
    pub libcudart_exists: bool,
}

/// What one standard install location holds: its `lib64` directory and `libcuda.so` there.
#[derive(Debug, Clone, Copy, PartialEq, Eq)]
pub struct SystemInstallProbe {
    pub lib64_exists: bool,
    pub libcuda_exists: bool,
}

/// What the host shows of a CoreX installation: the SDK home when `COREX_HOME`
/// is set, and each standard install location in the order of `COREX_SYSTEM_PATHS`.
#[derive(Debug, Clone)]
pub struct SdkProbe {
    pub corex_home: Option<SdkHomeProbe>,
    pub system_installs: Vec<SystemInstallProbe>,
}

/// The standard install locations of the CoreX SDK, in the order they are tried.
pub const COREX_SYSTEM_PATHS: [&'static str; 3] = ["/opt/iluvatar/corex", "/usr/local/corex", "/opt/corex"];

/// The libraries that an SDK home must hold in its `lib64` directory.
pub const REQUIRED_SDK_LIBS: [&'static str; 3] = ["libcuda.so", "libcublas.so", "libcudart.so"];

/// A standard install location is usable when it holds `lib64/libcuda.so`.
pub open spec fn install_usable(p: SystemInstallProbe) -> bool {
    p.lib64_exists && p.libcuda_exists
}

/// What the installation alone says of availability: an SDK home decides by
/// itself (usable when `lib64` holds every required library); else a usable
/// standard location makes the backend available; else the installation says
/// nothing and the driver decides.
pub open spec fn availability_from_probe(probe: SdkProbe) -> Option<bool> {
    match probe.corex_home {
        Some(h) => Some(h.lib64_exists && h.libcuda_exists && h.libcublas_exists && h.libcudart_exists),
        None => if exists|i: int| 0 <= i < probe.system_installs@.len() && install_usable(#[trigger] probe.system_installs@[i]) {
            Some(true)
        } else {
            None
        },
    }
}

/// What the installation alone says of availability (see `availability_from_probe`).
pub fn sdk_availability(probe: &SdkProbe) -> (r: Option<bool>)
    ensures
        r == availability_from_probe(*probe),
{
    match probe.corex_home {
        Some(h) => {
            return Some(h.lib64_exists && h.libcuda_exists && h.libcublas_exists && h.libcudart_exists);
        },
        None => {},
    }
    let mut i: usize = 0;
    while i < probe.system_installs.len()
        invariant
            probe.corex_home is None,
            i <= probe.system_installs@.len(),
            forall|k: int| 0 <= k < i ==> !install_usable(#[trigger] probe.system_installs@[k]),
        decreases probe.system_installs@.len() - i,
    {
        let p = probe.system_installs[i];
        if p.lib64_exists && p.libcuda_exists {
            return Some(true);
        }
        i = i + 1;
    }
    None
}

/// Whether the backend is available, given what the host shows and the
/// driver's device-count answer (`None` when the driver was not asked or no
/// driver library is present): the installation decides when it can (see
/// `availability_from_probe`); otherwise the backend is available exactly when
/// the driver answered a device count.
pub open spec fn available_with(probe: SdkProbe, driver_answer: Option<Result<i32, DriverError>>) -> bool {
    match availability_from_probe(probe) {
        Some(b) => b,
        None => driver_answer matches Some(Ok(_)),
    }
}

/// Check if the CoreX backend is available (see `available_with`).
pub fn is_corex_available(probe: &SdkProbe, driver_answer: Option<Result<i32, DriverError>>) -> (r: bool)
    ensures
        r == available_with(*probe, driver_answer),
{
    match sdk_availability(probe) {
        Some(b) => b,
        None => match driver_answer {
            Some(Ok(_)) => true,
            _ => false,
        },
    }
}

/// With no SDK home, a standard install location that holds `lib64/libcuda.so`
/// makes the backend available, whichever of the locations it is (the first
/// one included) and whatever the driver answers.
pub proof fn lemma_usable_install_makes_available(probe: SdkProbe, i: int, driver_answer: Option<Result<i32, DriverError>>)
    requires
        probe.corex_home is None,
        0 <= i < probe.system_installs@.len(),
        probe.system_installs@[i].lib64_exists,
        probe.system_installs@[i].libcuda_exists,
    ensures
        availability_from_probe(probe) == Some(true),
        available_with(probe, driver_answer),
{
    assert(install_usable(probe.system_installs@[i]));
}

/// With no SDK home and no standard location holding `lib64/libcuda.so`, the
/// installation says nothing and the backend is available exactly when the
/// driver answered a device count.
pub proof fn lemma_no_install_driver_decides(probe: SdkProbe, driver_answer: Option<Result<i32, DriverError>>)
    requires
        probe.corex_home is None,
        forall|j: int| 0 <= j < probe.system_installs@.len()
            ==> !(#[trigger] probe.system_installs@[j]).lib64_exists || !probe.system_installs@[j].libcuda_exists,
    ensures
        availability_from_probe(probe) is None,
        available_with(probe, driver_answer) == (driver_answer matches Some(Ok(_))),
{
}

/// An SDK home decides by itself: the backend is available exactly when its
/// `lib64` holds `libcuda.so`, `libcublas.so` and `libcudart.so`, whatever the
/// standard locations hold and the driver answers.
pub proof fn lemma_sdk_home_decides(probe: SdkProbe, driver_answer: Option<Result<i32, DriverError>>)
    requires
        probe.corex_home is Some,
    ensures
        available_with(probe, driver_answer) == ({
            let h = probe.corex_home->0;
            h.lib64_exists && h.libcuda_exists && h.libcublas_exists && h.libcudart_exists
        }),
{
}

} // verus!
