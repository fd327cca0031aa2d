//! Launch geometry and configuration of the CoreX-optimized kernels, and the
//! kernel-profile rules of a device.
use vstd::prelude::*;
use std::sync::Arc;
use cudarc::driver::{CudaContext, CudaModule};
use crate::cuda;
use crate::dtype::DType;
use crate::error::CorexError;
use crate::utils::{cc_at_least, compute_capability_at_least, device_props_of, DeviceProperties};

verus! {

/// `a / b` rounded up.
pub open spec fn ceil_div(a: int, b: int) -> int {
    (a + b - 1) / b
}

/// `a / b` rounded up, computed without overflow.
pub fn div_ceil(a: usize, b: usize) -> (r: usize)
    requires
        b > 0,
    ensures
        r == ceil_div(a as int, b as int),
{
    let q = a / b;
    let rem = a % b;
    assert(a as int == b * q + rem) by (nonlinear_arith)
        requires
            q == a / b,
            rem == a % b,
            b > 0,
    ;
    if rem == 0 {
        assert((a + b - 1) / (b as int) == q) by (nonlinear_arith)
            requires
                a as int == b * q,
                b > 0,
        ;
        q
    } else {
        assert((a + b - 1) / (b as int) == q + 1) by (nonlinear_arith)
            requires
                a as int == b * q + rem,
                0 < rem < b,
        ;
        assert(q < usize::MAX) by (nonlinear_arith)
            requires
                a as int == b * q + rem,
                0 < rem < b,
                a <= usize::MAX,
        ;
        q + 1
    }
}

/// Rounding up covers exactly: `ceil_div(a, b)` blocks of `b` reach `a`, and
/// one block fewer would not.
pub proof fn lemma_ceil_div_covers(a: int, b: int)
    requires
        a >= 0,
        b > 0,
    ensures
        ceil_div(a, b) * b >= a,
        (ceil_div(a, b) - 1) * b < a || a == 0,
        0 <= ceil_div(a, b) <= a,
{
    let c = ceil_div(a, b);
    vstd::arithmetic::div_mod::lemma_fundamental_div_mod(a + b - 1, b);
    let r = (a + b - 1) % b;
    assert(0 <= r < b) by {
        vstd::arithmetic::div_mod::lemma_mod_bound(a + b - 1, b);
    }
    assert(a + b - 1 == b * c + r);
    assert(c * b >= a) by (nonlinear_arith)
        requires
            a + b - 1 == b * c + r,
            r < b,
    ;
    assert((c - 1) * b < a) by (nonlinear_arith)
        requires
            a + b - 1 == b * c + r,
            0 <= r,
    ;
    assert(0 <= c <= a) by (nonlinear_arith)
        requires
            a + b - 1 == b * c + r,
            0 <= r < b,
            a >= 0,
            b > 0,
    ;
}

/// The GEMM launch covers the whole M by N output: its grid of blocks reaches
/// every row and column, with less than one block to spare in each direction.
pub proof fn lemma_gemm_grid_covers(m: usize, n: usize, cc: (u8, u8))
    ensures
        ({
            let (block, grid, _) = gemm_launch_config(m, n, cc);
            &&& grid.0 * block.0 >= m
            &&& grid.1 * block.1 >= n
            &&& (m == 0 || (grid.0 - 1) * block.0 < m)
            &&& (n == 0 || (grid.1 - 1) * block.1 < n)
        }),
{
    let b = gemm_block_size(cc);
    lemma_ceil_div_covers(m as int, b.0 as int);
    lemma_ceil_div_covers(n as int, b.1 as int);
}

/// The grid, block and dynamic shared memory of a kernel launch.
#[derive(Clone, Copy, Debug, PartialEq, Eq)]
pub struct KernelLaunch {
    pub grid: (usize, usize, usize),
    pub block: (usize, usize, usize),
    pub shared_mem_bytes: usize,
}

/// Every dimension of the launch fits the driver's 32-bit launch parameters.
pub open spec fn launch_fits_u32(l: KernelLaunch) -> bool {
    &&& l.grid.0 <= u32::MAX && l.grid.1 <= u32::MAX && l.grid.2 <= u32::MAX
    &&& l.block.0 <= u32::MAX && l.block.1 <= u32::MAX && l.block.2 <= u32::MAX
    &&& l.shared_mem_bytes <= u32::MAX
}

/// A launch dimension as the driver takes it, when it fits.
fn dim_u32(v: usize) -> (r: Option<u32>)
    ensures
        r matches Some(x) ==> x == v,
        r is Some <==> v <= u32::MAX,
{
    if v <= 4294967295usize {
        Some(v as u32)
    } else {
        None
    }
}

impl KernelLaunch {
    /// The launch as the driver takes it (grid, block, shared memory, each
    /// dimension 32-bit), or `None` when some dimension does not fit.
    pub fn driver_dims(&self) -> (r: Option<((u32, u32, u32), (u32, u32, u32), u32)>)
        ensures
            r is Some <==> launch_fits_u32(*self),
            r matches Some(d) ==> {
                &&& d.0.0 == self.grid.0 && d.0.1 == self.grid.1 && d.0.2 == self.grid.2
                &&& d.1.0 == self.block.0 && d.1.1 == self.block.1 && d.1.2 == self.block.2
                &&& d.2 == self.shared_mem_bytes
            },
    {
        let gx = dim_u32(self.grid.0)?;
        let gy = dim_u32(self.grid.1)?;
        let gz = dim_u32(self.grid.2)?;
        let bx = dim_u32(self.block.0)?;
        let by = dim_u32(self.block.1)?;
        let bz = dim_u32(self.block.2)?;
        let sm = dim_u32(self.shared_mem_bytes)?;
        Some(((gx, gy, gz), (bx, by, bz), sm))
    }
}

/// CoreX-optimized GEMM kernel configuration.
#[derive(Clone, Copy, Debug, PartialEq, Eq)]
pub struct CorexGemmConfig {
    /// Matrix dimensions (M, N, K)
    pub dimensions: (usize, usize, usize),
    /// Data type
    pub dtype: DType,
    /// Use Tensor Cores if available
    pub use_tensor_cores: bool,
    /// Block size for kernel launch
    pub block_size: (usize, usize),
    /// Grid size for kernel launch
    pub grid_size: (usize, usize),
    /// Shared memory size per block
    pub shared_mem_size: usize,
}

/// The GEMM block shape for a compute capability: (32, 8) on major version 8
/// (Ampere), (16, 16) on 7 (Turing), (32, 4) otherwise.
pub open spec fn gemm_block_size(cc: (u8, u8)) -> (usize, usize) {
    if cc.0 == 8 {
        (32, 8)
    } else if cc.0 == 7 {
        (16, 16)
    } else {
        (32, 4)
    }
}

/// The GEMM launch configuration: the block shape of `gemm_block_size`, enough
/// blocks to cover M by N, and shared memory for one tile of 8-byte elements.
pub open spec fn gemm_launch_config(m: usize, n: usize, cc: (u8, u8)) -> ((usize, usize), (usize, usize), usize) {
    let b = gemm_block_size(cc);
    (b, (ceil_div(m as int, b.0 as int) as usize, ceil_div(n as int, b.1 as int) as usize), (b.0 * b.1 * 8) as usize)
}

impl CorexGemmConfig {
    /// Create the optimal configuration for given matrix dimensions; Tensor
    /// Cores are used from compute capability 7.0 on.
    pub fn optimize_for(m: usize, n: usize, k: usize, dtype: DType, compute_cap: (u8, u8)) -> (r: Self)
        ensures
            r.dimensions == (m, n, k),
            r.dtype == dtype,
            r.use_tensor_cores == cc_at_least(compute_cap, 7, 0),
            (r.block_size, r.grid_size, r.shared_mem_size) == gemm_launch_config(m, n, compute_cap),
    {
        let (block_size, grid_size, shared_mem_size) = Self::calculate_optimal_config(m, n, k, compute_cap);
        CorexGemmConfig {
            dimensions: (m, n, k),
            dtype,
            use_tensor_cores: compute_capability_at_least(compute_cap, 7, 0),
            block_size,
            grid_size,
            shared_mem_size,
        }
    }

    /// Calculate the optimal kernel configuration (block, grid, shared memory).
    fn calculate_optimal_config(m: usize, n: usize, k: usize, compute_cap: (u8, u8)) -> (r: ((usize, usize), (usize, usize), usize))
        ensures
            r == gemm_launch_config(m, n, compute_cap),
    {
        let block_size: (usize, usize) = match compute_cap.0 {
            8 => (32, 8),
            7 => (16, 16),
            _ => (32, 4),
        };
        let grid_size = (div_ceil(m, block_size.0), div_ceil(n, block_size.1));
        let shared_mem_size = block_size.0 * block_size.1 * 8;
        (block_size, grid_size, shared_mem_size)
    }
}

/// CoreX-optimized attention kernel for transformer models.
pub struct CorexAttentionKernel;

/// Threads per block of the f32 attention kernel.
pub const ATTENTION_BLOCK_F32: usize = 128;

/// Threads per block of the reduced-precision attention kernel.
pub const ATTENTION_BLOCK_HALF: usize = 64;

/// One thread per entry of the `seq_len` by `seq_len` score matrix, in
/// one-dimensional blocks of `block` threads.
pub open spec fn attention_launch(seq_len: usize, block: usize) -> KernelLaunch {
    KernelLaunch {
        grid: (ceil_div(seq_len * seq_len, block as int) as usize, 1, 1),
        block: (block, 1, 1),
        shared_mem_bytes: 0,
    }
}

impl CorexAttentionKernel {
    /// Launch geometry of the f32 scaled-dot-product attention kernel.
    pub fn launch_geometry(seq_len: usize) -> (r: KernelLaunch)
        requires
            seq_len * seq_len <= usize::MAX,
        ensures
            r == attention_launch(seq_len, ATTENTION_BLOCK_F32),
    {
        let cells = seq_len * seq_len;
        KernelLaunch { grid: (div_ceil(cells, ATTENTION_BLOCK_F32), 1, 1), block: (ATTENTION_BLOCK_F32, 1, 1), shared_mem_bytes: 0 }
    }

    /// Launch geometry of the reduced-precision attention kernel: smaller blocks.
    pub fn launch_geometry_bf16(seq_len: usize) -> (r: KernelLaunch)
        requires
            seq_len * seq_len <= usize::MAX,
        ensures
            r == attention_launch(seq_len, ATTENTION_BLOCK_HALF),
    {
        let cells = seq_len * seq_len;
        KernelLaunch { grid: (div_ceil(cells, ATTENTION_BLOCK_HALF), 1, 1), block: (ATTENTION_BLOCK_HALF, 1, 1), shared_mem_bytes: 0 }
    }
}

/// CoreX-optimized convolution kernels.
pub struct CorexConvKernel;

/// The output extent of a convolution along one axis.
pub open spec fn conv_output_size(input: int, kernel_size: int, stride: int, padding: int) -> int {
    (input + 2 * padding - kernel_size) / stride + 1
}

/// The inputs on which a convolution's output extent is defined: a positive
/// stride, a kernel no larger than the padded input, and no overflow (of the
/// padded input or of the extent).
pub open spec fn conv_extent_ok(input: usize, kernel_size: usize, stride: usize, padding: usize) -> bool {
    &&& stride > 0
    &&& input + 2 * padding <= usize::MAX
    &&& kernel_size <= input + 2 * padding
    &&& conv_output_size(input as int, kernel_size as int, stride as int, padding as int) <= usize::MAX
}

/// Two-dimensional blocks of 16 by 16 threads over the output plane, one grid
/// layer per (batch, output channel) pair.
pub open spec fn conv2d_launch(batch_size: usize, out_channels: usize, out_height: usize, out_width: usize) -> KernelLaunch {
    KernelLaunch {
        grid: (ceil_div(out_width as int, 16) as usize, ceil_div(out_height as int, 16) as usize, (batch_size * out_channels) as usize),
        block: (16, 16, 1),
        shared_mem_bytes: 0,
    }
}

/// The output extent counts the kernel windows along an axis: the last window,
/// at offset `(out - 1) * stride`, lies within the padded input, and one more
/// step of the stride would run past it.
pub proof fn lemma_conv_output_size_counts_windows(input: usize, kernel_size: usize, stride: usize, padding: usize)
    requires
        conv_extent_ok(input, kernel_size, stride, padding),
    ensures
        ({
            let out = conv_output_size(input as int, kernel_size as int, stride as int, padding as int);
            &&& out >= 1
            &&& (out - 1) * stride + kernel_size <= input + 2 * padding
            &&& out * stride + kernel_size > input + 2 * padding
        }),
{
    let a = input + 2 * padding - kernel_size;
    let b = stride as int;
    let q = a / b;
    vstd::arithmetic::div_mod::lemma_fundamental_div_mod(a, b);
    vstd::arithmetic::div_mod::lemma_mod_bound(a, b);
    assert(q >= 0) by (nonlinear_arith)
        requires a >= 0, b > 0, q == a / b,
    ;
    assert(q * b <= a && (q + 1) * b > a) by (nonlinear_arith)
        requires a == b * q + a % b, 0 <= a % b < b,
    ;
}

/// The convolution launch covers the output plane with blocks of 16 by 16
/// threads, with less than one block to spare along each axis, and runs one
/// grid layer per (batch, output channel) pair.
pub proof fn lemma_conv2d_launch_covers(batch_size: usize, out_channels: usize, out_height: usize, out_width: usize)
    requires
        batch_size * out_channels <= usize::MAX,
    ensures
        ({
            let l = conv2d_launch(batch_size, out_channels, out_height, out_width);
            &&& l.block == (16usize, 16usize, 1usize)
            &&& l.grid.0 * 16 >= out_width
            &&& l.grid.1 * 16 >= out_height
            &&& (out_width == 0 || (l.grid.0 - 1) * 16 < out_width)
            &&& (out_height == 0 || (l.grid.1 - 1) * 16 < out_height)
            &&& l.grid.2 == batch_size * out_channels
        }),
{
    lemma_ceil_div_covers(out_width as int, 16);
    lemma_ceil_div_covers(out_height as int, 16);
}

impl CorexConvKernel {
    /// The output extent of a convolution along one axis:
    /// `(input + 2 * padding - kernel_size) / stride + 1`.
    pub fn output_size(input: usize, kernel_size: usize, stride: usize, padding: usize) -> (r: usize)
        requires
            conv_extent_ok(input, kernel_size, stride, padding),
        ensures
            r == conv_output_size(input as int, kernel_size as int, stride as int, padding as int),
    {
        let q = (input + 2 * padding - kernel_size) / stride;
        q + 1
    }

    /// Output extents and launch geometry of the 2D convolution kernel.
    pub fn conv2d_geometry(
        batch_size: usize,
        out_channels: usize,
        in_height: usize,
        in_width: usize,
        kernel_size: usize,
        stride: usize,
        padding: usize,
    ) -> (r: (usize, usize, KernelLaunch))
        requires
            conv_extent_ok(in_height, kernel_size, stride, padding),
            conv_extent_ok(in_width, kernel_size, stride, padding),
            batch_size * out_channels <= usize::MAX,
        ensures
            r.0 == conv_output_size(in_height as int, kernel_size as int, stride as int, padding as int),
            r.1 == conv_output_size(in_width as int, kernel_size as int, stride as int, padding as int),
            r.2 == conv2d_launch(batch_size, out_channels, r.0, r.1),
    {
        let out_height = Self::output_size(in_height, kernel_size, stride, padding);
        let out_width = Self::output_size(in_width, kernel_size, stride, padding);
        let grid = (div_ceil(out_width, 16), div_ceil(out_height, 16), batch_size * out_channels);
        (out_height, out_width, KernelLaunch { grid, block: (16, 16, 1), shared_mem_bytes: 0 })
    }
}

/// CoreX memory optimization kernels.
pub struct CorexMemoryKernel;

/// Threads per block of the memory kernels.
pub const MEMORY_KERNEL_BLOCK: usize = 256;

/// One thread per element, in one-dimensional blocks of 256 threads.
pub open spec fn linear_launch(elements: usize) -> KernelLaunch {
    KernelLaunch {
        grid: (ceil_div(elements as int, 256) as usize, 1, 1),
        block: (256, 1, 1),
        shared_mem_bytes: 0,
    }
}

/// A linear launch runs one thread for every element, with less than one
/// block to spare.
pub proof fn lemma_linear_launch_covers(elements: usize)
    ensures
        linear_launch(elements).grid.0 * linear_launch(elements).block.0 >= elements,
        elements == 0 || (linear_launch(elements).grid.0 - 1) * linear_launch(elements).block.0 < elements,
{
    lemma_ceil_div_covers(elements as int, 256);
}

/// An attention launch runs one thread for every entry of the score matrix,
/// with less than one block to spare.
pub proof fn lemma_attention_launch_covers(seq_len: usize, block: usize)
    requires
        block > 0,
        seq_len * seq_len <= usize::MAX,
    ensures
        attention_launch(seq_len, block).grid.0 * block >= seq_len * seq_len,
        seq_len == 0 || (attention_launch(seq_len, block).grid.0 - 1) * block < seq_len * seq_len,
{
    lemma_ceil_div_covers(seq_len * seq_len, block as int);
    assert(seq_len * seq_len >= 0) by (nonlinear_arith);
    assert(seq_len == 0 || seq_len * seq_len > 0) by (nonlinear_arith);
}

impl CorexMemoryKernel {
    /// Launch geometry of the optimized copy of `size` bytes.
    pub fn copy_geometry(size: usize) -> (r: KernelLaunch)
        ensures
            r == linear_launch(size),
    {
        KernelLaunch { grid: (div_ceil(size, MEMORY_KERNEL_BLOCK), 1, 1), block: (MEMORY_KERNEL_BLOCK, 1, 1), shared_mem_bytes: 0 }
    }

    /// Element count and launch geometry of the layout transformation of a
    /// `src_dims.0` by `src_dims.1` matrix.
    pub fn layout_transform_geometry(src_dims: (usize, usize)) -> (r: (usize, KernelLaunch))
        requires
            src_dims.0 * src_dims.1 <= usize::MAX,
        ensures
            r.0 == src_dims.0 * src_dims.1,
            r.1 == linear_launch(r.0),
    {
        let total_elements = src_dims.0 * src_dims.1;
        (total_elements, Self::copy_geometry(total_elements))
    }
}

/// The names of the CoreX-specific kernels that a module must provide.
pub const COREX_KERNEL_NAMES: [&'static str; 5] = [
    "corex_scaled_dot_product_attention_f32",
    "corex_scaled_dot_product_attention_bf16",
    "corex_conv2d_f32",
    "corex_optimized_copy",
    "corex_layout_transform_f32",
];

/// Kernel compilation and loading utilities.
pub struct CorexKernelCompiler;

/// Performance benchmarking utilities.
pub struct CorexBenchmarker;

/// Kernel performance profile of a device.
#[derive(Debug, Clone, Copy, PartialEq, Eq)]
pub struct KernelProfile {
    pub compute_capability: (u8, u8),
    pub max_threads_per_block: usize,
    pub max_blocks_per_sm: i32,
    pub warps_per_block: usize,
    pub supports_tensor_cores: bool,
    pub supports_bf16: bool,
    pub supports_fp8: bool,
    pub optimal_tile_size: usize,
    /// Estimated memory bandwidth, in whole GB/s.
    pub memory_bandwidth_gb_per_s: u32,
}

/// The tile size for a compute capability: 128 on major version 8 (Ampere),
/// 64 on 7 (Turing), 32 otherwise.
pub open spec fn tile_size_for(cc: (u8, u8)) -> usize {
    if cc.0 == 8 {
        128
    } else if cc.0 == 7 {
        64
    } else {
        32
    }
}

/// Estimated memory bandwidth in GB/s of a compute capability: 1555 for 8.7
/// and 8.6, 936 for 8.0, 620 for 7.5, 900 for 7.0, 911 for 6.1, 500 otherwise.
pub open spec fn bandwidth_for(cc: (u8, u8)) -> u32 {
    if cc == (8u8, 7u8) || cc == (8u8, 6u8) {
        1555
    } else if cc == (8u8, 0u8) {
        936
    } else if cc == (7u8, 5u8) {
        620
    } else if cc == (7u8, 0u8) {
        900
    } else if cc == (6u8, 1u8) {
        911
    } else {
        500
    }
}

/// The profile that the rules give to a device with these properties.
pub open spec fn profile_matches_props(p: KernelProfile, props: DeviceProperties) -> bool {
    let cc = (props.major as u8, props.minor as u8);
    &&& p.compute_capability == cc
    &&& p.max_threads_per_block == props.max_threads_per_block as usize
    &&& p.max_blocks_per_sm == props.max_blocks_per_multi_processor
    &&& p.warps_per_block == 32
    &&& p.supports_tensor_cores == cc_at_least(cc, 7, 0)
    &&& p.supports_bf16 == cc_at_least(cc, 7, 0)
    &&& p.supports_fp8 == cc_at_least(cc, 8, 9)
    &&& p.optimal_tile_size == tile_size_for(cc)
    &&& p.memory_bandwidth_gb_per_s == bandwidth_for(cc)
}

/// The profile is what the rules give to some device.
pub open spec fn profile_of_some_device(p: KernelProfile) -> bool {
    exists|props: DeviceProperties| #[trigger] profile_matches_props(p, props)
}

/// Kernel `i` is the first, in list order, that did not load.
pub open spec fn is_first_missing(loaded: Seq<bool>, i: int) -> bool {
    &&& 0 <= i < loaded.len()
    &&& !loaded[i]
    &&& forall|j: int| 0 <= j < i ==> #[trigger] loaded[j]
}

/// `r` is the verdict on these load outcomes: success exactly when every
/// kernel loaded; otherwise a custom error whose message names the first
/// kernel, in list order, that did not.
pub open spec fn kernel_verdict_holds(r: Result<(), CorexError>, loaded: Seq<bool>) -> bool {
    &&& (r is Ok <==> forall|k: int| 0 <= k < loaded.len() ==> #[trigger] loaded[k])
    &&& match r {
        Ok(_) => true,
        Err(CorexError::Custom(msg)) => exists|i: int| #[trigger] is_first_missing(loaded, i)
            && msg@ == kernel_missing_message(COREX_KERNEL_NAMES@[i]@),
        Err(_) => false,
    }
}

/// The message of a kernel that a module lacks.
pub open spec fn kernel_missing_message(name: Seq<char>) -> Seq<char> {
    "CoreX kernel '"@ + name + "' not found"@
}

impl CorexKernelCompiler {
    /// The optimal tile size for a compute capability.
    pub fn get_optimal_tile_size(compute_cap: (u8, u8)) -> (r: usize)
        ensures
            r == tile_size_for(compute_cap),
    {
        match compute_cap.0 {
            8 => 128,
            7 => 64,
            _ => 32,
        }
    }

    /// Estimate the memory bandwidth of a compute capability, in GB/s.
    pub fn estimate_memory_bandwidth(compute_cap: (u8, u8)) -> (r: u32)
        ensures
            r == bandwidth_for(compute_cap),
    {
        match compute_cap {
            (8, 7) => 1555,
            (8, 6) => 1555,
            (8, 0) => 936,
            (7, 5) => 620,
            (7, 0) => 900,
            (6, 1) => 911,
            _ => 500,
        }
    }

    /// The kernel profile of a device with these properties.
    pub fn profile_from_props(props: &DeviceProperties) -> (r: KernelProfile)
        ensures
            profile_matches_props(r, *props),
    {
        let compute_capability = (props.major as u8, props.minor as u8);
        KernelProfile {
            compute_capability,
            max_threads_per_block: props.max_threads_per_block as usize,
            max_blocks_per_sm: props.max_blocks_per_multi_processor,
            warps_per_block: 32,
            supports_tensor_cores: compute_capability_at_least(compute_capability, 7, 0),
            supports_bf16: compute_capability_at_least(compute_capability, 7, 0),
            supports_fp8: compute_capability_at_least(compute_capability, 8, 9),
            optimal_tile_size: Self::get_optimal_tile_size(compute_capability),
            memory_bandwidth_gb_per_s: Self::estimate_memory_bandwidth(compute_capability),
        }
    }

    /// Get the kernel performance profile of the device of a context.
    pub fn get_kernel_profile(ctx: &Arc<CudaContext>) -> (r: Result<KernelProfile, CorexError>)
        ensures
            r matches Ok(p) ==> profile_of_some_device(p),
            r matches Err(e) ==> e is CudaError,
    {
        match device_props_of(ctx) {
            Ok(props) => {
                let p = Self::profile_from_props(&props);
                assert(profile_matches_props(p, props));
                assert(profile_of_some_device(p));
                Ok(p)
            },
            Err(e) => Err(e),
        }
    }

    /// The message of a kernel that a module lacks: "CoreX kernel '<name>' not found".
    pub fn missing_kernel_message(name: &str) -> (r: String)
        ensures
            r@ == kernel_missing_message(name@),
    {
        let mut msg = String::from_str("CoreX kernel '");
        msg.append(name);
        msg.append("' not found");
        msg
    }

    /// The verdict on a module, given whether each kernel of
    /// `COREX_KERNEL_NAMES` loaded (in that order): success when all five
    /// loaded, else an error naming the first one, in list order, that did not.
    pub fn kernel_check_verdict(loaded: &Vec<bool>) -> (r: Result<(), CorexError>)
        requires
            loaded@.len() == 5,
        ensures
            kernel_verdict_holds(r, loaded@),
    {
        let names = COREX_KERNEL_NAMES;
        let mut i: usize = 0;
        while i < 5
            invariant
                i <= 5,
                loaded@.len() == 5,
                names == COREX_KERNEL_NAMES,
                forall|k: int| 0 <= k < i ==> #[trigger] loaded@[k],
            decreases 5 - i,
        {
            if !loaded[i] {
                let msg = Self::missing_kernel_message(names[i]);
                assert(is_first_missing(loaded@, i as int));
                return Err(CorexError::Custom(msg));
            }
            i = i + 1;
        }
        Ok(())
    }

    /// Check that a module provides every CoreX kernel: each name of
    /// `COREX_KERNEL_NAMES` is looked up in the module, and `kernel_check_verdict`
    /// judges the outcomes (whether a kernel loads depends on the module).
    pub fn load_corex_kernels(module: &Arc<CudaModule>) -> (r: Result<(), CorexError>)
        ensures
            exists|loaded: Seq<bool>| loaded.len() == 5 && #[trigger] kernel_verdict_holds(r, loaded),
    {
        proof {
            reveal_strlit("corex_scaled_dot_product_attention_f32");
            reveal_strlit("corex_scaled_dot_product_attention_bf16");
            reveal_strlit("corex_conv2d_f32");
            reveal_strlit("corex_optimized_copy");
            reveal_strlit("corex_layout_transform_f32");
        }
        let names = COREX_KERNEL_NAMES;
        let mut loaded: Vec<bool> = Vec::new();
        let mut i: usize = 0;
        while i < 5
            invariant
                i <= 5,
                loaded@.len() == i,
                names == COREX_KERNEL_NAMES,
                forall|k: int| 0 <= k < 5 ==> !(#[trigger] names@[k])@.contains('\0'),
            decreases 5 - i,
        {
            loaded.push(cuda::load_function(module, names[i]).is_ok());
            i = i + 1;
        }
        let r = Self::kernel_check_verdict(&loaded);
        assert(kernel_verdict_holds(r, loaded@));
        r
    }
}

} // verus!
