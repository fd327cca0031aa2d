//! CoreX device management: the memory pool, device configuration and the device handle.
use vstd::prelude::*;
use std::sync::Arc;
use cudarc::driver::{CudaContext, CudaStream, DriverError};
use crate::cuda;
use crate::dtype::DType;
use crate::error::CorexError;
use crate::utils::{device_info_from_props, device_props_of, four_fifths, four_fifths_of, info_flags_consistent, CorexDeviceInfo, CorexFeature};

verus! {

/// Most blocks that the pool keeps for reuse; a block released beyond it goes back to the driver.
pub const MAX_POOLED_BLOCKS: usize = 1000;

/// A block of device memory: its device address, its size and its alignment, in bytes.
#[derive(Clone, Copy, Debug, PartialEq, Eq)]
pub struct MemoryBlock {
    pub ptr: u64,
    pub size: usize,
    pub alignment: usize,
}

/// What the pool looks like to a caller: its free blocks in order, the bytes it
/// has taken from the driver, and its limit.
pub struct PoolState {
    pub free_blocks: Seq<MemoryBlock>,
    pub total_allocated: int,
    pub max_allocation: int,
}

/// Memory pool for efficient GPU memory management.
///
/// The pool decides; the caller performs the driver work it asks for
/// (`cuMemAlloc`, `cuMemFree`) and reports the outcome back.
#[derive(Debug)]
pub struct MemoryPool {
    free_blocks: Vec<MemoryBlock>,
    total_allocated: usize,
    max_allocation: usize,
}

/// The pool's answer to an allocation request.
#[derive(Debug, PartialEq, Eq)]
pub enum PoolGrant {
    /// A free block of the pool was handed out again: its device address.
    Reused(u64),
    /// No free block fits and the limit leaves room: the caller allocates
    /// this many bytes on the device and reports back with `finish_allocation`.
    DeviceAlloc { size: usize },
}

/// The pool's answer to a block given back.
#[derive(Debug, PartialEq, Eq)]
pub enum PoolRelease {
    /// The block was kept for reuse.
    Pooled,
    /// The pool is full: the caller frees this device address and reports
    /// back with `finish_release`.
    DeviceFree { ptr: u64, size: usize },
}

/// A block serves a request when it is at least as large and at least as aligned.
pub open spec fn block_fits(b: MemoryBlock, size: usize, alignment: usize) -> bool {
    b.size >= size && b.alignment >= alignment
}

/// `i` is the first block of `blocks` that serves the request.
pub open spec fn is_first_fit(blocks: Seq<MemoryBlock>, size: usize, alignment: usize, i: int) -> bool {
    &&& 0 <= i < blocks.len()
    &&& block_fits(blocks[i], size, alignment)
    &&& forall|j: int| 0 <= j < i ==> !block_fits(#[trigger] blocks[j], size, alignment)
}

/// The index of the first block that serves the request, if any block does.
pub open spec fn first_fit(blocks: Seq<MemoryBlock>, size: usize, alignment: usize) -> Option<int> {
    if exists|i: int| is_first_fit(blocks, size, alignment, i) {
        Some(choose|i: int| is_first_fit(blocks, size, alignment, i))
    } else {
        None
    }
}

/// The pool's bookkeeping is sound: it never holds more than its limit and
/// never keeps more than `MAX_POOLED_BLOCKS` blocks.
pub open spec fn pool_wf(s: PoolState) -> bool {
    &&& 0 <= s.total_allocated <= s.max_allocation <= usize::MAX
    &&& s.free_blocks.len() <= MAX_POOLED_BLOCKS
}

/// An allocation request on the pool: reuse the first fitting block, else refuse
/// when the limit would be passed, else ask for device memory.
pub open spec fn allocate_step(s: PoolState, size: usize, alignment: usize) -> (PoolState, Result<PoolGrant, CorexError>) {
    match first_fit(s.free_blocks, size, alignment) {
        Some(i) => (
            PoolState { free_blocks: s.free_blocks.remove(i), ..s },
            Ok(PoolGrant::Reused(s.free_blocks[i].ptr)),
        ),
        None => if s.total_allocated + size > s.max_allocation {
            (s, Err(CorexError::MemoryAllocationFailed { size }))
        } else {
            (s, Ok(PoolGrant::DeviceAlloc { size }))
        },
    }
}

/// The driver's answer to a device allocation of `size` bytes.
pub open spec fn finish_allocation_step(s: PoolState, size: usize, outcome: Result<u64, DriverError>) -> (PoolState, Result<u64, CorexError>) {
    match outcome {
        Ok(ptr) => (PoolState { total_allocated: s.total_allocated + size, ..s }, Ok(ptr)),
        Err(e) => (s, Err(CorexError::CudaError(e))),
    }
}

/// A block given back: kept while the pool has room, else handed to the driver.
pub open spec fn release_step(s: PoolState, ptr: u64, size: usize, alignment: usize) -> (PoolState, PoolRelease) {
    if s.free_blocks.len() < MAX_POOLED_BLOCKS {
        (
            PoolState { free_blocks: s.free_blocks.push(MemoryBlock { ptr, size, alignment }), ..s },
            PoolRelease::Pooled,
        )
    } else {
        (s, PoolRelease::DeviceFree { ptr, size })
    }
}

/// The driver's answer to freeing a block of `size` bytes: on success the
/// pool's count drops by `size`, never below zero.
pub open spec fn finish_release_step(s: PoolState, size: usize, freed: bool) -> PoolState {
    if freed {
        PoolState {
            total_allocated: if s.total_allocated >= size { s.total_allocated - size } else { 0 },
            ..s
        }
    } else {
        s
    }
}

/// Trimming the pool: above 100 free blocks, only the first 50 are kept.
pub open spec fn optimize_step(s: PoolState) -> PoolState {
    if s.free_blocks.len() > 100 {
        PoolState { free_blocks: s.free_blocks.take(50), ..s }
    } else {
        s
    }
}

impl View for MemoryPool {
    type V = PoolState;

    closed spec fn view(&self) -> PoolState {
        PoolState {
            free_blocks: self.free_blocks@,
            total_allocated: self.total_allocated as int,
            max_allocation: self.max_allocation as int,
        }
    }
}

impl MemoryPool {
    /// The pool's invariant.
    pub open spec fn wf(&self) -> bool {
        pool_wf(self@)
    }

    /// Create a new, empty memory pool with a limit of `max_size` bytes.
    pub fn new(max_size: usize) -> (pool: Self)
        ensures
            pool.wf(),
            pool@.free_blocks == Seq::<MemoryBlock>::empty(),
            pool@.total_allocated == 0,
            pool@.max_allocation == max_size,
    {
        MemoryPool { free_blocks: Vec::new(), total_allocated: 0, max_allocation: max_size }
    }

    /// Allocate memory from the pool: hand out the first free block that is large
    /// and aligned enough, else refuse when the limit would be passed, else ask the
    /// caller to allocate on the device.
    pub fn allocate(&mut self, size: usize, alignment: usize) -> (r: Result<PoolGrant, CorexError>)
        requires
            old(self).wf(),
        ensures
            final(self).wf(),
            (final(self)@, r) == allocate_step(old(self)@, size, alignment),
    {
        let mut i: usize = 0;
        while i < self.free_blocks.len()
            invariant
                self.wf(),
                self@ == old(self)@,
                i <= self.free_blocks@.len(),
                forall|j: int| 0 <= j < i ==> !block_fits(#[trigger] self.free_blocks@[j], size, alignment),
            decreases self.free_blocks@.len() - i,
        {
            let block = self.free_blocks[i];
            if block.size >= size && block.alignment >= alignment {
                proof {
                    let blocks = self.free_blocks@;
                    assert(is_first_fit(blocks, size, alignment, i as int));
                    let k = choose|k: int| is_first_fit(blocks, size, alignment, k);
                    assert(k == i as int) by {
                        if k < i as int {
                            assert(!block_fits(blocks[k], size, alignment));
                        } else if k > i as int {
                            assert(!block_fits(blocks[i as int], size, alignment));
                        }
                    }
                }
                let taken = self.free_blocks.remove(i);
                return Ok(PoolGrant::Reused(taken.ptr));
            }
            i = i + 1;
        }
        proof {
            assert forall|k: int| !is_first_fit(self.free_blocks@, size, alignment, k) by {
                if 0 <= k < self.free_blocks@.len() {
                    assert(!block_fits(self.free_blocks@[k], size, alignment));
                }
            }
        }
        if size > self.max_allocation - self.total_allocated {
            Err(CorexError::MemoryAllocationFailed { size })
        } else {
            Ok(PoolGrant::DeviceAlloc { size })
        }
    }

    /// Record the driver's answer to a device allocation that `allocate` asked for.
    pub fn finish_allocation(&mut self, size: usize, outcome: Result<u64, DriverError>) -> (r: Result<u64, CorexError>)
        requires
            old(self).wf(),
            old(self)@.total_allocated + size <= old(self)@.max_allocation,
        ensures
            final(self).wf(),
            (final(self)@, r) == finish_allocation_step(old(self)@, size, outcome),
    {
        match outcome {
            Ok(ptr) => {
                self.total_allocated = self.total_allocated + size;
                Ok(ptr)
            },
            Err(e) => Err(CorexError::CudaError(e)),
        }
    }

    /// Give a block back: it is kept for reuse while the pool holds fewer than
    /// `MAX_POOLED_BLOCKS` blocks, else the caller frees it on the device.
    pub fn deallocate(&mut self, ptr: u64, size: usize, alignment: usize) -> (r: PoolRelease)
        requires
            old(self).wf(),
        ensures
            final(self).wf(),
            (final(self)@, r) == release_step(old(self)@, ptr, size, alignment),
    {
        if self.free_blocks.len() < MAX_POOLED_BLOCKS {
            self.free_blocks.push(MemoryBlock { ptr, size, alignment });
            PoolRelease::Pooled
        } else {
            PoolRelease::DeviceFree { ptr, size }
        }
    }

    /// Record the driver's answer to freeing a block that `deallocate` handed back.
    pub fn finish_release(&mut self, size: usize, freed: bool)
        requires
            old(self).wf(),
        ensures
            final(self).wf(),
            final(self)@ == finish_release_step(old(self)@, size, freed),
    {
        if freed {
            self.total_allocated = self.total_allocated.saturating_sub(size);
        }
    }

    /// Free unused blocks under memory pressure: a pool holding more than 100
    /// free blocks keeps only its first 50.
    pub fn optimize(&mut self)
        requires
            old(self).wf(),
        ensures
            final(self).wf(),
            final(self)@ == optimize_step(old(self)@),
    {
        if self.free_blocks.len() > 100 {
            self.free_blocks.truncate(50);
        }
    }

    /// Usage statistics of the pool.
    pub fn stats(&self) -> (r: MemoryStats)
        ensures
            r.total_allocated == self@.total_allocated,
            r.max_allocation == self@.max_allocation,
            r.free_blocks == self@.free_blocks.len(),
    {
        MemoryStats {
            total_allocated: self.total_allocated,
            max_allocation: self.max_allocation,
            free_blocks: self.free_blocks.len(),
        }
    }
}

/// Memory usage statistics.
#[derive(Debug, Clone, Copy, PartialEq, Eq)]
pub struct MemoryStats {
    /// Total allocated memory in bytes.
    pub total_allocated: usize,
    /// Maximum allocation limit.
    pub max_allocation: usize,
    /// Number of free blocks in the pool.
    pub free_blocks: usize,
}

/// A block that serves a request has a first serving block at or before it.
proof fn lemma_fit_has_first(blocks: Seq<MemoryBlock>, size: usize, alignment: usize, j: int)
    requires
        0 <= j < blocks.len(),
        block_fits(blocks[j], size, alignment),
    ensures
        exists|i: int| i <= j && is_first_fit(blocks, size, alignment, i),
    decreases j,
{
    if exists|k: int| 0 <= k < j && block_fits(#[trigger] blocks[k], size, alignment) {
        let k = choose|k: int| 0 <= k < j && block_fits(#[trigger] blocks[k], size, alignment);
        lemma_fit_has_first(blocks, size, alignment, k);
    } else {
        assert(is_first_fit(blocks, size, alignment, j));
    }
}

/// The pool finds a block exactly when one of its free blocks serves the request.
pub proof fn lemma_first_fit_found_iff_some_fits(blocks: Seq<MemoryBlock>, size: usize, alignment: usize)
    ensures
        first_fit(blocks, size, alignment) is Some
            <==> exists|j: int| 0 <= j < blocks.len() && block_fits(#[trigger] blocks[j], size, alignment),
        first_fit(blocks, size, alignment) matches Some(i) ==> is_first_fit(blocks, size, alignment, i),
{
    if exists|j: int| 0 <= j < blocks.len() && block_fits(#[trigger] blocks[j], size, alignment) {
        let j = choose|j: int| 0 <= j < blocks.len() && block_fits(#[trigger] blocks[j], size, alignment);
        lemma_fit_has_first(blocks, size, alignment, j);
    }
}

/// A block given back to a pool that has room, and in which no free block serves
/// a request for that block's size and alignment, is the block that this request
/// receives next; and the request leaves the pool as it was before the block came back.
pub proof fn lemma_release_then_reuse(s: PoolState, ptr: u64, size: usize, alignment: usize)
    requires
        pool_wf(s),
        s.free_blocks.len() < MAX_POOLED_BLOCKS,
        forall|j: int| 0 <= j < s.free_blocks.len() ==> !block_fits(#[trigger] s.free_blocks[j], size, alignment),
    ensures
        release_step(s, ptr, size, alignment).1 == PoolRelease::Pooled,
        allocate_step(release_step(s, ptr, size, alignment).0, size, alignment)
            == (s, Ok::<PoolGrant, CorexError>(PoolGrant::Reused(ptr))),
{
    let s1 = release_step(s, ptr, size, alignment).0;
    let n = s.free_blocks.len() as int;
    assert(s1.free_blocks[n] == MemoryBlock { ptr, size, alignment });
    assert forall|j: int| 0 <= j < n implies !block_fits(#[trigger] s1.free_blocks[j], size, alignment) by {
        assert(s1.free_blocks[j] == s.free_blocks[j]);
    }
    assert(is_first_fit(s1.free_blocks, size, alignment, n));
    lemma_first_fit_found_iff_some_fits(s1.free_blocks, size, alignment);
    let i = first_fit(s1.free_blocks, size, alignment)->0;
    assert(i == n) by {
        if i < n {
            assert(!block_fits(s1.free_blocks[i], size, alignment));
        } else if i > n {
            assert(!block_fits(s1.free_blocks[n], size, alignment));
        }
    }
    assert(s1.free_blocks.remove(n) =~= s.free_blocks);
}

/// A block that the pool hands out again serves the request: it is one of the
/// free blocks, at least as large and at least as aligned as asked for, and it
/// leaves the free list. A pool none of whose free blocks is both large and
/// aligned enough never hands a block out again.
pub proof fn lemma_reused_block_serves_request(s: PoolState, size: usize, alignment: usize)
    ensures
        allocate_step(s, size, alignment).1 matches Ok(PoolGrant::Reused(p)) ==> exists|i: int|
            0 <= i < s.free_blocks.len()
            && #[trigger] s.free_blocks[i].ptr == p
            && s.free_blocks[i].size >= size
            && s.free_blocks[i].alignment >= alignment
            && allocate_step(s, size, alignment).0.free_blocks == s.free_blocks.remove(i),
        (forall|j: int| 0 <= j < s.free_blocks.len()
            ==> #[trigger] s.free_blocks[j].size < size || s.free_blocks[j].alignment < alignment)
            ==> !(allocate_step(s, size, alignment).1 matches Ok(PoolGrant::Reused(_))),
{
    lemma_first_fit_found_iff_some_fits(s.free_blocks, size, alignment);
    if first_fit(s.free_blocks, size, alignment) is Some {
        let i = first_fit(s.free_blocks, size, alignment)->0;
        assert(s.free_blocks[i].ptr == s.free_blocks[i].ptr);
    }
}

/// The first free block that is large and aligned enough is the one handed out:
/// the request is answered with its address and only that block leaves the
/// free list.
pub proof fn lemma_first_serving_block_is_reused(s: PoolState, size: usize, alignment: usize, i: int)
    requires
        0 <= i < s.free_blocks.len(),
        s.free_blocks[i].size >= size,
        s.free_blocks[i].alignment >= alignment,
        forall|j: int| 0 <= j < i ==> #[trigger] s.free_blocks[j].size < size || s.free_blocks[j].alignment < alignment,
    ensures
        allocate_step(s, size, alignment).1 == Ok::<PoolGrant, CorexError>(PoolGrant::Reused(s.free_blocks[i].ptr)),
        allocate_step(s, size, alignment).0.free_blocks == s.free_blocks.remove(i),
        allocate_step(s, size, alignment).0.total_allocated == s.total_allocated,
{
    assert(is_first_fit(s.free_blocks, size, alignment, i));
    lemma_first_fit_found_iff_some_fits(s.free_blocks, size, alignment);
    let k = first_fit(s.free_blocks, size, alignment)->0;
    if k < i {
        assert(!block_fits(s.free_blocks[k], size, alignment));
    } else if k > i {
        assert(!block_fits(s.free_blocks[i], size, alignment));
    }
}

/// When no free block is both large and aligned enough, the pool leaves its
/// free list alone: it asks for exactly `size` bytes of device memory when that
/// stays within its limit, and refuses the request otherwise.
pub proof fn lemma_fresh_allocation_within_limit(s: PoolState, size: usize, alignment: usize)
    requires
        forall|j: int| 0 <= j < s.free_blocks.len()
            ==> #[trigger] s.free_blocks[j].size < size || s.free_blocks[j].alignment < alignment,
    ensures
        allocate_step(s, size, alignment).0 == s,
        s.total_allocated + size <= s.max_allocation
            ==> allocate_step(s, size, alignment).1 == Ok::<PoolGrant, CorexError>(PoolGrant::DeviceAlloc { size }),
        s.total_allocated + size > s.max_allocation
            ==> allocate_step(s, size, alignment).1 == Err::<PoolGrant, CorexError>(CorexError::MemoryAllocationFailed { size }),
{
    lemma_first_fit_found_iff_some_fits(s.free_blocks, size, alignment);
    if first_fit(s.free_blocks, size, alignment) is Some {
        let i = first_fit(s.free_blocks, size, alignment)->0;
        assert(block_fits(s.free_blocks[i], size, alignment));
    }
}

/// Every operation of the pool keeps its bookkeeping sound: the bytes taken from
/// the driver never pass the limit, and the pool never keeps more than
/// `MAX_POOLED_BLOCKS` blocks. A device allocation is recorded only after the
/// pool asked for it.
pub proof fn lemma_pool_steps_preserve_wf(
    s: PoolState,
    size: usize,
    alignment: usize,
    ptr: u64,
    outcome: Result<u64, DriverError>,
    freed: bool,
)
    requires
        pool_wf(s),
    ensures
        pool_wf(allocate_step(s, size, alignment).0),
        allocate_step(s, size, alignment).1 == Ok::<PoolGrant, CorexError>(PoolGrant::DeviceAlloc { size })
            ==> pool_wf(finish_allocation_step(s, size, outcome).0),
        pool_wf(release_step(s, ptr, size, alignment).0),
        pool_wf(finish_release_step(s, size, freed)),
        pool_wf(optimize_step(s)),
{
    lemma_first_fit_found_iff_some_fits(s.free_blocks, size, alignment);
}

/// After trimming, the pool keeps at most 100 free blocks, and the blocks it
/// keeps are the first ones it held, in order.
pub proof fn lemma_optimize_bounds(s: PoolState)
    requires
        pool_wf(s),
    ensures
        optimize_step(s).free_blocks.len() <= 100,
        optimize_step(s).free_blocks =~= s.free_blocks.take(optimize_step(s).free_blocks.len() as int),
        optimize_step(s).total_allocated == s.total_allocated,
{
}

/// Device-specific configuration.
#[derive(Debug, Clone, Copy, PartialEq, Eq)]
pub struct DeviceConfig {
    /// GPU ID
    pub gpu_id: usize,
    /// Enable memory pooling
    pub enable_memory_pool: bool,
    /// Memory pool size in bytes; `None` sizes the pool from the device's memory
    pub memory_pool_size: Option<usize>,
    /// Preferred compute precision
    pub preferred_precision: Option<DType>,
    /// Enable async operations
    pub enable_async: bool,
    /// Stream priority
    pub stream_priority: i32,
}

/// The default device configuration: device 0, memory pool and async
/// operations on, pool size and precision left to the device, normal stream priority.
pub open spec fn default_device_config() -> DeviceConfig {
    DeviceConfig {
        gpu_id: 0,
        enable_memory_pool: true,
        memory_pool_size: None,
        preferred_precision: None,
        enable_async: true,
        stream_priority: 0,
    }
}

impl Default for DeviceConfig {
    /// The default device configuration (see `default_device_config`).
    fn default() -> (r: Self)
        ensures
            r == default_device_config(),
    {
        DeviceConfig {
            gpu_id: 0,
            enable_memory_pool: true,
            memory_pool_size: None,
            preferred_precision: None,
            enable_async: true,
            stream_priority: 0,
        }
    }
}

/// Device optimization profiles.
#[derive(Debug, Clone, Copy, PartialEq, Eq, Structural)]
pub enum OptimizationProfile {
    /// Optimize for maximum performance
    Performance,
    /// Balance performance and memory usage
    Balanced,
    /// Optimize for minimal memory usage
    Memory,
}

impl OptimizationProfile {
    /// The value of `COREX_OPT_MODE` that selects this profile.
    pub fn mode_name(&self) -> (r: &'static str)
        ensures
            r@ == match *self {
                OptimizationProfile::Performance => "performance"@,
                OptimizationProfile::Balanced => "balanced"@,
                OptimizationProfile::Memory => "memory"@,
            },
    {
        match self {
            OptimizationProfile::Performance => "performance",
            OptimizationProfile::Balanced => "balanced",
            OptimizationProfile::Memory => "memory",
        }
    }
}

/// The environment settings that tune the CoreX runtime for a device.
pub fn tuning_environment() -> (r: Vec<(&'static str, &'static str)>)
    ensures
        r@.len() == 4,
        r@[0].0@ == "COREX_MEMORY_POOL"@ && r@[0].1@ == "1"@,
        r@[1].0@ == "COREX_KERNEL_CACHE"@ && r@[1].1@ == "1"@,
        r@[2].0@ == "COREX_PRECISION"@ && r@[2].1@ == "auto"@,
        r@[3].0@ == "COREX_NUM_THREADS"@ && r@[3].1@ == "0"@,
{
    vec![
        ("COREX_MEMORY_POOL", "1"),
        ("COREX_KERNEL_CACHE", "1"),
        ("COREX_PRECISION", "auto"),
        ("COREX_NUM_THREADS", "0"),
    ]
}

/// The character of a decimal digit.
pub open spec fn digit_char(d: nat) -> char {
    if d == 0 {
        '0'
    } else if d == 1 {
        '1'
    } else if d == 2 {
        '2'
    } else if d == 3 {
        '3'
    } else if d == 4 {
        '4'
    } else if d == 5 {
        '5'
    } else if d == 6 {
        '6'
    } else if d == 7 {
        '7'
    } else if d == 8 {
        '8'
    } else {
        '9'
    }
}

/// The decimal digits of a number, most significant first, without leading zeros.
pub open spec fn decimal(n: nat) -> Seq<char>
    decreases n,
{
    if n < 10 {
        seq![digit_char(n)]
    } else {
        decimal(n / 10) + seq![digit_char(n % 10)]
    }
}

/// The text of one decimal digit.
fn digit_str(d: usize) -> (r: &'static str)
    requires
        d < 10,
    ensures
        r@ == seq![digit_char(d as nat)],
{
    proof {
        reveal_strlit("0");
        reveal_strlit("1");
        reveal_strlit("2");
        reveal_strlit("3");
        reveal_strlit("4");
        reveal_strlit("5");
        reveal_strlit("6");
        reveal_strlit("7");
        reveal_strlit("8");
        reveal_strlit("9");
    }
    let r = if d == 0 {
        "0"
    } else if d == 1 {
        "1"
    } else if d == 2 {
        "2"
    } else if d == 3 {
        "3"
    } else if d == 4 {
        "4"
    } else if d == 5 {
        "5"
    } else if d == 6 {
        "6"
    } else if d == 7 {
        "7"
    } else if d == 8 {
        "8"
    } else {
        "9"
    };
    assert(r@ =~= seq![digit_char(d as nat)]);
    r
}

/// A number written in decimal.
pub fn decimal_string(n: usize) -> (r: String)
    ensures
        r@ == decimal(n as nat),
    decreases n,
{
    if n < 10 {
        String::from_str(digit_str(n))
    } else {
        let mut s = decimal_string(n / 10);
        s.append(digit_str(n % 10));
        s
    }
}

/// An environment setting seen as a pair of texts.
pub open spec fn setting_view(setting: (String, String)) -> (Seq<char>, Seq<char>) {
    (setting.0@, setting.1@)
}

/// The settings that prepare the host for a CoreX device: the SDK's libraries
/// in front of the library search path, only the device's GPU visible, and the
/// runtime's tuning variables.
pub open spec fn corex_settings(corex_home: Seq<char>, current_library_path: Seq<char>, gpu_id: usize) -> Seq<(Seq<char>, Seq<char>)> {
    seq![
        ("LD_LIBRARY_PATH"@, corex_home + "/lib64:"@ + current_library_path),
        ("CUDA_VISIBLE_DEVICES"@, decimal(gpu_id as nat)),
        ("COREX_MEMORY_POOL"@, "1"@),
        ("COREX_KERNEL_CACHE"@, "1"@),
        ("COREX_PRECISION"@, "auto"@),
        ("COREX_NUM_THREADS"@, "0"@),
    ]
}

/// The environment settings for using GPU `gpu_id`, in the order they are
/// applied, given the SDK home (`COREX_HOME`, `None` when it is not set) and
/// the current library search path. Without an SDK home the SDK is not found.
pub fn corex_environment(corex_home: Option<&str>, current_library_path: &str, gpu_id: usize) -> (r: Result<Vec<(String, String)>, CorexError>)
    ensures
        corex_home is None ==> r == Err::<Vec<(String, String)>, CorexError>(CorexError::SdkNotFound),
        corex_home matches Some(h) ==> (r matches Ok(v)
            && v@.len() == corex_settings(h@, current_library_path@, gpu_id).len()
            && forall|i: int| 0 <= i < v@.len()
                ==> setting_view(#[trigger] v@[i]) == corex_settings(h@, current_library_path@, gpu_id)[i]),
{
    let home = match corex_home {
        Some(h) => h,
        None => return Err(CorexError::SdkNotFound),
    };
    let mut settings: Vec<(String, String)> = Vec::new();
    settings.push((String::from_str("LD_LIBRARY_PATH"), crate::sdk_library_path(home, current_library_path)));
    settings.push((String::from_str("CUDA_VISIBLE_DEVICES"), decimal_string(gpu_id)));
    let tuning = tuning_environment();
    settings.push((String::from_str(tuning[0].0), String::from_str(tuning[0].1)));
    settings.push((String::from_str(tuning[1].0), String::from_str(tuning[1].1)));
    settings.push((String::from_str(tuning[2].0), String::from_str(tuning[2].1)));
    settings.push((String::from_str(tuning[3].0), String::from_str(tuning[3].1)));
    Ok(settings)
}

/// A CUDA device: the primary context of one GPU and the stream that work is issued on.
pub struct CudaDevice {
    gpu_id: usize,
    context: Arc<CudaContext>,
    stream: Arc<CudaStream>,
    own_stream: bool,
}

impl CudaDevice {
    /// The GPU this device drives.
    pub closed spec fn spec_gpu_id(&self) -> usize {
        self.gpu_id
    }

    /// The device's context.
    pub closed spec fn spec_context(&self) -> Arc<CudaContext> {
        self.context
    }

    /// The stream that work is issued on.
    pub closed spec fn spec_stream(&self) -> Arc<CudaStream> {
        self.stream
    }

    /// Whether work is issued on a stream of the device's own rather than the
    /// context's default stream.
    pub closed spec fn spec_own_stream(&self) -> bool {
        self.own_stream
    }

    /// The CUDA device `gpu_id`, given the outcome of opening its context:
    /// an opened context gives the device, issuing work on the default stream;
    /// a driver error is returned as a CUDA error.
    pub fn new(gpu_id: usize, opened: Result<Arc<CudaContext>, DriverError>) -> (r: Result<Self, CorexError>)
        ensures
            opened matches Err(e) ==> r == Err::<Self, CorexError>(CorexError::CudaError(e)),
            opened matches Ok(ctx) ==> (r matches Ok(d) && d.spec_gpu_id() == gpu_id
                && d.spec_context() == ctx && !d.spec_own_stream()),
    {
        match opened {
            Ok(context) => {
                let stream = cuda::default_stream(&context);
                Ok(CudaDevice { gpu_id, context, stream, own_stream: false })
            },
            Err(e) => Err(CorexError::CudaError(e)),
        }
    }

    /// The CUDA device `gpu_id`, given the outcome of opening its context,
    /// issuing work on a stream of its own: a driver error in opening the
    /// context or in making the stream is returned as a CUDA error.
    pub fn new_with_stream(gpu_id: usize, opened: Result<Arc<CudaContext>, DriverError>) -> (r: Result<Self, CorexError>)
        ensures
            opened matches Err(e) ==> r == Err::<Self, CorexError>(CorexError::CudaError(e)),
            r matches Ok(d) ==> (opened matches Ok(ctx) && d.spec_gpu_id() == gpu_id
                && d.spec_context() == ctx && d.spec_own_stream()),
            r matches Err(e) ==> e is CudaError,
    {
        match opened {
            Ok(context) => match cuda::new_stream(&context) {
                Ok(stream) => Ok(CudaDevice { gpu_id, context, stream, own_stream: true }),
                Err(e) => Err(CorexError::CudaError(e)),
            },
            Err(e) => Err(CorexError::CudaError(e)),
        }
    }

    /// The GPU this device drives.
    pub fn gpu_id(&self) -> (r: usize)
        ensures
            r == self.spec_gpu_id(),
    {
        self.gpu_id
    }

    /// The device's context.
    pub fn context(&self) -> (r: &Arc<CudaContext>)
        ensures
            *r == self.spec_context(),
    {
        &self.context
    }

    /// The stream that work is issued on.
    pub fn stream(&self) -> (r: &Arc<CudaStream>)
        ensures
            *r == self.spec_stream(),
    {
        &self.stream
    }
}

/// Whether a device with this info and configuration offers a feature: the
/// precisions and Tensor Cores as the device info says, the memory pool and
/// asynchronous operations as the configuration says; kernel caching and
/// custom kernels are not offered.
pub open spec fn feature_offered(info: CorexDeviceInfo, config: DeviceConfig, feature: CorexFeature) -> bool {
    match feature {
        CorexFeature::BF16 => info.supports_bf16,
        CorexFeature::FP8 => info.supports_fp8,
        CorexFeature::TensorCores => info.supports_tensor_cores,
        CorexFeature::MemoryPool => config.enable_memory_pool,
        CorexFeature::AsyncOperations => config.enable_async,
        CorexFeature::KernelCache | CorexFeature::CustomKernels => false,
    }
}

/// Whether a device with this info and configuration offers a feature.
pub fn feature_supported(info: &CorexDeviceInfo, config: &DeviceConfig, feature: CorexFeature) -> (r: bool)
    ensures
        r == feature_offered(*info, *config, feature),
{
    match feature {
        CorexFeature::BF16 => info.supports_bf16,
        CorexFeature::FP8 => info.supports_fp8,
        CorexFeature::TensorCores => info.supports_tensor_cores,
        CorexFeature::MemoryPool => config.enable_memory_pool,
        CorexFeature::AsyncOperations => config.enable_async,
        CorexFeature::KernelCache | CorexFeature::CustomKernels => false,
    }
}

/// The size of the memory pool of a device: the configured size, else 80% of
/// the device's memory.
pub open spec fn pool_size_for(config: DeviceConfig, memory_size: usize) -> int {
    match config.memory_pool_size {
        Some(size) => size as int,
        None => four_fifths(memory_size),
    }
}

/// CoreX GPU device: a CUDA device with its CoreX information, memory pool and configuration.
pub struct CorexDevice {
    cuda_device: CudaDevice,
    device_info: CorexDeviceInfo,
    memory_pool: MemoryPool,
    config: DeviceConfig,
}

impl CorexDevice {
    /// The device's information.
    pub closed spec fn info(&self) -> CorexDeviceInfo {
        self.device_info
    }

    /// The device's configuration.
    pub closed spec fn spec_config(&self) -> DeviceConfig {
        self.config
    }

    /// The device's underlying CUDA device.
    pub closed spec fn spec_cuda_device(&self) -> CudaDevice {
        self.cuda_device
    }

    /// The device's memory pool.
    pub closed spec fn pool(&self) -> PoolState {
        self.memory_pool@
    }

    /// The device's invariant: its pool is sound.
    pub closed spec fn wf(&self) -> bool {
        self.memory_pool.wf()
    }

    /// What a CoreX device built for `gpu_id` with `config` on the context `ctx`
    /// is: its CUDA device drives `gpu_id` on `ctx`, on a stream of its own
    /// exactly when the configuration asks for asynchronous operations; its
    /// information is that of `gpu_id`, reporting SDK version 4.3.8, with flags
    /// that follow its compute capability; its pool is empty and sized as
    /// configured, else at 80% of the device's memory.
    pub open spec fn built_as(&self, gpu_id: usize, config: DeviceConfig, ctx: Arc<CudaContext>) -> bool {
        &&& self.wf()
        &&& self.spec_config() == config
        &&& self.spec_cuda_device().spec_gpu_id() == gpu_id
        &&& self.spec_cuda_device().spec_context() == ctx
        &&& self.spec_cuda_device().spec_own_stream() == config.enable_async
        &&& self.info().gpu_id == gpu_id
        &&& self.info().corex_version@ == "4.3.8"@
        &&& info_flags_consistent(self.info())
        &&& self.pool().free_blocks.len() == 0
        &&& self.pool().total_allocated == 0
        &&& self.pool().max_allocation == pool_size_for(config, self.info().memory_size)
    }

    /// Create a new CoreX device with the default configuration (see `new_with_config`).
    pub fn new(gpu_id: usize, setup: Result<(), CorexError>, opened: Option<Result<Arc<CudaContext>, DriverError>>) -> (r: Result<Self, CorexError>)
        requires
            setup is Ok ==> opened is Some,
        ensures
            setup matches Err(e) ==> r == Err::<Self, CorexError>(e),
            opened matches Some(Err(e)) ==> (setup is Ok ==> r == Err::<Self, CorexError>(CorexError::CudaError(e))),
            r is Ok ==> setup is Ok,
            r matches Ok(d) ==> (opened matches Some(Ok(ctx)) && d.built_as(gpu_id, default_device_config(), ctx)),
            r matches Err(e) ==> setup is Err || e is CudaError,
    {
        Self::new_with_config(gpu_id, DeviceConfig::default(), setup, opened)
    }

    /// Create a new CoreX device with a configuration. `setup` is the outcome of
    /// preparing the CoreX environment for the device (it fails with `SdkNotFound`
    /// when no SDK home is set); its error is returned as it is. Otherwise
    /// `opened` is the outcome of opening the device's context: a driver error
    /// is returned as a CUDA error; an opened context gets a stream of its own
    /// when the configuration asks for asynchronous operations, the device's
    /// information is read, and an empty pool of the configured size, else 80%
    /// of the device's memory, is made (see `built_as`).
    pub fn new_with_config(
        gpu_id: usize,
        config: DeviceConfig,
        setup: Result<(), CorexError>,
        opened: Option<Result<Arc<CudaContext>, DriverError>>,
    ) -> (r: Result<Self, CorexError>)
        requires
            setup is Ok ==> opened is Some,
        ensures
            setup matches Err(e) ==> r == Err::<Self, CorexError>(e),
            opened matches Some(Err(e)) ==> (setup is Ok ==> r == Err::<Self, CorexError>(CorexError::CudaError(e))),
            r is Ok ==> setup is Ok,
            r matches Ok(d) ==> (opened matches Some(Ok(ctx)) && d.built_as(gpu_id, config, ctx)),
            r matches Err(e) ==> setup is Err || e is CudaError,
    {
        match setup {
            Ok(()) => {},
            Err(e) => return Err(e),
        }
        let opened = opened.unwrap();
        let cuda_device = if config.enable_async {
            CudaDevice::new_with_stream(gpu_id, opened)?
        } else {
            CudaDevice::new(gpu_id, opened)?
        };
        let props = device_props_of(&cuda_device.context)?;
        let device_info = device_info_from_props(gpu_id, &props, Self::get_corex_version());
        let memory_pool_size = match config.memory_pool_size {
            Some(size) => size,
            None => four_fifths_of(device_info.memory_size),
        };
        let memory_pool = MemoryPool::new(memory_pool_size);
        Ok(CorexDevice { cuda_device, device_info, memory_pool, config })
    }

    /// The CoreX SDK version that devices report.
    fn get_corex_version() -> (r: String)
        ensures
            r@ == "4.3.8"@,
    {
        String::from_str("4.3.8")
    }

    /// The underlying CUDA device.
    pub fn cuda_device(&self) -> (r: &CudaDevice)
        ensures
            *r == self.spec_cuda_device(),
    {
        &self.cuda_device
    }

    /// Get device information.
    pub fn device_info(&self) -> (r: &CorexDeviceInfo)
        ensures
            *r == self.info(),
    {
        &self.device_info
    }

    /// The device's configuration.
    pub fn config(&self) -> (r: &DeviceConfig)
        ensures
            *r == self.spec_config(),
    {
        &self.config
    }

    /// Check if the device supports a specific feature.
    pub fn supports_feature(&self, feature: CorexFeature) -> (r: bool)
        ensures
            r == feature_offered(self.info(), self.spec_config(), feature),
    {
        feature_supported(&self.device_info, &self.config, feature)
    }

    /// Get memory usage statistics.
    pub fn memory_stats(&self) -> (r: MemoryStats)
        ensures
            r.total_allocated == self.pool().total_allocated,
            r.max_allocation == self.pool().max_allocation,
            r.free_blocks == self.pool().free_blocks.len(),
    {
        self.memory_pool.stats()
    }

    /// Optimize memory usage by freeing unused blocks: a pool holding more than
    /// 100 free blocks keeps only its first 50.
    pub fn optimize_memory(&mut self) -> (r: Result<(), CorexError>)
        requires
            old(self).wf(),
        ensures
            r is Ok,
            final(self).wf(),
            final(self).spec_cuda_device() == old(self).spec_cuda_device(),
            final(self).pool() == optimize_step(old(self).pool()),
            final(self).info() == old(self).info(),
            final(self).spec_config() == old(self).spec_config(),
    {
        self.memory_pool.optimize();
        Ok(())
    }
}

} // verus!
