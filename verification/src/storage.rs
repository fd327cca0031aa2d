//! CoreX storage: device memory with its metadata and optimization settings.
use vstd::prelude::*;
use std::time::Instant;
use cudarc::driver::CudaSlice;
use crate::device::CorexDevice;
use crate::dtype::{dims_product, dtype_size, product_fits, DType, Shape};
use crate::error::CorexError;
use crate::utils::OperationType;
use vstd::arithmetic::power2::pow2;
use vstd::bits::{low_bits_mask, lemma_usize_low_bits_mask_is_mod};

verus! {

/// A point in time (`std::time::Instant`), carried through unchanged.
#[verifier::external_type_specification]
#[verifier::external_body]
pub struct ExInstant(std::time::Instant);

/// Device memory holding elements of type `T` (`cudarc::driver::CudaSlice`).
#[verifier::external_type_specification]
#[verifier::external_body]
#[verifier::reject_recursive_types(T)]
pub struct ExCudaSlice<T>(cudarc::driver::CudaSlice<T>);

/// `Instant::now`: the current time. Nothing is claimed of it.
#[verifier::external_body]
fn instant_now() -> (r: Instant) {
    Instant::now()
}

/// Storage optimization flags.
#[derive(Debug, Clone, Copy, PartialEq, Eq, Structural)]
pub struct StorageOptimizations {
    /// Enable memory layout optimization
    pub layout_optimization: bool,
    /// Enable kernel fusion opportunities
    pub kernel_fusion: bool,
    /// Enable async memory transfers
    pub async_transfers: bool,
    /// Enable precision optimization
    pub precision_optimization: bool,
}

impl Default for StorageOptimizations {
    /// Every optimization enabled.
    fn default() -> (r: Self)
        ensures
            r.layout_optimization && r.kernel_fusion && r.async_transfers && r.precision_optimization,
    {
        StorageOptimizations {
            layout_optimization: true,
            kernel_fusion: true,
            async_transfers: true,
            precision_optimization: true,
        }
    }
}

/// Memory access patterns for optimization.
#[derive(Debug, Clone, Copy, PartialEq, Eq, Structural)]
pub enum AccessPattern {
    /// Sequential access (e.g., vector operations)
    Sequential,
    /// Random access (e.g., gather operations)
    Random,
    /// Structured access (e.g., matrix operations)
    Structured,
    /// Unknown access pattern
    Unknown,
}

/// Storage metadata for optimization.
#[derive(Debug)]
pub struct StorageMetadata {
    /// Data type
    pub dtype: DType,
    /// Shape
    pub shape: Shape,
    /// Strides
    pub strides: Vec<usize>,
    /// Memory alignment
    pub alignment: usize,
    /// Memory access pattern hint
    pub access_pattern: AccessPattern,
    /// Creation timestamp
    pub created_at: Instant,
}

impl Clone for StorageMetadata {
    fn clone(&self) -> (r: Self)
        ensures
            r.dtype == self.dtype,
            r.shape@ == self.shape@,
            r.strides@ == self.strides@,
            r.alignment == self.alignment,
            r.access_pattern == self.access_pattern,
            r.created_at == self.created_at,
    {
        StorageMetadata {
            dtype: self.dtype,
            shape: self.shape.clone(),
            strides: self.strides.clone(),
            alignment: self.alignment,
            access_pattern: self.access_pattern,
            created_at: self.created_at,
        }
    }
}

/// Memory usage information.
#[derive(Debug, Clone, Copy, PartialEq, Eq, Structural)]
pub struct MemoryUsage {
    /// Number of elements
    pub element_count: usize,
    /// Size of each element in bytes
    pub element_size: usize,
    /// Total memory usage in bytes
    pub total_size: usize,
    /// Memory alignment
    pub alignment: usize,
    /// Overhead bytes
    pub overhead_bytes: usize,
}

/// The stride at `i` is no smaller than the one before it.
pub open spec fn stride_step_ok(strides: Seq<usize>, i: int) -> bool {
    strides[i - 1] <= strides[i]
}

/// Every stride is at least the one before it.
pub open spec fn strides_nondecreasing(strides: Seq<usize>) -> bool {
    forall|i: int| 1 <= i < strides.len() ==> #[trigger] stride_step_ok(strides, i)
}

/// `base` rounded up by the alignment mask: `(base + a - 1) & !(a - 1)`.
pub open spec fn masked_align_up(base: usize, a: usize) -> usize {
    ((base + a - 1) as usize) & !((a - 1) as usize)
}

/// The bytes that the elements of a storage with this metadata take.
pub open spec fn payload_bytes(m: StorageMetadata) -> int {
    (dims_product(m.shape@) * dtype_size(m.dtype)) as int
}

/// The inputs on which the usage of a storage can be computed without overflow:
/// the element count, the payload and its alignment fit, the alignment is
/// positive, rounding up does not fall below the payload, and the overhead fits.
pub open spec fn usage_computable(m: StorageMetadata, struct_size: usize) -> bool {
    &&& product_fits(m.shape@)
    &&& payload_bytes(m) <= usize::MAX
    &&& m.alignment > 0
    &&& payload_bytes(m) + m.alignment - 1 <= usize::MAX
    &&& masked_align_up(payload_bytes(m) as usize, m.alignment) >= payload_bytes(m)
    &&& masked_align_up(payload_bytes(m) as usize, m.alignment) - payload_bytes(m) + struct_size <= usize::MAX
}

/// For a power-of-two alignment `2^n`, the alignment mask rounds up exactly:
/// the result is a multiple of the alignment, not below `base`, and less than
/// one alignment unit above it.
pub proof fn lemma_masked_align_up_rounds_up(base: usize, a: usize, n: nat)
    requires
        n < usize::BITS,
        a == pow2(n),
        base + a - 1 <= usize::MAX,
    ensures
        masked_align_up(base, a) % a == 0,
        base <= masked_align_up(base, a),
        masked_align_up(base, a) < base + a,
{
    vstd::arithmetic::power2::lemma_pow2_pos(n);
    let am1 = (a - 1) as usize;
    let s = (base + am1) as usize;
    assert(s & !am1 == s - (s & am1)) by (bit_vector);
    assert(low_bits_mask(n) as usize == am1);
    lemma_usize_low_bits_mask_is_mod(s, n);
    assert(s & am1 == s % a);
    let q = (s as int) / (a as int);
    vstd::arithmetic::div_mod::lemma_fundamental_div_mod(s as int, a as int);
    vstd::arithmetic::div_mod::lemma_mod_multiples_basic(q, a as int);
    assert((s as int) - (s as int) % (a as int) == q * (a as int));
    assert(s % a < a) by (nonlinear_arith) requires a > 0;
    assert(base <= s - s % a) by (nonlinear_arith)
        requires
            s == base + a - 1,
            s % a < a,
            a > 0,
    ;
}

/// Whether data laid out with this metadata suits an access pattern:
/// sequential access wants non-decreasing strides (or none), structured access
/// wants an alignment of at least 256 bytes, any other access is suited.
pub open spec fn pattern_suited(m: StorageMetadata, pattern: AccessPattern) -> bool {
    match pattern {
        AccessPattern::Sequential => strides_nondecreasing(m.strides@),
        AccessPattern::Structured => m.alignment >= 256,
        _ => true,
    }
}

/// The layout that a storage is made with: no strides, a 256-byte alignment.
pub open spec fn default_layout(m: StorageMetadata) -> bool {
    m.strides@.len() == 0 && m.alignment == 256
}

/// Data in the default layout suits every access pattern.
pub proof fn lemma_default_layout_suits_every_pattern(m: StorageMetadata)
    requires
        default_layout(m),
    ensures
        forall|p: AccessPattern| #[trigger] pattern_suited(m, p),
{
}

impl StorageMetadata {
    /// Whether data laid out with this metadata suits an access pattern (see `pattern_suited`).
    pub fn is_optimized_for_pattern(&self, pattern: AccessPattern) -> (r: bool)
        ensures
            r == pattern_suited(*self, pattern),
    {
        match pattern {
            AccessPattern::Sequential => {
                let mut i: usize = 1;
                while i < self.strides.len()
                    invariant
                        pattern == AccessPattern::Sequential,
                        1 <= i,
                        i <= self.strides@.len() || self.strides@.len() == 0,
                        forall|k: int| 1 <= k < i && k < self.strides@.len() ==> #[trigger] stride_step_ok(self.strides@, k),
                    decreases self.strides@.len() - i,
                {
                    if self.strides[i] < self.strides[i - 1] {
                        assert(!stride_step_ok(self.strides@, i as int));
                        assert(!strides_nondecreasing(self.strides@));
                        return false;
                    }
                    i = i + 1;
                }
                true
            },
            AccessPattern::Random => true,
            AccessPattern::Structured => self.alignment >= 256,
            AccessPattern::Unknown => true,
        }
    }

    /// Memory usage of a storage with this metadata whose own record takes
    /// `struct_size` bytes: the element count and size, the payload, the
    /// alignment, and the overhead (padding up to the alignment mask plus the record).
    pub fn memory_usage(&self, struct_size: usize) -> (r: MemoryUsage)
        requires
            usage_computable(*self, struct_size),
        ensures
            r.element_count == dims_product(self.shape@),
            r.element_size == dtype_size(self.dtype),
            r.total_size == payload_bytes(*self),
            r.alignment == self.alignment,
            r.overhead_bytes == masked_align_up(payload_bytes(*self) as usize, self.alignment) - payload_bytes(*self) + struct_size,
    {
        let element_size = self.dtype.size_in_bytes();
        let total_elements = self.shape.elem_count();
        let total_size = total_elements * element_size;
        MemoryUsage {
            element_count: total_elements,
            element_size,
            total_size,
            alignment: self.alignment,
            overhead_bytes: self.calculate_overhead(struct_size),
        }
    }

    /// Padding up to the alignment mask, plus the storage record itself.
    fn calculate_overhead(&self, struct_size: usize) -> (r: usize)
        requires
            usage_computable(*self, struct_size),
        ensures
            r == masked_align_up(payload_bytes(*self) as usize, self.alignment) - payload_bytes(*self) + struct_size,
    {
        let base_size = self.shape.elem_count() * self.dtype.size_in_bytes();
        let aligned_size = (base_size + (self.alignment - 1)) & !(self.alignment - 1);
        aligned_size - base_size + struct_size
    }
}

/// CoreX storage: device memory with its owning device, optimization settings
/// and metadata.
pub struct CorexStorage {
    cuda_storage: CudaSlice<u8>,
    device: CorexDevice,
    optimizations: StorageOptimizations,
    metadata: StorageMetadata,
}

impl CorexStorage {
    /// The storage's metadata.
    pub closed spec fn spec_metadata(&self) -> StorageMetadata {
        self.metadata
    }

    /// The storage's optimization settings.
    pub closed spec fn spec_optimizations(&self) -> StorageOptimizations {
        self.optimizations
    }

    /// Every storage keeps the layout it is made with: no strides, a 256-byte alignment.
    #[verifier::type_invariant]
    spec fn layout_kept(self) -> bool {
        default_layout(self.metadata)
    }

    /// The storage's device memory.
    pub closed spec fn spec_cuda_storage(&self) -> CudaSlice<u8> {
        self.cuda_storage
    }

    /// The storage's owning device.
    pub closed spec fn spec_device(&self) -> CorexDevice {
        self.device
    }

    /// Create CoreX storage from device memory holding elements of `dtype` in
    /// `shape`, with every optimization enabled, no strides, a 256-byte alignment
    /// and an unknown access pattern.
    pub fn from_cuda_storage(cuda_storage: CudaSlice<u8>, dtype: DType, shape: Shape, device: CorexDevice) -> (r: Self)
        ensures
            r.spec_cuda_storage() == cuda_storage,
            r.spec_device() == device,
            r.spec_optimizations() == (StorageOptimizations {
                layout_optimization: true,
                kernel_fusion: true,
                async_transfers: true,
                precision_optimization: true,
            }),
            r.spec_metadata().dtype == dtype,
            r.spec_metadata().shape@ == shape@,
            r.spec_metadata().strides@.len() == 0,
            r.spec_metadata().alignment == 256,
            r.spec_metadata().access_pattern == AccessPattern::Unknown,
    {
        Self::with_optimizations(cuda_storage, dtype, shape, device, StorageOptimizations::default())
    }

    /// Create CoreX storage with custom optimizations.
    pub fn with_optimizations(
        cuda_storage: CudaSlice<u8>,
        dtype: DType,
        shape: Shape,
        device: CorexDevice,
        optimizations: StorageOptimizations,
    ) -> (r: Self)
        ensures
            r.spec_cuda_storage() == cuda_storage,
            r.spec_device() == device,
            r.spec_optimizations() == optimizations,
            r.spec_metadata().dtype == dtype,
            r.spec_metadata().shape@ == shape@,
            r.spec_metadata().strides@.len() == 0,
            r.spec_metadata().alignment == 256,
            r.spec_metadata().access_pattern == AccessPattern::Unknown,
    {
        CorexStorage {
            cuda_storage,
            device,
            optimizations,
            metadata: StorageMetadata {
                dtype,
                shape,
                strides: Vec::new(),
                alignment: 256,
                access_pattern: AccessPattern::Unknown,
                created_at: instant_now(),
            },
        }
    }

    /// Get the underlying device memory.
    pub fn cuda_storage(&self) -> (r: &CudaSlice<u8>)
        ensures
            *r == self.spec_cuda_storage(),
    {
        &self.cuda_storage
    }

    /// Get the owning device.
    pub fn device(&self) -> (r: &CorexDevice)
        ensures
            *r == self.spec_device(),
    {
        &self.device
    }

    /// Get the storage metadata.
    pub fn metadata(&self) -> (r: &StorageMetadata)
        ensures
            *r == self.spec_metadata(),
    {
        &self.metadata
    }

    /// Get the optimization settings.
    pub fn optimizations(&self) -> (r: &StorageOptimizations)
        ensures
            *r == self.spec_optimizations(),
    {
        &self.optimizations
    }

    /// The element type.
    pub fn dtype(&self) -> (r: DType)
        ensures
            r == self.spec_metadata().dtype,
    {
        self.metadata.dtype
    }

    /// Set the access-pattern hint; nothing else changes.
    pub fn set_access_pattern(&mut self, pattern: AccessPattern)
        ensures
            final(self).spec_metadata() == (StorageMetadata { access_pattern: pattern, ..old(self).spec_metadata() }),
            final(self).spec_optimizations() == old(self).spec_optimizations(),
            final(self).spec_cuda_storage() == old(self).spec_cuda_storage(),
            final(self).spec_device() == old(self).spec_device(),
    {
        proof {
            use_type_invariant(&*self);
        }
        self.metadata.access_pattern = pattern;
    }

    /// Prepare the memory layout for an operation. With layout optimization off
    /// nothing is done; the per-operation preparations change nothing yet. It
    /// always succeeds.
    pub fn optimize_for_operation(&self, op_type: OperationType) -> (r: Result<(), CorexError>)
        ensures
            r is Ok,
    {
        if !self.optimizations.layout_optimization {
            return Ok(());
        }
        match op_type {
            OperationType::MatMul => self.optimize_for_matmul(),
            OperationType::Convolution => self.optimize_for_convolution(),
            OperationType::ElementWise => self.optimize_for_elementwise(),
            OperationType::Reduction => self.optimize_for_reduction(),
        }
    }

    /// Preparation for matrix multiplication.
    fn optimize_for_matmul(&self) -> (r: Result<(), CorexError>)
        ensures
            r is Ok,
    {
        Ok(())
    }

    /// Preparation for convolution.
    fn optimize_for_convolution(&self) -> (r: Result<(), CorexError>)
        ensures
            r is Ok,
    {
        Ok(())
    }

    /// Preparation for element-wise operations.
    fn optimize_for_elementwise(&self) -> (r: Result<(), CorexError>)
        ensures
            r is Ok,
    {
        Ok(())
    }

    /// Preparation for reductions.
    fn optimize_for_reduction(&self) -> (r: Result<(), CorexError>)
        ensures
            r is Ok,
    {
        Ok(())
    }

    /// Check if the storage suits an access pattern (see `pattern_suited`). A
    /// storage keeps its default layout, so it suits every pattern.
    pub fn is_optimized_for_pattern(&self, pattern: AccessPattern) -> (r: bool)
        ensures
            r == pattern_suited(self.spec_metadata(), pattern),
            r,
    {
        proof {
            use_type_invariant(self);
            lemma_default_layout_suits_every_pattern(self.metadata);
        }
        self.metadata.is_optimized_for_pattern(pattern)
    }

    /// Get memory usage statistics; the overhead counts the storage record itself.
    pub fn memory_usage(&self) -> (r: MemoryUsage)
        requires
            usage_computable(self.spec_metadata(), core::mem::size_of::<CorexStorage>()),
        ensures
            r.element_count == dims_product(self.spec_metadata().shape@),
            r.element_size == dtype_size(self.spec_metadata().dtype),
            r.total_size == payload_bytes(self.spec_metadata()),
            r.alignment == self.spec_metadata().alignment,
            r.overhead_bytes == masked_align_up(payload_bytes(self.spec_metadata()) as usize, self.spec_metadata().alignment)
                - payload_bytes(self.spec_metadata()) + core::mem::size_of::<CorexStorage>(),
    {
        self.metadata.memory_usage(core::mem::size_of::<CorexStorage>())
    }
}

} // verus!
