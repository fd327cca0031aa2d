use corex_backend::device::{MemoryPool, PoolGrant, PoolRelease, MAX_POOLED_BLOCKS};
use corex_backend::utils::device_count_from_answer;
use corex_backend::CorexError;
use cudarc::driver::sys::CUresult;
use cudarc::driver::DriverError;

#[test]
fn empty_pool_asks_for_device_memory() {
    let mut pool = MemoryPool::new(1024);
    assert_eq!(pool.allocate(256, 16).unwrap(), PoolGrant::DeviceAlloc { size: 256 });
    let stats = pool.stats();
    assert_eq!(stats.total_allocated, 0);
    assert_eq!(stats.max_allocation, 1024);
    assert_eq!(stats.free_blocks, 0);
}

#[test]
fn device_allocation_is_counted() {
    let mut pool = MemoryPool::new(1024);
    assert_eq!(pool.allocate(256, 16).unwrap(), PoolGrant::DeviceAlloc { size: 256 });
    assert_eq!(pool.finish_allocation(256, Ok(0x7000)).unwrap(), 0x7000);
    assert_eq!(pool.stats().total_allocated, 256);
}

#[test]
fn failed_device_allocation_is_a_cuda_error_and_not_counted() {
    let mut pool = MemoryPool::new(1024);
    let outcome = Err(DriverError(CUresult::CUDA_ERROR_OUT_OF_MEMORY));
    let r = pool.finish_allocation(256, outcome);
    assert!(matches!(r, Err(CorexError::CudaError(DriverError(CUresult::CUDA_ERROR_OUT_OF_MEMORY)))));
    assert_eq!(pool.stats().total_allocated, 0);
}

#[test]
fn allocation_over_the_limit_is_refused() {
    let mut pool = MemoryPool::new(1000);
    pool.finish_allocation(600, Ok(0x1000)).unwrap();
    assert!(matches!(pool.allocate(401, 8), Err(CorexError::MemoryAllocationFailed { size: 401 })));
    assert_eq!(pool.allocate(400, 8).unwrap(), PoolGrant::DeviceAlloc { size: 400 });
    assert!(matches!(pool.allocate(usize::MAX, 1), Err(CorexError::MemoryAllocationFailed { size: usize::MAX })));
}

#[test]
fn released_block_is_reused() {
    let mut pool = MemoryPool::new(4096);
    assert_eq!(pool.deallocate(0xA000, 512, 64), PoolRelease::Pooled);
    assert_eq!(pool.stats().free_blocks, 1);
    assert_eq!(pool.allocate(512, 64).unwrap(), PoolGrant::Reused(0xA000));
    assert_eq!(pool.stats().free_blocks, 0);
}

#[test]
fn first_fitting_block_is_taken() {
    let mut pool = MemoryPool::new(4096);
    pool.deallocate(0x1000, 128, 16);
    pool.deallocate(0x2000, 512, 8);
    pool.deallocate(0x3000, 512, 64);
    pool.deallocate(0x4000, 1024, 256);
    // Too small, too little aligned, then the first that serves.
    assert_eq!(pool.allocate(256, 32).unwrap(), PoolGrant::Reused(0x3000));
    assert_eq!(pool.allocate(256, 32).unwrap(), PoolGrant::Reused(0x4000));
    assert_eq!(pool.allocate(256, 32).unwrap(), PoolGrant::DeviceAlloc { size: 256 });
    assert_eq!(pool.stats().free_blocks, 2);
}

#[test]
fn full_pool_hands_blocks_back_to_the_driver() {
    let mut pool = MemoryPool::new(1 << 20);
    for i in 0..MAX_POOLED_BLOCKS {
        assert_eq!(pool.deallocate(i as u64, 8, 8), PoolRelease::Pooled);
    }
    assert_eq!(pool.deallocate(0xFFFF, 64, 8), PoolRelease::DeviceFree { ptr: 0xFFFF, size: 64 });
    assert_eq!(pool.stats().free_blocks, MAX_POOLED_BLOCKS);
}

#[test]
fn freeing_lowers_the_count_without_going_below_zero() {
    let mut pool = MemoryPool::new(1000);
    pool.finish_allocation(300, Ok(0x1)).unwrap();
    pool.finish_release(100, true);
    assert_eq!(pool.stats().total_allocated, 200);
    pool.finish_release(100, false);
    assert_eq!(pool.stats().total_allocated, 200);
    pool.finish_release(500, true);
    assert_eq!(pool.stats().total_allocated, 0);
}

#[test]
fn optimize_keeps_the_first_fifty_of_many_blocks() {
    let mut pool = MemoryPool::new(1 << 20);
    for i in 0..101u64 {
        pool.deallocate(i, 8, 8);
    }
    pool.optimize();
    assert_eq!(pool.stats().free_blocks, 50);
    assert_eq!(pool.allocate(8, 8).unwrap(), PoolGrant::Reused(0));
}

#[test]
fn optimize_leaves_a_small_pool_alone() {
    let mut pool = MemoryPool::new(1 << 20);
    for i in 0..100u64 {
        pool.deallocate(i, 8, 8);
    }
    pool.optimize();
    assert_eq!(pool.stats().free_blocks, 100);
}

#[test]
fn device_count_from_driver_answers() {
    assert_eq!(device_count_from_answer(Some(Ok(4))), 4);
    assert_eq!(device_count_from_answer(Some(Ok(-1))), 0);
    assert_eq!(device_count_from_answer(Some(Err(DriverError(CUresult::CUDA_ERROR_NOT_INITIALIZED)))), 0);
    assert_eq!(device_count_from_answer(None), 0);
}
