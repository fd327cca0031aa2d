# corex_backend

A backend layer for CoreX (Iluvatar) GPUs on top of the CUDA driver API
(`cudarc`), written in Verus.

- `src/` is the verified library: the device memory pool and its bookkeeping,
  device information and capability rules, recommended and validated device
  configurations, kernel launch geometry and kernel profiles, storage metadata
  and memory-usage accounting, device detection and the CUDA fallback. The
  CUDA driver calls it makes are trusted wrappers in `src/cuda.rs`.
- `app/` is the host side: it reads the environment and the file system,
  applies environment settings, performs the driver allocations and frees
  that the pool asks for, launches kernels, times benchmarks and formats
  reports.
- `tests/` exercises the library on concrete values.

Tensor operations on storage, cloning device buffers, seeding and random
fills belong to the tensor framework that uses this backend; they are outside
this crate.

Every call that first reaches the CUDA driver (counting devices, opening a
context) is made by the caller, which checks first that the driver library can
be loaded; the library takes the outcomes of those calls as arguments.
