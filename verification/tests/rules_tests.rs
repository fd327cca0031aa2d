use corex_backend::device::{corex_environment, decimal_string, feature_supported, tuning_environment, CudaDevice, DeviceConfig, OptimizationProfile};
use cudarc::driver::sys::CUresult;
use cudarc::driver::DriverError;
use corex_backend::dtype::{DType, Shape};
use corex_backend::kernels::{
    div_ceil, CorexAttentionKernel, CorexConvKernel, CorexGemmConfig, CorexKernelCompiler, CorexMemoryKernel,
    KernelLaunch,
};
use corex_backend::storage::{AccessPattern, StorageMetadata, StorageOptimizations};
use corex_backend::utils::{
    corex_device_from_props, detect_corex_devices, device_info_from_props, four_fifths_of, get_device_props,
    is_corex_available, is_corex_device, query_device_info, validate_device_config, get_corex_version, get_recommended_config,
    name_indicates_corex, sdk_availability, str_contains, validate_device_config_against, CorexDeviceInfo,
    CorexFeature, DeviceConfig as RecommendedConfig, DeviceProperties, OperationType, SdkHomeProbe, SdkProbe,
    SystemInstallProbe,
};
use corex_backend::{corex_device_count, create_device_with_fallback, sdk_library_path, CorexConfig, CorexError};

fn info(cc: (u8, u8), memory_size: usize) -> CorexDeviceInfo {
    CorexDeviceInfo {
        gpu_id: 3,
        compute_capability: cc,
        memory_size,
        corex_version: "4.3.8".to_string(),
        supports_bf16: cc >= (7, 0),
        supports_fp8: cc >= (8, 9),
        supports_tensor_cores: cc >= (7, 0),
        max_threads_per_block: 1024,
        max_grid_dim: [2147483647, 65535, 65535],
        max_block_dim: [1024, 1024, 64],
        warp_size: 32,
    }
}

fn props(name: &str, major: i32, minor: i32) -> DeviceProperties {
    DeviceProperties {
        name: name.to_string(),
        major,
        minor,
        total_memory: 32 << 30,
        max_threads_per_block: 1024,
        max_grid_dim: [2147483647, 65535, 65535],
        max_block_dim: [1024, 1024, 64],
        warp_size: 32,
        max_blocks_per_multi_processor: 16,
    }
}

#[test]
fn gemm_config_on_ampere() {
    let c = CorexGemmConfig::optimize_for(100, 50, 64, DType::F16, (8, 6));
    assert_eq!(c.dimensions, (100, 50, 64));
    assert_eq!(c.dtype, DType::F16);
    assert!(c.use_tensor_cores);
    assert_eq!(c.block_size, (32, 8));
    assert_eq!(c.grid_size, (4, 7));
    assert_eq!(c.shared_mem_size, 2048);
}

#[test]
fn gemm_config_on_turing_and_older() {
    let t = CorexGemmConfig::optimize_for(33, 16, 8, DType::F32, (7, 5));
    assert_eq!(t.block_size, (16, 16));
    assert_eq!(t.grid_size, (3, 1));
    assert_eq!(t.shared_mem_size, 2048);
    assert!(t.use_tensor_cores);
    let p = CorexGemmConfig::optimize_for(64, 9, 8, DType::F32, (6, 1));
    assert_eq!(p.block_size, (32, 4));
    assert_eq!(p.grid_size, (2, 3));
    assert_eq!(p.shared_mem_size, 1024);
    assert!(!p.use_tensor_cores);
    let e = CorexGemmConfig::optimize_for(0, 0, 0, DType::F32, (9, 0));
    assert_eq!(e.grid_size, (0, 0));
    assert!(e.use_tensor_cores);
}

#[test]
fn ceil_division_never_overflows() {
    assert_eq!(div_ceil(0, 7), 0);
    assert_eq!(div_ceil(7, 7), 1);
    assert_eq!(div_ceil(8, 7), 2);
    assert_eq!(div_ceil(usize::MAX, 2), usize::MAX / 2 + 1);
}

#[test]
fn attention_geometry() {
    assert_eq!(
        CorexAttentionKernel::launch_geometry(20),
        KernelLaunch { grid: (4, 1, 1), block: (128, 1, 1), shared_mem_bytes: 0 }
    );
    assert_eq!(
        CorexAttentionKernel::launch_geometry_bf16(20),
        KernelLaunch { grid: (7, 1, 1), block: (64, 1, 1), shared_mem_bytes: 0 }
    );
}

#[test]
fn conv2d_geometry() {
    assert_eq!(CorexConvKernel::output_size(32, 3, 1, 1), 32);
    assert_eq!(CorexConvKernel::output_size(32, 3, 2, 0), 15);
    let (h, w, g) = CorexConvKernel::conv2d_geometry(2, 3, 30, 17, 3, 1, 0);
    assert_eq!((h, w), (28, 15));
    assert_eq!(g, KernelLaunch { grid: (1, 2, 6), block: (16, 16, 1), shared_mem_bytes: 0 });
}

#[test]
fn memory_kernel_geometry() {
    assert_eq!(CorexMemoryKernel::copy_geometry(1000), KernelLaunch { grid: (4, 1, 1), block: (256, 1, 1), shared_mem_bytes: 0 });
    let (n, g) = CorexMemoryKernel::layout_transform_geometry((16, 32));
    assert_eq!(n, 512);
    assert_eq!(g.grid, (2, 1, 1));
}

#[test]
fn tile_sizes_and_bandwidths() {
    assert_eq!(CorexKernelCompiler::get_optimal_tile_size((8, 0)), 128);
    assert_eq!(CorexKernelCompiler::get_optimal_tile_size((7, 5)), 64);
    assert_eq!(CorexKernelCompiler::get_optimal_tile_size((6, 1)), 32);
    assert_eq!(CorexKernelCompiler::estimate_memory_bandwidth((8, 7)), 1555);
    assert_eq!(CorexKernelCompiler::estimate_memory_bandwidth((8, 6)), 1555);
    assert_eq!(CorexKernelCompiler::estimate_memory_bandwidth((8, 0)), 936);
    assert_eq!(CorexKernelCompiler::estimate_memory_bandwidth((7, 5)), 620);
    assert_eq!(CorexKernelCompiler::estimate_memory_bandwidth((7, 0)), 900);
    assert_eq!(CorexKernelCompiler::estimate_memory_bandwidth((6, 1)), 911);
    assert_eq!(CorexKernelCompiler::estimate_memory_bandwidth((8, 9)), 500);
}

#[test]
fn kernel_profile_from_properties() {
    let p = CorexKernelCompiler::profile_from_props(&props("GPU", 8, 9));
    assert_eq!(p.compute_capability, (8, 9));
    assert_eq!(p.max_threads_per_block, 1024);
    assert_eq!(p.max_blocks_per_sm, 16);
    assert_eq!(p.warps_per_block, 32);
    assert!(p.supports_tensor_cores && p.supports_bf16 && p.supports_fp8);
    assert_eq!(p.optimal_tile_size, 128);
    assert_eq!(p.memory_bandwidth_gb_per_s, 500);
}

#[test]
fn missing_kernel_message() {
    assert_eq!(CorexKernelCompiler::missing_kernel_message("corex_conv2d_f32"), "CoreX kernel 'corex_conv2d_f32' not found");
}

#[test]
fn precision_support_follows_flags() {
    let old = info((6, 1), 1 << 30);
    assert!(!old.supports_precision(DType::F16));
    assert!(!old.supports_precision(DType::BF16));
    assert!(!old.supports_precision(DType::F8E4M3));
    assert!(old.supports_precision(DType::F64));
    let turing = info((7, 5), 1 << 30);
    assert!(turing.supports_precision(DType::BF16));
    assert!(!turing.supports_precision(DType::F8E5M2));
}

#[test]
fn optimal_block_sizes() {
    assert_eq!(info((8, 0), 0).optimal_block_size(OperationType::MatMul), 256);
    assert_eq!(info((7, 2), 0).optimal_block_size(OperationType::MatMul), 128);
    assert_eq!(info((6, 1), 0).optimal_block_size(OperationType::MatMul), 64);
    assert_eq!(info((7, 0), 0).optimal_block_size(OperationType::Convolution), 128);
    assert_eq!(info((6, 0), 0).optimal_block_size(OperationType::Convolution), 64);
    assert_eq!(info((6, 0), 0).optimal_block_size(OperationType::ElementWise), 32);
    assert_eq!(info((6, 0), 0).optimal_block_size(OperationType::Reduction), 256);
}

#[test]
fn device_bandwidth_estimates() {
    assert_eq!(info((8, 6), 0).estimated_bandwidth(), 1550);
    assert_eq!(info((7, 5), 0).estimated_bandwidth(), 900);
    assert_eq!(info((5, 2), 0).estimated_bandwidth(), 500);
}

#[test]
fn enhancing_info_changes_nothing() {
    let mut i = info((8, 6), 1 << 30);
    assert!(i.enhance_with_corex_info().is_ok());
    assert_eq!(i.compute_capability, (8, 6));
    assert_eq!(i.corex_version, "4.3.8");
}

#[test]
fn recommended_config_for_large_fp8_device() {
    let c = get_recommended_config(&info((8, 9), 16 << 30));
    assert_eq!(c.gpu_id, 3);
    assert!(c.enable_memory_pool);
    assert_eq!(c.memory_pool_size, Some(13743895347));
    assert_eq!(c.preferred_precision, Some(DType::F8E5M2));
    assert!(info((8, 9), 16 << 30).supports_precision(c.preferred_precision.unwrap()));
    assert!(c.enable_async);
    assert_eq!(c.stream_priority, 0);
}

#[test]
fn recommended_config_for_small_devices() {
    let bf = get_recommended_config(&info((7, 5), 4 << 30));
    assert!(!bf.enable_memory_pool);
    assert_eq!(bf.memory_pool_size, Some(3435973836));
    assert_eq!(bf.preferred_precision, Some(DType::BF16));
    let none = get_recommended_config(&info((6, 1), 1000));
    assert_eq!(none.memory_pool_size, Some(800));
    assert_eq!(none.preferred_precision, None);
}

#[test]
fn four_fifths_rounds_down() {
    assert_eq!(four_fifths_of(0), 0);
    assert_eq!(four_fifths_of(9), 7);
    assert_eq!(four_fifths_of(10), 8);
    assert_eq!(four_fifths_of(usize::MAX), ((usize::MAX as u128) * 4 / 5) as usize);
}

#[test]
fn config_validation() {
    let ok = RecommendedConfig {
        gpu_id: 1,
        enable_memory_pool: true,
        memory_pool_size: Some(128 << 30),
        preferred_precision: None,
        enable_async: true,
        stream_priority: 0,
    };
    assert!(validate_device_config_against(&ok, 2).is_ok());
    assert!(matches!(validate_device_config_against(&ok, 1), Err(CorexError::DeviceNotFound { gpu_id: 1 })));
    let big = RecommendedConfig { memory_pool_size: Some((128 << 30) + 1), ..ok };
    match validate_device_config_against(&big, 2) {
        Err(CorexError::Custom(msg)) => assert_eq!(msg, "Memory pool size too large (max 128GB)"),
        other => panic!("unexpected {:?}", other),
    }
    let unsized_pool = RecommendedConfig { memory_pool_size: None, ..ok };
    assert!(validate_device_config_against(&unsized_pool, 2).is_ok());
}

#[test]
fn sdk_version_sources() {
    assert_eq!(get_corex_version(Some("5.0".to_string()), true), "5.0");
    assert_eq!(get_corex_version(None, true), "4.3.8");
    assert_eq!(get_corex_version(None, false), "Unknown");
}

#[test]
fn substring_search() {
    assert!(str_contains("Iluvatar BI-V100", "Iluvatar"));
    assert!(str_contains("abc", ""));
    assert!(!str_contains("ab", "abc"));
    assert!(!str_contains("CoreY", "CoreX"));
    assert!(name_indicates_corex("MR-V100 CoreX"));
    assert!(!name_indicates_corex("NVIDIA A100"));
}

#[test]
fn corex_device_decision() {
    assert!(corex_device_from_props(&Ok(props("Iluvatar BI", 8, 0)), false));
    assert!(!corex_device_from_props(&Ok(props("NVIDIA A100", 8, 0)), false));
    assert!(corex_device_from_props(&Ok(props("NVIDIA A100", 8, 0)), true));
    assert!(!corex_device_from_props(&Err(CorexError::SdkNotFound), true));
}

#[test]
fn device_info_from_properties() {
    let i = device_info_from_props(2, &props("X", 7, 5), "4.3.8".to_string());
    assert_eq!(i.gpu_id, 2);
    assert_eq!(i.compute_capability, (7, 5));
    assert_eq!(i.memory_size, 32 << 30);
    assert!(i.supports_bf16 && i.supports_tensor_cores && !i.supports_fp8);
    assert_eq!(i.max_threads_per_block, 1024);
    assert_eq!(i.max_grid_dim, [2147483647, 65535, 65535]);
    assert_eq!(i.warp_size, 32);
    let j = device_info_from_props(0, &props("X", 8, 9), "x".to_string());
    assert!(j.supports_fp8 && j.supports_bf16 && j.supports_tensor_cores);
}

#[test]
fn sdk_availability_from_probe() {
    let home = |lib64, cuda, cublas, cudart| SdkProbe {
        corex_home: Some(SdkHomeProbe {
            lib64_exists: lib64,
            libcuda_exists: cuda,
            libcublas_exists: cublas,
            libcudart_exists: cudart,
        }),
        system_installs: vec![SystemInstallProbe { lib64_exists: true, libcuda_exists: true }],
    };
    assert_eq!(sdk_availability(&home(true, true, true, true)), Some(true));
    assert_eq!(sdk_availability(&home(true, true, false, true)), Some(false));
    assert_eq!(sdk_availability(&home(false, true, true, true)), Some(false));
    let system = |installs: Vec<SystemInstallProbe>| SdkProbe { corex_home: None, system_installs: installs };
    assert_eq!(
        sdk_availability(&system(vec![
            SystemInstallProbe { lib64_exists: true, libcuda_exists: false },
            SystemInstallProbe { lib64_exists: true, libcuda_exists: true },
        ])),
        Some(true)
    );
    assert_eq!(sdk_availability(&system(vec![SystemInstallProbe { lib64_exists: false, libcuda_exists: true }])), None);
}

#[test]
fn device_count_without_corex_is_zero() {
    assert_eq!(corex_device_count(false, Some(Ok(3))).unwrap(), 0);
    assert_eq!(corex_device_count(true, Some(Ok(3))).unwrap(), 3);
    assert_eq!(corex_device_count(true, None).unwrap(), 0);
}

#[test]
fn configuration_defaults() {
    let d = DeviceConfig::default();
    assert_eq!(d.gpu_id, 0);
    assert!(d.enable_memory_pool && d.enable_async);
    assert_eq!(d.memory_pool_size, None);
    assert_eq!(d.preferred_precision, None);
    assert_eq!(d.stream_priority, 0);
    let c = CorexConfig::default();
    assert!(c.enable_memory_optimization && c.enable_kernel_cache);
    assert_eq!(c.memory_pool_size, None);
    assert_eq!(
        c.env_vars,
        vec![
            ("COREX_MEMORY_POOL".to_string(), "1".to_string()),
            ("COREX_KERNEL_CACHE".to_string(), "1".to_string()),
            ("COREX_PRECISION".to_string(), "auto".to_string()),
        ]
    );
    let o = StorageOptimizations::default();
    assert!(o.layout_optimization && o.kernel_fusion && o.async_transfers && o.precision_optimization);
}

#[test]
fn environment_settings() {
    assert_eq!(sdk_library_path("/opt/corex", "/usr/lib"), "/opt/corex/lib64:/usr/lib");
    assert_eq!(sdk_library_path("/x", ""), "/x/lib64:");
    assert_eq!(
        tuning_environment(),
        vec![("COREX_MEMORY_POOL", "1"), ("COREX_KERNEL_CACHE", "1"), ("COREX_PRECISION", "auto"), ("COREX_NUM_THREADS", "0")]
    );
    assert_eq!(OptimizationProfile::Performance.mode_name(), "performance");
    assert_eq!(OptimizationProfile::Balanced.mode_name(), "balanced");
    assert_eq!(OptimizationProfile::Memory.mode_name(), "memory");
}

#[test]
fn feature_names_and_support() {
    assert_eq!(CorexFeature::TensorCores.display_name(), "Tensor Cores");
    assert_eq!(CorexFeature::AsyncOperations.display_name(), "Async Operations");
    assert_eq!(CorexFeature::CustomKernels.display_name(), "Custom Kernels");
    let i = info((8, 0), 1 << 30);
    let mut c = DeviceConfig::default();
    assert!(feature_supported(&i, &c, CorexFeature::BF16));
    assert!(!feature_supported(&i, &c, CorexFeature::FP8));
    assert!(feature_supported(&i, &c, CorexFeature::MemoryPool));
    c.enable_async = false;
    assert!(!feature_supported(&i, &c, CorexFeature::AsyncOperations));
    assert!(!feature_supported(&i, &c, CorexFeature::KernelCache));
}

#[test]
fn element_sizes_and_counts() {
    assert_eq!(DType::U8.size_in_bytes(), 1);
    assert_eq!(DType::F16.size_in_bytes(), 2);
    assert_eq!(DType::BF16.size_in_bytes(), 2);
    assert_eq!(DType::F32.size_in_bytes(), 4);
    assert_eq!(DType::I64.size_in_bytes(), 8);
    assert_eq!(DType::F8E4M3.size_in_bytes(), 1);
    assert_eq!(Shape::from_dims(vec![]).elem_count(), 1);
    assert_eq!(Shape::from_dims(vec![2, 3, 4]).elem_count(), 24);
    assert_eq!(Shape::from_dims(vec![5, 0, 7]).rank(), 3);
}

fn metadata(strides: Vec<usize>, alignment: usize) -> StorageMetadata {
    StorageMetadata {
        dtype: DType::F32,
        shape: (100, 200).into(),
        strides,
        alignment,
        access_pattern: AccessPattern::Unknown,
        created_at: std::time::Instant::now(),
    }
}

#[test]
fn access_pattern_suitability() {
    assert!(metadata(vec![], 256).is_optimized_for_pattern(AccessPattern::Sequential));
    assert!(metadata(vec![1, 200], 256).is_optimized_for_pattern(AccessPattern::Sequential));
    assert!(!metadata(vec![200, 1], 256).is_optimized_for_pattern(AccessPattern::Sequential));
    assert!(metadata(vec![200, 1], 64).is_optimized_for_pattern(AccessPattern::Random));
    assert!(!metadata(vec![], 128).is_optimized_for_pattern(AccessPattern::Structured));
    assert!(metadata(vec![], 256).is_optimized_for_pattern(AccessPattern::Structured));
    assert!(metadata(vec![3, 1], 1).is_optimized_for_pattern(AccessPattern::Unknown));
}

#[test]
fn memory_usage_of_metadata() {
    let u = metadata(vec![200, 1], 256).memory_usage(100);
    assert_eq!(u.element_count, 20000);
    assert_eq!(u.element_size, 4);
    assert_eq!(u.total_size, 80000);
    assert_eq!(u.alignment, 256);
    // 80000 rounds up to 80128.
    assert_eq!(u.overhead_bytes, 128 + 100);
    let exact = StorageMetadata { shape: (64, 1).into(), ..metadata(vec![], 256) };
    assert_eq!(exact.memory_usage(0).overhead_bytes, 0);
}

fn driver_error() -> DriverError {
    DriverError(CUresult::CUDA_ERROR_NO_DEVICE)
}

fn no_install() -> SdkProbe {
    SdkProbe { corex_home: None, system_installs: vec![SystemInstallProbe { lib64_exists: false, libcuda_exists: true }] }
}

#[test]
fn availability_falls_back_to_the_driver() {
    assert!(is_corex_available(&no_install(), Some(Ok(2))));
    assert!(is_corex_available(&no_install(), Some(Ok(0))));
    assert!(!is_corex_available(&no_install(), Some(Err(driver_error()))));
    assert!(!is_corex_available(&no_install(), None));
    let broken_home = SdkProbe {
        corex_home: Some(SdkHomeProbe { lib64_exists: true, libcuda_exists: false, libcublas_exists: true, libcudart_exists: true }),
        system_installs: vec![SystemInstallProbe { lib64_exists: true, libcuda_exists: true }],
    };
    assert!(!is_corex_available(&broken_home, Some(Ok(2))));
}

#[test]
fn detection_lists_the_corex_devices_in_order() {
    let props_list = vec![
        Ok(props("NVIDIA A100", 8, 0)),
        Ok(props("Iluvatar BI-V100", 7, 0)),
        Err(CorexError::CudaError(driver_error())),
        Ok(props("MR-V50 CoreX", 8, 9)),
    ];
    let found = detect_corex_devices(true, false, &"4.3.8".to_string(), &props_list).unwrap();
    assert_eq!(found.len(), 2);
    assert_eq!(found[0].gpu_id, 1);
    assert_eq!(found[0].compute_capability, (7, 0));
    assert_eq!(found[1].gpu_id, 3);
    assert!(found[1].supports_fp8);
    let configured = detect_corex_devices(true, true, &"4.3.8".to_string(), &props_list).unwrap();
    assert_eq!(configured.iter().map(|d| d.gpu_id).collect::<Vec<_>>(), vec![0, 1, 3]);
    assert!(detect_corex_devices(false, true, &"4.3.8".to_string(), &props_list).unwrap().is_empty());
}

#[test]
fn corex_device_check_from_properties() {
    assert_eq!(is_corex_device(true, false, &Ok(props("Iluvatar", 8, 0))).unwrap(), true);
    assert_eq!(is_corex_device(false, true, &Ok(props("Iluvatar", 8, 0))).unwrap(), false);
    assert_eq!(is_corex_device(true, true, &Err(CorexError::SdkNotFound)).unwrap(), false);
}

#[test]
fn device_info_query_from_properties() {
    let i = query_device_info(5, "4.3.8".to_string(), Ok(props("X", 8, 6))).unwrap();
    assert_eq!(i.gpu_id, 5);
    assert!(i.supports_bf16 && !i.supports_fp8);
    assert!(matches!(query_device_info(5, "v".to_string(), Err(CorexError::SdkNotFound)), Err(CorexError::SdkNotFound)));
    assert!(matches!(get_device_props(Err(driver_error())), Err(CorexError::CudaError(_))));
}

#[test]
fn config_validation_against_the_driver() {
    let c = RecommendedConfig {
        gpu_id: 1,
        enable_memory_pool: true,
        memory_pool_size: None,
        preferred_precision: None,
        enable_async: true,
        stream_priority: 0,
    };
    assert!(validate_device_config(&c, Some(Ok(2))).is_ok());
    assert!(matches!(validate_device_config(&c, Some(Ok(1))), Err(CorexError::DeviceNotFound { gpu_id: 1 })));
    assert!(matches!(validate_device_config(&c, Some(Err(driver_error()))), Err(CorexError::DeviceNotFound { gpu_id: 1 })));
    assert!(matches!(validate_device_config(&c, None), Err(CorexError::DeviceNotFound { gpu_id: 1 })));
}

#[test]
fn kernel_check_reports_the_first_missing_kernel() {
    assert!(CorexKernelCompiler::kernel_check_verdict(&vec![true; 5]).is_ok());
    match CorexKernelCompiler::kernel_check_verdict(&vec![true, true, false, false, true]) {
        Err(CorexError::Custom(msg)) => assert_eq!(msg, "CoreX kernel 'corex_conv2d_f32' not found"),
        other => panic!("unexpected {:?}", other),
    }
    match CorexKernelCompiler::kernel_check_verdict(&vec![false, true, true, true, false]) {
        Err(CorexError::Custom(msg)) => assert_eq!(msg, "CoreX kernel 'corex_scaled_dot_product_attention_f32' not found"),
        other => panic!("unexpected {:?}", other),
    }
}

#[test]
fn launch_dimensions_for_the_driver() {
    let l = KernelLaunch { grid: (3, 2, 1), block: (256, 1, 1), shared_mem_bytes: 64 };
    assert_eq!(l.driver_dims(), Some(((3, 2, 1), (256, 1, 1), 64)));
    let big = KernelLaunch { grid: (1usize << 32, 1, 1), ..l };
    assert_eq!(big.driver_dims(), None);
}

#[test]
fn fallback_opens_cuda_when_corex_fails() {
    let r = create_device_with_fallback(0, Some(Err(CorexError::SdkNotFound)), Some(Err(driver_error())));
    assert!(matches!(r, Err(CorexError::CudaError(DriverError(CUresult::CUDA_ERROR_NO_DEVICE)))));
    let r = create_device_with_fallback(0, None, Some(Err(driver_error())));
    assert!(matches!(r, Err(CorexError::CudaError(_))));
    assert!(matches!(CudaDevice::new(0, Err(driver_error())), Err(CorexError::CudaError(_))));
}

#[test]
fn decimal_string_writes_numbers_in_decimal() {
    assert_eq!(decimal_string(0), "0");
    assert_eq!(decimal_string(7), "7");
    assert_eq!(decimal_string(10), "10");
    assert_eq!(decimal_string(12345), "12345");
    assert_eq!(decimal_string(usize::MAX), usize::MAX.to_string());
}

#[test]
fn corex_environment_with_sdk_home() {
    let settings = corex_environment(Some("/opt/corex"), "/usr/lib", 3).unwrap();
    let expected: Vec<(String, String)> = vec![
        ("LD_LIBRARY_PATH".to_string(), "/opt/corex/lib64:/usr/lib".to_string()),
        ("CUDA_VISIBLE_DEVICES".to_string(), "3".to_string()),
        ("COREX_MEMORY_POOL".to_string(), "1".to_string()),
        ("COREX_KERNEL_CACHE".to_string(), "1".to_string()),
        ("COREX_PRECISION".to_string(), "auto".to_string()),
        ("COREX_NUM_THREADS".to_string(), "0".to_string()),
    ];
    assert_eq!(settings, expected);
}

#[test]
fn corex_environment_with_empty_search_path_and_large_gpu_id() {
    let settings = corex_environment(Some("/sdk"), "", 42).unwrap();
    assert_eq!(settings[0].1, "/sdk/lib64:");
    assert_eq!(settings[1].1, "42");
}

#[test]
fn corex_environment_without_sdk_home() {
    assert!(matches!(corex_environment(None, "/usr/lib", 0), Err(CorexError::SdkNotFound)));
}

#[test]
fn device_properties_from_driver_readings() {
    let p = DeviceProperties::from_driver_readings(
        "Iluvatar BI-V150".to_string(),
        (8, 0),
        32 << 30,
        1024,
        [2147483647, 65535, 65535],
        [1024, 1024, 64],
        32,
        16,
    );
    assert_eq!(p.name, "Iluvatar BI-V150");
    assert_eq!((p.major, p.minor), (8, 0));
    assert_eq!(p.total_memory, 32 << 30);
    assert_eq!(p.max_threads_per_block, 1024);
    assert_eq!(p.max_grid_dim, [2147483647, 65535, 65535]);
    assert_eq!(p.max_block_dim, [1024, 1024, 64]);
    assert_eq!(p.warp_size, 32);
    assert_eq!(p.max_blocks_per_multi_processor, 16);
}

#[test]
fn device_properties_keep_negative_extents_as_u32_bits() {
    let p = DeviceProperties::from_driver_readings("x".to_string(), (7, 5), 0, 0, [-1, 0, 1], [2, -2, 3], 32, 0);
    assert_eq!(p.max_grid_dim, [u32::MAX, 0, 1]);
    assert_eq!(p.max_block_dim, [2, u32::MAX - 1, 3]);
}

#[test]
fn shape_clone_keeps_dims() {
    let s = Shape::from_dims(vec![2, 3, 4]);
    let c = s.clone();
    assert_eq!(c.dims(), &[2, 3, 4]);
    assert_eq!(c, s);
}

#[test]
fn metadata_clone_keeps_every_field() {
    let m = metadata(vec![200, 1], 128);
    let c = m.clone();
    assert_eq!(c.dtype, m.dtype);
    assert_eq!(c.shape, m.shape);
    assert_eq!(c.shape.dims(), &[100, 200]);
    assert_eq!(c.strides, m.strides);
    assert_eq!(c.alignment, m.alignment);
    assert_eq!(c.access_pattern, m.access_pattern);
    assert_eq!(c.created_at, m.created_at);
}
