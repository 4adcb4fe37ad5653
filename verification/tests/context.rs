use ash::vk;
use rayge::context::device::{AllocatorCreateInfo, Device, ALLOCATOR_FLAGS};
use rayge::context::extensions;
use rayge::context::features::{self, Features};
use rayge::context::instance::{self, Instance, InstanceError, VK_API_VERSION};
use rayge::context::physical_device::{Candidate, PhysicalDevice, PhysicalDeviceError};
use rayge::context::properties::{
    AccelerationStructureProperties, CoreProperties, Properties, RayTracingPipelineProperties,
    ReportedAccelerationStructure, ReportedRayTracingPipeline, ShaderGroupProperties,
};
use rayge::context::queue::{
    DeviceQueueCreateInfo, Families, FamilyProperties, Queue, QueueError, Role,
};
use rayge::context::surface::{
    self, Config, Extent2D, Handle, PresentMode, Surface, SurfaceCapabilities, SurfaceFormat,
};
use rayge::context::{self, Context};
use rayge::destroy::Command;

fn all_features() -> Features {
    features::required()
}

fn properties(n: u32) -> Properties {
    Properties::get_supported(
        ReportedAccelerationStructure { min_acceleration_structure_scratch_offset_alignment: n },
        ReportedRayTracingPipeline {
            shader_group_base_alignment: n + 1,
            shader_group_handle_alignment: n + 2,
            shader_group_handle_size: n + 3,
        },
    )
}

fn names(list: &[&str]) -> Vec<Option<String>> {
    list.iter().map(|name| Some(name.to_string())).collect()
}

fn device_extensions() -> Vec<Option<String>> {
    names(&[
        "VK_KHR_maintenance1",
        "VK_KHR_swapchain",
        "VK_KHR_acceleration_structure",
        "VK_KHR_deferred_host_operations",
        "VK_KHR_ray_tracing_pipeline",
        "VK_EXT_memory_priority",
        "VK_EXT_pageable_device_local_memory",
        "VK_KHR_shader_clock",
    ])
}

fn capabilities() -> SurfaceCapabilities {
    SurfaceCapabilities {
        min_image_count: 2,
        max_image_count: 8,
        current_extent: Extent2D { width: 640, height: 480 },
        min_image_extent: Extent2D { width: 1, height: 1 },
        max_image_extent: Extent2D { width: 4096, height: 4096 },
    }
}

fn wanted_format() -> SurfaceFormat {
    SurfaceFormat {
        format: vk::Format::B8G8R8A8_SRGB.as_raw(),
        color_space: vk::ColorSpaceKHR::SRGB_NONLINEAR.as_raw(),
    }
}

fn fifo() -> PresentMode {
    PresentMode { raw: vk::PresentModeKHR::FIFO.as_raw() }
}

fn good(handle: u64) -> Candidate {
    Candidate {
        handle,
        extensions: Ok(device_extensions()),
        features: all_features(),
        capabilities: Ok(capabilities()),
        surface_formats: Ok(vec![wanted_format()]),
        present_modes: Ok(vec![fifo()]),
        properties: properties(handle as u32),
    }
}

fn window() -> Extent2D {
    Extent2D { width: 640, height: 480 }
}

fn expected_config() -> Config {
    Config { present_mode: fifo(), extent: window(), image_count: 3 }
}

fn select(
    candidates: Result<Vec<Candidate>, vk::Result>,
) -> Result<(PhysicalDevice, Config), PhysicalDeviceError> {
    PhysicalDevice::new(&Handle { surface: 1 }, &candidates, window())
}

#[test]
fn required_features_are_all_set() {
    let f = features::required();
    assert!(f.sampler_anisotropy && f.shader_int64);
    assert!(f.storage_buffer16_bit_access && f.uniform_and_storage_buffer16_bit_access);
    assert!(f.buffer_device_address && f.descriptor_binding_partially_bound);
    assert!(f.descriptor_binding_variable_descriptor_count && f.descriptor_indexing);
    assert!(f.runtime_descriptor_array && f.scalar_block_layout);
    assert!(f.uniform_and_storage_buffer8_bit_access && f.vulkan_memory_model);
    assert!(f.dynamic_rendering && f.synchronization2);
    assert!(f.acceleration_structure && f.ray_tracing_pipeline);
    assert!(f.memory_priority && f.pageable_device_local_memory);
    assert!(features::supported_by(&f));
}

#[test]
fn each_checked_feature_is_needed() {
    let all = all_features();
    let lacking: Vec<Features> = vec![
        Features { sampler_anisotropy: false, ..all },
        Features { shader_int64: false, ..all },
        Features { storage_buffer16_bit_access: false, ..all },
        Features { uniform_and_storage_buffer16_bit_access: false, ..all },
        Features { buffer_device_address: false, ..all },
        Features { descriptor_binding_partially_bound: false, ..all },
        Features { descriptor_binding_variable_descriptor_count: false, ..all },
        Features { descriptor_indexing: false, ..all },
        Features { runtime_descriptor_array: false, ..all },
        Features { scalar_block_layout: false, ..all },
        Features { uniform_and_storage_buffer8_bit_access: false, ..all },
        Features { vulkan_memory_model: false, ..all },
        Features { dynamic_rendering: false, ..all },
        Features { synchronization2: false, ..all },
        Features { acceleration_structure: false, ..all },
        Features { ray_tracing_pipeline: false, ..all },
        Features { memory_priority: false, ..all },
        Features { pageable_device_local_memory: false, ..all },
    ];
    for features in &lacking {
        assert!(!features::supported_by(features));
    }

}

#[test]
fn required_extension_names() {
    assert_eq!(
        extensions::instance::required(),
        vec!["VK_EXT_debug_utils", "VK_KHR_surface", "VK_KHR_win32_surface"]
    );
    assert_eq!(
        extensions::device::required(),
        vec![
            "VK_KHR_swapchain",
            "VK_KHR_acceleration_structure",
            "VK_KHR_deferred_host_operations",
            "VK_KHR_ray_tracing_pipeline",
            "VK_EXT_memory_priority",
            "VK_EXT_pageable_device_local_memory",
        ]
    );
}

#[test]
fn extension_gate() {
    assert_eq!(extensions::device::supported_by(&Ok(device_extensions())), Ok(true));
    assert_eq!(extensions::device::supported_by(&Ok(vec![])), Ok(false));
    for missing in extensions::device::required() {
        let listed: Vec<Option<String>> = device_extensions()
            .into_iter()
            .filter(|name| name.as_deref() != Some(missing.as_str()))
            .collect();
        assert_eq!(extensions::device::supported_by(&Ok(listed)), Ok(false));
    }
    assert_eq!(
        extensions::device::supported_by(&Err(vk::Result::ERROR_OUT_OF_HOST_MEMORY)),
        Err(extensions::device::Error::Enumerate(vk::Result::ERROR_OUT_OF_HOST_MEMORY))
    );
    // An entry without a name is an error, whether or not the rest suffices.
    let mut listed = device_extensions();
    listed.push(None);
    assert_eq!(
        extensions::device::supported_by(&Ok(listed)),
        Err(extensions::device::Error::Parse)
    );
    assert_eq!(
        extensions::device::supported_by(&Ok(vec![None])),
        Err(extensions::device::Error::Parse)
    );
    // Names are compared as a whole.
    assert_eq!(extensions::device::supported_by(&Ok(names(&["VK_KHR_swapchain_"]))), Ok(false));
}

#[test]
fn properties_are_kept_field_by_field() {
    assert_eq!(
        properties(10),
        Properties {
            core: CoreProperties,
            acceleration_structure: AccelerationStructureProperties {
                min_scratch_offset_alignment: 10
            },
            ray_tracing_pipeline: RayTracingPipelineProperties {
                shader_group: ShaderGroupProperties {
                    base_alignment: 11,
                    handle_alignment: 12,
                    handle_size: 13,
                },
            },
        }
    );
    let reported = ReportedRayTracingPipeline {
        shader_group_base_alignment: 64,
        shader_group_handle_alignment: 32,
        shader_group_handle_size: 16,
    };
    assert_eq!(
        ShaderGroupProperties::from(reported),
        ShaderGroupProperties { base_alignment: 64, handle_alignment: 32, handle_size: 16 }
    );
    assert_eq!(
        RayTracingPipelineProperties::from(reported).shader_group,
        ShaderGroupProperties::from(reported)
    );
    assert_eq!(
        AccelerationStructureProperties::from(ReportedAccelerationStructure {
            min_acceleration_structure_scratch_offset_alignment: 128
        }),
        AccelerationStructureProperties { min_scratch_offset_alignment: 128 }
    );
}

#[test]
fn instance_create_info() {
    let info = Instance::create_info();
    assert_eq!(info.application_name, "RAYGE Renderer");
    assert_eq!(instance::application_name(), "RAYGE Renderer");
    assert_eq!(info.api_version, vk::API_VERSION_1_3);
    assert_eq!(VK_API_VERSION, vk::make_api_version(0, 1, 3, 0));
    assert_eq!(instance::api_version(), vk::API_VERSION_1_3);
    assert_eq!(info.enabled_extension_names, extensions::instance::required());
}

#[test]
fn instance_is_taken_over_or_creation_failed() {
    assert!(matches!(Instance::new(Ok(()), Some(Ok(42))), Ok(Instance { handle: 42 })));
    assert!(matches!(
        Instance::new(Ok(()), Some(Err(vk::Result::ERROR_INCOMPATIBLE_DRIVER))),
        Err(InstanceError::Create(vk::Result::ERROR_INCOMPATIBLE_DRIVER))
    ));
}

#[test]
fn first_suitable_adapter_is_selected() {
    match select(Ok(vec![good(10), good(20)])) {
        Ok((device, config)) => {
            assert_eq!(device, PhysicalDevice { properties: properties(10), handle: 10 });
            assert_eq!(config, expected_config());
        }
        Err(e) => panic!("unexpected: {e:?}"),
    }
}

#[test]
fn unsuitable_adapters_are_passed_over() {
    let mut no_extensions = good(1);
    no_extensions.extensions = Ok(names(&["VK_KHR_swapchain"]));
    let mut no_feature = good(2);
    no_feature.features.ray_tracing_pipeline = false;
    let mut no_format = good(3);
    no_format.surface_formats = Ok(vec![]);
    match select(Ok(vec![no_extensions, no_feature, no_format, good(4), good(5)])) {
        Ok((device, _)) => assert_eq!(device.handle, 4),
        Err(e) => panic!("unexpected: {e:?}"),
    }
}

#[test]
fn no_adapter_means_no_suitable_candidate() {
    assert!(matches!(select(Ok(vec![])), Err(PhysicalDeviceError::NoSuitableCandidate)));
}

#[test]
fn adapter_missing_one_feature_is_no_suitable_candidate() {
    let mut candidate = good(1);
    candidate.features.synchronization2 = false;
    assert!(matches!(
        select(Ok(vec![candidate])),
        Err(PhysicalDeviceError::NoSuitableCandidate)
    ));
}

#[test]
fn failed_listing_of_adapters_is_an_error() {
    assert!(matches!(
        select(Err(vk::Result::ERROR_INITIALIZATION_FAILED)),
        Err(PhysicalDeviceError::Enumerate(vk::Result::ERROR_INITIALIZATION_FAILED))
    ));
}

#[test]
fn failed_report_of_a_tried_adapter_is_an_error() {
    let mut broken = good(1);
    broken.extensions = Err(vk::Result::ERROR_OUT_OF_HOST_MEMORY);
    assert!(matches!(
        select(Ok(vec![broken, good(2)])),
        Err(PhysicalDeviceError::DeviceExtensions(extensions::device::Error::Enumerate(
            vk::Result::ERROR_OUT_OF_HOST_MEMORY
        )))
    ));
    let mut unnamed = good(1);
    unnamed.extensions = Ok(vec![None]);
    assert!(matches!(
        select(Ok(vec![unnamed, good(2)])),
        Err(PhysicalDeviceError::DeviceExtensions(extensions::device::Error::Parse))
    ));
    let mut lost = good(1);
    lost.present_modes = Err(vk::Result::ERROR_SURFACE_LOST_KHR);
    assert!(matches!(
        select(Ok(vec![lost, good(2)])),
        Err(PhysicalDeviceError::Surface(surface::Error::GetConfigOptions(
            vk::Result::ERROR_SURFACE_LOST_KHR
        )))
    ));
}

#[test]
fn later_gates_are_not_looked_at() {
    // The surface reports fail, but the adapter does not get that far.
    let mut early = good(1);
    early.features.shader_int64 = false;
    early.capabilities = Err(vk::Result::ERROR_SURFACE_LOST_KHR);
    let mut earlier = good(2);
    earlier.extensions = Ok(vec![]);
    earlier.surface_formats = Err(vk::Result::ERROR_SURFACE_LOST_KHR);
    match select(Ok(vec![early, earlier, good(3)])) {
        Ok((device, _)) => assert_eq!(device.handle, 3),
        Err(e) => panic!("unexpected: {e:?}"),
    }
    // Nor is an adapter after the one selected.
    let mut late = good(9);
    late.extensions = Err(vk::Result::ERROR_OUT_OF_HOST_MEMORY);
    match select(Ok(vec![good(8), late])) {
        Ok((device, _)) => assert_eq!(device.handle, 8),
        Err(e) => panic!("unexpected: {e:?}"),
    }
}

#[test]
fn try_create_one_adapter() {
    let surface = Handle { surface: 1 };
    assert!(matches!(
        PhysicalDevice::try_create(&surface, &good(6), window()),
        Ok(Some((PhysicalDevice { handle: 6, .. }, _)))
    ));
    let mut no_feature = good(6);
    no_feature.features.memory_priority = false;
    assert!(matches!(PhysicalDevice::try_create(&surface, &no_feature, window()), Ok(None)));
}

fn family(flags: vk::QueueFlags, present: bool) -> FamilyProperties {
    FamilyProperties { queue_count: 1, queue_flags: flags.as_raw(), present_support: Ok(present) }
}

#[test]
fn device_create_info() {
    let families = vec![
        family(vk::QueueFlags::GRAPHICS | vk::QueueFlags::TRANSFER, true),
        family(vk::QueueFlags::COMPUTE, false),
    ];
    match Device::create_info(&families) {
        Ok((info, found)) => {
            assert_eq!(found, Families { graphics: 0, compute: 1, transfer: 0 });
            assert_eq!(
                info.queue_create_infos,
                vec![
                    DeviceQueueCreateInfo { queue_family_index: 0, queue_count: 1 },
                    DeviceQueueCreateInfo { queue_family_index: 1, queue_count: 1 },
                ]
            );
            assert_eq!(info.enabled_extension_names, extensions::device::required());
            assert_eq!(info.required_features, features::required());
        }
        Err(e) => panic!("unexpected: {e:?}"),
    }
    assert!(matches!(
        Device::create_info(&vec![family(vk::QueueFlags::GRAPHICS, true)]),
        Err(context::device::Error::Queue(QueueError::Create(Role::Compute)))
    ));
}

#[test]
fn allocator_create_info() {
    let flags = vk_mem::AllocatorCreateFlags::KHR_DEDICATED_ALLOCATION
        | vk_mem::AllocatorCreateFlags::KHR_BIND_MEMORY2
        | vk_mem::AllocatorCreateFlags::BUFFER_DEVICE_ADDRESS
        | vk_mem::AllocatorCreateFlags::EXT_MEMORY_PRIORITY;
    assert_eq!(ALLOCATOR_FLAGS, flags.bits());
    assert_eq!(
        Device::allocator_create_info(),
        AllocatorCreateInfo { vulkan_api_version: vk::API_VERSION_1_3, flags: flags.bits() }
    );
}

fn device() -> Device {
    let families = Families { graphics: 0, compute: 1, transfer: 2 };
    match Device::new(&families, Ok(77), Some(Ok(())), Some((1, 2, 3))) {
        Ok(device) => device,
        Err(e) => panic!("unexpected: {e:?}"),
    }
}

#[test]
fn device_is_taken_over_with_its_queues() {
    let device = device();
    assert_eq!(device.handle, 77);
    assert_eq!(device.queues.graphics, Queue { queue: 1, family: 0 });
    assert_eq!(device.queues.compute, Queue { queue: 2, family: 1 });
    assert_eq!(device.queues.transfer, Queue { queue: 3, family: 2 });
}

#[test]
fn device_creation_failures() {
    let families = Families { graphics: 0, compute: 1, transfer: 2 };
    assert!(matches!(
        Device::new(&families, Err(vk::Result::ERROR_FEATURE_NOT_PRESENT), None, None),
        Err(context::device::Error::Create(vk::Result::ERROR_FEATURE_NOT_PRESENT))
    ));
    assert!(matches!(
        Device::new(&families, Ok(77), Some(Err(vk::Result::ERROR_OUT_OF_DEVICE_MEMORY)), None),
        Err(context::device::Error::Allocator(vk::Result::ERROR_OUT_OF_DEVICE_MEMORY))
    ));
}

#[test]
fn device_outcomes_become_device_errors() {
    let device = device();
    assert!(matches!(device.wait_idle(Ok(())), Ok(())));
    assert!(matches!(
        device.wait_idle(Err(vk::Result::ERROR_DEVICE_LOST)),
        Err(context::device::Error::WaitIdle(vk::Result::ERROR_DEVICE_LOST))
    ));
    assert!(matches!(device.set_debug_name(Ok(())), Ok(())));
    assert!(matches!(
        device.set_debug_name(Err(vk::Result::ERROR_OUT_OF_HOST_MEMORY)),
        Err(context::device::Error::SetDebugName(vk::Result::ERROR_OUT_OF_HOST_MEMORY))
    ));
}

fn physical_device() -> PhysicalDevice {
    PhysicalDevice { properties: properties(1), handle: 5 }
}

#[test]
fn context_is_put_together_in_order_of_acquisition() {
    let context = Context::new(
        Ok(Instance { handle: 1 }),
        Some(Ok(Handle { surface: 2 })),
        Some(Ok((physical_device(), expected_config()))),
        Some(Ok(device())),
    );
    match context {
        Ok(context) => {
            assert_eq!(context.instance, Instance { handle: 1 });
            assert_eq!(
                context.surface,
                Surface { config: expected_config(), handle: Handle { surface: 2 } }
            );
            assert_eq!(context.physical_device, physical_device());
            assert_eq!(context.device, device());
        }
        Err(e) => panic!("unexpected: {e:?}"),
    }
}

#[test]
fn context_error_is_that_of_the_first_failed_stage() {
    assert!(matches!(
        Context::new(
            Err(InstanceError::Create(vk::Result::ERROR_INCOMPATIBLE_DRIVER)),
            None,
            None,
            None
        ),
        Err(context::Error::Instance(InstanceError::Create(vk::Result::ERROR_INCOMPATIBLE_DRIVER)))
    ));
    assert!(matches!(
        Context::new(
            Ok(Instance { handle: 1 }),
            Some(Err(surface::Error::UnsupportedPlatform)),
            None,
            None
        ),
        Err(context::Error::Surface(surface::Error::UnsupportedPlatform))
    ));
    assert!(matches!(
        Context::new(
            Ok(Instance { handle: 1 }),
            Some(Ok(Handle { surface: 2 })),
            Some(Err(PhysicalDeviceError::NoSuitableCandidate)),
            None
        ),
        Err(context::Error::PhysicalDevice(PhysicalDeviceError::NoSuitableCandidate))
    ));
    assert!(matches!(
        Context::new(
            Ok(Instance { handle: 1 }),
            Some(Ok(Handle { surface: 2 })),
            Some(Ok((physical_device(), expected_config()))),
            Some(Err(context::device::Error::Create(vk::Result::ERROR_DEVICE_LOST)))
        ),
        Err(context::Error::Device(context::device::Error::Create(vk::Result::ERROR_DEVICE_LOST)))
    ));
}

fn context() -> Context {
    Context {
        device: device(),
        surface: Surface { config: expected_config(), handle: Handle { surface: 2 } },
        physical_device: physical_device(),
        instance: Instance { handle: 1 },
    }
}

#[test]
fn context_refreshes_the_extent_of_its_surface() {
    let mut ctx = context();
    let mut report = capabilities();
    report.current_extent = Extent2D { width: 800, height: 600 };
    assert!(matches!(ctx.refresh_surface_capabilities(Ok(report), window()), Ok(true)));
    assert_eq!(ctx.surface.config.extent, Extent2D { width: 800, height: 600 });
    report.current_extent = Extent2D { width: 0, height: 0 };
    assert!(matches!(ctx.refresh_surface_capabilities(Ok(report), window()), Ok(false)));
    assert_eq!(ctx.surface.config.extent, Extent2D { width: 0, height: 0 });
    let before = ctx;
    assert!(matches!(
        ctx.refresh_surface_capabilities(Err(vk::Result::ERROR_SURFACE_LOST_KHR), window()),
        Err(context::Error::Surface(surface::Error::GetConfigOptions(
            vk::Result::ERROR_SURFACE_LOST_KHR
        )))
    ));
    assert_eq!(ctx, before);
}

#[test]
fn context_is_given_up_in_reverse_order() {
    assert_eq!(
        context().teardown(),
        vec![
            Command::DestroyAllocator,
            Command::DestroyDevice,
            Command::DestroySurface(2),
            Command::DestroyInstance,
        ]
    );
}

fn unordered() -> SurfaceCapabilities {
    SurfaceCapabilities {
        current_extent: Extent2D { width: u32::MAX, height: u32::MAX },
        min_image_extent: Extent2D { width: 100, height: 100 },
        max_image_extent: Extent2D { width: 50, height: 50 },
        ..capabilities()
    }
}

#[test]
fn unordered_bounds_matter_only_where_an_extent_is_chosen() {
    assert!(good(1).is_negotiable());
    let mut broken = good(1);
    broken.capabilities = Ok(unordered());
    assert!(!broken.is_negotiable());

    // An adapter that does not get as far as choosing an extent can be tried.
    let mut no_extensions = good(1);
    no_extensions.capabilities = Ok(unordered());
    no_extensions.extensions = Ok(vec![]);
    assert!(no_extensions.is_negotiable());
    let mut failed_listing = good(1);
    failed_listing.capabilities = Ok(unordered());
    failed_listing.extensions = Err(vk::Result::ERROR_OUT_OF_HOST_MEMORY);
    assert!(failed_listing.is_negotiable());
    let mut no_feature = good(1);
    no_feature.capabilities = Ok(unordered());
    no_feature.features.descriptor_indexing = false;
    assert!(no_feature.is_negotiable());
    let mut no_format = good(1);
    no_format.capabilities = Ok(unordered());
    no_format.surface_formats = Ok(vec![]);
    assert!(no_format.is_negotiable());
    let mut failed_formats = good(1);
    failed_formats.capabilities = Ok(unordered());
    failed_formats.surface_formats = Err(vk::Result::ERROR_SURFACE_LOST_KHR);
    assert!(failed_formats.is_negotiable());
    let mut failed_modes = good(1);
    failed_modes.capabilities = Ok(unordered());
    failed_modes.present_modes = Err(vk::Result::ERROR_SURFACE_LOST_KHR);
    assert!(failed_modes.is_negotiable());

    assert!(matches!(
        PhysicalDevice::try_create(&Handle { surface: 1 }, &no_format, window()),
        Ok(None)
    ));
    assert!(matches!(
        PhysicalDevice::try_create(&Handle { surface: 1 }, &failed_modes, window()),
        Err(PhysicalDeviceError::Surface(surface::Error::GetConfigOptions(
            vk::Result::ERROR_SURFACE_LOST_KHR
        )))
    ));
}

#[test]
fn selection_can_be_carried_out_up_to_the_adapter_it_ends_at() {
    let surface = Handle { surface: 1 };
    let broken = || {
        let mut broken = good(9);
        broken.capabilities = Ok(unordered());
        broken
    };
    let passed_over = || {
        let mut passed_over = good(2);
        passed_over.features.shader_int64 = false;
        passed_over
    };
    assert!(PhysicalDevice::can_select(&surface, &Ok(vec![]), window()));
    assert!(PhysicalDevice::can_select(
        &surface,
        &Err(vk::Result::ERROR_INITIALIZATION_FAILED),
        window()
    ));
    assert!(PhysicalDevice::can_select(&surface, &Ok(vec![good(1), good(2)]), window()));
    assert!(!PhysicalDevice::can_select(&surface, &Ok(vec![broken()]), window()));
    assert!(!PhysicalDevice::can_select(&surface, &Ok(vec![passed_over(), broken()]), window()));
    // An adapter after the one selected is never tried.
    let behind = Ok(vec![passed_over(), good(1), broken()]);
    assert!(PhysicalDevice::can_select(&surface, &behind, window()));
    match PhysicalDevice::new(&surface, &behind, window()) {
        Ok((device, _)) => assert_eq!(device.handle, 1),
        Err(e) => panic!("unexpected: {e:?}"),
    }
    // Nor is one after a trial that ended in an error.
    let mut failing = good(3);
    failing.extensions = Err(vk::Result::ERROR_OUT_OF_HOST_MEMORY);
    assert!(PhysicalDevice::can_select(&surface, &Ok(vec![failing, broken()]), window()));
}
