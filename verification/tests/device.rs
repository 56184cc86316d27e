use ash::vk::Handle;
use std::sync::Arc;
use vulkano_device::create_info::{DeviceCreateInfo, QueueCreateFlags, QueueCreateInfo};
use vulkano_device::device::{Device, DeviceQueueInfo};
use vulkano_device::error::{QueueCreateInfoError, ValidationError};
use vulkano_device::extensions::{
    DeviceExtension, DeviceExtensions, ExtensionRestrictionError, InstanceExtensions,
};
use vulkano_device::features::{Feature, Features};
use vulkano_device::lists::PhysicalDeviceList;
use vulkano_device::physical::{
    DrmFormatModifierProperties, Format, FormatProperties, Instance, PhysicalDevice, Properties,
    QueueFamilyProperties,
};
use vulkano_device::version::Version;

fn version(major: u32, minor: u32) -> Version {
    Version { major, minor, patch: 0 }
}

fn instance_with(api: Version, groups: Vec<Vec<u64>>) -> Arc<Instance> {
    Arc::new(Instance {
        handle: 100,
        api_version: api,
        enabled_extensions: InstanceExtensions::empty(),
        physical_device_groups: groups,
    })
}

fn all_extensions() -> DeviceExtensions {
    let mut e = DeviceExtensions::empty();
    for x in DeviceExtension::all() {
        e.enable(x);
    }
    e
}

fn physical_device_with(handle: u64, api: Version, instance: Arc<Instance>) -> Arc<PhysicalDevice> {
    let mut supported_features = Features::all();
    supported_features.descriptor_buffer = false;
    Arc::new(PhysicalDevice {
        handle,
        instance,
        api_version: api,
        supported_extensions: DeviceExtensions {
            khr_portability_subset: false,
            ..all_extensions()
        },
        supported_features,
        queue_family_properties: vec![
            QueueFamilyProperties { queue_count: 4 },
            QueueFamilyProperties { queue_count: 1 },
        ],
        properties: Properties { max_primitive_count: Some(1000), max_instance_count: Some(10) },
        format_properties: vec![FormatProperties {
            format: Format { code: 1000156003, plane_count: 3 },
            drm_format_modifier_properties: vec![DrmFormatModifierProperties {
                drm_format_modifier: 7,
                drm_format_modifier_plane_count: 2,
            }],
        }],
    })
}

fn physical_device() -> Arc<PhysicalDevice> {
    physical_device_with(1, version(1, 3), instance_with(version(1, 3), vec![vec![1, 2]]))
}

fn queue_info(family: u32, priorities: Vec<f32>) -> QueueCreateInfo {
    QueueCreateInfo {
        queue_family_index: family,
        queues: priorities.into_iter().map(f32::to_bits).collect(),
        ..QueueCreateInfo::default()
    }
}

fn create_info(queues: Vec<QueueCreateInfo>) -> DeviceCreateInfo {
    DeviceCreateInfo { queue_create_infos: queues, ..DeviceCreateInfo::default() }
}

fn make_device(ci: DeviceCreateInfo) -> (Arc<Device>, Vec<DeviceQueueInfo>) {
    let pd = physical_device();
    let request = Device::new(&pd, ci).unwrap();
    Device::from_handle(pd, ash::vk::Device::from_raw(0x1234), request.create_info)
}

#[test]
fn extensions_into_iter() {
    let extensions = DeviceExtensions { khr_swapchain: true, ..DeviceExtensions::empty() };
    for (name, enabled) in extensions.into_iter() {
        if name == "VK_KHR_swapchain" {
            assert!(enabled);
        } else {
            assert!(!enabled);
        }
    }
}

#[test]
fn features_into_iter() {
    let features = Features { tessellation_shader: true, ..Features::empty() };
    for (name, enabled) in features.into_iter() {
        if name == "tessellationShader" {
            assert!(enabled);
        } else {
            assert!(!enabled);
        }
    }
}

#[test]
fn one_ref() {
    let (mut device, _) = make_device(create_info(vec![queue_info(0, vec![0.5])]));
    assert!(Arc::get_mut(&mut device).is_some());
}

#[test]
fn too_many_queues() {
    let pd = physical_device();
    let queue_family_index = 0;
    let queue_count = pd.queue_family_properties[queue_family_index as usize].queue_count;
    let queues = (0..queue_count + 1).map(|_| 0.5).collect();
    let result = Device::new(&pd, create_info(vec![queue_info(queue_family_index, queues)]));
    if result.is_ok() {
        panic!()
    }
}

#[test]
fn unsupported_features() {
    let pd = physical_device();
    let features = Features::all();
    if pd.supported_features.contains(&features) {
        return;
    }
    let result = Device::new(
        &pd,
        DeviceCreateInfo {
            queue_create_infos: vec![queue_info(0, vec![0.5])],
            enabled_features: features,
            ..DeviceCreateInfo::default()
        },
    );
    if result.is_ok() {
        panic!()
    }
}

#[test]
fn priority_out_of_range() {
    let pd = physical_device();
    if Device::new(&pd, create_info(vec![queue_info(0, vec![1.4])])).is_ok() {
        panic!();
    }
    if Device::new(&pd, create_info(vec![queue_info(0, vec![-0.2])])).is_ok() {
        panic!();
    }
}

#[test]
fn empty_extensions() {
    let d: Vec<&'static str> = DeviceExtensions::empty().names();
    assert!(d.is_empty());
}

#[test]
fn priority_edges() {
    let pd = physical_device();
    for p in [0.0f32, -0.0, 1.0, 0.25] {
        assert!(Device::validate_new(&pd, &create_info(vec![queue_info(0, vec![p])])).is_ok());
    }
    for (p, index) in [(f32::NAN, 1usize), (1.0000001, 1), (-1e-30, 1), (f32::INFINITY, 1)] {
        assert_eq!(
            Device::validate_new(&pd, &create_info(vec![queue_info(0, vec![0.5, p])])),
            Err(ValidationError::QueueCreateInfo {
                index: 0,
                error: QueueCreateInfoError::PriorityOutOfRange { index },
            })
        );
    }
}

#[test]
fn queue_create_info_errors() {
    let pd = physical_device();
    assert_eq!(
        Device::validate_new(&pd, &create_info(vec![])),
        Err(ValidationError::QueueCreateInfosEmpty)
    );
    assert_eq!(
        Device::validate_new(&pd, &create_info(vec![queue_info(0, vec![0.5]), queue_info(2, vec![0.5])])),
        Err(ValidationError::QueueCreateInfo { index: 1, error: QueueCreateInfoError::QueueFamilyIndexOutOfRange })
    );
    assert_eq!(
        Device::validate_new(&pd, &create_info(vec![queue_info(1, vec![])])),
        Err(ValidationError::QueueCreateInfo { index: 0, error: QueueCreateInfoError::QueuesEmpty })
    );
    assert_eq!(
        Device::validate_new(&pd, &create_info(vec![queue_info(1, vec![0.5, 0.5])])),
        Err(ValidationError::QueueCreateInfo { index: 0, error: QueueCreateInfoError::TooManyQueues })
    );
    assert_eq!(
        Device::validate_new(&pd, &create_info(vec![queue_info(1, vec![0.5]), queue_info(0, vec![0.5]), queue_info(1, vec![1.0])])),
        Err(ValidationError::QueueFamilyIndexRepeated { index: 0 })
    );
    let old_pd = physical_device_with(1, version(1, 0), instance_with(version(1, 0), vec![]));
    let protected = QueueCreateInfo { flags: QueueCreateFlags { protected: true }, ..QueueCreateInfo::default() };
    assert_eq!(
        Device::validate_new(&old_pd, &create_info(vec![protected.clone()])),
        Err(ValidationError::QueueCreateInfo { index: 0, error: QueueCreateInfoError::ProtectedRequiresApiVersion })
    );
    assert!(Device::validate_new(&pd, &create_info(vec![protected])).is_ok());
}

#[test]
fn extension_errors() {
    let pd = physical_device();
    let ci = DeviceCreateInfo {
        enabled_extensions: DeviceExtensions { khr_portability_subset: true, ..DeviceExtensions::empty() },
        ..create_info(vec![queue_info(0, vec![0.5])])
    };
    assert_eq!(
        Device::validate_new(&pd, &ci),
        Err(ValidationError::EnabledExtensions(ExtensionRestrictionError::NotSupported {
            extension: DeviceExtension::KhrPortabilitySubset,
        }))
    );
    let ci = DeviceCreateInfo {
        enabled_extensions: DeviceExtensions { khr_swapchain: true, ..DeviceExtensions::empty() },
        ..create_info(vec![queue_info(0, vec![0.5])])
    };
    match Device::validate_new(&pd, &ci) {
        Err(ValidationError::EnabledExtensions(ExtensionRestrictionError::RequirementNotMet { extension, requires_one_of })) => {
            assert_eq!(extension, DeviceExtension::KhrSwapchain);
            assert_eq!(requires_one_of.instance_extension, Some(vulkano_device::extensions::InstanceExtension::KhrSurface));
        }
        other => panic!("{:?}", other),
    }
}

#[test]
fn feature_errors() {
    let pd = physical_device();
    let with = |f: Features| DeviceCreateInfo { enabled_features: f, ..create_info(vec![queue_info(0, vec![0.5])]) };
    assert_eq!(
        Device::validate_new(&pd, &with(Features { descriptor_buffer: true, ..Features::empty() })),
        Err(ValidationError::FeatureNotSupported(Feature::DescriptorBuffer))
    );
    assert_eq!(
        Device::validate_new(&pd, &with(Features { shading_rate_image: true, attachment_fragment_shading_rate: true, ..Features::empty() })),
        Err(ValidationError::ShadingRateImageWith(Feature::AttachmentFragmentShadingRate))
    );
    assert_eq!(
        Device::validate_new(&pd, &with(Features { fragment_density_map: true, pipeline_fragment_shading_rate: true, ..Features::empty() })),
        Err(ValidationError::FragmentDensityMapWith(Feature::PipelineFragmentShadingRate))
    );
    assert_eq!(
        Device::validate_new(&pd, &with(Features { sparse_image_float32_atomic_add: true, ..Features::empty() })),
        Err(ValidationError::SparseAtomicsWithoutShaderAtomics(Feature::SparseImageFloat32AtomicAdd))
    );
    assert!(Device::validate_new(&pd, &with(Features { sparse_image_float32_atomic_add: true, shader_image_float32_atomic_add: true, ..Features::empty() })).is_ok());
}

#[test]
fn buffer_device_address_errors() {
    let with = |e: DeviceExtensions, f: Features| DeviceCreateInfo {
        enabled_extensions: e,
        enabled_features: f,
        ..create_info(vec![queue_info(0, vec![0.5])])
    };
    let pd = physical_device();
    assert_eq!(
        Device::validate_new(&pd, &with(DeviceExtensions { ext_buffer_device_address: true, khr_buffer_device_address: true, ..DeviceExtensions::empty() }, Features::empty())),
        Err(ValidationError::KhrAndExtBufferDeviceAddress)
    );
    assert_eq!(
        Device::validate_new(&pd, &with(DeviceExtensions { ext_buffer_device_address: true, ..DeviceExtensions::empty() }, Features { buffer_device_address: true, ..Features::empty() })),
        Err(ValidationError::BufferDeviceAddressFeatureAndExt)
    );
    let pd11 = physical_device_with(1, version(1, 1), instance_with(version(1, 1), vec![]));
    assert_eq!(
        Device::validate_new(&pd11, &with(DeviceExtensions { ext_buffer_device_address: true, khr_acceleration_structure: true, khr_deferred_host_operations: true, ..DeviceExtensions::empty() }, Features::empty())),
        Err(ValidationError::KhrBufferDeviceAddressDependencyAndExt)
    );
}

#[test]
fn descriptor_buffer_and_amd_fragment_mask() {
    let mut pd = (*physical_device()).clone();
    pd.supported_features.descriptor_buffer = true;
    let ci = DeviceCreateInfo {
        enabled_extensions: DeviceExtensions { amd_shader_fragment_mask: true, ..DeviceExtensions::empty() },
        enabled_features: Features { descriptor_buffer: true, ..Features::empty() },
        ..create_info(vec![queue_info(0, vec![0.5])])
    };
    assert_eq!(Device::validate_new(&pd, &ci), Err(ValidationError::DescriptorBufferAndAmdShaderFragmentMask));
}

#[test]
fn device_group_errors() {
    let instance = instance_with(version(1, 3), vec![vec![1, 2], vec![3]]);
    let pd1 = physical_device_with(1, version(1, 3), instance.clone());
    let pd2 = physical_device_with(2, version(1, 3), instance.clone());
    let pd3 = physical_device_with(3, version(1, 3), instance.clone());
    let with = |list: Vec<Arc<PhysicalDevice>>| DeviceCreateInfo {
        physical_devices: PhysicalDeviceList::from_vec(list),
        ..create_info(vec![queue_info(0, vec![0.5])])
    };
    assert!(Device::validate_new(&pd1, &with(vec![pd2.clone(), pd1.clone()])).is_ok());
    assert_eq!(
        Device::validate_new(&pd1, &with(vec![pd1.clone(), pd2.clone(), pd1.clone()])),
        Err(ValidationError::PhysicalDeviceRepeated { index: 2 })
    );
    assert_eq!(
        Device::validate_new(&pd1, &with(vec![pd1.clone(), pd3.clone()])),
        Err(ValidationError::PhysicalDevicesNotInOneGroup)
    );
    assert_eq!(
        Device::validate_new(&pd1, &with(vec![pd2.clone()])),
        Err(ValidationError::PhysicalDeviceNotInGroupList)
    );
    let old_instance = instance_with(version(1, 0), vec![vec![1, 2]]);
    let old1 = physical_device_with(1, version(1, 3), old_instance.clone());
    let old2 = physical_device_with(2, version(1, 3), old_instance);
    assert_eq!(
        Device::validate_new(&old1, &with(vec![old1.clone(), old2])),
        Err(ValidationError::DeviceGroupRequiresApiVersionOrExtension)
    );
}

#[test]
fn private_data_needs_version_or_extension() {
    let pd12 = physical_device_with(1, version(1, 2), instance_with(version(1, 2), vec![]));
    let ci = DeviceCreateInfo { private_data_slot_request_count: 4, ..create_info(vec![queue_info(0, vec![0.5])]) };
    assert_eq!(Device::validate_new(&pd12, &ci), Err(ValidationError::PrivateDataRequiresApiVersionOrExtension));
    let ci = DeviceCreateInfo {
        private_data_slot_request_count: 4,
        enabled_extensions: DeviceExtensions { ext_private_data: true, ..DeviceExtensions::empty() },
        ..create_info(vec![queue_info(0, vec![0.5])])
    };
    assert!(Device::validate_new(&pd12, &ci).is_ok());
}

#[test]
fn new_enables_dependencies_and_needed_features() {
    let pd = physical_device_with(1, version(1, 1), instance_with(version(1, 1), vec![vec![1, 2]]));
    let ci = DeviceCreateInfo {
        enabled_extensions: DeviceExtensions {
            khr_acceleration_structure: true,
            khr_shader_draw_parameters: true,
            ..DeviceExtensions::empty()
        },
        enabled_features: Features { variable_pointers: true, robust_buffer_access2: true, ..Features::empty() },
        private_data_slot_request_count: 2,
        ..create_info(vec![queue_info(1, vec![0.5]), queue_info(0, vec![0.5, 1.0])])
    };
    // khr_acceleration_structure needs khr_deferred_host_operations, which is not requested.
    let ci = DeviceCreateInfo {
        enabled_extensions: DeviceExtensions { khr_deferred_host_operations: true, ext_private_data: true, ..ci.enabled_extensions },
        ..ci
    };
    let request = Device::new(&pd, ci).unwrap();
    let ext = request.create_info.enabled_extensions;
    assert!(ext.khr_acceleration_structure && ext.khr_deferred_host_operations);
    assert!(ext.ext_descriptor_indexing && ext.khr_buffer_device_address);
    assert!(!ext.khr_maintenance3 && !ext.khr_device_group);
    let feat = request.create_info.enabled_features;
    assert!(feat.shader_draw_parameters);
    assert!(feat.variable_pointers_storage_buffer && feat.robust_buffer_access);
    assert!(!feat.descriptor_indexing);
    assert_eq!(request.queue_counts, vec![1, 2]);
    assert_eq!(
        request.enabled_extension_names,
        vec![
            "VK_KHR_acceleration_structure",
            "VK_KHR_buffer_device_address",
            "VK_EXT_descriptor_indexing",
            "VK_KHR_deferred_host_operations",
            "VK_KHR_shader_draw_parameters",
            "VK_EXT_private_data",
        ]
    );
    assert_eq!(request.device_group_physical_devices, None);
    assert_eq!(request.private_data_slot_request_count, Some(2));
    assert!(request.features_in_p_next);
}

#[test]
fn new_at_1_0_pulls_in_more_and_enables_portability() {
    let mut pd = (*physical_device_with(1, version(1, 0), instance_with(version(1, 0), vec![]))).clone();
    pd.supported_extensions.khr_portability_subset = true;
    let mut instance = (*pd.instance).clone();
    instance.enabled_extensions.khr_get_physical_device_properties2 = true;
    pd.instance = Arc::new(instance);
    let ci = DeviceCreateInfo {
        enabled_extensions: DeviceExtensions { ext_descriptor_indexing: true, khr_external_memory_fd: true, ..DeviceExtensions::empty() },
        ..create_info(vec![queue_info(0, vec![0.5])])
    };
    let request = Device::new(&pd, ci).unwrap();
    let ext = request.create_info.enabled_extensions;
    assert!(ext.khr_maintenance3 && ext.khr_portability_subset);
    assert!(ext.khr_external_memory);
    assert!(!request.create_info.enabled_features.descriptor_indexing);
    assert!(request.features_in_p_next);
}

#[test]
fn from_handle_queues_and_families() {
    let (device, queues) = make_device(create_info(vec![queue_info(1, vec![0.5]), queue_info(0, vec![0.5, 1.0, 0.0])]));
    assert_eq!(device.active_queue_family_indices(), &[0, 1]);
    let got: Vec<(u32, u32)> = queues.iter().map(|q| (q.queue_family_index, q.queue_index)).collect();
    assert_eq!(got, vec![(1, 0), (0, 0), (0, 1), (0, 2)]);
    assert_eq!(device.physical_devices().len(), 1);
    assert_eq!(device.physical_devices()[0].handle, device.physical_device().handle);
    assert_eq!(device.device_mask(), 0b1);
    assert_eq!(device.api_version(), version(1, 3));
    assert_eq!(device.handle().as_raw(), 0x1234);
    assert_eq!(device.instance().api_version, version(1, 3));
    assert_eq!(device.allocation_count(), 0);
}

#[test]
fn device_group_mask_and_request() {
    let instance = instance_with(version(1, 3), vec![vec![1, 2]]);
    let pd1 = physical_device_with(1, version(1, 3), instance.clone());
    let pd2 = physical_device_with(2, version(1, 3), instance);
    let ci = DeviceCreateInfo {
        physical_devices: PhysicalDeviceList::from_vec(vec![pd2.clone(), pd1.clone()]),
        ..create_info(vec![queue_info(0, vec![0.5])])
    };
    let request = Device::new(&pd1, ci).unwrap();
    assert_eq!(request.device_group_physical_devices, Some(vec![2, 1]));
    let (device, _) = Device::from_handle(pd1, ash::vk::Device::from_raw(9), request.create_info);
    assert_eq!(device.device_mask(), 0b11);
    let handles: Vec<u64> = device.physical_devices().iter().map(|p| p.handle).collect();
    assert_eq!(handles, vec![2, 1]);
}

#[test]
fn module_example_creates_device() {
    let pd = physical_device();
    let request = Device::new(
        &pd,
        DeviceCreateInfo {
            queue_create_infos: vec![QueueCreateInfo { queue_family_index: 0, ..QueueCreateInfo::default() }],
            enabled_extensions: DeviceExtensions::empty(),
            enabled_features: Features::empty(),
            ..DeviceCreateInfo::default()
        },
    )
    .unwrap();
    assert_eq!(request.queue_counts, vec![1]);
    assert_eq!(request.create_info.queue_create_infos[0].queues, vec![0.5f32.to_bits()]);
    let (device, queues) = Device::from_handle(pd, ash::vk::Device::from_raw(1), request.create_info);
    assert_eq!(queues.len(), 1);
    assert_eq!(device.active_queue_family_indices(), &[0]);
}

#[test]
fn device_mask_of_a_full_group() {
    let groups = vec![(1..=32).collect::<Vec<u64>>()];
    let instance = instance_with(version(1, 3), groups);
    let pds: Vec<Arc<PhysicalDevice>> =
        (1..=32).map(|h| physical_device_with(h, version(1, 3), instance.clone())).collect();
    let ci = DeviceCreateInfo {
        physical_devices: PhysicalDeviceList::from_vec(pds.clone()),
        ..create_info(vec![queue_info(0, vec![0.5])])
    };
    let request = Device::new(&pds[0], ci).unwrap();
    let (device, _) = Device::from_handle(pds[0].clone(), ash::vk::Device::from_raw(3), request.create_info);
    assert_eq!(device.device_mask(), u32::MAX);
    assert!(device.physical_devices().iter().any(|p| **p == **device.physical_device()));
}

#[test]
fn physical_device_equality_and_repeats() {
    let instance = instance_with(version(1, 3), vec![vec![1, 2]]);
    let pd1 = physical_device_with(1, version(1, 3), instance.clone());
    let again = physical_device_with(1, version(1, 3), instance);
    assert!(*pd1 == *again);
    let other_instance = Arc::new(Instance { handle: 200, ..(*pd1.instance).clone() });
    let elsewhere = physical_device_with(1, version(1, 3), other_instance);
    assert!(*pd1 != *elsewhere);
    let ci = DeviceCreateInfo {
        physical_devices: PhysicalDeviceList::from_vec(vec![pd1.clone(), again]),
        ..create_info(vec![queue_info(0, vec![0.5])])
    };
    assert_eq!(Device::validate_new(&pd1, &ci), Err(ValidationError::PhysicalDeviceRepeated { index: 1 }));
    // A physical device of another instance with the same handle is not in the list.
    let ci = DeviceCreateInfo {
        physical_devices: PhysicalDeviceList::from_vec(vec![pd1.clone()]),
        ..create_info(vec![queue_info(0, vec![0.5])])
    };
    assert_eq!(Device::validate_new(&elsewhere, &ci), Err(ValidationError::PhysicalDeviceNotInGroupList));
}
