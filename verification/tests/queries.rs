use ash::vk::Handle;
use std::sync::Arc;
use vulkano_device::create_info::{DeviceCreateInfo, QueueCreateInfo};
use vulkano_device::device::Device;
use vulkano_device::error::ValidationError;
use vulkano_device::extensions::{DeviceExtension, DeviceExtensions, InstanceExtensions};
use vulkano_device::features::{Feature, Features};
use vulkano_device::lists::{PhysicalDeviceList, QueueFamilyIndexList};
use vulkano_device::memory::DeviceLayout;
use vulkano_device::physical::{
    DrmFormatModifierProperties, Format, FormatProperties, Instance, PhysicalDevice, Properties,
    QueueFamilyProperties,
};
use vulkano_device::queries::{
    AccelerationStructureBuildGeometryInfo, AccelerationStructureBuildSizesQuery,
    AccelerationStructureBuildType,
    AccelerationStructureGeometries, BufferCreateInfo, DescriptorSetLayoutBinding,
    DescriptorSetLayoutBindingQuery, DescriptorSetLayoutCreateInfo, DescriptorSetLayoutSupport,
    DescriptorSetLayoutSupportQuery, ExternalMemoryHandleType, ImageAspect, ImageCreateInfo,
    ImageLayout, ImageTiling, ImageType, Sharing, SharingQuery,
};
use vulkano_device::version::Version;

const MULTI_PLANE_FORMAT: Format = Format { code: 1000156003, plane_count: 3 };
const DISJOINT: u32 = 0x200;

fn version(major: u32, minor: u32) -> Version {
    Version { major, minor, patch: 0 }
}

fn physical_device(api: Version, supported_features: Features) -> Arc<PhysicalDevice> {
    Arc::new(PhysicalDevice {
        handle: 1,
        instance: Arc::new(Instance {
            handle: 100,
            api_version: api,
            enabled_extensions: InstanceExtensions::empty(),
            physical_device_groups: vec![vec![1]],
        }),
        api_version: api,
        supported_extensions: DeviceExtensions {
            khr_acceleration_structure: true,
            khr_deferred_host_operations: true,
            ext_descriptor_indexing: true,
            khr_buffer_device_address: true,
            khr_maintenance3: true,
            khr_maintenance4: true,
            khr_external_memory_fd: true,
            khr_external_memory: true,
            khr_shader_draw_parameters: true,
            ..DeviceExtensions::empty()
        },
        supported_features,
        queue_family_properties: vec![QueueFamilyProperties { queue_count: 2 }],
        properties: Properties { max_primitive_count: Some(100), max_instance_count: Some(8) },
        format_properties: vec![FormatProperties {
            format: MULTI_PLANE_FORMAT,
            drm_format_modifier_properties: vec![
                DrmFormatModifierProperties { drm_format_modifier: 7, drm_format_modifier_plane_count: 2 },
                DrmFormatModifierProperties { drm_format_modifier: 7, drm_format_modifier_plane_count: 4 },
            ],
        }],
    })
}

fn device(api: Version, extensions: DeviceExtensions, features: Features) -> Arc<Device> {
    let pd = physical_device(api, Features::all());
    let ci = DeviceCreateInfo {
        queue_create_infos: vec![QueueCreateInfo::default()],
        enabled_extensions: extensions,
        enabled_features: features,
        ..DeviceCreateInfo::default()
    };
    Device::from_handle(pd, ash::vk::Device::from_raw(5), ci).0
}

fn accel_device() -> Arc<Device> {
    device(
        version(1, 3),
        DeviceExtensions { khr_acceleration_structure: true, ..DeviceExtensions::empty() },
        Features { acceleration_structure: true, ..Features::empty() },
    )
}

fn build_info(geometries: AccelerationStructureGeometries) -> AccelerationStructureBuildGeometryInfo {
    AccelerationStructureBuildGeometryInfo { geometries }
}

fn image(flags: u32, tiling: ImageTiling, modifiers: Vec<u64>) -> ImageCreateInfo {
    ImageCreateInfo {
        flags,
        image_type: ImageType::Dim2d,
        format: MULTI_PLANE_FORMAT,
        view_formats: vec![],
        extent: [64, 32, 1],
        array_layers: 2,
        mip_levels: 3,
        samples: 1,
        tiling,
        usage: 0x4,
        stencil_usage: None,
        sharing: Sharing::Exclusive,
        initial_layout: ImageLayout::Undefined,
        drm_format_modifiers: modifiers,
        external_memory_handle_types: 0,
    }
}

#[test]
fn build_sizes_need_extension_and_feature() {
    let info = build_info(AccelerationStructureGeometries::Triangles(1));
    let plain = device(version(1, 3), DeviceExtensions::empty(), Features::empty());
    assert_eq!(
        plain.validate_acceleration_structure_build_sizes(AccelerationStructureBuildType::Device, &info, &[1]),
        Err(ValidationError::RequiresDeviceExtension(DeviceExtension::KhrAccelerationStructure))
    );
    let no_feature = device(
        version(1, 3),
        DeviceExtensions { khr_acceleration_structure: true, ..DeviceExtensions::empty() },
        Features::empty(),
    );
    assert_eq!(
        no_feature.validate_acceleration_structure_build_sizes(AccelerationStructureBuildType::Device, &info, &[1]),
        Err(ValidationError::RequiresFeature(Feature::AccelerationStructure))
    );
    assert_eq!(
        accel_device().validate_acceleration_structure_build_sizes(AccelerationStructureBuildType::Host, &info, &[100]),
        Ok(())
    );
}

#[test]
fn build_sizes_limits_and_lengths() {
    let d = accel_device();
    let t = AccelerationStructureBuildType::HostOrDevice;
    let triangles = build_info(AccelerationStructureGeometries::Triangles(3));
    assert_eq!(
        d.validate_acceleration_structure_build_sizes(t, &triangles, &[1, 101, 500]),
        Err(ValidationError::PrimitiveCountExceedsLimit { index: 1 })
    );
    assert_eq!(
        d.validate_acceleration_structure_build_sizes(t, &triangles, &[1, 2]),
        Err(ValidationError::PrimitiveCountsLengthMismatch)
    );
    let aabbs = build_info(AccelerationStructureGeometries::Aabbs(2));
    assert_eq!(d.validate_acceleration_structure_build_sizes(t, &aabbs, &[100, 0]), Ok(()));
    assert_eq!(
        d.validate_acceleration_structure_build_sizes(t, &aabbs, &[0, 0, 101]),
        Err(ValidationError::PrimitiveCountExceedsLimit { index: 2 })
    );
    let instances = build_info(AccelerationStructureGeometries::Instances);
    assert_eq!(d.validate_acceleration_structure_build_sizes(t, &instances, &[8]), Ok(()));
    assert_eq!(
        d.validate_acceleration_structure_build_sizes(t, &instances, &[9]),
        Err(ValidationError::InstanceCountExceedsLimit { index: 0 })
    );
    assert_eq!(
        d.validate_acceleration_structure_build_sizes(t, &instances, &[1, 1]),
        Err(ValidationError::PrimitiveCountsLengthMismatch)
    );
}

#[test]
fn compatibility_check_needs_extension_and_feature() {
    let plain = device(version(1, 3), DeviceExtensions::empty(), Features::empty());
    assert_eq!(
        plain.validate_acceleration_structure_is_compatible(),
        Err(ValidationError::RequiresDeviceExtension(DeviceExtension::KhrAccelerationStructure))
    );
    let no_feature = device(
        version(1, 3),
        DeviceExtensions { khr_acceleration_structure: true, ..DeviceExtensions::empty() },
        Features::empty(),
    );
    assert_eq!(
        no_feature.validate_acceleration_structure_is_compatible(),
        Err(ValidationError::RequiresFeature(Feature::AccelerationStructure))
    );
    assert_eq!(accel_device().validate_acceleration_structure_is_compatible(), Ok(()));
}

#[test]
fn descriptor_set_layout_support_queries() {
    let d10 = device(version(1, 0), DeviceExtensions::empty(), Features::empty());
    let err = ValidationError::RequiresApiVersionOrDeviceExtension {
        api_version: version(1, 1),
        extension: DeviceExtension::KhrMaintenance3,
    };
    let ci = layout_info();
    assert_eq!(d10.validate_descriptor_set_layout_support(&ci), Err(err));
    assert_eq!(d10.descriptor_set_layout_support(&ci), Err(err));

    let expected_bindings = vec![
        DescriptorSetLayoutBindingQuery {
            binding: 0,
            descriptor_type: 1,
            descriptor_count: 2,
            stage_flags: 0x10,
            immutable_samplers: vec![11, 12],
        },
        DescriptorSetLayoutBindingQuery {
            binding: 3,
            descriptor_type: 7,
            descriptor_count: 100,
            stage_flags: 0x20,
            immutable_samplers: vec![],
        },
    ];
    let d10m = device(
        version(1, 0),
        DeviceExtensions { khr_maintenance3: true, ext_descriptor_indexing: true, ..DeviceExtensions::empty() },
        Features::empty(),
    );
    assert_eq!(
        d10m.descriptor_set_layout_support(&ci),
        Ok(DescriptorSetLayoutSupportQuery {
            flags: 2,
            bindings: expected_bindings.clone(),
            binding_flags: Some(vec![0, 8]),
            use_core_1_1: false,
        })
    );
    let d11 = device(version(1, 1), DeviceExtensions::empty(), Features::empty());
    assert_eq!(
        d11.descriptor_set_layout_support(&ci),
        Ok(DescriptorSetLayoutSupportQuery {
            flags: 2,
            bindings: expected_bindings.clone(),
            binding_flags: None,
            use_core_1_1: true,
        })
    );
    let d12 = device(version(1, 2), DeviceExtensions::empty(), Features::empty());
    let q = d12.descriptor_set_layout_support_unchecked(&ci);
    assert_eq!(q.binding_flags, Some(vec![0, 8]));
    assert!(q.use_core_1_1);
    assert_eq!(q.bindings, expected_bindings);
}

fn layout_info() -> DescriptorSetLayoutCreateInfo {
    DescriptorSetLayoutCreateInfo {
        flags: 2,
        bindings: vec![
            (0, DescriptorSetLayoutBinding {
                binding_flags: 0,
                descriptor_type: 1,
                descriptor_count: 2,
                stages: 0x10,
                immutable_samplers: vec![11, 12],
            }),
            (3, DescriptorSetLayoutBinding {
                binding_flags: 8,
                descriptor_type: 7,
                descriptor_count: 100,
                stages: 0x20,
                immutable_samplers: vec![],
            }),
        ],
    }
}

#[test]
fn descriptor_set_layout_support_answers() {
    let with_flags = DescriptorSetLayoutSupportQuery {
        flags: 0,
        bindings: vec![],
        binding_flags: Some(vec![]),
        use_core_1_1: true,
    };
    let without_flags = DescriptorSetLayoutSupportQuery { binding_flags: None, ..with_flags.clone() };
    assert_eq!(Device::descriptor_set_layout_support_from_vk(&with_flags, 0, 9), None);
    assert_eq!(
        Device::descriptor_set_layout_support_from_vk(&with_flags, 1, 9),
        Some(DescriptorSetLayoutSupport { max_variable_descriptor_count: 9 })
    );
    assert_eq!(
        Device::descriptor_set_layout_support_from_vk(&without_flags, 1, 9),
        Some(DescriptorSetLayoutSupport { max_variable_descriptor_count: 0 })
    );
}

#[test]
fn buffer_memory_requirement_queries() {
    let d12 = device(version(1, 2), DeviceExtensions::empty(), Features::empty());
    let exclusive = BufferCreateInfo {
        flags: 0,
        size: 4096,
        usage: 0x20,
        sharing: Sharing::Exclusive,
        external_memory_handle_types: 0,
    };
    let err = ValidationError::RequiresApiVersionOrDeviceExtension {
        api_version: version(1, 3),
        extension: DeviceExtension::KhrMaintenance4,
    };
    assert_eq!(d12.validate_buffer_memory_requirements(&exclusive), Err(err));
    assert_eq!(d12.buffer_memory_requirements(&exclusive).map(|_| ()), Err(err));

    let d12m = device(
        version(1, 2),
        DeviceExtensions { khr_maintenance4: true, ..DeviceExtensions::empty() },
        Features::empty(),
    );
    let concurrent = BufferCreateInfo {
        flags: 1,
        size: 300,
        usage: 0x82,
        sharing: Sharing::Concurrent(vec![5, 0, 2]),
        external_memory_handle_types: 0x10,
    };
    let query = d12m.buffer_memory_requirements(&concurrent).unwrap();
    assert_eq!((query.flags, query.size, query.usage), (1, 300, 0x82));
    assert_eq!(query.sharing, SharingQuery { concurrent: true, queue_family_indices: vec![5, 0, 2] });
    assert_eq!(query.external_memory_handle_types, Some(0x10));
    assert!(!query.use_core_1_3);

    let d13 = device(version(1, 3), DeviceExtensions::empty(), Features::empty());
    let query = d13.buffer_memory_requirements(&exclusive).unwrap();
    assert_eq!((query.flags, query.size, query.usage), (0, 4096, 0x20));
    assert_eq!(query.sharing, SharingQuery { concurrent: false, queue_family_indices: vec![] });
    assert_eq!(query.external_memory_handle_types, None);
    assert!(query.use_core_1_3);
}

#[test]
fn image_memory_requirement_errors() {
    let d = device(version(1, 3), DeviceExtensions::empty(), Features::empty());
    let optimal_disjoint = image(DISJOINT, ImageTiling::Optimal, vec![]);
    assert_eq!(
        d.validate_image_memory_requirements(&optimal_disjoint, None),
        Err(ValidationError::DisjointWithoutPlane)
    );
    assert_eq!(
        d.validate_image_memory_requirements(&optimal_disjoint, Some(3)),
        Err(ValidationError::PlaneNotLessThanFormatPlanes)
    );
    assert_eq!(d.validate_image_memory_requirements(&optimal_disjoint, Some(2)), Ok(()));
    let not_disjoint = image(0, ImageTiling::Linear, vec![]);
    assert_eq!(
        d.validate_image_memory_requirements(&not_disjoint, Some(0)),
        Err(ValidationError::PlaneWithoutDisjoint)
    );
    assert_eq!(d.validate_image_memory_requirements(&not_disjoint, None), Ok(()));

    // The first entry listed for modifier 7 has two planes.
    let drm_disjoint = image(DISJOINT, ImageTiling::DrmFormatModifier, vec![7]);
    assert_eq!(d.validate_image_memory_requirements(&drm_disjoint, Some(1)), Ok(()));
    assert_eq!(
        d.validate_image_memory_requirements(&drm_disjoint, Some(2)),
        Err(ValidationError::PlaneNotLessThanModifierPlanes)
    );
    // With several modifiers the plane is not checked against them.
    let drm_two = image(DISJOINT, ImageTiling::DrmFormatModifier, vec![7, 8]);
    assert_eq!(d.validate_image_memory_requirements(&drm_two, Some(3)), Ok(()));
    // No memory plane beyond the fourth can be named.
    assert_eq!(
        d.validate_image_memory_requirements(&drm_two, Some(4)),
        Err(ValidationError::PlaneWithoutAspect)
    );
    assert_eq!(
        d.image_memory_requirements(&drm_two, Some(4)),
        Err(ValidationError::PlaneWithoutAspect)
    );
    let mut many_planes = image(DISJOINT, ImageTiling::Optimal, vec![]);
    many_planes.format = Format { code: 1, plane_count: 5 };
    assert_eq!(
        d.validate_image_memory_requirements(&many_planes, Some(3)),
        Err(ValidationError::PlaneWithoutAspect)
    );

    let d12 = device(version(1, 2), DeviceExtensions::empty(), Features::empty());
    assert_eq!(
        d12.validate_image_memory_requirements(&not_disjoint, None),
        Err(ValidationError::RequiresApiVersionOrDeviceExtension {
            api_version: version(1, 3),
            extension: DeviceExtension::KhrMaintenance4,
        })
    );
}

#[test]
fn image_memory_requirement_queries() {
    let d = device(version(1, 3), DeviceExtensions::empty(), Features::empty());
    let q = d.image_memory_requirements(&image(0, ImageTiling::Optimal, vec![]), None).unwrap();
    assert_eq!(q.plane_aspect, ImageAspect::Empty);
    assert!(q.use_core_1_3 && q.drm_format_modifiers.is_none() && q.view_formats.is_none());
    assert!(q.stencil_usage.is_none() && q.external_memory_handle_types.is_none());
    assert_eq!(q.image_type, ImageType::Dim2d);
    assert_eq!(q.format, MULTI_PLANE_FORMAT);
    assert_eq!(q.extent, [64, 32, 1]);
    assert_eq!((q.mip_levels, q.array_layers, q.samples, q.usage, q.flags), (3, 2, 1, 0x4, 0));
    assert_eq!(q.tiling, ImageTiling::Optimal);
    assert_eq!(q.initial_layout, ImageLayout::Undefined);

    let q = d.image_memory_requirements(&image(DISJOINT, ImageTiling::Linear, vec![]), Some(1)).unwrap();
    assert_eq!(q.plane_aspect, ImageAspect::Plane(1));

    let q = d.image_memory_requirements(&image(0, ImageTiling::DrmFormatModifier, vec![7, 9]), None).unwrap();
    assert_eq!(q.plane_aspect, ImageAspect::MemoryPlane(0));
    assert_eq!(q.drm_format_modifiers, Some(vec![7, 9]));

    let q = d.image_memory_requirements(&image(DISJOINT, ImageTiling::DrmFormatModifier, vec![7]), Some(1)).unwrap();
    assert_eq!(q.plane_aspect, ImageAspect::MemoryPlane(1));

    let mut ci = image(0, ImageTiling::Optimal, vec![]);
    ci.view_formats = vec![MULTI_PLANE_FORMAT];
    ci.stencil_usage = Some(4);
    ci.external_memory_handle_types = 1;
    ci.sharing = Sharing::Concurrent(vec![0, 1]);
    let q = d.image_memory_requirements(&ci, None).unwrap();
    assert_eq!(q.view_formats, Some(vec![MULTI_PLANE_FORMAT.code]));
    assert_eq!(q.stencil_usage, Some(4));
    assert_eq!(q.external_memory_handle_types, Some(1));
    assert_eq!(q.sharing, SharingQuery { concurrent: true, queue_family_indices: vec![0, 1] });

    let d12m = device(
        version(1, 2),
        DeviceExtensions { khr_maintenance4: true, ..DeviceExtensions::empty() },
        Features::empty(),
    );
    let q = d12m.image_memory_requirements_unchecked(&image(0, ImageTiling::Optimal, vec![]), None);
    assert!(!q.use_core_1_3);
}

#[test]
fn memory_requirements_and_layouts() {
    let r = Device::memory_requirements_from_vk(256, 64, 0b101, 1, 0);
    assert_eq!(r.layout.size(), 256);
    assert_eq!(r.layout.alignment(), 64);
    assert_eq!(r.memory_type_bits, 0b101);
    assert!(r.prefers_dedicated_allocation);
    assert!(!r.requires_dedicated_allocation);

    assert!(DeviceLayout::from_size_alignment(0, 1).is_none());
    assert!(DeviceLayout::from_size_alignment(1, 0).is_none());
    assert!(DeviceLayout::from_size_alignment(1, 3).is_none());
    assert!(DeviceLayout::from_size_alignment(0x7FFF_FFFF_FFFF_FFFF, 1).is_some());
    assert!(DeviceLayout::from_size_alignment(0x7FFF_FFFF_FFFF_FFFF, 2).is_none());
    assert!(DeviceLayout::from_size_alignment(0x7FFF_FFFF_FFFF_FFF0, 16).is_some());
    assert!(DeviceLayout::from_size_alignment(0x7FFF_FFFF_FFFF_FFF1, 16).is_none());
}

#[test]
fn memory_fd_properties_checks() {
    let plain = device(version(1, 3), DeviceExtensions::empty(), Features::empty());
    assert_eq!(
        plain.validate_memory_fd_properties(ExternalMemoryHandleType::DmaBuf),
        Err(ValidationError::RequiresDeviceExtension(DeviceExtension::KhrExternalMemoryFd))
    );
    let fd = device(
        version(1, 3),
        DeviceExtensions { khr_external_memory_fd: true, khr_external_memory: true, ..DeviceExtensions::empty() },
        Features::empty(),
    );
    assert_eq!(
        fd.validate_memory_fd_properties(ExternalMemoryHandleType::OpaqueFd),
        Err(ValidationError::OpaqueFdHandleType)
    );
    assert_eq!(
        fd.validate_memory_fd_properties(ExternalMemoryHandleType::DmaBuf),
        Err(ValidationError::RequiresDeviceExtension(DeviceExtension::ExtExternalMemoryDmaBuf))
    );
    assert_eq!(
        fd.validate_memory_fd_properties(ExternalMemoryHandleType::HostMappedForeignMemory),
        Err(ValidationError::RequiresDeviceExtension(DeviceExtension::ExtExternalMemoryHost))
    );
    assert_eq!(fd.validate_memory_fd_properties(ExternalMemoryHandleType::OpaqueWin32), Ok(()));
    let dma_buf = device(
        version(1, 3),
        DeviceExtensions {
            khr_external_memory_fd: true,
            khr_external_memory: true,
            ext_external_memory_dma_buf: true,
            ..DeviceExtensions::empty()
        },
        Features::empty(),
    );
    assert_eq!(dma_buf.validate_memory_fd_properties(ExternalMemoryHandleType::DmaBuf), Ok(()));
    assert_eq!(
        ExternalMemoryHandleType::ZirconVmo.required_extension(),
        Some(DeviceExtension::FuchsiaExternalMemory)
    );
    assert_eq!(ExternalMemoryHandleType::OpaqueFd.required_extension(), None);
    assert_eq!(Device::memory_fd_properties_from_vk(0b110).memory_type_bits, 0b110);
}

#[test]
fn required_features_must_be_supported() {
    let mut lacking = Features::all();
    lacking.shader_draw_parameters = false;
    lacking.robust_buffer_access = false;
    let pd = physical_device(version(1, 1), lacking);
    let with_extension = DeviceCreateInfo {
        queue_create_infos: vec![QueueCreateInfo::default()],
        enabled_extensions: DeviceExtensions { khr_shader_draw_parameters: true, ..DeviceExtensions::empty() },
        ..DeviceCreateInfo::default()
    };
    assert_eq!(
        Device::check_required_features(&pd, &with_extension),
        Err(Feature::ShaderDrawParameters)
    );
    let with_feature = DeviceCreateInfo {
        queue_create_infos: vec![QueueCreateInfo::default()],
        enabled_features: Features { robust_buffer_access2: true, ..Features::empty() },
        ..DeviceCreateInfo::default()
    };
    assert_eq!(Device::check_required_features(&pd, &with_feature), Err(Feature::RobustBufferAccess));
    let fine = DeviceCreateInfo {
        queue_create_infos: vec![QueueCreateInfo::default()],
        ..DeviceCreateInfo::default()
    };
    assert_eq!(Device::check_required_features(&pd, &fine), Ok(()));
    // At 1.0 the extension asks for no feature.
    let pd10 = physical_device(version(1, 0), lacking);
    assert_eq!(Device::check_required_features(&pd10, &with_extension), Ok(()));
}

#[test]
fn create_info_clone_keeps_physical_devices() {
    let pd = physical_device(version(1, 3), Features::all());
    let ci = DeviceCreateInfo {
        physical_devices: PhysicalDeviceList::from_vec(vec![pd.clone()]),
        private_data_slot_request_count: 3,
        ..DeviceCreateInfo::default()
    };
    let copy = ci.clone();
    assert_eq!(copy.physical_devices.len(), 1);
    assert!(Arc::ptr_eq(&copy.physical_devices.as_slice()[0], &pd));
    assert_eq!(copy.private_data_slot_request_count, 3);
    assert!(PhysicalDeviceList::new().is_empty());
}

#[test]
fn queue_family_index_list_sorted_unique() {
    let list = QueueFamilyIndexList::sorted_unique(vec![3, 1, 3, 0, 1, 7]);
    assert_eq!(list.as_slice(), &[0, 1, 3, 7]);
    let empty = QueueFamilyIndexList::sorted_unique(vec![]);
    assert!(empty.as_slice().is_empty());
}

#[test]
fn versions_and_device_groups() {
    assert!(version(1, 2).at_least(&version(1, 1)));
    assert!(version(1, 1).at_least(&version(1, 1)));
    assert!(!version(1, 0).at_least(&version(1, 1)));
    assert!(version(2, 0).at_least(&version(1, 3)));
    assert!(Version { major: 1, minor: 1, patch: 5 }.at_least(&Version { major: 1, minor: 1, patch: 4 }));
    assert!(!Version { major: 1, minor: 1, patch: 3 }.at_least(&Version { major: 1, minor: 1, patch: 4 }));

    let instance = Instance {
        handle: 100,
        api_version: version(1, 3),
        enabled_extensions: InstanceExtensions::empty(),
        physical_device_groups: vec![vec![1, 2], vec![3]],
    };
    assert!(instance.is_same_device_group(&[2, 1]));
    assert!(instance.is_same_device_group(&[3]));
    assert!(!instance.is_same_device_group(&[1, 3]));
}

#[test]
fn build_sizes_queries() {
    let d = accel_device();
    let t = AccelerationStructureBuildType::Device;
    let q = d
        .acceleration_structure_build_sizes(t, &build_info(AccelerationStructureGeometries::Aabbs(3)), &[4, 5, 6])
        .unwrap();
    assert_eq!(
        q,
        AccelerationStructureBuildSizesQuery {
            build_type: t,
            geometry_count: 3,
            max_primitive_counts: vec![4, 5, 6],
        }
    );
    let q = d
        .acceleration_structure_build_sizes(
            AccelerationStructureBuildType::Host,
            &build_info(AccelerationStructureGeometries::Instances),
            &[8],
        )
        .unwrap();
    assert_eq!(q.geometry_count, 1);
    assert_eq!(q.build_type, AccelerationStructureBuildType::Host);
    assert_eq!(
        d.acceleration_structure_build_sizes(t, &build_info(AccelerationStructureGeometries::Triangles(1)), &[101]),
        Err(ValidationError::PrimitiveCountExceedsLimit { index: 0 })
    );
    assert!(Device::acceleration_structure_is_compatible_from_vk(0));
    assert!(!Device::acceleration_structure_is_compatible_from_vk(1));
}
