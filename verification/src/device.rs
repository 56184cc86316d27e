use vstd::prelude::*;
use std::sync::Arc;
use std::sync::atomic::AtomicU32;
use ash::vk::Device as VkDevice;
use crate::create_info::{DeviceCreateInfo, QueueCreateFlags, QueueCreateInfo, device_create_info_error, handles_of};
use crate::error::ValidationError;
use crate::extensions::{DeviceExtensions, with_dependencies, enabled_names_upto, all_device_extensions};
use crate::features::{Feature, Features, no_features, unsupported_feature, unsupported_feature_none_iff_subset};
use crate::lists::{
    PhysicalDeviceList, QueueFamilyIndexList, physical_device_list, queue_family_index_list,
};
use crate::physical::{Instance, PhysicalDevice, same_physical_device};
use crate::version::{Version, version_ge, version_spec};

verus! {

#[verifier::external_type_specification]
#[verifier::external_body]
pub struct ExDeviceHandle(VkDevice);

/// A queue to get from a newly created device.
#[derive(Clone, Copy, Debug, PartialEq, Eq)]
pub struct DeviceQueueInfo {
    /// The flags the queue was created with.
    pub flags: QueueCreateFlags,
    /// The queue family of the queue.
    pub queue_family_index: u32,
    /// The index of the queue within its family.
    pub queue_index: u32,
}

/// What is handed to `vkCreateDevice` to create a device.
#[derive(Debug)]
pub struct DeviceCreateRequest {
    /// The create info with the extensions and features that the requested ones need
    /// enabled along; the device is made from it once created.
    pub create_info: DeviceCreateInfo,
    /// For each queue create info, the number of its queues.
    pub queue_counts: Vec<u32>,
    /// The Vulkan names of the extensions to enable.
    pub enabled_extension_names: Vec<&'static str>,
    /// The raw handles of the device group, when it has more than one physical device.
    pub device_group_physical_devices: Option<Vec<u64>>,
    /// The number of private data slots to reserve, when it is not zero.
    pub private_data_slot_request_count: Option<u32>,
    /// Whether the features are chained behind the create info (the instance has Vulkan 1.1 or
    /// `khr_get_physical_device_properties2`), rather than given as the core 1.0 features.
    pub features_in_p_next: bool,
}

/// What is wrong with creating a device on `pd` with `ci`: a problem of the create info, or
/// a device group list that does not contain `pd`.
pub open spec fn device_new_error(pd: PhysicalDevice, ci: DeviceCreateInfo) -> Option<ValidationError> {
    match device_create_info_error(ci, pd) {
        Some(e) => Some(e),
        None => {
            let pds = physical_device_list(ci.physical_devices);
            if pds.len() != 0 && !(exists|i: int| 0 <= i < pds.len() && #[trigger] same_physical_device(*pds[i], pd)) {
                Some(ValidationError::PhysicalDeviceNotInGroupList)
            } else {
                None
            }
        },
    }
}

/// The extensions enabled on a device created on `pd` with `ext` requested: these with the
/// extensions they depend on, and `khr_portability_subset` whenever `pd` supports it.
pub open spec fn completed_extensions(ext: DeviceExtensions, pd: PhysicalDevice) -> DeviceExtensions {
    let deps = with_dependencies(ext, pd.api_version, pd.supported_extensions);
    if pd.supported_extensions.khr_portability_subset {
        DeviceExtensions { khr_portability_subset: true, ..deps }
    } else {
        deps
    }
}

/// Whether feature `f` is needed by an extension of `ext` at API version `api`.
pub open spec fn extension_required_feature(ext: DeviceExtensions, api: Version, f: Feature) -> bool {
    match f {
        Feature::ShaderDrawParameters => version_ge(api, version_spec(1, 1)) && ext.khr_shader_draw_parameters,
        Feature::DrawIndirectCount => version_ge(api, version_spec(1, 2)) && ext.khr_draw_indirect_count,
        Feature::SamplerMirrorClampToEdge => version_ge(api, version_spec(1, 2))
            && ext.khr_sampler_mirror_clamp_to_edge,
        Feature::DescriptorIndexing => version_ge(api, version_spec(1, 2)) && ext.ext_descriptor_indexing,
        Feature::SamplerFilterMinmax => version_ge(api, version_spec(1, 2)) && ext.ext_sampler_filter_minmax,
        Feature::ShaderOutputLayer => version_ge(api, version_spec(1, 2)) && ext.ext_shader_viewport_index_layer,
        _ => false,
    }
}

/// Whether feature `f` is needed by a feature of `feat`.
pub open spec fn feature_required_feature(feat: Features, f: Feature) -> bool {
    match f {
        Feature::VariablePointersStorageBuffer => feat.variable_pointers,
        Feature::Multiview => feat.multiview_geometry_shader || feat.multiview_tessellation_shader
            || feat.multiview_mesh_shader,
        Feature::PrimitiveFragmentShadingRate => feat.primitive_fragment_shading_rate_mesh_shader,
        Feature::RayTracingPipelineShaderGroupHandleCaptureReplay => feat.ray_tracing_pipeline_shader_group_handle_capture_replay_mixed,
        Feature::RobustBufferAccess => feat.robust_buffer_access2,
        _ => false,
    }
}

/// The features enabled on a device: `feat` with those that the extensions `ext` (already
/// completed) and the features of `feat` need.
pub open spec fn completed_features(feat: Features, ext: DeviceExtensions, api: Version) -> Features {
    let v11 = version_ge(api, version_spec(1, 1));
    let v12 = version_ge(api, version_spec(1, 2));
    Features {
        shader_draw_parameters: feat.shader_draw_parameters || (v11 && ext.khr_shader_draw_parameters),
        draw_indirect_count: feat.draw_indirect_count || (v12 && ext.khr_draw_indirect_count),
        sampler_mirror_clamp_to_edge: feat.sampler_mirror_clamp_to_edge || (v12
            && ext.khr_sampler_mirror_clamp_to_edge),
        descriptor_indexing: feat.descriptor_indexing || (v12 && ext.ext_descriptor_indexing),
        sampler_filter_minmax: feat.sampler_filter_minmax || (v12 && ext.ext_sampler_filter_minmax),
        shader_output_layer: feat.shader_output_layer || (v12 && ext.ext_shader_viewport_index_layer),
        variable_pointers_storage_buffer: feat.variable_pointers_storage_buffer || feat.variable_pointers,
        multiview: feat.multiview || feat.multiview_geometry_shader || feat.multiview_tessellation_shader
            || feat.multiview_mesh_shader,
        primitive_fragment_shading_rate: feat.primitive_fragment_shading_rate
            || feat.primitive_fragment_shading_rate_mesh_shader,
        ray_tracing_pipeline_shader_group_handle_capture_replay: feat.ray_tracing_pipeline_shader_group_handle_capture_replay
            || feat.ray_tracing_pipeline_shader_group_handle_capture_replay_mixed,
        robust_buffer_access: feat.robust_buffer_access || feat.robust_buffer_access2,
        ..feat
    }
}

/// Whether `pd` supports every feature that completing `ci` turns on; completing a create
/// info for which this fails is a driver bug, and panics.
pub open spec fn completion_supported(ci: DeviceCreateInfo, pd: PhysicalDevice) -> bool {
    let ext = completed_extensions(ci.enabled_extensions, pd);
    forall|f: Feature| (#[trigger] extension_required_feature(ext, pd.api_version, f)
        || feature_required_feature(ci.enabled_features, f)) ==> pd.supported_features.spec_contains(f)
}

/// The queue infos to get from a device created with the queue create infos `qs`: for each,
/// in order, one per queue index below the number of its queues taken as a `u32`.
pub open spec fn queues_to_get(qs: Seq<QueueCreateInfo>) -> Seq<DeviceQueueInfo>
    decreases qs.len(),
{
    if qs.len() == 0 {
        Seq::empty()
    } else {
        queues_to_get(qs.drop_last()) + queues_of(qs.last(), qs.last().queues@.len() as u32 as int)
    }
}

/// The first `n` queue infos of one queue create info.
pub open spec fn queues_of(q: QueueCreateInfo, n: int) -> Seq<DeviceQueueInfo> {
    Seq::new(n as nat, |k: int| DeviceQueueInfo {
        flags: q.flags,
        queue_family_index: q.queue_family_index,
        queue_index: k as u32,
    })
}

/// The physical devices of a device created on `pd` with `ci`: those of the create info, or
/// `pd` alone when it lists none.
pub open spec fn device_physical_devices(pd: Arc<PhysicalDevice>, ci: DeviceCreateInfo) -> Seq<Arc<PhysicalDevice>> {
    if physical_device_list(ci.physical_devices).len() == 0 {
        seq![pd]
    } else {
        physical_device_list(ci.physical_devices)
    }
}

/// A Vulkan device, by what its logic reads.
#[derive(Debug)]
pub struct Device {
    handle: VkDevice,
    physical_device: Arc<PhysicalDevice>,
    enabled_extensions: DeviceExtensions,
    enabled_features: Features,
    physical_devices: PhysicalDeviceList,
    api_version: Version,
    active_queue_family_indices: QueueFamilyIndexList,
    allocation_count: AtomicU32,
}

impl Device {
    /// The raw handle.
    pub closed spec fn spec_handle(&self) -> VkDevice {
        self.handle
    }

    /// The physical device the device was created from.
    pub closed spec fn spec_physical_device(&self) -> Arc<PhysicalDevice> {
        self.physical_device
    }

    /// The extensions enabled on the device.
    pub closed spec fn spec_enabled_extensions(&self) -> DeviceExtensions {
        self.enabled_extensions
    }

    /// The features enabled on the device.
    pub closed spec fn spec_enabled_features(&self) -> Features {
        self.enabled_features
    }

    /// The physical devices of the device, by device index.
    pub closed spec fn spec_physical_devices(&self) -> Seq<Arc<PhysicalDevice>> {
        physical_device_list(self.physical_devices)
    }

    /// The API version of the device.
    pub closed spec fn spec_api_version(&self) -> Version {
        self.api_version
    }

    /// The queue family indices that the device uses.
    pub closed spec fn spec_active_queue_family_indices(&self) -> Seq<u32> {
        queue_family_index_list(self.active_queue_family_indices)
    }

    /// Checks that a device can be created on `physical_device` with `create_info`.
    pub fn validate_new(physical_device: &PhysicalDevice, create_info: &DeviceCreateInfo) -> (r: Result<(), ValidationError>)
        ensures
            r is Ok ==> {
                &&& !(create_info.enabled_features.shading_rate_image && (create_info.enabled_features.pipeline_fragment_shading_rate || create_info.enabled_features.primitive_fragment_shading_rate
                        || create_info.enabled_features.attachment_fragment_shading_rate))
                &&& !(create_info.enabled_features.fragment_density_map && (create_info.enabled_features.pipeline_fragment_shading_rate || create_info.enabled_features.primitive_fragment_shading_rate
                        || create_info.enabled_features.attachment_fragment_shading_rate))
                &&& create_info.enabled_features.sparse_image_int64_atomics ==> create_info.enabled_features.shader_image_int64_atomics
                &&& create_info.enabled_features.sparse_image_float32_atomics ==> create_info.enabled_features.shader_image_float32_atomics
                &&& create_info.enabled_features.sparse_image_float32_atomic_add ==> create_info.enabled_features.shader_image_float32_atomic_add
                &&& create_info.enabled_features.sparse_image_float32_atomic_min_max ==> create_info.enabled_features.shader_image_float32_atomic_min_max
            },
            r == match device_new_error(*physical_device, *create_info) {
                Some(e) => Err(e),
                None => Ok(()),
            },
    {
        create_info.validate(physical_device)?;
        let pds = create_info.physical_devices.as_slice();
        if pds.len() != 0 {
            let mut found = false;
            let mut i: usize = 0;
            while i < pds.len()
                invariant
                    i <= pds@.len(),
                    found == exists|k: int| 0 <= k < i && #[trigger] same_physical_device(*pds@[k], *physical_device),
                decreases pds@.len() - i,
            {
                assert(same_physical_device(*pds@[i as int], *physical_device)
                    == (pds@[i as int].handle == physical_device.handle
                        && pds@[i as int].instance.handle == physical_device.instance.handle));
                if pds[i].handle == physical_device.handle && pds[i].instance.handle == physical_device.instance.handle {
                    found = true;
                }
                i = i + 1;
            }
            if !found {
                return Err(ValidationError::PhysicalDeviceNotInGroupList);
            }
        }
        Ok(())
    }

    /// Checks that a device can be created on `physical_device` with `create_info`, then
    /// returns what to hand to `vkCreateDevice` (see `new_unchecked`). A create info that the
    /// checks refuse gets the error whatever the physical device supports; one that they
    /// accept must only turn on features that the physical device supports (see
    /// `check_required_features`).
    pub fn new(physical_device: &PhysicalDevice, create_info: DeviceCreateInfo) -> (r: Result<DeviceCreateRequest, ValidationError>)
        requires
            device_new_error(*physical_device, create_info) is None ==> completion_supported(create_info, *physical_device),
        ensures
            r is Ok ==> r.unwrap().features_in_p_next == (physical_device.instance.api_version.major > 1
                || (physical_device.instance.api_version.major == 1 && physical_device.instance.api_version.minor >= 1)
                || physical_device.instance.enabled_extensions.khr_get_physical_device_properties2),
            r is Ok ==> {
                &&& !(create_info.enabled_features.shading_rate_image && (create_info.enabled_features.pipeline_fragment_shading_rate || create_info.enabled_features.primitive_fragment_shading_rate
                        || create_info.enabled_features.attachment_fragment_shading_rate))
                &&& !(create_info.enabled_features.fragment_density_map && (create_info.enabled_features.pipeline_fragment_shading_rate || create_info.enabled_features.primitive_fragment_shading_rate
                        || create_info.enabled_features.attachment_fragment_shading_rate))
                &&& create_info.enabled_features.sparse_image_int64_atomics ==> create_info.enabled_features.shader_image_int64_atomics
                &&& create_info.enabled_features.sparse_image_float32_atomics ==> create_info.enabled_features.shader_image_float32_atomics
                &&& create_info.enabled_features.sparse_image_float32_atomic_add ==> create_info.enabled_features.shader_image_float32_atomic_add
                &&& create_info.enabled_features.sparse_image_float32_atomic_min_max ==> create_info.enabled_features.shader_image_float32_atomic_min_max
            },
            match device_new_error(*physical_device, create_info) {
                Some(e) => r == Err::<DeviceCreateRequest, ValidationError>(e),
                None => r is Ok && create_request_for(r.unwrap(), create_info, *physical_device),
            },
    {
        Self::validate_new(physical_device, &create_info)?;
        Ok(Self::new_unchecked(physical_device, create_info))
    }

    /// What to hand to `vkCreateDevice` for `create_info` on `physical_device`, without
    /// validating: the extensions that the requested ones depend on are enabled along, and
    /// `khr_portability_subset` whenever the physical device supports it; then the features
    /// that the enabled extensions and features need.
    pub fn new_unchecked(physical_device: &PhysicalDevice, create_info: DeviceCreateInfo) -> (r: DeviceCreateRequest)
        requires
            completion_supported(create_info, *physical_device),
        ensures
            create_request_for(r, create_info, *physical_device),
            r.features_in_p_next == (physical_device.instance.api_version.major > 1
                || (physical_device.instance.api_version.major == 1 && physical_device.instance.api_version.minor >= 1)
                || physical_device.instance.enabled_extensions.khr_get_physical_device_properties2),
    {
        let mut create_info = create_info;
        let api = physical_device.api_version;
        create_info.enabled_extensions = complete_extensions(create_info.enabled_extensions, physical_device);
        create_info.enabled_features = complete_features(create_info.enabled_features, &create_info.enabled_extensions, api);
        let queue_counts = queue_counts_of(&create_info.queue_create_infos);
        let enabled_extension_names = create_info.enabled_extensions.names();

        let pds = create_info.physical_devices.as_slice();
        let device_group_physical_devices = if pds.len() > 1 {
            Some(handles_of_slice(pds))
        } else {
            None
        };

        let private_data_slot_request_count = if create_info.private_data_slot_request_count != 0 {
            Some(create_info.private_data_slot_request_count)
        } else {
            None
        };

        let instance = &physical_device.instance;
        let features_in_p_next = instance.api_version.at_least(&Version::v1_1())
            || instance.enabled_extensions.khr_get_physical_device_properties2;

        DeviceCreateRequest {
            create_info,
            queue_counts,
            enabled_extension_names,
            device_group_physical_devices,
            private_data_slot_request_count,
            features_in_p_next,
        }
    }
}

impl Device {
    /// Checks that `physical_device` supports every feature that completing `create_info`
    /// turns on (see `new_unchecked`); returns the first one, in the order of
    /// `all_features()`, that it does not support. A physical device that fails this has a
    /// driver bug.
    pub fn check_required_features(physical_device: &PhysicalDevice, create_info: &DeviceCreateInfo) -> (r: Result<(), Feature>)
        ensures
            r is Ok <==> completion_supported(*create_info, *physical_device),
            r == match unsupported_feature(
                required_features(create_info.enabled_features, completed_extensions(create_info.enabled_extensions, *physical_device), physical_device.api_version),
                physical_device.supported_features,
            ) {
                Some(f) => Err(f),
                None => Ok(()),
            },
    {
        let api = physical_device.api_version;
        let ext = complete_extensions(create_info.enabled_extensions, physical_device);
        let feat = &create_info.enabled_features;
        let v11 = api.at_least(&Version::v1_1());
        let v12 = api.at_least(&Version::v1_2());
        let none = Features::empty();
        let required = Features {
            shader_draw_parameters: v11 && ext.khr_shader_draw_parameters,
            draw_indirect_count: v12 && ext.khr_draw_indirect_count,
            sampler_mirror_clamp_to_edge: v12 && ext.khr_sampler_mirror_clamp_to_edge,
            descriptor_indexing: v12 && ext.ext_descriptor_indexing,
            sampler_filter_minmax: v12 && ext.ext_sampler_filter_minmax,
            shader_output_layer: v12 && ext.ext_shader_viewport_index_layer,
            variable_pointers_storage_buffer: feat.variable_pointers,
            multiview: feat.multiview_geometry_shader || feat.multiview_tessellation_shader
                || feat.multiview_mesh_shader,
            primitive_fragment_shading_rate: feat.primitive_fragment_shading_rate_mesh_shader,
            ray_tracing_pipeline_shader_group_handle_capture_replay: feat.ray_tracing_pipeline_shader_group_handle_capture_replay_mixed,
            robust_buffer_access: feat.robust_buffer_access2,
            ..none
        };
        assert(required == required_features(*feat, ext, api));
        proof {
            let sup = physical_device.supported_features;
            lemma_required_features(*feat, ext, api);
            unsupported_feature_none_iff_subset(required, sup);
            assert((forall|f: Feature| #[trigger] required.spec_contains(f) ==> sup.spec_contains(f))
                <==> completion_supported(*create_info, *physical_device)) by {
                if forall|f: Feature| #[trigger] required.spec_contains(f) ==> sup.spec_contains(f) {
                    assert forall|f: Feature| #[trigger] extension_required_feature(ext, api, f)
                        || feature_required_feature(*feat, f) implies sup.spec_contains(f) by {
                        assert(required.spec_contains(f));
                    }
                }
                if completion_supported(*create_info, *physical_device) {
                    assert forall|f: Feature| #[trigger] required.spec_contains(f) implies sup.spec_contains(f) by {
                        assert(extension_required_feature(ext, api, f) || feature_required_feature(*feat, f));
                    }
                }
            }
        }
        required.check_requirements(&physical_device.supported_features)
    }
}

impl Device {
    /// Makes the device that `handle` stands for, created on `physical_device` with
    /// `create_info`, and lists the queues to get from it: for each queue create info, in
    /// order, one per queue. The active queue family indices are those of the queue create
    /// infos, in ascending order, each once; the physical devices are those of the create info,
    /// or `physical_device` alone when it lists none.
    pub fn from_handle(
        physical_device: Arc<PhysicalDevice>,
        handle: VkDevice,
        create_info: DeviceCreateInfo,
    ) -> (r: (Arc<Device>, Vec<DeviceQueueInfo>))
        ensures
            r.0.spec_handle() == handle,
            r.0.spec_physical_device() == physical_device,
            r.0.spec_api_version() == physical_device.api_version,
            r.0.spec_enabled_extensions() == create_info.enabled_extensions,
            r.0.spec_enabled_features() == create_info.enabled_features,
            r.0.spec_physical_devices() == device_physical_devices(physical_device, create_info),
            forall|i: int, j: int| 0 <= i < j < r.0.spec_active_queue_family_indices().len() ==>
                r.0.spec_active_queue_family_indices()[i] < r.0.spec_active_queue_family_indices()[j],
            forall|x: u32| r.0.spec_active_queue_family_indices().contains(x) <==> exists|k: int|
                0 <= k < create_info.queue_create_infos@.len()
                    && #[trigger] create_info.queue_create_infos@[k].queue_family_index == x,
            r.1@ == queues_to_get(create_info.queue_create_infos@),
            forall|k: int| 0 <= k < r.1@.len() ==> exists|j: int| 0 <= j < create_info.queue_create_infos@.len() && {
                &&& (#[trigger] create_info.queue_create_infos@[j]).queue_family_index == (#[trigger] r.1@[k]).queue_family_index
                &&& create_info.queue_create_infos@[j].flags == r.1@[k].flags
                &&& r.1@[k].queue_index as int <= create_info.queue_create_infos@[j].queues@.len()
            },
            forall|j: int, i: int| 0 <= j < create_info.queue_create_infos@.len()
                && 0 <= i < create_info.queue_create_infos@[j].queues@.len() <= u32::MAX
                ==> r.1@.contains(#[trigger] queue_info_for(create_info.queue_create_infos@[j], i)),
    {
        let ghost requested = create_info.queue_create_infos@;
        let qs = &create_info.queue_create_infos;
        let mut families: Vec<u32> = Vec::new();
        let mut queues: Vec<DeviceQueueInfo> = Vec::new();
        let mut i: usize = 0;
        while i < qs.len()
            invariant
                i <= qs@.len(),
                families@.len() == i,
                forall|k: int| 0 <= k < i ==> #[trigger] families@[k] == qs@[k].queue_family_index,
                queues@ == queues_to_get(qs@.take(i as int)),
            decreases qs@.len() - i,
        {
            let q = &qs[i];
            families.push(q.queue_family_index);
            #[verifier::truncate]
            let n = q.queues.len() as u32;
            let ghost before = queues@;
            let mut queue_index: u32 = 0;
            while queue_index < n
                invariant
                    queue_index <= n,
                    n == q.queues@.len() as u32,
                    queues@ == before + queues_of(*q, queue_index as int),
                decreases n - queue_index,
            {
                queues.push(DeviceQueueInfo {
                    flags: q.flags,
                    queue_family_index: q.queue_family_index,
                    queue_index,
                });
                queue_index = queue_index + 1;
                assert(queues@ =~= before + queues_of(*q, queue_index as int));
            }
            assert(qs@.take(i + 1).drop_last() =~= qs@.take(i as int));
            i = i + 1;
        }
        assert(qs@.take(qs@.len() as int) =~= qs@);
        proof {
            assert forall|x: u32| families@.contains(x) <==> exists|k: int|
                0 <= k < qs@.len() && #[trigger] qs@[k].queue_family_index == x by {
                if families@.contains(x) {
                    let k = choose|k: int| 0 <= k < families@.len() && families@[k] == x;
                    assert(qs@[k].queue_family_index == x);
                }
                if exists|k: int| 0 <= k < qs@.len() && #[trigger] qs@[k].queue_family_index == x {
                    let k = choose|k: int| 0 <= k < qs@.len() && #[trigger] qs@[k].queue_family_index == x;
                    assert(families@[k] == x);
                }
            }
        }
        let active_queue_family_indices = QueueFamilyIndexList::sorted_unique(families);

        let physical_devices = if create_info.physical_devices.is_empty() {
            let mut only = Vec::new();
            only.push(clone_physical_device(&physical_device));
            assert(only@ =~= seq![physical_device]);
            PhysicalDeviceList::from_vec(only)
        } else {
            create_info.physical_devices
        };

        let device = Device {
            handle,
            api_version: physical_device.api_version,
            physical_device,
            enabled_extensions: create_info.enabled_extensions,
            enabled_features: create_info.enabled_features,
            physical_devices,
            active_queue_family_indices,
            allocation_count: AtomicU32::new(0),
        };
        proof {
            queues_come_from_create_infos(requested);
        }
        (Arc::new(device), queues)
    }

    /// The Vulkan version supported by the device.
    pub fn api_version(&self) -> (r: Version)
        ensures
            r == self.spec_api_version(),
    {
        self.api_version
    }

    /// The physical device that was used to create this device.
    pub fn physical_device(&self) -> (r: &Arc<PhysicalDevice>)
        ensures
            *r == self.spec_physical_device(),
    {
        &self.physical_device
    }

    /// The physical devices of this device; the index of each is its device index.
    pub fn physical_devices(&self) -> (r: &[Arc<PhysicalDevice>])
        ensures
            r@ == self.spec_physical_devices(),
    {
        self.physical_devices.as_slice()
    }

    /// A mask with the bit of every device index of this device set, and no other bit; every
    /// bit is set when the device has 32 physical devices (the most a device group can have)
    /// or more.
    pub fn device_mask(&self) -> (r: u32)
        ensures
            forall|i: u32| i < 32 ==> ((r >> i) & 1u32 == 1u32) == (i < self.spec_physical_devices().len()),
    {
        let len = self.physical_devices.len();
        if len >= 32 {
            let r = 0xFFFF_FFFFu32;
            assert(forall|i: u32| i < 32 ==> ((r >> i) & 1u32 == 1u32)) by (bit_vector)
                requires
                    r == 0xFFFF_FFFFu32,
            ;
            return r;
        }
        let n = len as u32;
        assert(1u32 << n >= 1u32) by (bit_vector)
            requires
                n < 32u32,
        ;
        let r = (1u32 << n) - 1;
        assert(forall|i: u32| i < 32 ==> (((r >> i) & 1u32 == 1u32) == (i < n))) by (bit_vector)
            requires
                n < 32u32,
                r == ((1u32 << n) - 1u32) as u32,
        ;
        r
    }

    /// The instance used to create this device.
    pub fn instance(&self) -> (r: &Arc<Instance>)
        ensures
            *r == self.spec_physical_device().instance,
    {
        &self.physical_device.instance
    }

    /// The queue family indices that this device uses, in ascending order.
    pub fn active_queue_family_indices(&self) -> (r: &[u32])
        ensures
            r@ == self.spec_active_queue_family_indices(),
    {
        self.active_queue_family_indices.as_slice()
    }

    /// The extensions enabled on the device.
    pub fn enabled_extensions(&self) -> (r: &DeviceExtensions)
        ensures
            *r == self.spec_enabled_extensions(),
    {
        &self.enabled_extensions
    }

    /// The features enabled on the device.
    pub fn enabled_features(&self) -> (r: &Features)
        ensures
            *r == self.spec_enabled_features(),
    {
        &self.enabled_features
    }

    /// The current number of memory allocations of the device; other threads may change it
    /// at any time, so nothing is stated of the result.
    pub fn allocation_count(&self) -> u32 {
        self.allocation_count.load(std::sync::atomic::Ordering::Acquire)
    }

    /// The raw handle.
    pub fn handle(&self) -> (r: VkDevice)
        ensures
            r == self.spec_handle(),
    {
        self.handle
    }
}

/// `Arc::clone`: another pointer to the same physical device.
#[verifier::external_body]
fn clone_physical_device(pd: &Arc<PhysicalDevice>) -> (r: Arc<PhysicalDevice>)
    ensures
        r == *pd,
{
    Arc::clone(pd)
}

/// `ext` with the extensions it depends on, and `khr_portability_subset` whenever the
/// physical device supports it.
fn complete_extensions(ext: DeviceExtensions, physical_device: &PhysicalDevice) -> (r: DeviceExtensions)
    ensures
        r == completed_extensions(ext, *physical_device),
{
    let mut ext = ext;
    ext.enable_dependencies(physical_device.api_version, &physical_device.supported_extensions);
    if physical_device.supported_extensions.khr_portability_subset {
        ext = DeviceExtensions { khr_portability_subset: true, ..ext };
    }
    ext
}

/// `feat` with the features that the extensions `ext` need at API version `api`, then the
/// features that the features of `feat` need.
fn complete_features(feat: Features, ext: &DeviceExtensions, api: Version) -> (r: Features)
    ensures
        r == completed_features(feat, *ext, api),
{
    let v11 = api.at_least(&Version::v1_1());
    let v12 = api.at_least(&Version::v1_2());
    Features {
        shader_draw_parameters: feat.shader_draw_parameters || (v11 && ext.khr_shader_draw_parameters),
        draw_indirect_count: feat.draw_indirect_count || (v12 && ext.khr_draw_indirect_count),
        sampler_mirror_clamp_to_edge: feat.sampler_mirror_clamp_to_edge || (v12
            && ext.khr_sampler_mirror_clamp_to_edge),
        descriptor_indexing: feat.descriptor_indexing || (v12 && ext.ext_descriptor_indexing),
        sampler_filter_minmax: feat.sampler_filter_minmax || (v12 && ext.ext_sampler_filter_minmax),
        shader_output_layer: feat.shader_output_layer || (v12 && ext.ext_shader_viewport_index_layer),
        variable_pointers_storage_buffer: feat.variable_pointers_storage_buffer || feat.variable_pointers,
        multiview: feat.multiview || feat.multiview_geometry_shader || feat.multiview_tessellation_shader
            || feat.multiview_mesh_shader,
        primitive_fragment_shading_rate: feat.primitive_fragment_shading_rate
            || feat.primitive_fragment_shading_rate_mesh_shader,
        ray_tracing_pipeline_shader_group_handle_capture_replay: feat.ray_tracing_pipeline_shader_group_handle_capture_replay
            || feat.ray_tracing_pipeline_shader_group_handle_capture_replay_mixed,
        robust_buffer_access: feat.robust_buffer_access || feat.robust_buffer_access2,
        ..feat
    }
}

/// For each queue create info, the number of its queues taken as a `u32`.
fn queue_counts_of(qs: &Vec<QueueCreateInfo>) -> (r: Vec<u32>)
    ensures
        r@.len() == qs@.len(),
        forall|k: int| 0 <= k < r@.len() ==> #[trigger] r@[k] == qs@[k].queues@.len() as u32,
{
    let mut queue_counts: Vec<u32> = Vec::new();
    let mut i: usize = 0;
    while i < qs.len()
        invariant
            i <= qs@.len(),
            queue_counts@.len() == i,
            forall|k: int| 0 <= k < i ==> #[trigger] queue_counts@[k] == qs@[k].queues@.len() as u32,
        decreases qs@.len() - i,
    {
        #[verifier::truncate]
        let count = qs[i].queues.len() as u32;
        queue_counts.push(count);
        i = i + 1;
    }
    queue_counts
}

/// The raw handles of the physical devices, in order.
fn handles_of_slice(pds: &[Arc<PhysicalDevice>]) -> (r: Vec<u64>)
    ensures
        r@ == handles_of(pds@),
{
    let mut handles: Vec<u64> = Vec::new();
    let mut k: usize = 0;
    while k < pds.len()
        invariant
            k <= pds@.len(),
            handles@ == handles_of(pds@).take(k as int),
        decreases pds@.len() - k,
    {
        handles.push(pds[k].handle);
        k = k + 1;
        assert(handles@ =~= handles_of(pds@).take(k as int));
    }
    assert(handles@ =~= handles_of(pds@));
    handles
}

/// The features that completing a create info turns on for its extensions `ext` (already
/// completed) at API version `api` and for its features `feat`.
pub open spec fn required_features(feat: Features, ext: DeviceExtensions, api: Version) -> Features {
    let v11 = version_ge(api, version_spec(1, 1));
    let v12 = version_ge(api, version_spec(1, 2));
    Features {
        shader_draw_parameters: v11 && ext.khr_shader_draw_parameters,
        draw_indirect_count: v12 && ext.khr_draw_indirect_count,
        sampler_mirror_clamp_to_edge: v12 && ext.khr_sampler_mirror_clamp_to_edge,
        descriptor_indexing: v12 && ext.ext_descriptor_indexing,
        sampler_filter_minmax: v12 && ext.ext_sampler_filter_minmax,
        shader_output_layer: v12 && ext.ext_shader_viewport_index_layer,
        variable_pointers_storage_buffer: feat.variable_pointers,
        multiview: feat.multiview_geometry_shader || feat.multiview_tessellation_shader
            || feat.multiview_mesh_shader,
        primitive_fragment_shading_rate: feat.primitive_fragment_shading_rate_mesh_shader,
        ray_tracing_pipeline_shader_group_handle_capture_replay: feat.ray_tracing_pipeline_shader_group_handle_capture_replay_mixed,
        robust_buffer_access: feat.robust_buffer_access2,
        ..no_features()
    }
}

/// A feature is in `required_features` exactly when an extension or a feature needs it.
proof fn lemma_required_features(feat: Features, ext: DeviceExtensions, api: Version)
    ensures
        forall|f: Feature| #[trigger] required_features(feat, ext, api).spec_contains(f)
            == (extension_required_feature(ext, api, f) || feature_required_feature(feat, f)),
{
    assert forall|f: Feature| #[trigger] required_features(feat, ext, api).spec_contains(f)
        == (extension_required_feature(ext, api, f) || feature_required_feature(feat, f)) by {
        match f {
            Feature::ShaderDrawParameters => {},
            Feature::DrawIndirectCount => {},
            Feature::SamplerMirrorClampToEdge => {},
            Feature::DescriptorIndexing => {},
            Feature::SamplerFilterMinmax => {},
            Feature::ShaderOutputLayer => {},
            Feature::VariablePointersStorageBuffer => {},
            Feature::Multiview => {},
            Feature::PrimitiveFragmentShadingRate => {},
            Feature::RayTracingPipelineShaderGroupHandleCaptureReplay => {},
            Feature::RobustBufferAccess => {},
            _ => {},
        }
    }
}

/// Queue `i` of the queue create info `q`, with the flags it was created with.
pub open spec fn queue_info_for(q: QueueCreateInfo, i: int) -> DeviceQueueInfo {
    DeviceQueueInfo { flags: q.flags, queue_family_index: q.queue_family_index, queue_index: i as u32 }
}

/// Every queue to get from a device comes from one of its queue create infos: it has the
/// queue family and the flags of that queue create info, and an index below its number of
/// queues. Conversely, every queue of every queue create info is to be got, with those flags.
pub proof fn queues_come_from_create_infos(qs: Seq<QueueCreateInfo>)
    ensures
        forall|k: int| 0 <= k < queues_to_get(qs).len() ==> exists|j: int| 0 <= j < qs.len() && {
            &&& (#[trigger] qs[j]).queue_family_index == (#[trigger] queues_to_get(qs)[k]).queue_family_index
            &&& qs[j].flags == queues_to_get(qs)[k].flags
            &&& queues_to_get(qs)[k].queue_index as int <= qs[j].queues@.len()
        },
        forall|j: int, i: int| 0 <= j < qs.len() && 0 <= i < qs[j].queues@.len() <= u32::MAX
            ==> queues_to_get(qs).contains(#[trigger] queue_info_for(qs[j], i)),
    decreases qs.len(),
{
    if qs.len() > 0 {
        let init = qs.drop_last();
        let last = qs.last();
        queues_come_from_create_infos(init);
        let prefix = queues_to_get(init);
        let n = last.queues@.len() as u32 as int;
        let tail = queues_of(last, n);
        assert(queues_to_get(qs) == prefix + tail);
        assert forall|k: int| 0 <= k < queues_to_get(qs).len() implies exists|j: int| 0 <= j < qs.len() && {
            &&& (#[trigger] qs[j]).queue_family_index == (#[trigger] queues_to_get(qs)[k]).queue_family_index
            &&& qs[j].flags == queues_to_get(qs)[k].flags
            &&& queues_to_get(qs)[k].queue_index as int <= qs[j].queues@.len()
        } by {
            if k < prefix.len() {
                assert(queues_to_get(qs)[k] == prefix[k]);
                let j = choose|j: int| 0 <= j < init.len() && {
                    &&& (#[trigger] init[j]).queue_family_index == (#[trigger] prefix[k]).queue_family_index
                    &&& init[j].flags == prefix[k].flags
                    &&& prefix[k].queue_index as int <= init[j].queues@.len()
                };
                assert(qs[j] == init[j]);
            } else {
                let m = k - prefix.len();
                assert(queues_to_get(qs)[k] == tail[m]);
                assert(qs[qs.len() - 1] == last);
                assert(0 <= m < n);
                assert(tail[m].queue_index == m as u32);
                assert(n <= last.queues@.len()) by {
                    let len = last.queues@.len();
                    if len <= u32::MAX {
                        assert(len as u32 as int == len);
                    } else {
                        assert(len as u32 as int <= u32::MAX);
                    }
                }
            }
        }
        assert forall|j: int, i: int| 0 <= j < qs.len() && 0 <= i < qs[j].queues@.len() <= u32::MAX
            implies queues_to_get(qs).contains(#[trigger] queue_info_for(qs[j], i)) by {
            if j < init.len() {
                assert(qs[j] == init[j]);
                assert(queue_info_for(init[j], i) == queue_info_for(qs[j], i));
                let k = choose|k: int| 0 <= k < prefix.len() && prefix[k] == queue_info_for(init[j], i);
                assert(queues_to_get(qs)[k] == prefix[k]);
            } else {
                assert(qs[j] == last);
                assert(n == last.queues@.len());
                let k = prefix.len() + i;
                assert(queues_to_get(qs)[k] == tail[i]);
                assert(tail[i] == queue_info_for(qs[j], i));
            }
        }
    }
}

/// A create info that `Device::validate_new` accepts has queues to create, enables no two
/// features that Vulkan forbids together, enables each sparse image atomics feature only
/// with its shader image atomics feature, enables `descriptor_buffer` only without
/// `amd_shader_fragment_mask`, enables `ext_buffer_device_address` only without
/// `khr_buffer_device_address`, and reserves private data slots only with API version 1.3 or
/// `ext_private_data`.
pub proof fn accepted_create_info_is_consistent(pd: PhysicalDevice, ci: DeviceCreateInfo)
    requires
        device_new_error(pd, ci) is None,
    ensures
        ci.queue_create_infos@.len() > 0,
        !(ci.enabled_features.shading_rate_image && (ci.enabled_features.pipeline_fragment_shading_rate || ci.enabled_features.primitive_fragment_shading_rate
                || ci.enabled_features.attachment_fragment_shading_rate)),
        !(ci.enabled_features.fragment_density_map && (ci.enabled_features.pipeline_fragment_shading_rate || ci.enabled_features.primitive_fragment_shading_rate
                || ci.enabled_features.attachment_fragment_shading_rate)),
        ci.enabled_features.sparse_image_int64_atomics ==> ci.enabled_features.shader_image_int64_atomics,
        ci.enabled_features.sparse_image_float32_atomics ==> ci.enabled_features.shader_image_float32_atomics,
        ci.enabled_features.sparse_image_float32_atomic_add ==> ci.enabled_features.shader_image_float32_atomic_add,
        ci.enabled_features.sparse_image_float32_atomic_min_max ==> ci.enabled_features.shader_image_float32_atomic_min_max,
        !(ci.enabled_features.descriptor_buffer && ci.enabled_extensions.amd_shader_fragment_mask),
        !(ci.enabled_extensions.ext_buffer_device_address && ci.enabled_extensions.khr_buffer_device_address),
        ci.private_data_slot_request_count != 0 ==> pd.api_version.major > 1
            || (pd.api_version.major == 1 && pd.api_version.minor >= 3)
            || ci.enabled_extensions.ext_private_data,
{
}

/// The request chains the features behind the create info, as a
/// `VkPhysicalDeviceFeatures2`, exactly when the instance knows that structure: its API
/// version is at least 1.1, or it enables `khr_get_physical_device_properties2`. Otherwise the
/// features go in `pEnabledFeatures`.
pub proof fn request_chains_features_when_instance_knows_them(r: DeviceCreateRequest, ci: DeviceCreateInfo, pd: PhysicalDevice)
    requires
        create_request_for(r, ci, pd),
    ensures
        r.features_in_p_next == (pd.instance.api_version.major > 1
            || (pd.instance.api_version.major == 1 && pd.instance.api_version.minor >= 1)
            || pd.instance.enabled_extensions.khr_get_physical_device_properties2),
{
}

/// `r` is what is handed to `vkCreateDevice` for `ci` on `pd`.
pub open spec fn create_request_for(r: DeviceCreateRequest, ci: DeviceCreateInfo, pd: PhysicalDevice) -> bool {
    let ext = completed_extensions(ci.enabled_extensions, pd);
    let pds = physical_device_list(ci.physical_devices);
    &&& r.create_info.queue_create_infos == ci.queue_create_infos
    &&& r.create_info.enabled_extensions == ext
    &&& r.create_info.enabled_features == completed_features(ci.enabled_features, ext, pd.api_version)
    &&& r.create_info.physical_devices == ci.physical_devices
    &&& r.create_info.private_data_slot_request_count == ci.private_data_slot_request_count
    &&& r.queue_counts@.len() == ci.queue_create_infos@.len()
    &&& forall|k: int| 0 <= k < r.queue_counts@.len() ==> #[trigger] r.queue_counts@[k]
        == ci.queue_create_infos@[k].queues@.len() as u32
    &&& r.enabled_extension_names@.map_values(|s: &'static str| s@)
        == enabled_names_upto(ext, all_device_extensions().len() as int)
    &&& r.device_group_physical_devices == if pds.len() > 1 {
        Some(r.device_group_physical_devices.unwrap())
    } else {
        None::<Vec<u64>>
    }
    &&& pds.len() > 1 ==> r.device_group_physical_devices.unwrap()@ == handles_of(pds)
    &&& r.private_data_slot_request_count == if ci.private_data_slot_request_count != 0 {
        Some(ci.private_data_slot_request_count)
    } else {
        None::<u32>
    }
    &&& r.features_in_p_next == (version_ge(pd.instance.api_version, version_spec(1, 1))
        || pd.instance.enabled_extensions.khr_get_physical_device_properties2)
}

/// A device made from a create info that `Device::validate_new` accepts, or from the request
/// that `Device::new` returns for it, has physical devices, and the physical device it was
/// created from is among them.
pub proof fn physical_devices_contain_physical_device(pd: Arc<PhysicalDevice>, ci: DeviceCreateInfo)
    requires
        device_new_error(*pd, ci) is None,
    ensures
        device_physical_devices(pd, ci).len() > 0,
        exists|i: int| 0 <= i < device_physical_devices(pd, ci).len()
            && #[trigger] same_physical_device(*device_physical_devices(pd, ci)[i], *pd),
        forall|r: DeviceCreateRequest| #[trigger] create_request_for(r, ci, *pd) ==> {
            &&& device_physical_devices(pd, r.create_info).len() > 0
            &&& exists|i: int| 0 <= i < device_physical_devices(pd, r.create_info).len()
                && #[trigger] same_physical_device(*device_physical_devices(pd, r.create_info)[i], *pd)
        },
{
    let pds = physical_device_list(ci.physical_devices);
    if pds.len() == 0 {
        assert(same_physical_device(*device_physical_devices(pd, ci)[0], *pd));
    } else {
        let i = choose|i: int| 0 <= i < pds.len() && #[trigger] same_physical_device(*pds[i], *pd);
        assert(same_physical_device(*device_physical_devices(pd, ci)[i], *pd));
    }
    assert forall|r: DeviceCreateRequest| #[trigger] create_request_for(r, ci, *pd) implies {
        &&& device_physical_devices(pd, r.create_info).len() > 0
        &&& exists|i: int| 0 <= i < device_physical_devices(pd, r.create_info).len()
            && #[trigger] same_physical_device(*device_physical_devices(pd, r.create_info)[i], *pd)
    } by {
        assert(device_physical_devices(pd, r.create_info) == device_physical_devices(pd, ci));
    }
}

/// Completing a create info keeps every requested extension and feature, enables
/// `khr_portability_subset` whenever the physical device supports it, and enables every
/// feature that an enabled extension or feature needs.
pub proof fn completion_keeps_requested_and_adds_needed(
    ci: DeviceCreateInfo,
    pd: PhysicalDevice,
    e: crate::extensions::DeviceExtension,
    f: Feature,
)
    ensures
        ci.enabled_extensions.spec_contains(e) ==> completed_extensions(ci.enabled_extensions, pd).spec_contains(e),
        pd.supported_extensions.khr_portability_subset ==> completed_extensions(ci.enabled_extensions, pd).khr_portability_subset,
        ({
            let ext = completed_extensions(ci.enabled_extensions, pd);
            let feat = completed_features(ci.enabled_features, ext, pd.api_version);
            &&& ci.enabled_features.spec_contains(f) ==> feat.spec_contains(f)
            &&& extension_required_feature(ext, pd.api_version, f) ==> feat.spec_contains(f)
            &&& feature_required_feature(ci.enabled_features, f) ==> feat.spec_contains(f)
        }),
{
    crate::extensions::enabled_dependencies_keep_and_add_supported(
        ci.enabled_extensions,
        pd.api_version,
        pd.supported_extensions,
        e,
    );
    let deps = with_dependencies(ci.enabled_extensions, pd.api_version, pd.supported_extensions);
    lemma_portability_keeps(deps, e);
    let ext = completed_extensions(ci.enabled_extensions, pd);
    lemma_completed_features(ci.enabled_features, ext, pd.api_version, f);
}

/// Setting `khr_portability_subset` keeps every other extension.
proof fn lemma_portability_keeps(deps: DeviceExtensions, e: crate::extensions::DeviceExtension)
    ensures
        deps.spec_contains(e) ==> (DeviceExtensions { khr_portability_subset: true, ..deps }).spec_contains(e),
{
}

/// On a physical device that supports what completing `ci` turns on, a device that
/// `Device::new` accepts enables only extensions and features that the physical device
/// supports.
pub proof fn accepted_device_enables_only_supported(
    ci: DeviceCreateInfo,
    pd: PhysicalDevice,
    e: crate::extensions::DeviceExtension,
    f: Feature,
)
    requires
        device_new_error(pd, ci) is None,
        completion_supported(ci, pd),
    ensures
        completed_extensions(ci.enabled_extensions, pd).spec_contains(e) ==> pd.supported_extensions.spec_contains(e),
        completed_features(ci.enabled_features, completed_extensions(ci.enabled_extensions, pd), pd.api_version).spec_contains(f)
            ==> pd.supported_features.spec_contains(f),
{
    crate::extensions::enabled_dependencies_keep_and_add_supported(
        ci.enabled_extensions,
        pd.api_version,
        pd.supported_extensions,
        e,
    );
    crate::extensions::lemma_no_extension_error_supported(
        ci.enabled_extensions,
        pd.supported_extensions,
        pd.api_version,
        pd.instance.enabled_extensions,
        e,
    );
    crate::features::unsupported_feature_none_iff_subset(ci.enabled_features, pd.supported_features);
    let deps = with_dependencies(ci.enabled_extensions, pd.api_version, pd.supported_extensions);
    lemma_portability_keeps(deps, e);
    lemma_portability_only(deps, e);
    let ext = completed_extensions(ci.enabled_extensions, pd);
    lemma_completed_features(ci.enabled_features, ext, pd.api_version, f);
    lemma_completion_supported_at(ci, pd, f);
}

/// What `completion_supported` says of one feature.
proof fn lemma_completion_supported_at(ci: DeviceCreateInfo, pd: PhysicalDevice, f: Feature)
    requires
        completion_supported(ci, pd),
    ensures
        extension_required_feature(completed_extensions(ci.enabled_extensions, pd), pd.api_version, f)
            || feature_required_feature(ci.enabled_features, f) ==> pd.supported_features.spec_contains(f),
{
}

/// Setting `khr_portability_subset` adds nothing else.
proof fn lemma_portability_only(deps: DeviceExtensions, e: crate::extensions::DeviceExtension)
    ensures
        (DeviceExtensions { khr_portability_subset: true, ..deps }).spec_contains(e) ==> deps.spec_contains(e)
            || e == crate::extensions::DeviceExtension::KhrPortabilitySubset,
{
}

/// What completing the features turns on.
proof fn lemma_completed_features(feat: Features, ext: DeviceExtensions, api: Version, f: Feature)
    ensures
        completed_features(feat, ext, api).spec_contains(f) == (feat.spec_contains(f)
            || extension_required_feature(ext, api, f) || feature_required_feature(feat, f)),
{
    lemma_completed_keeps(feat, ext, api, f);
    lemma_completed_adds_extension_needs(feat, ext, api, f);
    lemma_completed_adds_feature_needs(feat, ext, api, f);
    lemma_completed_adds_nothing_else(feat, ext, api, f);
}

proof fn lemma_completed_keeps(feat: Features, ext: DeviceExtensions, api: Version, f: Feature)
    ensures
        feat.spec_contains(f) ==> completed_features(feat, ext, api).spec_contains(f),
{
}

proof fn lemma_completed_adds_extension_needs(feat: Features, ext: DeviceExtensions, api: Version, f: Feature)
    ensures
        extension_required_feature(ext, api, f) ==> completed_features(feat, ext, api).spec_contains(f),
{
}

proof fn lemma_completed_adds_feature_needs(feat: Features, ext: DeviceExtensions, api: Version, f: Feature)
    ensures
        feature_required_feature(feat, f) ==> completed_features(feat, ext, api).spec_contains(f),
{
}

proof fn lemma_completed_adds_nothing_else(feat: Features, ext: DeviceExtensions, api: Version, f: Feature)
    ensures
        completed_features(feat, ext, api).spec_contains(f) ==> feat.spec_contains(f)
            || extension_required_feature(ext, api, f) || feature_required_feature(feat, f),
{
    match f {
        Feature::ShaderDrawParameters => {},
        Feature::DrawIndirectCount => {},
        Feature::SamplerMirrorClampToEdge => {},
        Feature::DescriptorIndexing => {},
        Feature::SamplerFilterMinmax => {},
        Feature::ShaderOutputLayer => {},
        Feature::VariablePointersStorageBuffer => {},
        Feature::Multiview => {},
        Feature::PrimitiveFragmentShadingRate => {},
        Feature::RayTracingPipelineShaderGroupHandleCaptureReplay => {},
        Feature::RobustBufferAccess => {},
        _ => {
            assert(completed_features(feat, ext, api).spec_contains(f) == feat.spec_contains(f));
        },
    }
}

/// In a create info that `DeviceCreateInfo::validate` accepts, no two queue create infos have
/// the same queue family index.
pub proof fn valid_queue_families_distinct(ci: DeviceCreateInfo, pd: PhysicalDevice, i: int, j: int)
    requires
        device_create_info_error(ci, pd) is None,
        0 <= i < j < ci.queue_create_infos@.len(),
    ensures
        ci.queue_create_infos@[i].queue_family_index != ci.queue_create_infos@[j].queue_family_index,
{
    lemma_no_queue_error_from(ci.queue_create_infos@, 0, pd, i);
}

proof fn lemma_no_queue_error_from(qs: Seq<QueueCreateInfo>, k: int, pd: PhysicalDevice, i: int)
    requires
        crate::create_info::queue_infos_error_from(qs, k, pd) is None,
        0 <= k <= i < qs.len(),
    ensures
        !crate::create_info::family_repeated(qs, i),
        crate::create_info::queue_create_info_error(qs[i], pd) is None,
    decreases i - k,
{
    if k < i {
        lemma_no_queue_error_from(qs, k + 1, pd, i);
    }
}

} // verus!
