use vstd::prelude::*;
use crate::extensions::{DeviceExtension, ExtensionRestrictionError};
use crate::features::Feature;
use crate::version::Version;

verus! {

/// Why a queue create info is refused.
#[derive(Clone, Copy, Debug, PartialEq, Eq)]
pub enum QueueCreateInfoError {
    /// `flags` asks for protected queues, which need API version 1.1.
    /// (VUID-VkDeviceQueueCreateInfo-flags-parameter)
    ProtectedRequiresApiVersion,
    /// `queue_family_index` is not less than the number of queue families of the physical
    /// device. (VUID-VkDeviceQueueCreateInfo-queueFamilyIndex-00381)
    QueueFamilyIndexOutOfRange,
    /// `queues` is empty. (VUID-VkDeviceQueueCreateInfo-queueCount-arraylength)
    QueuesEmpty,
    /// `queues` has more entries than the queue family has queues.
    /// (VUID-VkDeviceQueueCreateInfo-queueCount-00382)
    TooManyQueues,
    /// `queues[index]` is not between 0.0 and 1.0 inclusive.
    /// (VUID-VkDeviceQueueCreateInfo-pQueuePriorities-00383)
    PriorityOutOfRange { index: usize },
}

/// Why a request to a device is refused before anything is handed to Vulkan.
#[derive(Clone, Copy, Debug, PartialEq, Eq)]
pub enum ValidationError {
    /// `queue_create_infos` is empty.
    /// (VUID-VkDeviceCreateInfo-queueCreateInfoCount-arraylength)
    QueueCreateInfosEmpty,
    /// `queue_create_infos[index]` is refused.
    QueueCreateInfo { index: usize, error: QueueCreateInfoError },
    /// `queue_create_infos[index].queue_family_index` occurs more than once in
    /// `queue_create_infos`. (VUID-VkDeviceCreateInfo-queueFamilyIndex-02802)
    QueueFamilyIndexRepeated { index: usize },
    /// `enabled_extensions` cannot be enabled on the physical device.
    /// (VUID-vkCreateDevice-ppEnabledExtensionNames-01387)
    EnabledExtensions(ExtensionRestrictionError),
    /// `enabled_features` contains a feature that the physical device does not support.
    FeatureNotSupported(Feature),
    /// `enabled_extensions` contains both `khr_buffer_device_address` and
    /// `ext_buffer_device_address`. (VUID-VkDeviceCreateInfo-ppEnabledExtensionNames-03328)
    KhrAndExtBufferDeviceAddress,
    /// `enabled_extensions` contains an extension that requires `khr_buffer_device_address`,
    /// and `ext_buffer_device_address`. (VUID-VkDeviceCreateInfo-ppEnabledExtensionNames-03328)
    KhrBufferDeviceAddressDependencyAndExt,
    /// The physical device API version is at least 1.2, `enabled_features` contains
    /// `buffer_device_address`, and `enabled_extensions` contains `ext_buffer_device_address`.
    /// (VUID-VkDeviceCreateInfo-pNext-04748)
    BufferDeviceAddressFeatureAndExt,
    /// `enabled_features` contains both `shading_rate_image` and the given feature.
    /// (VUID-VkDeviceCreateInfo-shadingRateImage-04478, -04479, -04480)
    ShadingRateImageWith(Feature),
    /// `enabled_features` contains both `fragment_density_map` and the given feature.
    /// (VUID-VkDeviceCreateInfo-shadingRateImage-04481, -04482, -04483)
    FragmentDensityMapWith(Feature),
    /// `enabled_features` contains the given sparse image atomics feature, but not the
    /// shader image atomics feature that goes with it.
    /// (VUID-VkDeviceCreateInfo-None-04896, -04897, -04898,
    /// VUID-VkDeviceCreateInfo-sparseImageFloat32AtomicMinMax-04975)
    SparseAtomicsWithoutShaderAtomics(Feature),
    /// `enabled_features` contains `descriptor_buffer`, and `enabled_extensions` contains
    /// `amd_shader_fragment_mask`. (VUID-VkDeviceCreateInfo-None-08095)
    DescriptorBufferAndAmdShaderFragmentMask,
    /// The physical device at `index` in `physical_devices` is in the list more than once.
    /// (VUID-VkDeviceGroupDeviceCreateInfo-pPhysicalDevices-00375)
    PhysicalDeviceRepeated { index: usize },
    /// `physical_devices` has more than one element, but the instance API version is below 1.1
    /// and the instance does not have `khr_device_group_creation`.
    DeviceGroupRequiresApiVersionOrExtension,
    /// The physical devices of `physical_devices` do not all belong to the same device group.
    /// (VUID-VkDeviceGroupDeviceCreateInfo-pPhysicalDevices-00376)
    PhysicalDevicesNotInOneGroup,
    /// `private_data_slot_request_count` is not zero, but the physical device API version is
    /// below 1.3 and `enabled_extensions` does not contain `ext_private_data`.
    PrivateDataRequiresApiVersionOrExtension,
    /// `physical_devices` is not empty, but does not contain the physical device.
    /// (VUID-VkDeviceGroupDeviceCreateInfo-physicalDeviceCount-00377)
    PhysicalDeviceNotInGroupList,
    /// The device extension is not enabled on the device.
    RequiresDeviceExtension(DeviceExtension),
    /// The feature is not enabled on the device.
    RequiresFeature(Feature),
    /// The device API version is below `api_version`, and the extension is not enabled.
    RequiresApiVersionOrDeviceExtension { api_version: Version, extension: DeviceExtension },
    /// `max_primitive_counts[index]` exceeds the `max_primitive_count` limit.
    /// (VUID-VkAccelerationStructureBuildGeometryInfoKHR-type-03795, -03794)
    PrimitiveCountExceedsLimit { index: usize },
    /// `max_primitive_counts[index]` exceeds the `max_instance_count` limit.
    /// (VUID-vkGetAccelerationStructureBuildSizesKHR-pBuildInfo-03785)
    InstanceCountExceedsLimit { index: usize },
    /// `build_info.geometries` and `max_primitive_counts` do not have the same length.
    /// (VUID-vkGetAccelerationStructureBuildSizesKHR-pBuildInfo-03619)
    PrimitiveCountsLengthMismatch,
    /// `create_info.flags` contains `disjoint`, but `plane` is `None`.
    /// (VUID-VkDeviceImageMemoryRequirements-pCreateInfo-06419, -06420)
    DisjointWithoutPlane,
    /// `create_info.tiling` is not `DrmFormatModifier`, but `plane` is not less than the number
    /// of planes of `create_info.format`. (VUID-VkDeviceImageMemoryRequirements-pCreateInfo-06419)
    PlaneNotLessThanFormatPlanes,
    /// `create_info.drm_format_modifiers` has one element, but `plane` is not less than the
    /// number of memory planes of that modifier for the format.
    /// (VUID-VkDeviceImageMemoryRequirements-pCreateInfo-06420)
    PlaneNotLessThanModifierPlanes,
    /// `create_info.flags` does not contain `disjoint`, but `plane` is `Some`.
    PlaneWithoutDisjoint,
    /// `plane` names no plane that an image aspect can select: it is not less than 3 for a
    /// format plane, or not less than 4 for a memory plane of a DRM format modifier.
    PlaneWithoutAspect,
    /// `handle_type` is `OpaqueFd`. (VUID-vkGetMemoryFdPropertiesKHR-handleType-00674)
    OpaqueFdHandleType,
}

} // verus!
