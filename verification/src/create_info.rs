use vstd::prelude::*;
use std::sync::Arc;
use crate::error::{QueueCreateInfoError, ValidationError};
use crate::extensions::{
    DeviceExtension, DeviceExtensions, extensions_error, with_dependencies,
};
use crate::features::{Feature, Features, unsupported_feature};
use crate::lists::{PhysicalDeviceList, physical_device_list};
use crate::physical::{PhysicalDevice, same_device_group, same_physical_device};
use crate::version::{Version, version_ge, version_spec};

verus! {

/// Flags for the queues of a queue create info.
#[derive(Clone, Copy, Debug, PartialEq, Eq, Hash)]
pub struct QueueCreateFlags {
    /// The queues are protected-capable.
    pub protected: bool,
}

impl QueueCreateFlags {
    /// No flag.
    pub fn empty() -> (r: QueueCreateFlags)
        ensures
            !r.protected,
    {
        QueueCreateFlags { protected: false }
    }

    /// Whether no flag is set.
    pub fn is_empty(&self) -> (r: bool)
        ensures
            r == !self.protected,
    {
        !self.protected
    }

    /// Checks that the device can use the flags: `protected` needs API version 1.1.
    pub fn validate_device_raw(&self, api_version: Version) -> (r: Result<(), QueueCreateInfoError>)
        ensures
            r is Err <==> self.protected && !version_ge(api_version, version_spec(1, 1)),
            r is Err ==> r == Err::<(), QueueCreateInfoError>(QueueCreateInfoError::ProtectedRequiresApiVersion),
    {
        if self.protected && !api_version.at_least(&Version::v1_1()) {
            return Err(QueueCreateInfoError::ProtectedRequiresApiVersion);
        }
        Ok(())
    }
}

/// The priority 0.5, as the bits of an IEEE-754 single-precision number.
pub open spec fn default_priority() -> u32 {
    0x3F00_0000
}

/// Whether the IEEE-754 single-precision number with bits `bits` is between 0.0 and 1.0
/// inclusive: +0.0 up to 1.0 are the bit patterns 0x0000_0000 to 0x3F80_0000, in the order of
/// their values, and -0.0 (0x8000_0000) compares equal to 0.0. NaNs and every other pattern
/// are outside.
pub open spec fn priority_in_range(bits: u32) -> bool {
    bits <= 0x3F80_0000 || bits == 0x8000_0000
}

/// Parameters to create the queues of one queue family.
#[derive(Clone, Debug)]
pub struct QueueCreateInfo {
    /// Additional properties of the queues.
    pub flags: QueueCreateFlags,
    /// The index of the queue family to create queues for.
    pub queue_family_index: u32,
    /// The queues to create, each by its relative priority between 0.0 and 1.0, given as the
    /// bits of an IEEE-754 single-precision number (`f32::to_bits`).
    pub queues: Vec<u32>,
}

/// The first index, from `i` on, of a priority outside 0.0..=1.0.
pub open spec fn first_priority_out_of_range(priorities: Seq<u32>, i: int) -> Option<int>
    decreases priorities.len() - i,
{
    if i < 0 || i >= priorities.len() {
        None
    } else if !priority_in_range(priorities[i]) {
        Some(i)
    } else {
        first_priority_out_of_range(priorities, i + 1)
    }
}

/// What is wrong with a queue create info for a physical device, in the order the checks
/// are made.
pub open spec fn queue_create_info_error(q: QueueCreateInfo, pd: PhysicalDevice) -> Option<QueueCreateInfoError> {
    if q.flags.protected && !version_ge(pd.api_version, version_spec(1, 1)) {
        Some(QueueCreateInfoError::ProtectedRequiresApiVersion)
    } else if q.queue_family_index >= pd.queue_family_properties@.len() {
        Some(QueueCreateInfoError::QueueFamilyIndexOutOfRange)
    } else if q.queues@.len() == 0 {
        Some(QueueCreateInfoError::QueuesEmpty)
    } else if q.queues@.len() > pd.queue_family_properties@[q.queue_family_index as int].queue_count {
        Some(QueueCreateInfoError::TooManyQueues)
    } else {
        match first_priority_out_of_range(q.queues@, 0) {
            Some(i) => Some(QueueCreateInfoError::PriorityOutOfRange { index: i as usize }),
            None => None,
        }
    }
}

impl QueueCreateInfo {
    /// One queue of family 0, with priority 0.5.
    pub fn default() -> (r: QueueCreateInfo)
        ensures
            !r.flags.protected,
            r.queue_family_index == 0,
            r.queues@ == seq![default_priority()],
    {
        let mut queues = Vec::new();
        queues.push(0x3F00_0000u32);
        QueueCreateInfo { flags: QueueCreateFlags::empty(), queue_family_index: 0, queues }
    }

    /// Checks the queue create info against the physical device.
    pub fn validate(
        &self,
        physical_device: &PhysicalDevice,
        _device_extensions: &DeviceExtensions,
        _device_features: &Features,
    ) -> (r: Result<(), QueueCreateInfoError>)
        ensures
            r == match queue_create_info_error(*self, *physical_device) {
                Some(e) => Err(e),
                None => Ok(()),
            },
    {
        self.flags.validate_device_raw(physical_device.api_version)?;
        let index = self.queue_family_index as usize;
        if index >= physical_device.queue_family_properties.len() {
            return Err(QueueCreateInfoError::QueueFamilyIndexOutOfRange);
        }
        let queue_count = physical_device.queue_family_properties[index].queue_count;
        if self.queues.len() == 0 {
            return Err(QueueCreateInfoError::QueuesEmpty);
        }
        if self.queues.len() > queue_count as usize {
            return Err(QueueCreateInfoError::TooManyQueues);
        }
        let mut i: usize = 0;
        while i < self.queues.len()
            invariant
                i <= self.queues@.len(),
                first_priority_out_of_range(self.queues@, 0) == first_priority_out_of_range(self.queues@, i as int),
                queue_create_info_error(*self, *physical_device) == match first_priority_out_of_range(self.queues@, 0) {
                    Some(k) => Some(QueueCreateInfoError::PriorityOutOfRange { index: k as usize }),
                    None => None,
                },
            decreases self.queues@.len() - i,
        {
            let priority = self.queues[i];
            if !(priority <= 0x3F80_0000u32 || priority == 0x8000_0000u32) {
                return Err(QueueCreateInfoError::PriorityOutOfRange { index: i });
            }
            i = i + 1;
        }
        Ok(())
    }
}

/// Parameters to create a device.
#[derive(Clone, Debug)]
pub struct DeviceCreateInfo {
    /// The queues to create for the device; must not be empty.
    pub queue_create_infos: Vec<QueueCreateInfo>,
    /// The extensions to enable on the device. Extensions that these depend on are enabled
    /// along, and `khr_portability_subset` is enabled whenever the physical device supports it.
    pub enabled_extensions: DeviceExtensions,
    /// The features to enable on the device. Features that the enabled extensions and
    /// features need are enabled along.
    pub enabled_features: Features,
    /// The physical devices of a device group to create the device from. Empty means the
    /// physical device alone; otherwise the list must contain it.
    pub physical_devices: PhysicalDeviceList,
    /// The number of private data slots to reserve when creating the device.
    pub private_data_slot_request_count: u32,
}

/// Whether another queue create info than `qs[i]` has the same queue family index.
pub open spec fn family_repeated(qs: Seq<QueueCreateInfo>, i: int) -> bool {
    exists|j: int| 0 <= j < qs.len() && j != i && #[trigger] qs[j].queue_family_index == qs[i].queue_family_index
}

/// The first problem of the queue create infos from index `i` on: a refused info, or a queue
/// family index that occurs twice.
pub open spec fn queue_infos_error_from(qs: Seq<QueueCreateInfo>, i: int, pd: PhysicalDevice) -> Option<ValidationError>
    decreases qs.len() - i,
{
    if i < 0 || i >= qs.len() {
        None
    } else {
        match queue_create_info_error(qs[i], pd) {
            Some(e) => Some(ValidationError::QueueCreateInfo { index: i as usize, error: e }),
            None => if family_repeated(qs, i) {
                Some(ValidationError::QueueFamilyIndexRepeated { index: i as usize })
            } else {
                queue_infos_error_from(qs, i + 1, pd)
            },
        }
    }
}

/// Whether an earlier physical device of `pds` than `pds[i]` is the same physical device.
pub open spec fn physical_device_repeated(pds: Seq<Arc<PhysicalDevice>>, i: int) -> bool {
    exists|j: int| 0 <= j < i && #[trigger] same_physical_device(*pds[j], *pds[i])
}

/// The first index, from `i` on, of a physical device that occurs earlier in `pds`.
pub open spec fn first_repeated_physical_device(pds: Seq<Arc<PhysicalDevice>>, i: int) -> Option<int>
    decreases pds.len() - i,
{
    if i < 0 || i >= pds.len() {
        None
    } else if physical_device_repeated(pds, i) {
        Some(i)
    } else {
        first_repeated_physical_device(pds, i + 1)
    }
}

/// The raw handles of physical devices.
pub open spec fn handles_of(pds: Seq<Arc<PhysicalDevice>>) -> Seq<u64> {
    pds.map_values(|p: Arc<PhysicalDevice>| p.handle)
}

/// The checks on enabled features that pair up features, in order.
pub open spec fn feature_combination_error(f: Features) -> Option<ValidationError> {
    if f.shading_rate_image && f.pipeline_fragment_shading_rate {
        Some(ValidationError::ShadingRateImageWith(Feature::PipelineFragmentShadingRate))
    } else if f.shading_rate_image && f.primitive_fragment_shading_rate {
        Some(ValidationError::ShadingRateImageWith(Feature::PrimitiveFragmentShadingRate))
    } else if f.shading_rate_image && f.attachment_fragment_shading_rate {
        Some(ValidationError::ShadingRateImageWith(Feature::AttachmentFragmentShadingRate))
    } else if f.fragment_density_map && f.pipeline_fragment_shading_rate {
        Some(ValidationError::FragmentDensityMapWith(Feature::PipelineFragmentShadingRate))
    } else if f.fragment_density_map && f.primitive_fragment_shading_rate {
        Some(ValidationError::FragmentDensityMapWith(Feature::PrimitiveFragmentShadingRate))
    } else if f.fragment_density_map && f.attachment_fragment_shading_rate {
        Some(ValidationError::FragmentDensityMapWith(Feature::AttachmentFragmentShadingRate))
    } else if f.sparse_image_int64_atomics && !f.shader_image_int64_atomics {
        Some(ValidationError::SparseAtomicsWithoutShaderAtomics(Feature::SparseImageInt64Atomics))
    } else if f.sparse_image_float32_atomics && !f.shader_image_float32_atomics {
        Some(ValidationError::SparseAtomicsWithoutShaderAtomics(Feature::SparseImageFloat32Atomics))
    } else if f.sparse_image_float32_atomic_add && !f.shader_image_float32_atomic_add {
        Some(ValidationError::SparseAtomicsWithoutShaderAtomics(Feature::SparseImageFloat32AtomicAdd))
    } else if f.sparse_image_float32_atomic_min_max && !f.shader_image_float32_atomic_min_max {
        Some(ValidationError::SparseAtomicsWithoutShaderAtomics(Feature::SparseImageFloat32AtomicMinMax))
    } else {
        None
    }
}

/// The checks on `ext_buffer_device_address`, in order.
pub open spec fn buffer_device_address_error(ci: DeviceCreateInfo, pd: PhysicalDevice) -> Option<ValidationError> {
    let ext = ci.enabled_extensions;
    let deps = with_dependencies(ext, pd.api_version, pd.supported_extensions);
    if ext.ext_buffer_device_address && ext.khr_buffer_device_address {
        Some(ValidationError::KhrAndExtBufferDeviceAddress)
    } else if ext.ext_buffer_device_address && deps.khr_buffer_device_address {
        Some(ValidationError::KhrBufferDeviceAddressDependencyAndExt)
    } else if ext.ext_buffer_device_address && version_ge(pd.api_version, version_spec(1, 2))
        && ci.enabled_features.buffer_device_address {
        Some(ValidationError::BufferDeviceAddressFeatureAndExt)
    } else {
        None
    }
}

/// The checks on a device group, in order; they apply when `physical_devices` holds more
/// than one physical device.
pub open spec fn device_group_error(ci: DeviceCreateInfo, pd: PhysicalDevice) -> Option<ValidationError> {
    let pds = physical_device_list(ci.physical_devices);
    if pds.len() <= 1 {
        None
    } else {
        match first_repeated_physical_device(pds, 0) {
            Some(i) => Some(ValidationError::PhysicalDeviceRepeated { index: i as usize }),
            None => if !(version_ge(pd.instance.api_version, version_spec(1, 1))
                || pd.instance.enabled_extensions.khr_device_group_creation) {
                Some(ValidationError::DeviceGroupRequiresApiVersionOrExtension)
            } else if !same_device_group(pd.instance.physical_device_groups@, handles_of(pds)) {
                Some(ValidationError::PhysicalDevicesNotInOneGroup)
            } else {
                None
            },
        }
    }
}

/// What is wrong with a device create info for a physical device, in the order the checks
/// are made; `None` when it is valid.
pub open spec fn device_create_info_error(ci: DeviceCreateInfo, pd: PhysicalDevice) -> Option<ValidationError> {
    let qs = ci.queue_create_infos@;
    if qs.len() == 0 {
        Some(ValidationError::QueueCreateInfosEmpty)
    } else if queue_infos_error_from(qs, 0, pd) is Some {
        queue_infos_error_from(qs, 0, pd)
    } else if extensions_error(
        ci.enabled_extensions,
        pd.supported_extensions,
        pd.api_version,
        pd.instance.enabled_extensions,
    ) is Some {
        Some(ValidationError::EnabledExtensions(extensions_error(
            ci.enabled_extensions,
            pd.supported_extensions,
            pd.api_version,
            pd.instance.enabled_extensions,
        ).unwrap()))
    } else if unsupported_feature(ci.enabled_features, pd.supported_features) is Some {
        Some(ValidationError::FeatureNotSupported(unsupported_feature(ci.enabled_features, pd.supported_features).unwrap()))
    } else if buffer_device_address_error(ci, pd) is Some {
        buffer_device_address_error(ci, pd)
    } else if feature_combination_error(ci.enabled_features) is Some {
        feature_combination_error(ci.enabled_features)
    } else if ci.enabled_features.descriptor_buffer && ci.enabled_extensions.amd_shader_fragment_mask {
        Some(ValidationError::DescriptorBufferAndAmdShaderFragmentMask)
    } else if device_group_error(ci, pd) is Some {
        device_group_error(ci, pd)
    } else if ci.private_data_slot_request_count != 0 && !(version_ge(pd.api_version, version_spec(1, 3))
        || ci.enabled_extensions.ext_private_data) {
        Some(ValidationError::PrivateDataRequiresApiVersionOrExtension)
    } else {
        None
    }
}

impl DeviceCreateInfo {
    /// No queue, extension, feature, physical device list or private data slot.
    pub fn default() -> (r: DeviceCreateInfo)
        ensures
            r.queue_create_infos@.len() == 0,
            forall|e: DeviceExtension| !#[trigger] r.enabled_extensions.spec_contains(e),
            forall|f: Feature| !#[trigger] r.enabled_features.spec_contains(f),
            physical_device_list(r.physical_devices).len() == 0,
            r.private_data_slot_request_count == 0,
    {
        DeviceCreateInfo {
            queue_create_infos: Vec::new(),
            enabled_extensions: DeviceExtensions::empty(),
            enabled_features: Features::empty(),
            physical_devices: PhysicalDeviceList::new(),
            private_data_slot_request_count: 0,
        }
    }

    /// Checks the queue create infos, in order: each must be valid and have a queue family
    /// index that no other has.
    fn validate_queue_create_infos(&self, physical_device: &PhysicalDevice) -> (r: Result<(), ValidationError>)
        ensures
            r == match queue_infos_error_from(self.queue_create_infos@, 0, *physical_device) {
                Some(e) => Err(e),
                None => Ok(()),
            },
    {
        let qs = &self.queue_create_infos;
        let mut i: usize = 0;
        while i < qs.len()
            invariant
                i <= qs@.len(),
                qs@ == self.queue_create_infos@,
                queue_infos_error_from(qs@, 0, *physical_device) == queue_infos_error_from(qs@, i as int, *physical_device),
            decreases qs@.len() - i,
        {
            match qs[i].validate(physical_device, &self.enabled_extensions, &self.enabled_features) {
                Err(e) => {
                    assert(queue_create_info_error(qs@[i as int], *physical_device) == Some(e));
                    assert(queue_infos_error_from(qs@, i as int, *physical_device) == Some(ValidationError::QueueCreateInfo { index: i, error: e }));
                    return Err(ValidationError::QueueCreateInfo { index: i, error: e });
                },
                Ok(()) => {},
            }
            let family = qs[i].queue_family_index;
            let mut repeated = false;
            let mut j: usize = 0;
            while j < qs.len()
                invariant
                    j <= qs@.len(),
                    i < qs@.len(),
                    family == qs@[i as int].queue_family_index,
                    repeated == exists|k: int| 0 <= k < j && k != i && #[trigger] qs@[k].queue_family_index == family,
                decreases qs@.len() - j,
            {
                if j != i && qs[j].queue_family_index == family {
                    repeated = true;
                }
                j = j + 1;
            }
            if repeated {
                assert(family_repeated(qs@, i as int));
                return Err(ValidationError::QueueFamilyIndexRepeated { index: i });
            }
            i = i + 1;
        }
        Ok(())
    }

    /// Checks the pairs of features that must not, or must, be enabled together.
    fn validate_feature_combinations(&self) -> (r: Result<(), ValidationError>)
        ensures
            r is Ok ==> {
                &&& !(self.enabled_features.shading_rate_image && (self.enabled_features.pipeline_fragment_shading_rate || self.enabled_features.primitive_fragment_shading_rate
                        || self.enabled_features.attachment_fragment_shading_rate))
                &&& !(self.enabled_features.fragment_density_map && (self.enabled_features.pipeline_fragment_shading_rate || self.enabled_features.primitive_fragment_shading_rate
                        || self.enabled_features.attachment_fragment_shading_rate))
                &&& self.enabled_features.sparse_image_int64_atomics ==> self.enabled_features.shader_image_int64_atomics
                &&& self.enabled_features.sparse_image_float32_atomics ==> self.enabled_features.shader_image_float32_atomics
                &&& self.enabled_features.sparse_image_float32_atomic_add ==> self.enabled_features.shader_image_float32_atomic_add
                &&& self.enabled_features.sparse_image_float32_atomic_min_max ==> self.enabled_features.shader_image_float32_atomic_min_max
            },
            r == match feature_combination_error(self.enabled_features) {
                Some(e) => Err(e),
                None => Ok(()),
            },
    {
        let f = &self.enabled_features;
        if f.shading_rate_image {
            if f.pipeline_fragment_shading_rate {
                return Err(ValidationError::ShadingRateImageWith(Feature::PipelineFragmentShadingRate));
            }
            if f.primitive_fragment_shading_rate {
                return Err(ValidationError::ShadingRateImageWith(Feature::PrimitiveFragmentShadingRate));
            }
            if f.attachment_fragment_shading_rate {
                return Err(ValidationError::ShadingRateImageWith(Feature::AttachmentFragmentShadingRate));
            }
        }
        if f.fragment_density_map {
            if f.pipeline_fragment_shading_rate {
                return Err(ValidationError::FragmentDensityMapWith(Feature::PipelineFragmentShadingRate));
            }
            if f.primitive_fragment_shading_rate {
                return Err(ValidationError::FragmentDensityMapWith(Feature::PrimitiveFragmentShadingRate));
            }
            if f.attachment_fragment_shading_rate {
                return Err(ValidationError::FragmentDensityMapWith(Feature::AttachmentFragmentShadingRate));
            }
        }
        if f.sparse_image_int64_atomics && !f.shader_image_int64_atomics {
            return Err(ValidationError::SparseAtomicsWithoutShaderAtomics(Feature::SparseImageInt64Atomics));
        }
        if f.sparse_image_float32_atomics && !f.shader_image_float32_atomics {
            return Err(ValidationError::SparseAtomicsWithoutShaderAtomics(Feature::SparseImageFloat32Atomics));
        }
        if f.sparse_image_float32_atomic_add && !f.shader_image_float32_atomic_add {
            return Err(ValidationError::SparseAtomicsWithoutShaderAtomics(Feature::SparseImageFloat32AtomicAdd));
        }
        if f.sparse_image_float32_atomic_min_max && !f.shader_image_float32_atomic_min_max {
            return Err(ValidationError::SparseAtomicsWithoutShaderAtomics(Feature::SparseImageFloat32AtomicMinMax));
        }
        Ok(())
    }

    /// Checks the device group: no physical device twice, instance support, one group.
    fn validate_device_group(&self, physical_device: &PhysicalDevice) -> (r: Result<(), ValidationError>)
        ensures
            r == match device_group_error(*self, *physical_device) {
                Some(e) => Err(e),
                None => Ok(()),
            },
    {
        let pds = self.physical_devices.as_slice();
        if pds.len() <= 1 {
            return Ok(());
        }
        let mut index: usize = 0;
        while index < pds.len()
            invariant
                index <= pds@.len(),
                pds@ == physical_device_list(self.physical_devices),
                first_repeated_physical_device(pds@, 0) == first_repeated_physical_device(pds@, index as int),
            decreases pds@.len() - index,
        {
            let handle = pds[index].handle;
            let instance_handle = pds[index].instance.handle;
            let mut j: usize = 0;
            let mut repeated = false;
            while j < index
                invariant
                    j <= index < pds@.len(),
                    handle == pds@[index as int].handle,
                    instance_handle == pds@[index as int].instance.handle,
                    repeated == exists|k: int| 0 <= k < j && #[trigger] same_physical_device(*pds@[k], *pds@[index as int]),
                decreases index - j,
            {
                assert(same_physical_device(*pds@[j as int], *pds@[index as int])
                    == (pds@[j as int].handle == handle && pds@[j as int].instance.handle == instance_handle));
                if pds[j].handle == handle && pds[j].instance.handle == instance_handle {
                    repeated = true;
                }
                j = j + 1;
            }
            if repeated {
                return Err(ValidationError::PhysicalDeviceRepeated { index });
            }
            index = index + 1;
        }
        let instance = &physical_device.instance;
        if !(instance.api_version.at_least(&Version::v1_1())
            || instance.enabled_extensions.khr_device_group_creation) {
            return Err(ValidationError::DeviceGroupRequiresApiVersionOrExtension);
        }
        let mut handles: Vec<u64> = Vec::new();
        let mut k: usize = 0;
        while k < pds.len()
            invariant
                k <= pds@.len(),
                handles@ == handles_of(pds@).take(k as int),
            decreases pds@.len() - k,
        {
            handles.push(pds[k].handle);
            k = k + 1;
            assert(handles@ =~= handles_of(pds@).take(k as int));
        }
        assert(handles@ =~= handles_of(pds@));
        if !instance.is_same_device_group(handles.as_slice()) {
            return Err(ValidationError::PhysicalDevicesNotInOneGroup);
        }
        Ok(())
    }

    /// Checks the device create info against the physical device: the checks are made in
    /// the order of `device_create_info_error`, and the first that fails is returned.
    pub fn validate(&self, physical_device: &PhysicalDevice) -> (r: Result<(), ValidationError>)
        ensures
            r is Ok ==> {
                &&& !(self.enabled_features.shading_rate_image && (self.enabled_features.pipeline_fragment_shading_rate || self.enabled_features.primitive_fragment_shading_rate
                        || self.enabled_features.attachment_fragment_shading_rate))
                &&& !(self.enabled_features.fragment_density_map && (self.enabled_features.pipeline_fragment_shading_rate || self.enabled_features.primitive_fragment_shading_rate
                        || self.enabled_features.attachment_fragment_shading_rate))
                &&& self.enabled_features.sparse_image_int64_atomics ==> self.enabled_features.shader_image_int64_atomics
                &&& self.enabled_features.sparse_image_float32_atomics ==> self.enabled_features.shader_image_float32_atomics
                &&& self.enabled_features.sparse_image_float32_atomic_add ==> self.enabled_features.shader_image_float32_atomic_add
                &&& self.enabled_features.sparse_image_float32_atomic_min_max ==> self.enabled_features.shader_image_float32_atomic_min_max
            },
            r == match device_create_info_error(*self, *physical_device) {
                Some(e) => Err(e),
                None => Ok(()),
            },
    {
        if self.queue_create_infos.len() == 0 {
            return Err(ValidationError::QueueCreateInfosEmpty);
        }
        self.validate_queue_create_infos(physical_device)?;
        match self.enabled_extensions.check_requirements(
            &physical_device.supported_extensions,
            physical_device.api_version,
            &physical_device.instance.enabled_extensions,
        ) {
            Err(e) => {
                return Err(ValidationError::EnabledExtensions(e));
            },
            Ok(()) => {},
        }
        match self.enabled_features.check_requirements(&physical_device.supported_features) {
            Err(f) => {
                return Err(ValidationError::FeatureNotSupported(f));
            },
            Ok(()) => {},
        }
        let mut dependency_extensions = self.enabled_extensions;
        dependency_extensions.enable_dependencies(
            physical_device.api_version,
            &physical_device.supported_extensions,
        );
        let ext = &self.enabled_extensions;
        if ext.ext_buffer_device_address {
            if ext.khr_buffer_device_address {
                return Err(ValidationError::KhrAndExtBufferDeviceAddress);
            } else if dependency_extensions.khr_buffer_device_address {
                return Err(ValidationError::KhrBufferDeviceAddressDependencyAndExt);
            }
            if physical_device.api_version.at_least(&Version::v1_2())
                && self.enabled_features.buffer_device_address {
                return Err(ValidationError::BufferDeviceAddressFeatureAndExt);
            }
        }
        self.validate_feature_combinations()?;
        if self.enabled_features.descriptor_buffer && ext.amd_shader_fragment_mask {
            return Err(ValidationError::DescriptorBufferAndAmdShaderFragmentMask);
        }
        self.validate_device_group(physical_device)?;
        if self.private_data_slot_request_count != 0 && !(physical_device.api_version.at_least(&Version::v1_3())
            || ext.ext_private_data) {
            return Err(ValidationError::PrivateDataRequiresApiVersionOrExtension);
        }
        Ok(())
    }
}

} // verus!
