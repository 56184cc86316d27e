use vstd::prelude::*;
use std::sync::Arc;
use crate::extensions::{DeviceExtensions, InstanceExtensions};
use crate::features::Features;
use crate::version::Version;
use vstd::std_specs::cmp::PartialEqSpecImpl;

verus! {

/// What the device logic reads of a Vulkan instance.
#[derive(Clone, Debug)]
pub struct Instance {
    /// The raw Vulkan handle.
    pub handle: u64,
    /// The API version of the instance.
    pub api_version: Version,
    /// The extensions enabled on the instance.
    pub enabled_extensions: InstanceExtensions,
    /// The physical device groups of the instance, each a list of raw physical device handles.
    pub physical_device_groups: Vec<Vec<u64>>,
}

/// Whether `handles` all belong to one of `groups`.
pub open spec fn same_device_group(groups: Seq<Vec<u64>>, handles: Seq<u64>) -> bool {
    exists|g: int| 0 <= g < groups.len() && #[trigger] contains_all(groups[g]@, handles)
}

/// Whether every element of `handles` is in `group`.
pub open spec fn contains_all(group: Seq<u64>, handles: Seq<u64>) -> bool {
    forall|i: int| 0 <= i < handles.len() ==> #[trigger] group.contains(handles[i])
}

impl Instance {
    /// Returns whether the physical devices with the given raw handles all belong to one
    /// physical device group of the instance.
    pub fn is_same_device_group(&self, handles: &[u64]) -> (r: bool)
        ensures
            r == same_device_group(self.physical_device_groups@, handles@),
    {
        let mut g: usize = 0;
        while g < self.physical_device_groups.len()
            invariant
                g <= self.physical_device_groups@.len(),
                forall|k: int| 0 <= k < g ==> !#[trigger] contains_all(self.physical_device_groups@[k]@, handles@),
            decreases self.physical_device_groups@.len() - g,
        {
            let group = &self.physical_device_groups[g];
            let mut all_in = true;
            let mut i: usize = 0;
            while i < handles.len()
                invariant
                    i <= handles@.len(),
                    group == self.physical_device_groups@[g as int],
                    all_in == forall|j: int| 0 <= j < i ==> #[trigger] group@.contains(handles@[j]),
                decreases handles@.len() - i,
            {
                let mut found = false;
                let mut k: usize = 0;
                while k < group.len()
                    invariant
                        k <= group@.len(),
                        i < handles@.len(),
                        found == exists|m: int| 0 <= m < k && group@[m] == handles@[i as int],
                    decreases group@.len() - k,
                {
                    if group[k] == handles[i] {
                        found = true;
                    }
                    k = k + 1;
                }
                assert(found == group@.contains(handles@[i as int]));
                all_in = all_in && found;
                i = i + 1;
            }
            if all_in {
                assert(contains_all(self.physical_device_groups@[g as int]@, handles@));
                return true;
            }
            g = g + 1;
        }
        false
    }
}

/// What the device logic reads of a queue family of a physical device.
#[derive(Clone, Copy, Debug, PartialEq, Eq)]
pub struct QueueFamilyProperties {
    /// The number of queues in the family.
    pub queue_count: u32,
}

/// The limits of a physical device that the device logic reads.
#[derive(Clone, Copy, Debug, PartialEq, Eq)]
pub struct Properties {
    /// The most primitives in one acceleration structure geometry, if the device reports it.
    pub max_primitive_count: Option<u64>,
    /// The most instances in one acceleration structure, if the device reports it.
    pub max_instance_count: Option<u64>,
}

/// A format, by its Vulkan code and the number of its planes.
#[derive(Clone, Copy, Debug, PartialEq, Eq, Hash)]
pub struct Format {
    /// The Vulkan code of the format.
    pub code: u32,
    /// The number of planes of the format (1 for a single-plane format).
    pub plane_count: u32,
}

/// The properties of a DRM format modifier for a format.
#[derive(Clone, Copy, Debug, PartialEq, Eq)]
pub struct DrmFormatModifierProperties {
    /// The modifier.
    pub drm_format_modifier: u64,
    /// The number of memory planes of an image with this modifier.
    pub drm_format_modifier_plane_count: u32,
}

/// The DRM format modifiers that a physical device supports for a format.
#[derive(Clone, Debug)]
pub struct FormatProperties {
    /// The format the properties are for.
    pub format: Format,
    /// The supported modifiers.
    pub drm_format_modifier_properties: Vec<DrmFormatModifierProperties>,
}

/// What the device logic reads of a physical device.
#[derive(Clone, Debug)]
pub struct PhysicalDevice {
    /// The raw Vulkan handle.
    pub handle: u64,
    /// The instance the physical device belongs to.
    pub instance: Arc<Instance>,
    /// The API version that the physical device supports, capped by the instance's maximum.
    pub api_version: Version,
    /// The device extensions that the physical device supports.
    pub supported_extensions: DeviceExtensions,
    /// The features that the physical device supports.
    pub supported_features: Features,
    /// The queue families of the physical device.
    pub queue_family_properties: Vec<QueueFamilyProperties>,
    /// The limits of the physical device.
    pub properties: Properties,
    /// The DRM format modifier support of the physical device, per format.
    pub format_properties: Vec<FormatProperties>,
}

/// The DRM format modifier properties that `pd` lists for `format`: those of the first entry
/// for the format, or none.
pub open spec fn drm_modifier_properties_of(pd: PhysicalDevice, format: Format) -> Seq<DrmFormatModifierProperties> {
    let fps = pd.format_properties@;
    if exists|k: int| 0 <= k < fps.len() && #[trigger] fps[k].format.code == format.code {
        let k = choose|k: int| 0 <= k < fps.len() && #[trigger] fps[k].format.code == format.code
            && forall|m: int| 0 <= m < k ==> fps[m].format.code != format.code;
        fps[k].drm_format_modifier_properties@
    } else {
        Seq::empty()
    }
}

impl PhysicalDevice {
    /// The DRM format modifier properties of `format`: those of the first entry for the
    /// format, or none.
    pub fn drm_format_modifier_properties(&self, format: Format) -> (r: &[DrmFormatModifierProperties])
        ensures
            r@ == drm_modifier_properties_of(*self, format),
    {
        let mut k: usize = 0;
        while k < self.format_properties.len()
            invariant
                k <= self.format_properties@.len(),
                forall|m: int| 0 <= m < k ==> self.format_properties@[m].format.code != format.code,
            decreases self.format_properties@.len() - k,
        {
            if self.format_properties[k].format.code == format.code {
                let ghost fps = self.format_properties@;
                assert(0 <= k < fps.len() && fps[k as int].format.code == format.code
                    && forall|m: int| 0 <= m < k ==> fps[m].format.code != format.code);
                proof {
                    let c = choose|c: int| 0 <= c < fps.len() && #[trigger] fps[c].format.code == format.code
                        && forall|m: int| 0 <= m < c ==> fps[m].format.code != format.code;
                    assert(c == k) by {
                        if c < k {
                            assert(fps[c].format.code != format.code);
                        } else if c > k {
                            assert(fps[k as int].format.code != format.code);
                        }
                    }
                }
                return self.format_properties[k].drm_format_modifier_properties.as_slice();
            }
            k = k + 1;
        }
        &[]
    }
}

/// Whether `a` and `b` are the same physical device: the same handle, of the same instance.
pub open spec fn same_physical_device(a: PhysicalDevice, b: PhysicalDevice) -> bool {
    a.handle == b.handle && a.instance.handle == b.instance.handle
}

impl PartialEq for PhysicalDevice {
    fn eq(&self, other: &Self) -> (r: bool) {
        self.handle == other.handle && self.instance.handle == other.instance.handle
    }
}

impl PartialEqSpecImpl for PhysicalDevice {
    open spec fn obeys_eq_spec() -> bool {
        true
    }

    open spec fn eq_spec(&self, other: &Self) -> bool {
        same_physical_device(*self, *other)
    }
}

} // verus!
