# vulkano_device

The logic of a Vulkan logical device, verified with Verus: what a device may be created
with, what creating it enables along with what was asked for, and what the device queries
check before they reach the driver.

## Layout

- `src/version.rs`: Vulkan versions and their order.
- `src/extensions.rs`: device and instance extensions, their names, their requirements and
  the closure of an extension set under its dependencies.
- `src/features.rs`: device features, their names, and the check against supported ones.
- `src/physical.rs`: what the device logic reads of an instance and a physical device.
- `src/lists.rs`: the small inline lists of physical devices and queue family indices.
- `src/error.rs`: the errors of the checks.
- `src/create_info.rs`: queue and device create infos and their validation.
- `src/device.rs`: the device: creation requests, completion of extensions and features,
  the state made from a driver handle, and the laws that relate these.
- `src/memory.rs`: memory layouts and requirements.
- `src/queries.rs`: the checks and the driver requests of the device queries.
- `app/`: the calls into the Vulkan driver (through `ash`) around the library.
- `tests/`: tests of the library on concrete values.
