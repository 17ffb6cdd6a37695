//! Device selection: the physical device, its graphics and present queue
//! families, the memory type for an allocation and the depth format.
//!
//! The caller queries the device and hands the answers over as plain values.

use vstd::prelude::*;

verus! {

/// Queue capability bit: graphics.
pub const QUEUE_GRAPHICS: u32 = 0x1;

/// Raw value of optimal image tiling.
pub const IMAGE_TILING_OPTIMAL: i32 = 0;

/// Raw value of linear image tiling.
pub const IMAGE_TILING_LINEAR: i32 = 1;

/// Memory property bit: device local.
pub const MEMORY_DEVICE_LOCAL: u32 = 0x1;

/// Memory property bit: visible to the host.
pub const MEMORY_HOST_VISIBLE: u32 = 0x2;

/// Memory property bit: coherent between host and device.
pub const MEMORY_HOST_COHERENT: u32 = 0x4;

/// Format feature bit: usable as depth-stencil attachment.
pub const FORMAT_FEATURE_DEPTH_STENCIL_ATTACHMENT: u32 = 0x200;

/// Raw value of the 32-bit float depth format.
pub const FORMAT_D32_SFLOAT: i32 = 126;

/// Raw value of the 32-bit float depth, 8-bit stencil format.
pub const FORMAT_D32_SFLOAT_S8_UINT: i32 = 130;

/// Raw value of the 24-bit depth, 8-bit stencil format.
pub const FORMAT_D24_UNORM_S8_UINT: i32 = 129;

/// Number of queue family indices that are selected.
pub const QUEUE_FAMILY_INDICES: usize = 2;

/// Number of memory types a device can report.
pub const MAX_MEMORY_TYPES: usize = 32;

/// Whether every bit of `required` is set in `flags`.
pub open spec fn has_all(flags: u32, required: u32) -> bool {
    flags & required == required
}

/// Whether every bit of `required` is set in `flags`.
pub fn contains(flags: u32, required: u32) -> (r: bool)
    ensures
        r == has_all(flags, required),
{
    flags & required == required
}

/// Asks `ash::vk::QueueFlags::contains` whether the capabilities `flags`
/// include all of `required`. The method compares the bits the two have in
/// common with `required`; both numbers are handed to it unchanged.
#[verifier::external_body]
fn queue_flags_contain(flags: u32, required: u32) -> (r: bool)
    ensures
        r == has_all(flags, required),
{
    ash::vk::QueueFlags::from_raw(flags).contains(ash::vk::QueueFlags::from_raw(required))
}

/// Asks `ash::vk::MemoryPropertyFlags::contains` whether the properties
/// `flags` include all of `required`. The method compares the bits the two
/// have in common with `required`; both numbers are handed to it unchanged.
#[verifier::external_body]
fn memory_flags_contain(flags: u32, required: u32) -> (r: bool)
    ensures
        r == has_all(flags, required),
{
    ash::vk::MemoryPropertyFlags::from_raw(flags).contains(
        ash::vk::MemoryPropertyFlags::from_raw(required),
    )
}

/// One queue family of a physical device, and whether it can present to the
/// surface.
#[derive(Clone, Copy, PartialEq, Eq, Structural, Debug)]
pub struct QueueFamily {
    pub queue_count: u32,
    pub queue_flags: u32,
    pub present_support: bool,
}

impl QueueFamily {
    /// The family has a queue and can run graphics work.
    pub open spec fn graphics(self) -> bool {
        self.queue_count > 0 && has_all(self.queue_flags, QUEUE_GRAPHICS)
    }

    /// The family has a queue and can present to the surface.
    pub open spec fn presents(self) -> bool {
        self.queue_count > 0 && self.present_support
    }

    /// The family can do both.
    pub open spec fn combined(self) -> bool {
        self.graphics() && self.presents()
    }

    /// The family can do what `need` asks for.
    pub open spec fn meets(self, need: Need) -> bool {
        match need {
            Need::Graphics => self.graphics(),
            Need::Present => self.presents(),
            Need::Both => self.combined(),
        }
    }

    /// Whether the family has a queue and can run graphics work.
    pub fn supports_graphics(&self) -> (r: bool)
        ensures
            r == self.graphics(),
    {
        self.queue_count > 0 && queue_flags_contain(self.queue_flags, QUEUE_GRAPHICS)
    }

    /// Whether the family has a queue and can present to the surface.
    pub fn supports_present(&self) -> (r: bool)
        ensures
            r == self.presents(),
    {
        self.queue_count > 0 && self.present_support
    }
}

/// A physical device as enumerated, with its queue families in index order.
pub struct PhysicalDevice {
    pub handle: u64,
    pub families: Vec<QueueFamily>,
}

/// Why no device and queue families could be selected.
#[derive(Clone, Copy, PartialEq, Eq, Structural, Debug)]
pub enum SelectionError {
    /// No physical device was enumerated.
    NoDevice,
    /// No queue family of the device can present to the surface.
    NoPresentFamily,
    /// Some family can present, but none can run graphics work.
    NoGraphicsFamily,
}

/// The graphics and the present queue family that were selected.
#[derive(Clone, Copy, PartialEq, Eq, Structural, Debug)]
pub struct QueueFamilyIndices {
    pub graphics: u32,
    pub present: u32,
}

/// What is asked of a queue family.
#[derive(Clone, Copy, PartialEq, Eq, Structural, Debug)]
pub enum Need {
    Graphics,
    Present,
    Both,
}

/// Whether `index` is the first family that meets `need`.
pub open spec fn is_first(families: Seq<QueueFamily>, need: Need, index: int) -> bool {
    &&& 0 <= index < families.len()
    &&& families[index].meets(need)
    &&& forall|j: int| 0 <= j < index ==> !(#[trigger] families[j]).meets(need)
}

/// Whether some family meets `need`.
pub open spec fn any_family(families: Seq<QueueFamily>, need: Need) -> bool {
    exists|j: int| 0 <= j < families.len() && (#[trigger] families[j]).meets(need)
}

/// What selecting the queue families of one device has to return.
///
/// A family that can do both graphics and presentation is used for both, the
/// first such family; where there is none, the first graphics family and the
/// first presenting family. Where no family presents, or none does graphics,
/// there is nothing to select.
pub open spec fn selects(
    families: Seq<QueueFamily>,
    result: Result<QueueFamilyIndices, SelectionError>,
) -> bool {
    match result {
        Ok(indices) => {
            if any_family(families, Need::Both) {
                &&& indices.graphics == indices.present
                &&& is_first(families, Need::Both, indices.graphics as int)
            } else {
                &&& is_first(families, Need::Graphics, indices.graphics as int)
                &&& is_first(families, Need::Present, indices.present as int)
            }
        },
        Err(SelectionError::NoPresentFamily) => !any_family(families, Need::Present),
        Err(SelectionError::NoGraphicsFamily) => {
            &&& any_family(families, Need::Present)
            &&& !any_family(families, Need::Graphics)
        },
        Err(SelectionError::NoDevice) => false,
    }
}

/// Index of the first family that meets `need`.
fn first_family(families: &[QueueFamily], need: Need) -> (found: Option<u32>)
    requires
        families@.len() <= u32::MAX,
    ensures
        match found {
            Some(index) => is_first(families@, need, index as int),
            None => !any_family(families@, need),
        },
{
    let mut i: usize = 0;
    while i < families.len()
        invariant
            i <= families@.len(),
            families@.len() <= u32::MAX,
            forall|j: int| 0 <= j < i ==> !(#[trigger] families@[j]).meets(need),
        decreases families@.len() - i,
    {
        let family = &families[i];
        let meets = match need {
            Need::Graphics => family.supports_graphics(),
            Need::Present => family.supports_present(),
            Need::Both => family.supports_graphics() && family.supports_present(),
        };
        if meets {
            return Some(i as u32);
        }
        i = i + 1;
    }
    None
}

/// Selects the graphics and the present queue family of one device.
pub fn select_queue_families(families: &[QueueFamily]) -> (result: Result<
    QueueFamilyIndices,
    SelectionError,
>)
    requires
        families@.len() <= u32::MAX,
    ensures
        selects(families@, result),
{
    match first_family(families, Need::Both) {
        Some(index) => Ok(QueueFamilyIndices { graphics: index, present: index }),
        None => match first_family(families, Need::Present) {
            None => Err(SelectionError::NoPresentFamily),
            Some(present) => match first_family(families, Need::Graphics) {
                None => Err(SelectionError::NoGraphicsFamily),
                Some(graphics) => Ok(QueueFamilyIndices { graphics, present }),
            },
        },
    }
}

/// Selects the first enumerated physical device, and its graphics and present
/// queue families.
pub fn get_physical_device_and_queue_family_indices(devices: &[PhysicalDevice]) -> (result:
    Result<(u64, QueueFamilyIndices), SelectionError>)
    requires
        forall|i: int| 0 <= i < devices@.len() ==> devices@[i].families@.len() <= u32::MAX,
    ensures
        devices@.len() == 0 <==> result == Err::<(u64, QueueFamilyIndices), _>(
            SelectionError::NoDevice,
        ),
        devices@.len() > 0 ==> match result {
            Ok((handle, indices)) => handle == devices@[0].handle && selects(
                devices@[0].families@,
                Ok(indices),
            ),
            Err(error) => selects(devices@[0].families@, Err(error)),
        },
{
    if devices.len() == 0 {
        return Err(SelectionError::NoDevice);
    }
    let device = &devices[0];
    match select_queue_families(device.families.as_slice()) {
        Ok(indices) => Ok((device.handle, indices)),
        Err(error) => Err(error),
    }
}

/// One queue to create and fetch.
#[derive(Clone, Copy, PartialEq, Eq, Structural, Debug)]
pub struct QueueRequest {
    pub family_index: u32,
    pub queue_index: u32,
    pub queue_count: u32,
}

/// The logical device to create.
#[derive(Clone, Copy, PartialEq, Eq, Structural, Debug)]
pub struct DeviceRequest {
    pub graphics_queue: QueueRequest,
    pub present_queue: QueueRequest,
    pub sampler_anisotropy: bool,
    pub swapchain_extension: bool,
}

/// Describes the logical device: one queue, the first, of each selected
/// family, anisotropic sampling and the swapchain extension enabled.
pub fn create_logical_device_and_queues(indices: QueueFamilyIndices) -> (request: DeviceRequest)
    ensures
        request == (DeviceRequest {
            graphics_queue: QueueRequest {
                family_index: indices.graphics,
                queue_index: 0,
                queue_count: 1,
            },
            present_queue: QueueRequest {
                family_index: indices.present,
                queue_index: 0,
                queue_count: 1,
            },
            sampler_anisotropy: true,
            swapchain_extension: true,
        }),
{
    DeviceRequest {
        graphics_queue: QueueRequest {
            family_index: indices.graphics,
            queue_index: 0,
            queue_count: 1,
        },
        present_queue: QueueRequest { family_index: indices.present, queue_index: 0, queue_count: 1 },
        sampler_anisotropy: true,
        swapchain_extension: true,
    }
}

/// Whether memory type `index` may back a resource whose requirements allow
/// the types in `supported_types` and that needs `required_properties`.
pub open spec fn memory_type_suits(
    supported_types: u32,
    required_properties: u32,
    memory_types: Seq<u32>,
    index: int,
) -> bool {
    &&& 0 <= index < memory_types.len()
    &&& index < MAX_MEMORY_TYPES
    &&& supported_types & (1u32 << (index as u32)) != 0
    &&& has_all(memory_types[index], required_properties)
}

/// Whether `index` is the first memory type that suits.
pub open spec fn is_first_memory_type(
    supported_types: u32,
    required_properties: u32,
    memory_types: Seq<u32>,
    index: int,
) -> bool {
    &&& memory_type_suits(supported_types, required_properties, memory_types, index)
    &&& forall|j: int|
        0 <= j < index ==> !memory_type_suits(
            supported_types,
            required_properties,
            memory_types,
            j,
        )
}

/// The first memory type, in index order, that `supported_types` allows and
/// whose property flags include all of `required_properties`; `None` exactly
/// when there is none. `memory_types` holds the property flags of the
/// device's memory types.
pub fn memory_type_index(supported_types: u32, required_properties: u32, memory_types: &[u32])
    -> (found: Option<u32>)
    requires
        memory_types@.len() <= MAX_MEMORY_TYPES,
    ensures
        match found {
            Some(index) => is_first_memory_type(
                supported_types,
                required_properties,
                memory_types@,
                index as int,
            ),
            None => forall|j: int|
                !memory_type_suits(supported_types, required_properties, memory_types@, j),
        },
{
    let mut i: u32 = 0;
    while (i as usize) < memory_types.len()
        invariant
            i <= memory_types@.len(),
            memory_types@.len() <= MAX_MEMORY_TYPES,
            forall|j: int|
                0 <= j < i ==> !memory_type_suits(
                    supported_types,
                    required_properties,
                    memory_types@,
                    j,
                ),
        decreases memory_types@.len() - i,
    {
        if supported_types & (1u32 << i) != 0 && memory_flags_contain(
            memory_types[i as usize],
            required_properties,
        ) {
            return Some(i);
        }
        i = i + 1;
    }
    None
}

/// The first memory type that suits. There has to be one.
pub fn find_memory_type_index(
    supported_types: u32,
    required_properties: u32,
    memory_types: &[u32],
) -> (index: u32)
    requires
        memory_types@.len() <= MAX_MEMORY_TYPES,
        exists|j: int|
            memory_type_suits(supported_types, required_properties, memory_types@, j),
    ensures
        is_first_memory_type(supported_types, required_properties, memory_types@, index as int),
{
    match memory_type_index(supported_types, required_properties, memory_types) {
        Some(index) => index,
        None => 0,
    }
}

/// What a device supports for one format.
#[derive(Clone, Copy, PartialEq, Eq, Structural, Debug)]
pub struct FormatProperties {
    pub format: i32,
    pub linear_tiling_features: u32,
    pub optimal_tiling_features: u32,
}

/// Whether the candidate offers `features` with the given tiling. No
/// candidate does for a tiling that is neither linear nor optimal.
pub open spec fn format_suits(candidate: FormatProperties, tiling: i32, features: u32) -> bool {
    if tiling == IMAGE_TILING_LINEAR {
        has_all(candidate.linear_tiling_features, features)
    } else if tiling == IMAGE_TILING_OPTIMAL {
        has_all(candidate.optimal_tiling_features, features)
    } else {
        false
    }
}

/// Whether `index` is the first candidate that suits.
pub open spec fn is_first_format(
    candidates: Seq<FormatProperties>,
    tiling: i32,
    features: u32,
    index: int,
) -> bool {
    &&& 0 <= index < candidates.len()
    &&& format_suits(candidates[index], tiling, features)
    &&& forall|j: int| 0 <= j < index ==> !format_suits(candidates[j], tiling, features)
}

/// The format of the first candidate that offers `features` with `tiling`;
/// `None` exactly when no candidate does.
pub fn depth_format(candidates: &[FormatProperties], tiling: i32, features: u32) -> (found:
    Option<i32>)
    ensures
        match found {
            Some(format) => exists|index: int|
                is_first_format(candidates@, tiling, features, index) && format
                    == candidates@[index].format,
            None => forall|j: int|
                0 <= j < candidates@.len() ==> !format_suits(candidates@[j], tiling, features),
        },
{
    let mut i: usize = 0;
    while i < candidates.len()
        invariant
            i <= candidates@.len(),
            forall|j: int| 0 <= j < i ==> !format_suits(candidates@[j], tiling, features),
        decreases candidates@.len() - i,
    {
        let candidate = &candidates[i];
        let suits = if tiling == IMAGE_TILING_LINEAR {
            contains(candidate.linear_tiling_features, features)
        } else if tiling == IMAGE_TILING_OPTIMAL {
            contains(candidate.optimal_tiling_features, features)
        } else {
            false
        };
        if suits {
            assert(is_first_format(candidates@, tiling, features, i as int));
            return Some(candidate.format);
        }
        i = i + 1;
    }
    None
}

/// The format of the first candidate that suits. There has to be one.
pub fn find_depth_format(candidates: &[FormatProperties], tiling: i32, features: u32) -> (format:
    i32)
    requires
        exists|j: int|
            0 <= j < candidates@.len() && format_suits(candidates@[j], tiling, features),
    ensures
        exists|index: int|
            is_first_format(candidates@, tiling, features, index) && format
                == candidates@[index].format,
{
    match depth_format(candidates, tiling, features) {
        Some(format) => format,
        None => 0,
    }
}

} // verus!
