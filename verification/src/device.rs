//! Choosing the adapter to render with, and what to ask for when a device is
//! created on it.

use crate::error::RendererError;
use crate::helper::contains_name;
use crate::helper::texts;
use crate::surface::SurfaceCapabilities;
use crate::surface::SurfaceFormat;
use vstd::prelude::*;
use vstd::string::*;

verus! {

/// The capability bit of a queue family that takes graphics commands.
pub const QUEUE_GRAPHICS: u32 = 0x1;

/// The device extension that provides swapchains.
pub const SWAPCHAIN_EXTENSION: &'static str = "VK_KHR_swapchain";

/// What is logged when a suitable adapter was found.
pub const DEVICE_FOUND_MESSAGE: &'static str = "suitable device found";

/// One queue family of an adapter.
#[derive(Clone, Copy, Debug, PartialEq, Eq, Structural)]
pub struct QueueFamily {
    /// The family's capability bits.
    pub flags: u32,
    /// Whether the family can present to the surface in question.
    pub supports_present: bool,
}

impl QueueFamily {
    /// Whether the family takes graphics commands.
    pub open spec fn is_graphics(self) -> bool {
        (self.flags & QUEUE_GRAPHICS) != 0
    }

    /// Whether the family takes graphics commands.
    pub fn takes_graphics(&self) -> (result: bool)
        ensures
            result == self.is_graphics(),
    {
        (self.flags & QUEUE_GRAPHICS) != 0
    }
}

/// The queue families a renderer uses: one that takes graphics commands and
/// one that can present. They may be the same family.
#[derive(Clone, Copy, Debug, PartialEq, Eq, Structural)]
pub struct QueueFamilyIndices {
    pub graphics: Option<u32>,
    pub present: Option<u32>,
}

/// `found` is the index of the first family that takes graphics commands,
/// or nothing when no family does.
pub open spec fn is_first_graphics(families: Seq<QueueFamily>, found: Option<u32>) -> bool {
    match found {
        Some(index) => {
            &&& index < families.len()
            &&& families[index as int].is_graphics()
            &&& forall|k: int| 0 <= k < index ==> !(#[trigger] families[k]).is_graphics()
        },
        None => forall|k: int| 0 <= k < families.len() ==> !(#[trigger] families[k]).is_graphics(),
    }
}

/// `found` is the index of the first family that can present, or nothing
/// when no family can.
pub open spec fn is_first_present(families: Seq<QueueFamily>, found: Option<u32>) -> bool {
    match found {
        Some(index) => {
            &&& index < families.len()
            &&& families[index as int].supports_present
            &&& forall|k: int| 0 <= k < index ==> !(#[trigger] families[k]).supports_present
        },
        None => forall|k: int|
            0 <= k < families.len() ==> !(#[trigger] families[k]).supports_present,
    }
}

/// Some family takes graphics commands.
pub open spec fn has_graphics_family(families: Seq<QueueFamily>) -> bool {
    exists|k: int| 0 <= k < families.len() && (#[trigger] families[k]).is_graphics()
}

/// Some family can present.
pub open spec fn has_present_family(families: Seq<QueueFamily>) -> bool {
    exists|k: int| 0 <= k < families.len() && (#[trigger] families[k]).supports_present
}

impl QueueFamilyIndices {
    /// Both families are resolved.
    pub open spec fn complete(self) -> bool {
        self.graphics is Some && self.present is Some
    }

    /// Whether both families are resolved.
    pub fn is_complete(&self) -> (result: bool)
        ensures
            result == self.complete(),
    {
        self.graphics.is_some() && self.present.is_some()
    }

    /// Resolves the two families from an adapter's family list: the first
    /// family that takes graphics commands and, independently, the first
    /// that can present. The scan stops as soon as both are found. The list
    /// must be short enough for its indices to fit in 32 bits.
    pub fn resolve(families: &Vec<QueueFamily>) -> (indices: QueueFamilyIndices)
        requires
            families.len() <= u32::MAX,
        ensures
            is_first_graphics(families@, indices.graphics),
            is_first_present(families@, indices.present),
            indices.complete() <==> has_graphics_family(families@) && has_present_family(
                families@,
            ),
    {
        let mut graphics: Option<u32> = None;
        let mut present: Option<u32> = None;
        let mut i: usize = 0;
        while i < families.len() && !(graphics.is_some() && present.is_some())
            invariant
                i <= families.len() <= u32::MAX,
                graphics is Some ==> is_first_graphics(families@, graphics),
                graphics is None ==> forall|k: int|
                    0 <= k < i ==> !(#[trigger] families[k]).is_graphics(),
                present is Some ==> is_first_present(families@, present),
                present is None ==> forall|k: int|
                    0 <= k < i ==> !(#[trigger] families[k]).supports_present,
            decreases families.len() - i,
        {
            if graphics.is_none() && families[i].takes_graphics() {
                graphics = Some(i as u32);
            }
            if present.is_none() && families[i].supports_present {
                present = Some(i as u32);
            }
            i += 1;
        }
        QueueFamilyIndices { graphics, present }
    }
}

/// An adapter as enumeration found it, with what it reports for the surface
/// in question.
pub struct PhysicalDeviceCandidate {
    pub name: String,
    /// The device extensions the adapter supports.
    pub extensions: Vec<String>,
    pub queue_families: Vec<QueueFamily>,
    /// The surface formats the adapter supports, in the order reported.
    pub formats: Vec<SurfaceFormat>,
    /// The codes of the present modes the adapter supports.
    pub present_modes: Vec<i32>,
    pub capabilities: SurfaceCapabilities,
}

/// Every name in `required` is among `available`.
pub open spec fn covers(available: Seq<Seq<char>>, required: Seq<Seq<char>>) -> bool {
    forall|i: int| 0 <= i < required.len() ==> available.contains(#[trigger] required[i])
}

/// Whether every name in `required` is among `available`.
pub fn supports_all(available: &Vec<String>, required: &Vec<String>) -> (result: bool)
    ensures
        result == covers(texts(available@), texts(required@)),
{
    let mut i: usize = 0;
    while i < required.len()
        invariant
            i <= required.len(),
            forall|k: int|
                0 <= k < i ==> texts(available@).contains(#[trigger] texts(required@)[k]),
        decreases required.len() - i,
    {
        if !contains_name(available, &required[i]) {
            assert(!texts(available@).contains(texts(required@)[i as int]));
            return false;
        }
        i += 1;
    }
    true
}

fn any_graphics(families: &Vec<QueueFamily>) -> (result: bool)
    ensures
        result == has_graphics_family(families@),
{
    let mut i: usize = 0;
    while i < families.len()
        invariant
            i <= families.len(),
            forall|k: int| 0 <= k < i ==> !(#[trigger] families[k]).is_graphics(),
        decreases families.len() - i,
    {
        if families[i].takes_graphics() {
            return true;
        }
        i += 1;
    }
    false
}

fn any_present(families: &Vec<QueueFamily>) -> (result: bool)
    ensures
        result == has_present_family(families@),
{
    let mut i: usize = 0;
    while i < families.len()
        invariant
            i <= families.len(),
            forall|k: int| 0 <= k < i ==> !(#[trigger] families[k]).supports_present,
        decreases families.len() - i,
    {
        if families[i].supports_present {
            return true;
        }
        i += 1;
    }
    false
}

impl PhysicalDeviceCandidate {
    /// An adapter is suitable when it has a family that takes graphics
    /// commands and one that can present, supports every required
    /// extension, and offers at least one surface format and one present
    /// mode.
    pub open spec fn suitable(self, required: Seq<Seq<char>>) -> bool {
        &&& has_graphics_family(self.queue_families@)
        &&& has_present_family(self.queue_families@)
        &&& covers(texts(self.extensions@), required)
        &&& self.formats.len() > 0
        &&& self.present_modes.len() > 0
    }

    /// Whether the adapter is suitable. It is not when a required extension
    /// is absent, whatever else it offers.
    pub fn is_suitable(&self, required: &Vec<String>) -> (result: bool)
        ensures
            result == self.suitable(texts(required@)),
            !covers(texts(self.extensions@), texts(required@)) ==> !result,
    {
        any_graphics(&self.queue_families) && any_present(&self.queue_families) && supports_all(
            &self.extensions,
            required,
        ) && self.formats.len() > 0 && self.present_modes.len() > 0
    }
}

/// An adapter that lacks one of the required extensions is not suitable,
/// even with families for graphics and presentation and with formats and
/// present modes on offer.
pub proof fn lemma_missing_extension_unsuitable(
    candidate: PhysicalDeviceCandidate,
    required: Seq<Seq<char>>,
    missing: int,
)
    requires
        0 <= missing < required.len(),
        !texts(candidate.extensions@).contains(required[missing]),
    ensures
        !candidate.suitable(required),
{
}

/// An adapter is suitable exactly when its resolved families are complete,
/// it supports every required extension, and it offers a surface format and
/// a present mode.
pub proof fn lemma_suitable_by_resolved_families(
    candidate: PhysicalDeviceCandidate,
    required: Seq<Seq<char>>,
    indices: QueueFamilyIndices,
)
    requires
        is_first_graphics(candidate.queue_families@, indices.graphics),
        is_first_present(candidate.queue_families@, indices.present),
    ensures
        candidate.suitable(required) <==> indices.complete() && covers(
            texts(candidate.extensions@),
            required,
        ) && candidate.formats.len() > 0 && candidate.present_modes.len() > 0,
{
    let families = candidate.queue_families@;
    if indices.graphics is Some {
    }
    if indices.present is Some {
    }
}

/// `index` is the position of the first suitable adapter.
pub open spec fn is_first_suitable(
    candidates: Seq<PhysicalDeviceCandidate>,
    required: Seq<Seq<char>>,
    index: int,
) -> bool {
    &&& 0 <= index < candidates.len()
    &&& candidates[index].suitable(required)
    &&& forall|k: int| 0 <= k < index ==> !(#[trigger] candidates[k]).suitable(required)
}

/// No adapter is suitable.
pub open spec fn none_suitable(
    candidates: Seq<PhysicalDeviceCandidate>,
    required: Seq<Seq<char>>,
) -> bool {
    forall|k: int| 0 <= k < candidates.len() ==> !(#[trigger] candidates[k]).suitable(required)
}

/// Picks the adapter to render with: the first suitable one in enumeration
/// order, by its position. There is no scoring. When none is suitable, and
/// so when the list is empty, the answer is `NoSuitableDevice`.
pub fn select_best(
    candidates: &Vec<PhysicalDeviceCandidate>,
    required: &Vec<String>,
) -> (chosen: Result<usize, RendererError>)
    ensures
        chosen is Ok ==> is_first_suitable(candidates@, texts(required@), chosen->Ok_0 as int),
        chosen is Err ==> chosen->Err_0 == RendererError::NoSuitableDevice,
        chosen is Err <==> none_suitable(candidates@, texts(required@)),
{
    let mut i: usize = 0;
    while i < candidates.len()
        invariant
            i <= candidates.len(),
            forall|k: int| 0 <= k < i ==> !(#[trigger] candidates[k]).suitable(texts(required@)),
        decreases candidates.len() - i,
    {
        if candidates[i].is_suitable(required) {
            return Ok(i);
        }
        i += 1;
    }
    Err(RendererError::NoSuitableDevice)
}

/// The fixed set of device extensions a renderer needs: the swapchain
/// extension.
pub fn required_device_extensions() -> (names: Vec<String>)
    ensures
        texts(names@) == seq![SWAPCHAIN_EXTENSION@],
{
    let mut names: Vec<String> = Vec::new();
    names.push(String::from_str(SWAPCHAIN_EXTENSION));
    names
}

/// What the device-creation call is given. No optional device feature is
/// enabled.
pub struct DeviceRequest {
    /// The families to create queues in, each named once.
    pub queue_families: Vec<u32>,
    /// How many queues to create in each of them.
    pub queues_per_family: u32,
    /// The device extensions to enable.
    pub extensions: Vec<String>,
}

/// The families that need a queue: one entry when graphics and presentation
/// share a family, else the graphics family followed by the present family.
pub open spec fn distinct_families(graphics: u32, present: u32) -> Seq<u32> {
    if graphics == present {
        seq![graphics]
    } else {
        seq![graphics, present]
    }
}

/// Assembles the device-creation request for resolved queue families: one
/// queue in each distinct family, and the required device extensions. There
/// is no request while a family is unresolved.
pub fn device_request(indices: &QueueFamilyIndices) -> (request: Option<DeviceRequest>)
    ensures
        request is Some <==> indices.complete(),
        request is Some ==> request->0.queue_families@ == distinct_families(
            indices.graphics->0,
            indices.present->0,
        ),
        request is Some ==> request->0.queues_per_family == 1,
        request is Some ==> texts(request->0.extensions@) == seq![SWAPCHAIN_EXTENSION@],
{
    match (indices.graphics, indices.present) {
        (Some(graphics), Some(present)) => {
            let mut queue_families: Vec<u32> = Vec::new();
            queue_families.push(graphics);
            if present != graphics {
                queue_families.push(present);
            }
            Some(
                DeviceRequest {
                    queue_families,
                    queues_per_family: 1,
                    extensions: required_device_extensions(),
                },
            )
        },
        _ => None,
    }
}

} // verus!
