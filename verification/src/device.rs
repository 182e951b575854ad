//! Physical accelerator selection.
//!
//! The engine enumerates every physical accelerator the API instance exposes
//! and accepts the first one that can actually drive the presentation
//! surface: it must expose a graphics-capable queue family, some queue family
//! able to present to the surface, the swapchain device extension, and an
//! adequate surface (at least one format and one present mode).  Selection is
//! by enumeration order; there is no scoring.
//!
//! Queue families, extension names and surface support are carried as plain
//! values queried from the API by the thin runtime, so everything decided
//! about them is decided — and proved — here.

use vstd::prelude::*;
use vstd::string::StringExecFns;
use crate::error::EngineError;
use crate::swapchain::SwapchainSupportDetails;

verus! {

/// What one queue family of a physical accelerator can do, as far as the
/// engine cares: run graphics work, and present to the target surface.
#[derive(Clone, Copy, Debug, PartialEq, Eq, Structural)]
pub struct QueueFamilySupport {
    pub supports_graphics: bool,
    pub supports_present: bool,
}

/// The queue families the engine will create its queues from: the first
/// graphics-capable family and the first presentation-capable family, where
/// each exists.
#[derive(Clone, Copy, Debug, PartialEq, Eq, Structural)]
pub struct QueueFamilyIndices {
    pub graphics_q_idx: Option<u32>,
    pub presentation_q_idx: Option<u32>,
}

/// Whether some queue family is graphics-capable.
pub open spec fn has_graphics_family(families: Seq<QueueFamilySupport>) -> bool {
    exists|i: int| 0 <= i < families.len() && families[i].supports_graphics
}

/// Whether some queue family can present to the target surface.
pub open spec fn has_present_family(families: Seq<QueueFamilySupport>) -> bool {
    exists|i: int| 0 <= i < families.len() && families[i].supports_present
}

/// What [`QueueFamilyIndices::find_queue_family_indices`] computes from the
/// enumerated queue families: each index is the first family with the
/// capability, and is present exactly when such a family exists.
pub open spec fn indices_match(
    families: Seq<QueueFamilySupport>,
    indices: QueueFamilyIndices,
) -> bool {
    &&& (indices.graphics_q_idx is Some <==> has_graphics_family(families))
    &&& (indices.graphics_q_idx matches Some(g) ==> g < families.len()
        && families[g as int].supports_graphics && (forall|j: int|
            0 <= j < g ==> !families[j].supports_graphics))
    &&& (indices.presentation_q_idx is Some <==> has_present_family(families))
    &&& (indices.presentation_q_idx matches Some(p) ==> p < families.len()
        && families[p as int].supports_present && (forall|j: int|
            0 <= j < p ==> !families[j].supports_present))
}

impl QueueFamilyIndices {
    /// Scan the enumerated queue families, in enumeration order, for the
    /// first graphics-capable family and the first family able to present to
    /// the target surface.
    pub fn find_queue_family_indices(families: &Vec<QueueFamilySupport>) -> (indices:
        QueueFamilyIndices)
        requires
            families@.len() <= u32::MAX,
        ensures
            indices_match(families@, indices),
    {
        let mut indices = QueueFamilyIndices { graphics_q_idx: None, presentation_q_idx: None };
        let n = families.len();
        let mut idx: usize = 0;
        while idx < n
            invariant
                n == families@.len(),
                n <= u32::MAX,
                idx <= n,
                indices.graphics_q_idx is Some <==> exists|i: int|
                    0 <= i < idx && families@[i].supports_graphics,
                indices.graphics_q_idx matches Some(g) ==> g < idx
                    && families@[g as int].supports_graphics && (forall|j: int|
                    0 <= j < g ==> !families@[j].supports_graphics),
                indices.presentation_q_idx is Some <==> exists|i: int|
                    0 <= i < idx && families@[i].supports_present,
                indices.presentation_q_idx matches Some(p) ==> p < idx
                    && families@[p as int].supports_present && (forall|j: int|
                    0 <= j < p ==> !families@[j].supports_present),
            decreases n - idx,
        {
            let family = families[idx];
            if family.supports_graphics && indices.graphics_q_idx.is_none() {
                indices.graphics_q_idx = Some(idx as u32);
            }
            if family.supports_present && indices.presentation_q_idx.is_none() {
                indices.presentation_q_idx = Some(idx as u32);
            }
            idx = idx + 1;
        }
        indices
    }

    /// Both a graphics-capable and a presentation-capable family were found.
    pub fn is_complete(&self) -> (complete: bool)
        ensures
            complete == (self.graphics_q_idx is Some && self.presentation_q_idx is Some),
    {
        self.graphics_q_idx.is_some() && self.presentation_q_idx.is_some()
    }
}

/// The name of the one device extension the engine requires: the swapchain
/// extension.
pub open spec fn required_device_extension() -> Seq<char> {
    "VK_KHR_swapchain"@
}

/// Whether every device extension the engine requires — the single swapchain
/// extension — is among the accelerator's enumerated extension names.
pub fn check_device_extensions(extension_names: &Vec<String>) -> (supported: bool)
    ensures
        supported <==> exists|i: int|
            0 <= i < extension_names@.len() && extension_names@[i]@ == required_device_extension(),
{
    let required: String = String::from_str("VK_KHR_swapchain");
    crate::instance::name_list_contains(extension_names, &required)
}

/// Everything queried about one physical accelerator that selection depends
/// on, as plain values.
#[derive(Clone, Debug, PartialEq, Eq)]
pub struct PhysicalDeviceInfo {
    /// The accelerator's queue families, in enumeration order.
    pub families: Vec<QueueFamilySupport>,
    /// The accelerator's enumerated device extension names.
    pub extension_names: Vec<String>,
    /// What the accelerator + surface pair supports for swapchain creation.
    pub swapchain_support: SwapchainSupportDetails,
}

/// Whether an accelerator passes every requirement: a graphics-capable queue
/// family, a presentation-capable queue family, the swapchain extension and
/// an adequate surface.
pub open spec fn device_suitable(device: PhysicalDeviceInfo) -> bool {
    &&& has_graphics_family(device.families@)
    &&& has_present_family(device.families@)
    &&& exists|i: int|
        0 <= i < device.extension_names@.len() && device.extension_names@[i]@
            == required_device_extension()
    &&& device.swapchain_support.formats@.len() > 0
    &&& device.swapchain_support.present_modes@.len() > 0
}

/// Decide whether one enumerated accelerator satisfies every requirement.
pub fn is_device_suitable(device: &PhysicalDeviceInfo) -> (suitable: bool)
    requires
        device.families@.len() <= u32::MAX,
    ensures
        suitable == device_suitable(*device),
{
    let indices = QueueFamilyIndices::find_queue_family_indices(&device.families);
    indices.is_complete() && check_device_extensions(&device.extension_names)
        && device.swapchain_support.is_swapchain_adequate()
}

/// The index of the first suitable accelerator among the enumerated ones,
/// in enumeration order — ties are broken by enumeration order, there is no
/// scoring — or nothing when no accelerator is suitable.
pub fn pick_physical_device(devices: &Vec<PhysicalDeviceInfo>) -> (picked: Option<usize>)
    requires
        forall|i: int| 0 <= i < devices@.len() ==> devices@[i].families@.len() <= u32::MAX,
    ensures
        picked is Some <==> exists|i: int| 0 <= i < devices@.len() && device_suitable(devices@[i]),
        picked matches Some(d) ==> d < devices@.len() && device_suitable(devices@[d as int]) && (
        forall|j: int| 0 <= j < d ==> !device_suitable(devices@[j])),
{
    let n = devices.len();
    let mut i: usize = 0;
    while i < n
        invariant
            n == devices@.len(),
            i <= n,
            forall|k: int| 0 <= k < devices@.len() ==> devices@[k].families@.len() <= u32::MAX,
            forall|j: int| 0 <= j < i ==> !device_suitable(devices@[j]),
        decreases n - i,
    {
        if is_device_suitable(&devices[i]) {
            return Some(i);
        }
        i = i + 1;
    }
    None
}

/// The outcome of device selection: which enumerated accelerator to create
/// the logical device on, and the queue families to create its queues from.
#[derive(Clone, Copy, Debug, PartialEq, Eq, Structural)]
pub struct DeviceSelection {
    pub device_index: usize,
    pub indices: QueueFamilyIndices,
}

/// Select the accelerator the logical device is created on: the first
/// suitable one, with its queue family indices, both of which are complete
/// for a suitable accelerator.  Fails with `NoSuitableDevice` exactly when no
/// enumerated accelerator is suitable — the engine cannot proceed then.
pub fn select_device(devices: &Vec<PhysicalDeviceInfo>) -> (selection: Result<
    DeviceSelection,
    EngineError,
>)
    requires
        forall|i: int| 0 <= i < devices@.len() ==> devices@[i].families@.len() <= u32::MAX,
    ensures
        selection is Ok <==> exists|i: int|
            0 <= i < devices@.len() && device_suitable(devices@[i]),
        selection is Err ==> selection == Err::<DeviceSelection, EngineError>(
            EngineError::NoSuitableDevice,
        ),
        selection matches Ok(sel) ==> {
            &&& sel.device_index < devices@.len()
            &&& device_suitable(devices@[sel.device_index as int])
            &&& forall|j: int| 0 <= j < sel.device_index ==> !device_suitable(devices@[j])
            &&& indices_match(devices@[sel.device_index as int].families@, sel.indices)
            &&& sel.indices.graphics_q_idx is Some
            &&& sel.indices.presentation_q_idx is Some
        },
{
    match pick_physical_device(devices) {
        Some(device_index) => {
            let indices = QueueFamilyIndices::find_queue_family_indices(
                &devices[device_index].families,
            );
            Ok(DeviceSelection { device_index, indices })
        }
        None => Err(EngineError::NoSuitableDevice),
    }
}

/// Queue-family completeness law: queue family indices computed from an
/// accelerator's families are both present whenever the accelerator is
/// suitable, and each is absent whenever no family has the capability —
/// a device is only ever accepted with both indices set.
pub proof fn lemma_suitable_device_completes_indices(
    device: PhysicalDeviceInfo,
    indices: QueueFamilyIndices,
)
    requires
        indices_match(device.families@, indices),
    ensures
        device_suitable(device) ==> indices.graphics_q_idx is Some
            && indices.presentation_q_idx is Some,
        !has_graphics_family(device.families@) ==> indices.graphics_q_idx is None,
        !has_present_family(device.families@) ==> indices.presentation_q_idx is None,
{
}

} // verus!
