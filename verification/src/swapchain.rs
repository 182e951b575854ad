//! Swapchain parameter derivation.
//!
//! The presentation surface reports its capabilities (image-count range,
//! extent range, supported formats and present modes) and the engine derives
//! from them the parameters the swapchain is created with: one exact surface
//! format, one exact present mode, the image extent, the image count and the
//! image sharing policy across queue families.
//!
//! Formats, color spaces and present modes are carried as the graphics API's
//! raw numeric codes, so the thin runtime converts to and from the API's
//! types without interpretation.

use vstd::prelude::*;
use crate::device::QueueFamilyIndices;
use crate::error::EngineError;

verus! {

/// Raw code of the required surface pixel format (B8G8R8A8 sRGB).
pub const FORMAT_B8G8R8A8_SRGB: u32 = 50;

/// Raw code of the required surface color space (sRGB nonlinear).
pub const COLOR_SPACE_SRGB_NONLINEAR: u32 = 0;

/// Raw code of the required present mode (FIFO, vsync'd and non-tearing).
pub const PRESENT_MODE_FIFO: u32 = 2;

/// Width and height of an image, in pixels.
#[derive(Clone, Copy, Debug, PartialEq, Eq, Structural)]
pub struct Extent2D {
    pub width: u32,
    pub height: u32,
}

/// A surface format: a pixel format paired with a color space, both as the
/// graphics API's raw codes.
#[derive(Clone, Copy, Debug, PartialEq, Eq, Structural)]
pub struct SurfaceFormat {
    pub format: u32,
    pub color_space: u32,
}

/// The capabilities the surface reports for swapchain creation.
///
/// A `current_extent` of `(u32::MAX, u32::MAX)` is the sentinel for
/// "undefined": the window's own pixel size decides the extent instead.  A
/// `max_image_count` of zero means "no upper bound".
#[derive(Clone, Copy, Debug, PartialEq, Eq, Structural)]
pub struct SurfaceCapabilities {
    pub min_image_count: u32,
    pub max_image_count: u32,
    pub current_extent: Extent2D,
    pub min_image_extent: Extent2D,
    pub max_image_extent: Extent2D,
}

/// Everything queried from a device + surface pair that swapchain creation
/// depends on.
#[derive(Clone, Debug, PartialEq, Eq)]
pub struct SwapchainSupportDetails {
    pub capabilities: SurfaceCapabilities,
    pub formats: Vec<SurfaceFormat>,
    pub present_modes: Vec<u32>,
}

/// The surface format the engine requires: an exact match, no fallback.
pub open spec fn required_surface_format() -> SurfaceFormat {
    SurfaceFormat { format: FORMAT_B8G8R8A8_SRGB, color_space: COLOR_SPACE_SRGB_NONLINEAR }
}

/// `x` clamped into `[lo, hi]`, for `lo <= hi`.
pub open spec fn clamp_u32(x: u32, lo: u32, hi: u32) -> u32 {
    if x < lo {
        lo
    } else if x > hi {
        hi
    } else {
        x
    }
}

/// The extent a swapchain is created with: the surface-reported current
/// extent verbatim, unless the surface reports the "undefined" sentinel in
/// both components, in which case the window's pixel size clamped
/// componentwise into the supported extent range.
pub open spec fn chosen_extent(capabilities: SurfaceCapabilities, window_extent: Extent2D) -> Extent2D {
    if capabilities.current_extent.width != u32::MAX || capabilities.current_extent.height
        != u32::MAX {
        capabilities.current_extent
    } else {
        Extent2D {
            width: clamp_u32(
                window_extent.width,
                capabilities.min_image_extent.width,
                capabilities.max_image_extent.width,
            ),
            height: clamp_u32(
                window_extent.height,
                capabilities.min_image_extent.height,
                capabilities.max_image_extent.height,
            ),
        }
    }
}

/// The image count a swapchain is created with: one more than the reported
/// minimum, clamped down to the reported maximum where a maximum exists
/// (a maximum of zero means unbounded).
pub open spec fn chosen_image_count(capabilities: SurfaceCapabilities) -> int {
    let desired = capabilities.min_image_count + 1;
    if capabilities.max_image_count > 0 && desired > capabilities.max_image_count {
        capabilities.max_image_count as int
    } else {
        desired
    }
}

impl SwapchainSupportDetails {
    /// Whether the surface can host a swapchain at all: at least one
    /// supported format and at least one supported present mode.
    pub fn is_swapchain_adequate(&self) -> (adequate: bool)
        ensures
            adequate == (self.formats@.len() > 0 && self.present_modes@.len() > 0),
    {
        self.formats.len() > 0 && self.present_modes.len() > 0
    }

    /// The surface format to create the swapchain with: the required
    /// (format, color space) pair if the surface supports it exactly, and
    /// nothing otherwise — there is deliberately no fallback to a "closest"
    /// format.
    pub fn choose_swapchain_format(&self) -> (chosen: Option<SurfaceFormat>)
        ensures
            chosen is Some <==> self.formats@.contains(required_surface_format()),
            chosen matches Some(f) ==> f == required_surface_format(),
    {
        let n = self.formats.len();
        let mut i: usize = 0;
        while i < n
            invariant
                n == self.formats@.len(),
                i <= n,
                forall|j: int| 0 <= j < i ==> self.formats@[j] != required_surface_format(),
            decreases n - i,
        {
            let f = self.formats[i];
            if f.format == FORMAT_B8G8R8A8_SRGB && f.color_space == COLOR_SPACE_SRGB_NONLINEAR {
                return Some(f);
            }
            i = i + 1;
        }
        None
    }

    /// The present mode to create the swapchain with: FIFO if the surface
    /// supports it, and nothing otherwise — no other mode is ever picked.
    pub fn choose_swapchain_present_mode(&self) -> (chosen: Option<u32>)
        ensures
            chosen is Some <==> self.present_modes@.contains(PRESENT_MODE_FIFO),
            chosen matches Some(m) ==> m == PRESENT_MODE_FIFO,
    {
        let n = self.present_modes.len();
        let mut i: usize = 0;
        while i < n
            invariant
                n == self.present_modes@.len(),
                i <= n,
                forall|j: int| 0 <= j < i ==> self.present_modes@[j] != PRESENT_MODE_FIFO,
            decreases n - i,
        {
            if self.present_modes[i] == PRESENT_MODE_FIFO {
                return Some(PRESENT_MODE_FIFO);
            }
            i = i + 1;
        }
        None
    }

    /// The extent to create the swapchain with, given the window's current
    /// pixel size; see [`chosen_extent`].
    pub fn choose_swapchain_extent(&self, window_extent: Extent2D) -> (extent: Extent2D)
        requires
            self.capabilities.min_image_extent.width <= self.capabilities.max_image_extent.width,
            self.capabilities.min_image_extent.height <= self.capabilities.max_image_extent.height,
        ensures
            extent == chosen_extent(self.capabilities, window_extent),
    {
        let current = self.capabilities.current_extent;
        if current.width != u32::MAX || current.height != u32::MAX {
            current
        } else {
            Extent2D {
                width: clamp_component(
                    window_extent.width,
                    self.capabilities.min_image_extent.width,
                    self.capabilities.max_image_extent.width,
                ),
                height: clamp_component(
                    window_extent.height,
                    self.capabilities.min_image_extent.height,
                    self.capabilities.max_image_extent.height,
                ),
            }
        }
    }

    /// The number of swapchain images to request; see [`chosen_image_count`].
    pub fn choose_image_count(&self) -> (count: u32)
        requires
            self.capabilities.min_image_count < u32::MAX,
        ensures
            count == chosen_image_count(self.capabilities),
    {
        let desired = self.capabilities.min_image_count + 1;
        let max = self.capabilities.max_image_count;
        if max > 0 && desired > max {
            max
        } else {
            desired
        }
    }
}

/// Extent range law: when the surface reports the "undefined" sentinel, the
/// chosen extent lies componentwise inside the supported extent range, and
/// equals the window size wherever the window size already lies inside it.
pub proof fn lemma_chosen_extent_in_range(
    capabilities: SurfaceCapabilities,
    window_extent: Extent2D,
)
    requires
        capabilities.current_extent.width == u32::MAX,
        capabilities.current_extent.height == u32::MAX,
        capabilities.min_image_extent.width <= capabilities.max_image_extent.width,
        capabilities.min_image_extent.height <= capabilities.max_image_extent.height,
    ensures
        capabilities.min_image_extent.width <= chosen_extent(capabilities, window_extent).width
            <= capabilities.max_image_extent.width,
        capabilities.min_image_extent.height <= chosen_extent(capabilities, window_extent).height
            <= capabilities.max_image_extent.height,
        capabilities.min_image_extent.width <= window_extent.width
            <= capabilities.max_image_extent.width ==> chosen_extent(
            capabilities,
            window_extent,
        ).width == window_extent.width,
        capabilities.min_image_extent.height <= window_extent.height
            <= capabilities.max_image_extent.height ==> chosen_extent(
            capabilities,
            window_extent,
        ).height == window_extent.height,
{
}

/// One component of a window extent clamped into the supported range.
fn clamp_component(x: u32, lo: u32, hi: u32) -> (clamped: u32)
    requires
        lo <= hi,
    ensures
        clamped == clamp_u32(x, lo, hi),
{
    if x < lo {
        lo
    } else if x > hi {
        hi
    } else {
        x
    }
}

/// Pick the memory type the offscreen render target is allocated from: the
/// first type, in enumeration order, that the image accepts (its bit is set
/// in `allowed_type_bits`) and that is device-local.  Returns nothing
/// exactly when no enumerated type qualifies.
///
/// `is_device_local[i]` says whether enumerated memory type `i` is
/// device-local; the graphics API enumerates at most 32 types, one per bit
/// of `allowed_type_bits`.
pub fn pick_memory_type(allowed_type_bits: u32, is_device_local: &Vec<bool>) -> (picked: Option<
    u32,
>)
    requires
        is_device_local@.len() <= 32,
    ensures
        picked is Some <==> exists|i: int|
            0 <= i < is_device_local@.len() && is_device_local@[i] && (allowed_type_bits >> (
            i as u32)) & 1 == 1,
        picked matches Some(index) ==> index < is_device_local@.len()
            && is_device_local@[index as int] && (allowed_type_bits >> index) & 1 == 1 && (
        forall|j: int|
            0 <= j < index ==> !(is_device_local@[j] && (allowed_type_bits >> (j as u32)) & 1
                == 1)),
{
    let n = is_device_local.len();
    let mut i: usize = 0;
    while i < n
        invariant
            n == is_device_local@.len(),
            n <= 32,
            i <= n,
            forall|j: int|
                0 <= j < i ==> !(is_device_local@[j] && (allowed_type_bits >> (j as u32)) & 1
                    == 1),
        decreases n - i,
    {
        if (allowed_type_bits >> (i as u32)) & 1 == 1 && is_device_local[i] {
            return Some(i as u32);
        }
        i = i + 1;
    }
    None
}

/// Whether swapchain images are shared across queue families.
///
/// When the graphics and presentation queue families differ, the images are
/// created with concurrent sharing across both families; otherwise exclusive
/// ownership by the single family is used and no ownership transfer is ever
/// required.
#[derive(Clone, Copy, Debug, PartialEq, Eq, Structural)]
pub enum SharingMode {
    Exclusive,
    Concurrent,
}

/// Every parameter the swapchain is created with.
#[derive(Clone, Copy, Debug, PartialEq, Eq, Structural)]
pub struct SwapchainPlan {
    pub format: SurfaceFormat,
    pub present_mode: u32,
    pub extent: Extent2D,
    pub image_count: u32,
    pub sharing_mode: SharingMode,
    pub graphics_q_idx: u32,
    pub presentation_q_idx: u32,
}

/// Derive every swapchain creation parameter from the surface's reported
/// support, the chosen queue families and the window's pixel size.
///
/// Fails with `MissingSurfaceFormat` exactly when the surface lacks the
/// required (format, color space) pair, and otherwise with
/// `MissingPresentMode` exactly when it lacks the FIFO present mode.
pub fn plan_swapchain(
    details: &SwapchainSupportDetails,
    indices: &QueueFamilyIndices,
    window_extent: Extent2D,
) -> (plan: Result<SwapchainPlan, EngineError>)
    requires
        indices.graphics_q_idx is Some,
        indices.presentation_q_idx is Some,
        details.capabilities.min_image_count < u32::MAX,
        details.capabilities.min_image_extent.width <= details.capabilities.max_image_extent.width,
        details.capabilities.min_image_extent.height
            <= details.capabilities.max_image_extent.height,
    ensures
        plan is Ok <==> details.formats@.contains(required_surface_format())
            && details.present_modes@.contains(PRESENT_MODE_FIFO),
        plan == Err::<SwapchainPlan, EngineError>(EngineError::MissingSurfaceFormat)
            <==> !details.formats@.contains(required_surface_format()),
        plan == Err::<SwapchainPlan, EngineError>(EngineError::MissingPresentMode)
            <==> details.formats@.contains(required_surface_format())
            && !details.present_modes@.contains(PRESENT_MODE_FIFO),
        plan matches Ok(p) ==> {
            &&& p.format == required_surface_format()
            &&& p.present_mode == PRESENT_MODE_FIFO
            &&& p.extent == chosen_extent(details.capabilities, window_extent)
            &&& p.image_count == chosen_image_count(details.capabilities)
            &&& Some(p.graphics_q_idx) == indices.graphics_q_idx
            &&& Some(p.presentation_q_idx) == indices.presentation_q_idx
            &&& p.sharing_mode == (if p.graphics_q_idx == p.presentation_q_idx {
                SharingMode::Exclusive
            } else {
                SharingMode::Concurrent
            })
        },
{
    let format = match details.choose_swapchain_format() {
        Some(format) => format,
        None => {
            return Err(EngineError::MissingSurfaceFormat);
        }
    };
    let present_mode = match details.choose_swapchain_present_mode() {
        Some(mode) => mode,
        None => {
            return Err(EngineError::MissingPresentMode);
        }
    };
    let extent = details.choose_swapchain_extent(window_extent);
    let image_count = details.choose_image_count();
    let graphics_q_idx = indices.graphics_q_idx.unwrap();
    let presentation_q_idx = indices.presentation_q_idx.unwrap();
    let sharing_mode = if graphics_q_idx != presentation_q_idx {
        SharingMode::Concurrent
    } else {
        SharingMode::Exclusive
    };
    Ok(SwapchainPlan {
        format,
        present_mode,
        extent,
        image_count,
        sharing_mode,
        graphics_q_idx,
        presentation_q_idx,
    })
}

} // verus!
