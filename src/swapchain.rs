use vstd::prelude::*;

use crate::error::SetupError;

verus! {

/// Width reported by a surface whose extent is decided by the swapchain.
pub const EXTENT_UNDEFINED: u32 = 0xFFFF_FFFFu32;

/// The "identity" bit of a surface-transform mask.
pub const TRANSFORM_IDENTITY: u32 = 1u32;

/// A width and height in pixels.
#[derive(Clone, Copy, Debug, PartialEq, Eq, Structural)]
pub struct Extent2D {
    pub width: u32,
    pub height: u32,
}

/// How the presentation engine queues submitted images.
#[derive(Clone, Copy, Debug, PartialEq, Eq, Structural)]
pub enum PresentMode {
    Immediate,
    /// Low-latency triple buffering: a newer image replaces a queued one.
    Mailbox,
    Fifo,
    FifoRelaxed,
    /// Any mode the driver reports that is not named above, by its raw value.
    Other(i32),
}

/// A pixel format together with its color space, as raw driver values.
#[derive(Clone, Copy, Debug, PartialEq, Eq, Structural)]
pub struct SurfaceFormat {
    pub format: i32,
    pub color_space: i32,
}

/// What the driver reports about a surface on a given physical device.
#[derive(Clone, Copy, Debug, PartialEq, Eq, Structural)]
pub struct SurfaceCapabilities {
    pub min_image_count: u32,
    /// Zero means that there is no upper bound.
    pub max_image_count: u32,
    pub current_extent: Extent2D,
    /// Bit mask of the transforms the surface supports.
    pub supported_transforms: u32,
    pub current_transform: u32,
}

/// Everything the swapchain is built with that depends on the surface.
#[derive(Clone, Copy, Debug, PartialEq, Eq, Structural)]
pub struct SwapchainSettings {
    pub image_count: u32,
    pub extent: Extent2D,
    pub present_mode: PresentMode,
    pub format: SurfaceFormat,
    pub pre_transform: u32,
}

pub open spec fn spec_image_count(caps: SurfaceCapabilities) -> int {
    if caps.max_image_count > 0 && caps.min_image_count + 1 > caps.max_image_count {
        caps.max_image_count as int
    } else {
        caps.min_image_count + 1
    }
}

pub open spec fn spec_extent(caps: SurfaceCapabilities, window: Extent2D) -> Extent2D {
    if caps.current_extent.width == EXTENT_UNDEFINED {
        window
    } else {
        caps.current_extent
    }
}

pub open spec fn spec_pre_transform(caps: SurfaceCapabilities) -> u32 {
    if caps.supported_transforms & TRANSFORM_IDENTITY != 0 {
        TRANSFORM_IDENTITY
    } else {
        caps.current_transform
    }
}

/// The mailbox mode when it is listed, else the first mode listed.
pub open spec fn spec_present_mode(modes: Seq<PresentMode>) -> PresentMode {
    if modes.contains(PresentMode::Mailbox) {
        PresentMode::Mailbox
    } else {
        modes[0]
    }
}

/// One image more than the minimum, lowered to the maximum when there is one.
pub fn choose_image_count(caps: &SurfaceCapabilities) -> (r: u32)
    requires
        caps.min_image_count < u32::MAX,
    ensures
        r == spec_image_count(*caps),
        caps.max_image_count == 0 ==> r == caps.min_image_count + 1,
        caps.max_image_count > 0 && caps.min_image_count + 1 > caps.max_image_count
            ==> r == caps.max_image_count,
{
    let mut image_count: u32 = caps.min_image_count + 1;
    if caps.max_image_count > 0 && image_count > caps.max_image_count {
        image_count = caps.max_image_count;
    }
    image_count
}

/// The surface's own extent, or the window's size when the surface leaves it
/// undefined.
pub fn choose_extent(caps: &SurfaceCapabilities, window: Extent2D) -> (r: Extent2D)
    ensures
        r == spec_extent(*caps, window),
        caps.current_extent.width == EXTENT_UNDEFINED ==> r == window,
        caps.current_extent.width != EXTENT_UNDEFINED ==> r == caps.current_extent,
{
    if caps.current_extent.width == EXTENT_UNDEFINED {
        window
    } else {
        caps.current_extent
    }
}

/// Identity when the surface supports it, else the surface's current transform.
pub fn choose_pre_transform(caps: &SurfaceCapabilities) -> (r: u32)
    ensures
        r == spec_pre_transform(*caps),
{
    if caps.supported_transforms & TRANSFORM_IDENTITY != 0 {
        TRANSFORM_IDENTITY
    } else {
        caps.current_transform
    }
}

/// Prefers the mailbox mode wherever it stands in the list; otherwise takes
/// the first mode listed.
pub fn choose_present_mode(modes: &Vec<PresentMode>) -> (r: Result<PresentMode, SetupError>)
    ensures
        modes@.len() == 0 <==> r == Err::<PresentMode, SetupError>(SetupError::NoPresentModeAvailable),
        modes@.len() > 0 ==> r == Ok::<PresentMode, SetupError>(spec_present_mode(modes@)),
        modes@.contains(PresentMode::Mailbox) ==> r == Ok::<PresentMode, SetupError>(PresentMode::Mailbox),
        modes@.len() > 0 && !modes@.contains(PresentMode::Mailbox)
            ==> r == Ok::<PresentMode, SetupError>(modes@[0]),
{
    let mut i: usize = 0;
    while i < modes.len()
        invariant
            i <= modes@.len(),
            forall|j: int| 0 <= j < i ==> modes@[j] != PresentMode::Mailbox,
        decreases modes@.len() - i,
    {
        if modes[i] == PresentMode::Mailbox {
            return Ok(PresentMode::Mailbox);
        }
        i = i + 1;
    }
    if modes.len() == 0 {
        Err(SetupError::NoPresentModeAvailable)
    } else {
        Ok(modes[0])
    }
}

/// Applies the selection policy to what the driver reported about a surface:
/// present mode, image count, extent, pre-transform and the first format.
/// A missing present mode is reported before a missing format.
pub fn choose_swapchain_settings(
    caps: &SurfaceCapabilities,
    formats: &Vec<SurfaceFormat>,
    modes: &Vec<PresentMode>,
    window: Extent2D,
) -> (r: Result<SwapchainSettings, SetupError>)
    requires
        caps.min_image_count < u32::MAX,
    ensures
        modes@.len() == 0 ==> r == Err::<SwapchainSettings, SetupError>(
            SetupError::NoPresentModeAvailable,
        ),
        modes@.len() > 0 && formats@.len() == 0 ==> r == Err::<SwapchainSettings, SetupError>(
            SetupError::NoFormatsAvailable,
        ),
        modes@.len() > 0 && formats@.len() > 0 ==> r == Ok::<SwapchainSettings, SetupError>(
            (SwapchainSettings {
                image_count: spec_image_count(*caps) as u32,
                extent: spec_extent(*caps, window),
                present_mode: spec_present_mode(modes@),
                format: formats@[0],
                pre_transform: spec_pre_transform(*caps),
            }),
        ),
{
    let present_mode = match choose_present_mode(modes) {
        Ok(m) => m,
        Err(e) => {
            return Err(e);
        },
    };
    let image_count = choose_image_count(caps);
    let extent = choose_extent(caps, window);
    let pre_transform = choose_pre_transform(caps);
    if formats.len() == 0 {
        return Err(SetupError::NoFormatsAvailable);
    }
    let format = formats[0];
    Ok(SwapchainSettings { image_count, extent, present_mode, format, pre_transform })
}

/// Where a view takes a color channel from.
#[derive(Clone, Copy, Debug, PartialEq, Eq, Structural)]
pub enum Swizzle {
    Identity,
    One,
}

/// How a two-dimensional color view of one swapchain image is created: one
/// mip level, one array layer.
#[derive(Clone, Copy, Debug, PartialEq, Eq, Structural)]
pub struct ImageViewPlan {
    /// The image's raw driver handle.
    pub image: u64,
    pub format: i32,
    pub red: Swizzle,
    pub green: Swizzle,
    pub blue: Swizzle,
    pub alpha: Swizzle,
}

/// Identity channels, except alpha, which is the constant one: the images are
/// composed as fully opaque.
pub open spec fn spec_view_plan(image: u64, format: SurfaceFormat) -> ImageViewPlan {
    ImageViewPlan {
        image,
        format: format.format,
        red: Swizzle::Identity,
        green: Swizzle::Identity,
        blue: Swizzle::Identity,
        alpha: Swizzle::One,
    }
}

/// One view per swapchain image, in the order of the images.
pub fn image_view_plans(images: &Vec<u64>, format: SurfaceFormat) -> (r: Vec<ImageViewPlan>)
    ensures
        r@.len() == images@.len(),
        forall|i: int| 0 <= i < images@.len() ==> r@[i] == spec_view_plan(images@[i], format),
{
    let mut plans: Vec<ImageViewPlan> = Vec::new();
    let mut i: usize = 0;
    while i < images.len()
        invariant
            i <= images@.len(),
            plans@.len() == i,
            forall|j: int| 0 <= j < i ==> plans@[j] == spec_view_plan(images@[j], format),
        decreases images@.len() - i,
    {
        plans.push(
            ImageViewPlan {
                image: images[i],
                format: format.format,
                red: Swizzle::Identity,
                green: Swizzle::Identity,
                blue: Swizzle::Identity,
                alpha: Swizzle::One,
            },
        );
        i = i + 1;
    }
    plans
}

} // verus!
