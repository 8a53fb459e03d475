//! Negotiating the ring of presentable images with a surface.

use vstd::prelude::*;
use crate::device::Device;
use crate::error::{ConfigurationError, Error, ResourceError, SynchronizationError};
use crate::format::{Format, B8G8R8A8_UNORM, COLOR_SPACE_SRGB_NONLINEAR};
use crate::image_view::{ImageView, ImageViewCreateInfo, ImageViewType, ASPECT_COLOR};
use crate::queue::Queue;
use crate::registry::{Object, ObjectKind};
use crate::surface::{Extent2D, PresentMode, Surface, SurfaceCapabilities, SurfaceExtent, SurfaceFormat};
use crate::surface::{query_failed, report_index};

verus! {

/// The image count to ask for: one more than the surface's minimum, so that
/// producer and consumer do not wait on each other, but no more than its
/// maximum where it has one.
pub open spec fn wanted_image_count(capabilities: SurfaceCapabilities) -> int {
    let desired = capabilities.min_image_count + 1;
    if capabilities.max_image_count != 0 && capabilities.max_image_count < desired {
        capabilities.max_image_count as int
    } else {
        desired
    }
}

/// The surface format this viewer likes best: 8-bit BGRA, sRGB non-linear.
pub open spec fn preferred_surface_format() -> SurfaceFormat {
    SurfaceFormat { format: Format { raw: B8G8R8A8_UNORM }, color_space: COLOR_SPACE_SRGB_NONLINEAR }
}

/// The format to use among those supported: the preferred one where it is
/// there, else whatever comes first.
pub open spec fn chosen_surface_format(formats: Seq<SurfaceFormat>) -> Option<SurfaceFormat> {
    if formats.contains(preferred_surface_format()) {
        Some(preferred_surface_format())
    } else if formats.len() > 0 {
        Some(formats[0])
    } else {
        None
    }
}

/// Whether the surface leaves its size to the images presented to it.
pub open spec fn any_extent(capabilities: SurfaceCapabilities) -> bool {
    capabilities.current_extent.width == u32::MAX && capabilities.current_extent.height
        == u32::MAX
}

/// `value` moved into `[low, high]`.
pub open spec fn clamped(value: u32, low: u32, high: u32) -> u32 {
    if value < low {
        low
    } else if value > high {
        high
    } else {
        value
    }
}

/// The extent of the images: the surface's own where it has one, else the
/// target's, moved into the limits.
pub open spec fn chosen_extent(capabilities: SurfaceCapabilities, target: Extent2D) -> Extent2D {
    if any_extent(capabilities) {
        Extent2D {
            width: clamped(
                target.width,
                capabilities.min_image_extent.width,
                capabilities.max_image_extent.width,
            ),
            height: clamped(
                target.height,
                capabilities.min_image_extent.height,
                capabilities.max_image_extent.height,
            ),
        }
    } else {
        capabilities.current_extent
    }
}

/// The present mode to use: the lowest latency on offer.
pub open spec fn chosen_present_mode(modes: Seq<PresentMode>) -> PresentMode {
    if modes.contains(PresentMode::Mailbox) {
        PresentMode::Mailbox
    } else if modes.contains(PresentMode::Immediate) {
        PresentMode::Immediate
    } else {
        PresentMode::Fifo
    }
}

/// Whether the limits can be negotiated at all: the image count fits its
/// type, and where the extent is to be clamped the limits are in order.
pub open spec fn negotiable(capabilities: SurfaceCapabilities) -> bool {
    &&& wanted_image_count(capabilities) <= u32::MAX
    &&& any_extent(capabilities) ==> capabilities.min_image_extent.width
        <= capabilities.max_image_extent.width && capabilities.min_image_extent.height
        <= capabilities.max_image_extent.height
}

/// Everything that is settled before the presentable images are made.
#[derive(Clone, Copy, Debug, PartialEq, Eq, Structural)]
pub struct SwapchainConfig {
    pub min_image_count: u32,
    pub surface_format: SurfaceFormat,
    pub extent: Extent2D,
    pub present_mode: PresentMode,
    pub pre_transform: u32,
}

/// The configuration for the given reports and target extent, or the reason
/// there is none.
pub open spec fn planned(
    capabilities: SurfaceCapabilities,
    formats: Seq<SurfaceFormat>,
    present_modes: Seq<PresentMode>,
    target: Extent2D,
) -> Result<SwapchainConfig, ConfigurationError> {
    match chosen_surface_format(formats) {
        Some(surface_format) => Ok(
            SwapchainConfig {
                min_image_count: wanted_image_count(capabilities) as u32,
                surface_format,
                extent: chosen_extent(capabilities, target),
                present_mode: chosen_present_mode(present_modes),
                pre_transform: capabilities.current_transform,
            },
        ),
        None => Err(ConfigurationError::NoSurfaceFormat),
    }
}

/// A request to show an image of a swapchain.
#[derive(Clone, Debug)]
pub struct PresentInfo {
    pub queue: u64,
    pub swapchain: u64,
    pub image_index: u32,
    /// The semaphores that must be signaled before the image is shown.
    pub wait_semaphores: Vec<u64>,
}

/// How well a shown image matched the surface.
#[derive(Clone, Copy, Debug, PartialEq, Eq, Structural)]
pub enum PresentResult {
    Optimal,
    /// Shown, but the swapchain no longer matches the surface exactly.
    Suboptimal,
}

/// The ring of presentable images and the views onto them.
pub struct Swapchain {
    format: Format,
    extent: Extent2D,
    handle: u64,
    image_views: Vec<ImageView>,
}

impl Swapchain {
    /// The views onto the presentable images, in ring order.
    pub closed spec fn views(&self) -> Seq<ImageView> {
        self.image_views@
    }

    /// The format of the images.
    pub closed spec fn image_format(&self) -> Format {
        self.format
    }

    /// The extent of the images.
    pub closed spec fn image_extent(&self) -> Extent2D {
        self.extent
    }

    /// The swapchain's handle.
    pub closed spec fn id(&self) -> u64 {
        self.handle
    }

    pub fn get_min_images_count(capabilities: &SurfaceCapabilities) -> (count: u32)
        requires
            wanted_image_count(*capabilities) <= u32::MAX,
        ensures
            count == wanted_image_count(*capabilities),
    {
        let min_image_count: u32 = capabilities.min_image_count;
        let max_image_count: u32 = capabilities.max_image_count;
        if max_image_count != 0 && max_image_count <= min_image_count {
            max_image_count
        } else {
            min_image_count + 1
        }
    }

    pub fn get_surface_format(formats: &[SurfaceFormat]) -> (chosen: Option<SurfaceFormat>)
        ensures
            chosen == chosen_surface_format(formats@),
    {
        let desired = SurfaceFormat {
            format: Format { raw: B8G8R8A8_UNORM },
            color_space: COLOR_SPACE_SRGB_NONLINEAR,
        };
        let mut i: usize = 0;
        while i < formats.len()
            invariant
                i <= formats@.len(),
                desired == preferred_surface_format(),
                forall|j: int| 0 <= j < i ==> formats@[j] != desired,
            decreases formats@.len() - i,
        {
            if formats[i].format.raw == desired.format.raw && formats[i].color_space
                == desired.color_space {
                return Some(formats[i]);
            }
            i += 1;
        }
        if formats.len() > 0 {
            Some(formats[0])
        } else {
            None
        }
    }

    pub fn get_extent(capabilities: &SurfaceCapabilities, surface_extent: Extent2D) -> (extent:
        Extent2D)
        requires
            any_extent(*capabilities) ==> capabilities.min_image_extent.width
                <= capabilities.max_image_extent.width && capabilities.min_image_extent.height
                <= capabilities.max_image_extent.height,
        ensures
            extent == chosen_extent(*capabilities, surface_extent),
    {
        let current_extent = capabilities.current_extent;
        let special_value = current_extent.width == u32::MAX && current_extent.height == u32::MAX;
        if special_value {
            let min_image_extent = capabilities.min_image_extent;
            let max_image_extent = capabilities.max_image_extent;
            let width = clamp(surface_extent.width, min_image_extent.width, max_image_extent.width);
            let height = clamp(
                surface_extent.height,
                min_image_extent.height,
                max_image_extent.height,
            );
            Extent2D { width, height }
        } else {
            current_extent
        }
    }

    pub fn get_present_mode(present_modes: &[PresentMode]) -> (mode: PresentMode)
        ensures
            mode == chosen_present_mode(present_modes@),
    {
        if contains_mode(present_modes, PresentMode::Mailbox) {
            PresentMode::Mailbox
        } else if contains_mode(present_modes, PresentMode::Immediate) {
            PresentMode::Immediate
        } else {
            PresentMode::Fifo
        }
    }

    /// Whether the limits can be negotiated at all.
    pub fn can_negotiate(capabilities: &SurfaceCapabilities) -> (yes: bool)
        ensures
            yes == negotiable(*capabilities),
    {
        let count_fits = capabilities.max_image_count != 0 || capabilities.min_image_count
            < u32::MAX;
        let any = capabilities.current_extent.width == u32::MAX
            && capabilities.current_extent.height == u32::MAX;
        let in_order = capabilities.min_image_extent.width <= capabilities.max_image_extent.width
            && capabilities.min_image_extent.height <= capabilities.max_image_extent.height;
        count_fits && (!any || in_order)
    }

    /// Settles image count, format, extent and present mode from what the
    /// surface reported and the size of the presentation target.
    pub fn plan(
        capabilities: &SurfaceCapabilities,
        formats: &[SurfaceFormat],
        present_modes: &[PresentMode],
        target: Extent2D,
    ) -> (outcome: Result<SwapchainConfig, ConfigurationError>)
        requires
            negotiable(*capabilities),
        ensures
            outcome == planned(*capabilities, formats@, present_modes@, target),
    {
        let min_image_count = Self::get_min_images_count(capabilities);
        match Self::get_surface_format(formats) {
            Some(surface_format) => {
                let extent = Self::get_extent(capabilities, target);
                let present_mode = Self::get_present_mode(present_modes);
                Ok(
                    SwapchainConfig {
                        min_image_count,
                        surface_format,
                        extent,
                        present_mode,
                        pre_transform: capabilities.current_transform,
                    },
                )
            },
            None => Err(ConfigurationError::NoSurfaceFormat),
        }
    }

    /// Whether the limits that `surface` reports for the device can be
    /// negotiated. Where it reports none this holds.
    pub open spec fn negotiable_on<T>(device: &Device, surface: &Surface<T>) -> bool {
        match report_index(surface.reports(), device.physical().handle, 0) {
            Some(i) => match surface.reports()[i].capabilities {
                Some(capabilities) => negotiable(capabilities),
                None => true,
            },
            None => true,
        }
    }

    /// What `configure` gives where the presentation target has the size
    /// `target`: the first failed query as an error, else the plan.
    pub open spec fn configured<T>(device: &Device, surface: &Surface<T>, target: Extent2D) -> Result<
        SwapchainConfig,
        Error,
    > {
        match report_index(surface.reports(), device.physical().handle, 0) {
            Some(i) => {
                let report = surface.reports()[i];
                if report.capabilities.is_none() || report.present_modes.is_none()
                    || report.formats.is_none() {
                    Err(query_failed())
                } else {
                    match planned(
                        report.capabilities.unwrap(),
                        report.formats.unwrap()@,
                        report.present_modes.unwrap()@,
                        target,
                    ) {
                        Ok(config) => Ok(config),
                        Err(error) => Err(Error::Configuration(error)),
                    }
                }
            },
            None => Err(query_failed()),
        }
    }

    /// Settles the configuration for presenting to `surface` from `device`.
    /// The size of the presentation target is asked of the surface's owner,
    /// so the outcome is the one for some target size.
    pub fn configure<T: SurfaceExtent>(device: &Device, surface: &Surface<T>) -> (outcome: Result<
        SwapchainConfig,
        Error,
    >)
        requires
            Self::negotiable_on(device, surface),
        ensures
            exists|target: Extent2D| outcome == Self::configured(device, surface, target),
    {
        let physical_device = device.physical_device();
        let capabilities = match surface.capabilities(physical_device) {
            Ok(capabilities) => capabilities,
            Err(error) => {
                assert(Err::<SwapchainConfig, Error>(error) == Self::configured(
                    device,
                    surface,
                    Extent2D { width: 0, height: 0 },
                ));
                return Err(error);
            },
        };
        let present_modes = match surface.present_modes(physical_device) {
            Ok(present_modes) => present_modes,
            Err(error) => {
                assert(Err::<SwapchainConfig, Error>(error) == Self::configured(
                    device,
                    surface,
                    Extent2D { width: 0, height: 0 },
                ));
                return Err(error);
            },
        };
        let formats = match surface.formats(physical_device) {
            Ok(formats) => formats,
            Err(error) => {
                assert(Err::<SwapchainConfig, Error>(error) == Self::configured(
                    device,
                    surface,
                    Extent2D { width: 0, height: 0 },
                ));
                return Err(error);
            },
        };
        let target = surface.extent();
        let outcome = match Self::plan(
            &capabilities,
            formats.as_slice(),
            present_modes.as_slice(),
            target,
        ) {
            Ok(config) => Ok(config),
            Err(error) => Err(Error::Configuration(error)),
        };
        assert(outcome == Self::configured(device, surface, target));
        outcome
    }

    /// What the view onto presentable image `image` is made of: a 2D view of
    /// the colour aspect, one mip level, one layer.
    pub fn image_view_info(config: &SwapchainConfig, image: u64) -> (info: ImageViewCreateInfo)
        ensures
            info == (ImageViewCreateInfo {
                image,
                view_type: ImageViewType::Type2D,
                format: config.surface_format.format,
                aspect_mask: ASPECT_COLOR,
                base_mip_level: 0,
                level_count: 1,
                base_array_layer: 0,
                layer_count: 1,
            }),
    {
        ImageViewCreateInfo {
            image,
            view_type: ImageViewType::Type2D,
            format: config.surface_format.format,
            aspect_mask: ASPECT_COLOR,
            base_mip_level: 0,
            level_count: 1,
            base_array_layer: 0,
            layer_count: 1,
        }
    }

    /// The swapchain made from `config`, with one view for each presentable
    /// image.
    pub fn new(config: &SwapchainConfig, handle: u64, image_views: Vec<ImageView>) -> (swapchain:
        Self)
        ensures
            swapchain.id() == handle,
            swapchain.image_format() == config.surface_format.format,
            swapchain.image_extent() == config.extent,
            swapchain.views() == image_views@,
    {
        Self { format: config.surface_format.format, extent: config.extent, handle, image_views }
    }

    pub fn handle(&self) -> (handle: u64)
        ensures
            handle == self.id(),
    {
        self.handle
    }

    pub fn extent(&self) -> (extent: Extent2D)
        ensures
            extent == self.image_extent(),
    {
        self.extent
    }

    pub fn format(&self) -> (format: Format)
        ensures
            format == self.image_format(),
    {
        self.format
    }

    pub fn image_views(&self) -> (views: &Vec<ImageView>)
        ensures
            views@ == self.views(),
    {
        &self.image_views
    }

    /// The size of the ring.
    pub fn image_count(&self) -> (count: usize)
        ensures
            count == self.views().len(),
    {
        self.image_views.len()
    }

    /// What came of acquiring the next image: an index outside the ring is
    /// an acquire failure, anything else is passed on.
    pub fn acquire_next_image(&self, acquired: Result<(u32, bool), SynchronizationError>) -> (outcome:
        Result<(u32, bool), SynchronizationError>)
        ensures
            outcome == match acquired {
                Ok((index, suboptimal)) => if index < self.views().len() {
                    Ok::<(u32, bool), SynchronizationError>((index, suboptimal))
                } else {
                    Err(SynchronizationError::Acquire)
                },
                Err(error) => Err(error),
            },
    {
        match acquired {
            Ok((index, suboptimal)) => if (index as usize) < self.image_views.len() {
                Ok((index, suboptimal))
            } else {
                Err(SynchronizationError::Acquire)
            },
            Err(error) => Err(error),
        }
    }
}

impl Swapchain {
    /// The request to show image `image_index` on `queue` once the
    /// semaphores are signaled. An image outside the ring cannot be shown.
    pub fn present(&self, queue: &Queue, image_index: u32, wait_semaphores: &[u64]) -> (outcome:
        Result<PresentInfo, SynchronizationError>)
        ensures
            if image_index < self.views().len() {
                outcome matches Ok(info) && info.queue == queue.id() && info.swapchain
                    == self.id() && info.image_index == image_index && info.wait_semaphores@
                    == wait_semaphores@
            } else {
                outcome matches Err(e) && e == SynchronizationError::Present
            },
    {
        if (image_index as usize) < self.image_views.len() {
            Ok(
                PresentInfo {
                    queue: queue.handle(),
                    swapchain: self.handle,
                    image_index,
                    wait_semaphores: vstd::slice::slice_to_vec(wait_semaphores),
                },
            )
        } else {
            Err(SynchronizationError::Present)
        }
    }

    /// What came of showing an image: the device says whether the swapchain
    /// still suits the surface; a failure is passed on.
    pub fn presented(shown: Result<bool, SynchronizationError>) -> (outcome: Result<
        PresentResult,
        SynchronizationError,
    >)
        ensures
            outcome == match shown {
                Ok(suboptimal) => Ok::<PresentResult, SynchronizationError>(
                    if suboptimal {
                        PresentResult::Suboptimal
                    } else {
                        PresentResult::Optimal
                    },
                ),
                Err(error) => Err(error),
            },
    {
        match shown {
            Ok(suboptimal) => Ok(
                if suboptimal {
                    PresentResult::Suboptimal
                } else {
                    PresentResult::Optimal
                },
            ),
            Err(error) => Err(error),
        }
    }
}

/// The number of views made before the first that could not be.
pub open spec fn views_made(views: Seq<Result<u64, ResourceError>>, from: int) -> int
    decreases views.len() - from,
{
    if from < 0 || from >= views.len() || views[from].is_err() {
        from
    } else {
        views_made(views, from + 1)
    }
}

/// Why a swapchain could not be put together, and what is left to destroy,
/// in order.
#[derive(Clone, Debug)]
pub struct SwapchainFailure {
    pub error: ResourceError,
    pub destroy: Vec<Object>,
}

impl Swapchain {
    /// The swapchain with handle `handle` over `images`, from how making the
    /// view onto each image went, in order. Where a view is missing, because
    /// making it failed or because there are not as many outcomes as images,
    /// there is no swapchain: the failure comes with what is left to
    /// destroy, the views made before it, youngest first, and then the
    /// swapchain itself.
    pub fn with_views(
        config: &SwapchainConfig,
        handle: u64,
        images: &[u64],
        views: &[Result<u64, ResourceError>],
    ) -> (outcome: Result<Self, SwapchainFailure>)
        ensures
            ({
                let made = views_made(views@, 0);
                if made == views@.len() && views@.len() == images@.len() {
                    outcome matches Ok(swapchain) && swapchain.id() == handle
                        && swapchain.image_format() == config.surface_format.format
                        && swapchain.image_extent() == config.extent && swapchain.views().len()
                        == images@.len() && forall|i: int|
                        0 <= i < images@.len() ==> (#[trigger] swapchain.views()[i]).id()
                            == views@[i].unwrap() && swapchain.views()[i].source() == images@[i]
                } else {
                    outcome matches Err(failure) && failure.error == (if made < views@.len() {
                        views@[made].unwrap_err()
                    } else {
                        ResourceError::HandleCreation
                    }) && failure.destroy@ == Seq::new(
                        made as nat,
                        |k: int|
                            Object {
                                kind: ObjectKind::ImageView,
                                handle: views@[made - 1 - k].unwrap(),
                            },
                    ).push(Object { kind: ObjectKind::Swapchain, handle })
                }
            }),
    {
        let mut made: usize = 0;
        while made < views.len() && views[made].is_ok()
            invariant
                made <= views@.len(),
                views_made(views@, 0) == views_made(views@, made as int),
                forall|j: int| 0 <= j < made ==> (#[trigger] views@[j]).is_ok(),
            decreases views@.len() - made,
        {
            made += 1;
        }
        if made == views.len() && views.len() == images.len() {
            let mut image_views: Vec<ImageView> = Vec::new();
            let mut i: usize = 0;
            while i < made
                invariant
                    i <= made,
                    made == views@.len(),
                    made == images@.len(),
                    image_views@.len() == i,
                    forall|j: int| 0 <= j < made ==> (#[trigger] views@[j]).is_ok(),
                    forall|j: int|
                        0 <= j < i ==> (#[trigger] image_views@[j]).id() == views@[j].unwrap()
                            && image_views@[j].source() == images@[j],
                decreases made - i,
            {
                let info = Self::image_view_info(config, images[i]);
                match views[i] {
                    Ok(view) => {
                        image_views.push(ImageView::new(view, &info));
                    },
                    Err(_) => {},
                }
                i += 1;
            }
            Ok(Self::new(config, handle, image_views))
        } else {
            let error = if made < views.len() {
                match views[made] {
                    Err(error) => error,
                    Ok(_) => ResourceError::HandleCreation,
                }
            } else {
                ResourceError::HandleCreation
            };
            let mut destroy: Vec<Object> = Vec::new();
            let mut left: usize = made;
            while left > 0
                invariant
                    left <= made,
                    made <= views@.len(),
                    destroy@.len() == made - left,
                    forall|j: int| 0 <= j < made ==> (#[trigger] views@[j]).is_ok(),
                    forall|k: int|
                        0 <= k < destroy@.len() ==> destroy@[k] == (Object {
                            kind: ObjectKind::ImageView,
                            handle: views@[made - 1 - k].unwrap(),
                        }),
                decreases left,
            {
                left -= 1;
                match views[left] {
                    Ok(view) => {
                        destroy.push(Object { kind: ObjectKind::ImageView, handle: view });
                    },
                    Err(_) => {},
                }
            }
            destroy.push(Object { kind: ObjectKind::Swapchain, handle });
            assert(destroy@ =~= Seq::new(
                made as nat,
                |k: int|
                    Object { kind: ObjectKind::ImageView, handle: views@[made - 1 - k].unwrap() },
            ).push(Object { kind: ObjectKind::Swapchain, handle }));
            Err(SwapchainFailure { error, destroy })
        }
    }
}

/// A target within the limits is taken as it is.
pub proof fn lemma_extent_within_limits(capabilities: SurfaceCapabilities, target: Extent2D)
    requires
        any_extent(capabilities),
        capabilities.min_image_extent.width <= target.width <= capabilities.max_image_extent.width,
        capabilities.min_image_extent.height <= target.height
            <= capabilities.max_image_extent.height,
    ensures
        chosen_extent(capabilities, target) == target,
{
}

/// The distance between two lengths.
pub open spec fn distance(a: u32, b: u32) -> int {
    if a < b {
        b - a
    } else {
        a - b
    }
}

/// Each side of the chosen extent lies within the limits, and no length
/// within the limits is nearer to the target's: a target outside the limits
/// is moved to the nearest bound.
pub proof fn lemma_extent_nearest(capabilities: SurfaceCapabilities, target: Extent2D, other: Extent2D)
    requires
        any_extent(capabilities),
        capabilities.min_image_extent.width <= capabilities.max_image_extent.width,
        capabilities.min_image_extent.height <= capabilities.max_image_extent.height,
        capabilities.min_image_extent.width <= other.width <= capabilities.max_image_extent.width,
        capabilities.min_image_extent.height <= other.height
            <= capabilities.max_image_extent.height,
    ensures
        capabilities.min_image_extent.width <= chosen_extent(capabilities, target).width
            <= capabilities.max_image_extent.width,
        capabilities.min_image_extent.height <= chosen_extent(capabilities, target).height
            <= capabilities.max_image_extent.height,
        distance(target.width, chosen_extent(capabilities, target).width) <= distance(
            target.width,
            other.width,
        ),
        distance(target.height, chosen_extent(capabilities, target).height) <= distance(
            target.height,
            other.height,
        ),
        target.width < capabilities.min_image_extent.width ==> chosen_extent(
            capabilities,
            target,
        ).width == capabilities.min_image_extent.width,
        target.width > capabilities.max_image_extent.width ==> chosen_extent(
            capabilities,
            target,
        ).width == capabilities.max_image_extent.width,
        target.height < capabilities.min_image_extent.height ==> chosen_extent(
            capabilities,
            target,
        ).height == capabilities.min_image_extent.height,
        target.height > capabilities.max_image_extent.height ==> chosen_extent(
            capabilities,
            target,
        ).height == capabilities.max_image_extent.height,
{
}

/// The image count asked for is one above the minimum unless the maximum
/// forbids it, and never above a maximum that is set.
pub proof fn lemma_image_count_bounds(capabilities: SurfaceCapabilities)
    ensures
        wanted_image_count(capabilities) <= capabilities.min_image_count + 1,
        capabilities.max_image_count != 0 ==> wanted_image_count(capabilities)
            <= capabilities.max_image_count,
        capabilities.max_image_count == 0 || capabilities.max_image_count
            > capabilities.min_image_count ==> wanted_image_count(capabilities)
            == capabilities.min_image_count + 1,
{
}

/// The present mode chosen is on offer, or it is the one every surface has.
pub proof fn lemma_present_mode_on_offer(modes: Seq<PresentMode>)
    ensures
        modes.contains(chosen_present_mode(modes)) || chosen_present_mode(modes)
            == PresentMode::Fifo,
        chosen_present_mode(modes) == PresentMode::Mailbox <==> modes.contains(
            PresentMode::Mailbox,
        ),
{
}

/// `value` moved into `[low, high]`.
fn clamp(value: u32, low: u32, high: u32) -> (moved: u32)
    requires
        low <= high,
    ensures
        moved == clamped(value, low, high),
{
    if value < low {
        low
    } else if value > high {
        high
    } else {
        value
    }
}

/// Whether `wanted` is among `modes`.
fn contains_mode(modes: &[PresentMode], wanted: PresentMode) -> (found: bool)
    ensures
        found == modes@.contains(wanted),
{
    let mut i: usize = 0;
    while i < modes.len()
        invariant
            i <= modes@.len(),
            forall|j: int| 0 <= j < i ==> modes@[j] != wanted,
        decreases modes@.len() - i,
    {
        if modes[i] == wanted {
            return true;
        }
        i += 1;
    }
    false
}

} // verus!
