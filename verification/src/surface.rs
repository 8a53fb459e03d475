//! The presentation surface and what it reports for each physical device.

use vstd::prelude::*;
use crate::error::{ConfigurationError, Error};
use crate::format::Format;
use crate::instance::{Instance, PhysicalDevice};

verus! {

/// A width and a height, in pixels.
#[derive(Clone, Copy, Debug, PartialEq, Eq, Structural)]
pub struct Extent2D {
    pub width: u32,
    pub height: u32,
}

/// How presentable images are handed to the display.
#[derive(Clone, Copy, Debug, PartialEq, Eq, Structural)]
pub enum PresentMode {
    /// No waiting for the display; may tear.
    Immediate,
    /// One queued image, replaced by newer ones: low latency, no tearing.
    Mailbox,
    /// A queue drained at the display's rate. Always available.
    Fifo,
    FifoRelaxed,
    /// A mode this library has no name for, by its code.
    Other(i32),
}

/// A pixel format together with the colour space it is shown in.
#[derive(Clone, Copy, Debug, PartialEq, Eq, Structural)]
pub struct SurfaceFormat {
    pub format: Format,
    pub color_space: i32,
}

/// The limits a surface puts on the images presented to it.
#[derive(Clone, Copy, Debug, PartialEq, Eq, Structural)]
pub struct SurfaceCapabilities {
    pub min_image_count: u32,
    /// 0 where the surface sets no upper limit.
    pub max_image_count: u32,
    /// The surface's size, or `u32::MAX` twice where the images decide it.
    pub current_extent: Extent2D,
    pub min_image_extent: Extent2D,
    pub max_image_extent: Extent2D,
    pub current_transform: u32,
}

/// What a surface reports for one physical device. A query that failed is
/// recorded as `None`.
#[derive(Clone, Debug)]
pub struct SurfaceReport {
    pub physical_device: u64,
    /// For each queue family, by index, whether it can present.
    pub queue_support: Vec<bool>,
    pub capabilities: Option<SurfaceCapabilities>,
    pub formats: Option<Vec<SurfaceFormat>>,
    pub present_modes: Option<Vec<PresentMode>>,
}

/// The error for a surface query that failed or was never made.
pub open spec fn query_failed() -> Error {
    Error::Configuration(ConfigurationError::SurfaceQueryFailed)
}

/// Something that knows its size on screen.
pub trait SurfaceExtent {
    fn extent(&self) -> Extent2D;
}

/// Something a surface can be made on: a window, usually.
pub trait CreateSurface: SurfaceExtent {
    /// Makes the native surface and gives its handle.
    fn create_surface(&self, instance: &Instance) -> Result<u64, Error>;

    /// The instance extensions that making a surface needs.
    fn required_extensions(&self) -> Result<Vec<String>, Error>;
}

/// The first report for the device `handle` among `reports[from..]`, if any.
pub open spec fn report_index(reports: Seq<SurfaceReport>, handle: u64, from: int) -> Option<int>
    decreases reports.len() - from,
{
    if from < 0 || from >= reports.len() {
        None
    } else if reports[from].physical_device == handle {
        Some(from)
    } else {
        report_index(reports, handle, from + 1)
    }
}

/// Whether `reports` say that family `queue_index` of device `handle` can
/// present. No report, or no such family, means no.
pub open spec fn reported_support(reports: Seq<SurfaceReport>, handle: u64, queue_index: u32) -> bool {
    match report_index(reports, handle, 0) {
        Some(i) => queue_index < reports[i].queue_support@.len()
            && reports[i].queue_support@[queue_index as int],
        None => false,
    }
}

/// A presentation surface, the target it was made on, and what it reported.
pub struct Surface<T> {
    handle: u64,
    owner: T,
    reports: Vec<SurfaceReport>,
}

impl<T> Surface<T> {
    /// The reports the surface was given.
    pub closed spec fn reports(&self) -> Seq<SurfaceReport> {
        self.reports@
    }

    /// The surface's handle.
    pub closed spec fn id(&self) -> u64 {
        self.handle
    }

    /// The target the surface was made on.
    pub closed spec fn target(&self) -> T {
        self.owner
    }

    /// The surface for the outcome `created` of making it on `owner`. It has
    /// reported nothing yet.
    pub fn from_created(owner: T, created: Result<u64, Error>) -> (outcome: Result<Self, Error>)
        ensures
            match created {
                Ok(handle) => outcome matches Ok(surface) && surface.id() == handle
                    && surface.target() == owner && surface.reports() == Seq::<
                    SurfaceReport,
                >::empty(),
                Err(error) => outcome matches Err(e) && e == error,
            },
    {
        match created {
            Ok(handle) => Ok(Self { handle, owner, reports: Vec::new() }),
            Err(error) => Err(error),
        }
    }

    /// Makes the surface on `owner`. Whether that succeeds is the owner's
    /// business; a surface that comes back has reported nothing yet.
    pub fn new(owner: T, instance: &Instance) -> (outcome: Result<Self, Error>) where
        T: CreateSurface,

        ensures
            outcome matches Ok(surface) ==> surface.target() == owner && surface.reports()
                == Seq::<SurfaceReport>::empty(),
    {
        let created = owner.create_surface(instance);
        Self::from_created(owner, created)
    }

    /// Takes note of what the surface reports for one physical device. Of
    /// several reports for one device the first counts.
    pub fn report(&mut self, report: SurfaceReport)
        ensures
            final(self).id() == old(self).id(),
            final(self).target() == old(self).target(),
            final(self).reports() == old(self).reports().push(report),
    {
        self.reports.push(report);
    }

    /// The target the surface was made on.
    pub fn owner(&self) -> (owner: &T)
        ensures
            *owner == self.target(),
    {
        &self.owner
    }

    pub fn handle(&self) -> (handle: u64)
        ensures
            handle == self.id(),
    {
        self.handle
    }

    /// The owner's current size.
    pub fn extent(&self) -> Extent2D where T: SurfaceExtent {
        self.owner.extent()
    }

    /// Position of the first report for `physical_device`.
    fn find_report(&self, physical_device: u64) -> (found: Option<usize>)
        ensures
            match found {
                Some(i) => report_index(self.reports(), physical_device, 0) == Some(i as int)
                    && i < self.reports().len()
                    && self.reports()[i as int].physical_device == physical_device,
                None => report_index(self.reports(), physical_device, 0).is_none(),
            },
    {
        let mut i: usize = 0;
        while i < self.reports.len()
            invariant
                i <= self.reports@.len(),
                report_index(self.reports@, physical_device, 0) == report_index(
                    self.reports@,
                    physical_device,
                    i as int,
                ),
            decreases self.reports@.len() - i,
        {
            if self.reports[i].physical_device == physical_device {
                return Some(i);
            }
            i += 1;
        }
        None
    }

    /// Whether queue family `queue_index` of `physical_device` can present to
    /// this surface. A failed or missing query counts as no.
    pub fn physical_device_support(&self, physical_device: &PhysicalDevice, queue_index: u32) -> (yes:
        bool)
        ensures
            yes == reported_support(self.reports(), physical_device.handle, queue_index),
    {
        match self.find_report(physical_device.handle) {
            Some(i) => {
                let support = &self.reports[i].queue_support;
                (queue_index as usize) < support.len() && support[queue_index as usize]
            },
            None => false,
        }
    }

    /// The limits reported for `physical_device`.
    pub fn capabilities(&self, physical_device: &PhysicalDevice) -> (outcome: Result<
        SurfaceCapabilities,
        Error,
    >)
        ensures
            outcome == match report_index(self.reports(), physical_device.handle, 0) {
                Some(i) => match self.reports()[i].capabilities {
                    Some(capabilities) => Ok::<SurfaceCapabilities, Error>(capabilities),
                    None => Err(query_failed()),
                },
                None => Err(query_failed()),
            },
    {
        match self.find_report(physical_device.handle) {
            Some(i) => match self.reports[i].capabilities {
                Some(capabilities) => Ok(capabilities),
                None => Err(Error::Configuration(ConfigurationError::SurfaceQueryFailed)),
            },
            None => Err(Error::Configuration(ConfigurationError::SurfaceQueryFailed)),
        }
    }

    /// The formats reported for `physical_device`, in the order reported.
    pub fn formats(&self, physical_device: &PhysicalDevice) -> (outcome: Result<
        &Vec<SurfaceFormat>,
        Error,
    >)
        ensures
            match report_index(self.reports(), physical_device.handle, 0) {
                Some(i) => match self.reports()[i].formats {
                    Some(formats) => outcome matches Ok(found) && found@ == formats@,
                    None => outcome matches Err(e) && e == query_failed(),
                },
                None => outcome matches Err(e) && e == query_failed(),
            },
    {
        match self.find_report(physical_device.handle) {
            Some(i) => match &self.reports[i].formats {
                Some(formats) => Ok(formats),
                None => Err(Error::Configuration(ConfigurationError::SurfaceQueryFailed)),
            },
            None => Err(Error::Configuration(ConfigurationError::SurfaceQueryFailed)),
        }
    }

    /// The present modes reported for `physical_device`, in the order
    /// reported.
    pub fn present_modes(&self, physical_device: &PhysicalDevice) -> (outcome: Result<
        &Vec<PresentMode>,
        Error,
    >)
        ensures
            match report_index(self.reports(), physical_device.handle, 0) {
                Some(i) => match self.reports()[i].present_modes {
                    Some(modes) => outcome matches Ok(found) && found@ == modes@,
                    None => outcome matches Err(e) && e == query_failed(),
                },
                None => outcome matches Err(e) && e == query_failed(),
            },
    {
        match self.find_report(physical_device.handle) {
            Some(i) => match &self.reports[i].present_modes {
                Some(modes) => Ok(modes),
                None => Err(Error::Configuration(ConfigurationError::SurfaceQueryFailed)),
            },
            None => Err(Error::Configuration(ConfigurationError::SurfaceQueryFailed)),
        }
    }
}

} // verus!
