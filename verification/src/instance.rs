//! The API context: the version agreed on and the physical devices found.

use vstd::prelude::*;
use crate::error::ConfigurationError;
use crate::version::{make_api_version, major_of, minor_of, patch_of};
use crate::version::{packed_version, version_major, version_minor, version_patch};

verus! {

/// Bit of `queue_flags` that marks a family able to draw.
pub const QUEUE_GRAPHICS: u32 = 1;

/// What one queue family of a physical device offers.
#[derive(Clone, Copy, Debug, PartialEq, Eq, Structural)]
pub struct QueueFamilyProperties {
    pub queue_flags: u32,
    pub queue_count: u32,
}

impl QueueFamilyProperties {
    /// Whether the family can draw.
    pub open spec fn graphics(self) -> bool {
        self.queue_flags & QUEUE_GRAPHICS == QUEUE_GRAPHICS
    }

    /// Whether the family can draw.
    pub fn supports_graphics(&self) -> (yes: bool)
        ensures
            yes == self.graphics(),
    {
        self.queue_flags & QUEUE_GRAPHICS == QUEUE_GRAPHICS
    }
}

/// A physical device as discovered: its handle and what it can do. Never
/// changed after discovery.
#[derive(Clone, Debug)]
pub struct PhysicalDevice {
    pub handle: u64,
    pub queue_families_properties: Vec<QueueFamilyProperties>,
    pub api_version: u32,
    pub device_name: String,
}

impl PhysicalDevice {
    pub fn new(
        handle: u64,
        queue_families_properties: Vec<QueueFamilyProperties>,
        api_version: u32,
        device_name: String,
    ) -> (device: Self)
        ensures
            device.handle == handle,
            device.queue_families_properties == queue_families_properties,
            device.api_version == api_version,
            device.device_name == device_name,
    {
        Self { handle, queue_families_properties, api_version, device_name }
    }

    pub fn handle(&self) -> (handle: u64)
        ensures
            handle == self.handle,
    {
        self.handle
    }

    pub fn queue_families_properties(&self) -> (families: &Vec<QueueFamilyProperties>)
        ensures
            *families == self.queue_families_properties,
    {
        &self.queue_families_properties
    }
}

/// The version that start-up asks the API for. The patch part of a 1.0.x
/// request cannot be checked, so any such request counts as 1.0.0.
pub open spec fn effective_version(required: u32) -> u32 {
    if packed_version(version_major(required), version_minor(required), 0) == packed_version(
        1,
        0,
        0,
    ) {
        packed_version(1, 0, 0)
    } else {
        required
    }
}

/// The outcome of version negotiation: `available` is what the loader
/// reports, `None` where it cannot report (which means 1.0.0).
pub open spec fn negotiated_version(required: u32, available: Option<u32>) -> Result<
    u32,
    ConfigurationError,
> {
    let installed = match available {
        Some(version) => version,
        None => packed_version(1, 0, 0),
    };
    if installed < effective_version(required) {
        Err(
            ConfigurationError::VersionUnavailable {
                major: version_major(required),
                minor: version_minor(required),
                patch: version_patch(required),
            },
        )
    } else {
        Ok(effective_version(required))
    }
}

/// The API context once created: the version in use and the devices found.
#[derive(Debug)]
pub struct Instance {
    api_version: u32,
    physical_devices: Vec<PhysicalDevice>,
}

impl Instance {
    /// The version in use.
    pub closed spec fn version(&self) -> u32 {
        self.api_version
    }

    /// The devices found, in discovery order.
    pub closed spec fn devices(&self) -> Seq<PhysicalDevice> {
        self.physical_devices@
    }

    /// Decides which version to create the context with, or that the
    /// installed API is too old.
    pub fn negotiate_version(required_version: u32, available: Option<u32>) -> (outcome: Result<
        u32,
        ConfigurationError,
    >)
        ensures
            outcome == negotiated_version(required_version, available),
    {
        let major: u32 = major_of(required_version);
        let minor: u32 = minor_of(required_version);
        let patch: u32 = patch_of(required_version);
        let version_1_0: u32 = make_api_version(1, 0, 0);
        let version_1_0_x_requested = version_1_0 == make_api_version(major, minor, 0);
        let required: u32 = if version_1_0_x_requested {
            version_1_0
        } else {
            required_version
        };
        let installed: u32 = match available {
            Some(version) => version,
            None => version_1_0,
        };
        if installed < required {
            Err(ConfigurationError::VersionUnavailable { major, minor, patch })
        } else {
            Ok(required)
        }
    }

    /// The context for a required version, given what the loader reports and
    /// the devices it enumerates.
    pub fn new(
        required_version: u32,
        available: Option<u32>,
        physical_devices: Vec<PhysicalDevice>,
    ) -> (outcome: Result<Self, ConfigurationError>)
        ensures
            match negotiated_version(required_version, available) {
                Ok(version) => outcome.is_ok() && outcome.unwrap().version() == version
                    && outcome.unwrap().devices() == physical_devices@,
                Err(error) => outcome == Err::<Self, ConfigurationError>(error),
            },
    {
        match Self::negotiate_version(required_version, available) {
            Ok(api_version) => Ok(Self { api_version, physical_devices }),
            Err(error) => Err(error),
        }
    }

    pub fn api_version(&self) -> (version: u32)
        ensures
            version == self.version(),
    {
        self.api_version
    }

    pub fn physical_devices(&self) -> (devices: &Vec<PhysicalDevice>)
        ensures
            devices@ == self.devices(),
    {
        &self.physical_devices
    }
}

} // verus!
