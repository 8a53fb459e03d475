//! The logical device: the physical device it was made on and what that
//! device can do with each format.

use vstd::prelude::*;
use crate::format::{Format, FormatProperties, ImageTiling};
use crate::instance::PhysicalDevice;

verus! {

/// The properties of one format on a physical device.
#[derive(Clone, Copy, Debug, PartialEq, Eq, Structural)]
pub struct FormatSupport {
    pub format: Format,
    pub properties: FormatProperties,
}

/// Whether a format with `properties` offers all of `features` under
/// `tiling`.
pub open spec fn offers(properties: FormatProperties, tiling: ImageTiling, features: u32) -> bool {
    (tiling == ImageTiling::Optimal && properties.optimal_tiling_features & features == features)
        || (tiling == ImageTiling::Linear && properties.linear_tiling_features & features
        == features)
}

/// The properties that `table` records for `format` at or after `from`: those
/// of its first entry, or none at all where it has no entry.
pub open spec fn recorded_properties(table: Seq<FormatSupport>, format: Format, from: int) -> FormatProperties
    decreases table.len() - from,
{
    if from < 0 || from >= table.len() {
        FormatProperties { linear_tiling_features: 0, optimal_tiling_features: 0 }
    } else if table[from].format == format {
        table[from].properties
    } else {
        recorded_properties(table, format, from + 1)
    }
}

/// A logical device.
pub struct Device<'a> {
    handle: u64,
    physical_device: &'a PhysicalDevice,
    format_support: Vec<FormatSupport>,
}

impl<'a> Device<'a> {
    /// The device's handle.
    pub closed spec fn id(&self) -> u64 {
        self.handle
    }

    /// The physical device it was made on.
    pub closed spec fn physical(&self) -> PhysicalDevice {
        *self.physical_device
    }

    /// What the physical device reported for the formats asked about.
    pub closed spec fn format_table(&self) -> Seq<FormatSupport> {
        self.format_support@
    }

    /// Whether `format` can be used with `features` under `tiling` here.
    pub open spec fn usable(&self, format: Format, tiling: ImageTiling, features: u32) -> bool {
        offers(recorded_properties(self.format_table(), format, 0), tiling, features)
    }

    /// The device with handle `handle`, made on `physical_device`, which
    /// reported `format_support`.
    pub fn new(handle: u64, physical_device: &'a PhysicalDevice, format_support: Vec<FormatSupport>) -> (device:
        Self)
        ensures
            device.id() == handle,
            device.physical() == *physical_device,
            device.format_table() == format_support@,
    {
        Self { handle, physical_device, format_support }
    }

    pub fn handle(&self) -> (handle: u64)
        ensures
            handle == self.id(),
    {
        self.handle
    }

    pub fn physical_device(&self) -> (physical_device: &PhysicalDevice)
        ensures
            *physical_device == self.physical(),
    {
        self.physical_device
    }

    /// The properties recorded for `format`.
    fn format_properties(&self, format: Format) -> (properties: FormatProperties)
        ensures
            properties == recorded_properties(self.format_table(), format, 0),
    {
        let mut i: usize = 0;
        while i < self.format_support.len()
            invariant
                i <= self.format_support@.len(),
                recorded_properties(self.format_support@, format, 0) == recorded_properties(
                    self.format_support@,
                    format,
                    i as int,
                ),
            decreases self.format_support@.len() - i,
        {
            if self.format_support[i].format == format {
                return self.format_support[i].properties;
            }
            i += 1;
        }
        FormatProperties { linear_tiling_features: 0, optimal_tiling_features: 0 }
    }

    /// The first of `candidates` that offers all of `features` under
    /// `tiling`, if there is one.
    pub fn find_supported_format(&self, candidates: &[Format], tiling: ImageTiling, features: u32) -> (found:
        Option<Format>)
        ensures
            match found {
                Some(format) => exists|i: int|
                    0 <= i < candidates@.len() && candidates@[i] == format && self.usable(
                        format,
                        tiling,
                        features,
                    ) && forall|j: int|
                        0 <= j < i ==> !self.usable(#[trigger] candidates@[j], tiling, features),
                None => forall|j: int|
                    0 <= j < candidates@.len() ==> !self.usable(
                        #[trigger] candidates@[j],
                        tiling,
                        features,
                    ),
            },
    {
        let mut i: usize = 0;
        while i < candidates.len()
            invariant
                i <= candidates@.len(),
                forall|j: int|
                    0 <= j < i ==> !self.usable(#[trigger] candidates@[j], tiling, features),
            decreases candidates@.len() - i,
        {
            let format = candidates[i];
            let properties = self.format_properties(format);
            let optimal = properties.optimal_tiling_features & features == features;
            let linear = properties.linear_tiling_features & features == features;
            if (tiling == ImageTiling::Optimal && optimal) || (tiling == ImageTiling::Linear
                && linear) {
                return Some(format);
            }
            i += 1;
        }
        None
    }
}

} // verus!
