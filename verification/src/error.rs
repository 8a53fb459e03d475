//! The failures that end a run, by kind.

use vstd::prelude::*;

verus! {

/// Nothing suitable was found among what the machine offers; raised before
/// any resource exists.
#[derive(Clone, Copy, Debug, PartialEq, Eq, Structural)]
pub enum ConfigurationError {
    /// The installed API is older than the version asked for.
    VersionUnavailable { major: u32, minor: u32, patch: u32 },
    /// No physical device has a queue family that both draws and presents.
    NoSuitableDevice,
    /// The surface reports no format at all.
    NoSurfaceFormat,
    /// None of the candidate depth formats is supported.
    NoDepthFormat,
    /// The surface could not say what it supports on the device.
    SurfaceQueryFailed,
}

/// A device object or a memory region could not be made or used.
#[derive(Clone, Copy, Debug, PartialEq, Eq, Structural)]
pub enum ResourceError {
    /// The device refused to create the handle.
    HandleCreation,
    /// The allocator reported that the requested heap is exhausted.
    OutOfMemory,
    /// Binding the memory region to the handle failed.
    Bind,
    /// The memory behind the resource cannot be written by the host.
    NotHostVisible,
    /// Making host writes visible to the device failed.
    Flush,
    /// The allocation token names no live allocation.
    UnknownAllocation,
}

/// A wait, an acquire or a present came back with an abnormal status.
#[derive(Clone, Copy, Debug, PartialEq, Eq, Structural)]
pub enum SynchronizationError {
    /// A fence or semaphore wait failed or timed out.
    Wait,
    /// Resetting a fence failed.
    Reset,
    /// Acquiring the next presentable image failed.
    Acquire,
    /// The presentable images no longer match the surface.
    OutOfDate,
    /// Queue submission failed.
    Submit,
    /// Presentation failed.
    Present,
    /// Waiting for the device to go idle failed.
    Idle,
    /// A result arrived that the current step was not waiting for.
    OutOfOrder,
}

/// The scene asset asks for something this viewer cannot draw.
#[derive(Clone, Copy, Debug, PartialEq, Eq, Structural)]
pub enum AssetError {
    /// A primitive without vertex positions.
    NoPositions,
    /// An accessor without a buffer view, as sparse accessors are.
    SparseAccessor,
    /// A primitive drawn as a line loop.
    UnsupportedTopology,
    /// An accessor of matrices.
    UnsupportedAccessorType,
}

/// Any failure of the viewer core.
#[derive(Clone, Copy, Debug, PartialEq, Eq, Structural)]
pub enum Error {
    Configuration(ConfigurationError),
    Resource(ResourceError),
    Synchronization(SynchronizationError),
    Asset(AssetError),
    /// A shader blob or a buffer file was missing or unreadable.
    Io,
}

/// The decimal digit for a number below ten.
pub open spec fn digit(d: nat) -> char {
    if d == 0 {
        '0'
    } else if d == 1 {
        '1'
    } else if d == 2 {
        '2'
    } else if d == 3 {
        '3'
    } else if d == 4 {
        '4'
    } else if d == 5 {
        '5'
    } else if d == 6 {
        '6'
    } else if d == 7 {
        '7'
    } else if d == 8 {
        '8'
    } else {
        '9'
    }
}

/// A number written in decimal, without leading zeros.
pub open spec fn decimal(n: nat) -> Seq<char>
    decreases n,
{
    if n < 10 {
        seq![digit(n)]
    } else {
        decimal(n / 10).push(digit(n % 10))
    }
}

/// The digit for a number below ten, as text.
fn digit_text(d: u32) -> (text: &'static str)
    requires
        d < 10,
    ensures
        text@ == seq![digit(d as nat)],
{
    proof {
        reveal_strlit("0");
        reveal_strlit("1");
        reveal_strlit("2");
        reveal_strlit("3");
        reveal_strlit("4");
        reveal_strlit("5");
        reveal_strlit("6");
        reveal_strlit("7");
        reveal_strlit("8");
        reveal_strlit("9");
    }
    let text = if d == 0 {
        "0"
    } else if d == 1 {
        "1"
    } else if d == 2 {
        "2"
    } else if d == 3 {
        "3"
    } else if d == 4 {
        "4"
    } else if d == 5 {
        "5"
    } else if d == 6 {
        "6"
    } else if d == 7 {
        "7"
    } else if d == 8 {
        "8"
    } else {
        "9"
    };
    assert(text@ =~= seq![digit(d as nat)]);
    text
}

/// Appends `n` in decimal.
fn push_decimal(text: &mut String, n: u32)
    ensures
        final(text)@ == old(text)@ + decimal(n as nat),
    decreases n,
{
    if n >= 10 {
        push_decimal(text, n / 10);
    }
    text.push_str(digit_text(n % 10));
    proof {
        if n >= 10 {
            assert(text@ =~= old(text)@ + decimal(n as nat));
        } else {
            assert(text@ =~= old(text)@ + decimal(n as nat));
        }
    }
}

/// What a configuration failure is reported as.
pub open spec fn configuration_text(error: ConfigurationError) -> Seq<char> {
    match error {
        ConfigurationError::VersionUnavailable { major, minor, patch } =>
            "The required vulkan version "@ + decimal(major as nat) + "."@ + decimal(
                minor as nat,
            ) + "."@ + decimal(patch as nat) + " is not available"@,
        ConfigurationError::NoSuitableDevice => "The suitable physical device is not found"@,
        ConfigurationError::NoSurfaceFormat => "Suitable surface format not found"@,
        ConfigurationError::NoDepthFormat => "Suitable depth format not found"@,
        ConfigurationError::SurfaceQueryFailed => "The surface could not be queried"@,
    }
}

/// What a resource failure is reported as.
pub open spec fn resource_text(error: ResourceError) -> Seq<char> {
    match error {
        ResourceError::HandleCreation => "The device could not create the object"@,
        ResourceError::OutOfMemory => "The device is out of memory"@,
        ResourceError::Bind => "The memory could not be bound"@,
        ResourceError::NotHostVisible =>
            "Attempt to access non mapped memory, i.e. memory is not host visible"@,
        ResourceError::Flush => "The mapped memory could not be flushed"@,
        ResourceError::UnknownAllocation => "The allocation is not known to the allocator"@,
    }
}

/// What a synchronization failure is reported as.
pub open spec fn synchronization_text(error: SynchronizationError) -> Seq<char> {
    match error {
        SynchronizationError::Wait => "Waiting for the device failed"@,
        SynchronizationError::Reset => "The fence could not be reset"@,
        SynchronizationError::Acquire => "The next image could not be acquired"@,
        SynchronizationError::OutOfDate => "The swapchain is out of date"@,
        SynchronizationError::Submit => "The commands could not be submitted"@,
        SynchronizationError::Present => "The image could not be presented"@,
        SynchronizationError::Idle => "Waiting for the idle device failed"@,
        SynchronizationError::OutOfOrder => "A result arrived out of order"@,
    }
}

/// What an asset failure is reported as.
pub open spec fn asset_text(error: AssetError) -> Seq<char> {
    match error {
        AssetError::NoPositions => "Primitive has no positions!"@,
        AssetError::SparseAccessor => "Sparse accessor is unsupported!"@,
        AssetError::UnsupportedTopology => "Unsupported primitive topology!"@,
        AssetError::UnsupportedAccessorType => "Unsupported accessor type!"@,
    }
}

/// What a failure is reported as.
pub open spec fn message_text(error: Error) -> Seq<char> {
    match error {
        Error::Configuration(error) => configuration_text(error),
        Error::Resource(error) => resource_text(error),
        Error::Synchronization(error) => synchronization_text(error),
        Error::Asset(error) => asset_text(error),
        Error::Io => "A file is missing or unreadable"@,
    }
}

impl ConfigurationError {
    /// The failure in words.
    pub fn message(&self) -> (text: String)
        ensures
            text@ == configuration_text(*self),
    {
        let mut text = String::new();
        match *self {
            ConfigurationError::VersionUnavailable { major, minor, patch } => {
                text.push_str("The required vulkan version ");
                push_decimal(&mut text, major);
                text.push_str(".");
                push_decimal(&mut text, minor);
                text.push_str(".");
                push_decimal(&mut text, patch);
                text.push_str(" is not available");
            },
            ConfigurationError::NoSuitableDevice => {
                text.push_str("The suitable physical device is not found");
            },
            ConfigurationError::NoSurfaceFormat => {
                text.push_str("Suitable surface format not found");
            },
            ConfigurationError::NoDepthFormat => {
                text.push_str("Suitable depth format not found");
            },
            ConfigurationError::SurfaceQueryFailed => {
                text.push_str("The surface could not be queried");
            },
        }
        assert(text@ =~= configuration_text(*self));
        text
    }
}

impl ResourceError {
    /// The failure in words.
    pub fn message(&self) -> (text: String)
        ensures
            text@ == resource_text(*self),
    {
        let words = match *self {
            ResourceError::HandleCreation => "The device could not create the object",
            ResourceError::OutOfMemory => "The device is out of memory",
            ResourceError::Bind => "The memory could not be bound",
            ResourceError::NotHostVisible =>
                "Attempt to access non mapped memory, i.e. memory is not host visible",
            ResourceError::Flush => "The mapped memory could not be flushed",
            ResourceError::UnknownAllocation => "The allocation is not known to the allocator",
        };
        let mut text = String::new();
        text.push_str(words);
        assert(text@ =~= resource_text(*self));
        text
    }
}

impl SynchronizationError {
    /// The failure in words.
    pub fn message(&self) -> (text: String)
        ensures
            text@ == synchronization_text(*self),
    {
        let words = match *self {
            SynchronizationError::Wait => "Waiting for the device failed",
            SynchronizationError::Reset => "The fence could not be reset",
            SynchronizationError::Acquire => "The next image could not be acquired",
            SynchronizationError::OutOfDate => "The swapchain is out of date",
            SynchronizationError::Submit => "The commands could not be submitted",
            SynchronizationError::Present => "The image could not be presented",
            SynchronizationError::Idle => "Waiting for the idle device failed",
            SynchronizationError::OutOfOrder => "A result arrived out of order",
        };
        let mut text = String::new();
        text.push_str(words);
        assert(text@ =~= synchronization_text(*self));
        text
    }
}

impl AssetError {
    /// The failure in words.
    pub fn message(&self) -> (text: String)
        ensures
            text@ == asset_text(*self),
    {
        let words = match *self {
            AssetError::NoPositions => "Primitive has no positions!",
            AssetError::SparseAccessor => "Sparse accessor is unsupported!",
            AssetError::UnsupportedTopology => "Unsupported primitive topology!",
            AssetError::UnsupportedAccessorType => "Unsupported accessor type!",
        };
        let mut text = String::new();
        text.push_str(words);
        assert(text@ =~= asset_text(*self));
        text
    }
}

impl Error {
    /// The failure in words.
    pub fn message(&self) -> (text: String)
        ensures
            text@ == message_text(*self),
    {
        match *self {
            Error::Configuration(error) => error.message(),
            Error::Resource(error) => error.message(),
            Error::Synchronization(error) => error.message(),
            Error::Asset(error) => error.message(),
            Error::Io => {
                let mut text = String::new();
                text.push_str("A file is missing or unreadable");
                assert(text@ =~= message_text(*self));
                text
            },
        }
    }
}

} // verus!
