//! Start-up decisions of the viewer and the messages that steer it.

use vstd::prelude::*;
use crate::allocator::MemoryLocation;
use crate::buffer::{Buffer, BufferCreateInfo};
use crate::buffer::{USAGE_INDEX_BUFFER, USAGE_TRANSFER_DST, USAGE_TRANSFER_SRC};
use crate::buffer::{USAGE_UNIFORM_BUFFER, USAGE_VERTEX_BUFFER};
use crate::command_pool::{BufferCopy, CommandBuffer, CommandBufferBeginInfo, CommandView};
use crate::command_pool::{RecordingState, RenderPassBeginInfo, SubpassContents};
use crate::device::Device;
use crate::error::{ConfigurationError, Error};
use crate::format::{Format, ImageTiling};
use crate::format::{D24_UNORM_S8_UINT, D32_SFLOAT, D32_SFLOAT_S8_UINT};
use crate::format::FEATURE_DEPTH_STENCIL_ATTACHMENT;
use crate::frame_buffer::FrameBuffer;
use crate::image::{Extent3D, ImageCreateInfo, USAGE_DEPTH_STENCIL_ATTACHMENT};
use crate::image_view::{ImageViewCreateInfo, ImageViewType, ASPECT_DEPTH};
use crate::instance::{Instance, PhysicalDevice, QueueFamilyProperties};
use crate::surface::{reported_support, Extent2D, Surface, SurfaceReport};

verus! {

/// A message to the running viewer.
#[derive(Clone, Copy, Debug, PartialEq, Eq, Structural)]
pub enum Event {
    /// Finish the current frame, then shut down.
    Stop,
}

/// What the viewer is started with.
#[derive(Clone, Debug)]
pub struct LaunchConfig {
    pub input_file: String,
    pub scene_index: usize,
}

/// Whether family `index` of a device can both draw and present.
pub open spec fn family_suits(
    families: Seq<QueueFamilyProperties>,
    reports: Seq<SurfaceReport>,
    handle: u64,
    index: int,
) -> bool {
    0 <= index < families.len() && index <= u32::MAX && families[index].graphics()
        && reported_support(reports, handle, index as u32)
}

/// The first family at or after `from` that can both draw and present.
pub open spec fn first_suitable_family(
    families: Seq<QueueFamilyProperties>,
    reports: Seq<SurfaceReport>,
    handle: u64,
    from: int,
) -> Option<u32>
    decreases families.len() - from,
{
    if from < 0 || from >= families.len() || from > u32::MAX {
        None
    } else if family_suits(families, reports, handle, from) {
        Some(from as u32)
    } else {
        first_suitable_family(families, reports, handle, from + 1)
    }
}

/// The first device at or after `from` with a suitable family, by position,
/// and that family.
pub open spec fn first_suitable_device(
    devices: Seq<PhysicalDevice>,
    reports: Seq<SurfaceReport>,
    from: int,
) -> Option<(int, u32)>
    decreases devices.len() - from,
{
    if from < 0 || from >= devices.len() {
        None
    } else {
        match first_suitable_family(
            devices[from].queue_families_properties@,
            reports,
            devices[from].handle,
            0,
        ) {
            Some(family) => Some((from, family)),
            None => first_suitable_device(devices, reports, from + 1),
        }
    }
}

/// The first queue family of `physical_device` that can draw and can present
/// to `surface`.
pub fn find_graphics_queue<T>(physical_device: &PhysicalDevice, surface: &Surface<T>) -> (found:
    Option<u32>)
    ensures
        found == first_suitable_family(
            physical_device.queue_families_properties@,
            surface.reports(),
            physical_device.handle,
            0,
        ),
{
    let families = &physical_device.queue_families_properties;
    let mut i: usize = 0;
    while i < families.len() && i <= 0xffff_ffff
        invariant
            i <= families@.len(),
            families@ == physical_device.queue_families_properties@,
            first_suitable_family(families@, surface.reports(), physical_device.handle, 0)
                == first_suitable_family(
                families@,
                surface.reports(),
                physical_device.handle,
                i as int,
            ),
        decreases families@.len() - i,
    {
        let queue_index: u32 = i as u32;
        let surface_support = surface.physical_device_support(physical_device, queue_index);
        let graphic_support = families[i].supports_graphics();
        if graphic_support && surface_support {
            return Some(queue_index);
        }
        i += 1;
    }
    None
}

/// The first physical device that has a queue family able to draw and to
/// present to `surface`, with the first such family.
pub fn find_suitable_physical_device<'a, T>(instance: &'a Instance, surface: &Surface<T>) -> (found:
    Option<(&'a PhysicalDevice, u32)>)
    ensures
        match first_suitable_device(instance.devices(), surface.reports(), 0) {
            Some((position, family)) => found matches Some((device, queue_index))
                && *device == instance.devices()[position] && queue_index == family,
            None => found.is_none(),
        },
{
    let devices = instance.physical_devices();
    let mut i: usize = 0;
    while i < devices.len()
        invariant
            i <= devices@.len(),
            devices@ == instance.devices(),
            first_suitable_device(devices@, surface.reports(), 0) == first_suitable_device(
                devices@,
                surface.reports(),
                i as int,
            ),
        decreases devices@.len() - i,
    {
        match find_graphics_queue(&devices[i], surface) {
            Some(queue_index) => {
                return Some((&devices[i], queue_index));
            },
            None => {},
        }
        i += 1;
    }
    None
}

/// The physical device to run on and the queue family to draw and present
/// with: the first that suit. That there is none is a configuration failure.
pub fn select_physical_device<'a, T>(instance: &'a Instance, surface: &Surface<T>) -> (outcome:
    Result<(&'a PhysicalDevice, u32), ConfigurationError>)
    ensures
        match first_suitable_device(instance.devices(), surface.reports(), 0) {
            Some((position, family)) => outcome matches Ok((device, queue_index)) && *device
                == instance.devices()[position] && queue_index == family,
            None => outcome matches Err(e) && e == ConfigurationError::NoSuitableDevice,
        },
{
    match find_suitable_physical_device(instance, surface) {
        Some(found) => Ok(found),
        None => Err(ConfigurationError::NoSuitableDevice),
    }
}

/// Every device before the one found has no suitable family, and the family
/// found is the first suitable one of its device: the search prefers
/// earlier devices and earlier families.
pub proof fn lemma_first_suitable(devices: Seq<PhysicalDevice>, reports: Seq<SurfaceReport>, from: int)
    requires
        0 <= from,
    ensures
        match first_suitable_device(devices, reports, from) {
            Some((position, family)) => from <= position < devices.len() && family_suits(
                devices[position].queue_families_properties@,
                reports,
                devices[position].handle,
                family as int,
            ) && forall|earlier: int|
                from <= earlier < position ==> first_suitable_family(
                    (#[trigger] devices[earlier]).queue_families_properties@,
                    reports,
                    devices[earlier].handle,
                    0,
                ).is_none(),
            None => forall|any: int|
                from <= any < devices.len() ==> first_suitable_family(
                    (#[trigger] devices[any]).queue_families_properties@,
                    reports,
                    devices[any].handle,
                    0,
                ).is_none(),
        },
    decreases devices.len() - from,
{
    if from < devices.len() {
        let device = devices[from];
        lemma_first_family_suits(device.queue_families_properties@, reports, device.handle, 0);
        if first_suitable_family(device.queue_families_properties@, reports, device.handle, 0).is_none() {
            lemma_first_suitable(devices, reports, from + 1);
        }
    }
}

/// The family found suits, and none before it does; where none is found,
/// none at a representable index suits.
pub proof fn lemma_first_family_suits(
    families: Seq<QueueFamilyProperties>,
    reports: Seq<SurfaceReport>,
    handle: u64,
    from: int,
)
    requires
        0 <= from,
    ensures
        match first_suitable_family(families, reports, handle, from) {
            Some(family) => from <= family && family_suits(families, reports, handle, family as int)
                && forall|earlier: int|
                from <= earlier < family ==> !family_suits(families, reports, handle, earlier),
            None => forall|any: int| from <= any ==> !family_suits(families, reports, handle, any),
        },
    decreases families.len() - from,
{
    if from < families.len() && from <= u32::MAX {
        if !family_suits(families, reports, handle, from) {
            lemma_first_family_suits(families, reports, handle, from + 1);
        }
    }
}

/// `String::push_str` appends the string slice to the end of the string.
pub assume_specification[ String::push_str ](s: &mut String, string: &str)
    ensures
        final(s)@ == old(s)@ + string@,
;

/// Where the compiled shader `name` lies: under `gen`, then the directory of
/// the build configuration, then `shaders`.
pub open spec fn shader_path(name: Seq<char>, debug: bool) -> Seq<char> {
    "gen/"@ + (if debug {
        "debug"@
    } else {
        "release"@
    }) + "/shaders/"@ + name
}

/// The path of the compiled shader `name`, for a debug or a release build.
pub fn gen_shader_path(name: &str, debug: bool) -> (path: String)
    ensures
        path@ == shader_path(name@, debug),
{
    let mut path = String::new();
    path.push_str("gen/");
    path.push_str(
        if debug {
            "debug"
        } else {
            "release"
        },
    );
    path.push_str("/shaders/");
    path.push_str(name);
    path
}

/// What the viewer reports back to whoever started it.
#[derive(Clone, Copy, Debug, PartialEq, Eq, Structural)]
pub enum CustomEvent {
    /// The viewer has ended with an error.
    Failed(Error),
}

/// Whether a stop request is among the messages drained from the control
/// channel.
pub fn stop_requested(events: &[Event]) -> (stop: bool)
    ensures
        stop == events@.contains(Event::Stop),
{
    let mut stop = false;
    let mut i: usize = 0;
    while i < events.len()
        invariant
            i <= events@.len(),
            stop == (i > 0),
        decreases events@.len() - i,
    {
        match events[i] {
            Event::Stop => {
                stop = true;
            },
        }
        i += 1;
    }
    proof {
        if events@.len() > 0 {
            assert(events@[0] == Event::Stop);
        }
    }
    stop
}

/// The API version the viewer asks for: 1.1.0.
pub fn required_instance_version() -> (version: u32)
    ensures
        version == crate::version::packed_version(1, 1, 0),
{
    crate::version::make_api_version(1, 1, 0)
}

/// The depth formats the viewer can use, best first.
pub open spec fn depth_format_candidates() -> Seq<Format> {
    seq![
        Format { raw: D24_UNORM_S8_UINT },
        Format { raw: D32_SFLOAT },
        Format { raw: D32_SFLOAT_S8_UINT },
    ]
}

/// The depth formats the viewer can use, best first.
pub fn depth_formats() -> (candidates: [Format; 3])
    ensures
        candidates@ == depth_format_candidates(),
{
    let candidates = [
        Format { raw: D24_UNORM_S8_UINT },
        Format { raw: D32_SFLOAT },
        Format { raw: D32_SFLOAT_S8_UINT },
    ];
    assert(candidates@ =~= depth_format_candidates());
    candidates
}

/// The depth format to use on `device`: the first candidate that can be an
/// optimally tiled depth/stencil attachment.
pub fn find_depth_format(device: &Device) -> (outcome: Result<Format, ConfigurationError>)
    ensures
        match outcome {
            Ok(format) => exists|i: int|
                0 <= i < 3 && depth_format_candidates()[i] == format && device.usable(
                    format,
                    ImageTiling::Optimal,
                    FEATURE_DEPTH_STENCIL_ATTACHMENT,
                ) && forall|j: int|
                    0 <= j < i ==> !device.usable(
                        #[trigger] depth_format_candidates()[j],
                        ImageTiling::Optimal,
                        FEATURE_DEPTH_STENCIL_ATTACHMENT,
                    ),
            Err(error) => error == ConfigurationError::NoDepthFormat && forall|j: int|
                0 <= j < 3 ==> !device.usable(
                    #[trigger] depth_format_candidates()[j],
                    ImageTiling::Optimal,
                    FEATURE_DEPTH_STENCIL_ATTACHMENT,
                ),
        },
{
    let candidates = depth_formats();
    match device.find_supported_format(
        candidates.as_slice(),
        ImageTiling::Optimal,
        FEATURE_DEPTH_STENCIL_ATTACHMENT,
    ) {
        Some(format) => Ok(format),
        None => Err(ConfigurationError::NoDepthFormat),
    }
}

/// What the depth image is made of: one optimally tiled 2D image as large as
/// the presentable images, used as depth/stencil attachment.
pub fn depth_image_info(extent: Extent2D, format: Format) -> (info: ImageCreateInfo)
    ensures
        info == (ImageCreateInfo {
            extent: Extent3D { width: extent.width, height: extent.height, depth: 1 },
            mip_levels: 1,
            array_layers: 1,
            format,
            tiling: ImageTiling::Optimal,
            usage: USAGE_DEPTH_STENCIL_ATTACHMENT,
            samples: 1,
        }),
{
    ImageCreateInfo {
        extent: Extent3D { width: extent.width, height: extent.height, depth: 1 },
        mip_levels: 1,
        array_layers: 1,
        format,
        tiling: ImageTiling::Optimal,
        usage: USAGE_DEPTH_STENCIL_ATTACHMENT,
        samples: 1,
    }
}

/// What the view onto the depth image is made of: a 2D view of the depth
/// aspect, one mip level, one layer.
pub fn depth_image_view_info(image: u64, format: Format) -> (info: ImageViewCreateInfo)
    ensures
        info == (ImageViewCreateInfo {
            image,
            view_type: ImageViewType::Type2D,
            format,
            aspect_mask: ASPECT_DEPTH,
            base_mip_level: 0,
            level_count: 1,
            base_array_layer: 0,
            layer_count: 1,
        }),
{
    ImageViewCreateInfo {
        image,
        view_type: ImageViewType::Type2D,
        format,
        aspect_mask: ASPECT_DEPTH,
        base_mip_level: 0,
        level_count: 1,
        base_array_layer: 0,
        layer_count: 1,
    }
}

/// Where staging buffers live: in memory the host writes and the device
/// reads.
pub fn staging_buffer_location() -> (location: MemoryLocation)
    ensures
        location == MemoryLocation::CpuToGpu,
{
    MemoryLocation::CpuToGpu
}

/// Where the uploaded vertex data lives: in memory of the device.
pub fn vertex_buffer_location() -> (location: MemoryLocation)
    ensures
        location == MemoryLocation::GpuOnly,
{
    MemoryLocation::GpuOnly
}

/// Where per-frame uniform buffers live: in memory the host writes and the
/// device reads.
pub fn uniform_buffer_location() -> (location: MemoryLocation)
    ensures
        location == MemoryLocation::CpuToGpu,
{
    MemoryLocation::CpuToGpu
}

/// What the staging buffer for a source block of `length` bytes is made of.
pub fn staging_buffer_info(length: usize) -> (info: BufferCreateInfo)
    ensures
        info == (BufferCreateInfo { size: length as u64, usage: USAGE_TRANSFER_SRC }),
{
    BufferCreateInfo { size: length as u64, usage: USAGE_TRANSFER_SRC }
}

/// What the device buffer that takes the contents of a staging buffer of
/// `size` bytes is made of: it serves as vertex and as index buffer.
pub fn vertex_buffer_info(size: usize) -> (info: BufferCreateInfo)
    ensures
        info == (BufferCreateInfo {
            size: size as u64,
            usage: USAGE_INDEX_BUFFER | USAGE_VERTEX_BUFFER | USAGE_TRANSFER_DST,
        }),
{
    BufferCreateInfo {
        size: size as u64,
        usage: USAGE_INDEX_BUFFER | USAGE_VERTEX_BUFFER | USAGE_TRANSFER_DST,
    }
}

/// What a per-frame uniform buffer holding `size` bytes is made of.
pub fn uniform_buffer_info(size: usize) -> (info: BufferCreateInfo)
    ensures
        info == (BufferCreateInfo { size: size as u64, usage: USAGE_UNIFORM_BUFFER }),
{
    BufferCreateInfo { size: size as u64, usage: USAGE_UNIFORM_BUFFER }
}

/// The copy that `record_upload` records for one pair of buffers.
pub open spec fn upload_copy(staging: &Buffer, vertex: &Buffer) -> CommandView {
    CommandView::CopyBuffer {
        src: staging.id(),
        dst: vertex.id(),
        region: BufferCopy {
            src_offset: staging.memory().region.offset as usize as u64,
            dst_offset: vertex.memory().region.offset as usize as u64,
            size: staging.len() as u64,
        },
    }
}

/// Records the one-time upload: between `begin` and `end`, one copy from
/// each staging buffer to the device buffer at the same position.
pub fn record_upload(
    transfer_command_buffer: &mut CommandBuffer,
    staging_buffers: &Vec<Buffer>,
    vertex_buffers: &Vec<Buffer>,
)
    requires
        !old(transfer_command_buffer).recording(),
        staging_buffers@.len() == vertex_buffers@.len(),
        forall|i: int|
            0 <= i < staging_buffers@.len() ==> (#[trigger] staging_buffers@[i]).len()
                <= vertex_buffers@[i].len(),
    ensures
        final(transfer_command_buffer).id() == old(transfer_command_buffer).id(),
        final(transfer_command_buffer).pool() == old(transfer_command_buffer).pool(),
        final(transfer_command_buffer).status() == RecordingState::Executable,
        final(transfer_command_buffer).usage() == 0,
        final(transfer_command_buffer).well_formed(),
        final(transfer_command_buffer).recorded().len() == staging_buffers@.len(),
        forall|i: int|
            0 <= i < staging_buffers@.len() ==> (#[trigger] final(transfer_command_buffer).recorded()[i]) == upload_copy(&staging_buffers@[i], &vertex_buffers@[i]),
{
    let begin_info = CommandBufferBeginInfo { flags: 0 };
    transfer_command_buffer.begin(&begin_info);
    let mut i: usize = 0;
    while i < staging_buffers.len()
        invariant
            i <= staging_buffers@.len(),
            staging_buffers@.len() == vertex_buffers@.len(),
            forall|j: int|
                0 <= j < staging_buffers@.len() ==> (#[trigger] staging_buffers@[j]).len()
                    <= vertex_buffers@[j].len(),
            transfer_command_buffer.id() == old(transfer_command_buffer).id(),
            transfer_command_buffer.pool() == old(transfer_command_buffer).pool(),
            transfer_command_buffer.status() == RecordingState::Recording,
            transfer_command_buffer.usage() == 0,
            transfer_command_buffer.well_formed(),
            transfer_command_buffer.recorded().len() == i,
            forall|j: int|
                0 <= j < i ==> (#[trigger] transfer_command_buffer.recorded()[j]) == upload_copy(
                    &staging_buffers@[j],
                    &vertex_buffers@[j],
                ),
        decreases staging_buffers@.len() - i,
    {
        transfer_command_buffer.copy_buffer(&staging_buffers[i], &vertex_buffers[i]);
        i += 1;
    }
    transfer_command_buffer.end();
}

/// The vertex data on the device, with the handles and offsets to bind it
/// by.
#[derive(Debug)]
pub struct VertexDataBuffers {
    buffers: Vec<Buffer>,
    handles: Vec<u64>,
    offsets: Vec<u64>,
}

impl VertexDataBuffers {
    /// The buffers held.
    pub closed spec fn held(&self) -> Seq<Buffer> {
        self.buffers@
    }

    /// The handle of each buffer, in order.
    pub closed spec fn bound_handles(&self) -> Seq<u64> {
        self.handles@
    }

    /// Where each buffer's memory starts, in order.
    pub closed spec fn bound_offsets(&self) -> Seq<u64> {
        self.offsets@
    }

    /// What every such set keeps true: there is a handle and an offset for
    /// each buffer, and they are the buffer's own.
    pub open spec fn well_formed(&self) -> bool {
        &&& self.bound_handles().len() == self.held().len()
        &&& self.bound_offsets().len() == self.held().len()
        &&& forall|i: int|
            0 <= i < self.held().len() ==> self.bound_handles()[i] == (
            #[trigger] self.held()[i]).id() && self.bound_offsets()[i]
                == self.held()[i].memory().region.offset as usize as u64
    }

    pub fn new(buffers: Vec<Buffer>) -> (vertex_data: Self)
        ensures
            vertex_data.held() == buffers@,
            vertex_data.well_formed(),
    {
        let mut handles: Vec<u64> = Vec::new();
        let mut offsets: Vec<u64> = Vec::new();
        let mut i: usize = 0;
        while i < buffers.len()
            invariant
                i <= buffers@.len(),
                handles@.len() == i,
                offsets@.len() == i,
                forall|j: int|
                    0 <= j < i ==> handles@[j] == (#[trigger] buffers@[j]).id() && offsets@[j]
                        == buffers@[j].memory().region.offset as usize as u64,
            decreases buffers@.len() - i,
        {
            handles.push(buffers[i].handle());
            offsets.push(buffers[i].offset() as u64);
            i += 1;
        }
        Self { buffers, handles, offsets }
    }

    pub fn handles(&self) -> (handles: &[u64])
        ensures
            handles@ == self.bound_handles(),
    {
        self.handles.as_slice()
    }

    pub fn offsets(&self) -> (offsets: &[u64])
        ensures
            offsets@ == self.bound_offsets(),
    {
        self.offsets.as_slice()
    }

    /// Gives the buffers back, to be taken apart.
    pub fn into_buffers(self) -> (buffers: Vec<Buffer>)
        ensures
            buffers@ == self.held(),
    {
        self.buffers
    }
}

/// Records the commands of one frame: a render pass over the whole
/// framebuffer, inside which the vertex data is bound.
pub fn record_frame(
    command_buffer: &mut CommandBuffer,
    render_pass: u64,
    frame_buffer: &FrameBuffer,
    vertex_buffers: &VertexDataBuffers,
)
    requires
        !old(command_buffer).recording(),
        vertex_buffers.well_formed(),
    ensures
        final(command_buffer).id() == old(command_buffer).id(),
        final(command_buffer).pool() == old(command_buffer).pool(),
        final(command_buffer).status() == RecordingState::Executable,
        final(command_buffer).usage() == 0,
        final(command_buffer).well_formed(),
        final(command_buffer).recorded() == seq![
            CommandView::BeginRenderPass {
                info: RenderPassBeginInfo {
                    render_pass,
                    framebuffer: frame_buffer.id(),
                    render_area: frame_buffer.size(),
                },
                contents: SubpassContents::Inline,
            },
            CommandView::BindVertexBuffers {
                first_binding: 0,
                buffers: vertex_buffers.bound_handles(),
                offsets: vertex_buffers.bound_offsets(),
            },
            CommandView::EndRenderPass,
        ],
{
    let begin_info = CommandBufferBeginInfo { flags: 0 };
    command_buffer.begin(&begin_info);
    let render_pass_begin_info = RenderPassBeginInfo {
        render_pass,
        framebuffer: frame_buffer.handle(),
        render_area: frame_buffer.extent(),
    };
    command_buffer.begin_render_pass(&render_pass_begin_info, SubpassContents::Inline);
    command_buffer.bind_vertex_buffers(vertex_buffers.handles(), vertex_buffers.offsets());
    command_buffer.end_render_pass();
    command_buffer.end();
    assert(command_buffer.recorded() =~= seq![
        CommandView::BeginRenderPass {
            info: RenderPassBeginInfo {
                render_pass,
                framebuffer: frame_buffer.id(),
                render_area: frame_buffer.size(),
            },
            contents: SubpassContents::Inline,
        },
        CommandView::BindVertexBuffers {
            first_binding: 0,
            buffers: vertex_buffers.bound_handles(),
            offsets: vertex_buffers.bound_offsets(),
        },
        CommandView::EndRenderPass,
    ]);
}

} // verus!
