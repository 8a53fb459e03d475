use scene_viewer::allocator::{
    AllocationCreateDesc, Allocator, MemoryLocation, MemoryRegion, MemoryRequirements,
};
use scene_viewer::buffer::{
    Buffer, BufferCreateInfo, MappedMemoryRange, Teardown, USAGE_INDEX_BUFFER,
    USAGE_TRANSFER_DST, USAGE_TRANSFER_SRC, USAGE_UNIFORM_BUFFER, USAGE_VERTEX_BUFFER,
};
use scene_viewer::error::ResourceError;
use scene_viewer::image::Image;
use scene_viewer::release::release_all;
use scene_viewer::viewer::{
    staging_buffer_info, staging_buffer_location, uniform_buffer_info, uniform_buffer_location,
    vertex_buffer_info, vertex_buffer_location,
};

fn requirements(size: u64) -> MemoryRequirements {
    MemoryRequirements { size, alignment: 16, memory_type_bits: 0b11 }
}

fn desc(size: u64, location: MemoryLocation) -> AllocationCreateDesc {
    Buffer::allocation_desc(requirements(size), location, String::from("test"))
}

fn region(offset: u64, size: u64, host_visible: bool) -> MemoryRegion {
    MemoryRegion { memory: 77, offset, size, host_visible }
}

fn host_buffer(allocator: &mut Allocator, handle: u64, size: u64) -> Buffer {
    Buffer::new(
        allocator,
        &BufferCreateInfo { size, usage: USAGE_UNIFORM_BUFFER },
        handle,
        &desc(size, MemoryLocation::CpuToGpu),
        Ok(region(256, size.max(64), true)),
        Ok(()),
    )
    .unwrap()
}

#[test]
fn allocations_are_entered_and_struck_out() {
    let mut allocator = Allocator::new();
    assert!(allocator.is_balanced());
    let request = desc(64, MemoryLocation::CpuToGpu);
    let first = allocator.allocate(&request, Ok(region(0, 64, true))).unwrap();
    let second = allocator.allocate(&request, Ok(region(64, 64, true))).unwrap();
    assert_eq!(allocator.live_count(), 2);
    assert_ne!(first.id(), second.id());
    assert_eq!(first.memory(), 77);
    assert_eq!(second.offset(), 64);
    assert_eq!(second.size(), 64);
    assert_eq!(second.location(), MemoryLocation::CpuToGpu);
    assert!(second.host_visible());
    assert_eq!(allocator.free(first), Ok(()));
    assert_eq!(allocator.live_count(), 1);
    assert!(!allocator.is_balanced());
    assert_eq!(allocator.free(second), Ok(()));
    assert!(allocator.is_balanced());
}

#[test]
fn frees_equal_allocations_when_nothing_is_live() {
    let mut allocator = Allocator::new();
    let request = desc(16, MemoryLocation::GpuOnly);
    let mut held = Vec::new();
    let mut allocated = 0;
    let mut freed = 0;
    for round in 0..20u64 {
        held.push(allocator.allocate(&request, Ok(region(16 * round, 16, false))).unwrap());
        allocated += 1;
        if round % 3 == 2 {
            assert_eq!(allocator.free(held.remove(0)), Ok(()));
            freed += 1;
        }
        assert_eq!(allocator.live_count(), allocated - freed);
    }
    while let Some(allocation) = held.pop() {
        assert_eq!(allocator.free(allocation), Ok(()));
        freed += 1;
    }
    assert_eq!(allocated, freed);
    assert!(allocator.is_balanced());
}

#[test]
fn refused_allocation_changes_nothing() {
    let mut allocator = Allocator::new();
    let request = desc(1 << 40, MemoryLocation::GpuOnly);
    assert_eq!(
        allocator.allocate(&request, Err(ResourceError::OutOfMemory)).err(),
        Some(ResourceError::OutOfMemory)
    );
    assert_eq!(allocator.live_count(), 0);
    assert!(allocator.is_balanced());
}

#[test]
fn foreign_allocation_is_not_freed() {
    let mut ours = Allocator::new();
    let mut theirs = Allocator::new();
    let request = desc(64, MemoryLocation::CpuToGpu);
    let kept = ours.allocate(&request, Ok(region(0, 64, true))).unwrap();
    let foreign = theirs.allocate(&request, Ok(region(128, 64, true))).unwrap();
    assert_eq!(ours.free(foreign), Err(ResourceError::UnknownAllocation));
    assert_eq!(ours.live_count(), 1);
    assert_eq!(theirs.free(kept), Err(ResourceError::UnknownAllocation));
    assert_eq!(theirs.live_count(), 1);
}

#[test]
fn buffer_requests_linear_memory() {
    let request = Buffer::allocation_desc(
        requirements(96),
        MemoryLocation::CpuToGpu,
        String::from("staging buffer"),
    );
    assert_eq!(request.name, "staging buffer");
    assert_eq!(request.requirements, requirements(96));
    assert_eq!(request.location, MemoryLocation::CpuToGpu);
    assert!(request.linear);
    let request = Image::allocation_desc(requirements(4096), String::from("depth"));
    assert_eq!(request.name, "depth");
    assert_eq!(request.location, MemoryLocation::GpuOnly);
    assert!(request.linear);
}

#[test]
fn buffer_keeps_handle_size_and_memory() {
    let mut allocator = Allocator::new();
    let buffer = Buffer::new(
        &mut allocator,
        &BufferCreateInfo { size: 48, usage: USAGE_TRANSFER_SRC },
        5,
        &desc(48, MemoryLocation::CpuToGpu),
        Ok(region(256, 64, true)),
        Ok(()),
    )
    .unwrap();
    assert_eq!(buffer.handle(), 5);
    assert_eq!(buffer.size(), 48);
    assert_eq!(buffer.offset(), 256);
    assert_eq!(buffer.allocation_size(), 64);
    assert_eq!(buffer.device_memory(), 77);
    assert!(!buffer.needs_flush());
    assert_eq!(buffer.mapped_slice().unwrap().len(), 48);
    assert_eq!(allocator.live_count(), 1);
}

#[test]
fn buffer_without_memory_is_refused() {
    let mut allocator = Allocator::new();
    let outcome = Buffer::new(
        &mut allocator,
        &BufferCreateInfo { size: 48, usage: USAGE_TRANSFER_SRC },
        5,
        &desc(48, MemoryLocation::CpuToGpu),
        Err(ResourceError::OutOfMemory),
        Ok(()),
    );
    let failure = outcome.unwrap_err();
    assert_eq!(failure.error, ResourceError::OutOfMemory);
    assert_eq!(failure.steps, vec![Teardown::DestroyBuffer { handle: 5 }]);
    assert!(allocator.is_balanced());
}

#[test]
fn failed_bind_gives_the_memory_back() {
    let mut allocator = Allocator::new();
    let kept = host_buffer(&mut allocator, 4, 16);
    let failure = Buffer::new(
        &mut allocator,
        &BufferCreateInfo { size: 48, usage: USAGE_TRANSFER_SRC },
        5,
        &desc(48, MemoryLocation::CpuToGpu),
        Ok(region(0, 64, true)),
        Err(ResourceError::Bind),
    )
    .unwrap_err();
    assert_eq!(failure.error, ResourceError::Bind);
    assert_eq!(failure.steps.len(), 2);
    assert!(matches!(failure.steps[0], Teardown::FreeAllocation(entry)
        if entry.region == region(0, 64, true) && entry.location == MemoryLocation::CpuToGpu));
    assert_eq!(failure.steps[1], Teardown::DestroyBuffer { handle: 5 });
    assert_eq!(allocator.live_count(), 1);
    assert!(kept.held_by(&allocator));
    let failure = Image::new(
        &mut allocator,
        6,
        &Image::allocation_desc(requirements(64), String::from("depth")),
        Ok(region(0, 64, false)),
        Err(ResourceError::Bind),
    )
    .unwrap_err();
    assert_eq!(failure.error, ResourceError::Bind);
    assert!(matches!(failure.steps[0], Teardown::FreeAllocation(entry)
        if entry.region == region(0, 64, false) && entry.location == MemoryLocation::GpuOnly));
    assert_eq!(failure.steps[1], Teardown::DestroyImage { handle: 6 });
    assert_eq!(allocator.live_count(), 1);
    let failure = Image::new(
        &mut allocator,
        7,
        &Image::allocation_desc(requirements(64), String::from("depth")),
        Err(ResourceError::OutOfMemory),
        Ok(()),
    )
    .unwrap_err();
    assert_eq!(failure.error, ResourceError::OutOfMemory);
    assert_eq!(failure.steps, vec![Teardown::DestroyImage { handle: 7 }]);
}

#[test]
fn buffers_know_their_ledger() {
    let mut ours = Allocator::new();
    let mut theirs = Allocator::new();
    let buffer = host_buffer(&mut ours, 5, 64);
    let other = host_buffer(&mut theirs, 6, 128);
    assert!(buffer.held_by(&ours));
    assert!(!buffer.held_by(&theirs));
    assert!(!other.held_by(&ours));
    buffer.destroy(&mut ours);
    assert!(!other.held_by(&ours));
}

#[test]
fn buffer_is_taken_apart_memory_first() {
    let mut allocator = Allocator::new();
    let buffer = host_buffer(&mut allocator, 5, 64);
    let steps = buffer.destroy(&mut allocator);
    assert_eq!(steps.len(), 2);
    assert!(matches!(steps[0], Teardown::FreeAllocation(entry)
        if entry.region == region(256, 64, true) && entry.location == MemoryLocation::CpuToGpu));
    assert_eq!(steps[1], Teardown::DestroyBuffer { handle: 5 });
    assert!(allocator.is_balanced());
}

#[test]
fn image_is_taken_apart_memory_first() {
    let mut allocator = Allocator::new();
    let image = Image::new(
        &mut allocator,
        8,
        &Image::allocation_desc(requirements(4096), String::from("depth")),
        Ok(region(0, 4096, false)),
        Ok(()),
    )
    .unwrap();
    assert_eq!(image.handle(), 8);
    assert_eq!(allocator.live_count(), 1);
    let steps = image.destroy(&mut allocator);
    assert_eq!(steps.len(), 2);
    assert!(matches!(steps[0], Teardown::FreeAllocation(entry)
        if entry.region == region(0, 4096, false) && entry.location == MemoryLocation::GpuOnly));
    assert_eq!(steps[1], Teardown::DestroyImage { handle: 8 });
    assert!(allocator.is_balanced());
}

#[test]
fn many_buffers_leave_nothing_behind() {
    let mut allocator = Allocator::new();
    let mut buffers: Vec<Buffer> =
        (0..6u64).map(|handle| host_buffer(&mut allocator, handle, 32)).collect();
    assert_eq!(allocator.live_count(), 6);
    buffers.swap(0, 4);
    buffers.swap(1, 3);
    for buffer in buffers {
        let handle = buffer.handle();
        let steps = buffer.destroy(&mut allocator);
        assert!(matches!(steps[0], Teardown::FreeAllocation(_)));
        assert_eq!(steps[1], Teardown::DestroyBuffer { handle });
    }
    assert!(allocator.is_balanced());
}

#[test]
fn written_bytes_are_read_back() {
    let mut allocator = Allocator::new();
    let mut buffer = host_buffer(&mut allocator, 5, 64);
    let matrix: [f32; 16] = [
        1.0, 0.0, 0.0, 0.0, 0.0, -1.5, 0.0, 0.0, 0.0, 0.0, 0.25, 3.0, 7.0, 8.0, 9.0, 1.0,
    ];
    let bytes: Vec<u8> = matrix.iter().flat_map(|value| value.to_ne_bytes()).collect();
    assert_eq!(buffer.copy_into(&bytes), Ok(()));
    assert!(buffer.needs_flush());
    assert_eq!(buffer.flush(), MappedMemoryRange { memory: 77, offset: 256, size: 64 });
    assert!(buffer.needs_flush());
    assert_eq!(buffer.flushed(Err(ResourceError::Flush)), Err(ResourceError::Flush));
    assert!(buffer.needs_flush());
    assert_eq!(buffer.flushed(Ok(())), Ok(()));
    assert!(!buffer.needs_flush());
    assert_eq!(buffer.mapped_slice().unwrap(), &bytes[..]);
    let read: Vec<f32> = buffer
        .mapped_slice()
        .unwrap()
        .chunks(4)
        .map(|chunk| f32::from_ne_bytes([chunk[0], chunk[1], chunk[2], chunk[3]]))
        .collect();
    assert_eq!(read, matrix);
}

#[test]
fn copy_and_flush_in_one() {
    let mut allocator = Allocator::new();
    let mut buffer = host_buffer(&mut allocator, 5, 4);
    assert_eq!(
        buffer.copy_into_n_flush(&[9, 8, 7, 6]),
        Ok(MappedMemoryRange { memory: 77, offset: 256, size: 4 })
    );
    assert!(buffer.needs_flush());
    assert_eq!(buffer.flushed(Ok(())), Ok(()));
    assert!(!buffer.needs_flush());
    assert_eq!(buffer.mapped_slice().unwrap(), &[9, 8, 7, 6]);
}

#[test]
fn mapped_bytes_can_be_written_in_place() {
    let mut allocator = Allocator::new();
    let mut buffer = host_buffer(&mut allocator, 5, 4);
    buffer.mapped_slice_mut().unwrap().copy_from_slice(&[1, 2, 3, 4]);
    assert!(buffer.needs_flush());
    assert_eq!(buffer.mapped_slice().unwrap(), &[1, 2, 3, 4]);
}

#[test]
fn device_memory_cannot_be_mapped() {
    let mut allocator = Allocator::new();
    let mut buffer = Buffer::new(
        &mut allocator,
        &BufferCreateInfo { size: 4, usage: USAGE_VERTEX_BUFFER },
        5,
        &desc(4, MemoryLocation::GpuOnly),
        Ok(region(0, 4, false)),
        Ok(()),
    )
    .unwrap();
    assert_eq!(buffer.mapped_slice().err(), Some(ResourceError::NotHostVisible));
    assert_eq!(buffer.mapped_slice_mut().err(), Some(ResourceError::NotHostVisible));
    assert_eq!(buffer.copy_into(&[1, 2, 3, 4]), Err(ResourceError::NotHostVisible));
    assert_eq!(buffer.copy_into_n_flush(&[1, 2, 3, 4]), Err(ResourceError::NotHostVisible));
    assert!(!buffer.needs_flush());
}

#[test]
fn upload_buffers_are_made_for_their_use() {
    assert_eq!(
        staging_buffer_info(1024),
        BufferCreateInfo { size: 1024, usage: USAGE_TRANSFER_SRC }
    );
    assert_eq!(vertex_buffer_info(1024), BufferCreateInfo { size: 1024, usage: 0xc2 });
    assert_eq!(
        uniform_buffer_info(64),
        BufferCreateInfo { size: 64, usage: USAGE_UNIFORM_BUFFER }
    );
    assert_eq!(staging_buffer_location(), MemoryLocation::CpuToGpu);
    assert_eq!(vertex_buffer_location(), MemoryLocation::GpuOnly);
    assert_eq!(uniform_buffer_location(), MemoryLocation::CpuToGpu);
    assert_eq!(USAGE_TRANSFER_SRC, ash::vk::BufferUsageFlags::TRANSFER_SRC.as_raw());
    assert_eq!(USAGE_TRANSFER_DST, ash::vk::BufferUsageFlags::TRANSFER_DST.as_raw());
    assert_eq!(USAGE_UNIFORM_BUFFER, ash::vk::BufferUsageFlags::UNIFORM_BUFFER.as_raw());
    assert_eq!(USAGE_INDEX_BUFFER, ash::vk::BufferUsageFlags::INDEX_BUFFER.as_raw());
    assert_eq!(USAGE_VERTEX_BUFFER, ash::vk::BufferUsageFlags::VERTEX_BUFFER.as_raw());
}

#[test]
fn everything_left_is_given_back_at_the_end() {
    let mut allocator = Allocator::new();
    let buffers: Vec<Buffer> =
        (0..3u64).map(|handle| host_buffer(&mut allocator, handle, 64 + handle)).collect();
    let image = Image::new(
        &mut allocator,
        8,
        &Image::allocation_desc(requirements(4096), String::from("depth")),
        Ok(region(1024, 4096, false)),
        Ok(()),
    )
    .unwrap();
    assert_eq!(allocator.live_count(), 4);
    let release = release_all(&mut allocator, buffers, vec![image]);
    assert!(release.balanced);
    assert!(allocator.is_balanced());
    assert_eq!(release.steps.len(), 8);
    for pair in release.steps.chunks(2) {
        assert!(matches!(pair[0], Teardown::FreeAllocation(_)));
        assert!(matches!(
            pair[1],
            Teardown::DestroyBuffer { .. } | Teardown::DestroyImage { .. }
        ));
    }
    assert_eq!(release.steps[1], Teardown::DestroyBuffer { handle: 2 });
    assert_eq!(release.steps[5], Teardown::DestroyBuffer { handle: 0 });
    assert_eq!(release.steps[7], Teardown::DestroyImage { handle: 8 });
}

#[test]
fn what_is_not_handed_over_is_reported_as_left() {
    let mut allocator = Allocator::new();
    let mut theirs = Allocator::new();
    let kept = host_buffer(&mut allocator, 1, 64);
    let given = host_buffer(&mut allocator, 2, 80);
    let foreign = host_buffer(&mut theirs, 3, 96);
    let release = release_all(&mut allocator, vec![given, foreign], Vec::new());
    assert!(!release.balanced);
    assert_eq!(allocator.live_count(), 1);
    assert_eq!(release.steps.len(), 2);
    assert_eq!(release.steps[1], Teardown::DestroyBuffer { handle: 2 });
    assert!(kept.held_by(&allocator));
    let release = release_all(&mut allocator, vec![kept], Vec::new());
    assert!(release.balanced);
    assert!(release_all(&mut allocator, Vec::new(), Vec::new()).balanced);
}
