use scene_viewer::device::{Device, FormatSupport};
use scene_viewer::error::ConfigurationError;
use scene_viewer::format::{
    Format, FormatProperties, ImageTiling, D24_UNORM_S8_UINT, D32_SFLOAT, D32_SFLOAT_S8_UINT,
    FEATURE_DEPTH_STENCIL_ATTACHMENT,
};
use scene_viewer::image::{Extent3D, ImageCreateInfo, USAGE_DEPTH_STENCIL_ATTACHMENT};
use scene_viewer::image_view::{ImageViewCreateInfo, ImageViewType, ASPECT_DEPTH};
use scene_viewer::instance::{Instance, PhysicalDevice, QueueFamilyProperties};
use scene_viewer::surface::{Extent2D, Surface, SurfaceReport};
use scene_viewer::version::make_api_version;
use scene_viewer::viewer::{
    depth_image_info, depth_image_view_info, find_depth_format, find_graphics_queue,
    find_suitable_physical_device, select_physical_device,
};

fn support(raw: i32, linear: u32, optimal: u32) -> FormatSupport {
    FormatSupport {
        format: Format { raw },
        properties: FormatProperties {
            linear_tiling_features: linear,
            optimal_tiling_features: optimal,
        },
    }
}

fn family(queue_flags: u32) -> QueueFamilyProperties {
    QueueFamilyProperties { queue_flags, queue_count: 1 }
}

fn physical(handle: u64, flags: &[u32]) -> PhysicalDevice {
    PhysicalDevice::new(
        handle,
        flags.iter().map(|&queue_flags| family(queue_flags)).collect(),
        make_api_version(1, 3, 0),
        String::from("device"),
    )
}

fn presents(physical_device: u64, queue_support: Vec<bool>) -> SurfaceReport {
    SurfaceReport {
        physical_device,
        queue_support,
        capabilities: None,
        formats: None,
        present_modes: None,
    }
}

fn surface(reports: Vec<SurfaceReport>) -> Surface<()> {
    let mut surface = Surface::from_created((), Ok(1)).unwrap();
    for report in reports {
        surface.report(report);
    }
    surface
}

#[test]
fn supported_format_is_the_first_that_offers_the_features() {
    let gpu = physical(1, &[1]);
    let device = Device::new(
        9,
        &gpu,
        vec![
            support(D24_UNORM_S8_UINT, 0x200, 0x001),
            support(D32_SFLOAT, 0x000, 0x201),
            support(D32_SFLOAT_S8_UINT, 0x200, 0x200),
        ],
    );
    let candidates = [
        Format { raw: D24_UNORM_S8_UINT },
        Format { raw: D32_SFLOAT },
        Format { raw: D32_SFLOAT_S8_UINT },
    ];
    assert_eq!(
        device.find_supported_format(&candidates, ImageTiling::Optimal, 0x200),
        Some(Format { raw: D32_SFLOAT })
    );
    assert_eq!(
        device.find_supported_format(&candidates, ImageTiling::Linear, 0x200),
        Some(Format { raw: D24_UNORM_S8_UINT })
    );
    assert_eq!(
        device.find_supported_format(&candidates, ImageTiling::Optimal, 0x201),
        Some(Format { raw: D32_SFLOAT })
    );
    assert_eq!(device.find_supported_format(&candidates, ImageTiling::Optimal, 0x400), None);
    assert_eq!(device.find_supported_format(&candidates, ImageTiling::Other(5), 0x200), None);
    assert_eq!(device.find_supported_format(&[], ImageTiling::Optimal, 0), None);
    assert_eq!(device.handle(), 9);
    assert_eq!(device.physical_device().handle(), 1);
}

#[test]
fn unknown_format_offers_nothing_but_nothing() {
    let gpu = physical(1, &[1]);
    let device = Device::new(9, &gpu, Vec::new());
    let candidates = [Format { raw: D32_SFLOAT }];
    assert_eq!(device.find_supported_format(&candidates, ImageTiling::Optimal, 0x200), None);
    assert_eq!(
        device.find_supported_format(&candidates, ImageTiling::Optimal, 0),
        Some(Format { raw: D32_SFLOAT })
    );
}

#[test]
fn depth_format_is_chosen_among_three() {
    let gpu = physical(1, &[1]);
    let device = Device::new(9, &gpu, vec![support(D32_SFLOAT_S8_UINT, 0, 0x200)]);
    assert_eq!(find_depth_format(&device), Ok(Format { raw: D32_SFLOAT_S8_UINT }));
    let device = Device::new(
        9,
        &gpu,
        vec![support(D32_SFLOAT_S8_UINT, 0, 0x200), support(D24_UNORM_S8_UINT, 0, 0x200)],
    );
    assert_eq!(find_depth_format(&device), Ok(Format { raw: D24_UNORM_S8_UINT }));
    let device = Device::new(9, &gpu, vec![support(D32_SFLOAT, 0x200, 0)]);
    assert_eq!(find_depth_format(&device), Err(ConfigurationError::NoDepthFormat));
}

#[test]
fn depth_codes_match_the_api() {
    assert_eq!(
        scene_viewer::viewer::depth_formats().map(|format| format.raw),
        [D24_UNORM_S8_UINT, D32_SFLOAT, D32_SFLOAT_S8_UINT]
    );
    assert_eq!(D24_UNORM_S8_UINT, ash::vk::Format::D24_UNORM_S8_UINT.as_raw());
    assert_eq!(D32_SFLOAT, ash::vk::Format::D32_SFLOAT.as_raw());
    assert_eq!(D32_SFLOAT_S8_UINT, ash::vk::Format::D32_SFLOAT_S8_UINT.as_raw());
    assert_eq!(
        FEATURE_DEPTH_STENCIL_ATTACHMENT,
        ash::vk::FormatFeatureFlags::DEPTH_STENCIL_ATTACHMENT.as_raw()
    );
    assert_eq!(
        USAGE_DEPTH_STENCIL_ATTACHMENT,
        ash::vk::ImageUsageFlags::DEPTH_STENCIL_ATTACHMENT.as_raw()
    );
}

#[test]
fn depth_image_is_as_large_as_the_surface() {
    let format = Format { raw: D32_SFLOAT };
    assert_eq!(
        depth_image_info(Extent2D { width: 800, height: 600 }, format),
        ImageCreateInfo {
            extent: Extent3D { width: 800, height: 600, depth: 1 },
            mip_levels: 1,
            array_layers: 1,
            format,
            tiling: ImageTiling::Optimal,
            usage: USAGE_DEPTH_STENCIL_ATTACHMENT,
            samples: 1,
        }
    );
    assert_eq!(
        depth_image_view_info(31, format),
        ImageViewCreateInfo {
            image: 31,
            view_type: ImageViewType::Type2D,
            format,
            aspect_mask: ASPECT_DEPTH,
            base_mip_level: 0,
            level_count: 1,
            base_array_layer: 0,
            layer_count: 1,
        }
    );
}

#[test]
fn graphics_queue_must_draw_and_present() {
    let gpu = physical(4, &[0b100, 0b001, 0b011, 0b111]);
    assert_eq!(find_graphics_queue(&gpu, &surface(vec![presents(4, vec![true; 4])])), Some(1));
    assert_eq!(
        find_graphics_queue(&gpu, &surface(vec![presents(4, vec![true, false, false, true])])),
        Some(3)
    );
    assert_eq!(
        find_graphics_queue(&gpu, &surface(vec![presents(4, vec![true, false, true])])),
        Some(2)
    );
    assert_eq!(find_graphics_queue(&gpu, &surface(vec![presents(4, vec![true])])), None);
    assert_eq!(find_graphics_queue(&gpu, &surface(vec![presents(5, vec![true; 4])])), None);
    assert_eq!(find_graphics_queue(&gpu, &surface(Vec::new())), None);
}

#[test]
fn suitable_device_is_the_first_with_such_a_queue() {
    let devices = vec![physical(1, &[0b100]), physical(2, &[0b100, 0b001]), physical(3, &[0b001])];
    let instance =
        Instance::new(make_api_version(1, 1, 0), Some(make_api_version(1, 3, 0)), devices)
            .unwrap();
    let everywhere = surface(vec![
        presents(1, vec![true]),
        presents(2, vec![true, true]),
        presents(3, vec![true]),
    ]);
    let found = find_suitable_physical_device(&instance, &everywhere).unwrap();
    assert_eq!((found.0.handle(), found.1), (2, 1));

    let only_last = surface(vec![presents(2, vec![true, false]), presents(3, vec![true])]);
    let found = find_suitable_physical_device(&instance, &only_last).unwrap();
    assert_eq!((found.0.handle(), found.1), (3, 0));

    let found = select_physical_device(&instance, &only_last).unwrap();
    assert_eq!((found.0.handle(), found.1), (3, 0));

    let nowhere = surface(vec![presents(1, vec![true]), presents(2, vec![true, false])]);
    assert!(find_suitable_physical_device(&instance, &nowhere).is_none());
    assert_eq!(
        select_physical_device(&instance, &nowhere).err(),
        Some(ConfigurationError::NoSuitableDevice)
    );
}

#[test]
fn no_device_no_choice() {
    let instance =
        Instance::new(make_api_version(1, 1, 0), Some(make_api_version(1, 3, 0)), Vec::new())
            .unwrap();
    assert!(find_suitable_physical_device(&instance, &surface(Vec::new())).is_none());
}
