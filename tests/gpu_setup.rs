use hengine::gpu_setup::{
    choose_image_format, cube_indices, select_physical_device, swapchain_image_count,
    DeviceCandidate, DeviceKind, SurfaceFormatKind,
};

fn candidate(kind: DeviceKind, families: Vec<bool>) -> DeviceCandidate {
    DeviceCandidate {
        supports_dynamic_rendering: true,
        supports_required_extensions: true,
        queue_families: families,
        kind,
    }
}

#[test]
fn prefers_discrete_gpu_and_first_usable_family() {
    let devices = vec![
        candidate(DeviceKind::IntegratedGpu, vec![true]),
        candidate(DeviceKind::DiscreteGpu, vec![false, true, true]),
        candidate(DeviceKind::DiscreteGpu, vec![true]),
    ];
    assert_eq!(select_physical_device(&devices), Some((1, 1)));
}

#[test]
fn skips_devices_that_cannot_render() {
    let mut no_ext = candidate(DeviceKind::DiscreteGpu, vec![true]);
    no_ext.supports_required_extensions = false;
    let mut no_dynamic = candidate(DeviceKind::DiscreteGpu, vec![true]);
    no_dynamic.supports_dynamic_rendering = false;
    let no_queue = candidate(DeviceKind::DiscreteGpu, vec![false, false]);
    let cpu = candidate(DeviceKind::Cpu, vec![false, true]);
    let devices = vec![no_ext, no_dynamic, no_queue, cpu];
    assert_eq!(select_physical_device(&devices), Some((3, 1)));
}

#[test]
fn no_eligible_device() {
    assert_eq!(select_physical_device(&vec![]), None);
    let devices = vec![candidate(DeviceKind::Other, vec![])];
    assert_eq!(select_physical_device(&devices), None);
}

#[test]
fn image_format_choice() {
    let other = SurfaceFormatKind::Other;
    let packed = SurfaceFormatKind::A2b10g10r10UnormPack32;
    let half_float = SurfaceFormatKind::R16g16b16a16Sfloat;
    assert_eq!(choose_image_format(&vec![other, packed, half_float]), Some(1));
    assert_eq!(choose_image_format(&vec![other, other]), Some(0));
    assert_eq!(choose_image_format(&vec![]), None);
}

#[test]
fn image_count_is_at_least_two() {
    assert_eq!(swapchain_image_count(0), 2);
    assert_eq!(swapchain_image_count(1), 2);
    assert_eq!(swapchain_image_count(3), 3);
}

#[test]
fn cube_has_twelve_triangles_over_eight_vertices() {
    let indices = cube_indices();
    assert_eq!(indices.len(), 36);
    assert!(indices.iter().all(|&i| i < 8));
    assert_eq!(&indices[0..6], &[0, 2, 1, 0, 3, 2]);
}
