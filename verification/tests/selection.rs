use rendercore::device::device_from_driver;
use rendercore::device::logical_device_config;
use rendercore::device::pick_physical_device;
use rendercore::device::resolve_queue_families;
use rendercore::device::select;
use rendercore::device::swapchain_extension_name;
use rendercore::device::QueueFamily;
use rendercore::device::QueueFamilyIndices;
use rendercore::device::QUEUE_GRAPHICS;
use rendercore::error::ContextError;

fn graphics_family() -> QueueFamily {
    QueueFamily { queue_count: 1, queue_flags: QUEUE_GRAPHICS, surface_support: false }
}

fn present_family() -> QueueFamily {
    QueueFamily { queue_count: 1, queue_flags: 0, surface_support: true }
}

fn full_family() -> QueueFamily {
    QueueFamily { queue_count: 1, queue_flags: QUEUE_GRAPHICS, surface_support: true }
}

#[test]
fn select_returns_no_device_found_on_empty_list() {
    let devices: Vec<u64> = Vec::new();
    let families: Vec<QueueFamily> = Vec::new();
    assert_eq!(select(&devices, &families), Err(ContextError::NoDeviceFound));
}

#[test]
fn select_fails_without_graphics_family() {
    let devices = vec![7u64];
    let families = vec![present_family(), present_family()];
    assert_eq!(select(&devices, &families), Err(ContextError::IncompleteQueueFamilies));
}

#[test]
fn select_fails_without_present_family() {
    let devices = vec![7u64];
    let families = vec![graphics_family()];
    assert_eq!(select(&devices, &families), Err(ContextError::IncompleteQueueFamilies));
}

#[test]
fn select_fails_on_empty_family_table() {
    let devices = vec![7u64];
    let families: Vec<QueueFamily> = Vec::new();
    assert_eq!(select(&devices, &families), Err(ContextError::IncompleteQueueFamilies));
}

#[test]
fn select_resolves_same_index_for_both() {
    let devices = vec![11u64, 12u64];
    let families = vec![present_family(), full_family(), full_family()];
    let (device, indices) = select(&devices, &families).unwrap();
    assert_eq!(device, 11);
    assert_eq!(indices.graphics, Some(1));
    assert_eq!(indices.present, Some(0));
}

#[test]
fn select_resolves_first_matching_indices() {
    let devices = vec![3u64];
    let families = vec![
        QueueFamily { queue_count: 1, queue_flags: 0, surface_support: false },
        graphics_family(),
        present_family(),
    ];
    let (_, indices) = select(&devices, &families).unwrap();
    assert_eq!(indices.graphics, Some(1));
    assert_eq!(indices.present, Some(2));
}

#[test]
fn resolve_skips_families_without_queues() {
    let empty_graphics =
        QueueFamily { queue_count: 0, queue_flags: QUEUE_GRAPHICS, surface_support: false };
    let families = vec![empty_graphics, graphics_family()];
    let indices = resolve_queue_families(&families);
    assert_eq!(indices.graphics, Some(1));
    assert_eq!(indices.present, None);
}

#[test]
fn pick_physical_device_takes_first() {
    let devices = vec![42u64, 43u64];
    assert_eq!(pick_physical_device(&devices), Ok(42));
}

#[test]
fn pick_physical_device_reports_empty_list() {
    let devices: Vec<u64> = Vec::new();
    assert_eq!(pick_physical_device(&devices), Err(ContextError::NoDeviceFound));
}

#[test]
fn logical_device_config_merges_equal_indices() {
    let indices = QueueFamilyIndices { graphics: Some(2), present: Some(2) };
    let config = logical_device_config(&indices).unwrap();
    assert_eq!(config.queue_family_indices, vec![2]);
    assert_eq!(config.extensions.len(), 1);
    assert_eq!(config.extensions[0], b"VK_KHR_swapchain".to_vec());
}

#[test]
fn logical_device_config_keeps_distinct_indices() {
    let indices = QueueFamilyIndices { graphics: Some(0), present: Some(3) };
    let config = logical_device_config(&indices).unwrap();
    assert_eq!(config.queue_family_indices, vec![0, 3]);
}

#[test]
fn logical_device_config_refuses_partial_resolution() {
    let indices = QueueFamilyIndices { graphics: Some(0), present: None };
    assert!(matches!(
        logical_device_config(&indices),
        Err(ContextError::IncompleteQueueFamilies)
    ));
}

#[test]
fn swapchain_extension_name_spells_the_driver_name() {
    assert_eq!(swapchain_extension_name(), b"VK_KHR_swapchain".to_vec());
}

#[test]
fn device_from_driver_passes_handle_through() {
    assert_eq!(device_from_driver(Some(9)), Ok(9));
}

#[test]
fn device_from_driver_reports_rejection() {
    assert_eq!(device_from_driver(None), Err(ContextError::DeviceCreationFailed));
}
