use vulkan_engine::device::{first_fitting_family, select_physical_device, PhysicalDeviceInfo, QueueFamilyInfo};

fn family(graphics: bool, presents: bool) -> QueueFamilyInfo {
    QueueFamilyInfo { graphics, presents }
}

fn device(supports_extensions: bool, families: Vec<QueueFamilyInfo>) -> PhysicalDeviceInfo {
    PhysicalDeviceInfo { supports_extensions, queue_families: families }
}

#[test]
fn first_family_that_draws_and_presents() {
    let families = vec![family(true, false), family(false, true), family(true, true), family(true, true)];
    assert_eq!(first_fitting_family(&families), Some(2));
}

#[test]
fn no_family_draws_and_presents() {
    let families = vec![family(true, false), family(false, true)];
    assert_eq!(first_fitting_family(&families), None);
    assert_eq!(first_fitting_family(&vec![]), None);
}

#[test]
fn device_without_extensions_is_skipped() {
    let devices = vec![
        device(false, vec![family(true, true)]),
        device(true, vec![family(false, false), family(true, true)]),
    ];
    assert_eq!(select_physical_device(&devices), Some((1, 1)));
}

#[test]
fn device_without_fitting_family_is_skipped() {
    let devices = vec![
        device(true, vec![family(true, false)]),
        device(true, vec![family(true, true)]),
        device(true, vec![family(true, true)]),
    ];
    assert_eq!(select_physical_device(&devices), Some((1, 0)));
}

#[test]
fn no_usable_device() {
    let devices = vec![device(false, vec![family(true, true)]), device(true, vec![])];
    assert_eq!(select_physical_device(&devices), None);
    assert_eq!(select_physical_device(&vec![]), None);
}
