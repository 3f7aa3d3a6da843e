use render_boot::device::{
    device_extensions, plan_queues, queue_request_families, DeviceExtension,
};
use render_boot::errors::BootError;

#[test]
fn empty_family_list_is_queue_family_not_found() {
    let families: Vec<usize> = Vec::new();
    assert!(matches!(
        plan_queues(&families, true),
        Err(BootError::QueueFamilyNotFound)
    ));
}

#[test]
fn single_family_shares_graphics_queue() {
    let families: Vec<usize> = vec![3];
    let plan = plan_queues(&families, true).unwrap();
    assert_eq!(plan.graphics_family, 3);
    assert_eq!(plan.presentation_family, None);
}

#[test]
fn distinct_presenting_family_gets_its_own_queue() {
    let families: Vec<usize> = vec![0, 2];
    let plan = plan_queues(&families, true).unwrap();
    assert_eq!(plan.graphics_family, 0);
    assert_eq!(plan.presentation_family, Some(2));
}

#[test]
fn distinct_family_without_present_support_is_not_designated() {
    let families: Vec<usize> = vec![0, 2];
    let plan = plan_queues(&families, false).unwrap();
    assert_eq!(plan.presentation_family, None);
}

#[test]
fn duplicate_second_family_is_not_designated() {
    let families: Vec<usize> = vec![1, 1];
    let plan = plan_queues(&families, true).unwrap();
    assert_eq!(plan.graphics_family, 1);
    assert_eq!(plan.presentation_family, None);
}

#[test]
fn one_request_per_distinct_required_family() {
    let families: Vec<usize> = vec![0, 2];
    let with_present = plan_queues(&families, true).unwrap();
    assert_eq!(queue_request_families(&with_present), vec![0, 2]);
    let without = plan_queues(&families, false).unwrap();
    assert_eq!(queue_request_families(&without), vec![0]);
}

#[test]
fn device_enables_portability_and_swapchain() {
    assert_eq!(
        device_extensions(),
        vec![DeviceExtension::PortabilitySubset, DeviceExtension::Swapchain]
    );
}
