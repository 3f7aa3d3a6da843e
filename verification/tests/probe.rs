use render_boot::errors::BootError;
use render_boot::probe::{
    adapter_is_suitable, find_queue_families, select_adapter, AdapterInfo, DEVICE_CLASS_INTEGRATED,
    QUEUE_GRAPHICS,
};

const DEVICE_CLASS_DISCRETE: u32 = 2;

fn adapter(device_class: u32, queue_family_flags: Vec<u32>) -> AdapterInfo {
    AdapterInfo { device_class, queue_family_flags }
}

#[test]
fn selects_first_suitable_adapter_in_enumeration_order() {
    let adapters = vec![
        adapter(DEVICE_CLASS_DISCRETE, vec![QUEUE_GRAPHICS]),
        adapter(DEVICE_CLASS_INTEGRATED, vec![0, QUEUE_GRAPHICS | 4]),
        adapter(DEVICE_CLASS_INTEGRATED, vec![QUEUE_GRAPHICS]),
    ];
    assert_eq!(select_adapter(&adapters, QUEUE_GRAPHICS), Ok(1));
}

#[test]
fn reports_adapter_not_found_when_none_matches() {
    let adapters = vec![
        adapter(DEVICE_CLASS_DISCRETE, vec![QUEUE_GRAPHICS]),
        adapter(DEVICE_CLASS_INTEGRATED, vec![2, 4]),
    ];
    assert_eq!(select_adapter(&adapters, QUEUE_GRAPHICS), Err(BootError::AdapterNotFound));
}

#[test]
fn reports_adapter_not_found_on_empty_enumeration() {
    let adapters: Vec<AdapterInfo> = Vec::new();
    assert_eq!(select_adapter(&adapters, QUEUE_GRAPHICS), Err(BootError::AdapterNotFound));
}

#[test]
fn integrated_without_matching_family_is_unsuitable() {
    let a = adapter(DEVICE_CLASS_INTEGRATED, vec![2]);
    assert!(!adapter_is_suitable(&a, QUEUE_GRAPHICS));
    let b = adapter(DEVICE_CLASS_INTEGRATED, vec![2, QUEUE_GRAPHICS | 2]);
    assert!(adapter_is_suitable(&b, QUEUE_GRAPHICS));
}

#[test]
fn queue_families_keep_enumeration_order() {
    let a = adapter(DEVICE_CLASS_INTEGRATED, vec![3, 2, 1, 5]);
    assert_eq!(find_queue_families(&a, QUEUE_GRAPHICS), vec![0, 2, 3]);
}

#[test]
fn queue_families_empty_when_no_flags_contain_mask() {
    let a = adapter(DEVICE_CLASS_INTEGRATED, vec![2, 4, 8]);
    assert_eq!(find_queue_families(&a, QUEUE_GRAPHICS), Vec::<usize>::new());
}

#[test]
fn queue_families_require_full_mask() {
    let mask = 3;
    let a = adapter(DEVICE_CLASS_INTEGRATED, vec![1, 2, 3, 7]);
    assert_eq!(find_queue_families(&a, mask), vec![2, 3]);
}
