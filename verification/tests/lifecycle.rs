use render_boot::lifecycle::{
    expected_teardown, teardown_order, teardown_violation, ResourceKind,
};

#[test]
fn exact_reverse_is_not_flagged() {
    let built: Vec<u64> = vec![10, 20, 30, 40];
    let torn: Vec<u64> = vec![40, 30, 20, 10];
    assert!(!teardown_violation(&built, &torn));
}

#[test]
fn construction_order_teardown_is_flagged() {
    let built: Vec<u64> = vec![10, 20, 30];
    let torn: Vec<u64> = vec![10, 20, 30];
    assert!(teardown_violation(&built, &torn));
}

#[test]
fn swapped_pair_is_flagged() {
    let built: Vec<u64> = vec![10, 20, 30];
    let torn: Vec<u64> = vec![30, 10, 20];
    assert!(teardown_violation(&built, &torn));
}

#[test]
fn partial_teardown_is_flagged() {
    let built: Vec<u64> = vec![10, 20, 30];
    let torn: Vec<u64> = vec![30, 20];
    assert!(teardown_violation(&built, &torn));
}

#[test]
fn empty_log_admits_only_empty_teardown() {
    let built: Vec<u64> = Vec::new();
    assert!(!teardown_violation(&built, &Vec::new()));
    assert!(teardown_violation(&built, &vec![1]));
}

#[test]
fn expected_teardown_reverses_construction() {
    let built: Vec<u64> = vec![1, 2, 3, 4, 5];
    assert_eq!(expected_teardown(&built), vec![5, 4, 3, 2, 1]);
    let torn = expected_teardown(&built);
    assert!(!teardown_violation(&built, &torn));
}

#[test]
fn teardown_order_runs_from_pipeline_to_instance() {
    let order = teardown_order();
    assert_eq!(
        order,
        vec![
            ResourceKind::Pipeline,
            ResourceKind::RenderPass,
            ResourceKind::Framebuffers,
            ResourceKind::ImageViews,
            ResourceKind::Swapchain,
            ResourceKind::Surface,
            ResourceKind::Device,
            ResourceKind::DebugMessenger,
            ResourceKind::Instance,
        ]
    );
}
