use render_boot::surface::Extent2d;
use render_boot::targets::{plan_framebuffers, plan_image_views, IMAGE_ASPECT_COLOR};

#[test]
fn one_view_per_returned_chain_image() {
    let views = plan_image_views(3);
    assert_eq!(views.len(), 3);
    for (i, v) in views.iter().enumerate() {
        assert_eq!(v.image_index, i);
        assert!(v.identity_swizzle);
        assert_eq!(v.aspect, IMAGE_ASPECT_COLOR);
        assert_eq!(v.base_mip_level, 0);
        assert_eq!(v.mip_level_count, 1);
        assert_eq!(v.base_array_layer, 0);
        assert_eq!(v.array_layer_count, 1);
    }
}

#[test]
fn one_framebuffer_per_view_in_chain_order() {
    let extent = Extent2d { width: 1920, height: 1080 };
    let framebuffers = plan_framebuffers(3, extent);
    assert_eq!(framebuffers.len(), 3);
    for (i, f) in framebuffers.iter().enumerate() {
        assert_eq!(f.view_index, i);
        assert_eq!(f.width, 1920);
        assert_eq!(f.height, 1080);
        assert_eq!(f.layers, 1);
    }
}

#[test]
fn view_and_framebuffer_counts_track_the_returned_image_count() {
    // The chain may return more images than requested; the plans follow
    // the returned count.
    let requested = 2;
    let returned = 4;
    assert_ne!(requested, returned);
    let extent = Extent2d { width: 800, height: 600 };
    let views = plan_image_views(returned);
    let framebuffers = plan_framebuffers(views.len(), extent);
    assert_eq!(views.len(), returned);
    assert_eq!(framebuffers.len(), returned);
}

#[test]
fn no_images_means_no_targets() {
    let extent = Extent2d { width: 1, height: 1 };
    assert_eq!(plan_image_views(0).len(), 0);
    assert_eq!(plan_framebuffers(0, extent).len(), 0);
}
