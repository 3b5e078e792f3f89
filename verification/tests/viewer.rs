use cube_viewer::viewer::{Viewer, ViewerEvent};

#[test]
fn new_viewer_has_default_camera_and_given_extent() {
    let v = Viewer::new(640, 480);
    assert_eq!(v.camera, cube_viewer::camera::Camera::default());
    assert_eq!(v.config.width, 640);
    assert_eq!(v.config.height, 480);
}

#[test]
fn resize_then_redraw_presents_at_new_dimensions() {
    let mut v = Viewer::new(640, 480);

    let r = v.handle_window_event(ViewerEvent::Resized(1920, 1080));
    assert!(r.reapply_surface);
    assert!(r.request_redraw);
    assert!(!r.render_frame);
    assert!(!r.exit);
    assert_eq!(v.config.width, 1920);
    assert_eq!(v.config.height, 1080);
    assert_eq!(
        f32::from_bits(v.camera.aspect),
        1920.0f32 / 1080.0f32
    );

    // The redraw that follows must acquire at exactly that configuration.
    let config_before_acquire = v.config;
    let r = v.handle_window_event(ViewerEvent::RedrawRequested);
    assert!(r.render_frame);
    assert!(r.request_redraw);
    assert_eq!(v.config, config_before_acquire);
    assert_eq!(v.config.width, 1920);
    assert_eq!(v.config.height, 1080);
}

#[test]
fn zero_area_resize_changes_nothing() {
    let mut v = Viewer::new(640, 480);
    let before = v;
    for (w, h) in [(800u32, 0u32), (0, 600), (0, 0)] {
        let r = v.handle_window_event(ViewerEvent::Resized(w, h));
        assert!(!r.reapply_surface);
        assert!(r.request_redraw);
        assert_eq!(v, before);
    }
}

#[test]
fn repeated_identical_resizes_are_idempotent() {
    let mut v = Viewer::new(640, 480);
    v.handle_window_event(ViewerEvent::Resized(1024, 768));
    let once = v;
    v.handle_window_event(ViewerEvent::Resized(1024, 768));
    assert_eq!(v.config, once.config);
}

#[test]
fn close_request_exits_without_rendering() {
    let mut v = Viewer::new(640, 480);
    let before = v;
    let r = v.handle_window_event(ViewerEvent::CloseRequested);
    assert!(r.exit);
    assert!(!r.render_frame);
    assert!(!r.reapply_surface);
    assert!(!r.request_redraw);
    assert_eq!(v, before);
}

#[test]
fn redraw_renders_and_rerequests() {
    let mut v = Viewer::new(640, 480);
    let before = v;
    let r = v.handle_window_event(ViewerEvent::RedrawRequested);
    assert!(r.render_frame);
    assert!(r.request_redraw);
    assert!(!r.exit);
    assert_eq!(v, before);
}
