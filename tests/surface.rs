use pentagon_viewer::surface::{PhysicalSize, PresentMode, SurfaceConfig, SurfaceState};

#[test]
fn new_surface_uses_window_size_and_vsync() {
    let s = SurfaceState::new(PhysicalSize::new(800, 600));
    assert_eq!(s.size, PhysicalSize::new(800, 600));
    assert_eq!(s.config.width, 800);
    assert_eq!(s.config.height, 600);
    assert_eq!(s.config.present_mode, PresentMode::Fifo);
}

#[test]
fn reconfigure_stores_nonzero_size() {
    let mut s = SurfaceState::new(PhysicalSize::new(800, 600));
    let r = s.reconfigure(PhysicalSize::new(1024, 768));
    assert_eq!(
        r,
        Some(SurfaceConfig { width: 1024, height: 768, present_mode: PresentMode::Fifo })
    );
    assert_eq!(s.size, PhysicalSize::new(1024, 768));
    assert_eq!(s.config.width, 1024);
    assert_eq!(s.config.height, 768);
}

#[test]
fn reconfigure_twice_same_as_once() {
    let mut once = SurfaceState::new(PhysicalSize::new(800, 600));
    let mut twice = once;
    let a = once.reconfigure(PhysicalSize::new(640, 480));
    let b1 = twice.reconfigure(PhysicalSize::new(640, 480));
    let b2 = twice.reconfigure(PhysicalSize::new(640, 480));
    assert_eq!(once, twice);
    assert_eq!(a, b1);
    assert_eq!(a, b2);
}

#[test]
fn reconfigure_zero_width_keeps_configuration() {
    let mut s = SurfaceState::new(PhysicalSize::new(800, 600));
    let before = s;
    assert_eq!(s.reconfigure(PhysicalSize::new(0, 600)), None);
    assert_eq!(s, before);
}

#[test]
fn reconfigure_zero_height_keeps_configuration() {
    let mut s = SurfaceState::new(PhysicalSize::new(800, 600));
    let before = s;
    assert_eq!(s.reconfigure(PhysicalSize::new(300, 0)), None);
    assert_eq!(s.reconfigure(PhysicalSize::new(0, 0)), None);
    assert_eq!(s, before);
}

#[test]
fn has_area_needs_both_dimensions() {
    assert!(PhysicalSize::new(1, 1).has_area());
    assert!(!PhysicalSize::new(0, 1).has_area());
    assert!(!PhysicalSize::new(1, 0).has_area());
    assert!(PhysicalSize::new(u32::MAX, u32::MAX).has_area());
}
