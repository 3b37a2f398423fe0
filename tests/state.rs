use bevy_persistent_windows::{MonitorSelection, ScaleFactor, WindowMode, WindowState};

fn scale(f: f64) -> ScaleFactor {
    ScaleFactor::from_bits(f.to_bits())
}

#[test]
fn windowed_state_has_resolution_and_waits_for_scale() {
    let s = WindowState::windowed(1280, 720);
    assert_eq!(s.mode, WindowMode::Windowed);
    assert_eq!(s.resolution, Some((1280, 720)));
    assert_eq!(s.position, None);
    assert_eq!(s.scale, None);
    assert_eq!(s.monitor, None);
    assert!(s.auto_scaled());
}

#[test]
fn fullscreen_family_constructors_target_primary() {
    let b = WindowState::borderless_fullscreen();
    assert_eq!(b.mode, WindowMode::BorderlessFullscreen(MonitorSelection::Primary));
    let f = WindowState::fullscreen();
    assert_eq!(f.mode, WindowMode::Fullscreen(MonitorSelection::Primary));
    let z = WindowState::sized_fullscreen();
    assert_eq!(z.mode, WindowMode::SizedFullscreen(MonitorSelection::Primary));
    for s in [b, f, z] {
        assert_eq!(s.resolution, None);
        assert_eq!(s.position, None);
        assert!(s.auto_scaled());
    }
}

#[test]
fn default_state_is_borderless_and_not_auto_scaled() {
    let s = WindowState::default();
    assert_eq!(s.mode, WindowMode::BorderlessFullscreen(MonitorSelection::Primary));
    assert_eq!(s.resolution, None);
    assert!(!s.auto_scaled());
}

#[test]
fn at_sets_position_on_windowed_state() {
    let s = WindowState::windowed(800, 600).at(10, -20);
    assert_eq!(s.position, Some((10, -20)));
}

#[test]
fn at_is_refused_outside_windowed_mode() {
    assert_eq!(WindowState::fullscreen().at(5, 5).position, None);
    assert_eq!(WindowState::borderless_fullscreen().at(5, 5).position, None);
    assert_eq!(WindowState::sized_fullscreen().at(5, 5).position, None);
}

#[test]
fn scaled_sets_scale() {
    let s = WindowState::windowed(800, 600).scaled(scale(2.0));
    assert_eq!(s.scale, Some(scale(2.0)));
    assert_eq!(s.scale.unwrap().to_bits(), 2.0f64.to_bits());
}

#[test]
fn equality_compares_placement() {
    assert_eq!(WindowState::windowed(800, 600), WindowState::windowed(800, 600));
    assert_ne!(WindowState::windowed(800, 600), WindowState::windowed(800, 601));
    let mut a = WindowState::windowed(800, 600);
    let mut b = WindowState::windowed(800, 600);
    a.monitor = Some("DP-1".to_string());
    b.monitor = Some("DP-1".to_string());
    assert_eq!(a, b);
    b.monitor = Some("DP-2".to_string());
    assert_ne!(a, b);
    assert!(!a.same_record_as(&b));
}
