use bevy_persistent_windows::{DisplayInfo, MonitorCatalog, ScaleFactor};

fn display(name: Option<&str>, width: u32, height: u32, rate: Option<u32>) -> DisplayInfo {
    DisplayInfo {
        name: name.map(|n| n.to_string()),
        width,
        height,
        refresh_rate_millihertz: rate,
        scale: ScaleFactor::from_bits(1.0f64.to_bits()),
    }
}

#[test]
fn enumerate_drops_unnamed_and_keeps_positions() {
    let cat = MonitorCatalog::enumerate(&vec![
        display(Some("A"), 1920, 1080, None),
        display(None, 3840, 2160, None),
        display(Some("C"), 1280, 720, None),
    ]);
    assert_eq!(cat.len(), 2);
    assert_eq!(cat.get(0).name, "A");
    assert_eq!(cat.get(0).index, 0);
    assert_eq!(cat.get(1).name, "C");
    assert_eq!(cat.get(1).index, 2);
    assert_eq!(cat.find(&"C".to_string()).unwrap().width, 1280);
    assert!(cat.find(&"B".to_string()).is_none());
}

#[test]
fn enumerate_keeps_last_of_shared_name() {
    let cat = MonitorCatalog::enumerate(&vec![
        display(Some("A"), 1920, 1080, None),
        display(Some("A"), 2560, 1440, None),
    ]);
    assert_eq!(cat.len(), 1);
    assert_eq!(cat.get(0).width, 2560);
    assert_eq!(cat.get(0).index, 1);
}

#[test]
fn enumerate_of_nothing_is_empty() {
    assert!(MonitorCatalog::enumerate(&vec![]).is_empty());
    assert!(MonitorCatalog::enumerate(&vec![display(None, 1920, 1080, None)]).is_empty());
}

#[test]
fn refresh_rate_breaks_ties() {
    let cat = MonitorCatalog::enumerate(&vec![
        display(Some("A"), 1920, 1080, Some(60_000)),
        display(Some("B"), 1920, 1080, Some(144_000)),
        display(Some("C"), 1920, 1080, None),
    ]);
    assert_eq!(cat.select_best().name, "B");
}

#[test]
fn index_breaks_remaining_ties() {
    let cat = MonitorCatalog::enumerate(&vec![
        display(Some("A"), 1920, 1080, Some(60_000)),
        display(Some("B"), 1920, 1080, Some(60_000)),
    ]);
    assert_eq!(cat.select_best().name, "A");
}

#[test]
fn reported_rate_beats_missing_rate() {
    let cat = MonitorCatalog::enumerate(&vec![
        display(Some("A"), 1920, 1080, None),
        display(Some("B"), 1920, 1080, Some(30_000)),
    ]);
    assert_eq!(cat.select_best().name, "B");
}

#[test]
fn height_decides_between_equal_widths() {
    let cat = MonitorCatalog::enumerate(&vec![
        display(Some("A"), 1920, 1080, Some(240_000)),
        display(Some("B"), 1920, 1200, None),
    ]);
    assert_eq!(cat.select_best().name, "B");
}

#[test]
fn widest_monitor_wins() {
    let cat = MonitorCatalog::enumerate(&vec![
        display(Some("A"), 1920, 2160, Some(240_000)),
        display(Some("B"), 2560, 1080, None),
        display(Some("C"), 1920, 1440, Some(144_000)),
    ]);
    assert_eq!(cat.select_best().name, "B");
}

#[test]
fn best_monitor_ignores_enumeration_order() {
    let a = display(Some("A"), 1920, 1080, Some(60_000));
    let b = display(Some("B"), 2560, 1440, Some(60_000));
    let c = display(Some("C"), 2560, 1440, Some(75_000));
    let first = MonitorCatalog::enumerate(&vec![a.clone(), b.clone(), c.clone()]);
    let second = MonitorCatalog::enumerate(&vec![c, a, b]);
    assert_eq!(first.select_best().name, "C");
    assert_eq!(second.select_best().name, "C");
}
