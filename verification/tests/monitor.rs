use winit::monitor::MonitorId;
use winit::monitor::current_monitor_index;
use winit::monitor::primary_monitor_index;

fn monitor(id: u32, position: (i32, i32), dimensions: (u32, u32), primary: bool) -> MonitorId {
    MonitorId { id, name: format!("monitor-{}", id), dimensions, position, primary }
}

#[test]
fn primary_pick_prefers_the_marked_monitor() {
    let monitors = vec![
        monitor(0, (0, 0), (100, 100), false),
        monitor(1, (100, 0), (100, 100), true),
    ];
    assert_eq!(primary_monitor_index(&monitors), 1);
}

#[test]
fn missing_primary_falls_back_to_the_first_monitor() {
    let monitors = vec![
        monitor(0, (0, 0), (100, 100), false),
        monitor(1, (100, 0), (100, 100), false),
    ];
    assert_eq!(primary_monitor_index(&monitors), 0);
}

#[test]
fn current_monitor_is_the_one_with_the_biggest_overlap() {
    let monitors = vec![
        monitor(0, (0, 0), (100, 100), true),
        monitor(1, (100, 0), (100, 100), false),
    ];
    // The window straddles both monitors but lies mostly on the second.
    let r = current_monitor_index(&monitors, Some((90, 10)), Some((50, 20)));
    assert_eq!(r, 1);
    // Mostly on the first.
    let r = current_monitor_index(&monitors, Some((10, 10)), Some((50, 20)));
    assert_eq!(r, 0);
}

#[test]
fn unknown_window_geometry_defaults_to_the_first_monitor() {
    let monitors = vec![
        monitor(0, (0, 0), (100, 100), false),
        monitor(1, (100, 0), (100, 100), true),
    ];
    assert_eq!(current_monitor_index(&monitors, None, Some((50, 20))), 0);
    assert_eq!(current_monitor_index(&monitors, Some((10, 10)), None), 0);
}

#[test]
fn window_outside_every_monitor_defaults_to_the_first() {
    let monitors = vec![monitor(0, (0, 0), (100, 100), true)];
    assert_eq!(current_monitor_index(&monitors, Some((5000, 5000)), Some((10, 10))), 0);
}

#[test]
fn monitor_getters_report_identity_and_geometry() {
    let m = monitor(4, (10, -20), (1920, 1080), true);
    assert_eq!(m.get_native_identifier(), 4);
    assert_eq!(m.get_dimensions(), (1920, 1080));
    assert_eq!(m.get_position(), (10, -20));
    assert_eq!(m.get_name(), Some("monitor-4".to_string()));
}
