use startup_layout::monitor::{
    monitor_from_rect, monitor_label, monitor_option_label, order_monitors, rect_geometry,
    resolve_position, MonitorInfo,
};

fn mon(x: i32, primary: bool) -> MonitorInfo {
    MonitorInfo { index: 99, x, y: 0, width: 1920, height: 1080, is_primary: primary }
}

#[test]
fn rect_geometry_gives_size() {
    assert_eq!(rect_geometry(10, 20, 110, 220), (10, 20, 100, 200));
    assert_eq!(rect_geometry(-1920, 0, 0, 1080), (-1920, 0, 1920, 1080));
}

#[test]
fn monitor_from_rect_reads_primary_flag() {
    let m = monitor_from_rect(3, -1920, 0, 0, 1080, 1);
    assert_eq!(m, MonitorInfo { index: 3, x: -1920, y: 0, width: 1920, height: 1080, is_primary: true });
    assert!(!monitor_from_rect(0, 0, 0, 10, 10, 0).is_primary);
    assert!(!monitor_from_rect(0, 0, 0, 10, 10, 2).is_primary);
    assert!(monitor_from_rect(0, 0, 0, 10, 10, 3).is_primary);
}

#[test]
fn order_puts_primary_first_then_left_to_right() {
    let ms = vec![mon(3840, false), mon(0, true), mon(-1920, false), mon(1920, false)];
    let out = order_monitors(ms);
    assert_eq!(out.iter().map(|m| (m.x, m.is_primary)).collect::<Vec<_>>(),
        vec![(0, true), (-1920, false), (1920, false), (3840, false)]);
    assert_eq!(out.iter().map(|m| m.index).collect::<Vec<_>>(), vec![0, 1, 2, 3]);
}

#[test]
fn order_is_stable_for_equal_rank() {
    let mut a = mon(0, false);
    a.y = 1;
    let mut b = mon(0, false);
    b.y = 2;
    let mut c = mon(0, false);
    c.y = 3;
    let out = order_monitors(vec![a, b, c]);
    assert_eq!(out.iter().map(|m| m.y).collect::<Vec<_>>(), vec![1, 2, 3]);
    assert!(order_monitors(vec![]).is_empty());
}

#[test]
fn resolve_position_offsets_by_monitor() {
    let ms = order_monitors(vec![mon(0, true), mon(1920, false)]);
    assert_eq!(resolve_position(100, 50, Some(1), &ms), (2020, 50));
    assert_eq!(resolve_position(100, 50, Some(0), &ms), (100, 50));
    assert_eq!(resolve_position(100, 50, None, &ms), (100, 50));
    assert_eq!(resolve_position(100, 50, Some(5), &ms), (100, 50));
    assert_eq!(resolve_position(-5, -6, Some(0), &vec![]), (-5, -6));
}

#[test]
fn monitor_label_cases() {
    let ms = order_monitors(vec![mon(0, true), mon(1920, false)]);
    assert_eq!(monitor_label(Some(1), &ms), "Monitor 2");
    assert_eq!(monitor_label(Some(7), &ms), "Monitor 8");
    assert_eq!(monitor_label(None, &ms), "座標通り");
}

#[test]
fn monitor_option_label_format() {
    let m = MonitorInfo { index: 0, x: 0, y: 0, width: 2560, height: 1440, is_primary: true };
    assert_eq!(monitor_option_label(&m), "Monitor 1 (2560x1440) [Primary]");
    let m2 = MonitorInfo { index: 1, x: 0, y: 0, width: 1920, height: 1080, is_primary: false };
    assert_eq!(monitor_option_label(&m2), "Monitor 2 (1920x1080)");
}

#[test]
fn card_geometry_line() {
    let p = startup_layout::model::AppPreset {
        id: "a".to_string(),
        name: "Slack".to_string(),
        executable_path: "C:/Apps/slack.exe".to_string(),
        arguments: None,
        x: -1920,
        y: 0,
        width: 1280,
        height: 720,
        monitor_index: Some(1),
        delay_ms: 1000,
        enabled: false,
    };
    assert_eq!(startup_layout::monitor::card_geometry(&p, &vec![]), "1280x720+-1920+0 (Monitor 2)");
    let mut q = p.clone();
    q.monitor_index = None;
    assert_eq!(startup_layout::monitor::card_geometry(&q, &vec![]), "1280x720+-1920+0 (座標通り)");
}
