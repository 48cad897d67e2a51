use startup_layout::launch::{
    command_line, join_strings, launch_all_status, launch_step, single_launch_status, LaunchAction,
    LaunchEvent, LaunchStage,
};
use startup_layout::model::AppPreset;
use startup_layout::monitor::MonitorInfo;

fn preset() -> AppPreset {
    AppPreset {
        id: "p".to_string(),
        name: "Editor".to_string(),
        executable_path: "C:\\Program Files\\ed.exe".to_string(),
        arguments: Some("--new".to_string()),
        x: 10,
        y: 20,
        width: 800,
        height: 600,
        monitor_index: Some(1),
        delay_ms: 500,
        enabled: true,
    }
}

#[test]
fn command_line_quotes_path() {
    assert_eq!(command_line("C:\\a b\\x.exe", Some("-v 1")), "\"C:\\a b\\x.exe\" -v 1");
    assert_eq!(command_line("C:\\x.exe", None), "\"C:\\x.exe\"");
    assert_eq!(command_line("x", Some("")), "\"x\" ");
}

#[test]
fn launch_runs_through_pid_search() {
    let p = preset();
    let (s, a) = launch_step(&p, LaunchStage::Ready, LaunchEvent::Begin);
    assert_eq!(s, LaunchStage::Starting);
    match a {
        LaunchAction::StartProcess { executable_path, arguments } => {
            assert_eq!(executable_path, p.executable_path);
            assert_eq!(arguments.as_deref(), Some("--new"));
        }
        other => panic!("unexpected {:?}", other),
    }
    let (s, a) = launch_step(&p, s, LaunchEvent::Started(Ok(77)));
    assert_eq!(s, LaunchStage::Waiting { pid: 77 });
    assert!(matches!(a, LaunchAction::Sleep { ms: 500 }));
    let (s, a) = launch_step(&p, s, LaunchEvent::Waited);
    assert_eq!(s, LaunchStage::SearchingByPid);
    assert!(matches!(a, LaunchAction::FindByPid { pid: 77, timeout_ms: 3000 }));
    let (s, a) = launch_step(&p, s, LaunchEvent::FoundByPid(Some(4242)));
    assert_eq!(s, LaunchStage::ListingMonitors { window: 4242 });
    assert!(matches!(a, LaunchAction::ListMonitors));
    let ms = vec![
        MonitorInfo { index: 0, x: 0, y: 0, width: 1920, height: 1080, is_primary: true },
        MonitorInfo { index: 1, x: 1920, y: 100, width: 1920, height: 1080, is_primary: false },
    ];
    let (s, a) = launch_step(&p, s, LaunchEvent::Monitors(ms));
    assert_eq!(s, LaunchStage::Moving);
    assert!(matches!(a, LaunchAction::MoveWindow { window: 4242, x: 1930, y: 120, width: 800, height: 600 }));
    let (s, a) = launch_step(&p, s, LaunchEvent::Moved(Ok(())));
    assert_eq!(s, LaunchStage::Done);
    assert!(matches!(a, LaunchAction::Finish(Ok(()))));
}

#[test]
fn launch_falls_back_to_path_then_fails() {
    let p = preset();
    let (s, a) = launch_step(&p, LaunchStage::SearchingByPid, LaunchEvent::FoundByPid(None));
    assert_eq!(s, LaunchStage::SearchingByPath);
    match a {
        LaunchAction::FindByExePath { executable_path, timeout_ms } => {
            assert_eq!(executable_path, p.executable_path);
            assert_eq!(timeout_ms, 3000);
        }
        other => panic!("unexpected {:?}", other),
    }
    let (s, a) = launch_step(&p, s, LaunchEvent::FoundByPath(None));
    assert_eq!(s, LaunchStage::Done);
    match a {
        LaunchAction::Finish(Err(m)) => assert_eq!(m, "Editor のウィンドウを検出できませんでした"),
        other => panic!("unexpected {:?}", other),
    }
    let (s, _) = launch_step(&p, LaunchStage::SearchingByPath, LaunchEvent::FoundByPath(Some(9)));
    assert_eq!(s, LaunchStage::ListingMonitors { window: 9 });
}

#[test]
fn launch_errors_end_the_launch() {
    let p = preset();
    let (s, a) = launch_step(&p, LaunchStage::Starting, LaunchEvent::Started(Err("boom".to_string())));
    assert_eq!(s, LaunchStage::Done);
    assert!(matches!(a, LaunchAction::Finish(Err(ref m)) if m == "boom"));
    let (s, a) = launch_step(&p, LaunchStage::Moving, LaunchEvent::Moved(Err("no move".to_string())));
    assert_eq!(s, LaunchStage::Done);
    assert!(matches!(a, LaunchAction::Finish(Err(ref m)) if m == "no move"));
}

#[test]
fn status_messages() {
    assert_eq!(launch_all_status(&vec![]), "全アプリを起動しました");
    assert_eq!(launch_all_status(&vec!["a".to_string()]), "a");
    assert_eq!(launch_all_status(&vec!["a".to_string(), "b".to_string(), "c".to_string()]), "a / b / c");
    assert_eq!(join_strings(&vec!["x".to_string(), "y".to_string()], ", "), "x, y");
    assert_eq!(join_strings(&vec![], ", "), "");
    assert_eq!(single_launch_status(&"Slack".to_string(), Ok(())), "Slack を起動しました");
    assert_eq!(single_launch_status(&"Slack".to_string(), Err("bad".to_string())), "bad");
}

#[test]
fn launch_all_targets_needs_an_enabled_preset() {
    let mut a = preset();
    a.id = "a".to_string();
    a.enabled = false;
    let mut b = preset();
    b.id = "b".to_string();
    let data = startup_layout::model::AppData { presets: vec![a.clone(), b.clone()] };
    let t = startup_layout::launch::launch_all_targets(&data).unwrap();
    assert_eq!(t, vec![b]);
    let none = startup_layout::model::AppData { presets: vec![a] };
    assert_eq!(startup_layout::launch::launch_all_targets(&none).unwrap_err(), "有効なプリセットがありません");
    assert_eq!(
        startup_layout::launch::launch_all_targets(&startup_layout::model::AppData::default()).unwrap_err(),
        "有効なプリセットがありません"
    );
}
