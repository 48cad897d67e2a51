use startup_layout::model::AppPreset;
use startup_layout::path::executable_display_name;
use startup_layout::picker::CapturedWindow;
use startup_layout::window::{
    candidate_windows, find_window_by_exe_path, first_lowered_match, find_window_of_pid, next_pick_step, next_search_step,
    PickStep, SearchStep, WindowEntry,
};

fn w(handle: usize, visible: bool, pid: u32, title_len: i32) -> WindowEntry {
    WindowEntry { handle, visible, pid, title_len }
}

#[test]
fn pid_search_takes_first_visible_titled_window() {
    let ws = vec![w(1, false, 7, 5), w(2, true, 7, 0), w(3, true, 8, 5), w(4, true, 7, 3), w(5, true, 7, 9)];
    assert_eq!(find_window_of_pid(&ws, 7), Some(4));
    assert_eq!(find_window_of_pid(&ws, 9), None);
    assert_eq!(find_window_of_pid(&vec![], 7), None);
}

#[test]
fn candidates_are_every_visible_window() {
    let ws = vec![w(1, false, 7, 5), w(2, true, 7, 0), w(3, true, 8, 5), w(4, true, 7, 3), w(5, false, 7, 0)];
    let c = candidate_windows(&ws);
    assert_eq!(c.iter().map(|x| x.handle).collect::<Vec<_>>(), vec![2, 3, 4]);
}

#[test]
fn exe_path_search_ignores_case() {
    let cands = vec![
        (10usize, None),
        (11, Some("C:\\Other\\app.exe".to_string())),
        (12, Some("C:\\Program Files\\BRAVE\\Brave.EXE".to_string())),
        (13, Some("c:\\program files\\brave\\brave.exe".to_string())),
    ];
    assert_eq!(find_window_by_exe_path(&cands, "c:\\PROGRAM FILES\\brave\\brave.exe"), Some(12));
    assert_eq!(find_window_by_exe_path(&cands, "C:\\nothing.exe"), None);
    assert_eq!(find_window_by_exe_path(&vec![], "x"), None);
}

#[test]
fn search_steps() {
    assert_eq!(next_search_step(Some(3), true), SearchStep::Found(3));
    assert_eq!(next_search_step(None, true), SearchStep::GiveUp);
    assert_eq!(next_search_step(None, false), SearchStep::Retry);
}

#[test]
fn pick_steps() {
    assert_eq!(next_pick_step(100, Some((5, 200)), false), PickStep::Capture(5));
    assert_eq!(next_pick_step(100, Some((5, 200)), true), PickStep::Capture(5));
    assert_eq!(next_pick_step(100, Some((5, 100)), false), PickStep::Wait);
    assert_eq!(next_pick_step(100, Some((5, 100)), true), PickStep::GiveUp);
    assert_eq!(next_pick_step(100, None, false), PickStep::Wait);
    assert_eq!(next_pick_step(100, None, true), PickStep::GiveUp);
}

#[test]
fn captured_window_becomes_preset() {
    let c = CapturedWindow { executable_path: "C:\\apps\\notepad.exe".to_string(), x: 5, y: 6, width: 700, height: 500 };
    let p = AppPreset::from_capture_with_stem(c.clone(), Some("notepad".to_string()));
    assert_eq!(p.name, "notepad");
    assert_eq!(p.executable_path, "C:\\apps\\notepad.exe");
    assert_eq!((p.x, p.y, p.width, p.height), (5, 6, 700, 500));
    assert_eq!((p.arguments.clone(), p.monitor_index, p.delay_ms, p.enabled), (None, None, 1000, true));
    assert_eq!(p.id.len(), 36);
    let q = AppPreset::from_capture_with_stem(c.clone(), None);
    assert_eq!(q.name, "New Preset");
    assert_ne!(p.id, q.id);
    let mut c2 = c.clone();
    c2.executable_path = "C:/apps/notepad.exe".to_string();
    let r = AppPreset::from_capture(c2);
    assert_eq!(r.name, "notepad");
    assert_eq!(r.executable_path, "C:/apps/notepad.exe");
    assert_eq!(r.arguments, None);
    assert_eq!(r.monitor_index, None);
    let mut c3 = c;
    c3.executable_path = "..".to_string();
    assert_eq!(AppPreset::from_capture(c3).name, "New Preset");
    assert_eq!((r.x, r.y, r.width, r.height, r.delay_ms, r.enabled), (5, 6, 700, 500, 1000, true));
}

#[test]
fn lowered_match_compares_exactly() {
    let lowered = vec![None, Some("c:\\a.exe".to_string()), Some("c:\\b.exe".to_string()), Some("c:\\b.exe".to_string())];
    assert_eq!(first_lowered_match(&lowered, &"c:\\b.exe".to_string()), Some(2));
    assert_eq!(first_lowered_match(&lowered, &"C:\\B.EXE".to_string()), None);
    assert_eq!(first_lowered_match(&vec![], &"x".to_string()), None);
}

#[test]
fn display_name_is_file_name_or_whole_path() {
    assert_eq!(executable_display_name("C:/Program Files/App/app.exe"), "app.exe");
    assert_eq!(executable_display_name("C:/Apps/slack.exe"), "slack.exe");
    assert_eq!(executable_display_name("/usr/bin/tool"), "tool");
    assert_eq!(executable_display_name(""), "");
    assert_eq!(executable_display_name("a/.."), "a/..");
}

#[test]
fn captured_name_is_the_stem() {
    let mk = |path: &str| CapturedWindow { executable_path: path.to_string(), x: 0, y: 0, width: 1, height: 1 };
    assert_eq!(AppPreset::from_capture(mk("C:/Apps/slack.exe")).name, "slack");
    assert_eq!(AppPreset::from_capture(mk("dir/archive.tar.gz")).name, "archive.tar");
    assert_eq!(AppPreset::from_capture(mk("dir/.hidden")).name, ".hidden");
    assert_eq!(AppPreset::from_capture(mk("dir/tool")).name, "tool");
    assert_eq!(AppPreset::from_capture(mk("")).name, "New Preset");
}
