use startup_layout::editor::{EditorError, EditorForm};
use startup_layout::model::AppPreset;

fn sample() -> AppPreset {
    AppPreset {
        id: "id-1".to_string(),
        name: "Slack".to_string(),
        executable_path: "C:\\slack.exe".to_string(),
        arguments: Some("--minimized".to_string()),
        x: -100,
        y: 200,
        width: 800,
        height: 600,
        monitor_index: Some(1),
        delay_ms: 2500,
        enabled: false,
    }
}

#[test]
fn form_opens_with_preset_text() {
    let f = EditorForm::from_preset(&sample());
    assert_eq!(f.name, "Slack");
    assert_eq!(f.arguments, "--minimized");
    assert_eq!((f.x.as_str(), f.y.as_str(), f.width.as_str(), f.height.as_str()), ("-100", "200", "800", "600"));
    assert_eq!(f.delay_ms, "2500");
    assert_eq!(f.monitor_index, "1");
    assert!(!f.enabled);
    let mut p = sample();
    p.monitor_index = None;
    p.arguments = None;
    let g = EditorForm::from_preset(&p);
    assert_eq!(g.monitor_index, "none");
    assert_eq!(g.arguments, "");
}

#[test]
fn unchanged_form_saves_same_preset() {
    let p = sample();
    let saved = EditorForm::from_preset(&p).to_preset(&p.id).unwrap();
    assert_eq!(saved, p);
    let mut q = sample();
    q.x = i32::MIN;
    q.height = i32::MAX;
    q.delay_ms = u32::MAX;
    q.monitor_index = None;
    q.arguments = None;
    assert_eq!(EditorForm::from_preset(&q).to_preset(&q.id).unwrap(), q);
}

#[test]
fn blank_name_or_path_is_refused() {
    let mut f = EditorForm::from_preset(&sample());
    f.name = "  ".to_string();
    assert_eq!(f.to_preset(&"x".to_string()).unwrap_err(), EditorError::NameRequired);
    f.name = "ok".to_string();
    f.executable_path = "\t".to_string();
    assert_eq!(f.to_preset(&"x".to_string()).unwrap_err(), EditorError::PathRequired);
    assert_eq!(EditorError::NameRequired.message(), "表示名を入力してください");
    assert_eq!(EditorError::PathRequired.message(), "実行ファイルパスを入力してください");
}

#[test]
fn bad_numbers_fall_back_to_defaults() {
    let mut f = EditorForm::from_preset(&sample());
    f.x = "abc".to_string();
    f.y = "".to_string();
    f.width = "1.5".to_string();
    f.height = "99999999999".to_string();
    f.delay_ms = "-1".to_string();
    f.monitor_index = "first".to_string();
    f.arguments = "   ".to_string();
    let p = f.to_preset(&"new".to_string()).unwrap();
    assert_eq!((p.x, p.y, p.width, p.height, p.delay_ms), (0, 0, 1280, 720, 1000));
    assert_eq!(p.monitor_index, None);
    assert_eq!(p.arguments, None);
    assert_eq!(p.id, "new");
    f.monitor_index = "none".to_string();
    assert_eq!(f.to_preset(&"new".to_string()).unwrap().monitor_index, None);
    f.monitor_index = "+3".to_string();
    assert_eq!(f.to_preset(&"new".to_string()).unwrap().monitor_index, Some(3));
}
