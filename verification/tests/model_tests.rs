use startup_layout::model::{AppData, AppPreset};

fn preset(id: &str, name: &str, enabled: bool) -> AppPreset {
    AppPreset {
        id: id.to_string(),
        name: name.to_string(),
        executable_path: format!("C:\\{}.exe", name),
        arguments: None,
        x: 0,
        y: 0,
        width: 1280,
        height: 720,
        monitor_index: None,
        delay_ms: 1000,
        enabled,
    }
}

fn ids(d: &AppData) -> Vec<String> {
    d.presets.iter().map(|p| p.id.clone()).collect()
}

#[test]
fn new_preset_has_defaults_and_uuid() {
    let p = AppPreset::new("Slack".to_string(), "C:\\slack.exe".to_string());
    assert_eq!(p.name, "Slack");
    assert_eq!(p.executable_path, "C:\\slack.exe");
    assert_eq!(p.arguments, None);
    assert_eq!((p.x, p.y, p.width, p.height), (0, 0, 1280, 720));
    assert_eq!(p.monitor_index, None);
    assert_eq!(p.delay_ms, 1000);
    assert!(p.enabled);
    assert_eq!(p.id.len(), 36);
    let c: Vec<char> = p.id.chars().collect();
    for (i, ch) in c.iter().enumerate() {
        if [8, 13, 18, 23].contains(&i) {
            assert_eq!(*ch, '-');
        } else {
            assert!(ch.is_ascii_hexdigit() && !ch.is_ascii_uppercase());
        }
    }
    assert_eq!(c[14], '4');
    assert!(['8', '9', 'a', 'b'].contains(&c[19]));
    let q = AppPreset::new("Slack".to_string(), "C:\\slack.exe".to_string());
    assert_ne!(p.id, q.id);
}

#[test]
fn default_data_is_empty() {
    let d = AppData::default();
    assert!(d.presets.is_empty());
}

#[test]
fn position_of_finds_first_match() {
    let d = AppData { presets: vec![preset("a", "A", true), preset("b", "B", true), preset("b", "B2", true)] };
    assert_eq!(d.position_of(&"b".to_string()), Some(1));
    assert_eq!(d.position_of(&"a".to_string()), Some(0));
    assert_eq!(d.position_of(&"z".to_string()), None);
}

#[test]
fn toggle_flips_first_match_only() {
    let mut d = AppData { presets: vec![preset("a", "A", true), preset("b", "B", true)] };
    d.toggle(&"b".to_string());
    assert!(d.presets[0].enabled);
    assert!(!d.presets[1].enabled);
    d.toggle(&"missing".to_string());
    assert!(d.presets[0].enabled);
    assert!(!d.presets[1].enabled);
}

#[test]
fn toggle_twice_restores() {
    let mut d = AppData { presets: vec![preset("a", "A", true), preset("b", "B", false)] };
    d.toggle(&"b".to_string());
    d.toggle(&"b".to_string());
    assert!(d.presets[0].enabled);
    assert!(!d.presets[1].enabled);
}

#[test]
fn upsert_replaces_or_appends() {
    let mut d = AppData { presets: vec![preset("a", "A", true), preset("b", "B", true)] };
    d.upsert(preset("b", "B-edited", false));
    assert_eq!(ids(&d), vec!["a", "b"]);
    assert_eq!(d.presets[1].name, "B-edited");
    assert!(!d.presets[1].enabled);
    d.upsert(preset("c", "C", true));
    assert_eq!(ids(&d), vec!["a", "b", "c"]);
    let i = d.position_of(&"c".to_string()).unwrap();
    assert_eq!(d.presets[i].name, "C");
}

#[test]
fn saved_preset_is_found_and_others_unchanged() {
    let mut d = AppData { presets: vec![preset("a", "A", true), preset("b", "B", true)] };
    d.upsert(preset("a", "A2", true));
    let i = d.position_of(&"a".to_string()).unwrap();
    assert_eq!(d.presets[i].name, "A2");
    let j = d.position_of(&"b".to_string()).unwrap();
    assert_eq!(d.presets[j].name, "B");
}

#[test]
fn remove_deletes_every_match() {
    let mut d = AppData { presets: vec![preset("a", "A", true), preset("b", "B", true), preset("a", "A2", true)] };
    d.remove(&"a".to_string());
    assert_eq!(ids(&d), vec!["b"]);
    assert_eq!(d.position_of(&"a".to_string()), None);
    d.remove(&"zzz".to_string());
    assert_eq!(ids(&d), vec!["b"]);
}

#[test]
fn enabled_presets_keeps_order() {
    let d = AppData { presets: vec![preset("a", "A", true), preset("b", "B", false), preset("c", "C", true)] };
    let e = d.enabled_presets();
    assert_eq!(e.iter().map(|p| p.id.as_str()).collect::<Vec<_>>(), vec!["a", "c"]);
    assert!(AppData::default().enabled_presets().is_empty());
}

#[test]
fn clone_keeps_everything() {
    let mut p = preset("a", "A", true);
    p.arguments = Some("--x".to_string());
    p.monitor_index = Some(2);
    let q = p.clone();
    assert_eq!(format!("{:?}", p), format!("{:?}", q));
    let d = AppData { presets: vec![p] };
    assert_eq!(format!("{:?}", d.clone()), format!("{:?}", d));
}

#[test]
fn presets_compare_by_every_field() {
    let a = preset("a", "A", true);
    let mut b = a.clone();
    assert_eq!(a, b);
    b.arguments = Some("--x".to_string());
    assert_ne!(a, b);
    let mut c = a.clone();
    c.monitor_index = Some(0);
    assert_ne!(a, c);
}

#[test]
fn operations_keep_ids_distinct() {
    let mut d = AppData { presets: vec![preset("a", "A", true), preset("b", "B", true)] };
    d.upsert(preset("a", "A3", false));
    d.upsert(preset("c", "C", true));
    d.toggle(&"c".to_string());
    d.remove(&"b".to_string());
    let mut seen = ids(&d);
    let n = seen.len();
    seen.sort();
    seen.dedup();
    assert_eq!(seen.len(), n);
    assert_eq!(ids(&d), vec!["a", "c"]);
}
