use vstd::prelude::*;
use vstd::string::StringExecFns;

use crate::ids::{is_uuid_v4_text, new_uuid_v4_text};
use crate::model::{AppPreset, PresetView};
use crate::path::{
    backslash_file_name, file_stem, has_backslash_file_name, has_plain_file_name, is_contiguous_part,
    name_stem, plain_file_name,
};

verus! {

/// A window picked from the screen: the executable of its process and its
/// rectangle.
#[derive(Debug)]
pub struct CapturedWindow {
    pub executable_path: String,
    pub x: i32,
    pub y: i32,
    pub width: i32,
    pub height: i32,
}

impl Clone for CapturedWindow {
    fn clone(&self) -> (r: Self)
        ensures
            r.executable_path@ == self.executable_path@,
            r.x == self.x,
            r.y == self.y,
            r.width == self.width,
            r.height == self.height,
    {
        CapturedWindow {
            executable_path: self.executable_path.clone(),
            x: self.x,
            y: self.y,
            width: self.width,
            height: self.height,
        }
    }
}

/// The name a captured window's preset gets: the file stem of its
/// executable where there is one, else `New Preset`.
pub open spec fn captured_name(stem: Option<Seq<char>>) -> Seq<char> {
    match stem {
        Some(s) => s,
        None => "New Preset"@,
    }
}

impl AppPreset {
    /// A preset for a captured window, with a fresh random id, named after
    /// `stem` (the file stem of the executable, where it has one): it starts
    /// that executable with no arguments and places its window where the
    /// captured one was, on no particular monitor, after 1000 ms, enabled.
    pub fn from_capture_with_stem(captured: CapturedWindow, stem: Option<String>) -> (r: AppPreset)
        ensures
            is_uuid_v4_text(r.id@),
            r@ == (PresetView {
                id: r.id@,
                name: captured_name(
                    match stem {
                        Some(s) => Some(s@),
                        None => None,
                    },
                ),
                executable_path: captured.executable_path@,
                arguments: None,
                x: captured.x,
                y: captured.y,
                width: captured.width,
                height: captured.height,
                monitor_index: None,
                delay_ms: 1000,
                enabled: true,
            }),
    {
        let name = match stem {
            Some(s) => s,
            None => {
                let mut s = String::new();
                s.append("New Preset");
                s
            },
        };
        AppPreset {
            id: new_uuid_v4_text(),
            name,
            executable_path: captured.executable_path,
            arguments: None,
            x: captured.x,
            y: captured.y,
            width: captured.width,
            height: captured.height,
            monitor_index: None,
            delay_ms: 1000,
            enabled: true,
        }
    }

    /// A preset for a captured window, named after the file stem of its
    /// executable (`New Preset` where the path has none), as
    /// `from_capture_with_stem` builds it.
    pub fn from_capture(captured: CapturedWindow) -> (r: AppPreset)
        ensures
            is_uuid_v4_text(r.id@),
            r.name@ == "New Preset"@ || is_contiguous_part(r.name@, captured.executable_path@),
            has_plain_file_name(captured.executable_path@) ==> r.name@ == name_stem(
                plain_file_name(captured.executable_path@),
            ),
            has_backslash_file_name(captured.executable_path@) ==> (r.name@ == name_stem(
                backslash_file_name(captured.executable_path@),
            ) || r.name@ == name_stem(captured.executable_path@)),
            r@ == (PresetView {
                id: r.id@,
                name: r.name@,
                executable_path: captured.executable_path@,
                arguments: None,
                x: captured.x,
                y: captured.y,
                width: captured.width,
                height: captured.height,
                monitor_index: None,
                delay_ms: 1000,
                enabled: true,
            }),
    {
        let stem = file_stem(captured.executable_path.as_str());
        Self::from_capture_with_stem(captured, stem)
    }
}

} // verus!
