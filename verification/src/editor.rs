use vstd::prelude::*;
use vstd::string::StringExecFns;

use crate::model::{is_first_index, lemma_first_index_is, upserted, AppPreset, PresetView};
use crate::text::{
    decimal, format_i32, format_u64, is_blank, is_blank_spec, lemma_signed_roundtrip,
    lemma_unsigned_roundtrip, parse_i32, parse_i32_spec, parse_u32, parse_u32_spec, parse_usize,
    parse_usize_spec, signed_decimal,
};

verus! {

/// The text fields of the preset editor, as the user sees and types them.
#[derive(Debug)]
pub struct EditorForm {
    pub name: String,
    pub executable_path: String,
    pub arguments: String,
    pub x: String,
    pub y: String,
    pub width: String,
    pub height: String,
    pub delay_ms: String,
    pub enabled: bool,
    /// A monitor index, or `none` for the preset's own coordinates.
    pub monitor_index: String,
}

/// The value of the editor's fields.
pub struct FormView {
    pub name: Seq<char>,
    pub executable_path: Seq<char>,
    pub arguments: Seq<char>,
    pub x: Seq<char>,
    pub y: Seq<char>,
    pub width: Seq<char>,
    pub height: Seq<char>,
    pub delay_ms: Seq<char>,
    pub enabled: bool,
    pub monitor_index: Seq<char>,
}

impl View for EditorForm {
    type V = FormView;

    open spec fn view(&self) -> FormView {
        FormView {
            name: self.name@,
            executable_path: self.executable_path@,
            arguments: self.arguments@,
            x: self.x@,
            y: self.y@,
            width: self.width@,
            height: self.height@,
            delay_ms: self.delay_ms@,
            enabled: self.enabled,
            monitor_index: self.monitor_index@,
        }
    }
}

impl Clone for EditorForm {
    fn clone(&self) -> (r: Self)
        ensures
            r@ == self@,
    {
        EditorForm {
            name: self.name.clone(),
            executable_path: self.executable_path.clone(),
            arguments: self.arguments.clone(),
            x: self.x.clone(),
            y: self.y.clone(),
            width: self.width.clone(),
            height: self.height.clone(),
            delay_ms: self.delay_ms.clone(),
            enabled: self.enabled,
            monitor_index: self.monitor_index.clone(),
        }
    }
}

/// Why the editor refuses to save.
#[derive(Debug, Clone, Copy, PartialEq, Eq, Structural)]
pub enum EditorError {
    /// The display name is empty or only white space.
    NameRequired,
    /// The executable path is empty or only white space.
    PathRequired,
}

/// A parsed field, or the default where it does not parse.
pub open spec fn or_default<T>(o: Option<T>, d: T) -> T {
    match o {
        Some(v) => v,
        None => d,
    }
}

/// The fields that the editor opens with for a preset.
pub open spec fn form_of(p: PresetView) -> FormView {
    FormView {
        name: p.name,
        executable_path: p.executable_path,
        arguments: match p.arguments {
            Some(a) => a,
            None => Seq::empty(),
        },
        x: signed_decimal(p.x as int),
        y: signed_decimal(p.y as int),
        width: signed_decimal(p.width as int),
        height: signed_decimal(p.height as int),
        delay_ms: decimal(p.delay_ms as nat),
        enabled: p.enabled,
        monitor_index: match p.monitor_index {
            Some(i) => decimal(i as nat),
            None => "none"@,
        },
    }
}

/// What saving the editor's fields gives for the preset with id `id`:
/// a blank name or path is refused; blank arguments become none; a number
/// that does not parse becomes its default (0, 0, 1280, 720, 1000 ms);
/// `none`, or a monitor index that does not parse, chooses no monitor.
pub open spec fn form_outcome(f: FormView, id: Seq<char>) -> Result<PresetView, EditorError> {
    if is_blank_spec(f.name) {
        Err(EditorError::NameRequired)
    } else if is_blank_spec(f.executable_path) {
        Err(EditorError::PathRequired)
    } else {
        Ok(
            PresetView {
                id,
                name: f.name,
                executable_path: f.executable_path,
                arguments: if is_blank_spec(f.arguments) {
                    None
                } else {
                    Some(f.arguments)
                },
                x: or_default(parse_i32_spec(f.x), 0),
                y: or_default(parse_i32_spec(f.y), 0),
                width: or_default(parse_i32_spec(f.width), 1280),
                height: or_default(parse_i32_spec(f.height), 720),
                monitor_index: if f.monitor_index == "none"@ {
                    None
                } else {
                    parse_usize_spec(f.monitor_index)
                },
                delay_ms: or_default(parse_u32_spec(f.delay_ms), 1000),
                enabled: f.enabled,
            },
        )
    }
}

/// The view of a save's result.
pub open spec fn outcome_view(r: Result<AppPreset, EditorError>) -> Result<PresetView, EditorError> {
    match r {
        Ok(p) => Ok(p@),
        Err(e) => Err(e),
    }
}

impl EditorError {
    /// The message that the editor shows for the error.
    pub fn message(&self) -> (r: String)
        ensures
            r@ == (match self {
                EditorError::NameRequired => "表示名を入力してください"@,
                EditorError::PathRequired => "実行ファイルパスを入力してください"@,
            }),
    {
        let mut s = String::new();
        match self {
            EditorError::NameRequired => s.append("表示名を入力してください"),
            EditorError::PathRequired => s.append("実行ファイルパスを入力してください"),
        }
        s
    }
}

impl EditorForm {
    /// The fields that the editor opens with for `preset`.
    pub fn from_preset(preset: &AppPreset) -> (r: Self)
        ensures
            r@ == form_of(preset@),
    {
        let arguments = match &preset.arguments {
            Some(a) => a.clone(),
            None => String::new(),
        };
        let monitor_index = match preset.monitor_index {
            Some(i) => format_u64(i as u64),
            None => {
                let mut s = String::new();
                s.append("none");
                s
            },
        };
        EditorForm {
            name: preset.name.clone(),
            executable_path: preset.executable_path.clone(),
            arguments,
            x: format_i32(preset.x),
            y: format_i32(preset.y),
            width: format_i32(preset.width),
            height: format_i32(preset.height),
            delay_ms: format_u64(preset.delay_ms as u64),
            enabled: preset.enabled,
            monitor_index,
        }
    }

    /// Saves the fields as the preset with id `id`, or says why not.
    pub fn to_preset(&self, id: &String) -> (r: Result<AppPreset, EditorError>)
        ensures
            outcome_view(r) == form_outcome(self@, id@),
    {
        if is_blank(self.name.as_str()) {
            return Err(EditorError::NameRequired);
        }
        if is_blank(self.executable_path.as_str()) {
            return Err(EditorError::PathRequired);
        }
        let mut none_text = String::new();
        none_text.append("none");
        let monitor_index = if self.monitor_index == none_text {
            None
        } else {
            parse_usize(self.monitor_index.as_str())
        };
        let arguments = if is_blank(self.arguments.as_str()) {
            None
        } else {
            Some(self.arguments.clone())
        };
        let x = match parse_i32(self.x.as_str()) {
            Some(v) => v,
            None => 0,
        };
        let y = match parse_i32(self.y.as_str()) {
            Some(v) => v,
            None => 0,
        };
        let width = match parse_i32(self.width.as_str()) {
            Some(v) => v,
            None => 1280,
        };
        let height = match parse_i32(self.height.as_str()) {
            Some(v) => v,
            None => 720,
        };
        let delay_ms = match parse_u32(self.delay_ms.as_str()) {
            Some(v) => v,
            None => 1000,
        };
        Ok(
            AppPreset {
                id: id.clone(),
                name: self.name.clone(),
                executable_path: self.executable_path.clone(),
                arguments,
                x,
                y,
                width,
                height,
                monitor_index,
                delay_ms,
                enabled: self.enabled,
            },
        )
    }
}

/// Opening the editor on a preset and saving without a change gives the
/// preset back, where its name and path are not blank and its arguments,
/// if any, are not blank.
pub proof fn law_unchanged_form_saves_same_preset(p: PresetView)
    requires
        !is_blank_spec(p.name),
        !is_blank_spec(p.executable_path),
        p.arguments matches Some(a) ==> !is_blank_spec(a),
    ensures
        form_outcome(form_of(p), p.id) == Ok::<PresetView, EditorError>(p),
{
    let f = form_of(p);
    lemma_signed_roundtrip(p.x as int);
    lemma_signed_roundtrip(p.y as int);
    lemma_signed_roundtrip(p.width as int);
    lemma_signed_roundtrip(p.height as int);
    lemma_unsigned_roundtrip(p.delay_ms as nat);
    match p.arguments {
        Some(a) => {},
        None => {
            assert(is_blank_spec(Seq::<char>::empty()));
        },
    }
    match p.monitor_index {
        Some(i) => {
            lemma_unsigned_roundtrip(i as nat);
            reveal_strlit("none");
            assert(decimal(i as nat)[0] != 'n');
            assert(f.monitor_index != "none"@);
        },
        None => {},
    }
}

/// Editing the first preset with an id and saving it without a change
/// leaves the presets as they were (under the conditions of the law above).
pub proof fn law_unchanged_edit_keeps_presets(ps: Seq<PresetView>, i: int)
    requires
        is_first_index(ps, ps[i].id, i),
        !is_blank_spec(ps[i].name),
        !is_blank_spec(ps[i].executable_path),
        ps[i].arguments matches Some(a) ==> !is_blank_spec(a),
    ensures
        form_outcome(form_of(ps[i]), ps[i].id) matches Ok(saved) && upserted(ps, saved) == ps,
{
    law_unchanged_form_saves_same_preset(ps[i]);
    lemma_first_index_is(ps, ps[i].id, i);
    assert(ps.update(i, ps[i]) =~= ps);
}

} // verus!
