use vstd::prelude::*;

use crate::ids::{is_uuid_v4_text, new_uuid_v4_text};

verus! {

broadcast use vstd::seq_lib::group_filter_ensures;

/// A launch preset: which program to start, with which arguments, and where
/// its window is placed once it appears.
#[derive(Debug)]
pub struct AppPreset {
    pub id: String,
    pub name: String,
    pub executable_path: String,
    pub arguments: Option<String>,
    pub x: i32,
    pub y: i32,
    pub width: i32,
    pub height: i32,
    pub monitor_index: Option<usize>,
    pub delay_ms: u32,
    pub enabled: bool,
}

/// The value of a preset, its strings taken as character sequences.
pub struct PresetView {
    pub id: Seq<char>,
    pub name: Seq<char>,
    pub executable_path: Seq<char>,
    pub arguments: Option<Seq<char>>,
    pub x: i32,
    pub y: i32,
    pub width: i32,
    pub height: i32,
    pub monitor_index: Option<usize>,
    pub delay_ms: u32,
    pub enabled: bool,
}

/// An optional string taken as an optional character sequence.
pub open spec fn opt_text(o: Option<String>) -> Option<Seq<char>> {
    match o {
        Some(s) => Some(s@),
        None => None,
    }
}

impl View for AppPreset {
    type V = PresetView;

    open spec fn view(&self) -> PresetView {
        PresetView {
            id: self.id@,
            name: self.name@,
            executable_path: self.executable_path@,
            arguments: opt_text(self.arguments),
            x: self.x,
            y: self.y,
            width: self.width,
            height: self.height,
            monitor_index: self.monitor_index,
            delay_ms: self.delay_ms,
            enabled: self.enabled,
        }
    }
}

/// A copy of an optional string.
pub fn clone_opt_string(o: &Option<String>) -> (r: Option<String>)
    ensures
        opt_text(r) == opt_text(*o),
{
    match o {
        Some(s) => Some(s.clone()),
        None => None,
    }
}

impl Clone for AppPreset {
    fn clone(&self) -> (r: Self)
        ensures
            r@ == self@,
    {
        AppPreset {
            id: self.id.clone(),
            name: self.name.clone(),
            executable_path: self.executable_path.clone(),
            arguments: clone_opt_string(&self.arguments),
            x: self.x,
            y: self.y,
            width: self.width,
            height: self.height,
            monitor_index: self.monitor_index,
            delay_ms: self.delay_ms,
            enabled: self.enabled,
        }
    }
}

/// Whether two optional strings are equal.
pub fn opt_string_eq(a: &Option<String>, b: &Option<String>) -> (r: bool)
    ensures
        r == (opt_text(*a) == opt_text(*b)),
{
    match (a, b) {
        (Some(x), Some(y)) => *x == *y,
        (None, None) => true,
        _ => false,
    }
}

impl PartialEq for AppPreset {
    fn eq(&self, other: &Self) -> (r: bool) {
        self.id == other.id && self.name == other.name && self.executable_path
            == other.executable_path && opt_string_eq(&self.arguments, &other.arguments) && self.x
            == other.x && self.y == other.y && self.width == other.width && self.height
            == other.height && self.monitor_index == other.monitor_index && self.delay_ms
            == other.delay_ms && self.enabled == other.enabled
    }
}

impl vstd::std_specs::cmp::PartialEqSpecImpl for AppPreset {
    open spec fn obeys_eq_spec() -> bool {
        true
    }

    open spec fn eq_spec(&self, other: &Self) -> bool {
        self@ == other@
    }
}

impl AppPreset {
    /// A new preset for `executable_path` under `name`, with a fresh random
    /// id and the defaults: at (0, 0), 1280 by 720, no monitor, no arguments,
    /// a delay of 1000 ms, enabled.
    pub fn new(name: String, executable_path: String) -> (r: Self)
        ensures
            is_uuid_v4_text(r.id@),
            r@ == (PresetView {
                id: r.id@,
                name: name@,
                executable_path: executable_path@,
                arguments: None,
                x: 0,
                y: 0,
                width: 1280,
                height: 720,
                monitor_index: None,
                delay_ms: 1000,
                enabled: true,
            }),
    {
        AppPreset {
            id: new_uuid_v4_text(),
            name,
            executable_path,
            arguments: None,
            x: 0,
            y: 0,
            width: 1280,
            height: 720,
            monitor_index: None,
            delay_ms: 1000,
            enabled: true,
        }
    }
}

/// Everything the application keeps: its presets, in order.
#[derive(Debug)]
pub struct AppData {
    pub presets: Vec<AppPreset>,
}

impl View for AppData {
    type V = Seq<PresetView>;

    open spec fn view(&self) -> Seq<PresetView> {
        self.presets@.map_values(|p: AppPreset| p@)
    }
}

impl Default for AppData {
    fn default() -> (r: Self)
        ensures
            r@ == Seq::<PresetView>::empty(),
    {
        AppData { presets: Vec::new() }
    }
}

impl Clone for AppData {
    fn clone(&self) -> (r: Self)
        ensures
            r@ == self@,
    {
        let mut presets: Vec<AppPreset> = Vec::new();
        let n = self.presets.len();
        for i in 0..n
            invariant
                n == self.presets@.len(),
                presets@.map_values(|p: AppPreset| p@) =~= self@.take(i as int),
        {
            presets.push(self.presets[i].clone());
            assert(self@.take(i + 1) =~= self@.take(i as int).push(self@[i as int]));
        }
        assert(self@.take(n as int) =~= self@);
        AppData { presets }
    }
}

// ───────────────────────── the model ─────────────────────────

/// Whether `i` is the position of the first preset with this id.
pub open spec fn is_first_index(ps: Seq<PresetView>, id: Seq<char>, i: int) -> bool {
    &&& 0 <= i < ps.len()
    &&& ps[i].id == id
    &&& forall|j: int| 0 <= j < i ==> (#[trigger] ps[j]).id != id
}

/// Whether some preset has this id.
pub open spec fn has_id(ps: Seq<PresetView>, id: Seq<char>) -> bool {
    exists|i: int| 0 <= i < ps.len() && (#[trigger] ps[i]).id == id
}

/// The position of the first preset with this id, as `Iterator::find` meets it.
pub open spec fn first_index(ps: Seq<PresetView>, id: Seq<char>) -> Option<int>
    decreases ps.len(),
{
    if ps.len() == 0 {
        None
    } else if ps[0].id == id {
        Some(0)
    } else {
        match first_index(ps.drop_first(), id) {
            Some(k) => Some(k + 1),
            None => None,
        }
    }
}

/// No two presets share an id.
pub open spec fn ids_unique(ps: Seq<PresetView>) -> bool {
    forall|i: int, j: int| 0 <= i < ps.len() && 0 <= j < ps.len() && i != j ==> (#[trigger] ps[i]).id
        != (#[trigger] ps[j]).id
}

/// A preset with its `enabled` flag flipped.
pub open spec fn flip_enabled(p: PresetView) -> PresetView {
    PresetView { enabled: !p.enabled, ..p }
}

/// The presets after the first one with this id has its `enabled` flag flipped.
pub open spec fn toggled(ps: Seq<PresetView>, id: Seq<char>) -> Seq<PresetView> {
    match first_index(ps, id) {
        Some(i) => ps.update(i, flip_enabled(ps[i])),
        None => ps,
    }
}

/// The presets after `p` is saved: it replaces the first preset with its id,
/// or comes last where there is none.
pub open spec fn upserted(ps: Seq<PresetView>, p: PresetView) -> Seq<PresetView> {
    match first_index(ps, p.id) {
        Some(i) => ps.update(i, p),
        None => ps.push(p),
    }
}

/// The presets after every one with this id is deleted.
pub open spec fn removed(ps: Seq<PresetView>, id: Seq<char>) -> Seq<PresetView> {
    ps.filter(|q: PresetView| q.id != id)
}

/// The enabled presets, in order.
pub open spec fn enabled_only(ps: Seq<PresetView>) -> Seq<PresetView> {
    ps.filter(|q: PresetView| q.enabled)
}

/// `first_index` finds the first preset with the id, and nothing where there is none.
pub proof fn lemma_first_index(ps: Seq<PresetView>, id: Seq<char>)
    ensures
        match first_index(ps, id) {
            Some(i) => is_first_index(ps, id, i),
            None => !has_id(ps, id),
        },
    decreases ps.len(),
{
    if ps.len() > 0 && ps[0].id != id {
        let rest = ps.drop_first();
        lemma_first_index(rest, id);
        match first_index(rest, id) {
            Some(k) => {
                assert(ps[k + 1] == rest[k]);
                assert forall|j: int| 0 <= j < k + 1 implies (#[trigger] ps[j]).id != id by {
                    if j > 0 {
                        assert(ps[j] == rest[j - 1]);
                    }
                }
            },
            None => {
                assert forall|i: int| 0 <= i < ps.len() implies (#[trigger] ps[i]).id != id by {
                    if i > 0 {
                        assert(ps[i] == rest[i - 1]);
                    }
                }
            },
        }
    }
}

/// The first position with the id is the one `first_index` gives.
pub proof fn lemma_first_index_is(ps: Seq<PresetView>, id: Seq<char>, i: int)
    requires
        is_first_index(ps, id, i),
    ensures
        first_index(ps, id) == Some(i),
{
    lemma_first_index(ps, id);
    match first_index(ps, id) {
        Some(k) => {
            if k < i {
                assert(ps[k].id != id);
            } else if i < k {
                assert(ps[i].id != id);
            }
        },
        None => {
            assert(ps[i].id == id);
        },
    }
}

/// Where no preset has the id, `first_index` finds none.
pub proof fn lemma_first_index_none(ps: Seq<PresetView>, id: Seq<char>)
    requires
        !has_id(ps, id),
    ensures
        first_index(ps, id) == None::<int>,
{
    lemma_first_index(ps, id);
    if let Some(k) = first_index(ps, id) {
        assert(ps[k].id == id);
    }
}

// ───────────────────────── operations ─────────────────────────

impl AppData {
    /// The position of the first preset with this id, if any.
    pub fn position_of(&self, id: &String) -> (r: Option<usize>)
        ensures
            r matches Some(i) ==> i < self.presets@.len(),
            match r {
                Some(i) => first_index(self@, id@) == Some(i as int),
                None => first_index(self@, id@) == None::<int>,
            },
    {
        let n = self.presets.len();
        let mut i: usize = 0;
        while i < n
            invariant
                n == self.presets@.len(),
                n == self@.len(),
                i <= n,
                forall|j: int| 0 <= j < i ==> (#[trigger] self@[j]).id != id@,
            decreases n - i,
        {
            if self.presets[i].id == *id {
                proof {
                    lemma_first_index_is(self@, id@, i as int);
                }
                return Some(i);
            }
            i = i + 1;
        }
        proof {
            lemma_first_index_none(self@, id@);
        }
        None
    }

    /// Flips the `enabled` flag of the first preset with this id; does nothing
    /// where no preset has it.
    pub fn toggle(&mut self, id: &String)
        ensures
            final(self)@ == toggled(old(self)@, id@),
    {
        match self.position_of(id) {
            Some(i) => {
                let mut p = self.presets[i].clone();
                p.enabled = !p.enabled;
                self.presets.set(i, p);
                proof {
                    assert(self@ =~= toggled(old(self)@, id@));
                }
            },
            None => {},
        }
    }

    /// Saves a preset: it replaces the first preset with the same id, or is
    /// appended where there is none.
    pub fn upsert(&mut self, saved: AppPreset)
        ensures
            final(self)@ == upserted(old(self)@, saved@),
    {
        match self.position_of(&saved.id) {
            Some(i) => {
                self.presets.set(i, saved);
                proof {
                    assert(self@ =~= upserted(old(self)@, saved@));
                }
            },
            None => {
                self.presets.push(saved);
                proof {
                    assert(self@ =~= upserted(old(self)@, saved@));
                }
            },
        }
    }

    /// Deletes every preset with this id, keeping the others in order.
    pub fn remove(&mut self, id: &String)
        ensures
            final(self)@ == removed(old(self)@, id@),
    {
        let ghost ps = self@;
        let ghost pred = |q: PresetView| q.id != id@;
        let mut kept: Vec<AppPreset> = Vec::new();
        let n = self.presets.len();
        for i in 0..n
            invariant
                n == self.presets@.len(),
                ps == self@,
                pred == (|q: PresetView| q.id != id@),
                kept@.map_values(|p: AppPreset| p@) =~= ps.take(i as int).filter(pred),
        {
            proof {
                reveal(Seq::filter);
                assert(ps.take(i + 1).drop_last() =~= ps.take(i as int));
                assert(ps.take(i + 1).last() == ps[i as int]);
            }
            if self.presets[i].id != *id {
                kept.push(self.presets[i].clone());
            }
        }
        assert(ps.take(n as int) =~= ps);
        self.presets = kept;
    }

    /// Copies of the enabled presets, in order.
    pub fn enabled_presets(&self) -> (r: Vec<AppPreset>)
        ensures
            r@.map_values(|p: AppPreset| p@) == enabled_only(self@),
    {
        let ghost ps = self@;
        let ghost pred = |q: PresetView| q.enabled;
        let mut out: Vec<AppPreset> = Vec::new();
        let n = self.presets.len();
        for i in 0..n
            invariant
                n == self.presets@.len(),
                ps == self@,
                pred == (|q: PresetView| q.enabled),
                out@.map_values(|p: AppPreset| p@) =~= ps.take(i as int).filter(pred),
        {
            proof {
                reveal(Seq::filter);
                assert(ps.take(i + 1).drop_last() =~= ps.take(i as int));
                assert(ps.take(i + 1).last() == ps[i as int]);
            }
            if self.presets[i].enabled {
                out.push(self.presets[i].clone());
            }
        }
        assert(ps.take(n as int) =~= ps);
        out
    }
}

// ───────────────────────── laws ─────────────────────────

/// After a preset is saved, looking up its id finds exactly that preset.
pub proof fn law_saved_preset_is_found(ps: Seq<PresetView>, p: PresetView)
    ensures
        first_index(upserted(ps, p), p.id) matches Some(i) && upserted(ps, p)[i] == p,
{
    lemma_first_index(ps, p.id);
    let after = upserted(ps, p);
    match first_index(ps, p.id) {
        Some(i) => {
            assert forall|j: int| 0 <= j < i implies (#[trigger] after[j]).id != p.id by {
                assert(after[j] == ps[j]);
            }
            lemma_first_index_is(after, p.id, i);
        },
        None => {
            assert forall|j: int| 0 <= j < ps.len() implies (#[trigger] after[j]).id != p.id by {
                assert(after[j] == ps[j]);
            }
            lemma_first_index_is(after, p.id, ps.len() as int);
        },
    }
}

/// Saving a preset leaves what every other id finds unchanged.
pub proof fn law_save_leaves_other_ids(ps: Seq<PresetView>, p: PresetView, id: Seq<char>)
    requires
        id != p.id,
    ensures
        first_index(upserted(ps, p), id) == first_index(ps, id),
        first_index(ps, id) matches Some(k) ==> upserted(ps, p)[k] == ps[k],
{
    lemma_first_index(ps, p.id);
    lemma_first_index(ps, id);
    let after = upserted(ps, p);
    assert(forall|j: int| 0 <= j < ps.len() ==> ((#[trigger] after[j]).id == id <==> ps[j].id == id));
    match first_index(ps, id) {
        Some(k) => {
            lemma_first_index_is(after, id, k);
        },
        None => {
            if first_index(ps, p.id) is None {
                assert(after[ps.len() as int] == p);
            }
            lemma_first_index_none(after, id);
        },
    }
}

/// Saving a preset keeps the ids distinct.
pub proof fn law_save_keeps_ids_unique(ps: Seq<PresetView>, p: PresetView)
    requires
        ids_unique(ps),
    ensures
        ids_unique(upserted(ps, p)),
{
    lemma_first_index(ps, p.id);
    let after = upserted(ps, p);
    match first_index(ps, p.id) {
        Some(i) => {
            assert forall|a: int, b: int|
                0 <= a < after.len() && 0 <= b < after.len() && a != b implies (#[trigger] after[a]).id
                != (#[trigger] after[b]).id by {
                if a == i {
                    assert(ps[i].id == p.id);
                    assert(ps[b].id != ps[i].id);
                } else if b == i {
                    assert(ps[a].id != ps[i].id);
                } else {
                    assert(ps[a].id != ps[b].id);
                }
            }
        },
        None => {
            assert forall|a: int, b: int|
                0 <= a < after.len() && 0 <= b < after.len() && a != b implies (#[trigger] after[a]).id
                != (#[trigger] after[b]).id by {
                if a == ps.len() {
                    assert(ps[b].id != p.id);
                } else if b == ps.len() {
                    assert(ps[a].id != p.id);
                } else {
                    assert(ps[a].id != ps[b].id);
                }
            }
        },
    }
}

/// After the presets with an id are deleted, looking up that id finds nothing.
pub proof fn law_removed_id_is_gone(ps: Seq<PresetView>, id: Seq<char>)
    ensures
        first_index(removed(ps, id), id) == None::<int>,
{
    let after = removed(ps, id);
    let pred = |q: PresetView| q.id != id;
    assert forall|i: int| 0 <= i < after.len() implies (#[trigger] after[i]).id != id by {
        assert(pred(ps.filter(pred)[i]));
    }
    lemma_first_index_none(after, id);
}

/// Toggling the same id twice gives back the presets as they were.
pub proof fn law_toggle_twice_restores(ps: Seq<PresetView>, id: Seq<char>)
    ensures
        toggled(toggled(ps, id), id) == ps,
{
    lemma_first_index(ps, id);
    match first_index(ps, id) {
        Some(i) => {
            let once = toggled(ps, id);
            assert forall|j: int| 0 <= j < i implies (#[trigger] once[j]).id != id by {
                assert(once[j] == ps[j]);
            }
            lemma_first_index_is(once, id, i);
            assert(toggled(once, id) =~= ps);
        },
        None => {},
    }
}

/// Deleting presets keeps the ids distinct.
pub proof fn law_remove_keeps_ids_unique(ps: Seq<PresetView>, id: Seq<char>)
    requires
        ids_unique(ps),
    ensures
        ids_unique(removed(ps, id)),
{
    lemma_filter_keeps_ids_unique(ps, |q: PresetView| q.id != id);
}

proof fn lemma_filter_keeps_ids_unique(ps: Seq<PresetView>, pred: spec_fn(PresetView) -> bool)
    requires
        ids_unique(ps),
    ensures
        ids_unique(ps.filter(pred)),
    decreases ps.len(),
{
    reveal(Seq::filter);
    if ps.len() > 0 {
        let init = ps.drop_last();
        assert forall|i: int, j: int|
            0 <= i < init.len() && 0 <= j < init.len() && i != j implies (#[trigger] init[i]).id
            != (#[trigger] init[j]).id by {
            assert(init[i] == ps[i] && init[j] == ps[j]);
        }
        lemma_filter_keeps_ids_unique(init, pred);
        let sub = init.filter(pred);
        if pred(ps.last()) {
            let out = sub.push(ps.last());
            assert forall|i: int, j: int|
                0 <= i < out.len() && 0 <= j < out.len() && i != j implies (#[trigger] out[i]).id
                != (#[trigger] out[j]).id by {
                if i == sub.len() || j == sub.len() {
                    let k = if i == sub.len() {
                        j
                    } else {
                        i
                    };
                    init.lemma_filter_contains_rev(pred, sub[k]);
                    let m = choose|m: int| 0 <= m < init.len() && init[m] == sub[k];
                    assert(ps[m] == init[m]);
                    assert(ps[m].id != ps[ps.len() - 1].id);
                }
            }
        }
    }
}

/// Toggling a preset keeps the ids distinct.
pub proof fn law_toggle_keeps_ids_unique(ps: Seq<PresetView>, id: Seq<char>)
    requires
        ids_unique(ps),
    ensures
        ids_unique(toggled(ps, id)),
{
    lemma_first_index(ps, id);
    let after = toggled(ps, id);
    assert forall|i: int, j: int|
        0 <= i < after.len() && 0 <= j < after.len() && i != j implies (#[trigger] after[i]).id
        != (#[trigger] after[j]).id by {
        assert(after[i].id == ps[i].id && after[j].id == ps[j].id);
    }
}

/// Toggling changes nothing but the `enabled` flag of the first preset with
/// the id: the length stays, every other preset stays as it was, and that
/// preset keeps every other field.
pub proof fn law_toggle_changes_only_first_flag(ps: Seq<PresetView>, id: Seq<char>, j: int)
    requires
        0 <= j < ps.len(),
    ensures
        toggled(ps, id).len() == ps.len(),
        first_index(ps, id) != Some(j) ==> toggled(ps, id)[j] == ps[j],
        first_index(ps, id) == Some(j) ==> toggled(ps, id)[j].enabled == !ps[j].enabled,
        first_index(ps, id) == Some(j) ==> toggled(ps, id)[j] == (PresetView {
            enabled: toggled(ps, id)[j].enabled,
            ..ps[j]
        }),
        has_id(ps, id) == (first_index(ps, id) is Some),
{
    lemma_first_index(ps, id);
    if let Some(i) = first_index(ps, id) {
        assert(ps[i].id == id);
    }
}

} // verus!
