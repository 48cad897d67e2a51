use vstd::prelude::*;

use crate::model::opt_text;

verus! {

/// What the window enumeration reports of one top-level window: its handle
/// (as an integer), whether it is visible, the id of the process that owns
/// it, and the length of its title.
#[derive(Debug, Clone, Copy, PartialEq, Eq, Structural)]
pub struct WindowEntry {
    pub handle: usize,
    pub visible: bool,
    pub pid: u32,
    pub title_len: i32,
}

/// A window that the process-id search accepts: visible, titled, and owned
/// by the process.
pub open spec fn is_window_of(w: WindowEntry, pid: u32) -> bool {
    w.visible && w.pid == pid && w.title_len > 0
}

/// A window that the executable-path search considers: any visible one.
pub open spec fn is_candidate_window(w: WindowEntry) -> bool {
    w.visible
}

/// Whether `i` is the first position whose entry satisfies `is_window_of`.
pub open spec fn is_first_window_of(ws: Seq<WindowEntry>, pid: u32, i: int) -> bool {
    &&& 0 <= i < ws.len()
    &&& is_window_of(ws[i], pid)
    &&& forall|j: int| 0 <= j < i ==> !is_window_of(#[trigger] ws[j], pid)
}

/// Whether the process-id search accepts this window.
pub fn accepts_window_of(w: &WindowEntry, pid: u32) -> (r: bool)
    ensures
        r == is_window_of(*w, pid),
{
    w.visible && w.pid == pid && w.title_len > 0
}

/// The handle of the first window in enumeration order that belongs to the
/// process, is visible and has a title; none where no window does.
pub fn find_window_of_pid(windows: &Vec<WindowEntry>, pid: u32) -> (r: Option<usize>)
    ensures
        match r {
            Some(h) => exists|i: int| is_first_window_of(windows@, pid, i) && windows@[i].handle == h,
            None => forall|i: int| 0 <= i < windows@.len() ==> !is_window_of(#[trigger] windows@[i], pid),
        },
{
    let n = windows.len();
    let mut i: usize = 0;
    while i < n
        invariant
            n == windows@.len(),
            i <= n,
            forall|j: int| 0 <= j < i ==> !is_window_of(#[trigger] windows@[j], pid),
        decreases n - i,
    {
        if accepts_window_of(&windows[i], pid) {
            assert(is_first_window_of(windows@, pid, i as int));
            return Some(windows[i].handle);
        }
        i = i + 1;
    }
    None
}

/// The windows that the executable-path search looks at: the visible ones,
/// in enumeration order.
pub fn candidate_windows(windows: &Vec<WindowEntry>) -> (r: Vec<WindowEntry>)
    ensures
        r@ == windows@.filter(|w: WindowEntry| is_candidate_window(w)),
{
    let ghost pred = |w: WindowEntry| is_candidate_window(w);
    let mut out: Vec<WindowEntry> = Vec::new();
    let n = windows.len();
    for i in 0..n
        invariant
            n == windows@.len(),
            pred == (|w: WindowEntry| is_candidate_window(w)),
            out@ =~= windows@.take(i as int).filter(pred),
    {
        proof {
            reveal(Seq::filter);
            assert(windows@.take(i + 1).drop_last() =~= windows@.take(i as int));
            assert(windows@.take(i + 1).last() == windows@[i as int]);
        }
        let w = windows[i];
        if w.visible {
            out.push(w);
        }
    }
    assert(windows@.take(n as int) =~= windows@);
    out
}

// ───────────────────────── executable paths ─────────────────────────

/// What `str::to_lowercase` gives for a string: the lowercase mapping of
/// each character by Unicode's tables.
pub uninterp spec fn lowercase(s: Seq<char>) -> Seq<char>;

/// std's `str::to_lowercase`. Its result is a fixed function of the string,
/// named `lowercase` here; nothing more of it is stated.
#[verifier::external_body]
pub(crate) fn to_lowercase(s: &str) -> (r: String)
    ensures
        r@ == lowercase(s@),
{
    s.to_lowercase()
}

/// Whether `i` is the first position whose path is known and equal to `target`.
pub open spec fn is_first_path_match(paths: Seq<Option<Seq<char>>>, target: Seq<char>, i: int) -> bool {
    &&& 0 <= i < paths.len()
    &&& paths[i] == Some(target)
    &&& forall|j: int| 0 <= j < i ==> #[trigger] paths[j] != Some(target)
}

/// The position of the first path, among paths already lowercased, that
/// equals the lowercased target; none where no known path does.
pub fn first_lowered_match(lowered: &Vec<Option<String>>, target_lower: &String) -> (r: Option<usize>)
    ensures
        match r {
            Some(i) => is_first_path_match(lowered@.map_values(|o: Option<String>| opt_text(o)), target_lower@, i as int),
            None => forall|i: int|
                0 <= i < lowered@.len() ==> opt_text(#[trigger] lowered@[i]) != Some(target_lower@),
        },
{
    let ghost ps = lowered@.map_values(|o: Option<String>| opt_text(o));
    let n = lowered.len();
    let mut i: usize = 0;
    while i < n
        invariant
            n == lowered@.len(),
            ps == lowered@.map_values(|o: Option<String>| opt_text(o)),
            i <= n,
            forall|j: int| 0 <= j < i ==> opt_text(#[trigger] lowered@[j]) != Some(target_lower@),
        decreases n - i,
    {
        match &lowered[i] {
            Some(p) => {
                if *p == *target_lower {
                    proof {
                        assert forall|j: int| 0 <= j < i implies #[trigger] ps[j] != Some(target_lower@) by {
                            assert(ps[j] == opt_text(lowered@[j]));
                        }
                    }
                    return Some(i);
                }
            },
            None => {},
        }
        i = i + 1;
    }
    None
}

/// The lowercase forms of the known paths.
pub open spec fn lowered_paths(paths: Seq<Option<Seq<char>>>) -> Seq<Option<Seq<char>>> {
    paths.map_values(
        |o: Option<Seq<char>>|
            match o {
                Some(p) => Some(lowercase(p)),
                None => None,
            },
    )
}

/// Among candidate windows, each with the executable path of its process
/// where that could be read, the handle of the first whose path equals
/// `exe_path` when both are lowercased; none where no path does.
pub fn find_window_by_exe_path(candidates: &Vec<(usize, Option<String>)>, exe_path: &str) -> (r:
    Option<usize>)
    ensures
        ({
            let paths = lowered_paths(
                candidates@.map_values(|c: (usize, Option<String>)| opt_text(c.1)),
            );
            match r {
                Some(h) => exists|i: int|
                    is_first_path_match(paths, lowercase(exe_path@), i) && candidates@[i].0 == h,
                None => forall|i: int|
                    0 <= i < paths.len() ==> #[trigger] paths[i] != Some(lowercase(exe_path@)),
            }
        }),
{
    let ghost paths = lowered_paths(
        candidates@.map_values(|c: (usize, Option<String>)| opt_text(c.1)),
    );
    let target = to_lowercase(exe_path);
    let mut lowered: Vec<Option<String>> = Vec::new();
    let n = candidates.len();
    for i in 0..n
        invariant
            n == candidates@.len(),
            paths == lowered_paths(candidates@.map_values(|c: (usize, Option<String>)| opt_text(c.1))),
            lowered@.len() == i,
            forall|j: int| 0 <= j < i ==> opt_text(#[trigger] lowered@[j]) == paths[j],
    {
        match &candidates[i].1 {
            Some(p) => lowered.push(Some(to_lowercase(p.as_str()))),
            None => lowered.push(None),
        }
    }
    match first_lowered_match(&lowered, &target) {
        Some(i) => {
            proof {
                let lv = lowered@.map_values(|o: Option<String>| opt_text(o));
                assert(lv[i as int] == paths[i as int]);
                assert forall|j: int| 0 <= j < i implies #[trigger] paths[j] != Some(target@) by {
                    assert(lv[j] == paths[j]);
                }
                assert(is_first_path_match(paths, target@, i as int));
            }
            Some(candidates[i].0)
        },
        None => {
            proof {
                assert forall|j: int| 0 <= j < paths.len() implies #[trigger] paths[j] != Some(target@) by {
                    assert(opt_text(lowered@[j]) == paths[j]);
                }
            }
            None
        },
    }
}

// ───────────────────────── polling ─────────────────────────

/// What a search loop does after one pass over the windows.
#[derive(Debug, Clone, Copy, PartialEq, Eq, Structural)]
pub enum SearchStep {
    /// The window is found.
    Found(usize),
    /// The deadline has passed; the search ends with nothing.
    GiveUp,
    /// Sleep a little and look again.
    Retry,
}

/// After a pass that found `found`: a found window ends the search, else a
/// passed deadline ends it, else it goes on.
pub fn next_search_step(found: Option<usize>, deadline_passed: bool) -> (r: SearchStep)
    ensures
        r == (match found {
            Some(h) => SearchStep::Found(h),
            None => if deadline_passed {
                SearchStep::GiveUp
            } else {
                SearchStep::Retry
            },
        }),
{
    match found {
        Some(h) => SearchStep::Found(h),
        None => if deadline_passed {
            SearchStep::GiveUp
        } else {
            SearchStep::Retry
        },
    }
}

/// What the window picker does after looking at the foreground window.
#[derive(Debug, Clone, Copy, PartialEq, Eq, Structural)]
pub enum PickStep {
    /// Capture this window.
    Capture(usize),
    /// The deadline has passed; nothing is captured.
    GiveUp,
    /// Sleep a little and look again.
    Wait,
}

/// After one look at the foreground window (`None` where there is none):
/// a window of another process than this one is captured; else a passed
/// deadline ends the wait; else the picker waits on.
pub fn next_pick_step(own_pid: u32, foreground: Option<(usize, u32)>, deadline_passed: bool) -> (r:
    PickStep)
    ensures
        r == (match foreground {
            Some((h, pid)) if pid != own_pid => PickStep::Capture(h),
            _ => if deadline_passed {
                PickStep::GiveUp
            } else {
                PickStep::Wait
            },
        }),
{
    match foreground {
        Some((h, pid)) => {
            if pid != own_pid {
                return PickStep::Capture(h);
            }
        },
        None => {},
    }
    if deadline_passed {
        PickStep::GiveUp
    } else {
        PickStep::Wait
    }
}

} // verus!
