use vstd::prelude::*;
use vstd::string::StringExecFns;

use crate::model::{AppPreset, PresetView};
use crate::text::{decimal, format_i32, push_decimal, signed_decimal};

verus! {

/// A display monitor: its position in the ordered list, its rectangle in
/// virtual-screen coordinates, and whether it is the primary one.
#[derive(Debug, Clone, Copy, PartialEq, Eq, Structural)]
pub struct MonitorInfo {
    pub index: usize,
    pub x: i32,
    pub y: i32,
    pub width: i32,
    pub height: i32,
    pub is_primary: bool,
}

/// Whether a rectangle's width and height fit in an `i32`.
pub open spec fn rect_fits(left: i32, top: i32, right: i32, bottom: i32) -> bool {
    &&& i32::MIN <= right - left <= i32::MAX
    &&& i32::MIN <= bottom - top <= i32::MAX
}

/// A rectangle given by its edges, as (x, y, width, height).
pub fn rect_geometry(left: i32, top: i32, right: i32, bottom: i32) -> (r: (i32, i32, i32, i32))
    requires
        rect_fits(left, top, right, bottom),
    ensures
        r == (left, top, (right - left) as i32, (bottom - top) as i32),
{
    (left, top, right - left, bottom - top)
}

/// The monitor that the system describes by its rectangle and its flags
/// (bit 0 marks the primary monitor), found at position `index`.
pub fn monitor_from_rect(index: usize, left: i32, top: i32, right: i32, bottom: i32, flags: u32) -> (r:
    MonitorInfo)
    requires
        rect_fits(left, top, right, bottom),
    ensures
        r == (MonitorInfo {
            index,
            x: left,
            y: top,
            width: (right - left) as i32,
            height: (bottom - top) as i32,
            is_primary: flags & 1 != 0,
        }),
{
    let (x, y, width, height) = rect_geometry(left, top, right, bottom);
    MonitorInfo { index, x, y, width, height, is_primary: flags & 1 != 0 }
}

// ───────────────────────── ordering ─────────────────────────

/// The order of the monitor list: the primary monitor first, then from left to right.
pub open spec fn goes_before_or_with(a: MonitorInfo, b: MonitorInfo) -> bool {
    ||| a.is_primary && !b.is_primary
    ||| a.is_primary == b.is_primary && a.x <= b.x
}

/// Two monitors that the order does not tell apart.
pub open spec fn same_rank(a: MonitorInfo, b: MonitorInfo) -> bool {
    a.is_primary == b.is_primary && a.x == b.x
}

/// A monitor placed at position `i`.
pub open spec fn reindexed(m: MonitorInfo, i: int) -> MonitorInfo {
    MonitorInfo { index: i as usize, ..m }
}

/// `out` is `ms` stably sorted (primary first, then by x), `out[i]` being
/// `ms[perm[i]]` with its index set to `i`.
pub open spec fn is_ordered_listing(ms: Seq<MonitorInfo>, out: Seq<MonitorInfo>, perm: Seq<int>) -> bool {
    &&& perm.len() == ms.len()
    &&& out.len() == ms.len()
    &&& forall|i: int| 0 <= i < perm.len() ==> 0 <= #[trigger] perm[i] < ms.len()
    &&& forall|i: int, j: int| 0 <= i < j < perm.len() ==> #[trigger] perm[i] != #[trigger] perm[j]
    &&& forall|i: int| 0 <= i < out.len() ==> #[trigger] out[i] == reindexed(ms[perm[i]], i)
    &&& forall|i: int, j: int|
        0 <= i < j < out.len() ==> goes_before_or_with(#[trigger] out[i], #[trigger] out[j])
    &&& forall|i: int, j: int|
        0 <= i < j < out.len() && same_rank(#[trigger] out[i], #[trigger] out[j]) ==> perm[i] < perm[j]
}

/// The monitors as the system listed them, ordered for display: the primary
/// monitor first, then from left to right, monitors of the same rank in the
/// order listed; each monitor's index is then its position.
pub fn order_monitors(ms: Vec<MonitorInfo>) -> (r: Vec<MonitorInfo>)
    ensures
        exists|perm: Seq<int>| is_ordered_listing(ms@, r@, perm),
        forall|i: int| 0 <= i < r@.len() ==> (#[trigger] r@[i]).index == i,
{
    let n = ms.len();
    let mut out: Vec<MonitorInfo> = Vec::new();
    let ghost mut perm: Seq<int> = Seq::empty();
    for i in 0..n
        invariant
            n == ms@.len(),
            out@.len() == i,
            perm.len() == i,
            forall|k: int| 0 <= k < perm.len() ==> 0 <= #[trigger] perm[k] < i,
            forall|a: int, b: int| 0 <= a < b < perm.len() ==> #[trigger] perm[a] != #[trigger] perm[b],
            forall|k: int| 0 <= k < out@.len() ==> #[trigger] out@[k] == ms@[perm[k]],
            forall|a: int, b: int|
                0 <= a < b < out@.len() ==> goes_before_or_with(#[trigger] out@[a], #[trigger] out@[b]),
            forall|a: int, b: int|
                0 <= a < b < out@.len() && same_rank(#[trigger] out@[a], #[trigger] out@[b]) ==> perm[a]
                    < perm[b],
    {
        let m = ms[i];
        let len = out.len();
        let mut p: usize = 0;
        while p < len && !(m.is_primary && !out[p].is_primary || m.is_primary == out[p].is_primary
            && m.x < out[p].x)
            invariant
                len == out@.len(),
                p <= len,
                forall|j: int| 0 <= j < p ==> goes_before_or_with(#[trigger] out@[j], m),
            decreases len - p,
        {
            p = p + 1;
        }
        let ghost old_out = out@;
        let ghost old_perm = perm;
        out.insert(p, m);
        proof {
            perm = old_perm.insert(p as int, i as int);
            assert forall|j: int| p <= j < old_out.len() implies !goes_before_or_with(
                #[trigger] old_out[j],
                m,
            ) && goes_before_or_with(m, old_out[j]) by {
                assert(goes_before_or_with(old_out[p as int], old_out[j]) || j == p);
            }
            assert forall|a: int, b: int|
                0 <= a < b < out@.len() implies goes_before_or_with(
                #[trigger] out@[a],
                #[trigger] out@[b],
            ) by {
                if a < p && b == p {
                } else if a == p && b > p {
                    assert(out@[b] == old_out[b - 1]);
                } else if a < p && b > p {
                    assert(out@[b] == old_out[b - 1]);
                    assert(out@[a] == old_out[a]);
                } else if b < p {
                    assert(out@[b] == old_out[b]);
                    assert(out@[a] == old_out[a]);
                } else {
                    assert(out@[b] == old_out[b - 1]);
                    assert(out@[a] == old_out[a - 1]);
                }
            }
            assert forall|a: int, b: int|
                0 <= a < b < out@.len() && same_rank(#[trigger] out@[a], #[trigger] out@[b]) implies perm[a]
                < perm[b] by {
                if a < p && b == p {
                } else if a == p && b > p {
                    assert(out@[b] == old_out[b - 1]);
                } else if a < p && b > p {
                    assert(out@[b] == old_out[b - 1]);
                    assert(out@[a] == old_out[a]);
                } else if b < p {
                    assert(out@[b] == old_out[b]);
                    assert(out@[a] == old_out[a]);
                } else {
                    assert(out@[b] == old_out[b - 1]);
                    assert(out@[a] == old_out[a - 1]);
                }
            }
            assert forall|k: int| 0 <= k < out@.len() implies #[trigger] out@[k] == ms@[perm[k]] by {
                if k < p {
                    assert(out@[k] == old_out[k]);
                } else if k > p {
                    assert(out@[k] == old_out[k - 1]);
                }
            }
            assert forall|a: int, b: int| 0 <= a < b < perm.len() implies #[trigger] perm[a]
                != #[trigger] perm[b] by {
                if a < p && b == p {
                } else if a == p && b > p {
                    assert(perm[b] == old_perm[b - 1]);
                } else if a < p && b > p {
                    assert(perm[b] == old_perm[b - 1]);
                } else if b < p {
                } else {
                    assert(perm[b] == old_perm[b - 1]);
                    assert(perm[a] == old_perm[a - 1]);
                }
            }
            assert forall|k: int| 0 <= k < perm.len() implies 0 <= #[trigger] perm[k] < i + 1 by {
                if k < p {
                    assert(perm[k] == old_perm[k]);
                } else if k > p {
                    assert(perm[k] == old_perm[k - 1]);
                }
            }
        }
    }
    let ghost sorted = out@;
    let mut k: usize = 0;
    while k < n
        invariant
            out@.len() == n,
            sorted.len() == n,
            k <= n,
            forall|j: int| 0 <= j < k ==> #[trigger] out@[j] == reindexed(sorted[j], j),
            forall|j: int| k <= j < n ==> #[trigger] out@[j] == sorted[j],
        decreases n - k,
    {
        let mut m = out[k];
        m.index = k;
        out.set(k, m);
        k = k + 1;
    }
    proof {
        assert forall|a: int, b: int|
            0 <= a < b < out@.len() implies goes_before_or_with(#[trigger] out@[a], #[trigger] out@[b]) by {
            assert(goes_before_or_with(sorted[a], sorted[b]));
        }
        assert forall|a: int, b: int|
            0 <= a < b < out@.len() && same_rank(#[trigger] out@[a], #[trigger] out@[b]) implies perm[a]
            < perm[b] by {
            assert(same_rank(sorted[a], sorted[b]));
        }
        assert(is_ordered_listing(ms@, out@, perm));
    }
    out
}

/// In the ordered list, the primary monitor comes first wherever the system
/// reported one.
pub proof fn law_primary_monitor_first(ms: Seq<MonitorInfo>, out: Seq<MonitorInfo>, perm: Seq<int>, k: int)
    requires
        is_ordered_listing(ms, out, perm),
        0 <= k < ms.len(),
        ms[k].is_primary,
    ensures
        out[0].is_primary,
{
    lemma_covers(perm, ms.len() as int, k);
    let j = choose|j: int| 0 <= j < perm.len() && perm[j] == k;
    assert(out[j] == reindexed(ms[perm[j]], j));
    if j > 0 {
        assert(goes_before_or_with(out[0], out[j]));
    }
}

/// A sequence of `n` distinct positions below `n` takes every position below `n`.
proof fn lemma_covers(perm: Seq<int>, n: int, k: int)
    requires
        perm.len() == n,
        forall|i: int| 0 <= i < perm.len() ==> 0 <= #[trigger] perm[i] < n,
        forall|i: int, j: int| 0 <= i < j < perm.len() ==> #[trigger] perm[i] != #[trigger] perm[j],
        0 <= k < n,
    ensures
        exists|j: int| 0 <= j < perm.len() && perm[j] == k,
{
    assert(perm.no_duplicates()) by {
        assert forall|i: int, j: int|
            0 <= i < perm.len() && 0 <= j < perm.len() && i != j implies perm[i] != perm[j] by {
            if i < j {
                assert(perm[i] != perm[j]);
            } else {
                assert(perm[j] != perm[i]);
            }
        }
    }
    let s = perm.to_set();
    let range = vstd::set_lib::set_int_range(0, n);
    vstd::set_lib::lemma_int_range(0, n);
    perm.unique_seq_to_set();
    if !s.contains(k) {
        assert forall|x: int| s.contains(x) implies #[trigger] range.remove(k).contains(x) by {
            let i = choose|i: int| 0 <= i < perm.len() && perm[i] == x;
            assert(0 <= perm[i] < n);
        }
        assert(s.subset_of(range.remove(k)));
        vstd::set_lib::lemma_len_subset(s, range.remove(k));
    }
}

// ───────────────────────── placement ─────────────────────────

/// Where a preset's window goes: its offset from the chosen monitor's corner
/// where that monitor exists, else its coordinates as they are.
pub open spec fn resolved_position(x: i32, y: i32, monitor_index: Option<usize>, monitors: Seq<
    MonitorInfo,
>) -> (int, int) {
    match monitor_index {
        Some(idx) => if idx < monitors.len() {
            (monitors[idx as int].x + x, monitors[idx as int].y + y)
        } else {
            (x as int, y as int)
        },
        None => (x as int, y as int),
    }
}

/// A window placed on an existing monitor sits at that monitor's corner
/// plus its own offset, whatever their signs; with no monitor chosen, or one
/// that is not there, it sits at its own coordinates.
pub proof fn law_position_offsets_by_monitor_corner(
    x: i32,
    y: i32,
    i: usize,
    monitors: Seq<MonitorInfo>,
)
    ensures
        i < monitors.len() ==> resolved_position(x, y, Some(i), monitors).0 - x == monitors[i as int].x,
        i < monitors.len() ==> resolved_position(x, y, Some(i), monitors).1 - y == monitors[i as int].y,
        i >= monitors.len() ==> resolved_position(x, y, Some(i), monitors) == (x as int, y as int),
        resolved_position(x, y, None, monitors) == (x as int, y as int),
{
}

/// Whether the resolved position fits in `i32` coordinates.
pub open spec fn resolves_within_range(x: i32, y: i32, monitor_index: Option<usize>, monitors: Seq<
    MonitorInfo,
>) -> bool {
    let (ax, ay) = resolved_position(x, y, monitor_index, monitors);
    &&& i32::MIN <= ax <= i32::MAX
    &&& i32::MIN <= ay <= i32::MAX
}

/// The screen position of a window placed at (x, y) relative to the monitor
/// at `monitor_index` in `monitors`; (x, y) itself where no monitor is chosen
/// or the chosen one is not there.
pub fn resolve_position(x: i32, y: i32, monitor_index: Option<usize>, monitors: &Vec<MonitorInfo>) -> (r:
    (i32, i32))
    requires
        resolves_within_range(x, y, monitor_index, monitors@),
    ensures
        (r.0 as int, r.1 as int) == resolved_position(x, y, monitor_index, monitors@),
{
    match monitor_index {
        Some(idx) => {
            if idx < monitors.len() {
                let m = monitors[idx];
                (m.x + x, m.y + y)
            } else {
                (x, y)
            }
        },
        None => (x, y),
    }
}

// ───────────────────────── labels ─────────────────────────

/// The label of a preset's monitor on its card: `Monitor n` with the chosen
/// monitor's index plus one (the chosen index plus one where that monitor
/// is not there), or `座標通り` where none is chosen.
pub open spec fn monitor_label_text(monitor_index: Option<usize>, monitors: Seq<MonitorInfo>) -> Seq<
    char,
> {
    match monitor_index {
        Some(idx) => if idx < monitors.len() {
            "Monitor "@ + decimal((monitors[idx as int].index + 1) as nat)
        } else {
            "Monitor "@ + decimal((idx + 1) as nat)
        },
        None => "座標通り"@,
    }
}

/// Whether the number on a monitor label is one that a `usize` can hold.
pub open spec fn monitor_label_fits(monitor_index: Option<usize>, monitors: Seq<MonitorInfo>) -> bool {
    match monitor_index {
        Some(idx) => if idx < monitors.len() {
            monitors[idx as int].index < usize::MAX
        } else {
            idx < usize::MAX
        },
        None => true,
    }
}

/// The label that a preset card shows for the preset's monitor.
pub fn monitor_label(monitor_index: Option<usize>, monitors: &Vec<MonitorInfo>) -> (r: String)
    requires
        monitor_label_fits(monitor_index, monitors@),
    ensures
        r@ == monitor_label_text(monitor_index, monitors@),
{
    match monitor_index {
        Some(idx) => {
            let n: usize = if idx < monitors.len() {
                monitors[idx].index + 1
            } else {
                idx + 1
            };
            let mut s = String::new();
            s.append("Monitor ");
            push_decimal(&mut s, n as u64);
            s
        },
        None => {
            let mut s = String::new();
            s.append("座標通り");
            s
        },
    }
}

/// The geometry line of a preset card: `WxH+X+Y (label)`, the label being
/// that of the preset's monitor.
pub open spec fn card_geometry_text(p: PresetView, monitors: Seq<MonitorInfo>) -> Seq<char> {
    signed_decimal(p.width as int) + "x"@ + signed_decimal(p.height as int) + "+"@ + signed_decimal(
        p.x as int,
    ) + "+"@ + signed_decimal(p.y as int) + " ("@ + monitor_label_text(p.monitor_index, monitors)
        + ")"@
}

/// The geometry line that a preset card shows.
pub fn card_geometry(preset: &AppPreset, monitors: &Vec<MonitorInfo>) -> (r: String)
    requires
        monitor_label_fits(preset.monitor_index, monitors@),
    ensures
        r@ == card_geometry_text(preset@, monitors@),
{
    let mut s = format_i32(preset.width);
    s.append("x");
    let h = format_i32(preset.height);
    s.append(h.as_str());
    s.append("+");
    let x = format_i32(preset.x);
    s.append(x.as_str());
    s.append("+");
    let y = format_i32(preset.y);
    s.append(y.as_str());
    s.append(" (");
    let label = monitor_label(preset.monitor_index, monitors);
    s.append(label.as_str());
    s.append(")");
    s
}

/// The label of a monitor in the editor's list: `Monitor n (WxH)`, with
/// ` [Primary]` after it for the primary monitor.
pub open spec fn monitor_option_text(m: MonitorInfo) -> Seq<char> {
    "Monitor "@ + decimal((m.index + 1) as nat) + " ("@ + signed_decimal(m.width as int) + "x"@
        + signed_decimal(m.height as int) + ")"@ + (if m.is_primary {
        " [Primary]"@
    } else {
        ""@
    })
}

/// The label under which the editor offers a monitor.
pub fn monitor_option_label(m: &MonitorInfo) -> (r: String)
    requires
        m.index < usize::MAX,
    ensures
        r@ == monitor_option_text(*m),
{
    let mut s = String::new();
    s.append("Monitor ");
    push_decimal(&mut s, (m.index + 1) as u64);
    s.append(" (");
    let w = format_i32(m.width);
    s.append(w.as_str());
    s.append("x");
    let h = format_i32(m.height);
    s.append(h.as_str());
    s.append(")");
    if m.is_primary {
        s.append(" [Primary]");
    } else {
        s.append("");
    }
    s
}

} // verus!
