use vstd::prelude::*;
use vstd::string::StringExecFns;

use crate::model::{clone_opt_string, enabled_only, opt_text, AppData, AppPreset, PresetView};
use crate::monitor::{resolve_position, resolved_position, resolves_within_range, MonitorInfo};

verus! {

/// How long each window search may take, in milliseconds.
pub const WINDOW_SEARCH_TIMEOUT_MS: u32 = 3000;

/// The command line that starts a program: its path in double quotes, then
/// a space and the arguments where there are any.
pub open spec fn command_line_text(executable_path: Seq<char>, arguments: Option<Seq<char>>) -> Seq<char> {
    "\""@ + executable_path + "\""@ + match arguments {
        Some(a) => " "@ + a,
        None => Seq::empty(),
    }
}

/// The command line for starting `executable_path` with `arguments`.
pub fn command_line(executable_path: &str, arguments: Option<&str>) -> (r: String)
    ensures
        r@ == command_line_text(
            executable_path@,
            match arguments {
                Some(a) => Some(a@),
                None => None,
            },
        ),
{
    let mut s = String::new();
    s.append("\"");
    s.append(executable_path);
    s.append("\"");
    match arguments {
        Some(a) => {
            s.append(" ");
            s.append(a);
        },
        None => {},
    }
    s
}

/// The command line quotes the path and then carries the arguments verbatim,
/// whatever characters they hold: the path can be read back between the
/// first two characters and the arguments after the space that follows.
pub proof fn law_command_line_keeps_path_and_arguments(p: Seq<char>, a: Seq<char>)
    ensures
        command_line_text(p, Some(a)).len() == p.len() + a.len() + 3,
        command_line_text(p, Some(a)).take(p.len() + 2 as int) == seq!['"'] + p + seq!['"'],
        command_line_text(p, Some(a)).skip(p.len() + 2 as int) == seq![' '] + a,
        command_line_text(p, None) == seq!['"'] + p + seq!['"'],
{
    reveal_strlit("\"");
    reveal_strlit(" ");
    let c = command_line_text(p, Some(a));
    assert(c =~= seq!['"'] + p + seq!['"'] + seq![' '] + a);
    assert(c.take(p.len() + 2 as int) =~= seq!['"'] + p + seq!['"']);
    assert(c.skip(p.len() + 2 as int) =~= seq![' '] + a);
    assert(command_line_text(p, None) =~= seq!['"'] + p + seq!['"']);
}

// ───────────────────────── launching one preset ─────────────────────────

/// Where the launch of one preset stands.
#[derive(Debug, Clone, Copy, PartialEq, Eq, Structural)]
pub enum LaunchStage {
    /// Nothing is done yet.
    Ready,
    /// The process is being started.
    Starting,
    /// The process has started; its delay is being waited out.
    Waiting { pid: u32 },
    /// The window is being looked for by the process id.
    SearchingByPid,
    /// The window is being looked for by the executable path.
    SearchingByPath,
    /// The window is found; the monitors are being listed.
    ListingMonitors { window: usize },
    /// The window is being moved.
    Moving,
    /// The launch is over.
    Done,
}

/// What the outside world reports back to the launch.
#[derive(Debug)]
pub enum LaunchEvent {
    /// The launch is asked for.
    Begin,
    /// Starting the process gave its id, or an error.
    Started(Result<u32, String>),
    /// The delay is over.
    Waited,
    /// The search by process id found a window, or none.
    FoundByPid(Option<usize>),
    /// The search by executable path found a window, or none.
    FoundByPath(Option<usize>),
    /// The monitors, ordered.
    Monitors(Vec<MonitorInfo>),
    /// Moving the window succeeded, or gave an error.
    Moved(Result<(), String>),
}

/// What the launch asks the outside world to do next.
#[derive(Debug)]
pub enum LaunchAction {
    /// Start the program with these arguments.
    StartProcess { executable_path: String, arguments: Option<String> },
    /// Sleep this many milliseconds.
    Sleep { ms: u32 },
    /// Look for a window of this process for at most `timeout_ms`.
    FindByPid { pid: u32, timeout_ms: u32 },
    /// Look for a window whose process runs this executable for at most `timeout_ms`.
    FindByExePath { executable_path: String, timeout_ms: u32 },
    /// List the monitors.
    ListMonitors,
    /// Move and size the window.
    MoveWindow { window: usize, x: i32, y: i32, width: i32, height: i32 },
    /// The launch is over, with this outcome.
    Finish(Result<(), String>),
}

/// The events that each stage waits for.
pub open spec fn expects(stage: LaunchStage, event: LaunchEvent) -> bool {
    match stage {
        LaunchStage::Ready => event is Begin,
        LaunchStage::Starting => event is Started,
        LaunchStage::Waiting { .. } => event is Waited,
        LaunchStage::SearchingByPid => event is FoundByPid,
        LaunchStage::SearchingByPath => event is FoundByPath,
        LaunchStage::ListingMonitors { .. } => event is Monitors,
        LaunchStage::Moving => event is Moved,
        LaunchStage::Done => false,
    }
}

/// Whether an event leaves the window's position in `i32` range (the only
/// input on which the step does arithmetic).
pub open spec fn position_fits(preset: AppPreset, event: LaunchEvent) -> bool {
    match event {
        LaunchEvent::Monitors(ms) => resolves_within_range(
            preset.x,
            preset.y,
            preset.monitor_index,
            ms@,
        ),
        _ => true,
    }
}

/// The message for a preset whose window could not be found.
pub open spec fn window_not_found_text(name: Seq<char>) -> Seq<char> {
    name + " のウィンドウを検出できませんでした"@
}

/// One step of launching `preset`: given where it stands and what happened,
/// where it goes and what is to be done. The process is started; the
/// preset's delay is waited out; its window is looked for by process id
/// and then, where that fails, by executable path (each for 3000 ms); the
/// window is then moved to the preset's position, resolved against the
/// listed monitors, with the preset's size. A failure to start, to find the
/// window or to move it ends the launch with that error.
pub fn launch_step(preset: &AppPreset, stage: LaunchStage, event: LaunchEvent) -> (r: (
    LaunchStage,
    LaunchAction,
))
    requires
        expects(stage, event),
        position_fits(*preset, event),
    ensures
        match (stage, event) {
            (LaunchStage::Ready, LaunchEvent::Begin) => {
                &&& r.0 == LaunchStage::Starting
                &&& r.1 matches LaunchAction::StartProcess { executable_path, arguments }
                    && executable_path@ == preset.executable_path@
                    && opt_text(arguments) == opt_text(preset.arguments)
            },
            (LaunchStage::Starting, LaunchEvent::Started(Ok(pid))) => {
                &&& r.0 == (LaunchStage::Waiting { pid })
                &&& r.1 matches LaunchAction::Sleep { ms } && ms == preset.delay_ms
            },
            (LaunchStage::Starting, LaunchEvent::Started(Err(e))) => {
                &&& r.0 == LaunchStage::Done
                &&& r.1 matches LaunchAction::Finish(Err(m)) && m@ == e@
            },
            (LaunchStage::Waiting { pid }, LaunchEvent::Waited) => {
                &&& r.0 == LaunchStage::SearchingByPid
                &&& r.1 matches LaunchAction::FindByPid { pid: p, timeout_ms } && p == pid
                    && timeout_ms == 3000
            },
            (LaunchStage::SearchingByPid, LaunchEvent::FoundByPid(Some(w))) => {
                &&& r.0 == (LaunchStage::ListingMonitors { window: w })
                &&& r.1 is ListMonitors
            },
            (LaunchStage::SearchingByPid, LaunchEvent::FoundByPid(None)) => {
                &&& r.0 == LaunchStage::SearchingByPath
                &&& r.1 matches LaunchAction::FindByExePath { executable_path, timeout_ms }
                    && executable_path@ == preset.executable_path@ && timeout_ms == 3000
            },
            (LaunchStage::SearchingByPath, LaunchEvent::FoundByPath(Some(w))) => {
                &&& r.0 == (LaunchStage::ListingMonitors { window: w })
                &&& r.1 is ListMonitors
            },
            (LaunchStage::SearchingByPath, LaunchEvent::FoundByPath(None)) => {
                &&& r.0 == LaunchStage::Done
                &&& r.1 matches LaunchAction::Finish(Err(m)) && m@ == window_not_found_text(
                    preset.name@,
                )
            },
            (LaunchStage::ListingMonitors { window }, LaunchEvent::Monitors(ms)) => {
                &&& r.0 == LaunchStage::Moving
                &&& r.1 matches LaunchAction::MoveWindow { window: w, x, y, width, height } && w
                    == window && (x as int, y as int) == resolved_position(
                    preset.x,
                    preset.y,
                    preset.monitor_index,
                    ms@,
                ) && width == preset.width && height == preset.height
            },
            (LaunchStage::Moving, LaunchEvent::Moved(Ok(()))) => {
                &&& r.0 == LaunchStage::Done
                &&& r.1 matches LaunchAction::Finish(Ok(()))
            },
            (LaunchStage::Moving, LaunchEvent::Moved(Err(e))) => {
                &&& r.0 == LaunchStage::Done
                &&& r.1 matches LaunchAction::Finish(Err(m)) && m@ == e@
            },
            _ => false,
        },
{
    match (stage, event) {
        (LaunchStage::Ready, LaunchEvent::Begin) => (
            LaunchStage::Starting,
            LaunchAction::StartProcess {
                executable_path: preset.executable_path.clone(),
                arguments: clone_opt_string(&preset.arguments),
            },
        ),
        (LaunchStage::Starting, LaunchEvent::Started(Ok(pid))) => (
            LaunchStage::Waiting { pid },
            LaunchAction::Sleep { ms: preset.delay_ms },
        ),
        (LaunchStage::Starting, LaunchEvent::Started(Err(e))) => (
            LaunchStage::Done,
            LaunchAction::Finish(Err(e)),
        ),
        (LaunchStage::Waiting { pid }, LaunchEvent::Waited) => (
            LaunchStage::SearchingByPid,
            LaunchAction::FindByPid { pid, timeout_ms: WINDOW_SEARCH_TIMEOUT_MS },
        ),
        (LaunchStage::SearchingByPid, LaunchEvent::FoundByPid(Some(w))) => (
            LaunchStage::ListingMonitors { window: w },
            LaunchAction::ListMonitors,
        ),
        (LaunchStage::SearchingByPid, LaunchEvent::FoundByPid(None)) => (
            LaunchStage::SearchingByPath,
            LaunchAction::FindByExePath {
                executable_path: preset.executable_path.clone(),
                timeout_ms: WINDOW_SEARCH_TIMEOUT_MS,
            },
        ),
        (LaunchStage::SearchingByPath, LaunchEvent::FoundByPath(Some(w))) => (
            LaunchStage::ListingMonitors { window: w },
            LaunchAction::ListMonitors,
        ),
        (LaunchStage::SearchingByPath, LaunchEvent::FoundByPath(None)) => {
            let mut m = preset.name.clone();
            m.append(" のウィンドウを検出できませんでした");
            (LaunchStage::Done, LaunchAction::Finish(Err(m)))
        },
        (LaunchStage::ListingMonitors { window }, LaunchEvent::Monitors(ms)) => {
            let (x, y) = resolve_position(preset.x, preset.y, preset.monitor_index, &ms);
            (
                LaunchStage::Moving,
                LaunchAction::MoveWindow { window, x, y, width: preset.width, height: preset.height },
            )
        },
        (LaunchStage::Moving, LaunchEvent::Moved(result)) => (
            LaunchStage::Done,
            LaunchAction::Finish(result),
        ),
        _ => {
            assert(false);
            (LaunchStage::Done, LaunchAction::Finish(Ok(())))
        },
    }
}

// ───────────────────────── status messages ─────────────────────────

/// Strings joined with a separator between each two.
pub open spec fn joined(parts: Seq<Seq<char>>, sep: Seq<char>) -> Seq<char>
    decreases parts.len(),
{
    if parts.len() == 0 {
        Seq::empty()
    } else if parts.len() == 1 {
        parts[0]
    } else {
        joined(parts.drop_last(), sep) + sep + parts.last()
    }
}

/// `parts.join(sep)`.
pub fn join_strings(parts: &Vec<String>, sep: &str) -> (r: String)
    ensures
        r@ == joined(parts@.map_values(|s: String| s@), sep@),
{
    let ghost views = parts@.map_values(|s: String| s@);
    let mut out = String::new();
    let n = parts.len();
    for i in 0..n
        invariant
            n == parts@.len(),
            views == parts@.map_values(|s: String| s@),
            out@ == joined(views.take(i as int), sep@),
    {
        assert(views.take(i + 1).drop_last() =~= views.take(i as int));
        if i > 0 {
            out.append(sep);
        } else {
            assert(views.take(0) =~= Seq::<Seq<char>>::empty());
        }
        out.append(parts[i].as_str());
        assert(views.take(i + 1).last() == parts@[i as int]@);
    }
    assert(views.take(n as int) =~= views);
    out
}

/// The presets that "launch all" starts: the enabled ones, in order; where
/// there are none, the message that says so.
pub fn launch_all_targets(data: &AppData) -> (r: Result<Vec<AppPreset>, String>)
    ensures
        match r {
            Ok(v) => v@.map_values(|p: AppPreset| p@) == enabled_only(data@) && v@.len() > 0,
            Err(m) => enabled_only(data@).len() == 0 && m@ == "有効なプリセットがありません"@,
        },
{
    let targets = data.enabled_presets();
    if targets.len() == 0 {
        let mut m = String::new();
        m.append("有効なプリセットがありません");
        Err(m)
    } else {
        Ok(targets)
    }
}

/// The status after launching every enabled preset: success where no launch
/// failed, else the errors joined by ` / `.
pub open spec fn launch_all_status_text(errors: Seq<Seq<char>>) -> Seq<char> {
    if errors.len() == 0 {
        "全アプリを起動しました"@
    } else {
        joined(errors, " / "@)
    }
}

/// The status line after launching every enabled preset.
pub fn launch_all_status(errors: &Vec<String>) -> (r: String)
    ensures
        r@ == launch_all_status_text(errors@.map_values(|s: String| s@)),
{
    if errors.len() == 0 {
        let mut s = String::new();
        s.append("全アプリを起動しました");
        s
    } else {
        join_strings(errors, " / ")
    }
}

/// The status after launching one preset: `<name> を起動しました`, or the error.
pub open spec fn single_launch_status_text(name: Seq<char>, outcome: Result<(), Seq<char>>) -> Seq<
    char,
> {
    match outcome {
        Ok(()) => name + " を起動しました"@,
        Err(e) => e,
    }
}

/// The status line after launching the preset named `name`.
pub fn single_launch_status(name: &String, outcome: Result<(), String>) -> (r: String)
    ensures
        r@ == single_launch_status_text(
            name@,
            match outcome {
                Ok(()) => Ok(()),
                Err(e) => Err(e@),
            },
        ),
{
    match outcome {
        Ok(()) => {
            let mut s = name.clone();
            s.append(" を起動しました");
            s
        },
        Err(e) => e,
    }
}

} // verus!
