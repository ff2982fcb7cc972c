//! Reading file paths from the clipboard: which tools to ask, in which order,
//! and what paths their output names.
//!
//! `get_paths` is a state machine: its caller runs the tools and checks which
//! paths exist, and reports back.

use vstd::prelude::*;
use crate::ffmpeg::Platform;
use crate::text::{
    split_newlines, split_newlines_exec, spec_strip_prefix, string_views, strip_prefix, trim,
    trim_matches_char, trimmed, trimmed_char, views,
};

verus! {

/// The trimmed, non-empty pieces among `pieces`, in order.
pub open spec fn nonempty_trimmed(pieces: Seq<Seq<char>>) -> Seq<Seq<char>>
    decreases pieces.len(),
{
    if pieces.len() == 0 {
        Seq::empty()
    } else {
        let rest = nonempty_trimmed(pieces.drop_last());
        let t = trimmed(pieces.last());
        if t.len() > 0 {
            rest.push(t)
        } else {
            rest
        }
    }
}

/// The paths in a file-drop list: its lines, trimmed, without the empty ones.
pub open spec fn spec_file_drop_paths(text: Seq<char>) -> Seq<Seq<char>> {
    nonempty_trimmed(split_newlines(text))
}

/// The paths in a file-drop list (one per line), trimmed, without empty lines.
/// The caller keeps those that exist.
pub fn file_drop_paths(text: &str) -> (r: Vec<String>)
    ensures
        string_views(r@) == spec_file_drop_paths(text@),
{
    let lines = split_newlines_exec(text);
    let ghost pieces = views(lines@);
    let mut out: Vec<String> = Vec::new();
    let n = lines.len();
    let mut i: usize = 0;
    assert(pieces.take(0) =~= Seq::<Seq<char>>::empty());
    assert(string_views(out@) =~= Seq::<Seq<char>>::empty());
    while i < n
        invariant
            n == lines@.len(),
            pieces == views(lines@),
            i <= n,
            string_views(out@) == nonempty_trimmed(pieces.take(i as int)),
        decreases n - i,
    {
        let t = trim(lines[i]);
        assert(pieces.take(i + 1).drop_last() =~= pieces.take(i as int));
        assert(pieces.take(i + 1).last() == lines@[i as int]@);
        if t.unicode_len() > 0 {
            let ghost prev = string_views(out@);
            out.push(String::from_str(t));
            assert(string_views(out@) =~= prev.push(t@));
        }
        i = i + 1;
    }
    assert(pieces.take(n as int) =~= pieces);
    out
}

/// The paths to try for clipboard text: the text trimmed of whitespace and of
/// surrounding double quotes, and (when `accept_file_url`) that path without a
/// leading `file://`. Empty text gives none.
pub open spec fn spec_text_candidates(text: Seq<char>, accept_file_url: bool) -> Seq<Seq<char>> {
    let t = trimmed(text);
    if t.len() == 0 {
        Seq::empty()
    } else {
        let cleaned = trimmed_char(t, '"');
        if accept_file_url {
            match spec_strip_prefix(cleaned, "file://"@) {
                Some(rest) => seq![cleaned, rest],
                None => seq![cleaned],
            }
        } else {
            seq![cleaned]
        }
    }
}

/// The paths to try, in order, for plain clipboard text; the caller takes the
/// first that exists.
pub fn text_candidates(text: &str, accept_file_url: bool) -> (r: Vec<String>)
    ensures
        string_views(r@) == spec_text_candidates(text@, accept_file_url),
{
    let mut out: Vec<String> = Vec::new();
    let t = trim(text);
    if t.unicode_len() == 0 {
        assert(string_views(out@) =~= Seq::<Seq<char>>::empty());
        return out;
    }
    let cleaned = trim_matches_char(t, '"');
    out.push(String::from_str(cleaned));
    if accept_file_url {
        if let Some(rest) = strip_prefix(cleaned, "file://") {
            out.push(String::from_str(rest));
            assert(string_views(out@) =~= seq![cleaned@, rest@]);
            return out;
        }
    }
    assert(string_views(out@) =~= seq![cleaned@]);
    out
}

// ---------------------------------------------------------------------------
// The clipboard tools
// ---------------------------------------------------------------------------

/// How a tool's output names paths.
#[derive(Debug, Clone, Copy, PartialEq, Eq, Structural)]
pub enum Reading {
    /// A file-drop list: one path per line, all of them.
    FileDropList,
    /// Plain text naming one path; with `true`, a `file://` URL is also tried.
    Text(bool),
}

/// A program that prints the clipboard.
#[derive(Debug)]
pub struct ClipboardTool {
    pub program: &'static str,
    pub args: &'static [&'static str],
    pub reading: Reading,
    /// Whether failing to start the program is an error (else the next tool is tried).
    pub must_start: bool,
}

/// The mathematical content of a [`ClipboardTool`].
#[verifier::ext_equal]
pub struct ToolView {
    pub program: Seq<char>,
    pub args: Seq<Seq<char>>,
    pub reading: Reading,
    pub must_start: bool,
}

impl View for ClipboardTool {
    type V = ToolView;

    open spec fn view(&self) -> ToolView {
        ToolView {
            program: self.program@,
            args: views(self.args@),
            reading: self.reading,
            must_start: self.must_start,
        }
    }
}

/// The tools asked, in order, on each platform: on Windows the file-drop list
/// that Explorer fills, then the plain text; on Linux `xclip`, then `wl-paste`;
/// on macOS `pbpaste`.
pub open spec fn spec_clipboard_tools(platform: Platform) -> Seq<ToolView> {
    match platform {
        Platform::Windows => seq![
            ToolView {
                program: "powershell"@,
                args: seq![
                    "-NoProfile"@,
                    "-Command"@,
                    "$f=Get-Clipboard -Format FileDropList -ErrorAction SilentlyContinue; if($f -and $f.Count -gt 0){$f | ForEach { $_.FullName }}"@,
                ],
                reading: Reading::FileDropList,
                must_start: true,
            },
            ToolView {
                program: "powershell"@,
                args: seq!["-NoProfile"@, "-Command"@, "Get-Clipboard"@],
                reading: Reading::Text(true),
                must_start: true,
            },
        ],
        Platform::Linux => seq![
            ToolView {
                program: "xclip"@,
                args: seq!["-o"@, "-sel"@, "clipboard"@],
                reading: Reading::Text(false),
                must_start: false,
            },
            ToolView {
                program: "wl-paste"@,
                args: seq![],
                reading: Reading::Text(false),
                must_start: false,
            },
        ],
        Platform::MacOs => seq![
            ToolView {
                program: "pbpaste"@,
                args: seq![],
                reading: Reading::Text(false),
                must_start: true,
            },
        ],
        Platform::Other => Seq::empty(),
    }
}

/// The contents of a table of tools.
pub open spec fn tools_view(s: Seq<ClipboardTool>) -> Seq<ToolView> {
    s.map_values(|t: ClipboardTool| t@)
}

/// The tools asked, in order, on `platform`.
pub fn clipboard_tools(platform: Platform) -> (r: &'static [ClipboardTool])
    ensures
        tools_view(r@) == spec_clipboard_tools(platform),
{
    match platform {
        Platform::Windows => {
            let r: &'static [ClipboardTool] = &[
                ClipboardTool {
                    program: "powershell",
                    args: &[
                        "-NoProfile",
                        "-Command",
                        "$f=Get-Clipboard -Format FileDropList -ErrorAction SilentlyContinue; if($f -and $f.Count -gt 0){$f | ForEach { $_.FullName }}",
                    ],
                    reading: Reading::FileDropList,
                    must_start: true,
                },
                ClipboardTool {
                    program: "powershell",
                    args: &["-NoProfile", "-Command", "Get-Clipboard"],
                    reading: Reading::Text(true),
                    must_start: true,
                },
            ];
            assert(tools_view(r@) =~~= spec_clipboard_tools(platform));
            r
        },
        Platform::Linux => {
            let r: &'static [ClipboardTool] = &[
                ClipboardTool {
                    program: "xclip",
                    args: &["-o", "-sel", "clipboard"],
                    reading: Reading::Text(false),
                    must_start: false,
                },
                ClipboardTool {
                    program: "wl-paste",
                    args: &[],
                    reading: Reading::Text(false),
                    must_start: false,
                },
            ];
            assert(tools_view(r@) =~~= spec_clipboard_tools(platform));
            r
        },
        Platform::MacOs => {
            let r: &'static [ClipboardTool] = &[
                ClipboardTool {
                    program: "pbpaste",
                    args: &[],
                    reading: Reading::Text(false),
                    must_start: true,
                },
            ];
            assert(tools_view(r@) =~~= spec_clipboard_tools(platform));
            r
        },
        Platform::Other => {
            let r: &'static [ClipboardTool] = &[];
            assert(tools_view(r@) =~~= spec_clipboard_tools(platform));
            r
        },
    }
}

// ---------------------------------------------------------------------------
// Choosing the paths
// ---------------------------------------------------------------------------

/// The paths that a tool's output names, to be checked for existence.
pub open spec fn spec_candidates(reading: Reading, text: Seq<char>) -> Seq<Seq<char>> {
    match reading {
        Reading::FileDropList => spec_file_drop_paths(text),
        Reading::Text(file_url) => spec_text_candidates(text, file_url),
    }
}

/// The paths of `c` whose flag in `exists` is set, in order.
pub open spec fn existing(c: Seq<Seq<char>>, exists: Seq<bool>) -> Seq<Seq<char>>
    decreases c.len(),
{
    if c.len() == 0 {
        Seq::empty()
    } else {
        let rest = existing(c.drop_last(), exists.drop_last());
        if exists.last() {
            rest.push(c.last())
        } else {
            rest
        }
    }
}

/// The first path of `c` whose flag in `exists` is set, alone, or nothing.
pub open spec fn first_existing(c: Seq<Seq<char>>, exists: Seq<bool>) -> Seq<Seq<char>>
    decreases c.len(),
{
    if c.len() == 0 {
        Seq::empty()
    } else if exists[0] {
        seq![c[0]]
    } else {
        first_existing(c.drop_first(), exists.drop_first())
    }
}

/// The paths kept from a tool's candidates: every existing one of a
/// file-drop list, the first existing one of plain text.
pub open spec fn spec_chosen(reading: Reading, c: Seq<Seq<char>>, exists: Seq<bool>) -> Seq<Seq<char>> {
    match reading {
        Reading::FileDropList => existing(c, exists),
        Reading::Text(_) => first_existing(c, exists),
    }
}

fn candidates(reading: Reading, text: &str) -> (r: Vec<String>)
    ensures
        string_views(r@) == spec_candidates(reading, text@),
{
    match reading {
        Reading::FileDropList => file_drop_paths(text),
        Reading::Text(file_url) => text_candidates(text, file_url),
    }
}

fn chosen(reading: Reading, c: &Vec<String>, exists: &Vec<bool>) -> (r: Vec<String>)
    requires
        c@.len() == exists@.len(),
    ensures
        string_views(r@) == spec_chosen(reading, string_views(c@), exists@),
{
    let ghost cv = string_views(c@);
    let n = c.len();
    let mut out: Vec<String> = Vec::new();
    match reading {
        Reading::FileDropList => {
            let mut i: usize = 0;
            assert(cv.take(0) =~= Seq::<Seq<char>>::empty());
            assert(string_views(out@) =~= Seq::<Seq<char>>::empty());
            while i < n
                invariant
                    n == c@.len(),
                    n == exists@.len(),
                    cv == string_views(c@),
                    i <= n,
                    string_views(out@) == existing(cv.take(i as int), exists@.take(i as int)),
                decreases n - i,
            {
                assert(cv.take(i + 1).drop_last() =~= cv.take(i as int));
                assert(exists@.take(i + 1).drop_last() =~= exists@.take(i as int));
                if exists[i] {
                    let ghost prev = string_views(out@);
                    out.push(c[i].clone());
                    assert(string_views(out@) =~= prev.push(cv[i as int]));
                }
                i = i + 1;
            }
            assert(cv.take(n as int) =~= cv);
            assert(exists@.take(n as int) =~= exists@);
            out
        },
        Reading::Text(_) => {
            let mut i: usize = 0;
            assert(cv.skip(0) =~= cv);
            assert(exists@.skip(0) =~= exists@);
            while i < n
                invariant
                    n == c@.len(),
                    n == exists@.len(),
                    cv == string_views(c@),
                    i <= n,
                    first_existing(cv, exists@) == first_existing(cv.skip(i as int), exists@.skip(i as int)),
                    out@.len() == 0,
                    reading is Text,
                decreases n - i,
            {
                assert(cv.skip(i as int)[0] == cv[i as int]);
                assert(exists@.skip(i as int)[0] == exists@[i as int]);
                if exists[i] {
                    assert(first_existing(cv.skip(i as int), exists@.skip(i as int)) == seq![cv[i as int]]);
                    out.push(c[i].clone());
                    assert(string_views(out@) =~= seq![cv[i as int]]);
                    return out;
                }
                assert(cv.skip(i as int).drop_first() =~= cv.skip(i + 1));
                assert(exists@.skip(i as int).drop_first() =~= exists@.skip(i + 1));
                i = i + 1;
            }
            assert(string_views(out@) =~= Seq::<Seq<char>>::empty());
            assert(cv.skip(n as int) =~= Seq::<Seq<char>>::empty());
            out
        },
    }
}

/// Where the reading of the clipboard stands.
#[derive(Debug)]
pub enum PasteStage {
    Start,
    /// The tool with this index is running.
    Reading(usize),
    /// These paths, named by the tool with this index, are being checked.
    Checking(usize, Vec<String>),
    Done,
}

/// How the last action went.
#[derive(Debug)]
pub enum PasteEvent {
    Begin,
    /// The tool could not be started.
    NotStarted,
    /// The tool ran and reported failure.
    Failed,
    /// The tool ran and printed this (decoded lossily as UTF-8).
    Output(String),
    /// For each path checked, whether it exists.
    Existing(Vec<bool>),
}

/// What the caller does next.
#[derive(Debug)]
pub enum PasteAction {
    /// Run the tool with this index (see `clipboard_tools`).
    RunTool(usize),
    /// Tell which of these paths exist.
    CheckPaths(Vec<String>),
    /// Stop: these are the clipboard's paths (possibly none).
    Finish(Vec<String>),
    /// Stop: the tool that could not be started is an error.
    Fail,
}

/// The next stage and the action to perform.
#[derive(Debug)]
pub struct PasteStep {
    pub stage: PasteStage,
    pub action: PasteAction,
}

/// The mathematical content of a [`PasteStage`].
pub enum PasteStageView {
    Start,
    Reading(usize),
    Checking(usize, Seq<Seq<char>>),
    Done,
}

/// The mathematical content of a [`PasteEvent`].
pub enum PasteEventView {
    Begin,
    NotStarted,
    Failed,
    Output(Seq<char>),
    Existing(Seq<bool>),
}

/// The mathematical content of a [`PasteAction`].
pub enum PasteActionView {
    RunTool(usize),
    CheckPaths(Seq<Seq<char>>),
    Finish(Seq<Seq<char>>),
    Fail,
}

/// The mathematical content of a [`PasteStep`].
pub struct PasteStepView {
    pub stage: PasteStageView,
    pub action: PasteActionView,
}

impl View for PasteStage {
    type V = PasteStageView;

    open spec fn view(&self) -> PasteStageView {
        match self {
            PasteStage::Start => PasteStageView::Start,
            PasteStage::Reading(i) => PasteStageView::Reading(*i),
            PasteStage::Checking(i, c) => PasteStageView::Checking(*i, string_views(c@)),
            PasteStage::Done => PasteStageView::Done,
        }
    }
}

impl View for PasteEvent {
    type V = PasteEventView;

    open spec fn view(&self) -> PasteEventView {
        match self {
            PasteEvent::Begin => PasteEventView::Begin,
            PasteEvent::NotStarted => PasteEventView::NotStarted,
            PasteEvent::Failed => PasteEventView::Failed,
            PasteEvent::Output(t) => PasteEventView::Output(t@),
            PasteEvent::Existing(f) => PasteEventView::Existing(f@),
        }
    }
}

impl View for PasteAction {
    type V = PasteActionView;

    open spec fn view(&self) -> PasteActionView {
        match self {
            PasteAction::RunTool(i) => PasteActionView::RunTool(*i),
            PasteAction::CheckPaths(c) => PasteActionView::CheckPaths(string_views(c@)),
            PasteAction::Finish(p) => PasteActionView::Finish(string_views(p@)),
            PasteAction::Fail => PasteActionView::Fail,
        }
    }
}

impl View for PasteStep {
    type V = PasteStepView;

    open spec fn view(&self) -> PasteStepView {
        PasteStepView { stage: self.stage@, action: self.action@ }
    }
}

/// Ask the tool with index `i`, or, past the last tool, stop with no paths.
pub open spec fn next_tool(platform: Platform, i: int) -> PasteStepView {
    if 0 <= i < spec_clipboard_tools(platform).len() {
        PasteStepView { stage: PasteStageView::Reading(i as usize), action: PasteActionView::RunTool(i as usize) }
    } else {
        PasteStepView { stage: PasteStageView::Done, action: PasteActionView::Finish(Seq::empty()) }
    }
}

/// The events that can follow each stage: a tool's outcome after it was run,
/// one flag per path after paths were checked, anything at the start.
pub open spec fn valid_paste(platform: Platform, stage: PasteStageView, event: PasteEventView) -> bool {
    match stage {
        PasteStageView::Start => true,
        PasteStageView::Reading(i) => i < spec_clipboard_tools(platform).len() && (event is NotStarted
            || event is Failed || event is Output),
        PasteStageView::Checking(i, c) => i < spec_clipboard_tools(platform).len()
            && (event matches PasteEventView::Existing(f) && f.len() == c.len()),
        PasteStageView::Done => false,
    }
}

/// The step after `stage` when its action ended with `event`.
pub open spec fn spec_get_paths(platform: Platform, stage: PasteStageView, event: PasteEventView) -> PasteStepView {
    let tools = spec_clipboard_tools(platform);
    match stage {
        PasteStageView::Reading(i) => match event {
            PasteEventView::NotStarted => if tools[i as int].must_start {
                PasteStepView { stage: PasteStageView::Done, action: PasteActionView::Fail }
            } else {
                next_tool(platform, i + 1)
            },
            PasteEventView::Output(text) => {
                let c = spec_candidates(tools[i as int].reading, text);
                if c.len() == 0 {
                    next_tool(platform, i + 1)
                } else {
                    PasteStepView { stage: PasteStageView::Checking(i, c), action: PasteActionView::CheckPaths(c) }
                }
            },
            _ => next_tool(platform, i + 1),
        },
        PasteStageView::Checking(i, c) => {
            let flags = match event {
                PasteEventView::Existing(f) => f,
                _ => Seq::empty(),
            };
            let kept = spec_chosen(tools[i as int].reading, c, flags);
            if kept.len() > 0 {
                PasteStepView { stage: PasteStageView::Done, action: PasteActionView::Finish(kept) }
            } else {
                next_tool(platform, i + 1)
            }
        },
        _ => next_tool(platform, 0),
    }
}

/// A measure that every step of reading the clipboard decreases.
pub open spec fn paste_rank(platform: Platform, stage: PasteStageView) -> int {
    let n = spec_clipboard_tools(platform).len() as int;
    match stage {
        PasteStageView::Start => 3 * n + 3,
        PasteStageView::Reading(i) => 3 * (n - i) + 2,
        PasteStageView::Checking(i, _) => 3 * (n - i) + 1,
        PasteStageView::Done => 0,
    }
}

/// Reading the clipboard always gets on: each step either stops (exactly when
/// its action is `Finish` or `Fail`) or moves to a stage ranked lower; it asks
/// to run only tools of the platform, and asks to check exactly the paths it
/// then waits on. So every reading ends, after at most three steps per tool.
pub proof fn lemma_paste_progress(platform: Platform, stage: PasteStageView, event: PasteEventView)
    requires
        valid_paste(platform, stage, event),
    ensures
        ({
            let next = spec_get_paths(platform, stage, event);
            &&& (next.stage is Done) == (next.action is Finish || next.action is Fail)
            &&& !(next.stage is Done) ==> paste_rank(platform, next.stage) < paste_rank(platform, stage)
            &&& next.action matches PasteActionView::RunTool(i) ==> next.stage == PasteStageView::Reading(i)
                && i < spec_clipboard_tools(platform).len()
            &&& next.action matches PasteActionView::CheckPaths(c) ==> next.stage matches PasteStageView::Checking(
                i,
                c2,
            ) && c2 == c && i < spec_clipboard_tools(platform).len()
        }),
{
}

/// A tool that gives nothing hands over to the next one: after the tool at
/// index `i` failed, could not be started without being required to start,
/// printed no candidate path, or named only paths that do not exist, the next
/// step runs the tool at `i + 1`, and only after the last tool does the
/// reading finish, with no paths.
pub proof fn lemma_unhelpful_tool_falls_through(platform: Platform, i: usize, text: Seq<char>, c: Seq<Seq<char>>, flags: Seq<bool>)
    requires
        i < spec_clipboard_tools(platform).len(),
    ensures
        ({
            let tools = spec_clipboard_tools(platform);
            let after = if i + 1 < tools.len() {
                PasteStepView {
                    stage: PasteStageView::Reading((i + 1) as usize),
                    action: PasteActionView::RunTool((i + 1) as usize),
                }
            } else {
                PasteStepView { stage: PasteStageView::Done, action: PasteActionView::Finish(Seq::empty()) }
            };
            &&& spec_get_paths(platform, PasteStageView::Reading(i), PasteEventView::Failed) == after
            &&& !tools[i as int].must_start ==> spec_get_paths(
                platform,
                PasteStageView::Reading(i),
                PasteEventView::NotStarted,
            ) == after
            &&& spec_candidates(tools[i as int].reading, text).len() == 0 ==> spec_get_paths(
                platform,
                PasteStageView::Reading(i),
                PasteEventView::Output(text),
            ) == after
            &&& (flags.len() == c.len() && forall|j: int| 0 <= j < flags.len() ==> !#[trigger] flags[j])
                ==> spec_get_paths(platform, PasteStageView::Checking(i, c), PasteEventView::Existing(flags))
                == after
        }),
{
    let tools = spec_clipboard_tools(platform);
    if forall|j: int| 0 <= j < flags.len() ==> !#[trigger] flags[j] {
        if flags.len() == c.len() {
            lemma_nothing_exists_keeps_nothing(tools[i as int].reading, c, flags);
        }
    }
}

/// When no checked path exists, none is kept.
proof fn lemma_nothing_exists_keeps_nothing(reading: Reading, c: Seq<Seq<char>>, flags: Seq<bool>)
    requires
        flags.len() == c.len(),
        forall|j: int| 0 <= j < flags.len() ==> !#[trigger] flags[j],
    ensures
        spec_chosen(reading, c, flags).len() == 0,
    decreases c.len(),
{
    if c.len() > 0 {
        let c1 = c.drop_last();
        let f1 = flags.drop_last();
        assert(!flags[flags.len() - 1]);
        assert forall|j: int| 0 <= j < f1.len() implies !#[trigger] f1[j] by {
            assert(f1[j] == flags[j]);
        }
        lemma_nothing_exists_keeps_nothing(reading, c1, f1);
        let c2 = c.drop_first();
        let f2 = flags.drop_first();
        assert(!flags[0]);
        assert forall|j: int| 0 <= j < f2.len() implies !#[trigger] f2[j] by {
            assert(f2[j] == flags[j + 1]);
        }
        lemma_nothing_exists_keeps_nothing(reading, c2, f2);
        lemma_nothing_exists_keeps_nothing(Reading::FileDropList, c1, f1);
        lemma_nothing_exists_keeps_nothing(Reading::Text(false), c2, f2);
    }
}

/// The clipboard is reported empty only once every tool has been asked: a
/// step that finishes with no paths comes after the last tool's run or check
/// (or at the start, on a platform with no tool).
pub proof fn lemma_empty_only_after_every_tool(platform: Platform, stage: PasteStageView, event: PasteEventView)
    requires
        valid_paste(platform, stage, event),
        spec_get_paths(platform, stage, event).action == PasteActionView::Finish(Seq::<Seq<char>>::empty()),
    ensures
        ({
            ||| stage matches PasteStageView::Reading(i) && i + 1 == spec_clipboard_tools(platform).len()
            ||| stage matches PasteStageView::Checking(i, _) && i + 1 == spec_clipboard_tools(platform).len()
            ||| stage is Start && spec_clipboard_tools(platform).len() == 0
        }),
{
}

fn next_tool_exec(platform: Platform, i: usize) -> (r: PasteStep)
    requires
        i <= spec_clipboard_tools(platform).len(),
    ensures
        r@ == next_tool(platform, i as int),
{
    let tools = clipboard_tools(platform);
    if i < tools.len() {
        PasteStep { stage: PasteStage::Reading(i), action: PasteAction::RunTool(i) }
    } else {
        let none: Vec<String> = Vec::new();
        let r = PasteStep { stage: PasteStage::Done, action: PasteAction::Finish(none) };
        assert(string_views(none@) =~= Seq::<Seq<char>>::empty());
        r
    }
}

/// Reads the clipboard's file paths, one step at a time: the next step after
/// the action of `stage` ended with `event`.
pub fn get_paths(platform: Platform, stage: PasteStage, event: PasteEvent) -> (r: PasteStep)
    requires
        valid_paste(platform, stage@, event@),
    ensures
        r@ == spec_get_paths(platform, stage@, event@),
{
    let tools = clipboard_tools(platform);
    match stage {
        PasteStage::Reading(i) => match event {
            PasteEvent::NotStarted => {
                if tools[i].must_start {
                    PasteStep { stage: PasteStage::Done, action: PasteAction::Fail }
                } else {
                    next_tool_exec(platform, i + 1)
                }
            },
            PasteEvent::Output(text) => {
                let c = candidates(tools[i].reading, text.as_str());
                if c.len() == 0 {
                    next_tool_exec(platform, i + 1)
                } else {
                    let c2 = clone_strings(&c);
                    PasteStep { stage: PasteStage::Checking(i, c), action: PasteAction::CheckPaths(c2) }
                }
            },
            _ => next_tool_exec(platform, i + 1),
        },
        PasteStage::Checking(i, c) => {
            let flags = match event {
                PasteEvent::Existing(f) => f,
                _ => Vec::new(),
            };
            let kept = chosen(tools[i].reading, &c, &flags);
            if kept.len() > 0 {
                PasteStep { stage: PasteStage::Done, action: PasteAction::Finish(kept) }
            } else {
                next_tool_exec(platform, i + 1)
            }
        },
        _ => next_tool_exec(platform, 0),
    }
}

fn clone_strings(v: &Vec<String>) -> (r: Vec<String>)
    ensures
        string_views(r@) == string_views(v@),
{
    let mut out: Vec<String> = Vec::new();
    let n = v.len();
    let mut i: usize = 0;
    while i < n
        invariant
            n == v@.len(),
            i <= n,
            string_views(out@) == string_views(v@).take(i as int),
        decreases n - i,
    {
        let ghost prev = string_views(out@);
        out.push(v[i].clone());
        assert(string_views(out@) =~= prev.push(v@[i as int]@));
        assert(string_views(v@).take(i + 1) =~= string_views(v@).take(i as int).push(v@[i as int]@));
        i = i + 1;
    }
    assert(string_views(v@).take(n as int) =~= string_views(v@));
    out
}

} // verus!
