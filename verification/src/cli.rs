//! The command line: its arguments, the known format names, and the decisions
//! that turn the arguments into a plan.

use vstd::prelude::*;
use crate::detect::MediaType;
use crate::error::NrError;
use crate::registry::{
    get_targets, is_unsupported, resolve_target, spec_cross_targets, spec_resolve, spec_targets,
    targets_view, FormatTarget,
};
use crate::text::{
    ascii_lowercase, contains_char, is_ascii, lemma_ascii_lowercase_idempotent, list_contains, lowercase,
    to_lowercase, views,
};

verus! {

/// The parsed command line.
#[derive(Debug)]
pub struct Cli {
    /// File path or target format (told apart by `resolve_args`).
    pub arg1: Option<String>,
    /// Target format (only when `arg1` is a file).
    pub arg2: Option<String>,
    /// Show the interactive menu for the clipboard file.
    pub convert: bool,
    /// Show all supported formats.
    pub list: bool,
    /// Convert every clipboard file to this format.
    pub force: Option<String>,
}

/// The view of an optional string.
pub open spec fn opt_view(o: Option<String>) -> Option<Seq<char>> {
    match o {
        Some(s) => Some(s@),
        None => None,
    }
}

// ---------------------------------------------------------------------------
// Format names
// ---------------------------------------------------------------------------

/// Every name that the command line recognises as a format.
pub open spec fn format_names() -> Seq<Seq<char>> {
    seq![
        "mp4"@, "h265"@, "mkv"@, "webm"@, "vp9"@, "avi"@, "mov"@, "wmv"@, "flv"@, "m4v"@,
        "ogv"@, "mpg"@, "mpeg"@, "ts"@, "3gp"@, "3g2"@, "gif"@, "dv"@, "m2ts"@, "vob"@,
        "av1"@, "mxf"@, "dnxhd"@, "mjpeg"@, "nut"@, "psp"@,
        "mp3"@, "wav"@, "flac"@, "ogg"@, "aac"@, "adts"@, "opus"@, "spx"@, "wma"@, "m4a"@,
        "ac3"@, "eac3"@, "truehd"@, "aiff"@, "au"@, "caf"@, "voc"@, "w64"@, "tta"@, "amr"@,
        "gsm"@, "ircam"@, "sox"@, "oga"@,
        "jpg"@, "jpeg"@, "png"@, "apng"@, "bmp"@, "tiff"@, "tif"@, "webp"@, "avif"@, "ppm"@,
        "pgm"@, "pbm"@, "pam"@, "pcx"@, "tga"@, "xbm"@, "xwd"@, "dpx"@, "sgi"@, "jp2"@,
        "hdr"@, "sun"@, "wbmp"@, "pfm"@, "ico"@, "fits"@, "heic"@, "heif"@,
    ]
}

fn format_name_list() -> (r: &'static [&'static str])
    ensures
        views(r@) == format_names(),
{
    let r: &'static [&'static str] = &[
        "mp4", "h265", "mkv", "webm", "vp9", "avi", "mov", "wmv", "flv", "m4v",
        "ogv", "mpg", "mpeg", "ts", "3gp", "3g2", "gif", "dv", "m2ts", "vob",
        "av1", "mxf", "dnxhd", "mjpeg", "nut", "psp",
        "mp3", "wav", "flac", "ogg", "aac", "adts", "opus", "spx", "wma", "m4a",
        "ac3", "eac3", "truehd", "aiff", "au", "caf", "voc", "w64", "tta", "amr",
        "gsm", "ircam", "sox", "oga",
        "jpg", "jpeg", "png", "apng", "bmp", "tiff", "tif", "webp", "avif", "ppm",
        "pgm", "pbm", "pam", "pcx", "tga", "xbm", "xwd", "dpx", "sgi", "jp2",
        "hdr", "sun", "wbmp", "pfm", "ico", "fits", "heic", "heif",
    ];
    assert(views(r@) =~= format_names());
    r
}

/// Whether `s` is one of the known format names (compared exactly).
pub fn is_format_name(s: &str) -> (r: bool)
    ensures
        r == format_names().contains(s@),
{
    list_contains(format_name_list(), s)
}

/// Every conversion the registry offers, same-kind or cross-kind, is named by a
/// known format name; so a lone argument that names a target is read as a
/// format and not as a missing file.
pub proof fn lemma_target_names_are_format_names(media_type: MediaType, i: int)
    ensures
        0 <= i < spec_targets(media_type).len() ==> format_names().contains(
            spec_targets(media_type)[i].ext,
        ),
        0 <= i < spec_cross_targets(media_type).len() ==> format_names().contains(
            spec_cross_targets(media_type)[i].ext,
        ),
{
}

// ---------------------------------------------------------------------------
// What to do
// ---------------------------------------------------------------------------

/// The mode of a run, as the flags choose it.
#[derive(Debug)]
pub enum Mode {
    /// Print every supported conversion.
    List,
    /// Convert every clipboard file to this (lowercased) format.
    Force(String),
    /// Show the interactive menu for the first clipboard file.
    Convert,
    /// Resolve the positional arguments.
    Direct,
}

/// Picks the mode: `--list` wins over `--force`, which wins over `--convert`;
/// without any of them the positional arguments decide.
pub fn select_mode(cli: &Cli) -> (r: Mode)
    ensures
        cli.list ==> r is List,
        (!cli.list && cli.force is Some) ==> (r matches Mode::Force(g) && g@ == lowercase(cli.force->0@)),
        !cli.list && cli.force is None && cli.convert ==> r is Convert,
        !cli.list && cli.force is None && !cli.convert ==> r is Direct,
        (!cli.list && cli.force is Some && is_ascii(cli.force->0@)) ==> lowercase(cli.force->0@)
            == ascii_lowercase(cli.force->0@),
{
    if cli.list {
        Mode::List
    } else if let Some(f) = &cli.force {
        Mode::Force(to_lowercase(f.as_str()))
    } else if cli.convert {
        Mode::Convert
    } else {
        Mode::Direct
    }
}

/// Where the file to convert comes from, and the target asked for (if any).
#[derive(Debug)]
pub enum ArgPlan {
    /// Convert this file.
    File { path: String, target: Option<String> },
    /// Convert the first file on the clipboard.
    Clipboard { target: Option<String> },
}

/// The mathematical content of an [`ArgPlan`].
pub enum ArgPlanView {
    File(Seq<char>, Option<Seq<char>>),
    Clipboard(Option<Seq<char>>),
}

impl View for ArgPlan {
    type V = ArgPlanView;

    open spec fn view(&self) -> ArgPlanView {
        match self {
            ArgPlan::File { path, target } => ArgPlanView::File(path@, opt_view(*target)),
            ArgPlan::Clipboard { target } => ArgPlanView::Clipboard(opt_view(*target)),
        }
    }
}

/// How the positional arguments are read. Two arguments are a file and a
/// format. One argument is a file when it exists on disk, else a format
/// (for the clipboard file) when it names a known format or has no dot;
/// a missing name with a dot is a file that was not found (the `Err` value).
pub open spec fn spec_resolve_args(
    arg1: Option<Seq<char>>,
    arg2: Option<Seq<char>>,
    arg1_exists: bool,
) -> Result<ArgPlanView, Seq<char>> {
    match (arg1, arg2) {
        (Some(a), Some(b)) => Ok(ArgPlanView::File(a, Some(b))),
        (None, None) => Ok(ArgPlanView::Clipboard(None)),
        (None, Some(b)) => Ok(ArgPlanView::Clipboard(Some(b))),
        (Some(a), None) => if arg1_exists {
            Ok(ArgPlanView::File(a, None))
        } else if format_names().contains(lowercase(a)) {
            Ok(ArgPlanView::Clipboard(Some(a)))
        } else if a.contains('.') {
            Err(a)
        } else {
            Ok(ArgPlanView::Clipboard(Some(a)))
        },
    }
}

/// Reads the positional arguments; `arg1_exists` tells whether `arg1` names an
/// existing path (consulted only when it is the sole argument).
pub fn resolve_args(cli: &Cli, arg1_exists: bool) -> (r: Result<ArgPlan, NrError>)
    ensures
        match spec_resolve_args(opt_view(cli.arg1), opt_view(cli.arg2), arg1_exists) {
            Ok(p) => r matches Ok(q) && q@ == p,
            Err(path) => r matches Err(NrError::FileNotFound(s)) && s@ == path,
        },
        (cli.arg1 is Some && cli.arg2 is None && !arg1_exists && is_ascii(cli.arg1->0@)) ==> lowercase(
            cli.arg1->0@,
        ) == ascii_lowercase(cli.arg1->0@),
{
    match (&cli.arg1, &cli.arg2) {
        (Some(a), Some(b)) => Ok(ArgPlan::File { path: a.clone(), target: Some(b.clone()) }),
        (None, None) => Ok(ArgPlan::Clipboard { target: None }),
        (None, Some(b)) => Ok(ArgPlan::Clipboard { target: Some(b.clone()) }),
        (Some(a), None) => {
            if arg1_exists {
                return Ok(ArgPlan::File { path: a.clone(), target: None });
            }
            let lower = to_lowercase(a.as_str());
            if is_format_name(lower.as_str()) {
                return Ok(ArgPlan::Clipboard { target: Some(a.clone()) });
            }
            if contains_char(a.as_str(), '.') {
                return Err(NrError::FileNotFound(a.clone()));
            }
            Ok(ArgPlan::Clipboard { target: Some(a.clone()) })
        },
    }
}

/// The file to convert must exist: `exists` tells whether `path` names an
/// existing path, and a missing one is refused with its name.
pub fn check_input_file(path: &str, exists: bool) -> (r: Result<(), NrError>)
    ensures
        exists ==> r is Ok,
        !exists ==> (r matches Err(NrError::FileNotFound(s)) && s@ == path@),
{
    if exists {
        Ok(())
    } else {
        Err(NrError::FileNotFound(String::from_str(path)))
    }
}

/// The clipboard's file paths, refused when there are none.
pub fn clipboard_files(paths: Vec<String>) -> (r: Result<Vec<String>, NrError>)
    ensures
        paths@.len() == 0 ==> r == Err::<Vec<String>, NrError>(NrError::NoClipboardFiles),
        paths@.len() > 0 ==> (r matches Ok(v) && v@ == paths@),
{
    if paths.len() == 0 {
        Err(NrError::NoClipboardFiles)
    } else {
        Ok(paths)
    }
}

/// The first of the clipboard's file paths.
pub fn first_clipboard_file(files: Vec<String>) -> (r: Result<String, NrError>)
    requires
        files@.len() > 0,
    ensures
        r matches Ok(f) && f@ == files@[0]@,
{
    Ok(files[0].clone())
}

/// The same-kind targets for a file of `media_type`, refused when there are none.
pub fn available_targets(media_type: &MediaType) -> (r: Result<&'static [FormatTarget], NrError>)
    ensures
        spec_targets(*media_type).len() == 0 ==> r == Err::<&'static [FormatTarget], NrError>(
            NrError::NoConversions(*media_type),
        ),
        spec_targets(*media_type).len() > 0 ==> (r matches Ok(ts) && targets_view(ts@)
            == spec_targets(*media_type)),
{
    let targets = get_targets(media_type);
    if targets.len() == 0 {
        Err(NrError::NoConversions(*media_type))
    } else {
        Ok(targets)
    }
}

/// The target that a format named on the command line selects for a file of
/// `media_type`: the name is lowercased, then looked up among the same-kind
/// targets and, failing that, the cross-kind ones (`nr photo.jpg mp4` makes a
/// slideshow).
pub fn select_target(media_type: &MediaType, requested: &str) -> (r: Result<&'static FormatTarget, NrError>)
    ensures
        r matches Ok(t) ==> spec_resolve(*media_type, lowercase(requested@)) == Some(t@)
            && t.ext@ == lowercase(requested@),
        r matches Err(e) ==> spec_resolve(*media_type, lowercase(requested@)) is None
            && is_unsupported(e, lowercase(requested@), *media_type),
        is_ascii(requested@) ==> lowercase(requested@) == ascii_lowercase(requested@),
{
    let ext = to_lowercase(requested);
    resolve_target(media_type, ext.as_str())
}

/// A format name counts by its lowercase form alone. Two names that lowercase
/// alike (`MP4`, `Mp4`, `mp4`) select the same target or the same refusal, and
/// are alike recognised as format names or not. In particular a name and its
/// lowercase form choose alike wherever lowercasing that form leaves it as it is,
/// which `lemma_ascii_names_ignore_case` proves of every ASCII name.
pub proof fn lemma_names_ignore_case(media_type: MediaType, a: Seq<char>, b: Seq<char>)
    ensures
        lowercase(a) == lowercase(b) ==> spec_resolve(media_type, lowercase(a)) == spec_resolve(
            media_type,
            lowercase(b),
        ),
        lowercase(a) == lowercase(b) ==> forall|e: NrError|
            is_unsupported(e, lowercase(a), media_type) == #[trigger] is_unsupported(
                e,
                lowercase(b),
                media_type,
            ),
        lowercase(a) == lowercase(b) ==> format_names().contains(lowercase(a)) == format_names().contains(
            lowercase(b),
        ),
        lowercase(lowercase(a)) == lowercase(a) ==> spec_resolve(media_type, lowercase(lowercase(a)))
            == spec_resolve(media_type, lowercase(a)),
{
}

/// Format names written in ASCII ignore case without condition. The contracts
/// of `select_target`, `select_mode` and `resolve_args` show that such a name
/// is lowercased letter by letter (`ascii_lowercase`); its lowercase form is
/// again ASCII and lowercases to itself. So `nr clip.mov MP4` and
/// `nr clip.mov mp4` choose the same target or the same refusal, `--force MP4`
/// and `--force mp4` force the same format, and a lone `MP4` and `mp4` are
/// alike read as a format or not.
pub proof fn lemma_ascii_names_ignore_case(media_type: MediaType, name: Seq<char>)
    requires
        is_ascii(name),
    ensures
        is_ascii(ascii_lowercase(name)),
        ascii_lowercase(ascii_lowercase(name)) == ascii_lowercase(name),
        spec_resolve(media_type, ascii_lowercase(ascii_lowercase(name))) == spec_resolve(
            media_type,
            ascii_lowercase(name),
        ),
        format_names().contains(ascii_lowercase(ascii_lowercase(name))) == format_names().contains(
            ascii_lowercase(name),
        ),
{
    lemma_ascii_lowercase_idempotent(name);
}

/// A lone argument that is not an existing path but names (in any case that
/// lowercases to it) one of the registry's conversions is taken as the format
/// for the clipboard file.
pub proof fn lemma_lone_target_name_is_format(arg: Seq<char>, media_type: MediaType, i: int)
    requires
        (0 <= i < spec_targets(media_type).len() && lowercase(arg) == spec_targets(media_type)[i].ext)
            || (0 <= i < spec_cross_targets(media_type).len() && lowercase(arg)
            == spec_cross_targets(media_type)[i].ext),
    ensures
        spec_resolve_args(Some(arg), None, false) == Ok::<ArgPlanView, Seq<char>>(
            ArgPlanView::Clipboard(Some(arg)),
        ),
{
    lemma_target_names_are_format_names(media_type, i);
}

} // verus!
