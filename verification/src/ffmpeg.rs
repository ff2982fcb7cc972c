//! Finding ffmpeg, where it is cached, and the command line of a conversion.

use vstd::prelude::*;
use crate::registry::FormatTarget;
use crate::text::{str_eq, views};

verus! {

/// The operating system the program runs on.
#[derive(Debug, Clone, Copy, PartialEq, Eq, Structural)]
pub enum Platform {
    Windows,
    Linux,
    MacOs,
    Other,
}

/// The file name of the ffmpeg executable on `platform`.
pub open spec fn spec_binary_name(platform: Platform) -> &'static str {
    if platform == Platform::Windows {
        "ffmpeg.exe"
    } else {
        "ffmpeg"
    }
}

/// The file name of the ffmpeg executable on `platform`.
pub fn binary_name(platform: Platform) -> (r: &'static str)
    ensures
        r == spec_binary_name(platform),
{
    if platform == Platform::Windows {
        "ffmpeg.exe"
    } else {
        "ffmpeg"
    }
}

/// Which ffmpeg to use.
#[derive(Debug, Clone, Copy, PartialEq, Eq, Structural)]
pub enum FfmpegSource {
    /// The `ffmpeg` found on the `PATH`.
    OnPath,
    /// The copy in the cache directory.
    Cached,
    /// None is available: install one.
    Install,
}

/// Picks the ffmpeg to use: the one on the `PATH` when it runs, else the cached
/// copy when it exists (`cached_exists` is only consulted then), else a new one.
pub fn find_or_setup_ffmpeg(on_path: bool, cached_exists: bool) -> (r: FfmpegSource)
    ensures
        on_path ==> r == FfmpegSource::OnPath,
        !on_path && cached_exists ==> r == FfmpegSource::Cached,
        !on_path && !cached_exists ==> r == FfmpegSource::Install,
{
    if on_path {
        FfmpegSource::OnPath
    } else if cached_exists {
        FfmpegSource::Cached
    } else {
        FfmpegSource::Install
    }
}

/// The components of the cache directory, to be joined in order. On Windows it
/// is `%LOCALAPPDATA%\noir\ffmpeg`, with `%USERPROFILE%\AppData\Local` (or
/// `.\AppData\Local`) standing in for an unset `LOCALAPPDATA`; elsewhere
/// (Linux and macOS alike) it is `$HOME/.cache/noir/ffmpeg`, with `/tmp`
/// standing in for an unset `HOME`.
pub open spec fn spec_cache_dir(
    platform: Platform,
    home: Option<Seq<char>>,
    local_app_data: Option<Seq<char>>,
    user_profile: Option<Seq<char>>,
) -> Seq<Seq<char>> {
    if platform == Platform::Windows {
        let profile = match user_profile {
            Some(u) => u,
            None => "."@,
        };
        let local = match local_app_data {
            Some(l) => l,
            None => profile + "\\AppData\\Local"@,
        };
        seq![local, "noir"@, "ffmpeg"@]
    } else {
        let h = match home {
            Some(h) => h,
            None => "/tmp"@,
        };
        seq![h, ".cache"@, "noir"@, "ffmpeg"@]
    }
}

fn some_or(o: &Option<String>, default: &str) -> (r: String)
    ensures
        r@ == match o {
            Some(s) => s@,
            None => default@,
        },
{
    match o {
        Some(s) => s.clone(),
        None => String::from_str(default),
    }
}

fn push_str(v: &mut Vec<String>, s: &str)
    ensures
        final(v)@.len() == old(v)@.len() + 1,
        forall|i: int| 0 <= i < old(v)@.len() ==> final(v)@[i] == old(v)@[i],
        final(v)@[old(v)@.len() as int]@ == s@,
{
    v.push(String::from_str(s));
}

/// The components of the cache directory for ffmpeg, from the values of the
/// environment variables `HOME`, `LOCALAPPDATA` and `USERPROFILE` (`None` when
/// unset).
pub fn cache_dir(
    platform: Platform,
    home: &Option<String>,
    local_app_data: &Option<String>,
    user_profile: &Option<String>,
) -> (r: Vec<String>)
    ensures
        crate::text::string_views(r@) == spec_cache_dir(
            platform,
            crate::cli::opt_view(*home),
            crate::cli::opt_view(*local_app_data),
            crate::cli::opt_view(*user_profile),
        ),
{
    let mut v: Vec<String> = Vec::new();
    if platform == Platform::Windows {
        let local = match local_app_data {
            Some(l) => l.clone(),
            None => {
                let mut s = some_or(user_profile, ".");
                s.append("\\AppData\\Local");
                s
            },
        };
        v.push(local);
        push_str(&mut v, "noir");
        push_str(&mut v, "ffmpeg");
    } else {
        v.push(some_or(home, "/tmp"));
        push_str(&mut v, ".cache");
        push_str(&mut v, "noir");
        push_str(&mut v, "ffmpeg");
    }
    assert(crate::text::string_views(v@) =~= spec_cache_dir(
        platform,
        crate::cli::opt_view(*home),
        crate::cli::opt_view(*local_app_data),
        crate::cli::opt_view(*user_profile),
    ));
    v
}

// ---------------------------------------------------------------------------
// The conversion command
// ---------------------------------------------------------------------------

/// One argument of the ffmpeg command line.
#[derive(Debug)]
pub enum FfmpegArg {
    /// This text.
    Text(&'static str),
    /// The input file's path.
    Input,
    /// The output file's path.
    Output,
}

/// The mathematical content of an [`FfmpegArg`].
pub enum FfmpegArgView {
    Text(Seq<char>),
    Input,
    Output,
}

impl View for FfmpegArg {
    type V = FfmpegArgView;

    open spec fn view(&self) -> FfmpegArgView {
        match self {
            FfmpegArg::Text(t) => FfmpegArgView::Text(t@),
            FfmpegArg::Input => FfmpegArgView::Input,
            FfmpegArg::Output => FfmpegArgView::Output,
        }
    }
}

/// Text arguments.
pub open spec fn texts(s: Seq<Seq<char>>) -> Seq<FfmpegArgView> {
    s.map_values(|t: Seq<char>| FfmpegArgView::Text(t))
}

/// The arguments of ffmpeg for a conversion to `target`: overwrite without
/// asking, the target's input options, the input, its output options, the output.
pub open spec fn spec_convert_args(target: crate::registry::TargetSpec) -> Seq<FfmpegArgView> {
    seq![FfmpegArgView::Text("-y"@)] + texts(target.pre_args) + seq![
        FfmpegArgView::Text("-i"@),
        FfmpegArgView::Input,
    ] + texts(target.post_args) + seq![FfmpegArgView::Output]
}

/// The views of a sequence of arguments.
pub open spec fn args_view(s: Seq<FfmpegArg>) -> Seq<FfmpegArgView> {
    s.map_values(|a: FfmpegArg| a@)
}

fn push_texts(out: &mut Vec<FfmpegArg>, args: &'static [&'static str])
    ensures
        args_view(final(out)@) == args_view(old(out)@) + texts(views(args@)),
{
    let n = args.len();
    let mut i: usize = 0;
    while i < n
        invariant
            n == args@.len(),
            i <= n,
            args_view(out@) == args_view(old(out)@) + texts(views(args@).take(i as int)),
        decreases n - i,
    {
        let ghost prev = args_view(out@);
        out.push(FfmpegArg::Text(args[i]));
        assert(args_view(out@) =~= prev.push(FfmpegArgView::Text(args@[i as int]@)));
        assert(texts(views(args@).take(i + 1)) =~= texts(views(args@).take(i as int)).push(
            FfmpegArgView::Text(args@[i as int]@),
        ));
        i = i + 1;
    }
    assert(views(args@).take(n as int) =~= views(args@));
}

fn push_arg(out: &mut Vec<FfmpegArg>, a: FfmpegArg)
    ensures
        args_view(final(out)@) == args_view(old(out)@).push(a@),
{
    let ghost prev = args_view(out@);
    out.push(a);
    assert(args_view(out@) =~= prev.push(a@));
}

/// The arguments of ffmpeg for converting a file to `target`.
pub fn convert_args(target: &FormatTarget) -> (r: Vec<FfmpegArg>)
    ensures
        args_view(r@) == spec_convert_args(target@),
{
    let mut out: Vec<FfmpegArg> = Vec::new();
    assert(args_view(out@) =~= Seq::<FfmpegArgView>::empty());
    push_arg(&mut out, FfmpegArg::Text("-y"));
    push_texts(&mut out, target.pre_args);
    push_arg(&mut out, FfmpegArg::Text("-i"));
    push_arg(&mut out, FfmpegArg::Input);
    push_texts(&mut out, target.post_args);
    push_arg(&mut out, FfmpegArg::Output);
    assert(args_view(out@) =~= spec_convert_args(target@));
    out
}

// ---------------------------------------------------------------------------
// A conversion with nothing to do
// ---------------------------------------------------------------------------

/// Whether converting a file to a target with output extension `output_ext`
/// would write the input file itself: the path has no file name (so its
/// extension cannot be set), or its extension already is `output_ext`.
pub open spec fn spec_nothing_to_do(
    has_file_name: bool,
    extension: Option<Seq<char>>,
    output_ext: Seq<char>,
) -> bool {
    !has_file_name || extension == Some(output_ext)
}

/// Decides whether a conversion has nothing to do; `has_file_name` and
/// `extension` describe the input path (`extension` is `None` when it has
/// none or it is not valid Unicode).
pub fn nothing_to_do(has_file_name: bool, extension: Option<&str>, output_ext: &str) -> (r: bool)
    ensures
        r == spec_nothing_to_do(
            has_file_name,
            match extension {
                Some(e) => Some(e@),
                None => None,
            },
            output_ext@,
        ),
{
    if !has_file_name {
        return true;
    }
    match extension {
        Some(e) => str_eq(e, output_ext),
        None => false,
    }
}

/// The message printed when a file already has the target's extension.
pub open spec fn spec_already_message(output_ext: Seq<char>) -> Seq<char> {
    "File is already ."@ + output_ext + " \u{2014} nothing to do."@
}

/// The message printed when a file already has the target's extension.
pub fn already_message(output_ext: &str) -> (r: String)
    ensures
        r@ == spec_already_message(output_ext@),
{
    let mut s = String::from_str("File is already .");
    s.append(output_ext);
    s.append(" \u{2014} nothing to do.");
    s
}

} // verus!
