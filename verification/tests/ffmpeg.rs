use nr::detect::MediaType;
use nr::ffmpeg::{
    already_message, binary_name, cache_dir, convert_args, find_or_setup_ffmpeg, nothing_to_do, FfmpegArg,
    FfmpegSource, Platform,
};
use nr::registry::resolve_target;

fn s(x: &str) -> Option<String> {
    Some(x.to_string())
}

fn render(args: &[FfmpegArg]) -> Vec<String> {
    args.iter()
        .map(|a| match a {
            FfmpegArg::Text(t) => t.to_string(),
            FfmpegArg::Input => "IN".to_string(),
            FfmpegArg::Output => "OUT".to_string(),
        })
        .collect()
}

#[test]
fn binary_names() {
    assert_eq!(binary_name(Platform::Windows), "ffmpeg.exe");
    assert_eq!(binary_name(Platform::Linux), "ffmpeg");
    assert_eq!(binary_name(Platform::MacOs), "ffmpeg");
}

#[test]
fn which_ffmpeg() {
    assert_eq!(find_or_setup_ffmpeg(true, true), FfmpegSource::OnPath);
    assert_eq!(find_or_setup_ffmpeg(true, false), FfmpegSource::OnPath);
    assert_eq!(find_or_setup_ffmpeg(false, true), FfmpegSource::Cached);
    assert_eq!(find_or_setup_ffmpeg(false, false), FfmpegSource::Install);
}

#[test]
fn cache_directories() {
    assert_eq!(
        cache_dir(Platform::Linux, &s("/home/me"), &None, &None),
        vec!["/home/me", ".cache", "noir", "ffmpeg"]
    );
    assert_eq!(cache_dir(Platform::Linux, &None, &None, &None), vec!["/tmp", ".cache", "noir", "ffmpeg"]);
    assert_eq!(
        cache_dir(Platform::MacOs, &s("/Users/me"), &None, &None),
        vec!["/Users/me", ".cache", "noir", "ffmpeg"]
    );
    assert_eq!(
        cache_dir(Platform::Windows, &None, &s("C:\\L"), &s("C:\\U")),
        vec!["C:\\L", "noir", "ffmpeg"]
    );
    assert_eq!(
        cache_dir(Platform::Windows, &None, &None, &s("C:\\U")),
        vec!["C:\\U\\AppData\\Local", "noir", "ffmpeg"]
    );
    assert_eq!(
        cache_dir(Platform::Windows, &None, &None, &None),
        vec![".\\AppData\\Local", "noir", "ffmpeg"]
    );
}

#[test]
fn conversion_command_lines() {
    let mkv = resolve_target(&MediaType::Video, "mkv").unwrap();
    assert_eq!(render(&convert_args(mkv)), vec!["-y", "-i", "IN", "-c", "copy", "OUT"]);
    let slide = resolve_target(&MediaType::Image, "gif").unwrap();
    assert_eq!(render(&convert_args(slide)), vec!["-y", "-i", "IN", "OUT"]);
    let slide = resolve_target(&MediaType::Image, "mkv").unwrap();
    assert_eq!(
        render(&convert_args(slide)),
        vec!["-y", "-loop", "1", "-i", "IN", "-c:v", "libx264", "-preset", "fast", "-c:a", "aac", "-t", "5", "OUT"]
    );
}

#[test]
fn nothing_to_do_when_the_extension_matches() {
    assert!(nothing_to_do(true, Some("mp4"), "mp4"));
    assert!(!nothing_to_do(true, Some("mov"), "mp4"));
    assert!(!nothing_to_do(true, Some("MP4"), "mp4"));
    assert!(!nothing_to_do(true, None, "mp4"));
    assert!(!nothing_to_do(true, Some(""), "mp4"));
    assert!(nothing_to_do(false, None, "mp4"));
    assert_eq!(already_message("mkv"), "File is already .mkv \u{2014} nothing to do.");
}
