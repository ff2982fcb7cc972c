use nr::cli::{
    available_targets, check_input_file, clipboard_files, first_clipboard_file, is_format_name,
    resolve_args, select_mode, select_target, ArgPlan, Cli, Mode,
};
use nr::detect::MediaType;
use nr::error::NrError;
use nr::registry::{get_cross_targets, get_targets};

fn cli(arg1: Option<&str>, arg2: Option<&str>) -> Cli {
    Cli {
        arg1: arg1.map(|s| s.to_string()),
        arg2: arg2.map(|s| s.to_string()),
        convert: false,
        list: false,
        force: None,
    }
}

#[test]
fn format_names() {
    for name in ["mp4", "h265", "mpeg", "oga", "heif", "fits", "tif", "psp"] {
        assert!(is_format_name(name), "{}", name);
    }
    for name in ["MP4", "txt", "", "mp4 ", "movie"] {
        assert!(!is_format_name(name), "{}", name);
    }
}

#[test]
fn two_arguments_are_file_and_format() {
    match resolve_args(&cli(Some("video.mov"), Some("mkv")), false) {
        Ok(ArgPlan::File { path, target }) => {
            assert_eq!(path, "video.mov");
            assert_eq!(target.as_deref(), Some("mkv"));
        }
        _ => panic!("expected a file"),
    }
}

#[test]
fn no_arguments_use_the_clipboard() {
    assert!(matches!(
        resolve_args(&cli(None, None), false),
        Ok(ArgPlan::Clipboard { target: None })
    ));
    match resolve_args(&cli(None, Some("mp3")), false) {
        Ok(ArgPlan::Clipboard { target }) => assert_eq!(target.as_deref(), Some("mp3")),
        _ => panic!("expected the clipboard"),
    }
}

#[test]
fn lone_argument() {
    // an existing path is a file, even when it looks like a format
    match resolve_args(&cli(Some("mp4"), None), true) {
        Ok(ArgPlan::File { path, target }) => {
            assert_eq!(path, "mp4");
            assert!(target.is_none());
        }
        _ => panic!("expected a file"),
    }
    // a known format name, in any case
    match resolve_args(&cli(Some("MP4"), None), false) {
        Ok(ArgPlan::Clipboard { target }) => assert_eq!(target.as_deref(), Some("MP4")),
        _ => panic!("expected a format"),
    }
    // a missing name with a dot is a missing file
    match resolve_args(&cli(Some("video.mov"), None), false) {
        Err(e) => {
            assert_eq!(e, NrError::FileNotFound("video.mov".to_string()));
            assert_eq!(e.message(), "File not found: video.mov");
        }
        _ => panic!("expected an error"),
    }
    // anything else is taken as a format
    match resolve_args(&cli(Some("foo"), None), false) {
        Ok(ArgPlan::Clipboard { target }) => assert_eq!(target.as_deref(), Some("foo")),
        _ => panic!("expected a format"),
    }
}

#[test]
fn modes() {
    let mut c = cli(None, None);
    assert!(matches!(select_mode(&c), Mode::Direct));
    c.convert = true;
    assert!(matches!(select_mode(&c), Mode::Convert));
    c.force = Some("MP4".to_string());
    match select_mode(&c) {
        Mode::Force(f) => assert_eq!(f, "mp4"),
        _ => panic!("expected force"),
    }
    c.list = true;
    assert!(matches!(select_mode(&c), Mode::List));
}

#[test]
fn clipboard_lists() {
    assert_eq!(clipboard_files(vec![]), Err(NrError::NoClipboardFiles));
    let files = vec!["a.mp4".to_string(), "b.mov".to_string()];
    assert_eq!(clipboard_files(files.clone()), Ok(files.clone()));
    assert_eq!(first_clipboard_file(files), Ok("a.mp4".to_string()));
    assert!(NrError::NoClipboardFiles.message().starts_with("No files in clipboard.\n"));
    assert!(NrError::NoClipboardFiles.message().ends_with("nr --list              — show all formats"));
}

#[test]
fn targets_named_on_the_command_line() {
    let t = select_target(&MediaType::Video, "MKV").unwrap();
    assert_eq!(t.ext, "mkv");
    // cross-kind targets too: a photo becomes a slideshow, a song a video
    let slide = select_target(&MediaType::Image, "MP4").unwrap();
    assert_eq!(slide.label, "Slideshow MP4 H.264/AAC (5s)");
    let wrapped = select_target(&MediaType::Audio, "mov").unwrap();
    assert_eq!(wrapped.label, "Audio MOV (blank video)");
    // same-kind first
    assert_eq!(select_target(&MediaType::Image, "GIF").unwrap().label, "GIF");
    assert_eq!(
        select_target(&MediaType::Audio, "JPG").unwrap_err(),
        NrError::UnsupportedTarget { ext: "jpg".to_string(), media_type: MediaType::Audio }
    );
    assert_eq!(available_targets(&MediaType::Audio).unwrap().len(), 24);
    assert_eq!(
        NrError::NoConversions(MediaType::Image).message(),
        "No conversions available for Image files"
    );
}

#[test]
fn lone_target_names_are_formats() {
    for m in [MediaType::Video, MediaType::Audio, MediaType::Image] {
        for t in get_targets(&m).iter().chain(get_cross_targets(&m).iter()) {
            let upper = t.ext.to_uppercase();
            match resolve_args(&cli(Some(&upper), None), false) {
                Ok(ArgPlan::Clipboard { target }) => assert_eq!(target, Some(upper)),
                _ => panic!("{} read as a file", t.ext),
            }
        }
    }
}

#[test]
fn format_names_ignore_case() {
    for name in ["mp4", "MP4", "Mp4", "mP4"] {
        let t = select_target(&MediaType::Video, name).unwrap();
        assert_eq!(t.ext, "mp4");
        assert_eq!(t.label, "MP4 H.264/AAC");
    }
    for name in ["Png", "png"] {
        assert_eq!(select_target(&MediaType::Image, name).unwrap().ext, "png");
    }
    assert_eq!(
        select_target(&MediaType::Audio, "XYZ").unwrap_err(),
        select_target(&MediaType::Audio, "xyz").unwrap_err()
    );
}

#[test]
fn missing_input_file_is_refused() {
    assert_eq!(check_input_file("clip.mov", true), Ok(()));
    assert_eq!(
        check_input_file("nowhere/clip.mov", false),
        Err(NrError::FileNotFound("nowhere/clip.mov".to_string()))
    );
    assert_eq!(
        check_input_file("nowhere/clip.mov", false).unwrap_err().message(),
        "File not found: nowhere/clip.mov"
    );
}
