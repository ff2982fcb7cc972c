use nr::detect::MediaType;
use nr::error::NrError;
use nr::interactive::{interpret_choice, menu_screen, Choice};
use nr::registry::get_targets;

fn pick(input: &str, m: MediaType) -> Option<String> {
    match interpret_choice(input, get_targets(&m)) {
        Choice::Pick(s) => Some(s),
        _ => None,
    }
}

#[test]
fn quitting() {
    let t = get_targets(&MediaType::Video);
    assert!(matches!(interpret_choice("q", t), Choice::Quit));
    assert!(matches!(interpret_choice(" QUIT \n", t), Choice::Quit));
    assert!(matches!(interpret_choice("exit\r\n", t), Choice::Quit));
}

#[test]
fn by_number() {
    assert_eq!(pick("1\n", MediaType::Video).as_deref(), Some("mp4"));
    assert_eq!(pick("2", MediaType::Video).as_deref(), Some("h265"));
    assert_eq!(pick("+3", MediaType::Video).as_deref(), Some("mkv"));
    assert_eq!(pick("47", MediaType::Video).as_deref(), Some("sox"));
    assert_eq!(pick("25", MediaType::Image).as_deref(), Some("fits"));
    let t = get_targets(&MediaType::Video);
    assert!(matches!(interpret_choice("0", t), Choice::Invalid));
    assert!(matches!(interpret_choice("48", t), Choice::Invalid));
    assert!(matches!(interpret_choice("-1", t), Choice::Invalid));
    assert!(matches!(interpret_choice("99999999999999999999999", t), Choice::Invalid));
}

#[test]
fn by_name() {
    assert_eq!(pick("MKV\n", MediaType::Video).as_deref(), Some("mkv"));
    assert_eq!(pick("webp", MediaType::Image).as_deref(), Some("webp"));
    let t = get_targets(&MediaType::Audio);
    assert!(matches!(interpret_choice("mp4", t), Choice::Invalid));
    assert!(matches!(interpret_choice("", t), Choice::Invalid));
}

#[test]
fn the_menu() {
    let targets = get_targets(&MediaType::Image);
    let screen = menu_screen("photo.jpg", "1.2 MB", &MediaType::Image, targets);
    assert!(screen.refusal.is_none());
    assert_eq!(screen.lines.len(), 3 + 1 + 25 + 1);
    assert!(screen.lines[0].starts_with("── nr ── Universal Converter ──"));
    assert_eq!(screen.lines[1], "  photo.jpg  (1.2 MB)  —  Image");
    assert_eq!(screen.lines[2], "");
    assert_eq!(screen.lines[3], "  Available formats:");
    assert_eq!(screen.lines[4], "  1 ) .jpg   JPEG");
    assert_eq!(screen.lines[13], "  10) .ppm   PPM portable pixmap");
    assert_eq!(screen.lines[7], "  4 ) .webp  WebP");
    assert_eq!(screen.lines[29], "");
}

#[test]
fn an_empty_menu_gives_up() {
    let screen = menu_screen("x", "", &MediaType::Video, &[]);
    assert_eq!(screen.refusal, Some(NrError::UnsupportedFileType));
    assert_eq!(
        screen.lines.last().unwrap(),
        "  No conversion targets available for this file type."
    );
    assert_eq!(NrError::UnsupportedFileType.message(), "Unsupported file type");
}

#[test]
fn every_pick_is_offered() {
    for m in [MediaType::Video, MediaType::Audio, MediaType::Image] {
        let targets = get_targets(&m);
        for n in 1..=targets.len() {
            match interpret_choice(&format!(" {} ", n), targets) {
                Choice::Pick(ext) => {
                    let t = nr::registry::find_target(targets, &ext).unwrap();
                    assert_eq!(t.ext, ext);
                }
                _ => panic!("number {} not picked", n),
            }
        }
        for t in targets {
            match interpret_choice(&t.ext.to_uppercase(), targets) {
                Choice::Pick(ext) => assert!(nr::registry::find_target(targets, &ext).is_some()),
                _ => panic!("{} not picked", t.ext),
            }
        }
    }
}
