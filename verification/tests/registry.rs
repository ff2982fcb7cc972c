use nr::cli::is_format_name;
use nr::detect::MediaType;
use nr::error::NrError;
use nr::registry::{find_target, get_cross_targets, get_targets, listing, resolve_target};

const ALL: [MediaType; 3] = [MediaType::Video, MediaType::Audio, MediaType::Image];

#[test]
fn target_counts() {
    assert_eq!(get_targets(&MediaType::Video).len(), 47);
    assert_eq!(get_targets(&MediaType::Audio).len(), 24);
    assert_eq!(get_targets(&MediaType::Image).len(), 25);
    assert_eq!(get_cross_targets(&MediaType::Video).len(), 0);
    assert_eq!(get_cross_targets(&MediaType::Image).len(), 7);
    assert_eq!(get_cross_targets(&MediaType::Audio).len(), 6);
    let total: usize = ALL
        .iter()
        .map(|m| get_targets(m).len() + get_cross_targets(m).len())
        .sum();
    assert_eq!(total, 109);
}

#[test]
fn every_target_is_a_format_name() {
    for m in ALL.iter() {
        for t in get_targets(m).iter().chain(get_cross_targets(m).iter()) {
            assert!(is_format_name(t.ext), "{}", t.ext);
        }
    }
}

#[test]
fn names_are_distinct_within_each_table() {
    for m in ALL.iter() {
        for table in [get_targets(m), get_cross_targets(m)] {
            for (i, a) in table.iter().enumerate() {
                for b in &table[i + 1..] {
                    assert_ne!(a.ext, b.ext);
                }
            }
        }
    }
}

#[test]
fn variant_formats() {
    let h265 = resolve_target(&MediaType::Video, "h265").unwrap();
    assert_eq!(h265.output_ext, "mp4");
    assert_eq!(h265.label, "MP4 H.265/HEVC/AAC");
    assert_eq!(resolve_target(&MediaType::Video, "vp9").unwrap().output_ext, "webm");
    assert_eq!(resolve_target(&MediaType::Video, "av1").unwrap().output_ext, "mkv");
    assert_eq!(resolve_target(&MediaType::Video, "psp").unwrap().output_ext, "mp4");
    let mkv = resolve_target(&MediaType::Video, "mkv").unwrap();
    assert_eq!(mkv.post_args, &["-c", "copy"]);
    assert!(mkv.pre_args.is_empty());
}

#[test]
fn audio_extraction_drops_video() {
    let mp3 = resolve_target(&MediaType::Video, "mp3").unwrap();
    assert_eq!(mp3.post_args, &["-vn", "-c:a", "libmp3lame", "-q:a", "2"]);
    let mp3a = resolve_target(&MediaType::Audio, "mp3").unwrap();
    assert_eq!(mp3a.label, "MP3 LAME V2");
    assert_eq!(mp3a.post_args, &["-c:a", "libmp3lame", "-q:a", "2"]);
}

#[test]
fn cross_kind_targets() {
    let slide = resolve_target(&MediaType::Image, "mp4").unwrap();
    assert_eq!(slide.label, "Slideshow MP4 H.264/AAC (5s)");
    assert_eq!(slide.pre_args, &["-loop", "1"]);
    assert!(slide.post_args.contains(&"-t") && slide.post_args.contains(&"5"));
    let blank = resolve_target(&MediaType::Audio, "vp9").unwrap();
    assert_eq!(blank.output_ext, "webm");
    assert_eq!(blank.pre_args[3], "color=c=black:s=640x480:r=1");
    // the same-kind target comes first: an image to gif stays an image
    let gif = resolve_target(&MediaType::Image, "gif").unwrap();
    assert_eq!(gif.label, "GIF");
    assert!(gif.pre_args.is_empty());
}

#[test]
fn unsupported_target() {
    let err = resolve_target(&MediaType::Video, "xyz").unwrap_err();
    assert_eq!(
        err,
        NrError::UnsupportedTarget { ext: "xyz".to_string(), media_type: MediaType::Video }
    );
    assert_eq!(err.message(), "'xyz' is not supported for Video files. Use --list to see options.");
    assert!(resolve_target(&MediaType::Audio, "jpg").is_err());
    // exact names only
    assert!(resolve_target(&MediaType::Video, "MP4").is_err());
}

#[test]
fn find_is_first_match() {
    let t = find_target(get_targets(&MediaType::Image), "webp").unwrap();
    assert_eq!(t.label, "WebP");
    assert!(find_target(get_targets(&MediaType::Image), "mp4").is_none());
    assert!(find_target(&[], "mp4").is_none());
}

#[test]
fn listing_shows_every_conversion() {
    let lines = listing();
    assert_eq!(lines.len(), 116);
    assert_eq!(lines[0], "── Supported Conversions ──\n");
    assert_eq!(lines[1], "══ VIDEO → video formats:");
    assert_eq!(lines[2], "  .mp4            MP4 H.264/AAC");
    assert_eq!(lines[3], "  .h265 → .mp4    MP4 H.265/HEVC/AAC");
    assert_eq!(lines[26], "  .psp → .mp4     PSP MP4 H.264/AAC");
    assert_eq!(lines[27], "\n══ VIDEO → audio extraction:");
    assert_eq!(lines[28], "  .mp3            MP3 audio extract");
    assert!(lines.contains(&"\n══ AUDIO → all audio formats:".to_string()));
    assert!(lines.contains(&"  .vp9 → .webm    Slideshow WebM VP9/Opus (5s)".to_string()));
    assert_eq!(lines[115], "  .vp9 → .webm    Audio WebM (blank video)");
    let entries = lines.iter().filter(|l| l.starts_with("  .")).count();
    assert_eq!(entries, 109);
}

#[test]
fn same_kind_targets_keep_their_names() {
    let variants = [("h265", "mp4"), ("vp9", "webm"), ("av1", "mkv"), ("psp", "mp4")];
    for m in [MediaType::Video, MediaType::Audio, MediaType::Image] {
        for t in get_targets(&m) {
            assert!(t.pre_args.is_empty(), "{} has input options", t.ext);
            if t.output_ext != t.ext {
                assert_eq!(m, MediaType::Video);
                assert!(variants.contains(&(t.ext, t.output_ext)), "{} -> {}", t.ext, t.output_ext);
            }
        }
    }
    for (ext, out) in variants {
        assert!(get_targets(&MediaType::Video).iter().any(|t| t.ext == ext && t.output_ext == out));
    }
}
