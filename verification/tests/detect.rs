use nr::detect::{check_extension, check_magic, detect_media_type, MediaType};
use nr::error::NrError;

fn buf(bytes: &[u8]) -> ([u8; 16], usize) {
    let mut b = [0u8; 16];
    b[..bytes.len()].copy_from_slice(bytes);
    (b, bytes.len())
}

fn magic(bytes: &[u8]) -> Option<MediaType> {
    let (b, n) = buf(bytes);
    check_magic(&b, n)
}

#[test]
fn labels() {
    assert_eq!(MediaType::Video.label(), "Video");
    assert_eq!(MediaType::Audio.label(), "Audio");
    assert_eq!(MediaType::Image.label(), "Image");
}

#[test]
fn extensions_by_category() {
    assert_eq!(check_extension("mp4"), Some(MediaType::Video));
    assert_eq!(check_extension("mpeg"), Some(MediaType::Video));
    assert_eq!(check_extension("3g2"), Some(MediaType::Video));
    assert_eq!(check_extension("flac"), Some(MediaType::Audio));
    assert_eq!(check_extension("alac"), Some(MediaType::Audio));
    assert_eq!(check_extension("heic"), Some(MediaType::Image));
    assert_eq!(check_extension("gif"), Some(MediaType::Image));
    assert_eq!(check_extension("xyz"), None);
    assert_eq!(check_extension(""), None);
    // compared exactly: callers lowercase first
    assert_eq!(check_extension("MP4"), None);
}

#[test]
fn magic_iso_media() {
    assert_eq!(magic(b"\0\0\0\x18ftypisom\0\0\0\0"), Some(MediaType::Video));
    assert_eq!(magic(b"\0\0\0\x18ftypheic"), Some(MediaType::Image));
    assert_eq!(magic(b"\0\0\0\x18ftypheif"), Some(MediaType::Image));
    assert_eq!(magic(b"\0\0\0\x18ftypmif1"), Some(MediaType::Image));
    assert_eq!(magic(b"\0\0\0\x18ftypmsf1"), Some(MediaType::Image));
    assert_eq!(magic(b"\0\0\0\x18ftypavif"), Some(MediaType::Image));
    assert_eq!(magic(b"\0\0\0\x18ftypqt  "), Some(MediaType::Video));
    // fewer than 12 bytes: the ftyp box is not looked at
    let (b, _) = buf(b"\0\0\0\x18ftypisom");
    assert_eq!(check_magic(&b, 11), None);
}

#[test]
fn magic_video() {
    assert_eq!(magic(&[0x1a, 0x45, 0xdf, 0xa3]), Some(MediaType::Video));
    assert_eq!(magic(b"RIFF\0\0\0\0AVI LIST"), Some(MediaType::Video));
    assert_eq!(magic(&[0x30, 0x26, 0xb2, 0x75, 0x8e]), Some(MediaType::Video));
    assert_eq!(magic(b"FLV"), Some(MediaType::Video));
    assert_eq!(magic(b"OggS\0"), Some(MediaType::Video));
}

#[test]
fn magic_audio() {
    assert_eq!(magic(b"ID3\x04"), Some(MediaType::Audio));
    assert_eq!(magic(&[0xff, 0xfb, 0x90, 0x00]), Some(MediaType::Audio));
    assert_eq!(magic(&[0xff, 0xe0]), Some(MediaType::Audio));
    assert_eq!(magic(b"RIFF\x24\0\0\0WAVEfmt "), Some(MediaType::Audio));
    assert_eq!(magic(b"fLaC"), Some(MediaType::Audio));
}

#[test]
fn magic_image() {
    assert_eq!(magic(&[0xff, 0xd8, 0xff, 0xe0]), Some(MediaType::Image));
    assert_eq!(magic(&[0x89, b'P', b'N', b'G', 0x0d, 0x0a, 0x1a, 0x0a]), Some(MediaType::Image));
    assert_eq!(magic(b"GIF89a"), Some(MediaType::Image));
    assert_eq!(magic(b"GIF87a"), Some(MediaType::Image));
    assert_eq!(magic(b"GIF8"), None);
    assert_eq!(magic(b"GIF88a"), None);
    let (b, _) = buf(b"GIF89a");
    assert_eq!(check_magic(&b, 4), None);
    assert_eq!(check_magic(&b, 5), Some(MediaType::Image));
    assert_eq!(magic(b"BM"), Some(MediaType::Image));
    assert_eq!(magic(b"RIFF\0\0\0\0WEBPVP8 "), Some(MediaType::Image));
    assert_eq!(magic(&[b'I', b'I', 0x2a, 0x00]), Some(MediaType::Image));
    assert_eq!(magic(&[b'M', b'M', 0x00, 0x2a]), Some(MediaType::Image));
    assert_eq!(magic(&[b'M', b'M', 0x2a, 0x00]), None);
}

#[test]
fn magic_length_guards() {
    // a PNG signature cut short is not recognised
    let (b, _) = buf(&[0x89, b'P', b'N', b'G', 0x0d, 0x0a, 0x1a, 0x0a]);
    assert_eq!(check_magic(&b, 7), None);
    // JPEG needs three bytes
    let (b, _) = buf(&[0xff, 0xd8, 0xff]);
    assert_eq!(check_magic(&b, 2), None);
    assert_eq!(check_magic(&b, 3), Some(MediaType::Image));
    // RIFF without a known form type
    assert_eq!(magic(b"RIFF\0\0\0\0XXXX"), None);
    assert_eq!(magic(&[0u8; 16]), None);
}

#[test]
fn detection_falls_back_to_the_extension() {
    assert_eq!(detect_media_type("MP4", &[]), Ok(MediaType::Video));
    assert_eq!(detect_media_type("Flac", &[1, 2]), Ok(MediaType::Audio));
    // unknown contents: the extension decides
    assert_eq!(detect_media_type("jpg", &[0u8; 16]), Ok(MediaType::Image));
    assert_eq!(detect_media_type("mkv", b"\0\0\0\x18ftyp"), Ok(MediaType::Video));
}

#[test]
fn magic_bytes_win_over_the_extension() {
    // a PNG under an audio name is an image
    let png = [0x89, b'P', b'N', b'G', 0x0d, 0x0a, 0x1a, 0x0a];
    assert_eq!(detect_media_type("mp3", &png), Ok(MediaType::Image));
    assert_eq!(detect_media_type("png", b"ID3\x03"), Ok(MediaType::Audio));
    assert_eq!(detect_media_type("jpg", b"fLaC\0\0\0\x22"), Ok(MediaType::Audio));
}

#[test]
fn detection_by_contents() {
    let png = [0x89, b'P', b'N', b'G', 0x0d, 0x0a, 0x1a, 0x0a, 0, 0, 0, 0x0d];
    assert_eq!(detect_media_type("", &png), Ok(MediaType::Image));
    assert_eq!(detect_media_type("bin", b"ID3\x03\0\0"), Ok(MediaType::Audio));
    assert_eq!(detect_media_type("dat", b"\0\0\0\x20ftypmp42\0\0\0\0"), Ok(MediaType::Video));
}

#[test]
fn detection_errors() {
    assert_eq!(detect_media_type("bin", &[1, 2, 3]), Err(NrError::FileTooSmall));
    assert_eq!(detect_media_type("", &[]), Err(NrError::FileTooSmall));
    assert_eq!(detect_media_type("dat", &[0u8; 16]), Err(NrError::UnrecognizedFileType));
    assert_eq!(NrError::FileTooSmall.message(), "File too small to detect type");
    assert_eq!(NrError::UnrecognizedFileType.message(), "Unrecognized file type");
}

#[test]
fn bytes_past_the_read_length_do_not_count() {
    // same first four bytes, different tails: same answer for len 4
    let mut a = [0u8; 16];
    let mut b = [0xffu8; 16];
    a[..4].copy_from_slice(b"fLaC");
    b[..4].copy_from_slice(b"fLaC");
    assert_eq!(check_magic(&a, 4), check_magic(&b, 4));
    let mut c = [0u8; 16];
    c[..3].copy_from_slice(b"GIF");
    let mut d = c;
    d[3] = b'8';
    d[4] = b'9';
    assert_eq!(check_magic(&c, 3), check_magic(&d, 3));
    assert_eq!(check_magic(&d, 3), None);
}
