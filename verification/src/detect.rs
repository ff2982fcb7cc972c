//! Media type detection: first by the magic bytes at the start of the file,
//! then, when they name no format, by the file extension.

use vstd::prelude::*;
use crate::error::NrError;
use crate::text::{ascii_lowercase, is_ascii, list_contains, lowercase, to_lowercase, views};

verus! {

/// Broad category of a media file.
#[derive(Debug, Clone, Copy, PartialEq, Eq, Structural)]
pub enum MediaType {
    Video,
    Audio,
    Image,
}

impl MediaType {
    /// The category's name as shown to users.
    pub open spec fn spec_label(self) -> Seq<char> {
        match self {
            MediaType::Video => "Video"@,
            MediaType::Audio => "Audio"@,
            MediaType::Image => "Image"@,
        }
    }

    /// The category's name as shown to users.
    pub fn label(&self) -> (r: &'static str)
        ensures
            r@ == self.spec_label(),
    {
        match self {
            MediaType::Video => "Video",
            MediaType::Audio => "Audio",
            MediaType::Image => "Image",
        }
    }
}

// ---------------------------------------------------------------------------
// Extensions
// ---------------------------------------------------------------------------

/// Extensions recognised as video files.
pub open spec fn video_extensions() -> Seq<Seq<char>> {
    seq![
        "mp4"@, "mkv"@, "avi"@, "mov"@, "wmv"@, "flv"@, "webm"@, "m4v"@, "mpg"@, "mpeg"@,
        "ts"@, "ogv"@, "3gp"@, "3g2"@, "vob"@,
    ]
}

/// Extensions recognised as audio files.
pub open spec fn audio_extensions() -> Seq<Seq<char>> {
    seq!["mp3"@, "wav"@, "flac"@, "ogg"@, "aac"@, "wma"@, "m4a"@, "opus"@, "alac"@]
}

/// Extensions recognised as image files.
pub open spec fn image_extensions() -> Seq<Seq<char>> {
    seq![
        "jpg"@, "jpeg"@, "png"@, "gif"@, "bmp"@, "webp"@, "tiff"@, "tif"@, "ico"@, "heic"@,
        "heif"@, "avif"@,
    ]
}

/// The media type that an (already lowercased) extension names, if any.
pub open spec fn spec_check_extension(ext: Seq<char>) -> Option<MediaType> {
    if video_extensions().contains(ext) {
        Some(MediaType::Video)
    } else if audio_extensions().contains(ext) {
        Some(MediaType::Audio)
    } else if image_extensions().contains(ext) {
        Some(MediaType::Image)
    } else {
        None
    }
}

fn video_extension_list() -> (r: &'static [&'static str])
    ensures
        views(r@) == video_extensions(),
{
    let r: &'static [&'static str] = &[
        "mp4", "mkv", "avi", "mov", "wmv", "flv", "webm", "m4v", "mpg", "mpeg", "ts", "ogv",
        "3gp", "3g2", "vob",
    ];
    assert(views(r@) =~= video_extensions());
    r
}

fn audio_extension_list() -> (r: &'static [&'static str])
    ensures
        views(r@) == audio_extensions(),
{
    let r: &'static [&'static str] = &[
        "mp3", "wav", "flac", "ogg", "aac", "wma", "m4a", "opus", "alac",
    ];
    assert(views(r@) =~= audio_extensions());
    r
}

fn image_extension_list() -> (r: &'static [&'static str])
    ensures
        views(r@) == image_extensions(),
{
    let r: &'static [&'static str] = &[
        "jpg", "jpeg", "png", "gif", "bmp", "webp", "tiff", "tif", "ico", "heic", "heif",
        "avif",
    ];
    assert(views(r@) =~= image_extensions());
    r
}

/// The media type named by a file extension (compared exactly; callers
/// lowercase it first).
pub fn check_extension(ext: &str) -> (r: Option<MediaType>)
    ensures
        r == spec_check_extension(ext@),
{
    if list_contains(video_extension_list(), ext) {
        Some(MediaType::Video)
    } else if list_contains(audio_extension_list(), ext) {
        Some(MediaType::Audio)
    } else if list_contains(image_extension_list(), ext) {
        Some(MediaType::Image)
    } else {
        None
    }
}

// ---------------------------------------------------------------------------
// Magic bytes
// ---------------------------------------------------------------------------

/// `sig` occurs in `buf` at offset `off`.
pub open spec fn bytes_at(buf: Seq<u8>, off: int, sig: Seq<u8>) -> bool {
    0 <= off && off + sig.len() <= buf.len() && buf.subrange(off, off + sig.len()) == sig
}

/// "ftyp": the ISO base media file box that MP4, MOV, HEIF and AVIF share.
pub open spec fn magic_ftyp() -> Seq<u8> {
    seq![0x66, 0x74, 0x79, 0x70]
}

/// The ISO brands ("heic", "heif", "mif1", "msf1", "avif") that mark a still image.
pub open spec fn image_brands() -> Seq<Seq<u8>> {
    seq![
        seq![0x68u8, 0x65, 0x69, 0x63],
        seq![0x68u8, 0x65, 0x69, 0x66],
        seq![0x6du8, 0x69, 0x66, 0x31],
        seq![0x6du8, 0x73, 0x66, 0x31],
        seq![0x61u8, 0x76, 0x69, 0x66],
    ]
}

/// "RIFF": the container of AVI, WAV and WebP.
pub open spec fn magic_riff() -> Seq<u8> {
    seq![0x52, 0x49, 0x46, 0x46]
}

/// The media type that the first bytes of a file reveal, if any; `len` is the
/// number of bytes of `buf` that were read.
pub open spec fn spec_check_magic(buf: Seq<u8>, len: int) -> Option<MediaType> {
    if len >= 12 && bytes_at(buf, 4, magic_ftyp()) {
        if image_brands().contains(buf.subrange(8, 12)) {
            Some(MediaType::Image)
        } else {
            Some(MediaType::Video)
        }
    } else if len >= 4 && bytes_at(buf, 0, seq![0x1a, 0x45, 0xdf, 0xa3]) {
        // Matroska / WebM (EBML)
        Some(MediaType::Video)
    } else if len >= 12 && bytes_at(buf, 0, magic_riff()) && bytes_at(buf, 8, seq![0x41, 0x56, 0x49, 0x20]) {
        // "AVI "
        Some(MediaType::Video)
    } else if len >= 4 && bytes_at(buf, 0, seq![0x30, 0x26, 0xb2, 0x75]) {
        // ASF / WMV
        Some(MediaType::Video)
    } else if len >= 3 && bytes_at(buf, 0, seq![0x46, 0x4c, 0x56]) {
        // "FLV"
        Some(MediaType::Video)
    } else if len >= 4 && bytes_at(buf, 0, seq![0x4f, 0x67, 0x67, 0x53]) {
        // "OggS"
        Some(MediaType::Video)
    } else if len >= 3 && bytes_at(buf, 0, seq![0x49, 0x44, 0x33]) {
        // "ID3"
        Some(MediaType::Audio)
    } else if len >= 2 && buf[0] == 0xff && (buf[1] & 0xe0) == 0xe0 {
        // MPEG audio frame sync
        Some(MediaType::Audio)
    } else if len >= 12 && bytes_at(buf, 0, magic_riff()) && bytes_at(buf, 8, seq![0x57, 0x41, 0x56, 0x45]) {
        // "WAVE"
        Some(MediaType::Audio)
    } else if len >= 4 && bytes_at(buf, 0, seq![0x66, 0x4c, 0x61, 0x43]) {
        // "fLaC"
        Some(MediaType::Audio)
    } else if len >= 3 && bytes_at(buf, 0, seq![0xff, 0xd8, 0xff]) {
        // JPEG
        Some(MediaType::Image)
    } else if len >= 8 && bytes_at(buf, 0, seq![0x89, 0x50, 0x4e, 0x47, 0x0d, 0x0a, 0x1a, 0x0a]) {
        // PNG
        Some(MediaType::Image)
    } else if len >= 5 && bytes_at(buf, 0, seq![0x47, 0x49, 0x46, 0x38]) && (buf[4] == 0x37 || buf[4] == 0x39) {
        // "GIF87" / "GIF89"
        Some(MediaType::Image)
    } else if len >= 2 && bytes_at(buf, 0, seq![0x42, 0x4d]) {
        // "BM"
        Some(MediaType::Image)
    } else if len >= 12 && bytes_at(buf, 0, magic_riff()) && bytes_at(buf, 8, seq![0x57, 0x45, 0x42, 0x50]) {
        // "WEBP"
        Some(MediaType::Image)
    } else if len >= 4 && (bytes_at(buf, 0, seq![0x49, 0x49, 0x2a, 0x00]) || bytes_at(buf, 0, seq![0x4d, 0x4d, 0x00, 0x2a])) {
        // TIFF, little or big endian
        Some(MediaType::Image)
    } else {
        None
    }
}

/// Whether `sig` occurs in `buf` at offset `off`.
fn bytes_match(buf: &[u8; 16], off: usize, sig: &[u8]) -> (r: bool)
    requires
        off + sig@.len() <= 16,
    ensures
        r == bytes_at(buf@, off as int, sig@),
{
    let n = sig.len();
    let mut i: usize = 0;
    while i < n
        invariant
            n == sig@.len(),
            off + n <= 16,
            buf@.len() == 16,
            i <= n,
            forall|j: int| 0 <= j < i ==> buf@[off + j] == sig@[j],
        decreases n - i,
    {
        if buf[off + i] != sig[i] {
            assert(buf@.subrange(off as int, off + n)[i as int] != sig@[i as int]);
            return false;
        }
        i = i + 1;
    }
    assert(buf@.subrange(off as int, off + n) =~= sig@);
    true
}

fn has_image_brand(buf: &[u8; 16]) -> (r: bool)
    ensures
        r == image_brands().contains(buf@.subrange(8, 12)),
{
    let ghost brand = buf@.subrange(8, 12);
    let ghost brands = image_brands();
    let heic = bytes_match(buf, 8, &[0x68, 0x65, 0x69, 0x63]);
    let heif = bytes_match(buf, 8, &[0x68, 0x65, 0x69, 0x66]);
    let mif1 = bytes_match(buf, 8, &[0x6d, 0x69, 0x66, 0x31]);
    let msf1 = bytes_match(buf, 8, &[0x6d, 0x73, 0x66, 0x31]);
    let avif = bytes_match(buf, 8, &[0x61, 0x76, 0x69, 0x66]);
    assert(brands[0] =~= seq![0x68u8, 0x65, 0x69, 0x63]);
    assert(brands[1] =~= seq![0x68u8, 0x65, 0x69, 0x66]);
    assert(brands[2] =~= seq![0x6du8, 0x69, 0x66, 0x31]);
    assert(brands[3] =~= seq![0x6du8, 0x73, 0x66, 0x31]);
    assert(brands[4] =~= seq![0x61u8, 0x76, 0x69, 0x66]);
    let r = heic || heif || mif1 || msf1 || avif;
    assert(r == brands.contains(brand)) by {
        if brands.contains(brand) {
            let k = choose|k: int| 0 <= k < brands.len() && brands[k] == brand;
            assert(0 <= k < 5);
        }
    }
    r
}

/// The media type that the first `len` bytes of `buf` reveal, if any.
pub fn check_magic(buf: &[u8; 16], len: usize) -> (r: Option<MediaType>)
    ensures
        r == spec_check_magic(buf@, len as int),
{
    if len >= 12 && bytes_match(buf, 4, &[0x66, 0x74, 0x79, 0x70]) {
        if has_image_brand(buf) {
            return Some(MediaType::Image);
        }
        return Some(MediaType::Video);
    }
    if len >= 4 && bytes_match(buf, 0, &[0x1a, 0x45, 0xdf, 0xa3]) {
        return Some(MediaType::Video);
    }
    if len >= 12 && bytes_match(buf, 0, &[0x52, 0x49, 0x46, 0x46]) && bytes_match(buf, 8, &[0x41, 0x56, 0x49, 0x20]) {
        return Some(MediaType::Video);
    }
    if len >= 4 && bytes_match(buf, 0, &[0x30, 0x26, 0xb2, 0x75]) {
        return Some(MediaType::Video);
    }
    if len >= 3 && bytes_match(buf, 0, &[0x46, 0x4c, 0x56]) {
        return Some(MediaType::Video);
    }
    if len >= 4 && bytes_match(buf, 0, &[0x4f, 0x67, 0x67, 0x53]) {
        return Some(MediaType::Video);
    }
    if len >= 3 && bytes_match(buf, 0, &[0x49, 0x44, 0x33]) {
        return Some(MediaType::Audio);
    }
    if len >= 2 && buf[0] == 0xff && (buf[1] & 0xe0) == 0xe0 {
        return Some(MediaType::Audio);
    }
    if len >= 12 && bytes_match(buf, 0, &[0x52, 0x49, 0x46, 0x46]) && bytes_match(buf, 8, &[0x57, 0x41, 0x56, 0x45]) {
        return Some(MediaType::Audio);
    }
    if len >= 4 && bytes_match(buf, 0, &[0x66, 0x4c, 0x61, 0x43]) {
        return Some(MediaType::Audio);
    }
    if len >= 3 && bytes_match(buf, 0, &[0xff, 0xd8, 0xff]) {
        return Some(MediaType::Image);
    }
    if len >= 8 && bytes_match(buf, 0, &[0x89, 0x50, 0x4e, 0x47, 0x0d, 0x0a, 0x1a, 0x0a]) {
        return Some(MediaType::Image);
    }
    if len >= 5 && bytes_match(buf, 0, &[0x47, 0x49, 0x46, 0x38]) && (buf[4] == 0x37 || buf[4] == 0x39) {
        return Some(MediaType::Image);
    }
    if len >= 2 && bytes_match(buf, 0, &[0x42, 0x4d]) {
        return Some(MediaType::Image);
    }
    if len >= 12 && bytes_match(buf, 0, &[0x52, 0x49, 0x46, 0x46]) && bytes_match(buf, 8, &[0x57, 0x45, 0x42, 0x50]) {
        return Some(MediaType::Image);
    }
    if len >= 4 && (bytes_match(buf, 0, &[0x49, 0x49, 0x2a, 0x00]) || bytes_match(buf, 0, &[0x4d, 0x4d, 0x00, 0x2a])) {
        return Some(MediaType::Image);
    }
    None
}

// ---------------------------------------------------------------------------
// The whole detection
// ---------------------------------------------------------------------------

/// The 16-byte read buffer after `header` was read into it: the header
/// followed by zeros.
pub open spec fn header_buffer(header: Seq<u8>) -> Seq<u8> {
    header + Seq::new((16 - header.len()) as nat, |i: int| 0u8)
}

/// What detection gives for a file whose extension is `ext` and whose first
/// bytes are `header` (at most 16 of them, as many as one read returned).
/// The magic bytes decide; the extension is the fallback when the header is
/// shorter than four bytes or names no known format.
pub open spec fn spec_detect(ext: Seq<char>, header: Seq<u8>) -> Result<MediaType, NrError> {
    let magic = if header.len() >= 4 {
        spec_check_magic(header_buffer(header), header.len() as int)
    } else {
        None
    };
    match magic {
        Some(m) => Ok(m),
        None => match spec_check_extension(lowercase(ext)) {
            Some(m) => Ok(m),
            None => if header.len() < 4 {
                Err(NrError::FileTooSmall)
            } else {
                Err(NrError::UnrecognizedFileType)
            },
        },
    }
}

/// Detects the media type of a file from its extension (`""` when it has none)
/// and the bytes read from its start (one read of at most 16 bytes).
pub fn detect_media_type(ext: &str, header: &[u8]) -> (r: Result<MediaType, NrError>)
    requires
        header@.len() <= 16,
    ensures
        r == spec_detect(ext@, header@),
        is_ascii(ext@) ==> lowercase(ext@) == ascii_lowercase(ext@),
{
    let lower = to_lowercase(ext);
    let n = header.len();
    if n >= 4 {
        let mut buf: [u8; 16] = [0u8; 16];
        let mut i: usize = 0;
        while i < n
            invariant
                n == header@.len(),
                n <= 16,
                i <= n,
                buf@.len() == 16,
                forall|j: int| 0 <= j < i ==> buf@[j] == header@[j],
                forall|j: int| i <= j < 16 ==> buf@[j] == 0u8,
            decreases n - i,
        {
            buf[i] = header[i];
            i = i + 1;
        }
        assert(buf@ =~= header_buffer(header@));
        if let Some(mt) = check_magic(&buf, n) {
            return Ok(mt);
        }
    }
    if let Some(mt) = check_extension(lower.as_str()) {
        return Ok(mt);
    }
    if n < 4 {
        Err(NrError::FileTooSmall)
    } else {
        Err(NrError::UnrecognizedFileType)
    }
}

/// The magic bytes decide: when at least four bytes were read and they name a
/// format, the extension plays no part.
pub proof fn lemma_magic_decides(ext1: Seq<char>, ext2: Seq<char>, header: Seq<u8>)
    requires
        header.len() >= 4,
        spec_check_magic(header_buffer(header), header.len() as int) is Some,
    ensures
        spec_detect(ext1, header) == spec_detect(ext2, header),
        spec_detect(ext1, header) == Ok::<MediaType, NrError>(
            spec_check_magic(header_buffer(header), header.len() as int)->0,
        ),
{
}

/// The extension is the fallback: when the bytes read name no format, a
/// recognised extension decides.
pub proof fn lemma_extension_fallback(ext: Seq<char>, header: Seq<u8>)
    requires
        header.len() < 4 || spec_check_magic(header_buffer(header), header.len() as int) is None,
        spec_check_extension(lowercase(ext)) is Some,
    ensures
        spec_detect(ext, header) == Ok::<MediaType, NrError>(spec_check_extension(lowercase(ext))->0),
{
}

/// Magic-byte detection looks only at the bytes that were read: two buffers
/// that agree on their first `len` bytes are classified alike.
pub proof fn lemma_magic_reads_only_len(buf1: Seq<u8>, buf2: Seq<u8>, len: int)
    requires
        buf1.len() == 16,
        buf2.len() == 16,
        0 <= len <= 16,
        forall|j: int| 0 <= j < len ==> buf1[j] == buf2[j],
    ensures
        spec_check_magic(buf1, len) == spec_check_magic(buf2, len),
{
    assert forall|a: int, b: int| 0 <= a <= b <= len implies buf1.subrange(a, b) == buf2.subrange(a, b) by {
        assert(buf1.subrange(a, b) =~= buf2.subrange(a, b));
    }
    if len >= 2 {
        assert(buf1[0] == buf2[0] && buf1[1] == buf2[1]);
    }
    if len >= 5 {
        assert(buf1[4] == buf2[4]);
    }
    assert(buf1.subrange(4, 8) == buf2.subrange(4, 8) || len < 8);
    assert(buf1.subrange(8, 12) == buf2.subrange(8, 12) || len < 12);
    assert(buf1.subrange(0, 2) == buf2.subrange(0, 2) || len < 2);
    assert(buf1.subrange(0, 3) == buf2.subrange(0, 3) || len < 3);
    assert(buf1.subrange(0, 4) == buf2.subrange(0, 4) || len < 4);
    assert(buf1.subrange(0, 8) == buf2.subrange(0, 8) || len < 8);
}

// ---------------------------------------------------------------------------
// The extensions that name each media type
// ---------------------------------------------------------------------------

/// The extensions that name each media type: `mp4`, `mkv`, `avi`, `mov`,
/// `wmv`, `flv`, `webm`, `m4v`, `mpg`, `mpeg`, `ts`, `ogv`, `3gp`, `3g2` and
/// `vob` are video; `mp3`, `wav`, `flac`, `ogg`, `aac`, `wma`, `m4a`, `opus` and
/// `alac` are audio; `jpg`, `jpeg`, `png`, `gif`, `bmp`, `webp`, `tiff`, `tif`,
/// `ico`, `heic`, `heif` and `avif` are images.
#[verifier::rlimit(40)]
pub proof fn lemma_extension_media_types()
    ensures
        spec_check_extension("mp4"@) == Some(MediaType::Video),
        spec_check_extension("mkv"@) == Some(MediaType::Video),
        spec_check_extension("avi"@) == Some(MediaType::Video),
        spec_check_extension("mov"@) == Some(MediaType::Video),
        spec_check_extension("wmv"@) == Some(MediaType::Video),
        spec_check_extension("flv"@) == Some(MediaType::Video),
        spec_check_extension("webm"@) == Some(MediaType::Video),
        spec_check_extension("m4v"@) == Some(MediaType::Video),
        spec_check_extension("mpg"@) == Some(MediaType::Video),
        spec_check_extension("mpeg"@) == Some(MediaType::Video),
        spec_check_extension("ts"@) == Some(MediaType::Video),
        spec_check_extension("ogv"@) == Some(MediaType::Video),
        spec_check_extension("3gp"@) == Some(MediaType::Video),
        spec_check_extension("3g2"@) == Some(MediaType::Video),
        spec_check_extension("vob"@) == Some(MediaType::Video),
        spec_check_extension("mp3"@) == Some(MediaType::Audio),
        spec_check_extension("wav"@) == Some(MediaType::Audio),
        spec_check_extension("flac"@) == Some(MediaType::Audio),
        spec_check_extension("ogg"@) == Some(MediaType::Audio),
        spec_check_extension("aac"@) == Some(MediaType::Audio),
        spec_check_extension("wma"@) == Some(MediaType::Audio),
        spec_check_extension("m4a"@) == Some(MediaType::Audio),
        spec_check_extension("opus"@) == Some(MediaType::Audio),
        spec_check_extension("alac"@) == Some(MediaType::Audio),
        spec_check_extension("jpg"@) == Some(MediaType::Image),
        spec_check_extension("jpeg"@) == Some(MediaType::Image),
        spec_check_extension("png"@) == Some(MediaType::Image),
        spec_check_extension("gif"@) == Some(MediaType::Image),
        spec_check_extension("bmp"@) == Some(MediaType::Image),
        spec_check_extension("webp"@) == Some(MediaType::Image),
        spec_check_extension("tiff"@) == Some(MediaType::Image),
        spec_check_extension("tif"@) == Some(MediaType::Image),
        spec_check_extension("ico"@) == Some(MediaType::Image),
        spec_check_extension("heic"@) == Some(MediaType::Image),
        spec_check_extension("heif"@) == Some(MediaType::Image),
        spec_check_extension("avif"@) == Some(MediaType::Image),
{
    reveal_strlit("mp4");
    assert("mp4"@ =~= seq!['m', 'p', '4']);
    reveal_strlit("mkv");
    assert("mkv"@ =~= seq!['m', 'k', 'v']);
    reveal_strlit("avi");
    assert("avi"@ =~= seq!['a', 'v', 'i']);
    reveal_strlit("mov");
    assert("mov"@ =~= seq!['m', 'o', 'v']);
    reveal_strlit("wmv");
    assert("wmv"@ =~= seq!['w', 'm', 'v']);
    reveal_strlit("flv");
    assert("flv"@ =~= seq!['f', 'l', 'v']);
    reveal_strlit("webm");
    assert("webm"@ =~= seq!['w', 'e', 'b', 'm']);
    reveal_strlit("m4v");
    assert("m4v"@ =~= seq!['m', '4', 'v']);
    reveal_strlit("mpg");
    assert("mpg"@ =~= seq!['m', 'p', 'g']);
    reveal_strlit("mpeg");
    assert("mpeg"@ =~= seq!['m', 'p', 'e', 'g']);
    reveal_strlit("ts");
    assert("ts"@ =~= seq!['t', 's']);
    reveal_strlit("ogv");
    assert("ogv"@ =~= seq!['o', 'g', 'v']);
    reveal_strlit("3gp");
    assert("3gp"@ =~= seq!['3', 'g', 'p']);
    reveal_strlit("3g2");
    assert("3g2"@ =~= seq!['3', 'g', '2']);
    reveal_strlit("vob");
    assert("vob"@ =~= seq!['v', 'o', 'b']);
    reveal_strlit("mp3");
    assert("mp3"@ =~= seq!['m', 'p', '3']);
    reveal_strlit("wav");
    assert("wav"@ =~= seq!['w', 'a', 'v']);
    reveal_strlit("flac");
    assert("flac"@ =~= seq!['f', 'l', 'a', 'c']);
    reveal_strlit("ogg");
    assert("ogg"@ =~= seq!['o', 'g', 'g']);
    reveal_strlit("aac");
    assert("aac"@ =~= seq!['a', 'a', 'c']);
    reveal_strlit("wma");
    assert("wma"@ =~= seq!['w', 'm', 'a']);
    reveal_strlit("m4a");
    assert("m4a"@ =~= seq!['m', '4', 'a']);
    reveal_strlit("opus");
    assert("opus"@ =~= seq!['o', 'p', 'u', 's']);
    reveal_strlit("alac");
    assert("alac"@ =~= seq!['a', 'l', 'a', 'c']);
    reveal_strlit("jpg");
    assert("jpg"@ =~= seq!['j', 'p', 'g']);
    reveal_strlit("jpeg");
    assert("jpeg"@ =~= seq!['j', 'p', 'e', 'g']);
    reveal_strlit("png");
    assert("png"@ =~= seq!['p', 'n', 'g']);
    reveal_strlit("gif");
    assert("gif"@ =~= seq!['g', 'i', 'f']);
    reveal_strlit("bmp");
    assert("bmp"@ =~= seq!['b', 'm', 'p']);
    reveal_strlit("webp");
    assert("webp"@ =~= seq!['w', 'e', 'b', 'p']);
    reveal_strlit("tiff");
    assert("tiff"@ =~= seq!['t', 'i', 'f', 'f']);
    reveal_strlit("tif");
    assert("tif"@ =~= seq!['t', 'i', 'f']);
    reveal_strlit("ico");
    assert("ico"@ =~= seq!['i', 'c', 'o']);
    reveal_strlit("heic");
    assert("heic"@ =~= seq!['h', 'e', 'i', 'c']);
    reveal_strlit("heif");
    assert("heif"@ =~= seq!['h', 'e', 'i', 'f']);
    reveal_strlit("avif");
    assert("avif"@ =~= seq!['a', 'v', 'i', 'f']);
}

/// A file whose first bytes name no format is classified by its (lowercased)
/// extension: a video, audio or image extension gives that media type.
pub proof fn lemma_detect_by_extension(ext: Seq<char>, header: Seq<u8>)
    requires
        header.len() < 4 || spec_check_magic(header_buffer(header), header.len() as int) is None,
    ensures
        (lowercase(ext) == "mp4"@ || lowercase(ext) == "mkv"@ || lowercase(ext) == "avi"@ ||
            lowercase(ext) == "mov"@ || lowercase(ext) == "wmv"@ || lowercase(ext) == "flv"@ ||
            lowercase(ext) == "webm"@ || lowercase(ext) == "m4v"@ || lowercase(ext) == "mpg"@ ||
            lowercase(ext) == "mpeg"@ || lowercase(ext) == "ts"@ || lowercase(ext) == "ogv"@ ||
            lowercase(ext) == "3gp"@ || lowercase(ext) == "3g2"@ || lowercase(ext) == "vob"@)
            ==> spec_detect(ext, header) == Ok::<MediaType, NrError>(MediaType::Video),
        (lowercase(ext) == "mp3"@ || lowercase(ext) == "wav"@ || lowercase(ext) == "flac"@ ||
            lowercase(ext) == "ogg"@ || lowercase(ext) == "aac"@ || lowercase(ext) == "wma"@ ||
            lowercase(ext) == "m4a"@ || lowercase(ext) == "opus"@ || lowercase(ext) == "alac"@)
            ==> spec_detect(ext, header) == Ok::<MediaType, NrError>(MediaType::Audio),
        (lowercase(ext) == "jpg"@ || lowercase(ext) == "jpeg"@ || lowercase(ext) == "png"@ ||
            lowercase(ext) == "gif"@ || lowercase(ext) == "bmp"@ || lowercase(ext) == "webp"@ ||
            lowercase(ext) == "tiff"@ || lowercase(ext) == "tif"@ || lowercase(ext) == "ico"@ ||
            lowercase(ext) == "heic"@ || lowercase(ext) == "heif"@ || lowercase(ext) == "avif"@)
            ==> spec_detect(ext, header) == Ok::<MediaType, NrError>(MediaType::Image),
{
    lemma_extension_media_types();
}

} // verus!
