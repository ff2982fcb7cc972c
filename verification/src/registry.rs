//! The conversion targets offered for each media type, with the ffmpeg
//! arguments that produce them.

use vstd::prelude::*;
use crate::detect::MediaType;
use crate::error::NrError;
use crate::text::{pad_right, push_padded, str_eq, string_views, views};

verus! {

/// One output format offered for a media type.
#[derive(Debug)]
pub struct FormatTarget {
    /// The name the user asks for (`mp4`, `vp9`, ...).
    pub ext: &'static str,
    /// A short description shown in menus and listings.
    pub label: &'static str,
    /// The extension of the file that is written.
    pub output_ext: &'static str,
    /// ffmpeg arguments placed before the input.
    pub pre_args: &'static [&'static str],
    /// ffmpeg arguments placed after the input.
    pub post_args: &'static [&'static str],
}

/// The mathematical content of a [`FormatTarget`].
#[verifier::ext_equal]
pub struct TargetSpec {
    pub ext: Seq<char>,
    pub label: Seq<char>,
    pub output_ext: Seq<char>,
    pub pre_args: Seq<Seq<char>>,
    pub post_args: Seq<Seq<char>>,
}

impl View for FormatTarget {
    type V = TargetSpec;

    open spec fn view(&self) -> TargetSpec {
        TargetSpec {
            ext: self.ext@,
            label: self.label@,
            output_ext: self.output_ext@,
            pre_args: views(self.pre_args@),
            post_args: views(self.post_args@),
        }
    }
}

/// The contents of a table of targets.
pub open spec fn targets_view(s: Seq<FormatTarget>) -> Seq<TargetSpec> {
    s.map_values(|t: FormatTarget| t@)
}

/// A target with the given fields.
pub open spec fn target(
    ext: Seq<char>,
    label: Seq<char>,
    output_ext: Seq<char>,
    pre_args: Seq<Seq<char>>,
    post_args: Seq<Seq<char>>,
) -> TargetSpec {
    TargetSpec { ext, label, output_ext, pre_args, post_args }
}

// ---------------------------------------------------------------------------
// The tables
// ---------------------------------------------------------------------------

/// Video input to a video container.
pub open spec fn video_containers() -> Seq<TargetSpec> {
    seq![
        target("mp4"@, "MP4 H.264/AAC"@, "mp4"@, seq![], seq!["-c:v"@, "libx264"@, "-preset"@, "fast"@, "-c:a"@, "aac"@, "-movflags"@, "+faststart"@]),
        target("h265"@, "MP4 H.265/HEVC/AAC"@, "mp4"@, seq![], seq!["-c:v"@, "libx265"@, "-preset"@, "fast"@, "-c:a"@, "aac"@, "-movflags"@, "+faststart"@]),
        target("mkv"@, "MKV (stream copy, lossless)"@, "mkv"@, seq![], seq!["-c"@, "copy"@]),
        target("webm"@, "WebM VP8/Vorbis"@, "webm"@, seq![], seq!["-c:v"@, "libvpx"@, "-c:a"@, "libvorbis"@]),
        target("vp9"@, "WebM VP9/Opus"@, "webm"@, seq![], seq!["-c:v"@, "libvpx-vp9"@, "-c:a"@, "libopus"@, "-crf"@, "30"@, "-b:v"@, "0"@]),
        target("avi"@, "AVI MPEG-4/MP3"@, "avi"@, seq![], seq!["-c:v"@, "mpeg4"@, "-c:a"@, "mp3"@]),
        target("mov"@, "MOV H.264/AAC"@, "mov"@, seq![], seq!["-c:v"@, "libx264"@, "-preset"@, "fast"@, "-c:a"@, "aac"@]),
        target("wmv"@, "WMV WMV2/WMAv2"@, "wmv"@, seq![], seq!["-c:v"@, "wmv2"@, "-c:a"@, "wmav2"@]),
        target("flv"@, "FLV H.264/MP3"@, "flv"@, seq![], seq!["-c:v"@, "libx264"@, "-c:a"@, "mp3"@, "-flvflags"@, "add_keyframe_index"@]),
        target("m4v"@, "M4V H.264/AAC"@, "m4v"@, seq![], seq!["-c:v"@, "libx264"@, "-preset"@, "fast"@, "-c:a"@, "aac"@, "-movflags"@, "+faststart"@]),
        target("ogv"@, "OGV Theora/Vorbis"@, "ogv"@, seq![], seq!["-c:v"@, "libtheora"@, "-c:a"@, "libvorbis"@]),
        target("mpg"@, "MPG MPEG-2/MP2"@, "mpg"@, seq![], seq!["-c:v"@, "mpeg2video"@, "-c:a"@, "mp2"@]),
        target("ts"@, "MPEG-TS H.264/AAC"@, "ts"@, seq![], seq!["-c:v"@, "libx264"@, "-preset"@, "fast"@, "-c:a"@, "aac"@]),
        target("3gp"@, "3GP H.263/AAC"@, "3gp"@, seq![], seq!["-c:v"@, "h263"@, "-c:a"@, "aac"@]),
        target("3g2"@, "3G2 H.263/AAC"@, "3g2"@, seq![], seq!["-c:v"@, "h263"@, "-c:a"@, "aac"@]),
        target("gif"@, "GIF animated (10fps, 480w)"@, "gif"@, seq![], seq!["-vf"@, "fps=10,scale=480:-1"@]),
        target("dv"@, "DV DV/PCM"@, "dv"@, seq![], seq!["-c:v"@, "dvvideo"@, "-c:a"@, "pcm_s16le"@]),
        target("m2ts"@, "M2TS H.264/AAC"@, "m2ts"@, seq![], seq!["-c:v"@, "libx264"@, "-preset"@, "fast"@, "-c:a"@, "aac"@]),
        target("vob"@, "VOB MPEG-2/AC3"@, "vob"@, seq![], seq!["-c:v"@, "mpeg2video"@, "-c:a"@, "ac3"@]),
        target("av1"@, "AV1 AV1/Opus (slow)"@, "mkv"@, seq![], seq!["-c:v"@, "libaom-av1"@, "-crf"@, "30"@, "-c:a"@, "libopus"@, "-cpu-used"@, "4"@]),
        target("mxf"@, "MXF MPEG-2/PCM"@, "mxf"@, seq![], seq!["-c:v"@, "mpeg2video"@, "-c:a"@, "pcm_s16le"@]),
        target("dnxhd"@, "DNxHD (professional)"@, "dnxhd"@, seq![], seq!["-c:v"@, "dnxhd"@, "-b:v"@, "36M"@, "-pix_fmt"@, "yuv422p"@]),
        target("mjpeg"@, "Motion JPEG AVI"@, "mjpeg"@, seq![], seq!["-c:v"@, "mjpeg"@, "-q:v"@, "3"@]),
        target("nut"@, "NUT H.264/AAC"@, "nut"@, seq![], seq!["-c:v"@, "libx264"@, "-preset"@, "fast"@, "-c:a"@, "aac"@]),
        target("psp"@, "PSP MP4 H.264/AAC"@, "mp4"@, seq![], seq!["-c:v"@, "libx264"@, "-preset"@, "fast"@, "-c:a"@, "aac"@, "-f"@, "psp"@]),
    ]
}

/// Video input to an audio file: the audio track is extracted.
pub open spec fn video_extractions() -> Seq<TargetSpec> {
    seq![
        target("mp3"@, "MP3 audio extract"@, "mp3"@, seq![], seq!["-vn"@, "-c:a"@, "libmp3lame"@, "-q:a"@, "2"@]),
        target("wav"@, "WAV PCM audio extract"@, "wav"@, seq![], seq!["-vn"@, "-c:a"@, "pcm_s16le"@]),
        target("flac"@, "FLAC lossless audio extract"@, "flac"@, seq![], seq!["-vn"@, "-c:a"@, "flac"@]),
        target("ogg"@, "OGG Vorbis audio extract"@, "ogg"@, seq![], seq!["-vn"@, "-c:a"@, "libvorbis"@]),
        target("aac"@, "AAC audio extract (192k)"@, "aac"@, seq![], seq!["-vn"@, "-c:a"@, "aac"@, "-b:a"@, "192k"@]),
        target("adts"@, "ADTS AAC audio extract"@, "adts"@, seq![], seq!["-vn"@, "-c:a"@, "aac"@]),
        target("opus"@, "Opus audio extract"@, "opus"@, seq![], seq!["-vn"@, "-c:a"@, "libopus"@]),
        target("wma"@, "WMA audio extract"@, "wma"@, seq![], seq!["-vn"@, "-c:a"@, "wmav2"@]),
        target("m4a"@, "M4A AAC audio extract"@, "m4a"@, seq![], seq!["-vn"@, "-c:a"@, "aac"@, "-b:a"@, "192k"@, "-movflags"@, "+faststart"@]),
        target("ac3"@, "AC3 Dolby audio extract"@, "ac3"@, seq![], seq!["-vn"@, "-c:a"@, "ac3"@]),
        target("eac3"@, "E-AC-3 Dolby Digital+ extract"@, "eac3"@, seq![], seq!["-vn"@, "-c:a"@, "eac3"@]),
        target("truehd"@, "TrueHD audio extract"@, "truehd"@, seq![], seq!["-vn"@, "-c:a"@, "truehd"@]),
        target("aiff"@, "AIFF PCM audio extract"@, "aiff"@, seq![], seq!["-vn"@, "-c:a"@, "pcm_s16be"@]),
        target("au"@, "AU Sun audio extract"@, "au"@, seq![], seq!["-vn"@, "-c:a"@, "pcm_s16be"@]),
        target("caf"@, "CAF Core Audio extract"@, "caf"@, seq![], seq!["-vn"@, "-c:a"@, "pcm_s16le"@]),
        target("voc"@, "VOC Creative Voice extract"@, "voc"@, seq![], seq!["-vn"@, "-c:a"@, "pcm_s16le"@]),
        target("w64"@, "Wave64 audio extract"@, "w64"@, seq![], seq!["-vn"@, "-c:a"@, "pcm_s16le"@]),
        target("tta"@, "TTA True Audio extract"@, "tta"@, seq![], seq!["-vn"@, "-c:a"@, "tta"@]),
        target("amr"@, "AMR narrowband extract"@, "amr"@, seq![], seq!["-vn"@, "-c:a"@, "libopencore_amrnb"@, "-ar"@, "8000"@, "-ac"@, "1"@]),
        target("gsm"@, "GSM audio extract"@, "gsm"@, seq![], seq!["-vn"@, "-c:a"@, "gsm"@, "-ar"@, "8000"@, "-ac"@, "1"@]),
        target("ircam"@, "IRCAM audio extract"@, "ircam"@, seq![], seq!["-vn"@, "-c:a"@, "pcm_s16le"@]),
        target("sox"@, "SoX native audio extract"@, "sox"@, seq![], seq!["-vn"@, "-c:a"@, "pcm_s32le"@]),
    ]
}

/// Audio input to an audio format.
pub open spec fn audio_targets() -> Seq<TargetSpec> {
    seq![
        target("mp3"@, "MP3 LAME V2"@, "mp3"@, seq![], seq!["-c:a"@, "libmp3lame"@, "-q:a"@, "2"@]),
        target("wav"@, "WAV PCM 16-bit"@, "wav"@, seq![], seq!["-c:a"@, "pcm_s16le"@]),
        target("flac"@, "FLAC lossless"@, "flac"@, seq![], seq!["-c:a"@, "flac"@]),
        target("ogg"@, "OGG Vorbis"@, "ogg"@, seq![], seq!["-c:a"@, "libvorbis"@]),
        target("aac"@, "AAC 192k"@, "aac"@, seq![], seq!["-c:a"@, "aac"@, "-b:a"@, "192k"@]),
        target("adts"@, "ADTS AAC"@, "adts"@, seq![], seq!["-c:a"@, "aac"@]),
        target("opus"@, "Opus"@, "opus"@, seq![], seq!["-c:a"@, "libopus"@]),
        target("spx"@, "Ogg Speex"@, "spx"@, seq![], seq!["-c:a"@, "libspeex"@]),
        target("wma"@, "WMA Windows Media Audio"@, "wma"@, seq![], seq!["-c:a"@, "wmav2"@]),
        target("m4a"@, "M4A AAC in MP4"@, "m4a"@, seq![], seq!["-c:a"@, "aac"@, "-b:a"@, "192k"@, "-movflags"@, "+faststart"@]),
        target("ac3"@, "AC3 Dolby 448k"@, "ac3"@, seq![], seq!["-c:a"@, "ac3"@, "-b:a"@, "448k"@]),
        target("eac3"@, "E-AC-3 Dolby Digital+"@, "eac3"@, seq![], seq!["-c:a"@, "eac3"@]),
        target("truehd"@, "TrueHD"@, "truehd"@, seq![], seq!["-c:a"@, "truehd"@]),
        target("aiff"@, "AIFF PCM"@, "aiff"@, seq![], seq!["-c:a"@, "pcm_s16be"@]),
        target("au"@, "AU Sun audio"@, "au"@, seq![], seq!["-c:a"@, "pcm_s16be"@]),
        target("caf"@, "CAF Core Audio Format"@, "caf"@, seq![], seq!["-c:a"@, "pcm_s16le"@]),
        target("voc"@, "VOC Creative Voice"@, "voc"@, seq![], seq!["-c:a"@, "pcm_s16le"@]),
        target("w64"@, "Wave64 Sony"@, "w64"@, seq![], seq!["-c:a"@, "pcm_s16le"@]),
        target("tta"@, "TTA True Audio"@, "tta"@, seq![], seq!["-c:a"@, "tta"@]),
        target("amr"@, "AMR narrowband"@, "amr"@, seq![], seq!["-c:a"@, "libopencore_amrnb"@, "-ar"@, "8000"@, "-ac"@, "1"@]),
        target("gsm"@, "GSM"@, "gsm"@, seq![], seq!["-c:a"@, "gsm"@, "-ar"@, "8000"@, "-ac"@, "1"@]),
        target("ircam"@, "IRCAM"@, "ircam"@, seq![], seq!["-c:a"@, "pcm_s16le"@]),
        target("sox"@, "SoX native"@, "sox"@, seq![], seq!["-c:a"@, "pcm_s32le"@]),
        target("oga"@, "OGA OGG audio"@, "oga"@, seq![], seq!["-c:a"@, "libvorbis"@]),
    ]
}

/// Image input to an image format.
pub open spec fn image_targets() -> Seq<TargetSpec> {
    seq![
        target("jpg"@, "JPEG"@, "jpg"@, seq![], seq!["-q:v"@, "2"@]),
        target("png"@, "PNG"@, "png"@, seq![], seq!["-c:v"@, "png"@]),
        target("apng"@, "APNG animated PNG"@, "apng"@, seq![], seq!["-c:v"@, "apng"@]),
        target("webp"@, "WebP"@, "webp"@, seq![], seq!["-c:v"@, "libwebp"@]),
        target("avif"@, "AVIF (AV1 image)"@, "avif"@, seq![], seq!["-c:v"@, "libaom-av1"@, "-still-picture"@, "1"@, "-crf"@, "30"@]),
        target("bmp"@, "BMP bitmap"@, "bmp"@, seq![], seq![]),
        target("tiff"@, "TIFF"@, "tiff"@, seq![], seq!["-c:v"@, "tiff"@]),
        target("gif"@, "GIF"@, "gif"@, seq![], seq![]),
        target("ico"@, "ICO Windows Icon"@, "ico"@, seq![], seq![]),
        target("ppm"@, "PPM portable pixmap"@, "ppm"@, seq![], seq![]),
        target("pgm"@, "PGM portable graymap"@, "pgm"@, seq![], seq![]),
        target("pbm"@, "PBM portable bitmap"@, "pbm"@, seq![], seq![]),
        target("pam"@, "PAM portable arbitrary map"@, "pam"@, seq![], seq![]),
        target("pcx"@, "PCX PiCture eXchange"@, "pcx"@, seq![], seq![]),
        target("tga"@, "TGA Truevision Targa"@, "tga"@, seq![], seq![]),
        target("xbm"@, "XBM X BitMap"@, "xbm"@, seq![], seq![]),
        target("xwd"@, "XWD X Window Dump"@, "xwd"@, seq![], seq![]),
        target("dpx"@, "DPX Digital Picture Exchange"@, "dpx"@, seq![], seq![]),
        target("sgi"@, "SGI Silicon Graphics Image"@, "sgi"@, seq![], seq![]),
        target("jp2"@, "JP2 JPEG 2000"@, "jp2"@, seq![], seq!["-c:v"@, "jpeg2000"@]),
        target("hdr"@, "HDR Radiance RGBE"@, "hdr"@, seq![], seq![]),
        target("sun"@, "SUN Sun Rasterfile"@, "sun"@, seq![], seq![]),
        target("wbmp"@, "WBMP Wireless BMP"@, "wbmp"@, seq![], seq![]),
        target("pfm"@, "PFM Portable FloatMap"@, "pfm"@, seq![], seq![]),
        target("fits"@, "FITS Flexible Image Transport"@, "fits"@, seq![], seq![]),
    ]
}

/// Image input to a video: a slideshow of the still image.
pub open spec fn image_to_video_targets() -> Seq<TargetSpec> {
    seq![
        target("mp4"@, "Slideshow MP4 H.264/AAC (5s)"@, "mp4"@, seq!["-loop"@, "1"@], seq!["-c:v"@, "libx264"@, "-preset"@, "fast"@, "-c:a"@, "aac"@, "-t"@, "5"@, "-movflags"@, "+faststart"@]),
        target("mkv"@, "Slideshow MKV H.264/AAC (5s)"@, "mkv"@, seq!["-loop"@, "1"@], seq!["-c:v"@, "libx264"@, "-preset"@, "fast"@, "-c:a"@, "aac"@, "-t"@, "5"@]),
        target("webm"@, "Slideshow WebM VP8/Vorbis (5s)"@, "webm"@, seq!["-loop"@, "1"@], seq!["-c:v"@, "libvpx"@, "-c:a"@, "libvorbis"@, "-t"@, "5"@]),
        target("vp9"@, "Slideshow WebM VP9/Opus (5s)"@, "webm"@, seq!["-loop"@, "1"@], seq!["-c:v"@, "libvpx-vp9"@, "-c:a"@, "libopus"@, "-crf"@, "30"@, "-b:v"@, "0"@, "-t"@, "5"@]),
        target("avi"@, "Slideshow AVI MPEG-4/MP3 (5s)"@, "avi"@, seq!["-loop"@, "1"@], seq!["-c:v"@, "mpeg4"@, "-c:a"@, "mp3"@, "-t"@, "5"@]),
        target("mov"@, "Slideshow MOV H.264/AAC (5s)"@, "mov"@, seq!["-loop"@, "1"@], seq!["-c:v"@, "libx264"@, "-preset"@, "fast"@, "-c:a"@, "aac"@, "-t"@, "5"@]),
        target("gif"@, "Animated GIF from image (2s)"@, "gif"@, seq!["-loop"@, "1"@], seq!["-vf"@, "fps=10,scale=480:-1"@, "-t"@, "2"@]),
    ]
}

/// Audio input to a video container, with a blank black picture.
pub open spec fn audio_to_video_targets() -> Seq<TargetSpec> {
    seq![
        target("mp4"@, "Audio MP4 (blank video)"@, "mp4"@, seq!["-f"@, "lavfi"@, "-i"@, "color=c=black:s=640x480:r=1"@, "-shortest"@], seq!["-c:v"@, "libx264"@, "-preset"@, "fast"@, "-c:a"@, "copy"@]),
        target("mkv"@, "Audio MKV (blank video)"@, "mkv"@, seq!["-f"@, "lavfi"@, "-i"@, "color=c=black:s=640x480:r=1"@, "-shortest"@], seq!["-c:v"@, "libx264"@, "-preset"@, "fast"@, "-c:a"@, "copy"@]),
        target("webm"@, "Audio WebM (blank video)"@, "webm"@, seq!["-f"@, "lavfi"@, "-i"@, "color=c=black:s=640x480:r=1"@, "-shortest"@], seq!["-c:v"@, "libvpx"@, "-c:a"@, "copy"@]),
        target("avi"@, "Audio AVI (blank video)"@, "avi"@, seq!["-f"@, "lavfi"@, "-i"@, "color=c=black:s=640x480:r=1"@, "-shortest"@], seq!["-c:v"@, "mpeg4"@, "-c:a"@, "copy"@]),
        target("mov"@, "Audio MOV (blank video)"@, "mov"@, seq!["-f"@, "lavfi"@, "-i"@, "color=c=black:s=640x480:r=1"@, "-shortest"@], seq!["-c:v"@, "libx264"@, "-preset"@, "fast"@, "-c:a"@, "copy"@]),
        target("vp9"@, "Audio WebM (blank video)"@, "webm"@, seq!["-f"@, "lavfi"@, "-i"@, "color=c=black:s=640x480:r=1"@, "-shortest"@], seq!["-c:v"@, "libvpx-vp9"@, "-c:a"@, "copy"@]),
    ]
}

/// The targets of the same kind of media as the input (for video, the video
/// containers followed by the audio extractions).
pub open spec fn spec_targets(media_type: MediaType) -> Seq<TargetSpec> {
    match media_type {
        MediaType::Video => video_containers() + video_extractions(),
        MediaType::Audio => audio_targets(),
        MediaType::Image => image_targets(),
    }
}

/// The targets that turn the input into another kind of media.
pub open spec fn spec_cross_targets(media_type: MediaType) -> Seq<TargetSpec> {
    match media_type {
        MediaType::Image => image_to_video_targets(),
        MediaType::Audio => audio_to_video_targets(),
        MediaType::Video => Seq::empty(),
    }
}

fn video_table() -> (r: &'static [FormatTarget])
    ensures
        targets_view(r@) == video_containers() + video_extractions(),
{
    let r: &'static [FormatTarget] = &[
        FormatTarget { ext: "mp4", label: "MP4 H.264/AAC", output_ext: "mp4",
            pre_args: &[],
            post_args: &["-c:v", "libx264", "-preset", "fast", "-c:a", "aac", "-movflags", "+faststart"] },
        FormatTarget { ext: "h265", label: "MP4 H.265/HEVC/AAC", output_ext: "mp4",
            pre_args: &[],
            post_args: &["-c:v", "libx265", "-preset", "fast", "-c:a", "aac", "-movflags", "+faststart"] },
        FormatTarget { ext: "mkv", label: "MKV (stream copy, lossless)", output_ext: "mkv",
            pre_args: &[],
            post_args: &["-c", "copy"] },
        FormatTarget { ext: "webm", label: "WebM VP8/Vorbis", output_ext: "webm",
            pre_args: &[],
            post_args: &["-c:v", "libvpx", "-c:a", "libvorbis"] },
        FormatTarget { ext: "vp9", label: "WebM VP9/Opus", output_ext: "webm",
            pre_args: &[],
            post_args: &["-c:v", "libvpx-vp9", "-c:a", "libopus", "-crf", "30", "-b:v", "0"] },
        FormatTarget { ext: "avi", label: "AVI MPEG-4/MP3", output_ext: "avi",
            pre_args: &[],
            post_args: &["-c:v", "mpeg4", "-c:a", "mp3"] },
        FormatTarget { ext: "mov", label: "MOV H.264/AAC", output_ext: "mov",
            pre_args: &[],
            post_args: &["-c:v", "libx264", "-preset", "fast", "-c:a", "aac"] },
        FormatTarget { ext: "wmv", label: "WMV WMV2/WMAv2", output_ext: "wmv",
            pre_args: &[],
            post_args: &["-c:v", "wmv2", "-c:a", "wmav2"] },
        FormatTarget { ext: "flv", label: "FLV H.264/MP3", output_ext: "flv",
            pre_args: &[],
            post_args: &["-c:v", "libx264", "-c:a", "mp3", "-flvflags", "add_keyframe_index"] },
        FormatTarget { ext: "m4v", label: "M4V H.264/AAC", output_ext: "m4v",
            pre_args: &[],
            post_args: &["-c:v", "libx264", "-preset", "fast", "-c:a", "aac", "-movflags", "+faststart"] },
        FormatTarget { ext: "ogv", label: "OGV Theora/Vorbis", output_ext: "ogv",
            pre_args: &[],
            post_args: &["-c:v", "libtheora", "-c:a", "libvorbis"] },
        FormatTarget { ext: "mpg", label: "MPG MPEG-2/MP2", output_ext: "mpg",
            pre_args: &[],
            post_args: &["-c:v", "mpeg2video", "-c:a", "mp2"] },
        FormatTarget { ext: "ts", label: "MPEG-TS H.264/AAC", output_ext: "ts",
            pre_args: &[],
            post_args: &["-c:v", "libx264", "-preset", "fast", "-c:a", "aac"] },
        FormatTarget { ext: "3gp", label: "3GP H.263/AAC", output_ext: "3gp",
            pre_args: &[],
            post_args: &["-c:v", "h263", "-c:a", "aac"] },
        FormatTarget { ext: "3g2", label: "3G2 H.263/AAC", output_ext: "3g2",
            pre_args: &[],
            post_args: &["-c:v", "h263", "-c:a", "aac"] },
        FormatTarget { ext: "gif", label: "GIF animated (10fps, 480w)", output_ext: "gif",
            pre_args: &[],
            post_args: &["-vf", "fps=10,scale=480:-1"] },
        FormatTarget { ext: "dv", label: "DV DV/PCM", output_ext: "dv",
            pre_args: &[],
            post_args: &["-c:v", "dvvideo", "-c:a", "pcm_s16le"] },
        FormatTarget { ext: "m2ts", label: "M2TS H.264/AAC", output_ext: "m2ts",
            pre_args: &[],
            post_args: &["-c:v", "libx264", "-preset", "fast", "-c:a", "aac"] },
        FormatTarget { ext: "vob", label: "VOB MPEG-2/AC3", output_ext: "vob",
            pre_args: &[],
            post_args: &["-c:v", "mpeg2video", "-c:a", "ac3"] },
        FormatTarget { ext: "av1", label: "AV1 AV1/Opus (slow)", output_ext: "mkv",
            pre_args: &[],
            post_args: &["-c:v", "libaom-av1", "-crf", "30", "-c:a", "libopus", "-cpu-used", "4"] },
        FormatTarget { ext: "mxf", label: "MXF MPEG-2/PCM", output_ext: "mxf",
            pre_args: &[],
            post_args: &["-c:v", "mpeg2video", "-c:a", "pcm_s16le"] },
        FormatTarget { ext: "dnxhd", label: "DNxHD (professional)", output_ext: "dnxhd",
            pre_args: &[],
            post_args: &["-c:v", "dnxhd", "-b:v", "36M", "-pix_fmt", "yuv422p"] },
        FormatTarget { ext: "mjpeg", label: "Motion JPEG AVI", output_ext: "mjpeg",
            pre_args: &[],
            post_args: &["-c:v", "mjpeg", "-q:v", "3"] },
        FormatTarget { ext: "nut", label: "NUT H.264/AAC", output_ext: "nut",
            pre_args: &[],
            post_args: &["-c:v", "libx264", "-preset", "fast", "-c:a", "aac"] },
        FormatTarget { ext: "psp", label: "PSP MP4 H.264/AAC", output_ext: "mp4",
            pre_args: &[],
            post_args: &["-c:v", "libx264", "-preset", "fast", "-c:a", "aac", "-f", "psp"] },
        FormatTarget { ext: "mp3", label: "MP3 audio extract", output_ext: "mp3",
            pre_args: &[],
            post_args: &["-vn", "-c:a", "libmp3lame", "-q:a", "2"] },
        FormatTarget { ext: "wav", label: "WAV PCM audio extract", output_ext: "wav",
            pre_args: &[],
            post_args: &["-vn", "-c:a", "pcm_s16le"] },
        FormatTarget { ext: "flac", label: "FLAC lossless audio extract", output_ext: "flac",
            pre_args: &[],
            post_args: &["-vn", "-c:a", "flac"] },
        FormatTarget { ext: "ogg", label: "OGG Vorbis audio extract", output_ext: "ogg",
            pre_args: &[],
            post_args: &["-vn", "-c:a", "libvorbis"] },
        FormatTarget { ext: "aac", label: "AAC audio extract (192k)", output_ext: "aac",
            pre_args: &[],
            post_args: &["-vn", "-c:a", "aac", "-b:a", "192k"] },
        FormatTarget { ext: "adts", label: "ADTS AAC audio extract", output_ext: "adts",
            pre_args: &[],
            post_args: &["-vn", "-c:a", "aac"] },
        FormatTarget { ext: "opus", label: "Opus audio extract", output_ext: "opus",
            pre_args: &[],
            post_args: &["-vn", "-c:a", "libopus"] },
        FormatTarget { ext: "wma", label: "WMA audio extract", output_ext: "wma",
            pre_args: &[],
            post_args: &["-vn", "-c:a", "wmav2"] },
        FormatTarget { ext: "m4a", label: "M4A AAC audio extract", output_ext: "m4a",
            pre_args: &[],
            post_args: &["-vn", "-c:a", "aac", "-b:a", "192k", "-movflags", "+faststart"] },
        FormatTarget { ext: "ac3", label: "AC3 Dolby audio extract", output_ext: "ac3",
            pre_args: &[],
            post_args: &["-vn", "-c:a", "ac3"] },
        FormatTarget { ext: "eac3", label: "E-AC-3 Dolby Digital+ extract", output_ext: "eac3",
            pre_args: &[],
            post_args: &["-vn", "-c:a", "eac3"] },
        FormatTarget { ext: "truehd", label: "TrueHD audio extract", output_ext: "truehd",
            pre_args: &[],
            post_args: &["-vn", "-c:a", "truehd"] },
        FormatTarget { ext: "aiff", label: "AIFF PCM audio extract", output_ext: "aiff",
            pre_args: &[],
            post_args: &["-vn", "-c:a", "pcm_s16be"] },
        FormatTarget { ext: "au", label: "AU Sun audio extract", output_ext: "au",
            pre_args: &[],
            post_args: &["-vn", "-c:a", "pcm_s16be"] },
        FormatTarget { ext: "caf", label: "CAF Core Audio extract", output_ext: "caf",
            pre_args: &[],
            post_args: &["-vn", "-c:a", "pcm_s16le"] },
        FormatTarget { ext: "voc", label: "VOC Creative Voice extract", output_ext: "voc",
            pre_args: &[],
            post_args: &["-vn", "-c:a", "pcm_s16le"] },
        FormatTarget { ext: "w64", label: "Wave64 audio extract", output_ext: "w64",
            pre_args: &[],
            post_args: &["-vn", "-c:a", "pcm_s16le"] },
        FormatTarget { ext: "tta", label: "TTA True Audio extract", output_ext: "tta",
            pre_args: &[],
            post_args: &["-vn", "-c:a", "tta"] },
        FormatTarget { ext: "amr", label: "AMR narrowband extract", output_ext: "amr",
            pre_args: &[],
            post_args: &["-vn", "-c:a", "libopencore_amrnb", "-ar", "8000", "-ac", "1"] },
        FormatTarget { ext: "gsm", label: "GSM audio extract", output_ext: "gsm",
            pre_args: &[],
            post_args: &["-vn", "-c:a", "gsm", "-ar", "8000", "-ac", "1"] },
        FormatTarget { ext: "ircam", label: "IRCAM audio extract", output_ext: "ircam",
            pre_args: &[],
            post_args: &["-vn", "-c:a", "pcm_s16le"] },
        FormatTarget { ext: "sox", label: "SoX native audio extract", output_ext: "sox",
            pre_args: &[],
            post_args: &["-vn", "-c:a", "pcm_s32le"] },
    ];
    assert(targets_view(r@) =~~= video_containers() + video_extractions());
    r
}

fn audio_table() -> (r: &'static [FormatTarget])
    ensures
        targets_view(r@) == audio_targets(),
{
    let r: &'static [FormatTarget] = &[
        FormatTarget { ext: "mp3", label: "MP3 LAME V2", output_ext: "mp3",
            pre_args: &[],
            post_args: &["-c:a", "libmp3lame", "-q:a", "2"] },
        FormatTarget { ext: "wav", label: "WAV PCM 16-bit", output_ext: "wav",
            pre_args: &[],
            post_args: &["-c:a", "pcm_s16le"] },
        FormatTarget { ext: "flac", label: "FLAC lossless", output_ext: "flac",
            pre_args: &[],
            post_args: &["-c:a", "flac"] },
        FormatTarget { ext: "ogg", label: "OGG Vorbis", output_ext: "ogg",
            pre_args: &[],
            post_args: &["-c:a", "libvorbis"] },
        FormatTarget { ext: "aac", label: "AAC 192k", output_ext: "aac",
            pre_args: &[],
            post_args: &["-c:a", "aac", "-b:a", "192k"] },
        FormatTarget { ext: "adts", label: "ADTS AAC", output_ext: "adts",
            pre_args: &[],
            post_args: &["-c:a", "aac"] },
        FormatTarget { ext: "opus", label: "Opus", output_ext: "opus",
            pre_args: &[],
            post_args: &["-c:a", "libopus"] },
        FormatTarget { ext: "spx", label: "Ogg Speex", output_ext: "spx",
            pre_args: &[],
            post_args: &["-c:a", "libspeex"] },
        FormatTarget { ext: "wma", label: "WMA Windows Media Audio", output_ext: "wma",
            pre_args: &[],
            post_args: &["-c:a", "wmav2"] },
        FormatTarget { ext: "m4a", label: "M4A AAC in MP4", output_ext: "m4a",
            pre_args: &[],
            post_args: &["-c:a", "aac", "-b:a", "192k", "-movflags", "+faststart"] },
        FormatTarget { ext: "ac3", label: "AC3 Dolby 448k", output_ext: "ac3",
            pre_args: &[],
            post_args: &["-c:a", "ac3", "-b:a", "448k"] },
        FormatTarget { ext: "eac3", label: "E-AC-3 Dolby Digital+", output_ext: "eac3",
            pre_args: &[],
            post_args: &["-c:a", "eac3"] },
        FormatTarget { ext: "truehd", label: "TrueHD", output_ext: "truehd",
            pre_args: &[],
            post_args: &["-c:a", "truehd"] },
        FormatTarget { ext: "aiff", label: "AIFF PCM", output_ext: "aiff",
            pre_args: &[],
            post_args: &["-c:a", "pcm_s16be"] },
        FormatTarget { ext: "au", label: "AU Sun audio", output_ext: "au",
            pre_args: &[],
            post_args: &["-c:a", "pcm_s16be"] },
        FormatTarget { ext: "caf", label: "CAF Core Audio Format", output_ext: "caf",
            pre_args: &[],
            post_args: &["-c:a", "pcm_s16le"] },
        FormatTarget { ext: "voc", label: "VOC Creative Voice", output_ext: "voc",
            pre_args: &[],
            post_args: &["-c:a", "pcm_s16le"] },
        FormatTarget { ext: "w64", label: "Wave64 Sony", output_ext: "w64",
            pre_args: &[],
            post_args: &["-c:a", "pcm_s16le"] },
        FormatTarget { ext: "tta", label: "TTA True Audio", output_ext: "tta",
            pre_args: &[],
            post_args: &["-c:a", "tta"] },
        FormatTarget { ext: "amr", label: "AMR narrowband", output_ext: "amr",
            pre_args: &[],
            post_args: &["-c:a", "libopencore_amrnb", "-ar", "8000", "-ac", "1"] },
        FormatTarget { ext: "gsm", label: "GSM", output_ext: "gsm",
            pre_args: &[],
            post_args: &["-c:a", "gsm", "-ar", "8000", "-ac", "1"] },
        FormatTarget { ext: "ircam", label: "IRCAM", output_ext: "ircam",
            pre_args: &[],
            post_args: &["-c:a", "pcm_s16le"] },
        FormatTarget { ext: "sox", label: "SoX native", output_ext: "sox",
            pre_args: &[],
            post_args: &["-c:a", "pcm_s32le"] },
        FormatTarget { ext: "oga", label: "OGA OGG audio", output_ext: "oga",
            pre_args: &[],
            post_args: &["-c:a", "libvorbis"] },
    ];
    assert(targets_view(r@) =~~= audio_targets());
    r
}

fn image_table() -> (r: &'static [FormatTarget])
    ensures
        targets_view(r@) == image_targets(),
{
    let r: &'static [FormatTarget] = &[
        FormatTarget { ext: "jpg", label: "JPEG", output_ext: "jpg",
            pre_args: &[],
            post_args: &["-q:v", "2"] },
        FormatTarget { ext: "png", label: "PNG", output_ext: "png",
            pre_args: &[],
            post_args: &["-c:v", "png"] },
        FormatTarget { ext: "apng", label: "APNG animated PNG", output_ext: "apng",
            pre_args: &[],
            post_args: &["-c:v", "apng"] },
        FormatTarget { ext: "webp", label: "WebP", output_ext: "webp",
            pre_args: &[],
            post_args: &["-c:v", "libwebp"] },
        FormatTarget { ext: "avif", label: "AVIF (AV1 image)", output_ext: "avif",
            pre_args: &[],
            post_args: &["-c:v", "libaom-av1", "-still-picture", "1", "-crf", "30"] },
        FormatTarget { ext: "bmp", label: "BMP bitmap", output_ext: "bmp",
            pre_args: &[],
            post_args: &[] },
        FormatTarget { ext: "tiff", label: "TIFF", output_ext: "tiff",
            pre_args: &[],
            post_args: &["-c:v", "tiff"] },
        FormatTarget { ext: "gif", label: "GIF", output_ext: "gif",
            pre_args: &[],
            post_args: &[] },
        FormatTarget { ext: "ico", label: "ICO Windows Icon", output_ext: "ico",
            pre_args: &[],
            post_args: &[] },
        FormatTarget { ext: "ppm", label: "PPM portable pixmap", output_ext: "ppm",
            pre_args: &[],
            post_args: &[] },
        FormatTarget { ext: "pgm", label: "PGM portable graymap", output_ext: "pgm",
            pre_args: &[],
            post_args: &[] },
        FormatTarget { ext: "pbm", label: "PBM portable bitmap", output_ext: "pbm",
            pre_args: &[],
            post_args: &[] },
        FormatTarget { ext: "pam", label: "PAM portable arbitrary map", output_ext: "pam",
            pre_args: &[],
            post_args: &[] },
        FormatTarget { ext: "pcx", label: "PCX PiCture eXchange", output_ext: "pcx",
            pre_args: &[],
            post_args: &[] },
        FormatTarget { ext: "tga", label: "TGA Truevision Targa", output_ext: "tga",
            pre_args: &[],
            post_args: &[] },
        FormatTarget { ext: "xbm", label: "XBM X BitMap", output_ext: "xbm",
            pre_args: &[],
            post_args: &[] },
        FormatTarget { ext: "xwd", label: "XWD X Window Dump", output_ext: "xwd",
            pre_args: &[],
            post_args: &[] },
        FormatTarget { ext: "dpx", label: "DPX Digital Picture Exchange", output_ext: "dpx",
            pre_args: &[],
            post_args: &[] },
        FormatTarget { ext: "sgi", label: "SGI Silicon Graphics Image", output_ext: "sgi",
            pre_args: &[],
            post_args: &[] },
        FormatTarget { ext: "jp2", label: "JP2 JPEG 2000", output_ext: "jp2",
            pre_args: &[],
            post_args: &["-c:v", "jpeg2000"] },
        FormatTarget { ext: "hdr", label: "HDR Radiance RGBE", output_ext: "hdr",
            pre_args: &[],
            post_args: &[] },
        FormatTarget { ext: "sun", label: "SUN Sun Rasterfile", output_ext: "sun",
            pre_args: &[],
            post_args: &[] },
        FormatTarget { ext: "wbmp", label: "WBMP Wireless BMP", output_ext: "wbmp",
            pre_args: &[],
            post_args: &[] },
        FormatTarget { ext: "pfm", label: "PFM Portable FloatMap", output_ext: "pfm",
            pre_args: &[],
            post_args: &[] },
        FormatTarget { ext: "fits", label: "FITS Flexible Image Transport", output_ext: "fits",
            pre_args: &[],
            post_args: &[] },
    ];
    assert(targets_view(r@) =~~= image_targets());
    r
}

fn image_to_video_table() -> (r: &'static [FormatTarget])
    ensures
        targets_view(r@) == image_to_video_targets(),
{
    let r: &'static [FormatTarget] = &[
        FormatTarget { ext: "mp4", label: "Slideshow MP4 H.264/AAC (5s)", output_ext: "mp4",
            pre_args: &["-loop", "1"],
            post_args: &["-c:v", "libx264", "-preset", "fast", "-c:a", "aac", "-t", "5", "-movflags", "+faststart"] },
        FormatTarget { ext: "mkv", label: "Slideshow MKV H.264/AAC (5s)", output_ext: "mkv",
            pre_args: &["-loop", "1"],
            post_args: &["-c:v", "libx264", "-preset", "fast", "-c:a", "aac", "-t", "5"] },
        FormatTarget { ext: "webm", label: "Slideshow WebM VP8/Vorbis (5s)", output_ext: "webm",
            pre_args: &["-loop", "1"],
            post_args: &["-c:v", "libvpx", "-c:a", "libvorbis", "-t", "5"] },
        FormatTarget { ext: "vp9", label: "Slideshow WebM VP9/Opus (5s)", output_ext: "webm",
            pre_args: &["-loop", "1"],
            post_args: &["-c:v", "libvpx-vp9", "-c:a", "libopus", "-crf", "30", "-b:v", "0", "-t", "5"] },
        FormatTarget { ext: "avi", label: "Slideshow AVI MPEG-4/MP3 (5s)", output_ext: "avi",
            pre_args: &["-loop", "1"],
            post_args: &["-c:v", "mpeg4", "-c:a", "mp3", "-t", "5"] },
        FormatTarget { ext: "mov", label: "Slideshow MOV H.264/AAC (5s)", output_ext: "mov",
            pre_args: &["-loop", "1"],
            post_args: &["-c:v", "libx264", "-preset", "fast", "-c:a", "aac", "-t", "5"] },
        FormatTarget { ext: "gif", label: "Animated GIF from image (2s)", output_ext: "gif",
            pre_args: &["-loop", "1"],
            post_args: &["-vf", "fps=10,scale=480:-1", "-t", "2"] },
    ];
    assert(targets_view(r@) =~~= image_to_video_targets());
    r
}

fn audio_to_video_table() -> (r: &'static [FormatTarget])
    ensures
        targets_view(r@) == audio_to_video_targets(),
{
    let r: &'static [FormatTarget] = &[
        FormatTarget { ext: "mp4", label: "Audio MP4 (blank video)", output_ext: "mp4",
            pre_args: &["-f", "lavfi", "-i", "color=c=black:s=640x480:r=1", "-shortest"],
            post_args: &["-c:v", "libx264", "-preset", "fast", "-c:a", "copy"] },
        FormatTarget { ext: "mkv", label: "Audio MKV (blank video)", output_ext: "mkv",
            pre_args: &["-f", "lavfi", "-i", "color=c=black:s=640x480:r=1", "-shortest"],
            post_args: &["-c:v", "libx264", "-preset", "fast", "-c:a", "copy"] },
        FormatTarget { ext: "webm", label: "Audio WebM (blank video)", output_ext: "webm",
            pre_args: &["-f", "lavfi", "-i", "color=c=black:s=640x480:r=1", "-shortest"],
            post_args: &["-c:v", "libvpx", "-c:a", "copy"] },
        FormatTarget { ext: "avi", label: "Audio AVI (blank video)", output_ext: "avi",
            pre_args: &["-f", "lavfi", "-i", "color=c=black:s=640x480:r=1", "-shortest"],
            post_args: &["-c:v", "mpeg4", "-c:a", "copy"] },
        FormatTarget { ext: "mov", label: "Audio MOV (blank video)", output_ext: "mov",
            pre_args: &["-f", "lavfi", "-i", "color=c=black:s=640x480:r=1", "-shortest"],
            post_args: &["-c:v", "libx264", "-preset", "fast", "-c:a", "copy"] },
        FormatTarget { ext: "vp9", label: "Audio WebM (blank video)", output_ext: "webm",
            pre_args: &["-f", "lavfi", "-i", "color=c=black:s=640x480:r=1", "-shortest"],
            post_args: &["-c:v", "libvpx-vp9", "-c:a", "copy"] },
    ];
    assert(targets_view(r@) =~~= audio_to_video_targets());
    r
}

/// The targets of the same kind of media as the input.
pub fn get_targets(media_type: &MediaType) -> (r: &'static [FormatTarget])
    ensures
        targets_view(r@) == spec_targets(*media_type),
{
    match media_type {
        MediaType::Video => video_table(),
        MediaType::Audio => audio_table(),
        MediaType::Image => image_table(),
    }
}

/// The targets that turn the input into another kind of media.
pub fn get_cross_targets(media_type: &MediaType) -> (r: &'static [FormatTarget])
    ensures
        targets_view(r@) == spec_cross_targets(*media_type),
{
    match media_type {
        MediaType::Image => image_to_video_table(),
        MediaType::Audio => audio_to_video_table(),
        MediaType::Video => {
            let r: &'static [FormatTarget] = &[];
            assert(targets_view(r@) =~~= Seq::<TargetSpec>::empty());
            r
        },
    }
}

// ---------------------------------------------------------------------------
// Looking a target up by name
// ---------------------------------------------------------------------------

/// The first target of `ts` named `ext`, if any.
pub open spec fn lookup(ts: Seq<TargetSpec>, ext: Seq<char>) -> Option<TargetSpec>
    decreases ts.len(),
{
    if ts.len() == 0 {
        None
    } else if ts[0].ext == ext {
        Some(ts[0])
    } else {
        lookup(ts.drop_first(), ext)
    }
}

/// A lookup by name finds a target exactly when some target has that name, and
/// what it finds has that name and is one of the targets.
pub proof fn lemma_lookup(ts: Seq<TargetSpec>, ext: Seq<char>)
    ensures
        lookup(ts, ext) is Some <==> exists|i: int| 0 <= i < ts.len() && #[trigger] ts[i].ext == ext,
        lookup(ts, ext) matches Some(t) ==> t.ext == ext && ts.contains(t),
    decreases ts.len(),
{
    if ts.len() > 0 && ts[0].ext != ext {
        lemma_lookup(ts.drop_first(), ext);
        if exists|i: int| 0 <= i < ts.len() && #[trigger] ts[i].ext == ext {
            let i = choose|i: int| 0 <= i < ts.len() && #[trigger] ts[i].ext == ext;
            assert(ts.drop_first()[i - 1].ext == ext);
        }
        if let Some(t) = lookup(ts, ext) {
            let k = choose|k: int| 0 <= k < ts.drop_first().len() && ts.drop_first()[k] == t;
            assert(ts[k + 1] == t);
        }
        if exists|i: int| 0 <= i < ts.drop_first().len() && #[trigger] ts.drop_first()[i].ext == ext {
            let i = choose|i: int| 0 <= i < ts.drop_first().len() && #[trigger] ts.drop_first()[i].ext == ext;
            assert(ts[i + 1].ext == ext);
        }
    } else if ts.len() > 0 {
        assert(ts[0].ext == ext);
        assert(ts.contains(ts[0]));
    }
}

/// The registry offers 109 conversions in all: 47 for video input (25 video
/// formats and 22 audio extractions), 24 for audio, 25 for images, 7 image
/// slideshows and 6 audio-to-video containers.
pub proof fn lemma_target_count()
    ensures
        video_containers().len() == 25,
        video_extractions().len() == 22,
        audio_targets().len() == 24,
        image_targets().len() == 25,
        image_to_video_targets().len() == 7,
        audio_to_video_targets().len() == 6,
        spec_targets(MediaType::Video).len() + spec_targets(MediaType::Audio).len()
            + spec_targets(MediaType::Image).len() + spec_cross_targets(MediaType::Video).len()
            + spec_cross_targets(MediaType::Audio).len() + spec_cross_targets(MediaType::Image).len()
            == 109,
{
}

/// Every media type has something to convert to.
pub proof fn lemma_targets_nonempty(media_type: MediaType)
    ensures
        spec_targets(media_type).len() > 0,
{
    lemma_target_count();
}

/// The listing shows a header line, a title for each of the six sections, and
/// one line per conversion: 116 lines, 109 of them conversions.
pub proof fn lemma_listing_size()
    ensures
        spec_listing().len() == 7 + 109,
{
    lemma_target_count();
}

/// The first target in `targets` named `ext` (as `targets.iter().find(|t| t.ext == ext)`).
pub fn find_target<'a>(targets: &'a [FormatTarget], ext: &str) -> (r: Option<&'a FormatTarget>)
    ensures
        r matches Some(t) ==> lookup(targets_view(targets@), ext@) == Some(t@),
        r is None ==> lookup(targets_view(targets@), ext@) is None,
{
    let ghost all = targets_view(targets@);
    let n = targets.len();
    let mut i: usize = 0;
    assert(all.skip(0) =~= all);
    while i < n
        invariant
            n == targets@.len(),
            all == targets_view(targets@),
            i <= n,
            lookup(all, ext@) == lookup(all.skip(i as int), ext@),
        decreases n - i,
    {
        let t = &targets[i];
        assert(all.skip(i as int)[0] == t@);
        if str_eq(t.ext, ext) {
            return Some(t);
        }
        assert(all.skip(i as int).drop_first() =~= all.skip(i + 1));
        i = i + 1;
    }
    None
}

/// The target named `ext` for a file of `media_type`: the first of the same-kind
/// targets with that name, else the first such cross-kind target.
pub open spec fn spec_resolve(media_type: MediaType, ext: Seq<char>) -> Option<TargetSpec> {
    match lookup(spec_targets(media_type), ext) {
        Some(t) => Some(t),
        None => lookup(spec_cross_targets(media_type), ext),
    }
}

/// The error that refuses `ext` for files of `media_type`.
pub open spec fn is_unsupported(e: NrError, ext: Seq<char>, media_type: MediaType) -> bool {
    e matches NrError::UnsupportedTarget { ext: e_ext, media_type: m } && e_ext@ == ext
        && m == media_type
}

/// The target named `ext` for a file of `media_type`, searching the same-kind
/// targets first and the cross-kind targets after them.
pub fn resolve_target(media_type: &MediaType, ext: &str) -> (r: Result<&'static FormatTarget, NrError>)
    ensures
        r matches Ok(t) ==> spec_resolve(*media_type, ext@) == Some(t@) && t.ext@ == ext@,
        r matches Err(e) ==> spec_resolve(*media_type, ext@) is None && is_unsupported(e, ext@, *media_type),
{
    proof {
        lemma_lookup(spec_targets(*media_type), ext@);
        lemma_lookup(spec_cross_targets(*media_type), ext@);
    }
    let primary = get_targets(media_type);
    if let Some(t) = find_target(primary, ext) {
        return Ok(t);
    }
    let cross = get_cross_targets(media_type);
    if let Some(t) = find_target(cross, ext) {
        return Ok(t);
    }
    Err(NrError::UnsupportedTarget { ext: String::from_str(ext), media_type: *media_type })
}

// ---------------------------------------------------------------------------
// The listing of every conversion
// ---------------------------------------------------------------------------

/// How a target is named in the listing: `.ext`, or `.ext → .out` when the
/// written file has another extension.
pub open spec fn shown_name(t: TargetSpec) -> Seq<char> {
    if t.output_ext == t.ext {
        "."@ + t.ext
    } else {
        "."@ + t.ext + " \u{2192} ."@ + t.output_ext
    }
}

/// The listing line of a target: with `arrow`, its shown name in a column of
/// 14 characters; else `.ext` with the extension in a column of 13.
pub open spec fn entry_line(arrow: bool, t: TargetSpec) -> Seq<char> {
    if arrow {
        "  "@ + pad_right(shown_name(t), 14) + "  "@ + t.label
    } else {
        "  ."@ + pad_right(t.ext, 13) + "  "@ + t.label
    }
}

/// The listing lines of a run of targets.
pub open spec fn entry_lines(ts: Seq<TargetSpec>, arrow: bool) -> Seq<Seq<char>> {
    ts.map_values(|t: TargetSpec| entry_line(arrow, t))
}

/// A titled section of the listing: its title line, then one line per target.
pub open spec fn section(title: Seq<char>, ts: Seq<TargetSpec>, arrow: bool) -> Seq<Seq<char>> {
    seq![title] + entry_lines(ts, arrow)
}

/// The lines that `nr --list` prints, in order.
pub open spec fn spec_listing() -> Seq<Seq<char>> {
    seq!["\u{2500}\u{2500} Supported Conversions \u{2500}\u{2500}\n"@]
        + section("\u{2550}\u{2550} VIDEO \u{2192} video formats:"@, video_containers(), true)
        + section("\n\u{2550}\u{2550} VIDEO \u{2192} audio extraction:"@, video_extractions(), false)
        + section("\n\u{2550}\u{2550} AUDIO \u{2192} all audio formats:"@, audio_targets(), false)
        + section("\n\u{2550}\u{2550} IMAGE \u{2192} all image formats:"@, image_targets(), false)
        + section("\n\u{2550}\u{2550} IMAGE \u{2192} video slideshow:"@, image_to_video_targets(), true)
        + section(
            "\n\u{2550}\u{2550} AUDIO \u{2192} video container (with blank frame):"@,
            audio_to_video_targets(),
            true,
        )
}

fn shown_name_exec(t: &FormatTarget) -> (r: String)
    ensures
        r@ == shown_name(t@),
{
    let mut s = String::from_str(".");
    s.append(t.ext);
    if !str_eq(t.output_ext, t.ext) {
        s.append(" \u{2192} .");
        s.append(t.output_ext);
    }
    s
}

fn entry_line_exec(t: &FormatTarget, arrow: bool) -> (r: String)
    ensures
        r@ == entry_line(arrow, t@),
{
    if arrow {
        let mut s = String::from_str("  ");
        let name = shown_name_exec(t);
        push_padded(&mut s, name.as_str(), 14);
        s.append("  ");
        s.append(t.label);
        s
    } else {
        let mut s = String::from_str("  .");
        push_padded(&mut s, t.ext, 13);
        s.append("  ");
        s.append(t.label);
        s
    }
}

fn push_entries(lines: &mut Vec<String>, ts: &[FormatTarget], from: usize, to: usize, arrow: bool)
    requires
        from <= to <= ts@.len(),
    ensures
        string_views(final(lines)@) == string_views(old(lines)@) + entry_lines(
            targets_view(ts@).subrange(from as int, to as int),
            arrow,
        ),
{
    let mut i: usize = from;
    while i < to
        invariant
            from <= i <= to <= ts@.len(),
            string_views(lines@) == string_views(old(lines)@) + entry_lines(
                targets_view(ts@).subrange(from as int, i as int),
                arrow,
            ),
        decreases to - i,
    {
        let ghost prev = string_views(lines@);
        let line = entry_line_exec(&ts[i], arrow);
        lines.push(line);
        assert(string_views(lines@) =~= prev.push(line@));
        assert(entry_lines(targets_view(ts@).subrange(from as int, i + 1), arrow) =~= entry_lines(
            targets_view(ts@).subrange(from as int, i as int),
            arrow,
        ).push(entry_line(arrow, ts@[i as int]@)));
        i = i + 1;
    }
}

fn push_line(lines: &mut Vec<String>, s: &str)
    ensures
        string_views(final(lines)@) == string_views(old(lines)@) + seq![s@],
{
    let ghost prev = string_views(lines@);
    lines.push(String::from_str(s));
    assert(string_views(lines@) =~= prev + seq![s@]);
}

/// Appends a titled section made of the targets `ts[from..to]`.
fn push_section(lines: &mut Vec<String>, title: &str, ts: &[FormatTarget], from: usize, to: usize, arrow: bool)
    requires
        from <= to <= ts@.len(),
    ensures
        string_views(final(lines)@) == string_views(old(lines)@) + section(
            title@,
            targets_view(ts@).subrange(from as int, to as int),
            arrow,
        ),
{
    let ghost start = string_views(lines@);
    push_line(lines, title);
    push_entries(lines, ts, from, to, arrow);
    assert(string_views(lines@) =~= start + section(
        title@,
        targets_view(ts@).subrange(from as int, to as int),
        arrow,
    ));
}

/// The lines that `nr --list` prints: every target of every table, by section.
pub fn listing() -> (r: Vec<String>)
    ensures
        string_views(r@) == spec_listing(),
{
    let mut lines: Vec<String> = Vec::new();
    assert(string_views(lines@) =~= Seq::<Seq<char>>::empty());
    push_line(&mut lines, "\u{2500}\u{2500} Supported Conversions \u{2500}\u{2500}\n");
    assert(string_views(lines@) =~= seq!["\u{2500}\u{2500} Supported Conversions \u{2500}\u{2500}\n"@]);
    let video = video_table();
    let ghost vt = targets_view(video@);
    assert(vt.subrange(0, 25) =~= video_containers());
    assert(vt.subrange(25, vt.len() as int) =~= video_extractions());
    push_section(&mut lines, "\u{2550}\u{2550} VIDEO \u{2192} video formats:", video, 0, 25, true);
    push_section(&mut lines, "\n\u{2550}\u{2550} VIDEO \u{2192} audio extraction:", video, 25, video.len(), false);
    let audio = audio_table();
    assert(targets_view(audio@).subrange(0, audio@.len() as int) =~= audio_targets());
    push_section(&mut lines, "\n\u{2550}\u{2550} AUDIO \u{2192} all audio formats:", audio, 0, audio.len(), false);
    let image = image_table();
    assert(targets_view(image@).subrange(0, image@.len() as int) =~= image_targets());
    push_section(&mut lines, "\n\u{2550}\u{2550} IMAGE \u{2192} all image formats:", image, 0, image.len(), false);
    let i2v = image_to_video_table();
    assert(targets_view(i2v@).subrange(0, i2v@.len() as int) =~= image_to_video_targets());
    push_section(&mut lines, "\n\u{2550}\u{2550} IMAGE \u{2192} video slideshow:", i2v, 0, i2v.len(), true);
    let a2v = audio_to_video_table();
    assert(targets_view(a2v@).subrange(0, a2v@.len() as int) =~= audio_to_video_targets());
    push_section(
        &mut lines,
        "\n\u{2550}\u{2550} AUDIO \u{2192} video container (with blank frame):",
        a2v,
        0,
        a2v.len(),
        true,
    );
    lines
}

/// Line `k` of `lines` is `title`, and the lines right after it are `entries`.
pub open spec fn titled_run(lines: Seq<Seq<char>>, k: int, title: Seq<char>, entries: Seq<Seq<char>>) -> bool {
    &&& 0 <= k
    &&& k + 1 + entries.len() <= lines.len()
    &&& lines[k] == title
    &&& lines.subrange(k + 1, k + 1 + entries.len()) == entries
}

/// What `nr --list` shows under each title is what the registry offers for the
/// media type that the title names: under the VIDEO titles the same-kind video
/// targets (the containers, then the audio extractions), under AUDIO and
/// IMAGE the same-kind audio and image targets, and under the slideshow and
/// blank-frame titles the cross-kind targets of images and of audio. Every
/// line is one of these titles or entries, after the heading.
#[verifier::rlimit(40)]
pub proof fn lemma_listing_sections()
    ensures
        spec_listing()[0] == "\u{2500}\u{2500} Supported Conversions \u{2500}\u{2500}\n"@,
        titled_run(
            spec_listing(),
            1,
            "\u{2550}\u{2550} VIDEO \u{2192} video formats:"@,
            entry_lines(spec_targets(MediaType::Video).take(25), true),
        ),
        titled_run(
            spec_listing(),
            27,
            "\n\u{2550}\u{2550} VIDEO \u{2192} audio extraction:"@,
            entry_lines(spec_targets(MediaType::Video).skip(25), false),
        ),
        titled_run(
            spec_listing(),
            50,
            "\n\u{2550}\u{2550} AUDIO \u{2192} all audio formats:"@,
            entry_lines(spec_targets(MediaType::Audio), false),
        ),
        titled_run(
            spec_listing(),
            75,
            "\n\u{2550}\u{2550} IMAGE \u{2192} all image formats:"@,
            entry_lines(spec_targets(MediaType::Image), false),
        ),
        titled_run(
            spec_listing(),
            101,
            "\n\u{2550}\u{2550} IMAGE \u{2192} video slideshow:"@,
            entry_lines(spec_cross_targets(MediaType::Image), true),
        ),
        titled_run(
            spec_listing(),
            109,
            "\n\u{2550}\u{2550} AUDIO \u{2192} video container (with blank frame):"@,
            entry_lines(spec_cross_targets(MediaType::Audio), true),
        ),
        spec_listing().len() == 116,
{
    lemma_target_count();
    let l = spec_listing();
    let v = spec_targets(MediaType::Video);
    assert(v.take(25) =~= video_containers());
    assert(v.skip(25) =~= video_extractions());
    assert(l.subrange(2, 27) =~= entry_lines(v.take(25), true));
    assert(l.subrange(28, 50) =~= entry_lines(v.skip(25), false));
    assert(l.subrange(51, 75) =~= entry_lines(spec_targets(MediaType::Audio), false));
    assert(l.subrange(76, 101) =~= entry_lines(spec_targets(MediaType::Image), false));
    assert(l.subrange(102, 109) =~= entry_lines(spec_cross_targets(MediaType::Image), true));
    assert(l.subrange(110, 116) =~= entry_lines(spec_cross_targets(MediaType::Audio), true));
}

// ---------------------------------------------------------------------------
// Names are unambiguous
// ---------------------------------------------------------------------------

/// The position of the first target of `ts` at or after `start` named `ext`,
/// if any.
pub open spec fn lookup_index_from(ts: Seq<TargetSpec>, ext: Seq<char>, start: int) -> Option<int>
    decreases ts.len() - start,
{
    if start < 0 || start >= ts.len() {
        None
    } else if ts[start].ext == ext {
        Some(start)
    } else {
        lookup_index_from(ts, ext, start + 1)
    }
}

/// The position of the first target of `ts` named `ext`, if any.
pub open spec fn lookup_index(ts: Seq<TargetSpec>, ext: Seq<char>) -> Option<int> {
    lookup_index_from(ts, ext, 0)
}

proof fn lemma_lookup_index_from(ts: Seq<TargetSpec>, ext: Seq<char>, start: int)
    requires
        0 <= start <= ts.len(),
    ensures
        lookup_index_from(ts, ext, start) matches Some(k) ==> {
            &&& start <= k < ts.len()
            &&& ts[k].ext == ext
            &&& lookup(ts.skip(start), ext) == Some(ts[k])
            &&& forall|m: int| start <= m < k ==> #[trigger] ts[m].ext != ext
        },
        lookup_index_from(ts, ext, start) is None ==> lookup(ts.skip(start), ext) is None,
    decreases ts.len() - start,
{
    if start < ts.len() {
        assert(ts.skip(start)[0] == ts[start]);
        if ts[start].ext != ext {
            assert(ts.skip(start).drop_first() =~= ts.skip(start + 1));
            lemma_lookup_index_from(ts, ext, start + 1);
        }
    }
}

/// `lookup_index` gives the first position with the name, and `lookup` the
/// target there.
pub proof fn lemma_lookup_index(ts: Seq<TargetSpec>, ext: Seq<char>)
    ensures
        lookup_index(ts, ext) matches Some(k) ==> {
            &&& 0 <= k < ts.len()
            &&& ts[k].ext == ext
            &&& lookup(ts, ext) == Some(ts[k])
            &&& forall|m: int| 0 <= m < k ==> #[trigger] ts[m].ext != ext
        },
        lookup_index(ts, ext) is None ==> lookup(ts, ext) is None,
{
    assert(ts.skip(0) =~= ts);
    lemma_lookup_index_from(ts, ext, 0);
}

/// In two tables one after the other, a name found in the first is found at
/// the same position; a name absent from the first is found where the second
/// has it, shifted past the first.
pub proof fn lemma_lookup_index_concat(a: Seq<TargetSpec>, b: Seq<TargetSpec>, ext: Seq<char>, j: int)
    requires
        0 <= j < b.len(),
        lookup_index(a, ext) is None,
        lookup_index(b, ext) == Some(j),
    ensures
        lookup_index(a + b, ext) == Some(j + a.len()),
{
    lemma_lookup_index(a, ext);
    lemma_lookup_index(b, ext);
    lemma_lookup_index_unique(a + b, ext, j + a.len());
    assert forall|m: int| 0 <= m < a.len() implies #[trigger] a[m].ext != ext by {
        lemma_lookup(a, ext);
        if a[m].ext == ext {
            assert(a.contains(a[m]));
        }
    }
    assert forall|m: int| 0 <= m < j + a.len() implies #[trigger] (a + b)[m].ext != ext by {
        if m < a.len() {
            assert((a + b)[m] == a[m]);
        } else {
            assert((a + b)[m] == b[m - a.len()]);
        }
    }
}

/// A position holding the name, with no earlier position holding it, is the
/// one `lookup_index` gives.
pub proof fn lemma_lookup_index_unique(ts: Seq<TargetSpec>, ext: Seq<char>, k: int)
    ensures
        (0 <= k < ts.len() && ts[k].ext == ext && forall|m: int| 0 <= m < k ==> #[trigger] ts[m].ext != ext)
            ==> lookup_index(ts, ext) == Some(k),
{
    if 0 <= k < ts.len() && ts[k].ext == ext && forall|m: int| 0 <= m < k ==> #[trigger] ts[m].ext != ext {
        lemma_lookup_index(ts, ext);
        if let Some(k2) = lookup_index(ts, ext) {
            if k2 < k {
                assert(ts[k2].ext != ext);
            } else if k < k2 {
                assert(ts[k].ext != ext);
            }
        } else {
            lemma_lookup(ts, ext);
            assert(ts[k].ext == ext);
        }
    }
}

/// The name of each of the first video containers is found at its own
/// position: checked entry by entry.
#[verifier::rlimit(30)]
proof fn lemma_listed_video_containers_first(i: int)
    requires
        0 <= i < 13,
    ensures
        lookup_index(video_containers(), video_containers()[i].ext) == Some(i),
{
    reveal_strlit("3g2");
    assert("3g2"@ =~= seq!['3', 'g', '2']);
    reveal_strlit("3gp");
    assert("3gp"@ =~= seq!['3', 'g', 'p']);
    reveal_strlit("av1");
    assert("av1"@ =~= seq!['a', 'v', '1']);
    reveal_strlit("avi");
    assert("avi"@ =~= seq!['a', 'v', 'i']);
    reveal_strlit("dnxhd");
    assert("dnxhd"@ =~= seq!['d', 'n', 'x', 'h', 'd']);
    reveal_strlit("dv");
    assert("dv"@ =~= seq!['d', 'v']);
    reveal_strlit("flv");
    assert("flv"@ =~= seq!['f', 'l', 'v']);
    reveal_strlit("gif");
    assert("gif"@ =~= seq!['g', 'i', 'f']);
    reveal_strlit("h265");
    assert("h265"@ =~= seq!['h', '2', '6', '5']);
    reveal_strlit("m2ts");
    assert("m2ts"@ =~= seq!['m', '2', 't', 's']);
    reveal_strlit("m4v");
    assert("m4v"@ =~= seq!['m', '4', 'v']);
    reveal_strlit("mjpeg");
    assert("mjpeg"@ =~= seq!['m', 'j', 'p', 'e', 'g']);
    reveal_strlit("mkv");
    assert("mkv"@ =~= seq!['m', 'k', 'v']);
    reveal_strlit("mov");
    assert("mov"@ =~= seq!['m', 'o', 'v']);
    reveal_strlit("mp4");
    assert("mp4"@ =~= seq!['m', 'p', '4']);
    reveal_strlit("mpg");
    assert("mpg"@ =~= seq!['m', 'p', 'g']);
    reveal_strlit("mxf");
    assert("mxf"@ =~= seq!['m', 'x', 'f']);
    reveal_strlit("nut");
    assert("nut"@ =~= seq!['n', 'u', 't']);
    reveal_strlit("ogv");
    assert("ogv"@ =~= seq!['o', 'g', 'v']);
    reveal_strlit("psp");
    assert("psp"@ =~= seq!['p', 's', 'p']);
    reveal_strlit("ts");
    assert("ts"@ =~= seq!['t', 's']);
    reveal_strlit("vob");
    assert("vob"@ =~= seq!['v', 'o', 'b']);
    reveal_strlit("vp9");
    assert("vp9"@ =~= seq!['v', 'p', '9']);
    reveal_strlit("webm");
    assert("webm"@ =~= seq!['w', 'e', 'b', 'm']);
    reveal_strlit("wmv");
    assert("wmv"@ =~= seq!['w', 'm', 'v']);
    reveal_with_fuel(lookup_index_from, 14);
    if i == 0 {
    } else if i == 1 {
    } else if i == 2 {
    } else if i == 3 {
    } else if i == 4 {
    } else if i == 5 {
    } else if i == 6 {
    } else if i == 7 {
    } else if i == 8 {
    } else if i == 9 {
    } else if i == 10 {
    } else if i == 11 {
    } else if i == 12 {
    }
}

/// The name of each of the last video containers is found at its own
/// position: checked entry by entry.
#[verifier::rlimit(30)]
proof fn lemma_listed_video_containers_last(i: int)
    requires
        13 <= i < 25,
    ensures
        lookup_index(video_containers(), video_containers()[i].ext) == Some(i),
{
    reveal_strlit("3g2");
    assert("3g2"@ =~= seq!['3', 'g', '2']);
    reveal_strlit("3gp");
    assert("3gp"@ =~= seq!['3', 'g', 'p']);
    reveal_strlit("av1");
    assert("av1"@ =~= seq!['a', 'v', '1']);
    reveal_strlit("avi");
    assert("avi"@ =~= seq!['a', 'v', 'i']);
    reveal_strlit("dnxhd");
    assert("dnxhd"@ =~= seq!['d', 'n', 'x', 'h', 'd']);
    reveal_strlit("dv");
    assert("dv"@ =~= seq!['d', 'v']);
    reveal_strlit("flv");
    assert("flv"@ =~= seq!['f', 'l', 'v']);
    reveal_strlit("gif");
    assert("gif"@ =~= seq!['g', 'i', 'f']);
    reveal_strlit("h265");
    assert("h265"@ =~= seq!['h', '2', '6', '5']);
    reveal_strlit("m2ts");
    assert("m2ts"@ =~= seq!['m', '2', 't', 's']);
    reveal_strlit("m4v");
    assert("m4v"@ =~= seq!['m', '4', 'v']);
    reveal_strlit("mjpeg");
    assert("mjpeg"@ =~= seq!['m', 'j', 'p', 'e', 'g']);
    reveal_strlit("mkv");
    assert("mkv"@ =~= seq!['m', 'k', 'v']);
    reveal_strlit("mov");
    assert("mov"@ =~= seq!['m', 'o', 'v']);
    reveal_strlit("mp4");
    assert("mp4"@ =~= seq!['m', 'p', '4']);
    reveal_strlit("mpg");
    assert("mpg"@ =~= seq!['m', 'p', 'g']);
    reveal_strlit("mxf");
    assert("mxf"@ =~= seq!['m', 'x', 'f']);
    reveal_strlit("nut");
    assert("nut"@ =~= seq!['n', 'u', 't']);
    reveal_strlit("ogv");
    assert("ogv"@ =~= seq!['o', 'g', 'v']);
    reveal_strlit("psp");
    assert("psp"@ =~= seq!['p', 's', 'p']);
    reveal_strlit("ts");
    assert("ts"@ =~= seq!['t', 's']);
    reveal_strlit("vob");
    assert("vob"@ =~= seq!['v', 'o', 'b']);
    reveal_strlit("vp9");
    assert("vp9"@ =~= seq!['v', 'p', '9']);
    reveal_strlit("webm");
    assert("webm"@ =~= seq!['w', 'e', 'b', 'm']);
    reveal_strlit("wmv");
    assert("wmv"@ =~= seq!['w', 'm', 'v']);
    reveal_with_fuel(lookup_index_from, 26);
    if i == 13 {
    } else if i == 14 {
    } else if i == 15 {
    } else if i == 16 {
    } else if i == 17 {
    } else if i == 18 {
    } else if i == 19 {
    } else if i == 20 {
    } else if i == 21 {
    } else if i == 22 {
    } else if i == 23 {
    } else if i == 24 {
    }
}

/// The name of each of the video containers is found at its own position.
proof fn lemma_listed_video_containers(i: int)
    requires
        0 <= i < video_containers().len(),
    ensures
        lookup_index(video_containers(), video_containers()[i].ext) == Some(i),
{
    if i < 13 {
        lemma_listed_video_containers_first(i);
    } else {
        lemma_listed_video_containers_last(i);
    }
}

/// The name of each of the audio extractions from video is found at its own position: checked entry by
/// entry.
#[verifier::rlimit(30)]
proof fn lemma_listed_video_extractions(i: int)
    requires
        0 <= i < video_extractions().len(),
    ensures
        lookup_index(video_extractions(), video_extractions()[i].ext) == Some(i),
{
    reveal_strlit("aac");
    assert("aac"@ =~= seq!['a', 'a', 'c']);
    reveal_strlit("ac3");
    assert("ac3"@ =~= seq!['a', 'c', '3']);
    reveal_strlit("adts");
    assert("adts"@ =~= seq!['a', 'd', 't', 's']);
    reveal_strlit("aiff");
    assert("aiff"@ =~= seq!['a', 'i', 'f', 'f']);
    reveal_strlit("amr");
    assert("amr"@ =~= seq!['a', 'm', 'r']);
    reveal_strlit("au");
    assert("au"@ =~= seq!['a', 'u']);
    reveal_strlit("caf");
    assert("caf"@ =~= seq!['c', 'a', 'f']);
    reveal_strlit("eac3");
    assert("eac3"@ =~= seq!['e', 'a', 'c', '3']);
    reveal_strlit("flac");
    assert("flac"@ =~= seq!['f', 'l', 'a', 'c']);
    reveal_strlit("gsm");
    assert("gsm"@ =~= seq!['g', 's', 'm']);
    reveal_strlit("ircam");
    assert("ircam"@ =~= seq!['i', 'r', 'c', 'a', 'm']);
    reveal_strlit("m4a");
    assert("m4a"@ =~= seq!['m', '4', 'a']);
    reveal_strlit("mp3");
    assert("mp3"@ =~= seq!['m', 'p', '3']);
    reveal_strlit("ogg");
    assert("ogg"@ =~= seq!['o', 'g', 'g']);
    reveal_strlit("opus");
    assert("opus"@ =~= seq!['o', 'p', 'u', 's']);
    reveal_strlit("sox");
    assert("sox"@ =~= seq!['s', 'o', 'x']);
    reveal_strlit("truehd");
    assert("truehd"@ =~= seq!['t', 'r', 'u', 'e', 'h', 'd']);
    reveal_strlit("tta");
    assert("tta"@ =~= seq!['t', 't', 'a']);
    reveal_strlit("voc");
    assert("voc"@ =~= seq!['v', 'o', 'c']);
    reveal_strlit("w64");
    assert("w64"@ =~= seq!['w', '6', '4']);
    reveal_strlit("wav");
    assert("wav"@ =~= seq!['w', 'a', 'v']);
    reveal_strlit("wma");
    assert("wma"@ =~= seq!['w', 'm', 'a']);
    reveal_with_fuel(lookup_index_from, 23);
    if i == 0 {
    } else if i == 1 {
    } else if i == 2 {
    } else if i == 3 {
    } else if i == 4 {
    } else if i == 5 {
    } else if i == 6 {
    } else if i == 7 {
    } else if i == 8 {
    } else if i == 9 {
    } else if i == 10 {
    } else if i == 11 {
    } else if i == 12 {
    } else if i == 13 {
    } else if i == 14 {
    } else if i == 15 {
    } else if i == 16 {
    } else if i == 17 {
    } else if i == 18 {
    } else if i == 19 {
    } else if i == 20 {
    } else if i == 21 {
    }
}

/// The name of each of the audio targets is found at its own position: checked entry by
/// entry.
#[verifier::rlimit(30)]
proof fn lemma_listed_audio(i: int)
    requires
        0 <= i < audio_targets().len(),
    ensures
        lookup_index(audio_targets(), audio_targets()[i].ext) == Some(i),
{
    reveal_strlit("aac");
    assert("aac"@ =~= seq!['a', 'a', 'c']);
    reveal_strlit("ac3");
    assert("ac3"@ =~= seq!['a', 'c', '3']);
    reveal_strlit("adts");
    assert("adts"@ =~= seq!['a', 'd', 't', 's']);
    reveal_strlit("aiff");
    assert("aiff"@ =~= seq!['a', 'i', 'f', 'f']);
    reveal_strlit("amr");
    assert("amr"@ =~= seq!['a', 'm', 'r']);
    reveal_strlit("au");
    assert("au"@ =~= seq!['a', 'u']);
    reveal_strlit("caf");
    assert("caf"@ =~= seq!['c', 'a', 'f']);
    reveal_strlit("eac3");
    assert("eac3"@ =~= seq!['e', 'a', 'c', '3']);
    reveal_strlit("flac");
    assert("flac"@ =~= seq!['f', 'l', 'a', 'c']);
    reveal_strlit("gsm");
    assert("gsm"@ =~= seq!['g', 's', 'm']);
    reveal_strlit("ircam");
    assert("ircam"@ =~= seq!['i', 'r', 'c', 'a', 'm']);
    reveal_strlit("m4a");
    assert("m4a"@ =~= seq!['m', '4', 'a']);
    reveal_strlit("mp3");
    assert("mp3"@ =~= seq!['m', 'p', '3']);
    reveal_strlit("oga");
    assert("oga"@ =~= seq!['o', 'g', 'a']);
    reveal_strlit("ogg");
    assert("ogg"@ =~= seq!['o', 'g', 'g']);
    reveal_strlit("opus");
    assert("opus"@ =~= seq!['o', 'p', 'u', 's']);
    reveal_strlit("sox");
    assert("sox"@ =~= seq!['s', 'o', 'x']);
    reveal_strlit("spx");
    assert("spx"@ =~= seq!['s', 'p', 'x']);
    reveal_strlit("truehd");
    assert("truehd"@ =~= seq!['t', 'r', 'u', 'e', 'h', 'd']);
    reveal_strlit("tta");
    assert("tta"@ =~= seq!['t', 't', 'a']);
    reveal_strlit("voc");
    assert("voc"@ =~= seq!['v', 'o', 'c']);
    reveal_strlit("w64");
    assert("w64"@ =~= seq!['w', '6', '4']);
    reveal_strlit("wav");
    assert("wav"@ =~= seq!['w', 'a', 'v']);
    reveal_strlit("wma");
    assert("wma"@ =~= seq!['w', 'm', 'a']);
    reveal_with_fuel(lookup_index_from, 25);
    if i == 0 {
    } else if i == 1 {
    } else if i == 2 {
    } else if i == 3 {
    } else if i == 4 {
    } else if i == 5 {
    } else if i == 6 {
    } else if i == 7 {
    } else if i == 8 {
    } else if i == 9 {
    } else if i == 10 {
    } else if i == 11 {
    } else if i == 12 {
    } else if i == 13 {
    } else if i == 14 {
    } else if i == 15 {
    } else if i == 16 {
    } else if i == 17 {
    } else if i == 18 {
    } else if i == 19 {
    } else if i == 20 {
    } else if i == 21 {
    } else if i == 22 {
    } else if i == 23 {
    }
}

/// The name of each of the image targets is found at its own position: checked entry by
/// entry.
#[verifier::rlimit(30)]
proof fn lemma_listed_image(i: int)
    requires
        0 <= i < image_targets().len(),
    ensures
        lookup_index(image_targets(), image_targets()[i].ext) == Some(i),
{
    reveal_strlit("apng");
    assert("apng"@ =~= seq!['a', 'p', 'n', 'g']);
    reveal_strlit("avif");
    assert("avif"@ =~= seq!['a', 'v', 'i', 'f']);
    reveal_strlit("bmp");
    assert("bmp"@ =~= seq!['b', 'm', 'p']);
    reveal_strlit("dpx");
    assert("dpx"@ =~= seq!['d', 'p', 'x']);
    reveal_strlit("fits");
    assert("fits"@ =~= seq!['f', 'i', 't', 's']);
    reveal_strlit("gif");
    assert("gif"@ =~= seq!['g', 'i', 'f']);
    reveal_strlit("hdr");
    assert("hdr"@ =~= seq!['h', 'd', 'r']);
    reveal_strlit("ico");
    assert("ico"@ =~= seq!['i', 'c', 'o']);
    reveal_strlit("jp2");
    assert("jp2"@ =~= seq!['j', 'p', '2']);
    reveal_strlit("jpg");
    assert("jpg"@ =~= seq!['j', 'p', 'g']);
    reveal_strlit("pam");
    assert("pam"@ =~= seq!['p', 'a', 'm']);
    reveal_strlit("pbm");
    assert("pbm"@ =~= seq!['p', 'b', 'm']);
    reveal_strlit("pcx");
    assert("pcx"@ =~= seq!['p', 'c', 'x']);
    reveal_strlit("pfm");
    assert("pfm"@ =~= seq!['p', 'f', 'm']);
    reveal_strlit("pgm");
    assert("pgm"@ =~= seq!['p', 'g', 'm']);
    reveal_strlit("png");
    assert("png"@ =~= seq!['p', 'n', 'g']);
    reveal_strlit("ppm");
    assert("ppm"@ =~= seq!['p', 'p', 'm']);
    reveal_strlit("sgi");
    assert("sgi"@ =~= seq!['s', 'g', 'i']);
    reveal_strlit("sun");
    assert("sun"@ =~= seq!['s', 'u', 'n']);
    reveal_strlit("tga");
    assert("tga"@ =~= seq!['t', 'g', 'a']);
    reveal_strlit("tiff");
    assert("tiff"@ =~= seq!['t', 'i', 'f', 'f']);
    reveal_strlit("wbmp");
    assert("wbmp"@ =~= seq!['w', 'b', 'm', 'p']);
    reveal_strlit("webp");
    assert("webp"@ =~= seq!['w', 'e', 'b', 'p']);
    reveal_strlit("xbm");
    assert("xbm"@ =~= seq!['x', 'b', 'm']);
    reveal_strlit("xwd");
    assert("xwd"@ =~= seq!['x', 'w', 'd']);
    reveal_with_fuel(lookup_index_from, 26);
    if i == 0 {
    } else if i == 1 {
    } else if i == 2 {
    } else if i == 3 {
    } else if i == 4 {
    } else if i == 5 {
    } else if i == 6 {
    } else if i == 7 {
    } else if i == 8 {
    } else if i == 9 {
    } else if i == 10 {
    } else if i == 11 {
    } else if i == 12 {
    } else if i == 13 {
    } else if i == 14 {
    } else if i == 15 {
    } else if i == 16 {
    } else if i == 17 {
    } else if i == 18 {
    } else if i == 19 {
    } else if i == 20 {
    } else if i == 21 {
    } else if i == 22 {
    } else if i == 23 {
    } else if i == 24 {
    }
}

/// The name of each of the image slideshows is found at its own position: checked entry by
/// entry.
#[verifier::rlimit(30)]
proof fn lemma_listed_image_to_video(i: int)
    requires
        0 <= i < image_to_video_targets().len(),
    ensures
        lookup_index(image_to_video_targets(), image_to_video_targets()[i].ext) == Some(i),
{
    reveal_strlit("avi");
    assert("avi"@ =~= seq!['a', 'v', 'i']);
    reveal_strlit("gif");
    assert("gif"@ =~= seq!['g', 'i', 'f']);
    reveal_strlit("mkv");
    assert("mkv"@ =~= seq!['m', 'k', 'v']);
    reveal_strlit("mov");
    assert("mov"@ =~= seq!['m', 'o', 'v']);
    reveal_strlit("mp4");
    assert("mp4"@ =~= seq!['m', 'p', '4']);
    reveal_strlit("vp9");
    assert("vp9"@ =~= seq!['v', 'p', '9']);
    reveal_strlit("webm");
    assert("webm"@ =~= seq!['w', 'e', 'b', 'm']);
    reveal_with_fuel(lookup_index_from, 8);
    if i == 0 {
    } else if i == 1 {
    } else if i == 2 {
    } else if i == 3 {
    } else if i == 4 {
    } else if i == 5 {
    } else if i == 6 {
    }
}

/// The name of each of the audio-to-video containers is found at its own position: checked entry by
/// entry.
#[verifier::rlimit(30)]
proof fn lemma_listed_audio_to_video(i: int)
    requires
        0 <= i < audio_to_video_targets().len(),
    ensures
        lookup_index(audio_to_video_targets(), audio_to_video_targets()[i].ext) == Some(i),
{
    reveal_strlit("avi");
    assert("avi"@ =~= seq!['a', 'v', 'i']);
    reveal_strlit("mkv");
    assert("mkv"@ =~= seq!['m', 'k', 'v']);
    reveal_strlit("mov");
    assert("mov"@ =~= seq!['m', 'o', 'v']);
    reveal_strlit("mp4");
    assert("mp4"@ =~= seq!['m', 'p', '4']);
    reveal_strlit("vp9");
    assert("vp9"@ =~= seq!['v', 'p', '9']);
    reveal_strlit("webm");
    assert("webm"@ =~= seq!['w', 'e', 'b', 'm']);
    reveal_with_fuel(lookup_index_from, 7);
    if i == 0 {
    } else if i == 1 {
    } else if i == 2 {
    } else if i == 3 {
    } else if i == 4 {
    } else if i == 5 {
    }
}

/// No audio extraction is named like a video container: checked entry by entry.
#[verifier::rlimit(30)]
proof fn lemma_extractions_not_containers(i: int)
    requires
        0 <= i < video_extractions().len(),
    ensures
        lookup_index(video_containers(), video_extractions()[i].ext) is None,
{
    reveal_strlit("3g2");
    assert("3g2"@ =~= seq!['3', 'g', '2']);
    reveal_strlit("3gp");
    assert("3gp"@ =~= seq!['3', 'g', 'p']);
    reveal_strlit("aac");
    assert("aac"@ =~= seq!['a', 'a', 'c']);
    reveal_strlit("ac3");
    assert("ac3"@ =~= seq!['a', 'c', '3']);
    reveal_strlit("adts");
    assert("adts"@ =~= seq!['a', 'd', 't', 's']);
    reveal_strlit("aiff");
    assert("aiff"@ =~= seq!['a', 'i', 'f', 'f']);
    reveal_strlit("amr");
    assert("amr"@ =~= seq!['a', 'm', 'r']);
    reveal_strlit("au");
    assert("au"@ =~= seq!['a', 'u']);
    reveal_strlit("av1");
    assert("av1"@ =~= seq!['a', 'v', '1']);
    reveal_strlit("avi");
    assert("avi"@ =~= seq!['a', 'v', 'i']);
    reveal_strlit("caf");
    assert("caf"@ =~= seq!['c', 'a', 'f']);
    reveal_strlit("dnxhd");
    assert("dnxhd"@ =~= seq!['d', 'n', 'x', 'h', 'd']);
    reveal_strlit("dv");
    assert("dv"@ =~= seq!['d', 'v']);
    reveal_strlit("eac3");
    assert("eac3"@ =~= seq!['e', 'a', 'c', '3']);
    reveal_strlit("flac");
    assert("flac"@ =~= seq!['f', 'l', 'a', 'c']);
    reveal_strlit("flv");
    assert("flv"@ =~= seq!['f', 'l', 'v']);
    reveal_strlit("gif");
    assert("gif"@ =~= seq!['g', 'i', 'f']);
    reveal_strlit("gsm");
    assert("gsm"@ =~= seq!['g', 's', 'm']);
    reveal_strlit("h265");
    assert("h265"@ =~= seq!['h', '2', '6', '5']);
    reveal_strlit("ircam");
    assert("ircam"@ =~= seq!['i', 'r', 'c', 'a', 'm']);
    reveal_strlit("m2ts");
    assert("m2ts"@ =~= seq!['m', '2', 't', 's']);
    reveal_strlit("m4a");
    assert("m4a"@ =~= seq!['m', '4', 'a']);
    reveal_strlit("m4v");
    assert("m4v"@ =~= seq!['m', '4', 'v']);
    reveal_strlit("mjpeg");
    assert("mjpeg"@ =~= seq!['m', 'j', 'p', 'e', 'g']);
    reveal_strlit("mkv");
    assert("mkv"@ =~= seq!['m', 'k', 'v']);
    reveal_strlit("mov");
    assert("mov"@ =~= seq!['m', 'o', 'v']);
    reveal_strlit("mp3");
    assert("mp3"@ =~= seq!['m', 'p', '3']);
    reveal_strlit("mp4");
    assert("mp4"@ =~= seq!['m', 'p', '4']);
    reveal_strlit("mpg");
    assert("mpg"@ =~= seq!['m', 'p', 'g']);
    reveal_strlit("mxf");
    assert("mxf"@ =~= seq!['m', 'x', 'f']);
    reveal_strlit("nut");
    assert("nut"@ =~= seq!['n', 'u', 't']);
    reveal_strlit("ogg");
    assert("ogg"@ =~= seq!['o', 'g', 'g']);
    reveal_strlit("ogv");
    assert("ogv"@ =~= seq!['o', 'g', 'v']);
    reveal_strlit("opus");
    assert("opus"@ =~= seq!['o', 'p', 'u', 's']);
    reveal_strlit("psp");
    assert("psp"@ =~= seq!['p', 's', 'p']);
    reveal_strlit("sox");
    assert("sox"@ =~= seq!['s', 'o', 'x']);
    reveal_strlit("truehd");
    assert("truehd"@ =~= seq!['t', 'r', 'u', 'e', 'h', 'd']);
    reveal_strlit("ts");
    assert("ts"@ =~= seq!['t', 's']);
    reveal_strlit("tta");
    assert("tta"@ =~= seq!['t', 't', 'a']);
    reveal_strlit("vob");
    assert("vob"@ =~= seq!['v', 'o', 'b']);
    reveal_strlit("voc");
    assert("voc"@ =~= seq!['v', 'o', 'c']);
    reveal_strlit("vp9");
    assert("vp9"@ =~= seq!['v', 'p', '9']);
    reveal_strlit("w64");
    assert("w64"@ =~= seq!['w', '6', '4']);
    reveal_strlit("wav");
    assert("wav"@ =~= seq!['w', 'a', 'v']);
    reveal_strlit("webm");
    assert("webm"@ =~= seq!['w', 'e', 'b', 'm']);
    reveal_strlit("wma");
    assert("wma"@ =~= seq!['w', 'm', 'a']);
    reveal_strlit("wmv");
    assert("wmv"@ =~= seq!['w', 'm', 'v']);
    reveal_with_fuel(lookup_index_from, 26);
    if i == 0 {
    } else if i == 1 {
    } else if i == 2 {
    } else if i == 3 {
    } else if i == 4 {
    } else if i == 5 {
    } else if i == 6 {
    } else if i == 7 {
    } else if i == 8 {
    } else if i == 9 {
    } else if i == 10 {
    } else if i == 11 {
    } else if i == 12 {
    } else if i == 13 {
    } else if i == 14 {
    } else if i == 15 {
    } else if i == 16 {
    } else if i == 17 {
    } else if i == 18 {
    } else if i == 19 {
    } else if i == 20 {
    } else if i == 21 {
    }
}

/// The name of each video-input target is found at its own position.
proof fn lemma_listed_video(i: int)
    requires
        0 <= i < (video_containers() + video_extractions()).len(),
    ensures
        lookup_index(video_containers() + video_extractions(), (video_containers() + video_extractions())[i].ext)
            == Some(i),
{
    let a = video_containers();
    let b = video_extractions();
    let x = (a + b)[i].ext;
    if i < a.len() {
        lemma_listed_video_containers(i);
        assert((a + b)[i] == a[i]);
        lemma_lookup_index(a, x);
        assert forall|m: int| 0 <= m < i implies #[trigger] (a + b)[m].ext != x by {
            assert((a + b)[m] == a[m]);
        }
        lemma_lookup_index_unique(a + b, x, i);
    } else {
        let j = i - a.len();
        assert((a + b)[i] == b[j]);
        lemma_extractions_not_containers(j);
        lemma_listed_video_extractions(j);
        lemma_lookup_index_concat(a, b, x, j);
    }
}

/// The name of each listed target is found at its own position, in the
/// same-kind and in the cross-kind tables alike.
proof fn lemma_listed_index(media_type: MediaType, i: int)
    ensures
        0 <= i < spec_targets(media_type).len() ==> lookup_index(
            spec_targets(media_type),
            spec_targets(media_type)[i].ext,
        ) == Some(i),
        0 <= i < spec_cross_targets(media_type).len() ==> lookup_index(
            spec_cross_targets(media_type),
            spec_cross_targets(media_type)[i].ext,
        ) == Some(i),
{
    match media_type {
        MediaType::Video => {
            if 0 <= i < spec_targets(media_type).len() {
                lemma_listed_video(i);
            }
        },
        MediaType::Audio => {
            if 0 <= i < spec_targets(media_type).len() {
                lemma_listed_audio(i);
            }
            if 0 <= i < spec_cross_targets(media_type).len() {
                lemma_listed_audio_to_video(i);
            }
        },
        MediaType::Image => {
            if 0 <= i < spec_targets(media_type).len() {
                lemma_listed_image(i);
            }
            if 0 <= i < spec_cross_targets(media_type).len() {
                lemma_listed_image_to_video(i);
            }
        },
    }
}

/// Looking up the name of a listed target finds that very target, among the
/// same-kind and among the cross-kind targets alike.
pub proof fn lemma_lookup_listed(media_type: MediaType, i: int)
    ensures
        0 <= i < spec_targets(media_type).len() ==> lookup(
            spec_targets(media_type),
            spec_targets(media_type)[i].ext,
        ) == Some(spec_targets(media_type)[i]),
        0 <= i < spec_cross_targets(media_type).len() ==> lookup(
            spec_cross_targets(media_type),
            spec_cross_targets(media_type)[i].ext,
        ) == Some(spec_cross_targets(media_type)[i]),
{
    lemma_listed_index(media_type, i);
    if 0 <= i < spec_targets(media_type).len() {
        lemma_lookup_index(spec_targets(media_type), spec_targets(media_type)[i].ext);
    }
    if 0 <= i < spec_cross_targets(media_type).len() {
        lemma_lookup_index(spec_cross_targets(media_type), spec_cross_targets(media_type)[i].ext);
    }
}

/// No two targets of one list (the same-kind targets, or the cross-kind
/// targets, of a media type) share a name.
pub proof fn lemma_names_distinct(media_type: MediaType)
    ensures
        forall|i: int, j: int|
            #![trigger spec_targets(media_type)[i], spec_targets(media_type)[j]]
            0 <= i < j < spec_targets(media_type).len() ==> spec_targets(media_type)[i].ext
                != spec_targets(media_type)[j].ext,
        forall|i: int, j: int|
            #![trigger spec_cross_targets(media_type)[i], spec_cross_targets(media_type)[j]]
            0 <= i < j < spec_cross_targets(media_type).len() ==> spec_cross_targets(media_type)[i].ext
                != spec_cross_targets(media_type)[j].ext,
{
    let ts = spec_targets(media_type);
    let cs = spec_cross_targets(media_type);
    assert forall|i: int, j: int| 0 <= i < j < ts.len() implies #[trigger] ts[i].ext != #[trigger] ts[j].ext by {
        lemma_listed_index(media_type, j);
        lemma_lookup_index(ts, ts[j].ext);
        assert(ts[i].ext != ts[j].ext);
    }
    assert forall|i: int, j: int| 0 <= i < j < cs.len() implies #[trigger] cs[i].ext != #[trigger] cs[j].ext by {
        lemma_listed_index(media_type, j);
        lemma_lookup_index(cs, cs[j].ext);
        assert(cs[i].ext != cs[j].ext);
    }
}

// ---------------------------------------------------------------------------
// The shape of the same-kind targets
// ---------------------------------------------------------------------------

/// The video variants: a codec named by the user whose file is written under
/// a container's extension (`h265` and `psp` as `mp4`, `vp9` as `webm`, `av1`
/// as `mkv`).
pub open spec fn is_variant(ext: Seq<char>, output_ext: Seq<char>) -> bool {
    ||| ext == "h265"@ && output_ext == "mp4"@
    ||| ext == "vp9"@ && output_ext == "webm"@
    ||| ext == "av1"@ && output_ext == "mkv"@
    ||| ext == "psp"@ && output_ext == "mp4"@
}

/// A same-kind target of a media type: no arguments before the input, and the
/// file written under the target's own name, but for the video variants.
pub open spec fn plain_shape(media_type: MediaType, t: TargetSpec) -> bool {
    &&& t.pre_args.len() == 0
    &&& (t.output_ext == t.ext || (media_type == MediaType::Video && is_variant(t.ext, t.output_ext)))
}

#[verifier::rlimit(30)]
proof fn lemma_shape_video_containers()
    ensures
        forall|i: int| 0 <= i < video_containers().len() ==> plain_shape(MediaType::Video, #[trigger] video_containers()[i]),
{
}

#[verifier::rlimit(30)]
proof fn lemma_shape_video_extractions()
    ensures
        forall|i: int| 0 <= i < video_extractions().len() ==> plain_shape(MediaType::Video, #[trigger] video_extractions()[i]),
{
}

#[verifier::rlimit(30)]
proof fn lemma_shape_audio()
    ensures
        forall|i: int| 0 <= i < audio_targets().len() ==> plain_shape(MediaType::Audio, #[trigger] audio_targets()[i]),
{
}

#[verifier::rlimit(30)]
proof fn lemma_shape_image()
    ensures
        forall|i: int| 0 <= i < image_targets().len() ==> plain_shape(MediaType::Image, #[trigger] image_targets()[i]),
{
}

/// Every same-kind target takes no ffmpeg argument before the input and
/// writes its file under its own name, except the four video variants; each
/// of the four variants is offered for video.
pub proof fn lemma_target_shape(media_type: MediaType)
    ensures
        forall|i: int|
            0 <= i < spec_targets(media_type).len() ==> plain_shape(media_type, #[trigger] spec_targets(media_type)[i]),
        media_type == MediaType::Video ==> forall|ext: Seq<char>, out: Seq<char>|
            #[trigger] is_variant(ext, out) ==> exists|i: int|
                0 <= i < spec_targets(media_type).len() && #[trigger] spec_targets(media_type)[i].ext == ext
                    && spec_targets(media_type)[i].output_ext == out,
{
    let ts = spec_targets(media_type);
    match media_type {
        MediaType::Video => {
            lemma_shape_video_containers();
            lemma_shape_video_extractions();
            let vc = video_containers();
            assert forall|i: int| 0 <= i < ts.len() implies plain_shape(media_type, #[trigger] ts[i]) by {
                if i < vc.len() {
                    assert(ts[i] == vc[i]);
                } else {
                    assert(ts[i] == video_extractions()[i - vc.len()]);
                }
            }
            assert(ts[1] == vc[1]);
            assert(ts[4] == vc[4]);
            assert(ts[19] == vc[19]);
            assert(ts[24] == vc[24]);
        },
        MediaType::Audio => {
            lemma_shape_audio();
        },
        MediaType::Image => {
            lemma_shape_image();
        },
    }
}

} // verus!
