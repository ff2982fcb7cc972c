//! The errors that the converter reports, with their messages.

use vstd::prelude::*;
use crate::detect::MediaType;

verus! {

/// A refusal of the converter.
#[derive(Debug, PartialEq, Eq)]
pub enum NrError {
    /// Fewer than four bytes could be read from a file of unknown extension.
    FileTooSmall,
    /// Neither the extension nor the magic bytes identify the file.
    UnrecognizedFileType,
    /// The requested format is not offered for files of this type.
    UnsupportedTarget { ext: String, media_type: MediaType },
    /// The named file does not exist.
    FileNotFound(String),
    /// The clipboard holds no file path.
    NoClipboardFiles,
    /// A batch conversion found no files to convert.
    NoFilesToConvert,
    /// No conversion is offered for files of this type.
    NoConversions(MediaType),
    /// The interactive menu was given no formats to offer.
    UnsupportedFileType,
}

/// The text of the message that reports `e`.
pub open spec fn spec_message(e: NrError) -> Seq<char> {
    match e {
        NrError::FileTooSmall => "File too small to detect type"@,
        NrError::UnrecognizedFileType => "Unrecognized file type"@,
        NrError::UnsupportedTarget { ext, media_type } => "'"@ + ext@
            + "' is not supported for "@ + media_type.spec_label()
            + " files. Use --list to see options."@,
        NrError::FileNotFound(path) => "File not found: "@ + path@,
        NrError::NoClipboardFiles => "No files in clipboard.\nCopy a file path to clipboard, or:\n  nr <file>              \u{2014} detect file\n  nr <file> <format>     \u{2014} convert specific file\n  nr --list              \u{2014} show all formats"@,
        NrError::NoFilesToConvert => "No files in clipboard to convert."@,
        NrError::NoConversions(media_type) => "No conversions available for "@
            + media_type.spec_label() + " files"@,
        NrError::UnsupportedFileType => "Unsupported file type"@,
    }
}

impl NrError {
    /// The message that reports this error.
    pub fn message(&self) -> (r: String)
        ensures
            r@ == spec_message(*self),
    {
        match self {
            NrError::FileTooSmall => String::from_str("File too small to detect type"),
            NrError::UnrecognizedFileType => String::from_str("Unrecognized file type"),
            NrError::UnsupportedTarget { ext, media_type } => {
                let mut s = String::from_str("'");
                s.append(ext.as_str());
                s.append("' is not supported for ");
                s.append(media_type.label());
                s.append(" files. Use --list to see options.");
                s
            },
            NrError::FileNotFound(path) => {
                let mut s = String::from_str("File not found: ");
                s.append(path.as_str());
                s
            },
            NrError::NoClipboardFiles => String::from_str(
                "No files in clipboard.\nCopy a file path to clipboard, or:\n  nr <file>              \u{2014} detect file\n  nr <file> <format>     \u{2014} convert specific file\n  nr --list              \u{2014} show all formats",
            ),
            NrError::NoFilesToConvert => String::from_str("No files in clipboard to convert."),
            NrError::NoConversions(media_type) => {
                let mut s = String::from_str("No conversions available for ");
                s.append(media_type.label());
                s.append(" files");
                s
            },
            NrError::UnsupportedFileType => String::from_str("Unsupported file type"),
        }
    }
}

} // verus!
