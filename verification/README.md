# nr — verified core of a media converter

`nr` converts a media file (video, audio, image) to another format with
ffmpeg. This crate is its library, verified with Verus: the functions in `src/`
carry contracts that Verus proves, resting on the stated contracts of three
standard-library calls (`char::is_whitespace`, `str::parse::<usize>`,
`str::to_lowercase`) in `src/text.rs`.

- `src/detect.rs` — media type from the magic bytes, else from the extension.
- `src/registry.rs` — the 109 conversion targets and their ffmpeg arguments,
  lookup by name, and the `--list` listing.
- `src/cli.rs` — the command line, the known format names, and how the
  arguments are read.
- `src/clipboard.rs` — file paths out of the clipboard tools' output.
- `src/interactive.rs` — the format menu and how an answer is read.
- `src/ffmpeg.rs` — which ffmpeg to use, the cache directory, the conversion
  command line.
- `src/install.rs` — installing ffmpeg, as a state machine.
- `src/text.rs` — string operations on character sequences.
- `src/error.rs` — the errors and their messages.

`app/` is the program: argument parsing (clap), the clipboard tools, files,
processes and the terminal. It performs what the library decides.
