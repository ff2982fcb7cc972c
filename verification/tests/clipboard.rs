use nr::clipboard::{file_drop_paths, text_candidates};

#[test]
fn file_drop_lines() {
    let text = "C:\\Videos\\a.mp4\r\n\r\n   D:\\b c.mov  \r\n";
    assert_eq!(file_drop_paths(text), vec!["C:\\Videos\\a.mp4", "D:\\b c.mov"]);
    assert!(file_drop_paths("").is_empty());
    assert!(file_drop_paths("\n \n\t\n").is_empty());
    assert_eq!(file_drop_paths("one"), vec!["one"]);
}

#[test]
fn plain_text() {
    assert_eq!(text_candidates("  \"/home/me/x.mp4\"\n", false), vec!["/home/me/x.mp4"]);
    assert!(text_candidates("   \n", false).is_empty());
    assert_eq!(
        text_candidates("file:///tmp/a.mp4", true),
        vec!["file:///tmp/a.mp4", "/tmp/a.mp4"]
    );
    assert_eq!(text_candidates("file:///tmp/a.mp4", false), vec!["file:///tmp/a.mp4"]);
    assert_eq!(text_candidates("\"\"a\"\"", false), vec!["a"]);
    // Unicode whitespace is trimmed too
    assert_eq!(text_candidates("\u{3000}x.png\u{a0}", false), vec!["x.png"]);
}

use nr::clipboard::{clipboard_tools, get_paths, PasteAction, PasteEvent, PasteStage, Reading};
use nr::ffmpeg::Platform;

/// Reads the clipboard with simulated tools: `run` answers for each tool index,
/// `exists` tells which paths exist.
fn read(
    platform: Platform,
    run: impl Fn(usize) -> PasteEvent,
    exists: impl Fn(&str) -> bool,
) -> (Result<Vec<String>, ()>, Vec<usize>) {
    let mut ran = Vec::new();
    let mut stage = PasteStage::Start;
    let mut event = PasteEvent::Begin;
    for _ in 0..20 {
        let step = get_paths(platform, stage, event);
        event = match step.action {
            PasteAction::RunTool(i) => {
                ran.push(i);
                run(i)
            }
            PasteAction::CheckPaths(p) => PasteEvent::Existing(p.iter().map(|x| exists(x)).collect()),
            PasteAction::Finish(p) => return (Ok(p), ran),
            PasteAction::Fail => return (Err(()), ran),
        };
        stage = step.stage;
    }
    panic!("reading did not finish");
}

fn out(s: &str) -> PasteEvent {
    PasteEvent::Output(s.to_string())
}

#[test]
fn tools_per_platform() {
    let w = clipboard_tools(Platform::Windows);
    assert_eq!(w.len(), 2);
    assert_eq!(w[0].reading, Reading::FileDropList);
    assert_eq!(w[1].args, &["-NoProfile", "-Command", "Get-Clipboard"]);
    let l = clipboard_tools(Platform::Linux);
    assert_eq!(l[0].program, "xclip");
    assert_eq!(l[1].program, "wl-paste");
    assert!(!l[0].must_start);
    assert_eq!(clipboard_tools(Platform::MacOs)[0].program, "pbpaste");
    assert!(clipboard_tools(Platform::Other).is_empty());
}

#[test]
fn windows_file_drop_list_first() {
    let (r, ran) = read(
        Platform::Windows,
        |i| if i == 0 { out("C:\\a.mp4\r\nC:\\gone.mp4\r\nC:\\b.mov\r\n") } else { out("C:\\c.mkv") },
        |p| p != "C:\\gone.mp4",
    );
    assert_eq!(r, Ok(vec!["C:\\a.mp4".to_string(), "C:\\b.mov".to_string()]));
    assert_eq!(ran, vec![0]);
}

#[test]
fn windows_falls_back_to_text() {
    let (r, ran) = read(
        Platform::Windows,
        |i| if i == 0 { out("") } else { out("\"file:///C:/x.mp4\"\r\n") },
        |p| p == "/C:/x.mp4",
    );
    assert_eq!(r, Ok(vec!["/C:/x.mp4".to_string()]));
    assert_eq!(ran, vec![0, 1]);
    let (r, _) = read(Platform::Windows, |_| PasteEvent::NotStarted, |_| true);
    assert_eq!(r, Err(()));
}

#[test]
fn linux_tries_both_tools() {
    // xclip is missing: wl-paste is asked
    let (r, ran) = read(
        Platform::Linux,
        |i| if i == 0 { PasteEvent::NotStarted } else { out("/home/me/v.mov\n") },
        |_| true,
    );
    assert_eq!(r, Ok(vec!["/home/me/v.mov".to_string()]));
    assert_eq!(ran, vec![0, 1]);
    // a path that does not exist is no answer
    let (r, ran) = read(Platform::Linux, |_| out("/nope"), |_| false);
    assert_eq!(r, Ok(vec![]));
    assert_eq!(ran, vec![0, 1]);
    let (r, _) = read(Platform::Linux, |_| PasteEvent::Failed, |_| true);
    assert_eq!(r, Ok(vec![]));
}

#[test]
fn macos_and_others() {
    let (r, _) = read(Platform::MacOs, |_| out("  /Users/me/a.png "), |_| true);
    assert_eq!(r, Ok(vec!["/Users/me/a.png".to_string()]));
    let (r, _) = read(Platform::MacOs, |_| PasteEvent::NotStarted, |_| true);
    assert_eq!(r, Err(()));
    let (r, ran) = read(Platform::Other, |_| out("x"), |_| true);
    assert_eq!(r, Ok(vec![]));
    assert!(ran.is_empty());
}
