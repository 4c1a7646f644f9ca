use bettershot::{
    clipboard_outcome, copy_image_to_clipboard, escape_single_quotes, ClipboardError, PathFacts,
    Platform,
};

fn facts(exists: bool, is_file: bool, canonical: Result<&str, &str>) -> PathFacts {
    PathFacts {
        exists,
        is_file,
        canonical: canonical.map(|s| s.to_string()).map_err(|s| s.to_string()),
    }
}

#[test]
fn quotes_are_doubled() {
    assert_eq!(escape_single_quotes("it's"), "it''s");
    assert_eq!(escape_single_quotes("''"), "''''");
    assert_eq!(escape_single_quotes("plain"), "plain");
    assert_eq!(escape_single_quotes(""), "");
}

#[test]
fn macos_uses_osascript() {
    let cmd = copy_image_to_clipboard(Platform::MacOs, "/tmp/a.png", &facts(false, false, Err("x")))
        .ok()
        .unwrap();
    assert_eq!(cmd.program, "osascript");
    assert_eq!(
        cmd.args,
        vec![
            "-e".to_string(),
            "set the clipboard to (read (POSIX file \"/tmp/a.png\") as \u{ab}class PNGf\u{bb})".to_string()
        ]
    );
}

#[test]
fn windows_missing_file_runs_nothing() {
    let r = copy_image_to_clipboard(Platform::Windows, "C:\\nope.png", &facts(false, false, Err("x")));
    match r {
        Err(e) => {
            assert!(matches!(e, ClipboardError::NotFound(_)));
            assert_eq!(e.message(), "File not found: C:\\nope.png");
        }
        Ok(_) => panic!("a command was produced for a missing file"),
    }
}

#[test]
fn windows_directory_is_refused() {
    let r = copy_image_to_clipboard(Platform::Windows, "C:\\dir", &facts(true, false, Ok("C:\\dir")));
    let e = r.err().unwrap();
    assert_eq!(e.message(), "Path is not a file: C:\\dir");
}

#[test]
fn windows_unresolvable_path() {
    let r = copy_image_to_clipboard(Platform::Windows, "a.png", &facts(true, true, Err("denied")));
    assert_eq!(r.err().unwrap().message(), "Failed to resolve path: denied");
}

#[test]
fn windows_script_names_escaped_canonical_path() {
    let r = copy_image_to_clipboard(Platform::Windows, "a.png", &facts(true, true, Ok("C:\\Bob's\\a.png")));
    let cmd = r.ok().unwrap();
    assert_eq!(cmd.program, "powershell");
    assert_eq!(cmd.args.len(), 4);
    assert_eq!(cmd.args[0], "-NoProfile");
    assert_eq!(cmd.args[1], "-NonInteractive");
    assert_eq!(cmd.args[2], "-Command");
    assert_eq!(
        cmd.args[3],
        "Add-Type -AssemblyName System.Windows.Forms; $image = [System.Drawing.Image]::FromFile('C:\\Bob''s\\a.png'); [System.Windows.Forms.Clipboard]::SetImage($image); $image.Dispose()"
    );
}

#[test]
fn other_platforms_have_no_clipboard() {
    let r = copy_image_to_clipboard(Platform::Other, "a.png", &facts(true, true, Ok("/a.png")));
    let e = r.err().unwrap();
    assert!(matches!(e, ClipboardError::Unsupported));
    assert_eq!(e.message(), "Clipboard copy not supported on this platform");
}

#[test]
fn clipboard_script_outcome() {
    assert!(clipboard_outcome(true, String::new()).is_ok());
    let e = clipboard_outcome(false, "boom".to_string()).err().unwrap();
    assert_eq!(e.message(), "Failed to copy image to clipboard: boom");
}
