//! Placing an image file on the system clipboard: the script each platform
//! runs, and what its outcome means.

use vstd::prelude::*;
use vstd::string::*;
use crate::capture::{arg_views, Platform};

verus! {

/// A program and its arguments, to be run by the caller.
pub struct ToolCommand {
    pub program: String,
    pub args: Vec<String>,
}

/// Why an image could not be put on the clipboard.
#[derive(Debug)]
pub enum ClipboardError {
    /// This platform has no clipboard support.
    Unsupported,
    /// Nothing exists at the path.
    NotFound(String),
    /// The path names something other than a regular file.
    NotAFile(String),
    /// The path could not be made canonical; the reason.
    ResolveFailed(String),
    /// The clipboard script failed; what it wrote to its error stream.
    CopyFailed(String),
}

/// The human-readable text of each error.
pub open spec fn clipboard_error_text(e: ClipboardError) -> Seq<char> {
    match e {
        ClipboardError::Unsupported => "Clipboard copy not supported on this platform"@,
        ClipboardError::NotFound(p) => "File not found: "@ + p@,
        ClipboardError::NotAFile(p) => "Path is not a file: "@ + p@,
        ClipboardError::ResolveFailed(m) => "Failed to resolve path: "@ + m@,
        ClipboardError::CopyFailed(m) => "Failed to copy image to clipboard: "@ + m@,
    }
}

impl ClipboardError {
    /// The message shown to the user.
    pub fn message(&self) -> (r: String)
        ensures
            r@ == clipboard_error_text(*self),
    {
        match self {
            ClipboardError::Unsupported => String::from_str(
                "Clipboard copy not supported on this platform",
            ),
            ClipboardError::NotFound(p) => String::from_str("File not found: ").concat(p.as_str()),
            ClipboardError::NotAFile(p) => String::from_str("Path is not a file: ").concat(
                p.as_str(),
            ),
            ClipboardError::ResolveFailed(m) => String::from_str("Failed to resolve path: ").concat(
                m.as_str(),
            ),
            ClipboardError::CopyFailed(m) => String::from_str(
                "Failed to copy image to clipboard: ",
            ).concat(m.as_str()),
        }
    }
}

/// `s` with each single quote doubled, as a single-quoted PowerShell string
/// literal needs it.
pub open spec fn quotes_doubled(s: Seq<char>) -> Seq<char>
    decreases s.len(),
{
    if s.len() == 0 {
        s
    } else {
        quotes_doubled(s.drop_last()) + if s.last() == '\'' {
            seq!['\'', '\'']
        } else {
            seq![s.last()]
        }
    }
}

/// Doubles each single quote of `s`.
pub fn escape_single_quotes(s: &str) -> (r: String)
    ensures
        r@ == quotes_doubled(s@),
{
    let n = s.unicode_len();
    let mut r = String::new();
    let mut i: usize = 0;
    proof {
        assert(s@.subrange(0, 0) =~= Seq::<char>::empty());
    }
    while i < n
        invariant
            n == s@.len(),
            i <= n,
            r@ == quotes_doubled(s@.subrange(0, i as int)),
        decreases n - i,
    {
        let c = s.get_char(i);
        let ghost before = r@;
        if c == '\'' {
            proof {
                reveal_strlit("''");
            }
            r.append("''");
            assert(r@ =~= before + seq!['\'', '\'']);
        } else {
            r.append(s.substring_char(i, i + 1));
        }
        assert(s@.subrange(0, i + 1).drop_last() =~= s@.subrange(0, i as int));
        assert(s@.subrange(i as int, i + 1) =~= seq![c]);
        assert(s@.subrange(0, i + 1).last() == c);
        i = i + 1;
    }
    assert(s@.subrange(0, n as int) =~= s@);
    r
}

/// The AppleScript that reads the PNG file at `path` into the clipboard.
pub open spec fn applescript_for(path: Seq<char>) -> Seq<char> {
    "set the clipboard to (read (POSIX file \""@ + path + "\") as \u{ab}class PNGf\u{bb})"@
}

/// The PowerShell script that loads the image at `path` and sets it as the
/// clipboard's image.
pub open spec fn powershell_for(path: Seq<char>) -> Seq<char> {
    "Add-Type -AssemblyName System.Windows.Forms; $image = [System.Drawing.Image]::FromFile('"@
        + quotes_doubled(path)
        + "'); [System.Windows.Forms.Clipboard]::SetImage($image); $image.Dispose()"@
}

/// What the caller found at the image path before the copy: whether it
/// exists, whether it is a regular file, and its canonical form or the
/// reason it has none.
pub struct PathFacts {
    pub exists: bool,
    pub is_file: bool,
    pub canonical: Result<String, String>,
}

/// The command that copies the image at `image_path` to the clipboard, or
/// why there is none. On Windows the path is checked first and the script
/// names its canonical form; macOS leaves the checks to its own tool.
pub fn copy_image_to_clipboard(platform: Platform, image_path: &str, facts: &PathFacts) -> (r:
    Result<ToolCommand, ClipboardError>)
    ensures
        platform == Platform::Other ==> r == Err::<ToolCommand, ClipboardError>(
            ClipboardError::Unsupported,
        ),
        platform == Platform::MacOs ==> r is Ok && r->Ok_0.program@ == "osascript"@ && arg_views(
            r->Ok_0.args@,
        ) == seq!["-e"@, applescript_for(image_path@)],
        platform == Platform::Windows && !facts.exists ==> (r matches Err(
            ClipboardError::NotFound(p),
        ) && p@ == image_path@),
        platform == Platform::Windows && facts.exists && !facts.is_file ==> (r matches Err(
            ClipboardError::NotAFile(p),
        ) && p@ == image_path@),
        platform == Platform::Windows && facts.exists && facts.is_file && facts.canonical is Err
            ==> r == Err::<ToolCommand, ClipboardError>(
            ClipboardError::ResolveFailed(facts.canonical->Err_0),
        ),
        platform == Platform::Windows && facts.exists && facts.is_file && facts.canonical is Ok
            ==> r is Ok && r->Ok_0.program@ == "powershell"@ && arg_views(r->Ok_0.args@) == seq![
            "-NoProfile"@,
            "-NonInteractive"@,
            "-Command"@,
            powershell_for(facts.canonical->Ok_0@),
        ],
{
    match platform {
        Platform::Other => Err(ClipboardError::Unsupported),
        Platform::MacOs => {
            let script = String::from_str("set the clipboard to (read (POSIX file \"").concat(
                image_path,
            ).concat("\") as \u{ab}class PNGf\u{bb})");
            let mut args: Vec<String> = Vec::new();
            args.push(String::from_str("-e"));
            args.push(script);
            assert(arg_views(args@) =~= seq!["-e"@, applescript_for(image_path@)]);
            Ok(ToolCommand { program: String::from_str("osascript"), args })
        },
        Platform::Windows => {
            if !facts.exists {
                return Err(ClipboardError::NotFound(String::from_str(image_path)));
            }
            if !facts.is_file {
                return Err(ClipboardError::NotAFile(String::from_str(image_path)));
            }
            let canonical = match &facts.canonical {
                Ok(c) => c,
                Err(m) => {
                    return Err(ClipboardError::ResolveFailed(m.clone()));
                },
            };
            let escaped = escape_single_quotes(canonical.as_str());
            let script = String::from_str(
                "Add-Type -AssemblyName System.Windows.Forms; $image = [System.Drawing.Image]::FromFile('",
            ).concat(escaped.as_str()).concat(
                "'); [System.Windows.Forms.Clipboard]::SetImage($image); $image.Dispose()",
            );
            let mut args: Vec<String> = Vec::new();
            args.push(String::from_str("-NoProfile"));
            args.push(String::from_str("-NonInteractive"));
            args.push(String::from_str("-Command"));
            args.push(script);
            assert(arg_views(args@) =~= seq![
                "-NoProfile"@,
                "-NonInteractive"@,
                "-Command"@,
                powershell_for(canonical@),
            ]);
            Ok(ToolCommand { program: String::from_str("powershell"), args })
        },
    }
}

/// Reads the outcome of the clipboard script: whether it exited with success
/// and what it wrote to its error stream.
pub fn clipboard_outcome(exit_ok: bool, stderr: String) -> (r: Result<(), ClipboardError>)
    ensures
        exit_ok ==> r is Ok,
        !exit_ok ==> r == Err::<(), ClipboardError>(ClipboardError::CopyFailed(stderr)),
{
    if exit_ok {
        Ok(())
    } else {
        Err(ClipboardError::CopyFailed(stderr))
    }
}

} // verus!
