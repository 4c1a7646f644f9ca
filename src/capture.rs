//! Capture decisions: which platform tool to run, when a capture may start,
//! and what the tool's outcome means.

use vstd::prelude::*;
use vstd::string::*;
use crate::text::{contains_text, occurs_in};

verus! {

/// The operating system the utility runs on.
#[derive(PartialEq, Eq, Structural, Clone, Copy, Debug)]
pub enum Platform {
    MacOs,
    Windows,
    Other,
}

/// The three user-triggered ways of taking a screenshot.
#[derive(PartialEq, Eq, Structural, Clone, Copy, Debug)]
pub enum CaptureMode {
    /// The user drags a rectangle on screen.
    Interactive,
    /// The whole screen.
    Fullscreen,
    /// A window that the user picks.
    Window,
}

/// Why a capture did not produce a file.
#[derive(Debug)]
pub enum CaptureError {
    /// This platform has no implementation of the requested capture.
    Unsupported(CaptureMode),
    /// Another capture is in flight, in this process or as a running tool.
    AlreadyInProgress,
    /// The trial capture found that screen recording is not permitted.
    PermissionNotGranted,
    /// The capture tool itself reported missing screen-recording permission.
    PermissionRequired,
    /// The capture tool could not be started or waited for.
    ToolFailed(String),
    /// An interactive or window capture ended without a file.
    Cancelled,
    /// A fullscreen capture ended without a file.
    Failed,
    /// No display could be captured.
    NoMonitors,
}

/// The human-readable text of each error.
pub open spec fn capture_error_text(e: CaptureError) -> Seq<char> {
    match e {
        CaptureError::Unsupported(CaptureMode::Interactive) =>
            "Interactive capture not supported on this platform"@,
        CaptureError::Unsupported(CaptureMode::Fullscreen) =>
            "Fullscreen capture not supported on this platform"@,
        CaptureError::Unsupported(CaptureMode::Window) =>
            "Window capture not supported on this platform"@,
        CaptureError::AlreadyInProgress => "Another screenshot capture is already in progress"@,
        CaptureError::PermissionNotGranted => PERMISSION_CHECK_TEXT@,
        CaptureError::PermissionRequired => PERMISSION_REQUIRED_TEXT@,
        CaptureError::ToolFailed(msg) => "Failed to run screencapture: "@ + msg@,
        CaptureError::Cancelled => "Screenshot was cancelled or failed"@,
        CaptureError::Failed => "Screenshot failed"@,
        CaptureError::NoMonitors => "No monitors available"@,
    }
}

pub const PERMISSION_CHECK_TEXT: &'static str = "Permission check failed: Screen Recording permission not granted. Please ensure Screen Recording permission is granted in System Settings > Privacy & Security > Screen Recording.";

pub const PERMISSION_REQUIRED_TEXT: &'static str = "Screen Recording permission required. Please grant permission in System Settings > Privacy & Security > Screen Recording and restart the app.";

impl CaptureError {
    /// The message shown to the user.
    pub fn message(&self) -> (r: String)
        ensures
            r@ == capture_error_text(*self),
    {
        match self {
            CaptureError::Unsupported(CaptureMode::Interactive) => String::from_str(
                "Interactive capture not supported on this platform",
            ),
            CaptureError::Unsupported(CaptureMode::Fullscreen) => String::from_str(
                "Fullscreen capture not supported on this platform",
            ),
            CaptureError::Unsupported(CaptureMode::Window) => String::from_str(
                "Window capture not supported on this platform",
            ),
            CaptureError::AlreadyInProgress => String::from_str(
                "Another screenshot capture is already in progress",
            ),
            CaptureError::PermissionNotGranted => String::from_str(PERMISSION_CHECK_TEXT),
            CaptureError::PermissionRequired => String::from_str(PERMISSION_REQUIRED_TEXT),
            CaptureError::ToolFailed(msg) => String::from_str("Failed to run screencapture: ").concat(
                msg.as_str(),
            ),
            CaptureError::Cancelled => String::from_str("Screenshot was cancelled or failed"),
            CaptureError::Failed => String::from_str("Screenshot failed"),
            CaptureError::NoMonitors => String::from_str("No monitors available"),
        }
    }
}

/// Text from the capture tool that reports missing screen-recording permission.
pub open spec fn reports_denial(text: Seq<char>) -> bool {
    occurs_in(text, "permission"@) || occurs_in(text, "denied"@) || occurs_in(
        text,
        "not authorized"@,
    )
}

/// Whether `text` contains one of the phrases by which the capture tool
/// reports missing permission.
pub fn mentions_permission_denial(text: &str) -> (r: bool)
    ensures
        r == reports_denial(text@),
{
    contains_text(text, "permission") || contains_text(text, "denied") || contains_text(
        text,
        "not authorized",
    )
}

/// Serialises captures: at most one is in flight at a time.
pub struct CaptureCoordinator {
    in_flight: bool,
}

impl CaptureCoordinator {
    /// Whether a capture is in flight.
    pub closed spec fn busy(&self) -> bool {
        self.in_flight
    }

    pub fn new() -> (r: CaptureCoordinator)
        ensures
            !r.busy(),
    {
        CaptureCoordinator { in_flight: false }
    }

    /// Whether a capture is in flight.
    pub fn is_busy(&self) -> (r: bool)
        ensures
            r == self.busy(),
    {
        self.in_flight
    }

    /// Starts a capture. It fails, and changes nothing, while another capture
    /// is in flight here or while the capture tool is already running
    /// (`tool_running`, which only macOS can observe).
    pub fn try_begin(&mut self, platform: Platform, tool_running: bool) -> (r: Result<
        (),
        CaptureError,
    >)
        ensures
            old(self).busy() ==> r == Err::<(), CaptureError>(CaptureError::AlreadyInProgress),
            !old(self).busy() && platform == Platform::MacOs && tool_running ==> r == Err::<
                (),
                CaptureError,
            >(CaptureError::AlreadyInProgress),
            !old(self).busy() && !(platform == Platform::MacOs && tool_running) ==> r is Ok,
            r is Ok ==> final(self).busy(),
            r is Err ==> final(self).busy() == old(self).busy(),
    {
        if self.in_flight || (platform == Platform::MacOs && tool_running) {
            return Err(CaptureError::AlreadyInProgress);
        }
        self.in_flight = true;
        Ok(())
    }

    /// Ends the capture in flight, whatever its outcome.
    pub fn finish(&mut self)
        ensures
            !final(self).busy(),
    {
        self.in_flight = false;
    }
}

/// Whether the platform's capture tool is already running, from the exit
/// status of a process lookup (`None` where the lookup could not run).
/// Only macOS runs such a tool.
pub fn is_screencapture_running(platform: Platform, lookup_succeeded: Option<bool>) -> (r: bool)
    ensures
        r == (platform == Platform::MacOs && lookup_succeeded == Some(true)),
{
    match platform {
        Platform::MacOs => match lookup_succeeded {
            Some(ok) => ok,
            None => false,
        },
        _ => false,
    }
}

/// What became of the zero-length trial capture that checks permission.
pub enum ProbeOutcome {
    /// The tool ran; this is what it wrote to its error stream.
    Ran(String),
    /// The tool could not be started; this is the error's text.
    SpawnFailed(String),
}

/// The text of a probe outcome that is searched for a denial.
pub open spec fn probe_text(p: ProbeOutcome) -> Seq<char> {
    match p {
        ProbeOutcome::Ran(s) => s@,
        ProbeOutcome::SpawnFailed(s) => s@,
    }
}

/// Decides from the trial capture whether screen recording is permitted.
/// Only macOS asks for the permission.
pub fn check_and_activate_permission(platform: Platform, probe: &ProbeOutcome) -> (r: Result<
    (),
    CaptureError,
>)
    ensures
        platform == Platform::MacOs && reports_denial(probe_text(*probe)) ==> r == Err::<
            (),
            CaptureError,
        >(CaptureError::PermissionNotGranted),
        !(platform == Platform::MacOs && reports_denial(probe_text(*probe))) ==> r is Ok,
{
    if platform != Platform::MacOs {
        return Ok(());
    }
    let text = match probe {
        ProbeOutcome::Ran(s) => s.as_str(),
        ProbeOutcome::SpawnFailed(s) => s.as_str(),
    };
    if mentions_permission_denial(text) {
        Err(CaptureError::PermissionNotGranted)
    } else {
        Ok(())
    }
}

/// The views of a list of arguments.
pub open spec fn arg_views(v: Seq<String>) -> Seq<Seq<char>> {
    v.map_values(|a: String| a@)
}

/// The capture tool's arguments for each mode, writing to `path` silently.
pub open spec fn capture_args(mode: CaptureMode, path: Seq<char>) -> Seq<Seq<char>> {
    match mode {
        CaptureMode::Interactive => seq!["-i"@, "-x"@, path],
        CaptureMode::Fullscreen => seq!["-x"@, path],
        CaptureMode::Window => seq!["-w"@, "-x"@, path],
    }
}

/// The arguments of the macOS capture tool for a capture in `mode` to `path`.
pub fn screencapture_args(mode: CaptureMode, path: &str) -> (r: Vec<String>)
    ensures
        arg_views(r@) == capture_args(mode, path@),
{
    let mut v: Vec<String> = Vec::new();
    match mode {
        CaptureMode::Interactive => v.push(String::from_str("-i")),
        CaptureMode::Window => v.push(String::from_str("-w")),
        CaptureMode::Fullscreen => {},
    }
    v.push(String::from_str("-x"));
    v.push(String::from_str(path));
    assert(arg_views(v@) =~= capture_args(mode, path@));
    v
}

/// The arguments of the zero-length, silent trial capture to `path`.
pub fn probe_args(path: &str) -> (r: Vec<String>)
    ensures
        arg_views(r@) == seq!["-x"@, "-T"@, "0"@, path@],
{
    let mut v: Vec<String> = Vec::new();
    v.push(String::from_str("-x"));
    v.push(String::from_str("-T"));
    v.push(String::from_str("0"));
    v.push(String::from_str(path));
    assert(arg_views(v@) =~= seq!["-x"@, "-T"@, "0"@, path@]);
    v
}

/// Reads the outcome of a macOS capture tool run: whether it exited with
/// success, what it wrote to its error stream, and whether the file it was
/// to write now exists at `path`.
pub fn capture_outcome(
    mode: CaptureMode,
    exit_ok: bool,
    stderr: &str,
    file_exists: bool,
    path: String,
) -> (r: Result<String, CaptureError>)
    ensures
        exit_ok && file_exists ==> r == Ok::<String, CaptureError>(path),
        mode == CaptureMode::Fullscreen && !(exit_ok && file_exists) ==> r == Err::<
            String,
            CaptureError,
        >(CaptureError::Failed),
        mode != CaptureMode::Fullscreen && !exit_ok && reports_denial(stderr@) ==> r == Err::<
            String,
            CaptureError,
        >(CaptureError::PermissionRequired),
        mode != CaptureMode::Fullscreen && !exit_ok && !reports_denial(stderr@) ==> r == Err::<
            String,
            CaptureError,
        >(CaptureError::Cancelled),
        mode != CaptureMode::Fullscreen && exit_ok && !file_exists ==> r == Err::<
            String,
            CaptureError,
        >(CaptureError::Cancelled),
{
    if exit_ok && file_exists {
        return Ok(path);
    }
    if mode == CaptureMode::Fullscreen {
        return Err(CaptureError::Failed);
    }
    if !exit_ok && mentions_permission_denial(stderr) {
        Err(CaptureError::PermissionRequired)
    } else {
        Err(CaptureError::Cancelled)
    }
}

/// Picks the display to capture among `count` displays: the first.
pub fn primary_monitor(count: usize) -> (r: Result<usize, CaptureError>)
    ensures
        count == 0 ==> r == Err::<usize, CaptureError>(CaptureError::NoMonitors),
        count > 0 ==> r == Ok::<usize, CaptureError>(0),
{
    if count == 0 {
        Err(CaptureError::NoMonitors)
    } else {
        Ok(0)
    }
}

/// The name of the file a capture taken at `stamp` is saved under.
pub open spec fn capture_name(stamp: Seq<char>) -> Seq<char> {
    "screenshot_"@ + stamp + ".png"@
}

pub fn capture_file_name(stamp: &str) -> (r: String)
    ensures
        r@ == capture_name(stamp@),
{
    String::from_str("screenshot_").concat(stamp).concat(".png")
}

/// The separator that joins path components on `platform`.
pub open spec fn separator(platform: Platform) -> char {
    if platform == Platform::Windows {
        '\\'
    } else {
        '/'
    }
}

/// Whether `c` separates path components on `platform`.
pub open spec fn is_separator(platform: Platform, c: char) -> bool {
    c == '/' || (platform == Platform::Windows && c == '\\')
}

/// `name` placed inside the directory `dir`.
pub open spec fn joined(platform: Platform, dir: Seq<char>, name: Seq<char>) -> Seq<char> {
    if dir.len() == 0 {
        name
    } else if is_separator(platform, dir.last()) {
        dir + name
    } else {
        dir + seq![separator(platform)] + name
    }
}

/// The path of the file `name` inside the directory `dir`.
pub fn join_path(platform: Platform, dir: &str, name: &str) -> (r: String)
    ensures
        r@ == joined(platform, dir@, name@),
{
    let n = dir.unicode_len();
    if n == 0 {
        return String::from_str(name);
    }
    let last = dir.get_char(n - 1);
    if last == '/' || (platform == Platform::Windows && last == '\\') {
        return String::from_str(dir).concat(name);
    }
    let sep = if platform == Platform::Windows {
        "\\"
    } else {
        "/"
    };
    proof {
        reveal_strlit("\\");
        reveal_strlit("/");
    }
    let r = String::from_str(dir).concat(sep).concat(name);
    assert(r@ =~= joined(platform, dir@, name@));
    r
}

/// Where a capture taken at `stamp` is saved inside `save_dir`.
pub fn capture_destination(platform: Platform, save_dir: &str, stamp: &str) -> (r: String)
    ensures
        r@ == joined(platform, save_dir@, capture_name(stamp@)),
{
    let name = capture_file_name(stamp);
    join_path(platform, save_dir, name.as_str())
}

} // verus!
