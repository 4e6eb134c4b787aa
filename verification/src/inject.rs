//! The clipboard-preserving injector: what the clipboard snapshot holds,
//! how a capture is chosen, the self-paste guard, and the ordered plan of
//! steps that stages the transcript, pastes it into the remembered
//! foreground target and restores the user's clipboard. Carrying the
//! steps out against the OS is the caller's work.

use vstd::prelude::*;

use crate::text::{spec_parse_i32, spec_trim, str_to_chars, trim_chars};

verus! {

/// The application that held focus when dictation began.
#[derive(Debug, Clone, PartialEq, Eq)]
pub enum ForegroundTarget {
    /// A process, by id and name.
    Pid { pid: i32, name: String },
    /// A window, by handle.
    Window { handle: i64 },
}

/// The frontmost process id as reported by the OS query: a positive
/// decimal number, surrounded by whitespace at most.
pub fn parse_frontmost_pid(raw: &str) -> (r: Option<i32>)
    ensures
        r == (match spec_parse_i32(spec_trim(raw@)) {
            Some(p) => if p > 0 {
                Some(p as i32)
            } else {
                None::<i32>
            },
            None => None::<i32>,
        }),
{
    let t = trim_chars(&str_to_chars(raw));
    match crate::text::parse_i32_chars(&t) {
        Some(p) => {
            if p > 0 {
                Some(p)
            } else {
                None
            }
        },
        None => None,
    }
}

/// Whether a target is the core's own process or window.
pub open spec fn is_self_target(t: &ForegroundTarget, self_pid: i32, self_window: i64) -> bool {
    match t {
        ForegroundTarget::Pid { pid, .. } => *pid == self_pid,
        ForegroundTarget::Window { handle } => *handle == self_window,
    }
}

/// Remember the observed foreground target, unless it is the core itself.
///
/// The self-paste guard: an observation naming the core's own process id
/// or window handle leaves the remembered target unchanged, so the
/// injector can never paste into the core.
pub fn remember_active_paste_target(
    slot: &mut Option<ForegroundTarget>,
    observed: Option<ForegroundTarget>,
    self_pid: i32,
    self_window: i64,
) -> (accepted: bool)
    ensures
        accepted <==> (observed matches Some(t) && !is_self_target(&t, self_pid, self_window)),
        accepted ==> *final(slot) == observed,
        !accepted ==> *final(slot) == *old(slot),
{
    match observed {
        Some(t) => {
            let is_self: bool = match &t {
                ForegroundTarget::Pid { pid, .. } => *pid == self_pid,
                ForegroundTarget::Window { handle } => *handle == self_window,
            };
            if is_self {
                false
            } else {
                *slot = Some(t);
                true
            }
        },
        None => false,
    }
}

/// What was on the clipboard when injection began.
#[derive(Debug, Clone, PartialEq, Eq)]
pub enum ClipboardSnapshot {
    Html { html: String, alt_text: String },
    Text(String),
    Image { width: usize, height: usize, bytes: Vec<u8> },
    FileList(Vec<String>),
    Clear,
}

/// What the clipboard holds, as far as the injector can tell.
#[derive(Debug, Clone, PartialEq, Eq)]
pub enum ClipboardContent {
    Html { html: String, alt_text: String },
    Text(String),
    Image { width: usize, height: usize, bytes: Vec<u8> },
    FileList(Vec<String>),
    Empty,
    /// A format the snapshot cannot carry.
    Unrepresentable,
}

/// The snapshot taken of given clipboard content: each representable
/// format keeps its payload; an empty or unrepresentable clipboard
/// degrades to `Clear`.
pub open spec fn spec_capture(c: ClipboardContent) -> ClipboardSnapshot {
    match c {
        ClipboardContent::Html { html, alt_text } => ClipboardSnapshot::Html { html, alt_text },
        ClipboardContent::Text(s) => ClipboardSnapshot::Text(s),
        ClipboardContent::Image { width, height, bytes } => ClipboardSnapshot::Image {
            width,
            height,
            bytes,
        },
        ClipboardContent::FileList(p) => ClipboardSnapshot::FileList(p),
        ClipboardContent::Empty => ClipboardSnapshot::Clear,
        ClipboardContent::Unrepresentable => ClipboardSnapshot::Clear,
    }
}

/// The clipboard content that restoring a snapshot leaves behind.
pub open spec fn spec_restore(s: ClipboardSnapshot) -> ClipboardContent {
    match s {
        ClipboardSnapshot::Html { html, alt_text } => ClipboardContent::Html { html, alt_text },
        ClipboardSnapshot::Text(t) => ClipboardContent::Text(t),
        ClipboardSnapshot::Image { width, height, bytes } => ClipboardContent::Image {
            width,
            height,
            bytes,
        },
        ClipboardSnapshot::FileList(p) => ClipboardContent::FileList(p),
        ClipboardSnapshot::Clear => ClipboardContent::Empty,
    }
}

/// Law: capturing and then restoring the clipboard leaves it exactly as
/// it was, except that an unrepresentable format degrades to empty.
pub proof fn lemma_clipboard_round_trip(c: ClipboardContent)
    ensures
        spec_restore(spec_capture(c)) == (match c {
            ClipboardContent::Unrepresentable => ClipboardContent::Empty,
            other => other,
        }),
{
}

/// Take the snapshot of given clipboard content, as [`spec_capture`]
/// says.
pub fn capture_content(c: ClipboardContent) -> (r: ClipboardSnapshot)
    ensures
        r == spec_capture(c),
{
    match c {
        ClipboardContent::Html { html, alt_text } => ClipboardSnapshot::Html { html, alt_text },
        ClipboardContent::Text(s) => ClipboardSnapshot::Text(s),
        ClipboardContent::Image { width, height, bytes } => ClipboardSnapshot::Image {
            width,
            height,
            bytes,
        },
        ClipboardContent::FileList(p) => ClipboardSnapshot::FileList(p),
        ClipboardContent::Empty => ClipboardSnapshot::Clear,
        ClipboardContent::Unrepresentable => ClipboardSnapshot::Clear,
    }
}

/// The clipboard content that restoring a snapshot writes back, as
/// [`spec_restore`] says.
pub fn restore_content(s: ClipboardSnapshot) -> (r: ClipboardContent)
    ensures
        r == spec_restore(s),
{
    match s {
        ClipboardSnapshot::Html { html, alt_text } => ClipboardContent::Html { html, alt_text },
        ClipboardSnapshot::Text(t) => ClipboardContent::Text(t),
        ClipboardSnapshot::Image { width, height, bytes } => ClipboardContent::Image {
            width,
            height,
            bytes,
        },
        ClipboardSnapshot::FileList(p) => ClipboardContent::FileList(p),
        ClipboardSnapshot::Clear => ClipboardContent::Empty,
    }
}

/// Choose the snapshot from what each read attempt yielded: the first of
/// HTML, plain text, image, file list that succeeded, else `Clear`.
pub fn snapshot_from_reads(
    html: Option<(String, String)>,
    text: Option<String>,
    image: Option<(usize, usize, Vec<u8>)>,
    files: Option<Vec<String>>,
) -> (r: ClipboardSnapshot)
    ensures
        r == (match (html, text, image, files) {
            (Some(h), _, _, _) => ClipboardSnapshot::Html { html: h.0, alt_text: h.1 },
            (None, Some(t), _, _) => ClipboardSnapshot::Text(t),
            (None, None, Some(im), _) => ClipboardSnapshot::Image {
                width: im.0,
                height: im.1,
                bytes: im.2,
            },
            (None, None, None, Some(p)) => ClipboardSnapshot::FileList(p),
            (None, None, None, None) => ClipboardSnapshot::Clear,
        }),
{
    match html {
        Some(h) => ClipboardSnapshot::Html { html: h.0, alt_text: h.1 },
        None => match text {
            Some(t) => ClipboardSnapshot::Text(t),
            None => match image {
                Some(im) => ClipboardSnapshot::Image { width: im.0, height: im.1, bytes: im.2 },
                None => match files {
                    Some(p) => ClipboardSnapshot::FileList(p),
                    None => ClipboardSnapshot::Clear,
                },
            },
        },
    }
}

/// One step of the injection sequence.
#[derive(Debug, Clone, Copy, PartialEq, Eq, Structural)]
pub enum InjectStep {
    /// Read and remember the current clipboard.
    SnapshotClipboard,
    /// Put the dictated text on the clipboard.
    StageText,
    /// Give focus back to the remembered foreground target.
    RestoreFocus,
    /// Wait this many milliseconds for the OS to catch up.
    SleepMs(u64),
    /// Send the platform paste chord.
    PasteChord,
    /// Drive the scripted activate-and-paste path into the target process.
    ScriptedPaste,
    /// Write the snapshot back, retrying this often at this interval.
    RestoreClipboardRetries { attempts: u8, interval_ms: u64 },
    /// Last resort: type the text key by key.
    TypeText,
}

/// The ordered steps that paste `text` while preserving the clipboard.
///
/// Blank text is a no-op. Without a clipboard the text is typed directly
/// after focus returns. Otherwise the clipboard is snapshotted and the
/// text staged; the paste goes through the scripted path when available,
/// else focus is restored and the chord sent; and after a settling pause
/// the snapshot is written back with up to ten retries 80 ms apart.
pub fn paste_plan(text: &str, clipboard_available: bool, use_scripted_paste: bool) -> (r: Vec<
    InjectStep,
>)
    ensures
        spec_trim(text@).len() == 0 ==> r@.len() == 0,
        spec_trim(text@).len() > 0 && !clipboard_available ==> r@ =~= seq![
            InjectStep::RestoreFocus,
            InjectStep::TypeText,
        ],
        spec_trim(text@).len() > 0 && clipboard_available && use_scripted_paste ==> r@ =~= seq![
            InjectStep::SnapshotClipboard,
            InjectStep::StageText,
            InjectStep::ScriptedPaste,
            InjectStep::SleepMs(120u64),
            InjectStep::RestoreClipboardRetries { attempts: 10u8, interval_ms: 80u64 },
        ],
        spec_trim(text@).len() > 0 && clipboard_available && !use_scripted_paste ==> r@ =~= seq![
            InjectStep::SnapshotClipboard,
            InjectStep::StageText,
            InjectStep::RestoreFocus,
            InjectStep::SleepMs(50u64),
            InjectStep::PasteChord,
            InjectStep::SleepMs(120u64),
            InjectStep::RestoreClipboardRetries { attempts: 10u8, interval_ms: 80u64 },
        ],
{
    let t = trim_chars(&str_to_chars(text));
    let mut r: Vec<InjectStep> = Vec::new();
    if t.len() == 0 {
        return r;
    }
    if !clipboard_available {
        r.push(InjectStep::RestoreFocus);
        r.push(InjectStep::TypeText);
        return r;
    }
    r.push(InjectStep::SnapshotClipboard);
    r.push(InjectStep::StageText);
    if use_scripted_paste {
        r.push(InjectStep::ScriptedPaste);
    } else {
        r.push(InjectStep::RestoreFocus);
        r.push(InjectStep::SleepMs(50));
        r.push(InjectStep::PasteChord);
    }
    r.push(InjectStep::SleepMs(120));
    r.push(InjectStep::RestoreClipboardRetries { attempts: 10, interval_ms: 80 });
    r
}

/// The steps taken when staging the text on the clipboard failed after
/// all: give focus back and type the text directly.
pub fn staging_failed_plan() -> (r: Vec<InjectStep>)
    ensures
        r@ =~= seq![InjectStep::RestoreFocus, InjectStep::TypeText],
{
    let mut r: Vec<InjectStep> = Vec::new();
    r.push(InjectStep::RestoreFocus);
    r.push(InjectStep::TypeText);
    r
}

} // verus!
