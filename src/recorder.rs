//! The recording session: which output it targets and how it is closed.
//!
//! The container writer itself lives with the caller; this module decides
//! what a session is and what closing it must do.

use vstd::prelude::*;

verus! {

/// Channel count of every recording: mono.
pub const CHANNELS: u16 = 1;

/// Sample rate of every recording, in samples per second.
pub const SAMPLE_RATE: u32 = 16000;

/// Bits per stored sample: signed 16-bit linear PCM.
pub const BITS_PER_SAMPLE: u16 = 16;

/// What a session is, in spec terms.
pub struct SessionView {
    pub path: Seq<char>,
    pub active: bool,
}

/// A recording session: either inactive (no output path was given) or
/// active on one output path.
pub struct RecordingSession {
    path: String,
    active: bool,
}

impl View for RecordingSession {
    type V = SessionView;

    closed spec fn view(&self) -> SessionView {
        SessionView { path: self.path@, active: self.active }
    }
}

/// What closing a session must do.
pub struct FinalizePlan {
    /// Whether the open writer must be finalized (header written, file closed).
    pub close_writer: bool,
    /// The message reported to the user once that is done; `None` when there
    /// was nothing to do.
    pub message: Option<String>,
}

/// Message for a consistent active session whose writer was closed.
pub open spec fn finished_message(path: Seq<char>) -> Seq<char> {
    "[Recording] Finished saving audio to "@ + path
}

/// Message for a writer that was open while the session flags disagreed.
pub open spec fn inconsistent_message(path: Seq<char>) -> Seq<char> {
    "[Recording] Finalized audio file at "@ + path + " (state was potentially inconsistent)."@
}

/// Message for an active session on a path whose writer is already gone.
pub open spec fn no_writer_message(path: Seq<char>) -> Seq<char> {
    "[Recording] Attempted to finalize, but no active writer for "@ + path
        + ". File might have been finalized or failed to open."@
}

/// Message for an active session with neither a path nor a writer.
pub open spec fn empty_path_message() -> Seq<char> {
    "[Recording] Recording was intended but path was empty and no writer; nothing saved."@
}

/// The plan for closing a session in state `s` while a writer is open or not.
pub open spec fn finalize_spec(s: SessionView, writer_open: bool) -> (bool, Option<Seq<char>>) {
    if writer_open {
        if s.active && s.path.len() > 0 {
            (true, Some(finished_message(s.path)))
        } else {
            (true, Some(inconsistent_message(s.path)))
        }
    } else if s.active {
        if s.path.len() > 0 {
            (false, Some(no_writer_message(s.path)))
        } else {
            (false, Some(empty_path_message()))
        }
    } else {
        (false, None)
    }
}

impl FinalizePlan {
    /// The plan as a pair of plain values.
    pub open spec fn spec_plan(&self) -> (bool, Option<Seq<char>>) {
        (
            self.close_writer,
            match self.message {
                Some(m) => Some(m@),
                None => None,
            },
        )
    }
}

impl RecordingSession {
    /// Starts a session: active on `path_opt` when one is given, inactive
    /// otherwise.
    pub fn new(path_opt: Option<&str>) -> (r: RecordingSession)
        ensures
            match path_opt {
                Some(p) => r@ == SessionView { path: p@, active: true },
                None => r@ == SessionView { path: Seq::<char>::empty(), active: false },
            },
    {
        match path_opt {
            Some(p) => RecordingSession { path: String::from_str(p), active: true },
            None => RecordingSession { path: String::new(), active: false },
        }
    }

    /// Whether this session records to a file.
    pub fn is_recording(&self) -> (r: bool)
        ensures
            r == self@.active,
    {
        self.active
    }

    /// The output path of this session; empty when inactive.
    pub fn path(&self) -> (r: &str)
        ensures
            r@ == self@.path,
    {
        self.path.as_str()
    }

    /// Ends the session and says what closing it requires, given whether a
    /// writer is still open. An inactive session without a writer has
    /// nothing to do; every other state gets a message, and an open writer
    /// is always closed, whatever the flags say.
    pub fn finalize(self, writer_open: bool) -> (r: FinalizePlan)
        ensures
            r.spec_plan() == finalize_spec(self@, writer_open),
    {
        let active = self.active;
        let has_path = !self.path.as_str().is_empty();
        if writer_open {
            if active && has_path {
                let m = String::from_str("[Recording] Finished saving audio to ").concat(self.path.as_str());
                FinalizePlan { close_writer: true, message: Some(m) }
            } else {
                let m = String::from_str("[Recording] Finalized audio file at ")
                    .concat(self.path.as_str())
                    .concat(" (state was potentially inconsistent).");
                FinalizePlan { close_writer: true, message: Some(m) }
            }
        } else if active {
            if has_path {
                let m = String::from_str("[Recording] Attempted to finalize, but no active writer for ")
                    .concat(self.path.as_str())
                    .concat(". File might have been finalized or failed to open.");
                FinalizePlan { close_writer: false, message: Some(m) }
            } else {
                let m = String::from_str(
                    "[Recording] Recording was intended but path was empty and no writer; nothing saved.",
                );
                FinalizePlan { close_writer: false, message: Some(m) }
            }
        } else {
            FinalizePlan { close_writer: false, message: None }
        }
    }
}

} // verus!

verus! {

/// Closing a session that was started without a path, with no writer open,
/// has nothing to do: no writer to close and no message.
pub proof fn pathless_session_finalizes_silently(s: SessionView)
    requires
        s == (SessionView { path: Seq::<char>::empty(), active: false }),
    ensures
        finalize_spec(s, false) == (false, Option::<Seq<char>>::None),
{
}

/// Closing an active session on a non-empty path while its writer is open
/// closes the writer and reports a message that contains the path.
pub proof fn active_session_reports_its_path(path: Seq<char>)
    requires
        path.len() > 0,
    ensures
        finalize_spec(SessionView { path, active: true }, true) == (true, Some(finished_message(path))),
        exists|i: int|
            0 <= i && i + path.len() <= finished_message(path).len()
                && #[trigger] finished_message(path).subrange(i, i + path.len()) == path,
{
    let pre = "[Recording] Finished saving audio to "@;
    let m = finished_message(path);
    assert(m.subrange(pre.len() as int, (pre.len() + path.len()) as int) =~= path);
    assert(finalize_spec(SessionView { path, active: true }, true) == (true, Some(m)));
    assert(m.len() == pre.len() + path.len());
}

} // verus!
