//! The session orchestrator: the dictation pipeline's top-level state
//! machine. It accepts start and stop signals, keeps at most one session
//! alive at a time, and fixes the order of the status and result events
//! handed to the UI layer.

use vstd::prelude::*;

use crate::stt::AudioFormat;

verus! {

/// Where the pipeline stands, as shown to the user.
#[derive(Debug, Clone, Copy, PartialEq, Eq, Structural)]
pub enum SessionStatus {
    Idle,
    Listening,
    Processing,
    Error,
}

/// One event for the UI layer.
#[derive(Debug, Clone, PartialEq, Eq)]
pub enum UiEvent {
    Status { status: SessionStatus, error: Option<String> },
    AudioLevel(u8),
    TranscriptionResult { text: String, language: Option<String>, is_final: bool },
}

/// One live dictation session.
#[derive(Debug, Clone)]
pub struct Session {
    pub is_hands_free: bool,
    pub is_command_mode: bool,
    pub format: AudioFormat,
}

/// How a stopped session ended.
#[derive(Debug)]
pub enum StopOutcome {
    /// Nothing worth decoding: an empty buffer, or sound below the
    /// silence floor.
    Silent,
    /// A transcript was produced and injected.
    Completed { text: String, language: Option<String> },
    /// Some step before injection failed.
    Failed { message: String },
}

/// The orchestrator: the published status, the one live session if any,
/// and ghost counters of sessions begun and ended.
pub struct Orchestrator {
    pub status: SessionStatus,
    pub session: Option<Session>,
    pub started: Ghost<nat>,
    pub ended: Ghost<nat>,
}

impl Orchestrator {
    /// The orchestrator invariant: sessions are properly bracketed — the
    /// number begun exceeds the number ended exactly while one is live —
    /// and the published status matches: a live session listens or
    /// processes; otherwise the pipeline is idle or in error.
    pub open spec fn wf(&self) -> bool {
        &&& self.ended@ <= self.started@ <= self.ended@ + 1
        &&& (self.session is Some <==> self.started@ == self.ended@ + 1)
        &&& (self.session is Some ==> self.status == SessionStatus::Listening || self.status
            == SessionStatus::Processing)
        &&& (self.session is None ==> self.status == SessionStatus::Idle || self.status
            == SessionStatus::Error)
    }

    /// A fresh, idle orchestrator.
    pub fn new() -> (r: Self)
        ensures
            r.wf(),
            r.status == SessionStatus::Idle,
            r.session is None,
            r.started@ == 0,
            r.ended@ == 0,
    {
        Orchestrator {
            status: SessionStatus::Idle,
            session: None,
            started: Ghost(0nat),
            ended: Ghost(0nat),
        }
    }

    /// Begin a session, unless one is already live.
    ///
    /// The single-session guard: while a session exists, a further start
    /// changes nothing and emits nothing. Otherwise a session begins,
    /// the status becomes `listening`, and exactly that status event is
    /// emitted.
    pub fn request_start(&mut self, is_hands_free: bool, is_command_mode: bool, format: AudioFormat)
        -> (r: (bool, Vec<UiEvent>))
        requires
            old(self).wf(),
        ensures
            final(self).wf(),
            r.0 <==> old(self).session is None,
            !r.0 ==> *final(self) == *old(self) && r.1@.len() == 0,
            r.0 ==> {
                &&& final(self).status == SessionStatus::Listening
                &&& final(self).session matches Some(s) && s.is_hands_free == is_hands_free
                    && s.is_command_mode == is_command_mode && s.format == format
                &&& final(self).started@ == old(self).started@ + 1
                &&& final(self).ended@ == old(self).ended@
                &&& r.1@.len() == 1
                &&& r.1@[0] matches UiEvent::Status { status, error } && status
                    == SessionStatus::Listening && error is None
            },
    {
        if self.session.is_some() {
            return (false, Vec::new());
        }
        self.session = Some(Session { is_hands_free, is_command_mode, format });
        self.status = SessionStatus::Listening;
        proof {
            self.started@ = self.started@ + 1;
        }
        let mut events: Vec<UiEvent> = Vec::new();
        events.push(UiEvent::Status { status: SessionStatus::Listening, error: None });
        (true, events)
    }

    /// Report one audio level reading; shown only while listening.
    pub fn on_audio_level(&self, level: u8) -> (r: Option<UiEvent>)
        ensures
            r is Some <==> self.status == SessionStatus::Listening,
            r matches Some(e) ==> e matches UiEvent::AudioLevel(l) && l == level,
    {
        if matches!(self.status, SessionStatus::Listening) {
            Some(UiEvent::AudioLevel(level))
        } else {
            None
        }
    }

    /// Move a live session from listening to processing, emitting exactly
    /// that status. Without a live session nothing happens.
    pub fn begin_stop(&mut self) -> (r: Vec<UiEvent>)
        requires
            old(self).wf(),
        ensures
            final(self).wf(),
            old(self).session is None ==> *final(self) == *old(self) && r@.len() == 0,
            old(self).session is Some ==> {
                &&& final(self).status == SessionStatus::Processing
                &&& final(self).session == old(self).session
                &&& final(self).started@ == old(self).started@
                &&& final(self).ended@ == old(self).ended@
                &&& r@.len() == 1
                &&& r@[0] matches UiEvent::Status { status, error } && status
                    == SessionStatus::Processing && error is None
            },
    {
        if self.session.is_none() {
            return Vec::new();
        }
        self.status = SessionStatus::Processing;
        let mut events: Vec<UiEvent> = Vec::new();
        events.push(UiEvent::Status { status: SessionStatus::Processing, error: None });
        events
    }

    /// Close the live session with its outcome.
    ///
    /// Silence ends in `idle` with no result and no paste. A completed
    /// transcript emits the final result and then `idle`. A failure emits
    /// `error` with its message; the next session may start either way.
    pub fn finish_stop(&mut self, outcome: StopOutcome) -> (r: Vec<UiEvent>)
        requires
            old(self).wf(),
            old(self).session is Some,
        ensures
            final(self).wf(),
            final(self).session is None,
            final(self).started@ == old(self).started@,
            final(self).ended@ == old(self).ended@ + 1,
            outcome matches StopOutcome::Silent ==> {
                &&& final(self).status == SessionStatus::Idle
                &&& r@.len() == 1
                &&& r@[0] matches UiEvent::Status { status, error } && status
                    == SessionStatus::Idle && error is None
            },
            outcome matches StopOutcome::Completed { text, language } ==> {
                &&& final(self).status == SessionStatus::Idle
                &&& r@.len() == 2
                &&& r@[0] matches UiEvent::TranscriptionResult {
                    text: t,
                    language: l,
                    is_final,
                } && t == text && l == language && is_final
                &&& r@[1] matches UiEvent::Status { status, error } && status
                    == SessionStatus::Idle && error is None
            },
            outcome matches StopOutcome::Failed { message } ==> {
                &&& final(self).status == SessionStatus::Error
                &&& r@.len() == 1
                &&& r@[0] matches UiEvent::Status { status, error } && status
                    == SessionStatus::Error && error == Some(message)
            },
    {
        self.session = None;
        proof {
            self.ended@ = self.ended@ + 1;
        }
        let mut events: Vec<UiEvent> = Vec::new();
        match outcome {
            StopOutcome::Silent => {
                self.status = SessionStatus::Idle;
                events.push(UiEvent::Status { status: SessionStatus::Idle, error: None });
            },
            StopOutcome::Completed { text, language } => {
                self.status = SessionStatus::Idle;
                events.push(UiEvent::TranscriptionResult { text, language, is_final: true });
                events.push(UiEvent::Status { status: SessionStatus::Idle, error: None });
            },
            StopOutcome::Failed { message } => {
                self.status = SessionStatus::Error;
                events.push(UiEvent::Status {
                    status: SessionStatus::Error,
                    error: Some(message),
                });
            },
        }
        events
    }
}

/// Law: at most one session exists at any instant — the sessions begun
/// never run more than one ahead of the sessions ended, and they do so
/// exactly while a session is live.
pub proof fn lemma_single_session(o: &Orchestrator)
    requires
        o.wf(),
    ensures
        o.started@ - o.ended@ <= 1,
        (o.started@ - o.ended@ == 1) <==> o.session is Some,
{
}

/// Decide whether to mute the system output when recording starts: only
/// when the setting asks for it, remembering whether it was already muted
/// so the restore can leave it that way.
pub fn mute_decision(mute_setting_on: bool, already_muted: bool, was_muted: &mut Option<bool>)
    -> (do_mute: bool)
    ensures
        do_mute == (mute_setting_on && !already_muted),
        mute_setting_on ==> *final(was_muted) == Some(already_muted),
        !mute_setting_on ==> *final(was_muted) == *old(was_muted),
{
    if !mute_setting_on {
        return false;
    }
    *was_muted = Some(already_muted);
    !already_muted
}

/// Decide whether to unmute the system output when the session ends: only
/// when recording had muted it, and it was not muted before. The
/// remembered state is consumed either way.
pub fn unmute_decision(was_muted: &mut Option<bool>) -> (do_unmute: bool)
    ensures
        do_unmute == (*old(was_muted) == Some(false)),
        *final(was_muted) is None,
{
    let prior = was_muted.take();
    match prior {
        Some(m) => !m,
        None => false,
    }
}

/// Whether enough audio has gathered for a non-authoritative partial
/// decode: at least two seconds at 16 kHz, with the decoder already
/// holding the active model.
pub fn partial_decode_due(samples_len: usize, adapter_ready: bool, model_matches: bool) -> (r:
    bool)
    ensures
        r == (samples_len >= 32000 && adapter_ready && model_matches),
{
    samples_len >= 32000 && adapter_ready && model_matches
}

} // verus!
