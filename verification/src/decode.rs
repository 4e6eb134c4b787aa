//! The two-profile decode plan. A whisper-family decode first runs a
//! strict beam-search profile biased to a language; when that comes back
//! empty the plan retries with automatic language detection (unless the
//! caller pinned a language) and finally with a permissive greedy profile
//! whose result stands, empty or not.

use vstd::prelude::*;

use crate::stt::{SttConfig, TranscriptionTask};
use crate::text::{spec_trim, str_to_chars, trim_chars};

verus! {

/// The decoder profile: strict beam search, or the permissive greedy
/// fallback with suppression switched off.
#[derive(Debug, Clone, Copy, PartialEq, Eq, Structural)]
pub enum DecodeProfile {
    Primary,
    PermissiveFallback,
}

/// One decode to run: the profile, the language to bias to (nothing means
/// automatic detection), and whether to translate.
#[derive(Debug, Clone, PartialEq, Eq)]
pub struct DecodeRequest {
    pub profile: DecodeProfile,
    pub language: Option<String>,
    pub translate: bool,
}

/// The caller's language hint, trimmed; blank hints count as absent.
pub open spec fn spec_language_hint(config: SttConfig) -> Option<Seq<char>> {
    match config.language {
        Some(l) => if spec_trim(l@).len() > 0 {
            Some(spec_trim(l@))
        } else {
            None
        },
        None => None,
    }
}

/// The language the first decode is biased to: the hint, else English.
pub open spec fn spec_preferred_language(config: SttConfig) -> Seq<char> {
    match spec_language_hint(config) {
        Some(l) => l,
        None => "en"@,
    }
}

/// The stations of the decode plan.
#[derive(Debug, Clone, Copy, PartialEq, Eq, Structural)]
pub enum DecodeStage {
    /// Nothing run yet: next is the primary profile, biased.
    Start,
    /// The biased primary decode ran: next, if it was empty, is automatic
    /// detection (when no language was pinned) or the permissive profile.
    PrimaryDone,
    /// The automatic-detection decode ran: next, if it was empty, is the
    /// permissive profile.
    AutoDone,
    /// The permissive decode ran: its result stands.
    PermissiveDone,
}

/// The two-profile decode plan for one buffer.
#[derive(Debug, Clone)]
pub struct DecodePlan {
    pub preferred_language: String,
    pub hint_pinned: bool,
    pub translate: bool,
    pub stage: DecodeStage,
}

impl DecodePlan {
    /// Start a plan from the decoder configuration: the bias language is
    /// the trimmed hint, else English; the hint counts as pinned when
    /// present and nonblank.
    pub fn new(config: &SttConfig) -> (r: Self)
        ensures
            r.preferred_language@ == spec_preferred_language(*config),
            r.hint_pinned == (spec_language_hint(*config) is Some),
            r.translate == (config.task == TranscriptionTask::Translate),
            r.stage == DecodeStage::Start,
    {
        let (lang, pinned): (String, bool) = match &config.language {
            Some(l) => {
                let t = trim_chars(&str_to_chars(l.as_str()));
                if t.len() > 0 {
                    (crate::text::chars_to_string(&t), true)
                } else {
                    ("en".to_owned(), false)
                }
            },
            None => ("en".to_owned(), false),
        };
        let translate = matches!(config.task, TranscriptionTask::Translate);
        DecodePlan { preferred_language: lang, hint_pinned: pinned, translate, stage: DecodeStage::Start }
    }

    /// The next decode to run, given whether the previous decode came
    /// back empty.
    ///
    /// The first call runs the primary profile biased to the preferred
    /// language. A non-empty result ends the plan. An empty primary
    /// result retries with automatic detection when no language was
    /// pinned, else goes straight to the permissive profile, biased; an
    /// empty automatic result also falls through to the permissive
    /// profile, whose result stands either way.
    pub fn next_request(&mut self, previous_empty: bool) -> (r: Option<DecodeRequest>)
        ensures
            final(self).preferred_language@ == old(self).preferred_language@,
            final(self).hint_pinned == old(self).hint_pinned,
            final(self).translate == old(self).translate,
            old(self).stage == DecodeStage::Start ==> {
                &&& r matches Some(q) && q.profile == DecodeProfile::Primary && (
                q.language matches Some(l) && l@ == old(self).preferred_language@) && q.translate
                    == old(self).translate
                &&& final(self).stage == DecodeStage::PrimaryDone
            },
            old(self).stage == DecodeStage::PrimaryDone && !previous_empty ==> r is None && final(self).stage == old(self).stage,
            old(self).stage == DecodeStage::PrimaryDone && previous_empty && !old(self).hint_pinned
                ==> {
                &&& r matches Some(q) && q.profile == DecodeProfile::Primary && q.language is None
                    && q.translate == old(self).translate
                &&& final(self).stage == DecodeStage::AutoDone
            },
            old(self).stage == DecodeStage::PrimaryDone && previous_empty && old(self).hint_pinned
                ==> {
                &&& r matches Some(q) && q.profile == DecodeProfile::PermissiveFallback && (
                q.language matches Some(l) && l@ == old(self).preferred_language@) && q.translate
                    == old(self).translate
                &&& final(self).stage == DecodeStage::PermissiveDone
            },
            old(self).stage == DecodeStage::AutoDone && !previous_empty ==> r is None && final(self).stage == old(self).stage,
            old(self).stage == DecodeStage::AutoDone && previous_empty ==> {
                &&& r matches Some(q) && q.profile == DecodeProfile::PermissiveFallback && (
                q.language matches Some(l) && l@ == old(self).preferred_language@) && q.translate
                    == old(self).translate
                &&& final(self).stage == DecodeStage::PermissiveDone
            },
            old(self).stage == DecodeStage::PermissiveDone ==> r is None && final(self).stage
                == old(self).stage,
    {
        match self.stage {
            DecodeStage::Start => {
                self.stage = DecodeStage::PrimaryDone;
                Some(DecodeRequest {
                    profile: DecodeProfile::Primary,
                    language: Some(crate::store::clone_string(&self.preferred_language)),
                    translate: self.translate,
                })
            },
            DecodeStage::PrimaryDone => {
                if !previous_empty {
                    return None;
                }
                if !self.hint_pinned {
                    self.stage = DecodeStage::AutoDone;
                    Some(DecodeRequest {
                        profile: DecodeProfile::Primary,
                        language: None,
                        translate: self.translate,
                    })
                } else {
                    self.stage = DecodeStage::PermissiveDone;
                    Some(DecodeRequest {
                        profile: DecodeProfile::PermissiveFallback,
                        language: Some(crate::store::clone_string(&self.preferred_language)),
                        translate: self.translate,
                    })
                }
            },
            DecodeStage::AutoDone => {
                if !previous_empty {
                    return None;
                }
                self.stage = DecodeStage::PermissiveDone;
                Some(DecodeRequest {
                    profile: DecodeProfile::PermissiveFallback,
                    language: Some(crate::store::clone_string(&self.preferred_language)),
                    translate: self.translate,
                })
            },
            DecodeStage::PermissiveDone => None,
        }
    }
}

/// The decoder-context attempts to make, in order: the GPU first when it
/// is preferred, then the CPU as the transparent fallback; a failed GPU
/// load must not fail the session while the CPU can still serve.
pub fn context_attempts(prefer_gpu: bool) -> (r: Vec<bool>)
    ensures
        prefer_gpu ==> r@ =~= seq![true, false],
        !prefer_gpu ==> r@ =~= seq![false],
{
    let mut r: Vec<bool> = Vec::new();
    if prefer_gpu {
        r.push(true);
    }
    r.push(false);
    r
}

/// Whether the decoder prefers a GPU backend, and which one: Metal on
/// Apple aarch64, Vulkan on Windows, the CPU elsewhere.
pub fn preferred_backend(os: &str, arch: &str) -> (r: (bool, String))
    ensures
        os@ == "macos"@ && arch@ == "aarch64"@ ==> r.0 && r.1@ == "metal"@,
        os@ == "macos"@ && arch@ != "aarch64"@ ==> !r.0 && r.1@ == "cpu"@,
        os@ == "windows"@ ==> r.0 && r.1@ == "vulkan"@,
        os@ != "macos"@ && os@ != "windows"@ ==> !r.0 && r.1@ == "cpu"@,
{
    proof {
        reveal_strlit("macos");
        reveal_strlit("windows");
        assert("macos"@.len() == 5 && "windows"@.len() == 7);
    }
    let osc = str_to_chars(os);
    if crate::text::chars_eq(&osc, &str_to_chars("macos")) {
        if crate::text::chars_eq(&str_to_chars(arch), &str_to_chars("aarch64")) {
            (true, "metal".to_owned())
        } else {
            (false, "cpu".to_owned())
        }
    } else if crate::text::chars_eq(&osc, &str_to_chars("windows")) {
        (true, "vulkan".to_owned())
    } else {
        (false, "cpu".to_owned())
    }
}

/// The decoder thread count: the hardware parallelism capped at eight,
/// with a floor of four; four when the parallelism is unknown.
pub fn optimal_threads(parallelism: Option<usize>) -> (r: i32)
    ensures
        r == (match parallelism {
            Some(n) => if n < 4 {
                4int
            } else if n < 8 {
                n as int
            } else {
                8int
            },
            None => 4int,
        }),
        4 <= r <= 8,
{
    match parallelism {
        Some(n) => {
            if n < 4 {
                4
            } else if n < 8 {
                n as i32
            } else {
                8
            }
        },
        None => 4,
    }
}

} // verus!
