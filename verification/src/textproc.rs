//! The text post-formatter: decides when to run the language model, builds
//! the prompt, and falls back to the raw transcript when the model has
//! nothing to say. The model itself stands behind [`LlmAdapter`], which
//! backends (and tests) implement.

use vstd::prelude::*;

use crate::clock::now_millis;
use crate::llm::LlmError;
use crate::prompts::{quick_format_prompt, smart_format_prompt, standard_format_prompt};
use crate::text::{
    chars_eq, chars_to_string, lower_chars, spec_trim, spec_word_count, str_to_chars, trim_chars,
    word_count,
};

verus! {

/// What can go wrong while post-formatting.
#[derive(Debug)]
pub enum ProcessorError {
    LlmError(String),
    EmptyInput,
    Timeout,
}

/// How aggressively the transcript is post-edited.
#[derive(Debug, Clone, Copy, PartialEq, Eq, Structural)]
pub enum FormattingMode {
    Quick,
    Standard,
    Smart,
    Disabled,
}

/// The mode a configuration string names.
pub open spec fn spec_mode_from(s: Seq<char>) -> FormattingMode {
    if crate::text::lower(s) == "quick"@ {
        FormattingMode::Quick
    } else if crate::text::lower(s) == "standard"@ {
        FormattingMode::Standard
    } else if crate::text::lower(s) == "smart"@ {
        FormattingMode::Smart
    } else if crate::text::lower(s) == "disabled"@ {
        FormattingMode::Disabled
    } else {
        FormattingMode::Standard
    }
}

impl FormattingMode {
    /// Read a mode from its configuration string, case-insensitively;
    /// unknown strings mean `Standard`.
    pub fn from_str(s: &str) -> (r: Self)
        ensures
            r == spec_mode_from(s@),
    {
        let l = lower_chars(&str_to_chars(s));
        if chars_eq(&l, &str_to_chars("quick")) {
            FormattingMode::Quick
        } else if chars_eq(&l, &str_to_chars("standard")) {
            FormattingMode::Standard
        } else if chars_eq(&l, &str_to_chars("smart")) {
            FormattingMode::Smart
        } else if chars_eq(&l, &str_to_chars("disabled")) {
            FormattingMode::Disabled
        } else {
            FormattingMode::Standard
        }
    }
}

/// The mode one session formats with: the configured mode only when
/// command mode was armed for that session; plain dictation always uses
/// the smart mode.
pub fn session_formatting_mode(is_command_mode: bool, configured_mode: &str) -> (r:
    FormattingMode)
    ensures
        r == (if is_command_mode {
            spec_mode_from(configured_mode@)
        } else {
            FormattingMode::Smart
        }),
{
    if is_command_mode {
        FormattingMode::from_str(configured_mode)
    } else {
        FormattingMode::Smart
    }
}

/// The outcome of one post-format pass.
#[derive(Debug, Clone)]
pub struct ProcessingResult {
    pub formatted_text: String,
    pub original_text: String,
    pub processing_time_ms: u64,
    pub mode_used: FormattingMode,
}

/// A language model as the post-formatter sees it. Backends implement it
/// over their native runtime; nothing is assumed of what the model
/// returns.
pub trait LlmAdapter {
    /// Load the model stored at the given path.
    fn load_model(&mut self, model_path: &str) -> Result<(), LlmError>;

    /// Run a prompt, producing at most `max_tokens` tokens of output.
    fn generate_response(&self, prompt: &str, max_tokens: u32) -> Result<String, LlmError>;
}

/// What the post-formatter hands on, given the trimmed transcript and the
/// model's output: the output, trimmed, unless that is empty, in which
/// case the transcript stands.
pub open spec fn spec_finalize_formatted(trimmed_raw: Seq<char>, llm_output: Seq<char>) -> Seq<
    char,
> {
    if spec_trim(llm_output).len() == 0 {
        trimmed_raw
    } else {
        spec_trim(llm_output)
    }
}

/// Choose between the model's output and the transcript: the trimmed
/// output, unless it is empty.
pub fn finalize_formatted(trimmed_raw: &str, llm_output: &str) -> (r: String)
    ensures
        r@ == spec_finalize_formatted(trimmed_raw@, llm_output@),
{
    let t = trim_chars(&str_to_chars(llm_output));
    if t.len() == 0 {
        trimmed_raw.to_owned()
    } else {
        chars_to_string(&t)
    }
}

/// Whether a transcript skips the language model: formatting is off, or
/// the transcript is shorter than the configured minimum.
pub open spec fn spec_passthrough(
    mode: FormattingMode,
    raw: Seq<char>,
    min_words: usize,
) -> bool {
    mode == FormattingMode::Disabled || spec_word_count(raw) < min_words
}

/// The text post-formatter: a language model behind [`LlmAdapter`], the
/// configured mode, and the minimum word count below which the model is
/// skipped.
pub struct TextProcessor {
    pub llm_adapter: Box<dyn LlmAdapter>,
    pub mode: FormattingMode,
    pub min_words_for_processing: usize,
}

impl TextProcessor {
    /// A processor over the given adapter, skipping texts under three
    /// words.
    pub fn new(adapter: Box<dyn LlmAdapter>, mode: FormattingMode) -> (r: Self)
        ensures
            r.mode == mode,
            r.min_words_for_processing == 3,
    {
        TextProcessor { llm_adapter: adapter, mode, min_words_for_processing: 3 }
    }

    /// The same processor with another minimum word count.
    pub fn with_min_words(self, min_words: usize) -> (r: Self)
        ensures
            r.mode == self.mode,
            r.min_words_for_processing == min_words,
    {
        TextProcessor { min_words_for_processing: min_words, ..self }
    }

    /// Switch the formatting mode.
    pub fn set_mode(&mut self, mode: FormattingMode)
        ensures
            final(self).mode == mode,
            final(self).min_words_for_processing == old(self).min_words_for_processing,
    {
        self.mode = mode;
    }

    /// The current formatting mode.
    pub fn mode(&self) -> (r: FormattingMode)
        ensures
            r == self.mode,
    {
        self.mode
    }

    /// Post-format one transcript.
    ///
    /// A blank transcript is refused. When formatting is disabled or the
    /// transcript is too short, the trimmed transcript passes through
    /// unchanged, marked `Disabled`. Otherwise the mode's prompt runs
    /// through the model with a 512-token cap: the result is the model's
    /// trimmed output, or the trimmed transcript when the model returns
    /// blank text; a model error is surfaced and fails only this pass.
    /// The reported time is wall-clock milliseconds, at least 1.
    pub fn process(&self, raw_text: &str) -> (r: Result<ProcessingResult, ProcessorError>)
        ensures
            r matches Err(ProcessorError::EmptyInput) <==> spec_trim(raw_text@).len() == 0,
            r matches Ok(res) ==> {
                &&& res.original_text@ == raw_text@
                &&& res.processing_time_ms >= 1
                &&& (spec_passthrough(self.mode, raw_text@, self.min_words_for_processing) ==> (
                res.formatted_text@ == spec_trim(raw_text@) && res.mode_used
                    == FormattingMode::Disabled))
                &&& (!spec_passthrough(self.mode, raw_text@, self.min_words_for_processing) ==> (
                res.mode_used == self.mode && res.formatted_text@.len() > 0
                    && res.formatted_text@ == spec_trim(res.formatted_text@)))
            },
            r matches Err(ProcessorError::LlmError(_)) ==> !spec_passthrough(
                self.mode,
                raw_text@,
                self.min_words_for_processing,
            ) && spec_trim(raw_text@).len() > 0,
            r matches Err(e) ==> (e matches ProcessorError::EmptyInput || e
                matches ProcessorError::LlmError(_)),
            spec_trim(raw_text@).len() > 0 && spec_passthrough(
                self.mode,
                raw_text@,
                self.min_words_for_processing,
            ) ==> r is Ok,
    {
        let start: u64 = now_millis();
        let trimmed_vec = trim_chars(&str_to_chars(raw_text));
        if trimmed_vec.len() == 0 {
            return Err(ProcessorError::EmptyInput);
        }
        let trimmed = chars_to_string(&trimmed_vec);
        let words = word_count(raw_text);
        if matches!(self.mode, FormattingMode::Disabled) || words < self.min_words_for_processing {
            return Ok(ProcessingResult {
                formatted_text: trimmed,
                original_text: raw_text.to_owned(),
                processing_time_ms: elapsed_since(start),
                mode_used: FormattingMode::Disabled,
            });
        }
        let prompt = match self.mode {
            FormattingMode::Quick => quick_format_prompt(trimmed.as_str()),
            FormattingMode::Standard => standard_format_prompt(trimmed.as_str()),
            FormattingMode::Smart => smart_format_prompt(trimmed.as_str()),
            FormattingMode::Disabled => standard_format_prompt(trimmed.as_str()),
        };
        let output = match self.llm_adapter.generate_response(prompt.as_str(), 512) {
            Ok(o) => o,
            Err(e) => {
                return Err(ProcessorError::LlmError(llm_error_text(&e)));
            },
        };
        let formatted = finalize_formatted(trimmed.as_str(), output.as_str());
        proof {
            crate::text::lemma_trim_props(raw_text@);
            crate::text::lemma_trim_fixed(spec_trim(raw_text@));
            crate::text::lemma_trim_props(output@);
            crate::text::lemma_trim_fixed(spec_trim(output@));
        }
        Ok(ProcessingResult {
            formatted_text: formatted,
            original_text: raw_text.to_owned(),
            processing_time_ms: elapsed_since(start),
            mode_used: self.mode,
        })
    }
}

/// A short description of a language-model error.
fn llm_error_text(e: &LlmError) -> (r: String) {
    match e {
        LlmError::ModelNotFound(m) => prefixed_msg("Model not found: ", m),
        LlmError::InferenceFailed(m) => prefixed_msg("Inference failed: ", m),
        LlmError::ModelLoadError(m) => prefixed_msg("Model loading error: ", m),
        LlmError::ConfigError(m) => prefixed_msg("Configuration error: ", m),
        LlmError::UnsupportedPlatform => "Unsupported platform".to_owned(),
        LlmError::IoError(m) => prefixed_msg("IO error: ", m),
        LlmError::ModelError(me) => match me {
            crate::llm::ModelError::DownloadFailed(m) => prefixed_msg(
                "Model error: Download failed: ",
                m,
            ),
            crate::llm::ModelError::NotFound(m) => prefixed_msg("Model error: Model not found: ", m),
            crate::llm::ModelError::IoError(m) => prefixed_msg("Model error: IO error: ", m),
        },
    }
}

/// A prefix followed by a message.
fn prefixed_msg(prefix: &str, m: &String) -> (r: String)
    ensures
        r@ == prefix@ + m@,
{
    let mut s = prefix.to_owned();
    s.append(m.as_str());
    s
}

/// Milliseconds elapsed since the given reading of the clock, at least 1.
fn elapsed_since(start: u64) -> (r: u64)
    ensures
        r >= 1,
{
    let now: u64 = now_millis();
    let d: u64 = if now > start {
        now - start
    } else {
        0
    };
    if d == 0 {
        1
    } else {
        d
    }
}

} // verus!
