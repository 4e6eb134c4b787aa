//! Speech-to-text types: errors, audio and model configuration, and the
//! transcription value with its assembly from raw decoder segments.

use vstd::prelude::*;

use crate::text::{
    append_chars, chars_to_string, spec_trim, str_to_chars, trim_chars,
};

verus! {

/// What can go wrong between a model name and a transcript.
#[derive(Debug)]
pub enum SttError {
    ModelNotFound(String),
    TranscriptionFailed(String),
    AudioError(String),
    ModelLoadError(String),
    UnsupportedPlatform,
}

impl SttError {
    /// The user-facing description of the error.
    pub fn message(&self) -> (r: String)
        ensures
            r@ == spec_stt_error_message(self),
    {
        match self {
            SttError::ModelNotFound(m) => prefixed("Model not found: ", m),
            SttError::TranscriptionFailed(m) => prefixed("Transcription failed: ", m),
            SttError::AudioError(m) => prefixed("Audio processing error: ", m),
            SttError::ModelLoadError(m) => prefixed("Model loading error: ", m),
            SttError::UnsupportedPlatform => "Unsupported platform".to_owned(),
        }
    }
}

/// The description [`SttError::message`] returns.
pub open spec fn spec_stt_error_message(e: &SttError) -> Seq<char> {
    match e {
        SttError::ModelNotFound(m) => "Model not found: "@ + m@,
        SttError::TranscriptionFailed(m) => "Transcription failed: "@ + m@,
        SttError::AudioError(m) => "Audio processing error: "@ + m@,
        SttError::ModelLoadError(m) => "Model loading error: "@ + m@,
        SttError::UnsupportedPlatform => "Unsupported platform"@,
    }
}

/// A prefix followed by a message.
fn prefixed(prefix: &str, m: &String) -> (r: String)
    ensures
        r@ == prefix@ + m@,
{
    let mut s = prefix.to_owned();
    s.append(m.as_str());
    s
}

/// The shape of captured PCM audio.
#[derive(Debug, Clone, PartialEq, Eq, Structural)]
pub struct AudioFormat {
    pub sample_rate: u32,
    pub channels: u16,
    pub bits_per_sample: u16,
}

impl Default for AudioFormat {
    /// 16 kHz mono, 16 bits: what the decoders expect.
    fn default() -> (r: Self)
        ensures
            r.sample_rate == 16000,
            r.channels == 1,
            r.bits_per_sample == 16,
    {
        AudioFormat { sample_rate: 16000, channels: 1, bits_per_sample: 16 }
    }
}

/// Whether the decoder transcribes or translates to English.
#[derive(Debug, Clone, PartialEq, Eq, Structural)]
pub enum TranscriptionTask {
    Transcribe,
    Translate,
}

/// Which model to load, from where, and with what language bias.
#[derive(Debug, Clone)]
pub struct SttConfig {
    pub model_name: String,
    pub model_path: Option<String>,
    pub language: Option<String>,
    pub task: TranscriptionTask,
}

impl Default for SttConfig {
    fn default() -> (r: Self)
        ensures
            r.model_name@ == "base"@,
            r.model_path is None,
            r.language is None,
            r.task == TranscriptionTask::Transcribe,
    {
        SttConfig {
            model_name: "base".to_owned(),
            model_path: None,
            language: None,
            task: TranscriptionTask::Transcribe,
        }
    }
}

/// One decoded segment. Times are centiseconds from the start of the
/// audio, as the native decoders report them.
#[derive(Debug, Clone)]
pub struct TranscriptSegment {
    pub text: String,
    pub start_cs: i64,
    pub end_cs: i64,
}

/// A decoded transcript: the full text, the language, an optional
/// confidence in thousandths, and the per-segment breakdown.
#[derive(Debug, Clone)]
pub struct Transcription {
    pub text: String,
    pub language: Option<String>,
    pub confidence_milli: Option<u32>,
    pub segments: Vec<TranscriptSegment>,
}

/// A segment as the native decoder hands it over.
#[derive(Debug, Clone)]
pub struct RawSegment {
    pub text: String,
    pub start_cs: i64,
    pub end_cs: i64,
}

/// The concatenation of the raw segment texts `raw[i..]`.
pub open spec fn concat_texts_from(raw: Seq<RawSegment>, i: int) -> Seq<char>
    decreases raw.len() - i when 0 <= i <= raw.len()
{
    if i >= raw.len() {
        Seq::empty()
    } else {
        raw[i].text@ + concat_texts_from(raw, i + 1)
    }
}

/// The raw segments `raw[i..]` whose trimmed text is nonempty, trimmed.
pub open spec fn kept_segments_from(raw: Seq<RawSegment>, i: int) -> Seq<
    (Seq<char>, i64, i64),
>
    decreases raw.len() - i when 0 <= i <= raw.len()
{
    if i >= raw.len() {
        Seq::empty()
    } else {
        let t = spec_trim(raw[i].text@);
        if t.len() == 0 {
            kept_segments_from(raw, i + 1)
        } else {
            seq![(t, raw[i].start_cs, raw[i].end_cs)] + kept_segments_from(raw, i + 1)
        }
    }
}

/// The model of a transcription's segments.
pub open spec fn segment_views(segs: Seq<TranscriptSegment>) -> Seq<(Seq<char>, i64, i64)> {
    segs.map_values(|s: TranscriptSegment| (s.text@, s.start_cs, s.end_cs))
}

/// Whether a transcription is empty: no text after trimming, no segments.
pub open spec fn spec_is_empty_result(t: &Transcription) -> bool {
    spec_trim(t.text@).len() == 0 && t.segments@.len() == 0
}

impl Transcription {
    /// Whether the decode produced nothing: blank text and no segments.
    /// This is the test that sends the decoder to its next profile.
    pub fn is_empty_result(&self) -> (r: bool)
        ensures
            r == spec_is_empty_result(self),
    {
        let t = trim_chars(&str_to_chars(self.text.as_str()));
        t.len() == 0 && self.segments.len() == 0
    }
}

/// Build a transcription from raw decoder segments.
///
/// The text is the concatenation of the raw texts, trimmed; the segments
/// kept are those whose trimmed text is nonempty, each carrying its
/// trimmed text and its raw times unchanged.
pub fn assemble_transcription(
    raw: &Vec<RawSegment>,
    language: Option<String>,
) -> (r: Transcription)
    ensures
        r.text@ == spec_trim(concat_texts_from(raw@, 0)),
        segment_views(r.segments@) == kept_segments_from(raw@, 0),
        r.language == language,
        r.confidence_milli is None,
{
    let mut text_chars: Vec<char> = Vec::new();
    let mut segments: Vec<TranscriptSegment> = Vec::new();
    let mut i: usize = 0;
    while i < raw.len()
        invariant
            i <= raw@.len(),
            text_chars@ + concat_texts_from(raw@, i as int) == concat_texts_from(raw@, 0),
            segment_views(segments@) + kept_segments_from(raw@, i as int) == kept_segments_from(
                raw@,
                0,
            ),
        decreases raw@.len() - i,
    {
        let seg_chars = str_to_chars(raw[i].text.as_str());
        append_chars(&mut text_chars, &seg_chars);
        let trimmed = trim_chars(&seg_chars);
        if trimmed.len() > 0 {
            let seg = TranscriptSegment {
                text: chars_to_string(&trimmed),
                start_cs: raw[i].start_cs,
                end_cs: raw[i].end_cs,
            };
            segments.push(seg);
        }
        i = i + 1;
        proof {
            assert(text_chars@ + concat_texts_from(raw@, i as int) =~= concat_texts_from(
                raw@,
                0,
            ));
            assert(segment_views(segments@) + kept_segments_from(raw@, i as int)
                =~= kept_segments_from(raw@, 0));
        }
    }
    let trimmed_text = trim_chars(&text_chars);
    proof {
        assert(segment_views(segments@) =~= kept_segments_from(raw@, 0));
    }
    Transcription {
        text: chars_to_string(&trimmed_text),
        language,
        confidence_milli: None,
        segments,
    }
}

/// Whether raw decoder segments are well ordered: each spans forward in
/// time, and both bounds never decrease from one segment to the next.
pub open spec fn raw_times_monotone(raw: Seq<RawSegment>) -> bool {
    &&& forall|i: int| 0 <= i < raw.len() ==> (#[trigger] raw[i]).start_cs <= raw[i].end_cs
    &&& forall|i: int, j: int|
        0 <= i <= j < raw.len() ==> (#[trigger] raw[i]).start_cs <= (#[trigger] raw[j]).start_cs
            && raw[i].end_cs <= raw[j].end_cs
}

/// Whether assembled segments are well ordered in the same sense.
pub open spec fn times_monotone(segs: Seq<(Seq<char>, i64, i64)>) -> bool {
    &&& forall|i: int| 0 <= i < segs.len() ==> (#[trigger] segs[i]).1 <= segs[i].2
    &&& forall|i: int, j: int|
        0 <= i <= j < segs.len() ==> (#[trigger] segs[i]).1 <= (#[trigger] segs[j]).1
            && segs[i].2 <= segs[j].2
}

proof fn lemma_kept_segments_monotone(raw: Seq<RawSegment>, i: int)
    requires
        0 <= i <= raw.len(),
        raw_times_monotone(raw),
    ensures
        times_monotone(kept_segments_from(raw, i)),
        forall|k: int|
            0 <= k < kept_segments_from(raw, i).len() ==> i < raw.len() && (
            #[trigger] kept_segments_from(raw, i)[k]).1 >= raw[i].start_cs
                && kept_segments_from(raw, i)[k].2 >= raw[i].end_cs,
    decreases raw.len() - i,
{
    if i < raw.len() {
        lemma_kept_segments_monotone(raw, i + 1);
        let t = spec_trim(raw[i].text@);
        let rest = kept_segments_from(raw, i + 1);
        if t.len() != 0 {
            let whole = kept_segments_from(raw, i);
            assert(whole == seq![(t, raw[i].start_cs, raw[i].end_cs)] + rest);
            assert(whole[0] == (t, raw[i].start_cs, raw[i].end_cs));
            assert(forall|k: int| 1 <= k < whole.len() ==> whole[k] == rest[k - 1]);
        }
    }
}

/// Data-model invariant: when the decoder's raw segments are well ordered
/// in time, the assembled transcription's segments are too.
pub proof fn lemma_transcription_times_monotone(raw: Seq<RawSegment>)
    requires
        raw_times_monotone(raw),
    ensures
        times_monotone(kept_segments_from(raw, 0)),
{
    lemma_kept_segments_monotone(raw, 0);
}

/// The adapter used when no decoder backend exists for this platform: it
/// accepts configuration and refuses every transcription.
#[derive(Debug, Default)]
pub struct FallbackAdapter;

impl FallbackAdapter {
    pub fn new() -> (r: Self) {
        FallbackAdapter
    }

    /// Accepts any configuration and does nothing.
    pub fn initialize(&mut self, _config: SttConfig) -> (r: Result<(), SttError>)
        ensures
            r is Ok,
    {
        Ok(())
    }

    /// Always fails: there is no backend to decode with.
    pub fn transcribe(&self, _format: &AudioFormat) -> (r: Result<Transcription, SttError>)
        ensures
            r matches Err(e) && e matches SttError::TranscriptionFailed(m) && m@
                == "No STT backend available on this system"@,
    {
        Err(SttError::TranscriptionFailed("No STT backend available on this system".to_owned()))
    }

    /// No model is ever available.
    pub fn is_model_available(&self, _model_name: &str) -> (r: bool)
        ensures
            !r,
    {
        false
    }

    /// There are no models to offer.
    pub fn available_models(&self) -> (r: Vec<String>)
        ensures
            r@.len() == 0,
    {
        Vec::new()
    }

    /// No model is loaded.
    pub fn current_model(&self) -> (r: Option<String>)
        ensures
            r is None,
    {
        None
    }
}

} // verus!
