//! The model-download progress protocol. A download task feeds byte counts
//! and outcomes into a [`DownloadTracker`]; the tracker decides which
//! progress events to emit and guarantees the protocol: within one
//! download the reported byte counts never decrease, and the event stream
//! ends with exactly one terminal event, either `ready` or `error`.

use vstd::prelude::*;

use crate::store::clone_string;
use crate::text::{contains_seq, lower, lower_chars, spec_contains_seq, str_to_chars};

verus! {

/// Where a download stands.
#[derive(Debug, Clone, Copy, PartialEq, Eq, Structural)]
pub enum DownloadStage {
    Queued,
    Prepare,
    RuntimeCheck,
    Download,
    Unpack,
    Ready,
    Error,
}

impl DownloadStage {
    /// The wire name of the stage.
    pub fn label(&self) -> (r: String)
        ensures
            r@ == spec_stage_label(*self),
    {
        match self {
            DownloadStage::Queued => "queued".to_owned(),
            DownloadStage::Prepare => "prepare".to_owned(),
            DownloadStage::RuntimeCheck => "runtime-check".to_owned(),
            DownloadStage::Download => "download".to_owned(),
            DownloadStage::Unpack => "unpack".to_owned(),
            DownloadStage::Ready => "ready".to_owned(),
            DownloadStage::Error => "error".to_owned(),
        }
    }
}

/// The wire name of a stage.
pub open spec fn spec_stage_label(s: DownloadStage) -> Seq<char> {
    match s {
        DownloadStage::Queued => "queued"@,
        DownloadStage::Prepare => "prepare"@,
        DownloadStage::RuntimeCheck => "runtime-check"@,
        DownloadStage::Download => "download"@,
        DownloadStage::Unpack => "unpack"@,
        DownloadStage::Ready => "ready"@,
        DownloadStage::Error => "error"@,
    }
}

/// One progress event, as handed to the UI layer.
#[derive(Debug, Clone)]
pub struct ModelDownloadProgress {
    pub model_name: String,
    pub stage: DownloadStage,
    pub downloaded_bytes: u64,
    pub total_bytes: Option<u64>,
    pub percent: Option<u8>,
    pub done: bool,
    pub error: Option<String>,
    pub message: Option<String>,
}

/// What the protocol tracks of an event.
pub struct ProgressMark {
    pub downloaded: u64,
    pub done: bool,
    pub stage: DownloadStage,
    pub with_error: bool,
}

/// The protocol's view of an event.
pub open spec fn mark_of(e: &ModelDownloadProgress) -> ProgressMark {
    ProgressMark {
        downloaded: e.downloaded_bytes,
        done: e.done,
        stage: e.stage,
        with_error: e.error is Some,
    }
}

/// The percentage shown for `downloaded` bytes of an optional total,
/// capped at 100.
pub open spec fn spec_percent_of(downloaded: u64, total: Option<u64>) -> Option<u8> {
    match total {
        Some(t) => if t == 0 {
            None
        } else if downloaded >= t {
            Some(100u8)
        } else {
            Some(((downloaded as int) * 100 / (t as int)) as u8)
        },
        None => None,
    }
}

/// The percentage shown for `downloaded` bytes of an optional total.
fn percent_of(downloaded: u64, total: &Option<u64>) -> (r: Option<u8>)
    ensures
        r == spec_percent_of(downloaded, *total),
{
    match total {
        Some(t) => {
            let tt: u64 = *t;
            if tt == 0 {
                None
            } else if downloaded >= tt {
                Some(100)
            } else {
                let wide: u128 = (downloaded as u128) * 100 / (tt as u128);
                proof {
                    assert((downloaded as int) * 100 / (tt as int) < 100) by (nonlinear_arith)
                        requires
                            0 < tt,
                            downloaded < tt,
                    ;
                    assert(wide == (downloaded as int) * 100 / (tt as int)) by (nonlinear_arith)
                        requires
                            0 < tt,
                            wide == ((downloaded as u128) as int) * 100 / ((tt as u128) as int),
                    ;
                }
                Some(wide as u8)
            }
        },
        None => None,
    }
}

/// The progress tracker for one download: the running byte count, the
/// emission threshold, and the ghost history of emitted events.
pub struct DownloadTracker {
    pub model_name: String,
    pub total_bytes: Option<u64>,
    pub downloaded: u64,
    pub last_emitted: u64,
    pub finished: bool,
    pub history: Ghost<Seq<ProgressMark>>,
}

impl DownloadTracker {
    /// The protocol invariant: byte counts never decrease along the
    /// emitted events; only the last event may be terminal; the tracker is
    /// finished exactly when a terminal event was emitted, and a terminal
    /// event is `ready` or `error`, carrying an error message exactly in
    /// the `error` case.
    pub open spec fn wf(&self) -> bool {
        &&& forall|i: int, j: int|
            0 <= i <= j < self.history@.len() ==> self.history@[i].downloaded
                <= self.history@[j].downloaded
        &&& forall|i: int| 0 <= i < self.history@.len() - 1 ==> !self.history@[i].done
        &&& self.finished <==> (self.history@.len() > 0 && self.history@.last().done)
        &&& self.finished ==> {
            let last = self.history@.last();
            (last.stage == DownloadStage::Ready && !last.with_error) || (last.stage
                == DownloadStage::Error && last.with_error)
        }
        &&& forall|i: int|
            0 <= i < self.history@.len() ==> self.history@[i].downloaded <= self.downloaded
        &&& self.last_emitted <= self.downloaded
    }

    /// Start tracking a download, emitting the opening event: nothing
    /// downloaded, not done, stage `download`.
    pub fn begin(model_name: &str, total_bytes: Option<u64>) -> (r: (
        DownloadTracker,
        ModelDownloadProgress,
    ))
        ensures
            r.0.wf(),
            !r.0.finished,
            r.0.model_name@ == model_name@,
            r.0.total_bytes == total_bytes,
            r.0.downloaded == 0,
            r.0.history@ == seq![mark_of(&r.1)],
            r.1.model_name@ == model_name@,
            r.1.stage == DownloadStage::Download,
            r.1.downloaded_bytes == 0,
            r.1.total_bytes == total_bytes,
            r.1.percent == Some(0u8),
            !r.1.done,
            r.1.error is None,
    {
        let ev = ModelDownloadProgress {
            model_name: model_name.to_owned(),
            stage: DownloadStage::Download,
            downloaded_bytes: 0,
            total_bytes,
            percent: Some(0),
            done: false,
            error: None,
            message: Some("Starting model download".to_owned()),
        };
        let ghost h = seq![mark_of(&ev)];
        let t = DownloadTracker {
            model_name: model_name.to_owned(),
            total_bytes,
            downloaded: 0,
            last_emitted: 0,
            finished: false,
            history: Ghost(h),
        };
        (t, ev)
    }

    /// Account for `n` more bytes; emit a progress event when at least
    /// 256 KiB arrived since the last one, or the known total is reached.
    pub fn on_chunk(&mut self, n: u64) -> (r: Option<ModelDownloadProgress>)
        requires
            old(self).wf(),
            !old(self).finished,
        ensures
            final(self).wf(),
            !final(self).finished,
            final(self).model_name@ == old(self).model_name@,
            final(self).total_bytes == old(self).total_bytes,
            final(self).downloaded == crate::store::sat_add(old(self).downloaded, n),
            r matches Some(ev) ==> {
                &&& ev.downloaded_bytes == final(self).downloaded
                &&& ev.total_bytes == old(self).total_bytes
                &&& ev.stage == DownloadStage::Download
                &&& !ev.done
                &&& ev.error is None
                &&& ev.percent == spec_percent_of(final(self).downloaded, old(self).total_bytes)
                &&& ev.model_name@ == old(self).model_name@
                &&& final(self).history@ == old(self).history@.push(mark_of(&ev))
            },
            r is None ==> final(self).history@ == old(self).history@,
            r is Some <==> (crate::store::sat_add(old(self).downloaded, n) - old(self).last_emitted
                >= 262144 || (old(self).total_bytes matches Some(t) && crate::store::sat_add(
                old(self).downloaded,
                n,
            ) >= t)),
    {
        self.downloaded = self.downloaded.saturating_add(n);
        let reached_total: bool = match self.total_bytes {
            Some(t) => self.downloaded >= t,
            None => false,
        };
        if self.downloaded - self.last_emitted >= 262144 || reached_total {
            let ev = ModelDownloadProgress {
                model_name: clone_string(&self.model_name),
                stage: DownloadStage::Download,
                downloaded_bytes: self.downloaded,
                total_bytes: self.total_bytes,
                percent: percent_of(self.downloaded, &self.total_bytes),
                done: false,
                error: None,
                message: Some("Downloading model".to_owned()),
            };
            self.last_emitted = self.downloaded;
            proof {
                self.history@ = self.history@.push(mark_of(&ev));
            }
            Some(ev)
        } else {
            None
        }
    }

    /// End the download in failure, emitting the single terminal `error`
    /// event with the given error text.
    pub fn fail(&mut self, error: String, message: Option<String>) -> (ev: ModelDownloadProgress)
        requires
            old(self).wf(),
            !old(self).finished,
        ensures
            final(self).wf(),
            final(self).finished,
            ev.stage == DownloadStage::Error,
            ev.done,
            ev.error == Some(error),
            ev.downloaded_bytes == old(self).downloaded,
            ev.total_bytes == old(self).total_bytes,
            ev.model_name@ == old(self).model_name@,
            final(self).history@ == old(self).history@.push(mark_of(&ev)),
    {
        let ev = ModelDownloadProgress {
            model_name: clone_string(&self.model_name),
            stage: DownloadStage::Error,
            downloaded_bytes: self.downloaded,
            total_bytes: self.total_bytes,
            percent: percent_of(self.downloaded, &self.total_bytes),
            done: true,
            error: Some(error),
            message,
        };
        self.finished = true;
        proof {
            self.history@ = self.history@.push(mark_of(&ev));
        }
        ev
    }

    /// End the download in success, emitting the single terminal `ready`
    /// event at 100 percent.
    pub fn complete(&mut self) -> (ev: ModelDownloadProgress)
        requires
            old(self).wf(),
            !old(self).finished,
        ensures
            final(self).wf(),
            final(self).finished,
            ev.stage == DownloadStage::Ready,
            ev.done,
            ev.error is None,
            ev.percent == Some(100u8),
            ev.downloaded_bytes == old(self).downloaded,
            ev.model_name@ == old(self).model_name@,
            final(self).history@ == old(self).history@.push(mark_of(&ev)),
    {
        let ev = ModelDownloadProgress {
            model_name: clone_string(&self.model_name),
            stage: DownloadStage::Ready,
            downloaded_bytes: self.downloaded,
            total_bytes: self.total_bytes,
            percent: Some(100),
            done: true,
            error: None,
            message: Some("Model download complete".to_owned()),
        };
        self.finished = true;
        proof {
            self.history@ = self.history@.push(mark_of(&ev));
        }
        ev
    }

    /// The single event announcing an artifact that is already on disk:
    /// terminal, `ready`, 100 percent.
    pub fn ready_immediately(model_name: &str) -> (r: (DownloadTracker, ModelDownloadProgress))
        ensures
            r.0.wf(),
            r.0.finished,
            r.0.history@ == seq![mark_of(&r.1)],
            r.1.stage == DownloadStage::Ready,
            r.1.done,
            r.1.error is None,
            r.1.percent == Some(100u8),
            r.1.downloaded_bytes == 0,
            r.1.model_name@ == model_name@,
    {
        let ev = ModelDownloadProgress {
            model_name: model_name.to_owned(),
            stage: DownloadStage::Ready,
            downloaded_bytes: 0,
            total_bytes: None,
            percent: Some(100),
            done: true,
            error: None,
            message: Some("Model already downloaded".to_owned()),
        };
        let ghost h = seq![mark_of(&ev)];
        let t = DownloadTracker {
            model_name: model_name.to_owned(),
            total_bytes: None,
            downloaded: 0,
            last_emitted: 0,
            finished: true,
            history: Ghost(h),
        };
        (t, ev)
    }
}

/// Law: the progress events of one finished download have byte counts
/// that never decrease, and exactly one terminal event, the last, whose
/// stage is `ready` or `error` and which carries an error message exactly
/// in the `error` case.
pub proof fn lemma_download_progress_protocol(t: &DownloadTracker)
    requires
        t.wf(),
        t.finished,
    ensures
        t.history@.len() > 0,
        forall|i: int, j: int|
            0 <= i <= j < t.history@.len() ==> t.history@[i].downloaded
                <= t.history@[j].downloaded,
        forall|i: int| 0 <= i < t.history@.len() ==> (t.history@[i].done <==> i == t.history@.len() - 1),
        t.history@.last().stage == DownloadStage::Ready || t.history@.last().stage
            == DownloadStage::Error,
        t.history@.last().stage == DownloadStage::Error <==> t.history@.last().with_error,
{
}

/// The staged progress events of preparing an MLX artifact, in order:
/// prepare the runtime, check Python, prepare the package, then fetch and
/// finalise the weights. None is terminal; the `ready` event follows only
/// once the sentinel file is written.
pub fn mlx_setup_events(model_ref: &str) -> (r: Vec<ModelDownloadProgress>)
    ensures
        r@.len() == 5,
        forall|i: int|
            0 <= i < r@.len() ==> !(#[trigger] r@[i]).done && r@[i].error is None
                && r@[i].downloaded_bytes == 0 && r@[i].model_name@ == model_ref@,
        r@[0].stage == DownloadStage::Prepare && r@[0].percent == Some(0u8),
        r@[1].stage == DownloadStage::RuntimeCheck && r@[1].percent == Some(10u8),
        r@[2].stage == DownloadStage::RuntimeCheck && r@[2].percent == Some(25u8),
        r@[3].stage == DownloadStage::Download && r@[3].percent == Some(40u8),
        r@[4].stage == DownloadStage::Download && r@[4].percent == Some(90u8),
{
    let mut r: Vec<ModelDownloadProgress> = Vec::new();
    r.push(mlx_event(model_ref, DownloadStage::Prepare, 0, "Preparing MLX runtime"));
    r.push(mlx_event(model_ref, DownloadStage::RuntimeCheck, 10, "Checking Python runtime"));
    r.push(mlx_event(model_ref, DownloadStage::RuntimeCheck, 25, "Preparing the MLX package"));
    r.push(mlx_event(model_ref, DownloadStage::Download, 40, "Downloading MLX model weights"));
    r.push(mlx_event(model_ref, DownloadStage::Download, 90, "Finalizing MLX model"));
    r
}

/// One non-terminal MLX staging event.
fn mlx_event(model_ref: &str, stage: DownloadStage, percent: u8, message: &str) -> (r:
    ModelDownloadProgress)
    ensures
        r.model_name@ == model_ref@,
        r.stage == stage,
        r.percent == Some(percent),
        !r.done,
        r.error is None,
        r.downloaded_bytes == 0,
{
    ModelDownloadProgress {
        model_name: model_ref.to_owned(),
        stage,
        downloaded_bytes: 0,
        total_bytes: None,
        percent: Some(percent),
        done: false,
        error: None,
        message: Some(message.to_owned()),
    }
}

/// The event announcing one transducer file about to be fetched: file
/// `idx` of `total`, with the overall percentage of files already done.
pub fn sherpa_file_event(model_name: &str, idx: usize, total: usize) -> (r: ModelDownloadProgress)
    requires
        idx < total,
    ensures
        r.model_name@ == model_name@,
        r.stage == DownloadStage::Download,
        !r.done,
        r.error is None,
        r.downloaded_bytes == 0,
        r.percent == Some(((idx * 100) as int / total as int) as u8),
{
    proof {
        assert((idx * 100) as int / (total as int) < 100) by (nonlinear_arith)
            requires
                0 <= idx < total,
        ;
    }
    let wide: u128 = (idx as u128) * 100 / (total as u128);
    proof {
        assert(wide == (idx * 100) as int / (total as int)) by (nonlinear_arith)
            requires
                total > 0,
                wide == ((idx as u128) as int) * 100 / ((total as u128) as int),
        ;
    }
    ModelDownloadProgress {
        model_name: model_name.to_owned(),
        stage: DownloadStage::Download,
        downloaded_bytes: 0,
        total_bytes: None,
        percent: Some(wide as u8),
        done: false,
        error: None,
        message: Some("Downloading model files".to_owned()),
    }
}

/// The friendly description shown for a failed model download.
pub open spec fn spec_user_facing_download_error(raw: Seq<char>) -> Seq<char> {
    let l = lower(raw);
    if spec_contains_seq(l, "timed out"@) || spec_contains_seq(l, "timeout"@) {
        "Download timed out. Please check your connection and retry."@
    } else if spec_contains_seq(l, "dns"@) || spec_contains_seq(l, "resolve"@)
        || spec_contains_seq(l, "network"@) {
        "Network error while downloading model. Check internet access and retry."@
    } else if spec_contains_seq(l, "permission denied"@) || spec_contains_seq(
        l,
        "access is denied"@,
    ) {
        "OpenWispr cannot write model files. Check folder permissions."@
    } else if spec_contains_seq(l, "no space"@) || spec_contains_seq(l, "disk full"@) {
        "Not enough disk space to download this model."@
    } else if spec_contains_seq(l, "404"@) || spec_contains_seq(l, "not found"@) {
        "Model artifact not found on the remote host. Try again later."@
    } else {
        "Model download failed: "@ + raw
    }
}

/// Map a raw download failure to its user-facing message, keyed on the
/// lowercased raw text.
pub fn to_user_facing_download_error(raw: &str) -> (r: String)
    ensures
        r@ == spec_user_facing_download_error(raw@),
{
    let l = lower_chars(&str_to_chars(raw));
    if contains_seq(&l, &str_to_chars("timed out")) || contains_seq(&l, &str_to_chars("timeout")) {
        return "Download timed out. Please check your connection and retry.".to_owned();
    }
    if contains_seq(&l, &str_to_chars("dns")) || contains_seq(&l, &str_to_chars("resolve"))
        || contains_seq(&l, &str_to_chars("network")) {
        return "Network error while downloading model. Check internet access and retry."
            .to_owned();
    }
    if contains_seq(&l, &str_to_chars("permission denied")) || contains_seq(
        &l,
        &str_to_chars("access is denied"),
    ) {
        return "OpenWispr cannot write model files. Check folder permissions.".to_owned();
    }
    if contains_seq(&l, &str_to_chars("no space")) || contains_seq(
        &l,
        &str_to_chars("disk full"),
    ) {
        return "Not enough disk space to download this model.".to_owned();
    }
    if contains_seq(&l, &str_to_chars("404")) || contains_seq(&l, &str_to_chars("not found")) {
        return "Model artifact not found on the remote host. Try again later.".to_owned();
    }
    let mut s = "Model download failed: ".to_owned();
    s.append(raw);
    s
}

/// The friendly description shown for a failed language-model download.
pub open spec fn spec_user_facing_llm_download_error(raw: Seq<char>) -> Seq<char> {
    let l = lower(raw);
    if spec_contains_seq(l, "timed out"@) || spec_contains_seq(l, "timeout"@) {
        "LLM model download timed out. Please retry."@
    } else if spec_contains_seq(l, "network"@) || spec_contains_seq(l, "dns"@)
        || spec_contains_seq(l, "resolve"@) {
        "Network error while downloading LLM model."@
    } else if spec_contains_seq(l, "no space"@) || spec_contains_seq(l, "disk full"@) {
        "Not enough disk space for the selected LLM model."@
    } else {
        "LLM download failed: "@ + raw
    }
}

/// Map a raw language-model download failure to its user-facing message.
pub fn to_user_facing_llm_download_error(raw: &str) -> (r: String)
    ensures
        r@ == spec_user_facing_llm_download_error(raw@),
{
    let l = lower_chars(&str_to_chars(raw));
    if contains_seq(&l, &str_to_chars("timed out")) || contains_seq(&l, &str_to_chars("timeout")) {
        return "LLM model download timed out. Please retry.".to_owned();
    }
    if contains_seq(&l, &str_to_chars("network")) || contains_seq(&l, &str_to_chars("dns"))
        || contains_seq(&l, &str_to_chars("resolve")) {
        return "Network error while downloading LLM model.".to_owned();
    }
    if contains_seq(&l, &str_to_chars("no space")) || contains_seq(
        &l,
        &str_to_chars("disk full"),
    ) {
        return "Not enough disk space for the selected LLM model.".to_owned();
    }
    let mut s = "LLM download failed: ".to_owned();
    s.append(raw);
    s
}

} // verus!
