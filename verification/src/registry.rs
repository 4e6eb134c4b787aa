//! The model registry: names, cache layout and artifact resolution for the
//! three backend families (whisper-style single files, transducer
//! directories, and Python-managed MLX directories).
//!
//! The registry decides which paths to probe and which files to fetch;
//! probing the disk goes through one trusted call, and downloading is the
//! caller's work, driven by the values returned from here.

use vstd::prelude::*;

use crate::stt::{SttConfig, SttError};
use crate::text::{
    chars_eq, chars_to_string, ends_with_chars, spec_contains_char, spec_ends_with, spec_split,
    spec_starts_with, spec_trim, split_chars, starts_with_chars, str_to_chars, trim_chars, views,
};

verus! {

/// Relies on `std::path::Path::exists`. The answer depends on what is on
/// disk at the moment of the call, so nothing is promised of it.
#[verifier::external_body]
pub(crate) fn path_exists(path: &str) -> bool {
    std::path::Path::new(path).exists()
}

/// Relies on `std::path::Path::is_dir`. The answer depends on what is on
/// disk at the moment of the call, so nothing is promised of it.
#[verifier::external_body]
pub(crate) fn path_is_dir(path: &str) -> bool {
    std::path::Path::new(path).is_dir()
}

/// What `String::from_utf8_lossy` makes of a byte sequence: a function of
/// the bytes alone.
pub uninterp spec fn lossy_utf8(b: Seq<u8>) -> Seq<char>;

/// Relies on `String::from_utf8_lossy`: the decoded text depends on the
/// bytes alone, and empty input decodes to empty text.
#[verifier::external_body]
pub(crate) fn bytes_to_string_lossy(b: &[u8]) -> (r: String)
    ensures
        r@ == lossy_utf8(b@),
        b@.len() == 0 ==> r@.len() == 0,
{
    String::from_utf8_lossy(b).into_owned()
}

/// Whether the name is the registered transducer model.
pub fn is_sherpa_model_name(model_name: &str) -> (r: bool)
    ensures
        r == (model_name@ == "sherpa-onnx/parakeet-tdt-0.6b-v3-int8"@),
{
    chars_eq(&str_to_chars(model_name), &str_to_chars("sherpa-onnx/parakeet-tdt-0.6b-v3-int8"))
}

/// Whether the name is the registered MLX transducer model.
pub fn is_mlx_model_name(model_name: &str) -> (r: bool)
    ensures
        r == (model_name@ == "animaslabs/parakeet-tdt-0.6b-v3-mlx-8bit"@),
{
    chars_eq(
        &str_to_chars(model_name),
        &str_to_chars("animaslabs/parakeet-tdt-0.6b-v3-mlx-8bit"),
    )
}

/// Whether the name is the registered MLX whisper model.
pub fn is_mlx_whisper_model_name(model_name: &str) -> (r: bool)
    ensures
        r == (model_name@ == "Oriserve/Whisper-Hindi2Hinglish-Apex"@),
{
    chars_eq(&str_to_chars(model_name), &str_to_chars("Oriserve/Whisper-Hindi2Hinglish-Apex"))
}

/// Whether a model "name" is really a filesystem path.
pub open spec fn spec_looks_like_model_path(s: Seq<char>) -> bool {
    spec_contains_char(s, '/') || spec_contains_char(s, '\\') || spec_ends_with(s, ".bin"@)
        || spec_ends_with(s, ".gguf"@)
}

/// Whether a model "name" is really a filesystem path: it has a path
/// separator or a weight-file extension.
pub fn looks_like_model_path(model_name: &str) -> (r: bool)
    ensures
        r == spec_looks_like_model_path(model_name@),
{
    let v = str_to_chars(model_name);
    crate::text::contains_char(&v, '/') || crate::text::contains_char(&v, '\\')
        || ends_with_chars(&v, &str_to_chars(".bin")) || ends_with_chars(
        &v,
        &str_to_chars(".gguf"),
    )
}

/// The on-disk file name of a whisper-family model.
pub open spec fn spec_model_filename(s: Seq<char>) -> Seq<char> {
    if spec_ends_with(s, ".bin"@) {
        s
    } else if spec_starts_with(s, "ggml-"@) {
        s + ".bin"@
    } else {
        "ggml-"@ + s + ".bin"@
    }
}

/// The on-disk file name of a whisper-family model: `ggml-<name>.bin`,
/// with the prefix and suffix kept if already present.
pub fn model_filename(model_name: &str) -> (r: String)
    ensures
        r@ == spec_model_filename(model_name@),
{
    let v = str_to_chars(model_name);
    if ends_with_chars(&v, &str_to_chars(".bin")) {
        return model_name.to_owned();
    }
    if starts_with_chars(&v, &str_to_chars("ggml-")) {
        let mut s = model_name.to_owned();
        s.append(".bin");
        return s;
    }
    let mut s = "ggml-".to_owned();
    s.append(model_name);
    s.append(".bin");
    s
}

/// The view of an optional string.
pub open spec fn opt_view(s: Option<String>) -> Option<Seq<char>> {
    match s {
        Some(ref x) => Some(x@),
        None => None,
    }
}

/// The model cache root that the given environment values yield: a
/// nonblank override wins; else the Windows per-user data directory gets
/// `OpenWispr/models`; else the home directory gets
/// `.cache/openwispr/models`.
pub open spec fn spec_model_cache_dir(
    override_dir: Option<Seq<char>>,
    local_app_data: Option<Seq<char>>,
    home: Option<Seq<char>>,
) -> Option<Seq<char>> {
    match override_dir {
        Some(o) if spec_trim(o).len() > 0 => Some(o),
        _ => match local_app_data {
            Some(l) if spec_trim(l).len() > 0 => Some(l + "/OpenWispr/models"@),
            _ => match home {
                Some(h) if spec_trim(h).len() > 0 => Some(h + "/.cache/openwispr/models"@),
                _ => None,
            },
        },
    }
}

/// The model cache root. The caller passes the environment's override,
/// the Windows per-user data directory (absent elsewhere), and the home
/// directory; the first applicable nonblank value decides, as
/// [`spec_model_cache_dir`] says, and nothing applicable is an error.
pub fn get_model_cache_dir(
    override_dir: Option<String>,
    local_app_data: Option<String>,
    home: Option<String>,
) -> (r: Result<String, SttError>)
    ensures
        r matches Ok(p) ==> spec_model_cache_dir(
            opt_view(override_dir),
            opt_view(local_app_data),
            opt_view(home),
        ) == Some(p@),
        r is Err <==> spec_model_cache_dir(
            opt_view(override_dir),
            opt_view(local_app_data),
            opt_view(home),
        ) is None,
{
    if let Some(o) = &override_dir {
        let t = trim_chars(&str_to_chars(o.as_str()));
        if t.len() > 0 {
            return Ok(crate::store::clone_string(o));
        }
    }
    if let Some(l) = &local_app_data {
        let t = trim_chars(&str_to_chars(l.as_str()));
        if t.len() > 0 {
            let mut s = crate::store::clone_string(l);
            s.append("/OpenWispr/models");
            return Ok(s);
        }
    }
    if let Some(h) = &home {
        let t = trim_chars(&str_to_chars(h.as_str()));
        if t.len() > 0 {
            let mut s = crate::store::clone_string(h);
            s.append("/.cache/openwispr/models");
            return Ok(s);
        }
    }
    Err(SttError::ModelLoadError("unable to determine model cache directory".to_owned()))
}

/// How a requested whisper-family model is to be obtained.
#[derive(Debug)]
pub enum ModelResolution {
    /// The artifact already sits at this path.
    UsePath(String),
    /// The artifact must be fetched from `url` into the temporary file
    /// `tmp` and then renamed to `dest`.
    NeedsDownload { url: String, dest: String, tmp: String },
}

/// The remote location of a whisper-family model file.
pub open spec fn spec_model_url(name: Seq<char>) -> Seq<char> {
    "https://huggingface.co/ggerganov/whisper.cpp/resolve/main/"@ + spec_model_filename(name)
}

/// Decide where a whisper-family model lives, probing the disk.
///
/// An explicit path, or a name that is one, must exist. Otherwise the
/// cache is probed for `ggml-<name>.bin`; a missing file becomes a
/// download order whose url, destination and temporary file are fixed by
/// the name and cache directory alone.
pub fn resolve_model_path(config: &SttConfig, cache_dir: &str) -> (r: Result<
    ModelResolution,
    SttError,
>)
    ensures
        r matches Ok(ModelResolution::UsePath(p)) ==> (match config.model_path {
            Some(ref mp) => p@ == mp@,
            None => if spec_looks_like_model_path(config.model_name@) {
                p@ == config.model_name@
            } else {
                p@ == cache_dir@ + "/"@ + spec_model_filename(config.model_name@)
            },
        }),
        r matches Ok(ModelResolution::NeedsDownload { url, dest, tmp }) ==> {
            &&& config.model_path is None
            &&& !spec_looks_like_model_path(config.model_name@)
            &&& url@ == spec_model_url(config.model_name@)
            &&& dest@ == cache_dir@ + "/"@ + spec_model_filename(config.model_name@)
            &&& tmp@ == dest@ + ".download"@
        },
        r matches Err(e) ==> (e matches SttError::ModelNotFound(_) && (config.model_path is Some
            || spec_looks_like_model_path(config.model_name@))),
{
    if let Some(p) = &config.model_path {
        if path_exists(p.as_str()) {
            return Ok(ModelResolution::UsePath(crate::store::clone_string(p)));
        }
        let mut m = "model path does not exist: ".to_owned();
        m.append(p.as_str());
        return Err(SttError::ModelNotFound(m));
    }
    if looks_like_model_path(config.model_name.as_str()) {
        if path_exists(config.model_name.as_str()) {
            return Ok(ModelResolution::UsePath(crate::store::clone_string(&config.model_name)));
        }
        let mut m = "model path does not exist: ".to_owned();
        m.append(config.model_name.as_str());
        return Err(SttError::ModelNotFound(m));
    }
    let filename = model_filename(config.model_name.as_str());
    let mut dest = cache_dir.to_owned();
    dest.append("/");
    dest.append(filename.as_str());
    if path_exists(dest.as_str()) {
        return Ok(ModelResolution::UsePath(dest));
    }
    let mut url = "https://huggingface.co/ggerganov/whisper.cpp/resolve/main/".to_owned();
    url.append(filename.as_str());
    let mut tmp = crate::store::clone_string(&dest);
    tmp.append(".download");
    Ok(ModelResolution::NeedsDownload { url, dest, tmp })
}

/// Whether the whisper-family artifact for `model_name` is on disk under
/// `cache_dir`. The probe itself depends on the disk; a name that is a
/// path is probed directly.
pub fn is_model_available(model_name: &str, cache_dir: &str) -> (r: bool) {
    if looks_like_model_path(model_name) {
        return path_exists(model_name);
    }
    let filename = model_filename(model_name);
    let mut p = cache_dir.to_owned();
    p.append("/");
    p.append(filename.as_str());
    path_exists(p.as_str())
}

/// The whisper-family model names on offer.
pub fn available_models() -> (r: Vec<String>)
    ensures
        views_of_strings(r@) =~= seq![
            "tiny"@,
            "tiny.en"@,
            "base"@,
            "base.en"@,
            "small"@,
            "small.en"@,
            "medium"@,
            "medium.en"@,
            "large-v3-turbo"@,
            "large-v3"@,
        ],
{
    let mut r: Vec<String> = Vec::new();
    r.push("tiny".to_owned());
    r.push("tiny.en".to_owned());
    r.push("base".to_owned());
    r.push("base.en".to_owned());
    r.push("small".to_owned());
    r.push("small.en".to_owned());
    r.push("medium".to_owned());
    r.push("medium.en".to_owned());
    r.push("large-v3-turbo".to_owned());
    r.push("large-v3".to_owned());
    r
}

/// The views of a sequence of strings.
pub open spec fn views_of_strings(ts: Seq<String>) -> Seq<Seq<char>> {
    ts.map_values(|t: String| t@)
}

/// One model as offered to the user: its name, the runtime that loads it,
/// and whether it is on disk.
#[derive(Debug, Clone)]
pub struct ModelInfo {
    pub name: String,
    pub runtime: String,
    pub downloaded: bool,
    pub can_download: bool,
    pub note: Option<String>,
}

/// The models on offer: the whisper-family catalogue, then the transducer
/// model, then (when asked for) the MLX model. Names, runtimes and notes
/// are fixed; each `downloaded` flag depends on the disk.
pub fn list_models(cache_dir: &str, include_mlx: bool) -> (r: Vec<ModelInfo>)
    ensures
        r@.len() == if include_mlx {
            12int
        } else {
            11int
        },
        forall|i: int|
            0 <= i < 10 ==> (#[trigger] r@[i]).runtime@ == "whisper.cpp"@ && r@[i].can_download
                && r@[i].note is None,
        r@[10].name@ == "sherpa-onnx/parakeet-tdt-0.6b-v3-int8"@ && r@[10].runtime@
            == "sherpa-onnx"@ && r@[10].can_download,
        include_mlx ==> r@[11].name@ == "animaslabs/parakeet-tdt-0.6b-v3-mlx-8bit"@ && r@[11].runtime@
            == "mlx-parakeet"@ && r@[11].can_download,
{
    let names = available_models();
    proof {
        assert(views_of_strings(names@).len() == names@.len());
    }
    let mut r: Vec<ModelInfo> = Vec::new();
    let mut i: usize = 0;
    while i < names.len()
        invariant
            i <= names@.len(),
            names@.len() == 10,
            r@.len() == i,
            forall|j: int|
                0 <= j < i ==> (#[trigger] r@[j]).runtime@ == "whisper.cpp"@ && r@[j].can_download
                    && r@[j].note is None,
        decreases names@.len() - i,
    {
        let downloaded = is_model_available(names[i].as_str(), cache_dir);
        r.push(
            ModelInfo {
                name: crate::store::clone_string(&names[i]),
                runtime: "whisper.cpp".to_owned(),
                downloaded,
                can_download: true,
                note: None,
            },
        );
        i = i + 1;
    }
    let sherpa_root = sherpa_model_root_dir(cache_dir);
    let sherpa_downloaded = has_required_files(sherpa_root.as_str());
    r.push(
        ModelInfo {
            name: "sherpa-onnx/parakeet-tdt-0.6b-v3-int8".to_owned(),
            runtime: "sherpa-onnx".to_owned(),
            downloaded: sherpa_downloaded,
            can_download: true,
            note: Some("NVIDIA Parakeet TDT v3 int8".to_owned()),
        },
    );
    if include_mlx {
        let mlx = mlx_cache_dir(cache_dir);
        let marker = marker_file_path("animaslabs/parakeet-tdt-0.6b-v3-mlx-8bit", mlx.as_str());
        let mlx_downloaded = path_exists(marker.as_str());
        r.push(
            ModelInfo {
                name: "animaslabs/parakeet-tdt-0.6b-v3-mlx-8bit".to_owned(),
                runtime: "mlx-parakeet".to_owned(),
                downloaded: mlx_downloaded,
                can_download: true,
                note: Some("Parakeet MLX community model".to_owned()),
            },
        );
    }
    r
}

/// Whether a model may become the active one: it must be downloaded, and
/// an MLX model needs a host that supports the MLX runtime.
pub fn validate_active_model(downloaded: bool, is_mlx: bool, host_supports_mlx: bool) -> (r:
    Result<(), String>)
    ensures
        r is Ok <==> (downloaded && (is_mlx ==> host_supports_mlx)),
        r matches Err(e) ==> (!downloaded ==> e@ == "Model must be downloaded before selection"@)
            && (downloaded ==> e@ == "MLX models are only supported on macOS"@),
{
    if !downloaded {
        return Err("Model must be downloaded before selection".to_owned());
    }
    if is_mlx && !host_supports_mlx {
        return Err("MLX models are only supported on macOS".to_owned());
    }
    Ok(())
}

/// What deleting a model removes: a whole artifact directory, or one
/// weight file.
#[derive(Debug, PartialEq, Eq)]
pub enum DeleteTarget {
    Directory(String),
    File(String),
}

/// Where a model's artifact lives, for deletion; the active model is
/// refused.
pub fn delete_model_target(model: &str, active_model: &str, cache_dir: &str) -> (r: Result<
    DeleteTarget,
    String,
>)
    ensures
        r is Err <==> model@ == active_model@,
        r matches Ok(DeleteTarget::Directory(p)) ==> (model@
            == "sherpa-onnx/parakeet-tdt-0.6b-v3-int8"@ || model@
            == "animaslabs/parakeet-tdt-0.6b-v3-mlx-8bit"@) && p@ == cache_dir@ + "/"@ + model@,
        r matches Ok(DeleteTarget::File(p)) ==> model@
            != "sherpa-onnx/parakeet-tdt-0.6b-v3-int8"@ && model@
            != "animaslabs/parakeet-tdt-0.6b-v3-mlx-8bit"@ && p@ == cache_dir@ + "/"@
            + spec_model_filename(model@),
{
    if chars_eq(&str_to_chars(model), &str_to_chars(active_model)) {
        return Err(
            "Cannot delete the currently active model. Please select a different model first."
                .to_owned(),
        );
    }
    if is_sherpa_model_name(model) || is_mlx_model_name(model) {
        let mut p = cache_dir.to_owned();
        p.append("/");
        p.append(model);
        return Ok(DeleteTarget::Directory(p));
    }
    let filename = model_filename(model);
    let mut p = cache_dir.to_owned();
    p.append("/");
    p.append(filename.as_str());
    Ok(DeleteTarget::File(p))
}

/// Join a directory and a file name with `/`.
fn path_join(dir: &str, name: &str) -> (r: String)
    ensures
        r@ == dir@ + "/"@ + name@,
{
    let mut s = dir.to_owned();
    s.append("/");
    s.append(name);
    s
}

/// The constituent files of the transducer artifact, as
/// `(local name, remote name)` pairs.
pub fn sherpa_files() -> (r: Vec<(String, String)>)
    ensures
        r@.len() == 4,
        r@[0].0@ == "encoder.int8.onnx"@ && r@[0].1@ == "encoder-int8.onnx"@,
        r@[1].0@ == "encoder.int8.onnx.data"@ && r@[1].1@ == "encoder-int8.onnx.data"@,
        r@[2].0@ == "decoder.int8.onnx"@ && r@[2].1@ == "decoder_joint-int8.onnx"@,
        r@[3].0@ == "tokens.txt"@ && r@[3].1@ == "vocab.txt"@,
{
    let mut r: Vec<(String, String)> = Vec::new();
    r.push(("encoder.int8.onnx".to_owned(), "encoder-int8.onnx".to_owned()));
    r.push(("encoder.int8.onnx.data".to_owned(), "encoder-int8.onnx.data".to_owned()));
    r.push(("decoder.int8.onnx".to_owned(), "decoder_joint-int8.onnx".to_owned()));
    r.push(("tokens.txt".to_owned(), "vocab.txt".to_owned()));
    r
}

/// The transducer family's cache directory under the model cache root.
pub fn sherpa_cache_dir(base: &str) -> (r: String)
    ensures
        r@ == base@ + "/sherpa-onnx"@,
{
    let mut s = base.to_owned();
    s.append("/sherpa-onnx");
    s
}

/// The release directory holding the transducer artifact.
pub fn sherpa_model_root_dir(base: &str) -> (r: String)
    ensures
        r@ == base@ + "/sherpa-onnx/parakeet-tdt-0.6b-v3-onnx-int8"@,
{
    let mut s = base.to_owned();
    s.append("/sherpa-onnx/parakeet-tdt-0.6b-v3-onnx-int8");
    s
}

/// The remote location of one transducer file.
pub fn sherpa_download_url(remote_name: &str) -> (r: String)
    ensures
        r@ == "https://huggingface.co/nasedkinpv/parakeet-tdt-0.6b-v3-onnx-int8/resolve/main/"@
            + remote_name@,
{
    let mut s = "https://huggingface.co/nasedkinpv/parakeet-tdt-0.6b-v3-onnx-int8/resolve/main/"
        .to_owned();
    s.append(remote_name);
    s
}

/// Whether a model "name" is really a transducer directory or file path.
pub open spec fn spec_looks_like_model_dir(s: Seq<char>) -> bool {
    spec_contains_char(s, '/') || spec_contains_char(s, '\\') || spec_ends_with(s, ".onnx"@)
        || spec_ends_with(s, ".txt"@)
}

/// Whether a model "name" is really a transducer directory or file path.
pub fn looks_like_model_dir(model_name: &str) -> (r: bool)
    ensures
        r == spec_looks_like_model_dir(model_name@),
{
    let v = str_to_chars(model_name);
    crate::text::contains_char(&v, '/') || crate::text::contains_char(&v, '\\')
        || ends_with_chars(&v, &str_to_chars(".onnx")) || ends_with_chars(
        &v,
        &str_to_chars(".txt"),
    )
}

/// Whether every constituent transducer file sits under `root`, which must
/// itself be a directory. The answer depends on the disk.
pub fn has_required_files(root: &str) -> (r: bool) {
    if !path_is_dir(root) {
        return false;
    }
    let files = sherpa_files();
    let mut i: usize = 0;
    while i < files.len()
        decreases files@.len() - i,
    {
        let p = path_join(root, files[i].0.as_str());
        if !path_exists(p.as_str()) {
            return false;
        }
        i = i + 1;
    }
    true
}

/// How the transducer artifact is to be obtained.
#[derive(Debug)]
pub enum SherpaResolution {
    /// The artifact directory is complete at this path.
    UseDir(String),
    /// The files must be fetched into `download_dir` and the directory
    /// then renamed to `root`.
    NeedsDownload { download_dir: String, root: String },
}

/// Decide where the transducer artifact lives, probing the disk.
///
/// An explicit path, or a name that is one, must already hold the files.
/// The registered name resolves to the release directory under the cache;
/// when incomplete there, a download order names the temporary directory
/// and the final root, both fixed by the cache root alone.
pub fn resolve_model_root(config: &SttConfig, base: &str) -> (r: Result<
    SherpaResolution,
    SttError,
>)
    ensures
        r matches Ok(SherpaResolution::UseDir(p)) ==> (match config.model_path {
            Some(ref mp) => p@ == mp@,
            None => if spec_looks_like_model_dir(config.model_name@) {
                p@ == config.model_name@
            } else {
                p@ == base@ + "/sherpa-onnx/parakeet-tdt-0.6b-v3-onnx-int8"@
            },
        }),
        r matches Ok(SherpaResolution::NeedsDownload { download_dir, root }) ==> {
            &&& config.model_path is None
            &&& root@ == base@ + "/sherpa-onnx/parakeet-tdt-0.6b-v3-onnx-int8"@
            &&& download_dir@ == root@ + ".download"@
        },
        r matches Err(e) ==> e matches SttError::ModelNotFound(_),
{
    if let Some(p) = &config.model_path {
        if has_required_files(p.as_str()) {
            return Ok(SherpaResolution::UseDir(crate::store::clone_string(p)));
        }
        let mut m = "sherpa model files not found at ".to_owned();
        m.append(p.as_str());
        return Err(SttError::ModelNotFound(m));
    }
    if looks_like_model_dir(config.model_name.as_str()) {
        if has_required_files(config.model_name.as_str()) {
            return Ok(SherpaResolution::UseDir(crate::store::clone_string(&config.model_name)));
        }
        let mut m = "sherpa model files not found at ".to_owned();
        m.append(config.model_name.as_str());
        return Err(SttError::ModelNotFound(m));
    }
    if !is_sherpa_model_name(config.model_name.as_str()) {
        let mut m = "unsupported sherpa model: ".to_owned();
        m.append(config.model_name.as_str());
        return Err(SttError::ModelNotFound(m));
    }
    let root = sherpa_model_root_dir(base);
    if has_required_files(root.as_str()) {
        return Ok(SherpaResolution::UseDir(root));
    }
    let mut download_dir = crate::store::clone_string(&root);
    download_dir.append(".download");
    Ok(SherpaResolution::NeedsDownload { download_dir, root })
}

/// The Hugging Face reference of an MLX model: an explicit path, or a
/// name holding a `/`.
pub fn resolve_model_ref(config: &SttConfig) -> (r: Result<String, SttError>)
    ensures
        r matches Ok(m) ==> (match config.model_path {
            Some(ref mp) => m@ == mp@,
            None => m@ == config.model_name@ && spec_contains_char(config.model_name@, '/'),
        }),
        r is Err <==> (config.model_path is None && !spec_contains_char(
            config.model_name@,
            '/',
        )),
{
    if let Some(p) = &config.model_path {
        return Ok(crate::store::clone_string(p));
    }
    if crate::text::contains_char(&str_to_chars(config.model_name.as_str()), '/') {
        return Ok(crate::store::clone_string(&config.model_name));
    }
    let mut m = "unsupported MLX model '".to_owned();
    m.append(config.model_name.as_str());
    m.append("', expected a Hugging Face repo id");
    Err(SttError::ModelNotFound(m))
}

/// A character as it may appear in a cache directory name.
pub open spec fn sanitize_char(c: char) -> char {
    if ('a' <= c && c <= 'z') || ('A' <= c && c <= 'Z') || ('0' <= c && c <= '9') || c == '.'
        || c == '-' || c == '_' {
        c
    } else {
        '-'
    }
}

/// A model reference with every character outside `[A-Za-z0-9._-]`
/// replaced by `-`, fit for a directory name.
pub fn sanitize_model_ref(model_ref: &str) -> (r: String)
    ensures
        r@ == model_ref@.map_values(|c: char| sanitize_char(c)),
{
    let v = str_to_chars(model_ref);
    let mut out: Vec<char> = Vec::new();
    let mut i: usize = 0;
    while i < v.len()
        invariant
            i <= v@.len(),
            out@ == v@.subrange(0, i as int).map_values(|c: char| sanitize_char(c)),
        decreases v@.len() - i,
    {
        let c = v[i];
        let kept: char = if ('a' <= c && c <= 'z') || ('A' <= c && c <= 'Z') || ('0' <= c && c
            <= '9') || c == '.' || c == '-' || c == '_' {
            c
        } else {
            '-'
        };
        out.push(kept);
        i = i + 1;
        proof {
            assert(out@ =~= v@.subrange(0, i as int).map_values(|c: char| sanitize_char(c)));
        }
    }
    proof {
        assert(v@.subrange(0, v@.len() as int) =~= v@);
    }
    chars_to_string(&out)
}

/// The MLX family's cache directory under the model cache root.
pub fn mlx_cache_dir(base: &str) -> (r: String)
    ensures
        r@ == base@ + "/mlx"@,
{
    let mut s = base.to_owned();
    s.append("/mlx");
    s
}

/// The Python interpreter inside the MLX virtual environment.
pub fn venv_python_bin(cache_dir: &str) -> (r: String)
    ensures
        r@ == cache_dir@ + "/.venv/bin/python3"@,
{
    let mut s = cache_dir.to_owned();
    s.append("/.venv/bin/python3");
    s
}

/// The sentinel file that marks an MLX model as materialised.
pub fn marker_file_path(model_ref: &str, mlx_cache: &str) -> (r: String)
    ensures
        r@ == mlx_cache@ + "/.downloaded/"@ + model_ref@.map_values(|c: char| sanitize_char(c))
            + "/ready"@,
{
    let sanitized = sanitize_model_ref(model_ref);
    let mut s = mlx_cache.to_owned();
    s.append("/.downloaded/");
    s.append(sanitized.as_str());
    s.append("/ready");
    s
}

/// The directory holding the converted MLX whisper weights.
pub fn converted_model_path(model_ref: &str, mlx_cache: &str) -> (r: String)
    ensures
        r@ == mlx_cache@ + "/converted/"@ + model_ref@.map_values(|c: char| sanitize_char(c)),
{
    let sanitized = sanitize_model_ref(model_ref);
    let mut s = mlx_cache.to_owned();
    s.append("/converted/");
    s.append(sanitized.as_str());
    s
}

/// The first line of `parts[i..]` that is nonempty once trimmed.
pub open spec fn first_line_from(parts: Seq<Seq<char>>, i: int) -> Option<Seq<char>>
    decreases parts.len() - i when 0 <= i <= parts.len()
{
    if i >= parts.len() {
        None
    } else {
        let t = spec_trim(parts[i]);
        if t.len() > 0 {
            Some(t)
        } else {
            first_line_from(parts, i + 1)
        }
    }
}

/// What [`compact_python_error`] extracts from decoded error output.
pub open spec fn spec_compact_python_error(s: Seq<char>) -> Seq<char> {
    let line = match first_line_from(spec_split(s, '\n'), 0) {
        Some(l) => l,
        None => "unknown Python error"@,
    };
    if line.len() > 220 {
        line.take(220) + "..."@
    } else {
        line
    }
}

/// A line clipped to 220 characters, with an ellipsis when it was longer.
fn clip_line(l: &Vec<char>) -> (r: String)
    ensures
        r@ == (if l@.len() > 220 {
            l@.take(220) + "..."@
        } else {
            l@
        }),
{
    if l.len() > 220 {
        let mut clipped: Vec<char> = Vec::new();
        let mut j: usize = 0;
        while j < 220
            invariant
                j <= 220 <= l@.len(),
                clipped@ == l@.subrange(0, j as int),
            decreases 220 - j,
        {
            clipped.push(l[j]);
            j = j + 1;
            proof {
                assert(clipped@ =~= l@.subrange(0, j as int));
            }
        }
        proof {
            assert(clipped@ =~= l@.take(220));
        }
        let mut s = chars_to_string(&clipped);
        s.append("...");
        s
    } else {
        chars_to_string(l)
    }
}

/// The first meaningful line of a Python stderr stream, clipped to 220
/// characters with an ellipsis.
pub fn compact_python_error(stderr: &[u8]) -> (r: String)
    ensures
        r@ == spec_compact_python_error(lossy_utf8(stderr@)),
{
    let text = bytes_to_string_lossy(stderr);
    let chars = str_to_chars(text.as_str());
    let parts = split_chars(&chars, '\n');
    let ghost ps = views(parts@);
    let mut i: usize = 0;
    while i < parts.len()
        invariant
            i <= parts@.len(),
            ps == views(parts@),
            ps == spec_split(text@, '\n'),
            text@ == lossy_utf8(stderr@),
            first_line_from(ps, 0) == first_line_from(ps, i as int),
        decreases parts@.len() - i,
    {
        let t = trim_chars(&parts[i]);
        proof {
            assert(ps[i as int] == parts@[i as int]@);
        }
        if t.len() > 0 {
            proof {
                assert(first_line_from(ps, i as int) == Some(t@));
            }
            return clip_line(&t);
        }
        i = i + 1;
    }
    proof {
        reveal_strlit("unknown Python error");
        assert("unknown Python error"@.len() <= 220);
    }
    "unknown Python error".to_owned()
}

/// The last line of `parts[..i]` that is nonempty once trimmed.
pub open spec fn last_line_upto(parts: Seq<Seq<char>>, i: int) -> Option<Seq<char>>
    decreases i when 0 <= i <= parts.len()
{
    if i <= 0 {
        None
    } else {
        let t = spec_trim(parts[i - 1]);
        if t.len() > 0 {
            Some(t)
        } else {
            last_line_upto(parts, i - 1)
        }
    }
}

/// The last meaningful line of a Python stdout stream, trimmed; empty when
/// there is none. The MLX runtime prints the transcript there last.
pub fn last_nonempty_line(stdout: &[u8]) -> (r: String)
    ensures
        r@ == (match last_line_upto(
            spec_split(lossy_utf8(stdout@), '\n'),
            spec_split(lossy_utf8(stdout@), '\n').len() as int,
        ) {
            Some(l) => l,
            None => Seq::<char>::empty(),
        }),
{
    let text = bytes_to_string_lossy(stdout);
    let chars = str_to_chars(text.as_str());
    let parts = split_chars(&chars, '\n');
    let ghost ps = views(parts@);
    let mut i: usize = parts.len();
    while i > 0
        invariant
            i <= parts@.len(),
            ps == views(parts@),
            ps == spec_split(text@, '\n'),
            text@ == lossy_utf8(stdout@),
            last_line_upto(ps, ps.len() as int) == last_line_upto(ps, i as int),
        decreases i,
    {
        let t = trim_chars(&parts[i - 1]);
        proof {
            assert(ps[i - 1] == parts@[i - 1]@);
        }
        if t.len() > 0 {
            proof {
                assert(last_line_upto(ps, i as int) == Some(t@));
            }
            return chars_to_string(&t);
        }
        i = i - 1;
    }
    String::new()
}

} // verus!
