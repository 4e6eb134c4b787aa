//! Language-model plumbing: error types, formatting requests, and the
//! catalogue of local models with their cache layout. Running a model is
//! the caller's work; the library fixes names, paths and prompts.

use vstd::prelude::*;

use crate::registry::path_exists;

verus! {

/// What can go wrong around the local language model.
#[derive(Debug)]
pub enum LlmError {
    ModelNotFound(String),
    InferenceFailed(String),
    ModelLoadError(String),
    ConfigError(String),
    UnsupportedPlatform,
    IoError(String),
    ModelError(ModelError),
}

/// What can go wrong fetching or locating a model file.
#[derive(Debug)]
pub enum ModelError {
    DownloadFailed(String),
    NotFound(String),
    IoError(String),
}

/// A request to post-edit a piece of text.
#[derive(Debug, Clone)]
pub struct TextFormattingRequest {
    pub raw_text: String,
    pub format_type: FormattingType,
}

/// The available post-edit operations.
#[derive(Debug, Clone, PartialEq, Eq, Structural)]
pub enum FormattingType {
    RemoveFillers,
    AddPunctuation,
    FixCapitalization,
    CourseCorrection,
    SmartFormat,
}

/// The outcome of a post-edit: the new text beside the old.
#[derive(Debug, Clone)]
pub struct TextFormattingResponse {
    pub formatted_text: String,
    pub original_text: String,
}

/// One entry of the local model catalogue.
#[derive(Debug, Clone)]
pub struct LlmModelInfo {
    pub name: String,
    pub size_mb: u64,
    pub downloaded: bool,
    pub description: String,
    pub hf_repo: String,
    pub filename: String,
}

/// The language-model cache root that the given environment values
/// yield: a nonblank override wins; else the Windows per-user data
/// directory gets `OpenWispr/llm-models`; else the home directory gets
/// `.cache/openwispr/llm-models`.
pub open spec fn spec_llm_cache_dir(
    override_dir: Option<Seq<char>>,
    local_app_data: Option<Seq<char>>,
    home: Option<Seq<char>>,
) -> Option<Seq<char>> {
    match override_dir {
        Some(o) if crate::text::spec_trim(o).len() > 0 => Some(o),
        _ => match local_app_data {
            Some(l) if crate::text::spec_trim(l).len() > 0 => Some(
                l + "/OpenWispr/llm-models"@,
            ),
            _ => match home {
                Some(h) if crate::text::spec_trim(h).len() > 0 => Some(
                    h + "/.cache/openwispr/llm-models"@,
                ),
                _ => None,
            },
        },
    }
}

/// The language-model cache root. The caller passes the environment's
/// override, the Windows per-user data directory (absent elsewhere), and
/// the home directory; the first applicable nonblank value decides, as
/// [`spec_llm_cache_dir`] says, and nothing applicable is an error.
pub fn llm_model_cache_dir(
    override_dir: Option<String>,
    local_app_data: Option<String>,
    home: Option<String>,
) -> (r: Result<String, ModelError>)
    ensures
        r matches Ok(p) ==> spec_llm_cache_dir(
            crate::registry::opt_view(override_dir),
            crate::registry::opt_view(local_app_data),
            crate::registry::opt_view(home),
        ) == Some(p@),
        r is Err <==> spec_llm_cache_dir(
            crate::registry::opt_view(override_dir),
            crate::registry::opt_view(local_app_data),
            crate::registry::opt_view(home),
        ) is None,
{
    if let Some(o) = &override_dir {
        let t = crate::text::trim_chars(&crate::text::str_to_chars(o.as_str()));
        if t.len() > 0 {
            return Ok(crate::store::clone_string(o));
        }
    }
    if let Some(l) = &local_app_data {
        let t = crate::text::trim_chars(&crate::text::str_to_chars(l.as_str()));
        if t.len() > 0 {
            let mut s = crate::store::clone_string(l);
            s.append("/OpenWispr/llm-models");
            return Ok(s);
        }
    }
    if let Some(h) = &home {
        let t = crate::text::trim_chars(&crate::text::str_to_chars(h.as_str()));
        if t.len() > 0 {
            let mut s = crate::store::clone_string(h);
            s.append("/.cache/openwispr/llm-models");
            return Ok(s);
        }
    }
    Err(ModelError::NotFound("Home directory not found".to_owned()))
}

/// The catalogue of local models: `(name, repository, file, size in MB)`.
pub fn llm_available_models() -> (r: Vec<(String, String, String, u64)>)
    ensures
        r@.len() == 3,
        r@[0].0@ == "SmolLM2-135M-Instruct-Q4_K_M"@ && r@[0].1@
            == "bartowski/SmolLM2-135M-Instruct-GGUF"@ && r@[0].2@
            == "SmolLM2-135M-Instruct-Q4_K_M.gguf"@ && r@[0].3 == 80,
        r@[1].0@ == "SmolLM2-360M-Instruct-Q4_K_M"@ && r@[1].1@
            == "bartowski/SmolLM2-360M-Instruct-GGUF"@ && r@[1].2@
            == "SmolLM2-360M-Instruct-Q4_K_M.gguf"@ && r@[1].3 == 200,
        r@[2].0@ == "SmolLM2-1.7B-Instruct-Q5_K_M"@ && r@[2].1@
            == "bartowski/SmolLM2-1.7B-Instruct-GGUF"@ && r@[2].2@
            == "SmolLM2-1.7B-Instruct-Q5_K_M.gguf"@ && r@[2].3 == 1200,
{
    let mut r: Vec<(String, String, String, u64)> = Vec::new();
    r.push(
        (
            "SmolLM2-135M-Instruct-Q4_K_M".to_owned(),
            "bartowski/SmolLM2-135M-Instruct-GGUF".to_owned(),
            "SmolLM2-135M-Instruct-Q4_K_M.gguf".to_owned(),
            80,
        ),
    );
    r.push(
        (
            "SmolLM2-360M-Instruct-Q4_K_M".to_owned(),
            "bartowski/SmolLM2-360M-Instruct-GGUF".to_owned(),
            "SmolLM2-360M-Instruct-Q4_K_M.gguf".to_owned(),
            200,
        ),
    );
    r.push(
        (
            "SmolLM2-1.7B-Instruct-Q5_K_M".to_owned(),
            "bartowski/SmolLM2-1.7B-Instruct-GGUF".to_owned(),
            "SmolLM2-1.7B-Instruct-Q5_K_M.gguf".to_owned(),
            1200,
        ),
    );
    r
}

/// The file a catalogued model is stored in, under the cache directory.
///
/// Succeeds exactly for the three catalogued names.
pub fn get_model_path(model_name: &str, cache_dir: &str) -> (r: Result<String, ModelError>)
    ensures
        r matches Ok(p) ==> {
            ||| (model_name@ == "SmolLM2-135M-Instruct-Q4_K_M"@ && p@ == cache_dir@ + "/"@
                + "SmolLM2-135M-Instruct-Q4_K_M.gguf"@)
            ||| (model_name@ == "SmolLM2-360M-Instruct-Q4_K_M"@ && p@ == cache_dir@ + "/"@
                + "SmolLM2-360M-Instruct-Q4_K_M.gguf"@)
            ||| (model_name@ == "SmolLM2-1.7B-Instruct-Q5_K_M"@ && p@ == cache_dir@ + "/"@
                + "SmolLM2-1.7B-Instruct-Q5_K_M.gguf"@)
        },
        r is Ok <==> (model_name@ == "SmolLM2-135M-Instruct-Q4_K_M"@ || model_name@
            == "SmolLM2-360M-Instruct-Q4_K_M"@ || model_name@
            == "SmolLM2-1.7B-Instruct-Q5_K_M"@),
{
    let models = llm_available_models();
    let name_chars = crate::text::str_to_chars(model_name);
    if crate::text::chars_eq(&name_chars, &crate::text::str_to_chars(models[0].0.as_str())) {
        let mut p = cache_dir.to_owned();
        p.append("/");
        p.append(models[0].2.as_str());
        return Ok(p);
    }
    if crate::text::chars_eq(&name_chars, &crate::text::str_to_chars(models[1].0.as_str())) {
        let mut p = cache_dir.to_owned();
        p.append("/");
        p.append(models[1].2.as_str());
        return Ok(p);
    }
    if crate::text::chars_eq(&name_chars, &crate::text::str_to_chars(models[2].0.as_str())) {
        let mut p = cache_dir.to_owned();
        p.append("/");
        p.append(models[2].2.as_str());
        return Ok(p);
    }
    let mut m = "Model '".to_owned();
    m.append(model_name);
    m.append("' not found");
    Err(ModelError::NotFound(m))
}

/// Whether a catalogued model's file is on disk. A name outside the
/// catalogue is never downloaded; otherwise the answer depends on the
/// disk.
pub fn is_model_downloaded(model_name: &str, cache_dir: &str) -> (r: bool)
    ensures
        !(model_name@ == "SmolLM2-135M-Instruct-Q4_K_M"@ || model_name@
            == "SmolLM2-360M-Instruct-Q4_K_M"@ || model_name@
            == "SmolLM2-1.7B-Instruct-Q5_K_M"@) ==> !r,
{
    match get_model_path(model_name, cache_dir) {
        Ok(p) => path_exists(p.as_str()),
        Err(_) => false,
    }
}

/// The catalogue with each model's download state filled in from the
/// disk. Names, sizes, repositories and files are fixed; `downloaded`
/// depends on the disk.
pub fn list_models(cache_dir: &str) -> (r: Vec<LlmModelInfo>)
    ensures
        r@.len() == 3,
        r@[0].name@ == "SmolLM2-135M-Instruct-Q4_K_M"@ && r@[0].size_mb == 80 && r@[0].hf_repo@
            == "bartowski/SmolLM2-135M-Instruct-GGUF"@ && r@[0].filename@
            == "SmolLM2-135M-Instruct-Q4_K_M.gguf"@,
        r@[1].name@ == "SmolLM2-360M-Instruct-Q4_K_M"@ && r@[1].size_mb == 200 && r@[1].hf_repo@
            == "bartowski/SmolLM2-360M-Instruct-GGUF"@ && r@[1].filename@
            == "SmolLM2-360M-Instruct-Q4_K_M.gguf"@,
        r@[2].name@ == "SmolLM2-1.7B-Instruct-Q5_K_M"@ && r@[2].size_mb == 1200 && r@[2].hf_repo@
            == "bartowski/SmolLM2-1.7B-Instruct-GGUF"@ && r@[2].filename@
            == "SmolLM2-1.7B-Instruct-Q5_K_M.gguf"@,
        r@[0].description@ == "SmolLM2 135M quantized model"@,
        r@[1].description@ == "SmolLM2 360M quantized model"@,
        r@[2].description@ == "SmolLM2 1.7B quantized model"@,
{
    let models = llm_available_models();
    let mut r: Vec<LlmModelInfo> = Vec::new();
    let d0 = is_model_downloaded(models[0].0.as_str(), cache_dir);
    r.push(
        LlmModelInfo {
            name: crate::store::clone_string(&models[0].0),
            size_mb: 80,
            downloaded: d0,
            description: "SmolLM2 135M quantized model".to_owned(),
            hf_repo: crate::store::clone_string(&models[0].1),
            filename: crate::store::clone_string(&models[0].2),
        },
    );
    let d1 = is_model_downloaded(models[1].0.as_str(), cache_dir);
    r.push(
        LlmModelInfo {
            name: crate::store::clone_string(&models[1].0),
            size_mb: 200,
            downloaded: d1,
            description: "SmolLM2 360M quantized model".to_owned(),
            hf_repo: crate::store::clone_string(&models[1].1),
            filename: crate::store::clone_string(&models[1].2),
        },
    );
    let d2 = is_model_downloaded(models[2].0.as_str(), cache_dir);
    r.push(
        LlmModelInfo {
            name: crate::store::clone_string(&models[2].0),
            size_mb: 1200,
            downloaded: d2,
            description: "SmolLM2 1.7B quantized model".to_owned(),
            hf_repo: crate::store::clone_string(&models[2].1),
            filename: crate::store::clone_string(&models[2].2),
        },
    );
    r
}

/// A model reported by a local Ollama server.
#[derive(Debug, Clone)]
pub struct OllamaModel {
    pub name: String,
    pub size: u64,
    pub digest: String,
    pub details: Option<OllamaModelDetails>,
}

/// The details Ollama reports of one model.
#[derive(Debug, Clone)]
pub struct OllamaModelDetails {
    pub format: String,
    pub family: String,
    pub families: Option<Vec<String>>,
    pub parameter_size: String,
    pub quantization_level: String,
}

/// The tags endpoint of an Ollama server: the base url, given an
/// `http://` prefix when it names none, trailing slashes dropped, with
/// `/api/tags` appended.
pub fn ollama_tags_url(base_url: &str) -> (r: String)
    ensures
        r@ == {
            let with_scheme = if crate::text::spec_starts_with(base_url@, "http"@) {
                base_url@
            } else {
                "http://"@ + base_url@
            };
            trim_end_slashes(with_scheme) + "/api/tags"@
        },
{
    let chars = crate::text::str_to_chars(base_url);
    let mut full: Vec<char> = Vec::new();
    if !crate::text::starts_with_chars(&chars, &crate::text::str_to_chars("http")) {
        crate::text::append_chars(&mut full, &crate::text::str_to_chars("http://"));
    }
    crate::text::append_chars(&mut full, &chars);
    let ghost with_scheme = full@;
    let mut end: usize = full.len();
    proof {
        assert(full@.take(full@.len() as int) =~= full@);
    }
    while end > 0 && full[end - 1] == '/'
        invariant
            end <= full@.len(),
            with_scheme == full@,
            forall|j: int| end <= j < full@.len() ==> full@[j] == '/',
            trim_end_slashes(with_scheme) == trim_end_slashes(full@.take(end as int)),
        decreases end,
    {
        proof {
            let cut = full@.take(end as int);
            assert(cut[end - 1] == full@[end - 1]);
            assert(cut.take(end - 1) =~= full@.take(end - 1));
        }
        end = end - 1;
    }
    proof {
        let cut = with_scheme.take(end as int);
        if end > 0 {
            assert(cut[end - 1] == with_scheme[end - 1] && cut[end - 1] != '/');
        }
        assert(trim_end_slashes(cut) == cut);
    }
    let mut out: Vec<char> = Vec::new();
    let mut i: usize = 0;
    while i < end
        invariant
            i <= end <= full@.len(),
            with_scheme == full@,
            out@ =~= full@.subrange(0, i as int),
        decreases end - i,
    {
        out.push(full[i]);
        i = i + 1;
    }
    proof {
        assert(out@ =~= with_scheme.take(end as int));
    }
    let mut s = crate::text::chars_to_string(&out);
    s.append("/api/tags");
    s
}

/// `s` with its trailing `/` characters removed.
pub open spec fn trim_end_slashes(s: Seq<char>) -> Seq<char>
    decreases s.len(),
{
    if s.len() > 0 && s[s.len() - 1] == '/' {
        trim_end_slashes(s.take(s.len() - 1))
    } else {
        s
    }
}

/// The remote location of a catalogued model file.
pub fn llm_download_url(hf_repo: &str, filename: &str) -> (r: String)
    ensures
        r@ == "https://huggingface.co/"@ + hf_repo@ + "/resolve/main/"@ + filename@,
{
    let mut s = "https://huggingface.co/".to_owned();
    s.append(hf_repo);
    s.append("/resolve/main/");
    s.append(filename);
    s
}

} // verus!
