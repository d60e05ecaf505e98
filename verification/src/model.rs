//! The one supported model profile: where its files live, which files it
//! needs, and the profile built from the configuration.
use vstd::prelude::*;

use crate::text::{chars_of, spec_trim, string_from_chars, text_eq, trim_chars};

verus! {

/// Where the archive of the supported model can be downloaded.
pub const SHERPA_ONNX_MODEL_ARCHIVE_URL: &'static str =
    "https://github.com/k2-fsa/sherpa-onnx/releases/download/asr-models/sherpa-onnx-nemo-parakeet-tdt-0.6b-v3-int8.tar.bz2";

/// The one model profile this engine supports.
pub const DEFAULT_SHERPA_ONNX_MODEL: &'static str = "sherpa-onnx-nemo-parakeet-tdt-0.6b-v3-int8";

/// The provider used when none is configured.
pub const DEFAULT_SHERPA_ONNX_PROVIDER: &'static str = "auto";

/// The thread count used when the configured one is not positive.
pub const DEFAULT_SHERPA_ONNX_NUM_THREADS: i32 = 4;

pub const ENCODER_FILE: &'static str = "encoder.int8.onnx";

pub const DECODER_FILE: &'static str = "decoder.int8.onnx";

pub const JOINER_FILE: &'static str = "joiner.int8.onnx";

pub const TOKENS_FILE: &'static str = "tokens.txt";

/// The model type handed to the recognizer for the supported profile.
pub const NEMO_TRANSDUCER_MODEL_TYPE: &'static str = "nemo_transducer";

/// The transcription settings this engine reads. Paths are held as text.
#[derive(Debug, Clone)]
pub struct TranscriptionConfig {
    /// Directory under which downloaded models are kept.
    pub model_path: String,
    /// Name of the Sherpa ONNX model profile.
    pub sherpa_onnx_model: String,
    /// Explicit model directory; when absent it is derived from `model_path`.
    pub sherpa_onnx_model_dir: Option<String>,
    /// Requested execution provider (`auto`, `cpu`, `coreml` or `cuda`).
    pub sherpa_onnx_provider: String,
    /// Recognizer threads; a value that is not positive selects the default.
    pub sherpa_onnx_num_threads: i32,
}

/// The configuration this engine reads.
#[derive(Debug, Clone)]
pub struct Config {
    pub transcription: TranscriptionConfig,
}

impl Default for TranscriptionConfig {
    fn default() -> (r: Self)
        ensures
            r.model_path@ == Seq::<char>::empty(),
            r.sherpa_onnx_model@ == DEFAULT_SHERPA_ONNX_MODEL@,
            r.sherpa_onnx_model_dir is None,
            r.sherpa_onnx_provider@ == DEFAULT_SHERPA_ONNX_PROVIDER@,
            r.sherpa_onnx_num_threads == DEFAULT_SHERPA_ONNX_NUM_THREADS,
    {
        TranscriptionConfig {
            model_path: String::new(),
            sherpa_onnx_model: String::from_str(DEFAULT_SHERPA_ONNX_MODEL),
            sherpa_onnx_model_dir: None,
            sherpa_onnx_provider: String::from_str(DEFAULT_SHERPA_ONNX_PROVIDER),
            sherpa_onnx_num_threads: DEFAULT_SHERPA_ONNX_NUM_THREADS,
        }
    }
}

impl Default for Config {
    fn default() -> (r: Self)
        ensures
            r.transcription.model_path@ == Seq::<char>::empty(),
            r.transcription.sherpa_onnx_model@ == DEFAULT_SHERPA_ONNX_MODEL@,
            r.transcription.sherpa_onnx_model_dir is None,
            r.transcription.sherpa_onnx_provider@ == DEFAULT_SHERPA_ONNX_PROVIDER@,
            r.transcription.sherpa_onnx_num_threads == DEFAULT_SHERPA_ONNX_NUM_THREADS,
    {
        Config { transcription: TranscriptionConfig::default() }
    }
}

/// The files of a resolved model profile, held as path text.
#[derive(Debug, Clone, PartialEq, Eq)]
pub struct SherpaOnnxModelProfile {
    pub model: String,
    pub model_dir: String,
    pub encoder: String,
    pub decoder: String,
    pub joiner: String,
    pub tokens: String,
    pub model_type: &'static str,
}

/// What `std::path::Path::join` gives for `base` joined with `part`, as text,
/// under the path rules of the target the library is built for.
pub uninterp spec fn path_join_result(base: Seq<char>, part: Seq<char>) -> Seq<char>;

/// A path separator on some target: `/` everywhere, `\\` on Windows.
pub open spec fn spec_is_path_separator(c: char) -> bool {
    c == '/' || c == '\\'
}

/// A single plain path component: not empty, with no separator and no `:`
/// (so it is relative and has no drive prefix on any target).
pub open spec fn spec_is_plain_name(part: Seq<char>) -> bool {
    &&& part.len() > 0
    &&& forall|i: int|
        0 <= i < part.len() ==> !spec_is_path_separator(#[trigger] part[i]) && part[i] != ':'
}

/// A path that starts with a Windows verbatim prefix (`\\?\`).
pub open spec fn spec_has_verbatim_prefix(base: Seq<char>) -> bool {
    &&& base.len() >= 4
    &&& base[0] == '\\'
    &&& base[1] == '\\'
    &&& base[2] == '?'
    &&& base[3] == '\\'
}

/// `joined` is `base` with `part` adjoined: `base` as written, at most one
/// separator, then `part`. The separator is there when `base` is not empty
/// and ends in neither a separator nor `:`, and absent when `base` is empty.
pub open spec fn spec_adjoined(base: Seq<char>, part: Seq<char>, joined: Seq<char>) -> bool {
    &&& joined.len() == base.len() + part.len() || joined.len() == base.len() + part.len() + 1
    &&& joined.take(base.len() as int) == base
    &&& joined.skip(joined.len() - part.len()) == part
    &&& joined.len() == base.len() + part.len() + 1 ==> spec_is_path_separator(
        joined[base.len() as int],
    )
    &&& base.len() == 0 ==> joined == part
    &&& (base.len() > 0 && !spec_is_path_separator(base.last()) && base.last() != ':')
        ==> joined.len() == base.len() + part.len() + 1
}

/// Calls `std::path::Path::join` on `base` and `part` and returns the joined
/// path as text. Claimed: the result is `path_join_result(base, part)`, a
/// function of the two texts alone; and when `part` is a plain name and
/// `base` has no Windows verbatim prefix, the result is `base` kept as
/// written, at most one separator, then `part` (`spec_adjoined`), as
/// `PathBuf::push` documents for a relative path: it extends the path, adding
/// the separator when the path does not end in one (a bare Windows drive such
/// as `C:` gets none). Which separator is used, and what happens to an
/// absolute part, a part with a prefix, or a verbatim base, is not claimed:
/// that depends on the target's path rules.
#[verifier::external_body]
fn join_path(base: &str, part: &str) -> (joined: String)
    ensures
        joined@ == path_join_result(base@, part@),
        spec_is_plain_name(part@) && !spec_has_verbatim_prefix(base@) ==> spec_adjoined(
            base@,
            part@,
            joined@,
        ),
{
    std::path::Path::new(base).join(part).to_string_lossy().into_owned()
}

/// The file names of the model, and `sherpa-onnx`, are plain names.
pub proof fn lemma_model_file_names_are_plain()
    ensures
        spec_is_plain_name("sherpa-onnx"@),
        spec_is_plain_name(ENCODER_FILE@),
        spec_is_plain_name(DECODER_FILE@),
        spec_is_plain_name(JOINER_FILE@),
        spec_is_plain_name(TOKENS_FILE@),
        spec_is_plain_name(DEFAULT_SHERPA_ONNX_MODEL@),
{
    reveal_strlit("sherpa-onnx");
    reveal_strlit("encoder.int8.onnx");
    reveal_strlit("decoder.int8.onnx");
    reveal_strlit("joiner.int8.onnx");
    reveal_strlit("tokens.txt");
    reveal_strlit("sherpa-onnx-nemo-parakeet-tdt-0.6b-v3-int8");
}

/// What `==` on `std::path::Path` gives for the paths written `a` and `b`:
/// equality of their components under the path rules of the target the
/// library is built for (so `/opt/m` and `/opt/m/` are the same path).
pub uninterp spec fn path_eq_result(a: Seq<char>, b: Seq<char>) -> bool;

/// Compares `std::path::Path::new(a)` and `std::path::Path::new(b)` with
/// `Path`'s `==`. Claimed: the result is `path_eq_result(a, b)`, a function of
/// the two texts alone, and equal texts are equal paths (`Path` is `Eq`, so
/// `==` is reflexive). Which other texts name the same path is not claimed:
/// it depends on the target's path rules.
#[verifier::external_body]
pub(crate) fn paths_equal(a: &str, b: &str) -> (r: bool)
    ensures
        r == path_eq_result(a@, b@),
        a@ == b@ ==> r,
{
    std::path::Path::new(a) == std::path::Path::new(b)
}

/// The file names the supported model needs, in the order they are checked.
pub open spec fn spec_required_files() -> Seq<Seq<char>> {
    seq![ENCODER_FILE@, DECODER_FILE@, JOINER_FILE@, TOKENS_FILE@]
}

/// The error for a model name other than the supported one.
pub open spec fn spec_unknown_model_message(model: Seq<char>) -> Seq<char> {
    "unknown sherpa-onnx model `"@ + model + "`; v1 supports `"@ + DEFAULT_SHERPA_ONNX_MODEL@
        + "`"@
}

/// The error for a required model file that is not a file.
pub open spec fn spec_missing_file_message(path: Seq<char>) -> Seq<char> {
    "missing Sherpa ONNX model file: "@ + path
}

/// The model directory a configuration selects: the explicit directory when
/// one is set, otherwise `<model_path>/sherpa-onnx/<model>`.
pub open spec fn spec_resolve_model_dir(t: TranscriptionConfig) -> Seq<char> {
    match t.sherpa_onnx_model_dir {
        Some(dir) => dir@,
        None => path_join_result(
            path_join_result(t.model_path@, "sherpa-onnx"@),
            t.sherpa_onnx_model@,
        ),
    }
}

/// Whether the `i`-th required file was found to be a file; an entry that is
/// not there counts as not found.
pub open spec fn spec_file_found(file_exists: Seq<bool>, i: int) -> bool {
    0 <= i < file_exists.len() && file_exists[i]
}

/// The outcome of checking the required files from index `i` on: the error
/// for the first one not found, or success.
pub open spec fn spec_check_files_from(
    model_dir: Seq<char>,
    files: Seq<Seq<char>>,
    file_exists: Seq<bool>,
    i: int,
) -> Result<(), Seq<char>>
    decreases files.len() - i,
{
    if i < 0 || i >= files.len() {
        Ok(())
    } else if !spec_file_found(file_exists, i) {
        Err(spec_missing_file_message(path_join_result(model_dir, files[i])))
    } else {
        spec_check_files_from(model_dir, files, file_exists, i + 1)
    }
}

/// The outcome of validating a model directory.
pub open spec fn spec_validate_model_dir(
    model: Seq<char>,
    model_dir: Seq<char>,
    file_exists: Seq<bool>,
) -> Result<(), Seq<char>> {
    if model != DEFAULT_SHERPA_ONNX_MODEL@ {
        Err(spec_unknown_model_message(model))
    } else {
        spec_check_files_from(model_dir, spec_required_files(), file_exists, 0)
    }
}

/// The download address of `model`: known for the supported model only.
pub fn model_archive_url(model: &str) -> (r: Option<&'static str>)
    ensures
        r is Some <==> model@ == DEFAULT_SHERPA_ONNX_MODEL@,
        r matches Some(url) ==> url@ == SHERPA_ONNX_MODEL_ARCHIVE_URL@,
{
    if text_eq(model, DEFAULT_SHERPA_ONNX_MODEL) {
        Some(SHERPA_ONNX_MODEL_ARCHIVE_URL)
    } else {
        None
    }
}

/// The error text for an unsupported model name.
fn unknown_model_message(model: &str) -> (r: String)
    ensures
        r@ == spec_unknown_model_message(model@),
{
    String::from_str("unknown sherpa-onnx model `").concat(model).concat("`; v1 supports `").concat(
        DEFAULT_SHERPA_ONNX_MODEL,
    ).concat("`")
}

/// The files the model needs: encoder, decoder, joiner and tokens. Any model
/// other than the supported one is refused.
pub fn required_model_files(model: &str) -> (r: Result<Vec<&'static str>, String>)
    ensures
        r is Ok <==> model@ == DEFAULT_SHERPA_ONNX_MODEL@,
        r matches Ok(files) ==> files@.map_values(|f: &str| f@) == spec_required_files(),
        r matches Err(e) ==> e@ == spec_unknown_model_message(model@),
{
    if !text_eq(model, DEFAULT_SHERPA_ONNX_MODEL) {
        return Err(unknown_model_message(model));
    }
    let files = vec![ENCODER_FILE, DECODER_FILE, JOINER_FILE, TOKENS_FILE];
    assert(files@.map_values(|f: &str| f@) =~= spec_required_files());
    Ok(files)
}

/// `profile` is the one of `model` in `model_dir`: its four files joined to
/// the directory, and the supported model type.
pub open spec fn spec_is_profile_of(
    profile: SherpaOnnxModelProfile,
    model: Seq<char>,
    model_dir: Seq<char>,
) -> bool {
    &&& profile.model@ == model
    &&& profile.model_dir@ == model_dir
    &&& profile.encoder@ == path_join_result(model_dir, ENCODER_FILE@)
    &&& profile.decoder@ == path_join_result(model_dir, DECODER_FILE@)
    &&& profile.joiner@ == path_join_result(model_dir, JOINER_FILE@)
    &&& profile.tokens@ == path_join_result(model_dir, TOKENS_FILE@)
    &&& profile.model_type@ == NEMO_TRANSDUCER_MODEL_TYPE@
}

/// The model directory of a configuration: the explicit directory when set,
/// otherwise the model name joined under `sherpa-onnx` in the model path.
pub fn resolve_model_dir(config: &Config) -> (r: String)
    ensures
        r@ == spec_resolve_model_dir(config.transcription),
        // The derived directory is the model path as written, then
        // `sherpa-onnx`, then the model name, each after at most one
        // separator.
        ({
            let t = config.transcription;
            let mid = path_join_result(t.model_path@, "sherpa-onnx"@);
            t.sherpa_onnx_model_dir is None && !spec_has_verbatim_prefix(t.model_path@) ==> {
                &&& spec_adjoined(t.model_path@, "sherpa-onnx"@, mid)
                &&& spec_is_plain_name(t.sherpa_onnx_model@) && !spec_has_verbatim_prefix(mid)
                    ==> spec_adjoined(mid, t.sherpa_onnx_model@, r@)
            }
        }),
{
    proof {
        lemma_model_file_names_are_plain();
    }
    match &config.transcription.sherpa_onnx_model_dir {
        Some(dir) => dir.clone(),
        None => {
            let base = join_path(config.transcription.model_path.as_str(), "sherpa-onnx");
            join_path(base.as_str(), config.transcription.sherpa_onnx_model.as_str())
        },
    }
}

/// Checks that every file the model needs is present in `model_dir`.
/// `file_exists[i]` says whether the `i`-th file of `required_model_files`,
/// joined to `model_dir`, was found to be a regular file; an entry that is not
/// given counts as not found. The error names the first file not found.
pub fn validate_model_dir(model: &str, model_dir: &str, file_exists: &Vec<bool>) -> (r: Result<
    (),
    String,
>)
    ensures
        match r {
            Ok(()) => spec_validate_model_dir(model@, model_dir@, file_exists@) is Ok,
            Err(e) => spec_validate_model_dir(model@, model_dir@, file_exists@) == Err::<(), Seq<char>>(e@),
        },
{
    let files = match required_model_files(model) {
        Ok(files) => files,
        Err(e) => return Err(e),
    };
    let ghost names = files@.map_values(|f: &str| f@);
    let n = files.len();
    let mut i: usize = 0;
    while i < n
        invariant
            i <= n == files.len() == names.len(),
            names == spec_required_files(),
            model@ == DEFAULT_SHERPA_ONNX_MODEL@,
            forall|k: int| 0 <= k < n ==> names[k] == #[trigger] files@[k]@,
            spec_check_files_from(model_dir@, names, file_exists@, 0) == spec_check_files_from(
                model_dir@,
                names,
                file_exists@,
                i as int,
            ),
        decreases n - i,
    {
        let found = i < file_exists.len() && file_exists[i];
        if !found {
            let path = join_path(model_dir, files[i]);
            let msg = String::from_str("missing Sherpa ONNX model file: ").concat(path.as_str());
            assert(names[i as int] == files@[i as int]@);
            return Err(msg);
        }
        i = i + 1;
    }
    Ok(())
}

/// Resolves the model profile of a configuration: the trimmed model name must
/// be the supported one, and every required file must be found in the model
/// directory that `resolve_model_dir` gives (`file_exists` as for
/// `validate_model_dir`).
pub fn resolve_model_profile(config: &Config, file_exists: &Vec<bool>) -> (r: Result<
    SherpaOnnxModelProfile,
    String,
>)
    ensures
        ({
            let model = spec_trim(config.transcription.sherpa_onnx_model@);
            let dir = spec_resolve_model_dir(config.transcription);
            match r {
                Ok(p) => {
                    &&& spec_validate_model_dir(model, dir, file_exists@) is Ok
                    &&& spec_is_profile_of(p, model, dir)
                },
                Err(e) => spec_validate_model_dir(model, dir, file_exists@) == Err::<(), Seq<char>>(e@),
            }
        }),
        // Each file path is the model directory as written, at most one
        // separator, then the file name.
        (r is Ok && !spec_has_verbatim_prefix(r->Ok_0.model_dir@)) ==> {
            &&& spec_adjoined(r->Ok_0.model_dir@, ENCODER_FILE@, r->Ok_0.encoder@)
            &&& spec_adjoined(r->Ok_0.model_dir@, DECODER_FILE@, r->Ok_0.decoder@)
            &&& spec_adjoined(r->Ok_0.model_dir@, JOINER_FILE@, r->Ok_0.joiner@)
            &&& spec_adjoined(r->Ok_0.model_dir@, TOKENS_FILE@, r->Ok_0.tokens@)
        },
{
    proof {
        lemma_model_file_names_are_plain();
    }
    let raw = chars_of(config.transcription.sherpa_onnx_model.as_str());
    let trimmed = trim_chars(&raw);
    let model = string_from_chars(&trimmed);
    if !text_eq(model.as_str(), DEFAULT_SHERPA_ONNX_MODEL) {
        return Err(unknown_model_message(model.as_str()));
    }
    let model_dir = resolve_model_dir(config);
    match validate_model_dir(model.as_str(), model_dir.as_str(), file_exists) {
        Ok(()) => {},
        Err(e) => return Err(e),
    }
    let encoder = join_path(model_dir.as_str(), ENCODER_FILE);
    let decoder = join_path(model_dir.as_str(), DECODER_FILE);
    let joiner = join_path(model_dir.as_str(), JOINER_FILE);
    let tokens = join_path(model_dir.as_str(), TOKENS_FILE);
    Ok(SherpaOnnxModelProfile {
        model,
        model_dir,
        encoder,
        decoder,
        joiner,
        tokens,
        model_type: NEMO_TRANSDUCER_MODEL_TYPE,
    })
}

/// The recognizer thread count: the configured one when positive, otherwise
/// the default.
pub fn effective_num_threads(config: &Config) -> (r: i32)
    ensures
        r == if config.transcription.sherpa_onnx_num_threads <= 0 {
            DEFAULT_SHERPA_ONNX_NUM_THREADS
        } else {
            config.transcription.sherpa_onnx_num_threads
        },
        r > 0,
{
    if config.transcription.sherpa_onnx_num_threads <= 0 {
        DEFAULT_SHERPA_ONNX_NUM_THREADS
    } else {
        config.transcription.sherpa_onnx_num_threads
    }
}

/// The profile a probe reports: the resolved profile when the configuration
/// resolves; otherwise the configured model name as written, the model
/// directory of the configuration, empty file paths and the supported model
/// type.
pub fn probe_model_profile(config: &Config, file_exists: &Vec<bool>) -> (r: SherpaOnnxModelProfile)
    ensures
        ({
            let model = spec_trim(config.transcription.sherpa_onnx_model@);
            let dir = spec_resolve_model_dir(config.transcription);
            if spec_validate_model_dir(model, dir, file_exists@) is Ok {
                spec_is_profile_of(r, model, dir)
            } else {
                &&& r.model@ == config.transcription.sherpa_onnx_model@
                &&& r.model_dir@ == dir
                &&& r.encoder@ == Seq::<char>::empty()
                &&& r.decoder@ == Seq::<char>::empty()
                &&& r.joiner@ == Seq::<char>::empty()
                &&& r.tokens@ == Seq::<char>::empty()
                &&& r.model_type@ == NEMO_TRANSDUCER_MODEL_TYPE@
            }
        }),
{
    match resolve_model_profile(config, file_exists) {
        Ok(profile) => profile,
        Err(_) => SherpaOnnxModelProfile {
            model: config.transcription.sherpa_onnx_model.clone(),
            model_dir: resolve_model_dir(config),
            encoder: String::new(),
            decoder: String::new(),
            joiner: String::new(),
            tokens: String::new(),
            model_type: NEMO_TRANSDUCER_MODEL_TYPE,
        },
    }
}

} // verus!
