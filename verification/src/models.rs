//! The catalog of speech-recognition models: their ids, names, archives, download
//! locations and the files each recognizer loads.
use vstd::prelude::*;
use vstd::string::StringExecFns;
use crate::paths::join;
use crate::paths::spec_join;
use crate::paths::is_relative;
use crate::desktop_text::spec_contains;
use crate::desktop_text::lemma_contains_in_concat;
use crate::desktop_text::lemma_contains_itself;
use crate::paths::lemma_join_injective;
use crate::strings::str_eq;

verus! {

/// Where the model archives are published.
pub const ASR_MODELS_BASE_URL: &'static str =
    "https://github.com/k2-fsa/sherpa-onnx/releases/download/asr-models";

/// The id of the model used when none is chosen.
pub const DEFAULT_MODEL_ID_STR: &'static str = "parakeet-tdt-0.6b-v2-int8";

/// The id of a catalog model.
#[derive(Clone, Copy, Debug, PartialEq, Eq, Hash)]
pub struct ModelId(pub &'static str);

impl ModelId {
    pub fn new(value: &'static str) -> (r: ModelId)
        ensures
            r.0 == value,
    {
        ModelId(value)
    }

    pub fn as_str(self) -> (r: &'static str)
        ensures
            r == self.0,
    {
        self.0
    }
}

/// The id of the model used when none is chosen.
pub fn default_model_id() -> (r: ModelId)
    ensures
        r.0 == DEFAULT_MODEL_ID_STR,
{
    ModelId(DEFAULT_MODEL_ID_STR)
}

/// How a model is loaded.
#[derive(Clone, Copy, Debug, PartialEq, Eq)]
pub enum SherpaRecognizerKind {
    Whisper { prefix: &'static str, language: Option<&'static str> },
    NemoTransducer,
    NemoCtc,
    SenseVoice { language: &'static str, use_itn: bool },
    MoonshineV1,
    MoonshineV2,
}

/// One model of the catalog.
#[derive(Clone, Copy, Debug, PartialEq, Eq)]
pub struct ModelCatalogEntry {
    pub id: ModelId,
    pub display_name: &'static str,
    pub archive_name: &'static str,
    pub recognizer: SherpaRecognizerKind,
}

/// The catalog, in order.
pub open spec fn spec_catalog() -> Seq<ModelCatalogEntry> {
    seq![
        ModelCatalogEntry {
            id: ModelId("whisper-tiny-en"),
            display_name: "Whisper tiny.en",
            archive_name: "sherpa-onnx-whisper-tiny.en.tar.bz2",
            recognizer: SherpaRecognizerKind::Whisper { prefix: "tiny.en", language: Some("en") },
        },
        ModelCatalogEntry {
            id: ModelId("whisper-tiny"),
            display_name: "Whisper tiny",
            archive_name: "sherpa-onnx-whisper-tiny.tar.bz2",
            recognizer: SherpaRecognizerKind::Whisper { prefix: "tiny", language: None },
        },
        ModelCatalogEntry {
            id: ModelId("whisper-base-en"),
            display_name: "Whisper base.en",
            archive_name: "sherpa-onnx-whisper-base.en.tar.bz2",
            recognizer: SherpaRecognizerKind::Whisper { prefix: "base.en", language: Some("en") },
        },
        ModelCatalogEntry {
            id: ModelId("whisper-base"),
            display_name: "Whisper base",
            archive_name: "sherpa-onnx-whisper-base.tar.bz2",
            recognizer: SherpaRecognizerKind::Whisper { prefix: "base", language: None },
        },
        ModelCatalogEntry {
            id: ModelId("whisper-small-en"),
            display_name: "Whisper small.en",
            archive_name: "sherpa-onnx-whisper-small.en.tar.bz2",
            recognizer: SherpaRecognizerKind::Whisper { prefix: "small.en", language: Some("en") },
        },
        ModelCatalogEntry {
            id: ModelId("whisper-small"),
            display_name: "Whisper small",
            archive_name: "sherpa-onnx-whisper-small.tar.bz2",
            recognizer: SherpaRecognizerKind::Whisper { prefix: "small", language: None },
        },
        ModelCatalogEntry {
            id: ModelId("whisper-medium-en"),
            display_name: "Whisper medium.en",
            archive_name: "sherpa-onnx-whisper-medium.en.tar.bz2",
            recognizer: SherpaRecognizerKind::Whisper {
                prefix: "medium.en",
                language: Some("en"),
            },
        },
        ModelCatalogEntry {
            id: ModelId("whisper-medium"),
            display_name: "Whisper medium",
            archive_name: "sherpa-onnx-whisper-medium.tar.bz2",
            recognizer: SherpaRecognizerKind::Whisper { prefix: "medium", language: None },
        },
        ModelCatalogEntry {
            id: ModelId("parakeet-tdt-0.6b-v2-int8"),
            display_name: "Parakeet TDT 0.6B v2 int8",
            archive_name: "sherpa-onnx-nemo-parakeet-tdt-0.6b-v2-int8.tar.bz2",
            recognizer: SherpaRecognizerKind::NemoTransducer,
        },
        ModelCatalogEntry {
            id: ModelId("parakeet-tdt-0.6b-v3-int8"),
            display_name: "Parakeet TDT 0.6B v3 int8",
            archive_name: "sherpa-onnx-nemo-parakeet-tdt-0.6b-v3-int8.tar.bz2",
            recognizer: SherpaRecognizerKind::NemoTransducer,
        },
        ModelCatalogEntry {
            id: ModelId("parakeet-tdt-ctc-110m-int8"),
            display_name: "Parakeet TDT-CTC 110M int8",
            archive_name: "sherpa-onnx-nemo-parakeet_tdt_ctc_110m-en-36000-int8.tar.bz2",
            recognizer: SherpaRecognizerKind::NemoCtc,
        },
        ModelCatalogEntry {
            id: ModelId("sense-voice-small-int8"),
            display_name: "SenseVoice Small int8",
            archive_name: "sherpa-onnx-sense-voice-zh-en-ja-ko-yue-int8-2024-07-17.tar.bz2",
            recognizer: SherpaRecognizerKind::SenseVoice { language: "en", use_itn: true },
        },
        ModelCatalogEntry {
            id: ModelId("moonshine-tiny-en"),
            display_name: "Moonshine Tiny English",
            archive_name: "sherpa-onnx-moonshine-tiny-en-int8.tar.bz2",
            recognizer: SherpaRecognizerKind::MoonshineV1,
        },
        ModelCatalogEntry {
            id: ModelId("moonshine-base-en"),
            display_name: "Moonshine Base English",
            archive_name: "sherpa-onnx-moonshine-base-en-int8.tar.bz2",
            recognizer: SherpaRecognizerKind::MoonshineV1,
        },
        ModelCatalogEntry {
            id: ModelId("moonshine-v2-tiny-en"),
            display_name: "Moonshine v2 Tiny English",
            archive_name: "sherpa-onnx-moonshine-tiny-en-quantized-2026-02-27.tar.bz2",
            recognizer: SherpaRecognizerKind::MoonshineV2,
        },
        ModelCatalogEntry {
            id: ModelId("moonshine-v2-base-en"),
            display_name: "Moonshine v2 Base English",
            archive_name: "sherpa-onnx-moonshine-base-en-quantized-2026-02-27.tar.bz2",
            recognizer: SherpaRecognizerKind::MoonshineV2,
        },
    ]
}

/// The first entry of `entries` whose id is `id`.
pub open spec fn spec_find_model(entries: Seq<ModelCatalogEntry>, id: Seq<char>) -> Option<
    ModelCatalogEntry,
>
    decreases entries.len(),
{
    if entries.len() == 0 {
        None
    } else if entries[0].id.0@ == id {
        Some(entries[0])
    } else {
        spec_find_model(entries.drop_first(), id)
    }
}

/// The catalog model with id `id`, if any.
pub open spec fn spec_model_by_id(id: Seq<char>) -> Option<ModelCatalogEntry> {
    spec_find_model(spec_catalog(), id)
}

/// The ids of `entries`, joined by `", "`.
pub open spec fn spec_join_ids(entries: Seq<ModelCatalogEntry>) -> Seq<char>
    decreases entries.len(),
{
    if entries.len() == 0 {
        Seq::empty()
    } else if entries.len() == 1 {
        entries[0].id.0@
    } else {
        spec_join_ids(entries.drop_last()) + ", "@ + entries.last().id.0@
    }
}

/// The joined ids hold the id of every entry.
pub proof fn lemma_join_ids_lists_every_id(entries: Seq<ModelCatalogEntry>, k: int)
    requires
        0 <= k < entries.len(),
    ensures
        spec_contains(spec_join_ids(entries), entries[k].id.0@),
    decreases entries.len(),
{
    let id = entries[k].id.0@;
    if entries.len() == 1 {
        lemma_contains_itself(id);
    } else {
        let front = spec_join_ids(entries.drop_last());
        if k == entries.len() - 1 {
            lemma_contains_itself(id);
            lemma_contains_in_concat(front + ", "@, id, Seq::empty(), id);
            assert(front + ", "@ + id + Seq::<char>::empty() =~= spec_join_ids(entries));
        } else {
            assert(entries.drop_last()[k] == entries[k]);
            lemma_join_ids_lists_every_id(entries.drop_last(), k);
            lemma_contains_in_concat(Seq::empty(), front, ", "@ + entries.last().id.0@, id);
            assert(Seq::<char>::empty() + front + (", "@ + entries.last().id.0@) =~= spec_join_ids(
                entries,
            ));
        }
    }
}

/// The files one recognizer loads, each below the model's directory.
#[derive(Clone, Debug, PartialEq, Eq)]
pub enum RecognizerFiles {
    Whisper { encoder: String, decoder: String, language: Option<&'static str>, task: &'static str },
    NemoTransducer { encoder: String, decoder: String, joiner: String, model_type: &'static str },
    NemoCtc { model: String },
    SenseVoice { model: String, language: &'static str, use_itn: bool },
    Moonshine {
        preprocessor: Option<String>,
        encoder: String,
        uncached_decoder: Option<String>,
        cached_decoder: Option<String>,
        merged_decoder: Option<String>,
    },
}

/// How a recognizer is configured: its files, the tokens file, and the CPU settings
/// every model runs with (two threads on the `cpu` provider).
#[derive(Clone, Debug, PartialEq, Eq)]
pub struct RecognizerConfig {
    pub files: RecognizerFiles,
    pub tokens: String,
    pub num_threads: i32,
    pub provider: &'static str,
}

/// The path of a model file: `file_name` below `model_dir`.
pub fn model_file(model_dir: &str, file_name: &str) -> (r: String)
    ensures
        r@ == spec_join(model_dir@, file_name@),
{
    join(model_dir, file_name)
}

fn prefixed(prefix: &str, suffix: &str) -> (r: String)
    ensures
        r@ == prefix@ + suffix@,
{
    let mut out = String::from_str(prefix);
    out.append(suffix);
    out
}

/// The configuration that loads a model of kind `kind` unpacked in `model_dir`: two
/// threads on the CPU, and the files each kind of recognizer reads.
pub open spec fn is_config_for(kind: SherpaRecognizerKind, model_dir: Seq<char>, r: RecognizerConfig) -> bool {
    &&& r.num_threads == 2
    &&& r.provider@ == "cpu"@
    &&& match kind {
        SherpaRecognizerKind::Whisper { prefix, language } => {
            &&& r.tokens@ == spec_join(model_dir, prefix@ + "-tokens.txt"@)
            &&& r.files matches RecognizerFiles::Whisper { encoder, decoder, language: l, task }
            &&& encoder@ == spec_join(model_dir, prefix@ + "-encoder.int8.onnx"@)
            &&& decoder@ == spec_join(model_dir, prefix@ + "-decoder.int8.onnx"@)
            &&& l == language
            &&& task@ == "transcribe"@
        },
        SherpaRecognizerKind::NemoTransducer => {
            &&& r.tokens@ == spec_join(model_dir, "tokens.txt"@)
            &&& r.files matches RecognizerFiles::NemoTransducer { encoder, decoder, joiner, model_type }
            &&& encoder@ == spec_join(model_dir, "encoder.int8.onnx"@)
            &&& decoder@ == spec_join(model_dir, "decoder.int8.onnx"@)
            &&& joiner@ == spec_join(model_dir, "joiner.int8.onnx"@)
            &&& model_type@ == "nemo_transducer"@
        },
        SherpaRecognizerKind::NemoCtc => {
            &&& r.tokens@ == spec_join(model_dir, "tokens.txt"@)
            &&& r.files matches RecognizerFiles::NemoCtc { model }
            &&& model@ == spec_join(model_dir, "model.int8.onnx"@)
        },
        SherpaRecognizerKind::SenseVoice { language, use_itn } => {
            &&& r.tokens@ == spec_join(model_dir, "tokens.txt"@)
            &&& r.files matches RecognizerFiles::SenseVoice { model, language: l, use_itn: u }
            &&& model@ == spec_join(model_dir, "model.int8.onnx"@)
            &&& l == language
            &&& u == use_itn
        },
        SherpaRecognizerKind::MoonshineV1 => {
            &&& r.tokens@ == spec_join(model_dir, "tokens.txt"@)
            &&& r.files matches RecognizerFiles::Moonshine {
                preprocessor: Some(p),
                encoder,
                uncached_decoder: Some(u),
                cached_decoder: Some(c),
                merged_decoder: None,
            }
            &&& p@ == spec_join(model_dir, "preprocess.onnx"@)
            &&& encoder@ == spec_join(model_dir, "encode.int8.onnx"@)
            &&& u@ == spec_join(model_dir, "uncached_decode.int8.onnx"@)
            &&& c@ == spec_join(model_dir, "cached_decode.int8.onnx"@)
        },
        SherpaRecognizerKind::MoonshineV2 => {
            &&& r.tokens@ == spec_join(model_dir, "tokens.txt"@)
            &&& r.files matches RecognizerFiles::Moonshine {
                preprocessor: None,
                encoder,
                uncached_decoder: None,
                cached_decoder: None,
                merged_decoder: Some(m),
            }
            &&& encoder@ == spec_join(model_dir, "encoder_model.ort"@)
            &&& m@ == spec_join(model_dir, "decoder_model_merged.ort"@)
        },
    }
}

impl SherpaRecognizerKind {
    /// The configuration for a model unpacked in `model_dir`.
    pub fn config(self, model_dir: &str) -> (r: RecognizerConfig)
        ensures
            is_config_for(self, model_dir@, r),
    {
        match self {
            SherpaRecognizerKind::Whisper { prefix, language } => RecognizerConfig {
                files: RecognizerFiles::Whisper {
                    encoder: model_file(model_dir, prefixed(prefix, "-encoder.int8.onnx").as_str()),
                    decoder: model_file(model_dir, prefixed(prefix, "-decoder.int8.onnx").as_str()),
                    language,
                    task: "transcribe",
                },
                tokens: model_file(model_dir, prefixed(prefix, "-tokens.txt").as_str()),
                num_threads: 2,
                provider: "cpu",
            },
            SherpaRecognizerKind::NemoTransducer => RecognizerConfig {
                files: RecognizerFiles::NemoTransducer {
                    encoder: model_file(model_dir, "encoder.int8.onnx"),
                    decoder: model_file(model_dir, "decoder.int8.onnx"),
                    joiner: model_file(model_dir, "joiner.int8.onnx"),
                    model_type: "nemo_transducer",
                },
                tokens: model_file(model_dir, "tokens.txt"),
                num_threads: 2,
                provider: "cpu",
            },
            SherpaRecognizerKind::NemoCtc => RecognizerConfig {
                files: RecognizerFiles::NemoCtc { model: model_file(model_dir, "model.int8.onnx") },
                tokens: model_file(model_dir, "tokens.txt"),
                num_threads: 2,
                provider: "cpu",
            },
            SherpaRecognizerKind::SenseVoice { language, use_itn } => RecognizerConfig {
                files: RecognizerFiles::SenseVoice {
                    model: model_file(model_dir, "model.int8.onnx"),
                    language,
                    use_itn,
                },
                tokens: model_file(model_dir, "tokens.txt"),
                num_threads: 2,
                provider: "cpu",
            },
            SherpaRecognizerKind::MoonshineV1 => RecognizerConfig {
                files: RecognizerFiles::Moonshine {
                    preprocessor: Some(model_file(model_dir, "preprocess.onnx")),
                    encoder: model_file(model_dir, "encode.int8.onnx"),
                    uncached_decoder: Some(model_file(model_dir, "uncached_decode.int8.onnx")),
                    cached_decoder: Some(model_file(model_dir, "cached_decode.int8.onnx")),
                    merged_decoder: None,
                },
                tokens: model_file(model_dir, "tokens.txt"),
                num_threads: 2,
                provider: "cpu",
            },
            SherpaRecognizerKind::MoonshineV2 => RecognizerConfig {
                files: RecognizerFiles::Moonshine {
                    preprocessor: None,
                    encoder: model_file(model_dir, "encoder_model.ort"),
                    uncached_decoder: None,
                    cached_decoder: None,
                    merged_decoder: Some(model_file(model_dir, "decoder_model_merged.ort")),
                },
                tokens: model_file(model_dir, "tokens.txt"),
                num_threads: 2,
                provider: "cpu",
            },
        }
    }
}

impl ModelCatalogEntry {
    /// Every model of the catalog, in order.
    pub fn all() -> (r: Vec<ModelCatalogEntry>)
        ensures
            r@ == spec_catalog(),
    {
        let mut v: Vec<ModelCatalogEntry> = Vec::new();
        v.push(ModelCatalogEntry {
            id: ModelId("whisper-tiny-en"),
            display_name: "Whisper tiny.en",
            archive_name: "sherpa-onnx-whisper-tiny.en.tar.bz2",
            recognizer: SherpaRecognizerKind::Whisper { prefix: "tiny.en", language: Some("en") },
        });
        v.push(ModelCatalogEntry {
            id: ModelId("whisper-tiny"),
            display_name: "Whisper tiny",
            archive_name: "sherpa-onnx-whisper-tiny.tar.bz2",
            recognizer: SherpaRecognizerKind::Whisper { prefix: "tiny", language: None },
        });
        v.push(ModelCatalogEntry {
            id: ModelId("whisper-base-en"),
            display_name: "Whisper base.en",
            archive_name: "sherpa-onnx-whisper-base.en.tar.bz2",
            recognizer: SherpaRecognizerKind::Whisper { prefix: "base.en", language: Some("en") },
        });
        v.push(ModelCatalogEntry {
            id: ModelId("whisper-base"),
            display_name: "Whisper base",
            archive_name: "sherpa-onnx-whisper-base.tar.bz2",
            recognizer: SherpaRecognizerKind::Whisper { prefix: "base", language: None },
        });
        v.push(ModelCatalogEntry {
            id: ModelId("whisper-small-en"),
            display_name: "Whisper small.en",
            archive_name: "sherpa-onnx-whisper-small.en.tar.bz2",
            recognizer: SherpaRecognizerKind::Whisper { prefix: "small.en", language: Some("en") },
        });
        v.push(ModelCatalogEntry {
            id: ModelId("whisper-small"),
            display_name: "Whisper small",
            archive_name: "sherpa-onnx-whisper-small.tar.bz2",
            recognizer: SherpaRecognizerKind::Whisper { prefix: "small", language: None },
        });
        v.push(ModelCatalogEntry {
            id: ModelId("whisper-medium-en"),
            display_name: "Whisper medium.en",
            archive_name: "sherpa-onnx-whisper-medium.en.tar.bz2",
            recognizer: SherpaRecognizerKind::Whisper {
                prefix: "medium.en",
                language: Some("en"),
            },
        });
        v.push(ModelCatalogEntry {
            id: ModelId("whisper-medium"),
            display_name: "Whisper medium",
            archive_name: "sherpa-onnx-whisper-medium.tar.bz2",
            recognizer: SherpaRecognizerKind::Whisper { prefix: "medium", language: None },
        });
        v.push(ModelCatalogEntry {
            id: ModelId("parakeet-tdt-0.6b-v2-int8"),
            display_name: "Parakeet TDT 0.6B v2 int8",
            archive_name: "sherpa-onnx-nemo-parakeet-tdt-0.6b-v2-int8.tar.bz2",
            recognizer: SherpaRecognizerKind::NemoTransducer,
        });
        v.push(ModelCatalogEntry {
            id: ModelId("parakeet-tdt-0.6b-v3-int8"),
            display_name: "Parakeet TDT 0.6B v3 int8",
            archive_name: "sherpa-onnx-nemo-parakeet-tdt-0.6b-v3-int8.tar.bz2",
            recognizer: SherpaRecognizerKind::NemoTransducer,
        });
        v.push(ModelCatalogEntry {
            id: ModelId("parakeet-tdt-ctc-110m-int8"),
            display_name: "Parakeet TDT-CTC 110M int8",
            archive_name: "sherpa-onnx-nemo-parakeet_tdt_ctc_110m-en-36000-int8.tar.bz2",
            recognizer: SherpaRecognizerKind::NemoCtc,
        });
        v.push(ModelCatalogEntry {
            id: ModelId("sense-voice-small-int8"),
            display_name: "SenseVoice Small int8",
            archive_name: "sherpa-onnx-sense-voice-zh-en-ja-ko-yue-int8-2024-07-17.tar.bz2",
            recognizer: SherpaRecognizerKind::SenseVoice { language: "en", use_itn: true },
        });
        v.push(ModelCatalogEntry {
            id: ModelId("moonshine-tiny-en"),
            display_name: "Moonshine Tiny English",
            archive_name: "sherpa-onnx-moonshine-tiny-en-int8.tar.bz2",
            recognizer: SherpaRecognizerKind::MoonshineV1,
        });
        v.push(ModelCatalogEntry {
            id: ModelId("moonshine-base-en"),
            display_name: "Moonshine Base English",
            archive_name: "sherpa-onnx-moonshine-base-en-int8.tar.bz2",
            recognizer: SherpaRecognizerKind::MoonshineV1,
        });
        v.push(ModelCatalogEntry {
            id: ModelId("moonshine-v2-tiny-en"),
            display_name: "Moonshine v2 Tiny English",
            archive_name: "sherpa-onnx-moonshine-tiny-en-quantized-2026-02-27.tar.bz2",
            recognizer: SherpaRecognizerKind::MoonshineV2,
        });
        v.push(ModelCatalogEntry {
            id: ModelId("moonshine-v2-base-en"),
            display_name: "Moonshine v2 Base English",
            archive_name: "sherpa-onnx-moonshine-base-en-quantized-2026-02-27.tar.bz2",
            recognizer: SherpaRecognizerKind::MoonshineV2,
        });
        proof {
            assert(v@ =~= spec_catalog());
        }
        v
    }

    pub fn id(self) -> (r: ModelId)
        ensures
            r == self.id,
    {
        self.id
    }

    pub fn display_name(self) -> (r: &'static str)
        ensures
            r == self.display_name,
    {
        self.display_name
    }

    pub fn archive_name(self) -> (r: &'static str)
        ensures
            r == self.archive_name,
    {
        self.archive_name
    }

    /// Where the model's archive is published: the base URL, `/`, the archive name.
    pub fn download_url(self) -> (r: String)
        ensures
            r@ == ASR_MODELS_BASE_URL@ + "/"@ + self.archive_name@,
    {
        let mut out = String::from_str(ASR_MODELS_BASE_URL);
        out.append("/");
        out.append(self.archive_name);
        out
    }

    /// The directory the model unpacks to: its id below `models_dir`.
    pub fn local_dir(self, models_dir: &str) -> (r: String)
        ensures
            r@ == spec_join(models_dir@, self.id.0@),
    {
        join(models_dir, self.id.0)
    }

    /// How to load this model from `model_dir`.
    pub fn recognizer_config(self, model_dir: &str) -> (r: RecognizerConfig)
        ensures
            is_config_for(self.recognizer, model_dir@, r),
    {
        self.recognizer.config(model_dir)
    }
}

/// The catalog model with id `id`, if any.
pub fn model_by_id(id: &str) -> (r: Option<ModelCatalogEntry>)
    ensures
        r == spec_model_by_id(id@),
{
    let all = ModelCatalogEntry::all();
    let mut i: usize = 0;
    proof {
        assert(all@.subrange(0, all@.len() as int) =~= all@);
    }

    while i < all.len()
        invariant
            all@ == spec_catalog(),
            i <= all@.len(),
            spec_find_model(all@.subrange(i as int, all@.len() as int), id@) == spec_find_model(
                all@,
                id@,
            ),
        decreases all@.len() - i,
    {
        let entry = all[i];
        let ghost rest = all@.subrange(i as int, all@.len() as int);
        if str_eq(entry.id.0, id) {
            return Some(entry);
        }
        proof {
            assert(rest.drop_first() =~= all@.subrange(i + 1, all@.len() as int));
        }
        i = i + 1;
    }
    None
}

/// The model used when none is chosen.
pub fn default_model() -> (r: ModelCatalogEntry)
    ensures
        r == spec_catalog()[8],
        r.id.0 == DEFAULT_MODEL_ID_STR,
{
    ModelCatalogEntry {
        id: ModelId(DEFAULT_MODEL_ID_STR),
        display_name: "Parakeet TDT 0.6B v2 int8",
        archive_name: "sherpa-onnx-nemo-parakeet-tdt-0.6b-v2-int8.tar.bz2",
        recognizer: SherpaRecognizerKind::NemoTransducer,
    }
}

/// The default model id names a catalog model: the Parakeet TDT 0.6B v2 entry.
pub proof fn lemma_default_model_is_in_catalog()
    ensures
        spec_model_by_id(DEFAULT_MODEL_ID_STR@) == Some(spec_catalog()[8]),
{
    let c = spec_catalog();
    let d = DEFAULT_MODEL_ID_STR@;
    reveal_strlit("parakeet-tdt-0.6b-v2-int8");
    reveal_strlit("whisper-tiny-en");
    reveal_strlit("whisper-tiny");
    reveal_strlit("whisper-base-en");
    reveal_strlit("whisper-base");
    reveal_strlit("whisper-small-en");
    reveal_strlit("whisper-small");
    reveal_strlit("whisper-medium-en");
    reveal_strlit("whisper-medium");
    assert(d[0] == 'p');
    assert forall|j: int| 0 <= j < 8 implies c[j].id.0@ != d by {
        assert(c[j].id.0@[0] == 'w');
    }
    lemma_find_skips(c, 8, d);
    assert(c.subrange(8, c.len() as int)[0] == c[8]);
}

proof fn lemma_find_skips(entries: Seq<ModelCatalogEntry>, k: int, id: Seq<char>)
    requires
        0 <= k <= entries.len(),
        forall|j: int| 0 <= j < k ==> entries[j].id.0@ != id,
    ensures
        spec_find_model(entries, id) == spec_find_model(
            entries.subrange(k, entries.len() as int),
            id,
        ),
    decreases k,
{
    if k > 0 {
        lemma_find_skips(entries.drop_first(), k - 1, id);
        assert(entries.drop_first().subrange(k - 1, entries.len() - 1) =~= entries.subrange(
            k,
            entries.len() as int,
        ));
    } else {
        assert(entries.subrange(0, entries.len() as int) =~= entries);
    }
}

/// The ids of every catalog model, joined by `", "`.
pub fn valid_model_ids() -> (r: String)
    ensures
        r@ == spec_join_ids(spec_catalog()),
{
    let all = ModelCatalogEntry::all();
    let mut out = String::new();
    let mut i: usize = 0;
    while i < all.len()
        invariant
            all@ == spec_catalog(),
            i <= all@.len(),
            out@ == spec_join_ids(all@.subrange(0, i as int)),
        decreases all@.len() - i,
    {
        let ghost before = all@.subrange(0, i as int);
        if i > 0 {
            out.append(", ");
        }
        out.append(all[i].id.0);
        proof {
            let after = all@.subrange(0, i + 1);
            assert(after.drop_last() =~= before);
            if i == 0 {
                assert(out@ =~= after[0].id.0@);
            }
        }
        i = i + 1;
    }
    proof {
        assert(all@.subrange(0, i as int) =~= all@);
    }
    out
}

/// The voice-activity model.
pub struct VadModel;

impl VadModel {
    pub fn file_name() -> (r: &'static str)
        ensures
            r@ == "silero_vad.onnx"@,
    {
        "silero_vad.onnx"
    }

    pub fn display_name() -> (r: &'static str)
        ensures
            r@ == "Silero VAD"@,
    {
        "Silero VAD"
    }

    pub fn download_url() -> (r: &'static str)
        ensures
            r@ == "https://github.com/k2-fsa/sherpa-onnx/releases/download/asr-models/silero_vad.onnx"@,
    {
        "https://github.com/k2-fsa/sherpa-onnx/releases/download/asr-models/silero_vad.onnx"
    }

    /// Where the model file lies: its name below `models_dir`.
    pub fn local_path(models_dir: &str) -> (r: String)
        ensures
            r@ == spec_join(models_dir@, "silero_vad.onnx"@),
    {
        join(models_dir, "silero_vad.onnx")
    }
}

/// Catalog ids are relative names, and no two catalog entries share one.
pub proof fn lemma_catalog_ids_distinct(i: int, j: int)
    requires
        0 <= i < spec_catalog().len(),
        0 <= j < spec_catalog().len(),
    ensures
        is_relative(spec_catalog()[i].id.0@),
        i != j ==> spec_catalog()[i].id.0@ != spec_catalog()[j].id.0@,
{
    reveal_strlit("whisper-tiny-en");
    reveal_strlit("whisper-tiny");
    reveal_strlit("whisper-base-en");
    reveal_strlit("whisper-base");
    reveal_strlit("whisper-small-en");
    reveal_strlit("whisper-small");
    reveal_strlit("whisper-medium-en");
    reveal_strlit("whisper-medium");
    reveal_strlit("parakeet-tdt-0.6b-v2-int8");
    reveal_strlit("parakeet-tdt-0.6b-v3-int8");
    reveal_strlit("parakeet-tdt-ctc-110m-int8");
    reveal_strlit("sense-voice-small-int8");
    reveal_strlit("moonshine-tiny-en");
    reveal_strlit("moonshine-base-en");
    reveal_strlit("moonshine-v2-tiny-en");
    reveal_strlit("moonshine-v2-base-en");
    let c = spec_catalog();
    let a = c[i].id.0@;
    let b = c[j].id.0@;
    if i != j && a == b {
        assert(a.len() == b.len());
        assert(a[0] == b[0]);
        assert(a[8] == b[8]);
        assert(a[10] == b[10]);
        assert(a[13] == b[13]);
        assert(a[19] == b[19]);
    }
}

/// The entry `spec_find_model` gives is the first one with `id`; it gives nothing
/// exactly when no entry has `id`.
proof fn lemma_find_model_first(entries: Seq<ModelCatalogEntry>, id: Seq<char>)
    ensures
        spec_find_model(entries, id) is None <==> forall|k: int|
            0 <= k < entries.len() ==> #[trigger] entries[k].id.0@ != id,
        forall|k: int|
            0 <= k < entries.len() && #[trigger] entries[k].id.0@ == id && (forall|j: int|
                0 <= j < k ==> entries[j].id.0@ != id) ==> spec_find_model(entries, id) == Some(
                entries[k],
            ),
    decreases entries.len(),
{
    if entries.len() > 0 {
        let rest = entries.drop_first();
        lemma_find_model_first(rest, id);
        assert forall|k: int| 0 < k < entries.len() implies #[trigger] entries[k] == rest[k - 1] by {}
        if entries[0].id.0@ != id {
            assert forall|k: int|
                0 <= k < entries.len() && #[trigger] entries[k].id.0@ == id && (forall|j: int|
                    0 <= j < k ==> entries[j].id.0@ != id) implies spec_find_model(entries, id)
                == Some(entries[k]) by {
                assert(k > 0);
                assert(rest[k - 1] == entries[k]);
                assert forall|j: int| 0 <= j < k - 1 implies rest[j].id.0@ != id by {
                    assert(rest[j] == entries[j + 1]);
                }
            }
            if spec_find_model(entries, id) is None {
                assert forall|k: int| 0 <= k < entries.len() implies #[trigger] entries[k].id.0@
                    != id by {
                    if k > 0 {
                        assert(rest[k - 1] == entries[k]);
                    }
                }
            } else {
                let w = choose|k: int| 0 <= k < rest.len() && #[trigger] rest[k].id.0@ == id;
                assert(entries[w + 1] == rest[w]);
            }
        }
    }
}

/// Catalog ids are unique, so looking up an id finds the one entry that has it, and
/// finds nothing exactly when no entry has it.
pub proof fn lemma_model_by_id_finds_the_only_match(id: Seq<char>)
    ensures
        forall|i: int|
            0 <= i < spec_catalog().len() && #[trigger] spec_catalog()[i].id.0@ == id
                ==> spec_model_by_id(id) == Some(spec_catalog()[i]),
        spec_model_by_id(id) is None <==> forall|i: int|
            0 <= i < spec_catalog().len() ==> #[trigger] spec_catalog()[i].id.0@ != id,
{
    let c = spec_catalog();
    lemma_find_model_first(c, id);
    assert forall|i: int| 0 <= i < c.len() && #[trigger] c[i].id.0@ == id implies spec_model_by_id(
        id,
    ) == Some(c[i]) by {
        assert forall|j: int| 0 <= j < i implies c[j].id.0@ != id by {
            lemma_catalog_ids_distinct(j, i);
        }
    }
}

/// Catalog entries with different ids get different directories below the same
/// models directory.
pub proof fn lemma_catalog_dirs_differ(models_dir: Seq<char>, i: int, j: int)
    requires
        0 <= i < spec_catalog().len(),
        0 <= j < spec_catalog().len(),
        spec_catalog()[i].id != spec_catalog()[j].id,
    ensures
        spec_join(models_dir, spec_catalog()[i].id.0@) != spec_join(
            models_dir,
            spec_catalog()[j].id.0@,
        ),
{
    lemma_catalog_ids_distinct(i, j);
    lemma_catalog_ids_distinct(j, i);
    lemma_join_injective(models_dir, spec_catalog()[i].id.0@, spec_catalog()[j].id.0@);
}

/// Moonshine models load the files their released archives hold. A v2 model reads the
/// ONNX Runtime encoder `encoder_model.ort` and the merged decoder
/// `decoder_model_merged.ort`, with no preprocessor and no separate decoders; a v1 model
/// reads `preprocess.onnx`, `encode.int8.onnx` and its uncached and cached int8
/// decoders, with no merged decoder. Both read `tokens.txt`; every file lies in the
/// model's directory. The catalog's two Moonshine v2 models are of the v2 kind.
pub proof fn lemma_moonshine_reads_its_archive_files(model_dir: Seq<char>, r: RecognizerConfig)
    ensures
        is_config_for(SherpaRecognizerKind::MoonshineV2, model_dir, r) ==> {
            &&& r.tokens@ == spec_join(model_dir, "tokens.txt"@)
            &&& r.files matches RecognizerFiles::Moonshine {
                preprocessor,
                encoder,
                uncached_decoder,
                cached_decoder,
                merged_decoder,
            }
            &&& preprocessor is None && uncached_decoder is None && cached_decoder is None
            &&& encoder@ == spec_join(model_dir, "encoder_model.ort"@)
            &&& merged_decoder matches Some(m) && m@ == spec_join(
                model_dir,
                "decoder_model_merged.ort"@,
            )
        },
        is_config_for(SherpaRecognizerKind::MoonshineV1, model_dir, r) ==> {
            &&& r.tokens@ == spec_join(model_dir, "tokens.txt"@)
            &&& r.files matches RecognizerFiles::Moonshine {
                preprocessor,
                encoder,
                uncached_decoder,
                cached_decoder,
                merged_decoder,
            }
            &&& merged_decoder is None
            &&& preprocessor matches Some(p) && p@ == spec_join(model_dir, "preprocess.onnx"@)
            &&& encoder@ == spec_join(model_dir, "encode.int8.onnx"@)
            &&& uncached_decoder matches Some(u) && u@ == spec_join(
                model_dir,
                "uncached_decode.int8.onnx"@,
            )
            &&& cached_decoder matches Some(c) && c@ == spec_join(
                model_dir,
                "cached_decode.int8.onnx"@,
            )
        },
        spec_model_by_id("moonshine-v2-tiny-en"@) matches Some(e) && e.recognizer
            == SherpaRecognizerKind::MoonshineV2,
        spec_model_by_id("moonshine-v2-base-en"@) matches Some(e) && e.recognizer
            == SherpaRecognizerKind::MoonshineV2,
{
    let c = spec_catalog();
    assert(c[14].id.0@ == "moonshine-v2-tiny-en"@);
    assert(c[15].id.0@ == "moonshine-v2-base-en"@);
    lemma_model_by_id_finds_the_only_match("moonshine-v2-tiny-en"@);
    lemma_model_by_id_finds_the_only_match("moonshine-v2-base-en"@);
}

/// The other recognizers load the files their released archives hold, each from the
/// model's directory, on two CPU threads: Whisper its int8 encoder and decoder and its
/// tokens, all named after the variant, transcribing in the variant's language; the
/// NeMo transducer its int8 encoder, decoder and joiner; NeMo CTC and SenseVoice their
/// single int8 model. All but Whisper read `tokens.txt`.
pub proof fn lemma_recognizers_read_their_archive_files(
    kind: SherpaRecognizerKind,
    model_dir: Seq<char>,
    r: RecognizerConfig,
)
    requires
        is_config_for(kind, model_dir, r),
    ensures
        r.num_threads == 2 && r.provider@ == "cpu"@,
        kind matches SherpaRecognizerKind::Whisper { prefix, language } ==> {
            &&& r.tokens@ == spec_join(model_dir, prefix@ + "-tokens.txt"@)
            &&& r.files matches RecognizerFiles::Whisper { encoder, decoder, language: l, task }
            &&& encoder@ == spec_join(model_dir, prefix@ + "-encoder.int8.onnx"@)
            &&& decoder@ == spec_join(model_dir, prefix@ + "-decoder.int8.onnx"@)
            &&& l == language && task@ == "transcribe"@
        },
        kind is NemoTransducer ==> {
            &&& r.tokens@ == spec_join(model_dir, "tokens.txt"@)
            &&& r.files matches RecognizerFiles::NemoTransducer { encoder, decoder, joiner, model_type }
            &&& encoder@ == spec_join(model_dir, "encoder.int8.onnx"@)
            &&& decoder@ == spec_join(model_dir, "decoder.int8.onnx"@)
            &&& joiner@ == spec_join(model_dir, "joiner.int8.onnx"@)
            &&& model_type@ == "nemo_transducer"@
        },
        kind is NemoCtc ==> {
            &&& r.tokens@ == spec_join(model_dir, "tokens.txt"@)
            &&& r.files matches RecognizerFiles::NemoCtc { model }
            &&& model@ == spec_join(model_dir, "model.int8.onnx"@)
        },
        kind matches SherpaRecognizerKind::SenseVoice { language, use_itn } ==> {
            &&& r.tokens@ == spec_join(model_dir, "tokens.txt"@)
            &&& r.files matches RecognizerFiles::SenseVoice { model, language: l, use_itn: u }
            &&& model@ == spec_join(model_dir, "model.int8.onnx"@)
            &&& l == language && u == use_itn
        },
{
}

} // verus!
