//! The desktop application's model list: Whisper, Moonshine and Parakeet TDT variants,
//! where each is stored and downloaded, and how much room the downloaded ones take.
use vstd::prelude::*;
use crate::paths::join;
use crate::paths::spec_join;
use crate::paths::is_relative;
use crate::paths::lemma_join_injective;
use crate::strings::str_eq;
use crate::strings::joined;
use crate::time::Moment;
use crate::strings::chars_of;
use crate::strings::push_decimal;
use crate::strings::decimal;

verus! {

/// Whisper variants.
#[derive(Clone, Copy, Debug, PartialEq, Eq, Structural, Hash)]
pub enum WhisperModel {
    TinyEn,
    Tiny,
    BaseEn,
    Base,
    SmallEn,
    Small,
    MediumEn,
    Medium,
}

/// Moonshine variants.
#[derive(Clone, Copy, Debug, PartialEq, Eq, Structural, Hash)]
pub enum MoonshineModel {
    TinyEn,
    BaseEn,
}

/// Parakeet TDT variants.
#[derive(Clone, Copy, Debug, PartialEq, Eq, Structural, Hash)]
pub enum ParakeetTdtModel {
    /// English only.
    V2,
    /// 25 European languages.
    V3,
}

/// A model: exactly one engine family and one of its variants.
#[derive(Clone, Copy, Debug, PartialEq, Eq, Structural, Hash)]
pub enum Model {
    Whisper(WhisperModel),
    Moonshine(MoonshineModel),
    ParakeetTdt(ParakeetTdtModel),
}

impl Model {
    pub open spec fn spec_storage_name(self) -> Seq<char> {
        match self {
            Model::Whisper(WhisperModel::TinyEn) => "sherpa-onnx-whisper-tiny.en"@,
            Model::Whisper(WhisperModel::Tiny) => "sherpa-onnx-whisper-tiny"@,
            Model::Whisper(WhisperModel::BaseEn) => "sherpa-onnx-whisper-base.en"@,
            Model::Whisper(WhisperModel::Base) => "sherpa-onnx-whisper-base"@,
            Model::Whisper(WhisperModel::SmallEn) => "sherpa-onnx-whisper-small.en"@,
            Model::Whisper(WhisperModel::Small) => "sherpa-onnx-whisper-small"@,
            Model::Whisper(WhisperModel::MediumEn) => "sherpa-onnx-whisper-medium.en"@,
            Model::Whisper(WhisperModel::Medium) => "sherpa-onnx-whisper-medium"@,
            Model::Moonshine(MoonshineModel::TinyEn) => "sherpa-onnx-moonshine-tiny-en-int8"@,
            Model::Moonshine(MoonshineModel::BaseEn) => "sherpa-onnx-moonshine-base-en-int8"@,
            Model::ParakeetTdt(ParakeetTdtModel::V2) => "sherpa-onnx-nemo-parakeet-tdt-0.6b-v2-int8"@,
            Model::ParakeetTdt(ParakeetTdtModel::V3) => "sherpa-onnx-nemo-parakeet-tdt-0.6b-v3-int8"@,
        }
    }

    pub open spec fn spec_display_name(self) -> Seq<char> {
        match self {
            Model::Whisper(WhisperModel::TinyEn) => "Whisper Tiny (English)"@,
            Model::Whisper(WhisperModel::Tiny) => "Whisper Tiny"@,
            Model::Whisper(WhisperModel::BaseEn) => "Whisper Base (English)"@,
            Model::Whisper(WhisperModel::Base) => "Whisper Base"@,
            Model::Whisper(WhisperModel::SmallEn) => "Whisper Small (English)"@,
            Model::Whisper(WhisperModel::Small) => "Whisper Small"@,
            Model::Whisper(WhisperModel::MediumEn) => "Whisper Medium (English)"@,
            Model::Whisper(WhisperModel::Medium) => "Whisper Medium"@,
            Model::Moonshine(MoonshineModel::TinyEn) => "Moonshine Tiny"@,
            Model::Moonshine(MoonshineModel::BaseEn) => "Moonshine Base"@,
            Model::ParakeetTdt(ParakeetTdtModel::V2) => "Parakeet TDT v2 (English)"@,
            Model::ParakeetTdt(ParakeetTdtModel::V3) => "Parakeet TDT v3 (Multilingual)"@,
        }
    }

    pub open spec fn spec_download_url(self) -> Seq<char> {
        match self {
            Model::Whisper(WhisperModel::TinyEn) => "https://github.com/k2-fsa/sherpa-onnx/releases/download/asr-models/sherpa-onnx-whisper-tiny.en.tar.bz2"@,
            Model::Whisper(WhisperModel::Tiny) => "https://github.com/k2-fsa/sherpa-onnx/releases/download/asr-models/sherpa-onnx-whisper-tiny.tar.bz2"@,
            Model::Whisper(WhisperModel::BaseEn) => "https://github.com/k2-fsa/sherpa-onnx/releases/download/asr-models/sherpa-onnx-whisper-base.en.tar.bz2"@,
            Model::Whisper(WhisperModel::Base) => "https://github.com/k2-fsa/sherpa-onnx/releases/download/asr-models/sherpa-onnx-whisper-base.tar.bz2"@,
            Model::Whisper(WhisperModel::SmallEn) => "https://github.com/k2-fsa/sherpa-onnx/releases/download/asr-models/sherpa-onnx-whisper-small.en.tar.bz2"@,
            Model::Whisper(WhisperModel::Small) => "https://github.com/k2-fsa/sherpa-onnx/releases/download/asr-models/sherpa-onnx-whisper-small.tar.bz2"@,
            Model::Whisper(WhisperModel::MediumEn) => "https://github.com/k2-fsa/sherpa-onnx/releases/download/asr-models/sherpa-onnx-whisper-medium.en.tar.bz2"@,
            Model::Whisper(WhisperModel::Medium) => "https://github.com/k2-fsa/sherpa-onnx/releases/download/asr-models/sherpa-onnx-whisper-medium.tar.bz2"@,
            Model::Moonshine(MoonshineModel::TinyEn) => "https://github.com/k2-fsa/sherpa-onnx/releases/download/asr-models/sherpa-onnx-moonshine-tiny-en-int8.tar.bz2"@,
            Model::Moonshine(MoonshineModel::BaseEn) => "https://github.com/k2-fsa/sherpa-onnx/releases/download/asr-models/sherpa-onnx-moonshine-base-en-int8.tar.bz2"@,
            Model::ParakeetTdt(ParakeetTdtModel::V2) => "https://github.com/k2-fsa/sherpa-onnx/releases/download/asr-models/sherpa-onnx-nemo-parakeet-tdt-0.6b-v2-int8.tar.bz2"@,
            Model::ParakeetTdt(ParakeetTdtModel::V3) => "https://github.com/k2-fsa/sherpa-onnx/releases/download/asr-models/sherpa-onnx-nemo-parakeet-tdt-0.6b-v3-int8.tar.bz2"@,
        }
    }

    /// The directory name the model is stored under.
    pub fn storage_name(self) -> (r: &'static str)
        ensures
            r@ == self.spec_storage_name(),
    {
        match self {
            Model::Whisper(WhisperModel::TinyEn) => "sherpa-onnx-whisper-tiny.en",
            Model::Whisper(WhisperModel::Tiny) => "sherpa-onnx-whisper-tiny",
            Model::Whisper(WhisperModel::BaseEn) => "sherpa-onnx-whisper-base.en",
            Model::Whisper(WhisperModel::Base) => "sherpa-onnx-whisper-base",
            Model::Whisper(WhisperModel::SmallEn) => "sherpa-onnx-whisper-small.en",
            Model::Whisper(WhisperModel::Small) => "sherpa-onnx-whisper-small",
            Model::Whisper(WhisperModel::MediumEn) => "sherpa-onnx-whisper-medium.en",
            Model::Whisper(WhisperModel::Medium) => "sherpa-onnx-whisper-medium",
            Model::Moonshine(MoonshineModel::TinyEn) => "sherpa-onnx-moonshine-tiny-en-int8",
            Model::Moonshine(MoonshineModel::BaseEn) => "sherpa-onnx-moonshine-base-en-int8",
            Model::ParakeetTdt(ParakeetTdtModel::V2) => "sherpa-onnx-nemo-parakeet-tdt-0.6b-v2-int8",
            Model::ParakeetTdt(ParakeetTdtModel::V3) => "sherpa-onnx-nemo-parakeet-tdt-0.6b-v3-int8",
        }
    }

    /// The name shown to the user.
    pub fn display_name(self) -> (r: &'static str)
        ensures
            r@ == self.spec_display_name(),
    {
        match self {
            Model::Whisper(WhisperModel::TinyEn) => "Whisper Tiny (English)",
            Model::Whisper(WhisperModel::Tiny) => "Whisper Tiny",
            Model::Whisper(WhisperModel::BaseEn) => "Whisper Base (English)",
            Model::Whisper(WhisperModel::Base) => "Whisper Base",
            Model::Whisper(WhisperModel::SmallEn) => "Whisper Small (English)",
            Model::Whisper(WhisperModel::Small) => "Whisper Small",
            Model::Whisper(WhisperModel::MediumEn) => "Whisper Medium (English)",
            Model::Whisper(WhisperModel::Medium) => "Whisper Medium",
            Model::Moonshine(MoonshineModel::TinyEn) => "Moonshine Tiny",
            Model::Moonshine(MoonshineModel::BaseEn) => "Moonshine Base",
            Model::ParakeetTdt(ParakeetTdtModel::V2) => "Parakeet TDT v2 (English)",
            Model::ParakeetTdt(ParakeetTdtModel::V3) => "Parakeet TDT v3 (Multilingual)",
        }
    }

    /// Every model is stored as a directory.
    pub fn is_directory(self) -> (r: bool)
        ensures
            r,
    {
        true
    }

    /// Where the model's archive is published.
    pub fn download_url(self) -> (r: &'static str)
        ensures
            r@ == self.spec_download_url(),
    {
        match self {
            Model::Whisper(WhisperModel::TinyEn) => "https://github.com/k2-fsa/sherpa-onnx/releases/download/asr-models/sherpa-onnx-whisper-tiny.en.tar.bz2",
            Model::Whisper(WhisperModel::Tiny) => "https://github.com/k2-fsa/sherpa-onnx/releases/download/asr-models/sherpa-onnx-whisper-tiny.tar.bz2",
            Model::Whisper(WhisperModel::BaseEn) => "https://github.com/k2-fsa/sherpa-onnx/releases/download/asr-models/sherpa-onnx-whisper-base.en.tar.bz2",
            Model::Whisper(WhisperModel::Base) => "https://github.com/k2-fsa/sherpa-onnx/releases/download/asr-models/sherpa-onnx-whisper-base.tar.bz2",
            Model::Whisper(WhisperModel::SmallEn) => "https://github.com/k2-fsa/sherpa-onnx/releases/download/asr-models/sherpa-onnx-whisper-small.en.tar.bz2",
            Model::Whisper(WhisperModel::Small) => "https://github.com/k2-fsa/sherpa-onnx/releases/download/asr-models/sherpa-onnx-whisper-small.tar.bz2",
            Model::Whisper(WhisperModel::MediumEn) => "https://github.com/k2-fsa/sherpa-onnx/releases/download/asr-models/sherpa-onnx-whisper-medium.en.tar.bz2",
            Model::Whisper(WhisperModel::Medium) => "https://github.com/k2-fsa/sherpa-onnx/releases/download/asr-models/sherpa-onnx-whisper-medium.tar.bz2",
            Model::Moonshine(MoonshineModel::TinyEn) => "https://github.com/k2-fsa/sherpa-onnx/releases/download/asr-models/sherpa-onnx-moonshine-tiny-en-int8.tar.bz2",
            Model::Moonshine(MoonshineModel::BaseEn) => "https://github.com/k2-fsa/sherpa-onnx/releases/download/asr-models/sherpa-onnx-moonshine-base-en-int8.tar.bz2",
            Model::ParakeetTdt(ParakeetTdtModel::V2) => "https://github.com/k2-fsa/sherpa-onnx/releases/download/asr-models/sherpa-onnx-nemo-parakeet-tdt-0.6b-v2-int8.tar.bz2",
            Model::ParakeetTdt(ParakeetTdtModel::V3) => "https://github.com/k2-fsa/sherpa-onnx/releases/download/asr-models/sherpa-onnx-nemo-parakeet-tdt-0.6b-v3-int8.tar.bz2",
        }
    }

    /// Every model, fastest family first: Moonshine, Parakeet TDT, then Whisper.
    pub fn all() -> (r: Vec<Model>)
        ensures
            r@ == spec_all_models(),
    {
        let mut v: Vec<Model> = Vec::new();
        v.push(Model::Moonshine(MoonshineModel::TinyEn));
        v.push(Model::Moonshine(MoonshineModel::BaseEn));
        v.push(Model::ParakeetTdt(ParakeetTdtModel::V2));
        v.push(Model::ParakeetTdt(ParakeetTdtModel::V3));
        v.push(Model::Whisper(WhisperModel::TinyEn));
        v.push(Model::Whisper(WhisperModel::Tiny));
        v.push(Model::Whisper(WhisperModel::BaseEn));
        v.push(Model::Whisper(WhisperModel::Base));
        v.push(Model::Whisper(WhisperModel::SmallEn));
        v.push(Model::Whisper(WhisperModel::Small));
        v.push(Model::Whisper(WhisperModel::MediumEn));
        v.push(Model::Whisper(WhisperModel::Medium));
        proof {
            assert(v@ =~= spec_all_models());
        }
        v
    }

    /// The preferred model, or Moonshine Tiny when there is none.
    pub fn preferred_or_default(pref: Option<Model>) -> (r: Model)
        ensures
            r == match pref {
                Some(m) => m,
                None => Model::Moonshine(MoonshineModel::TinyEn),
            },
    {
        match pref {
            Some(m) => m,
            None => Model::Moonshine(MoonshineModel::TinyEn),
        }
    }

    /// The model's directory below `models_dir`.
    pub fn local_path(self, models_dir: &str) -> (r: String)
        ensures
            r@ == spec_join(models_dir@, self.spec_storage_name()),
    {
        join(models_dir, self.storage_name())
    }

    /// A model is downloaded when its path exists and is a directory.
    pub fn is_downloaded(self, path_exists: bool, path_is_dir: bool) -> (r: bool)
        ensures
            r == (path_exists && path_is_dir),
    {
        path_exists && path_is_dir
    }
}

/// Every model, in the order the application lists them.
pub open spec fn spec_all_models() -> Seq<Model> {
    seq![
        Model::Moonshine(MoonshineModel::TinyEn),
        Model::Moonshine(MoonshineModel::BaseEn),
        Model::ParakeetTdt(ParakeetTdtModel::V2),
        Model::ParakeetTdt(ParakeetTdtModel::V3),
        Model::Whisper(WhisperModel::TinyEn),
        Model::Whisper(WhisperModel::Tiny),
        Model::Whisper(WhisperModel::BaseEn),
        Model::Whisper(WhisperModel::Base),
        Model::Whisper(WhisperModel::SmallEn),
        Model::Whisper(WhisperModel::Small),
        Model::Whisper(WhisperModel::MediumEn),
        Model::Whisper(WhisperModel::Medium),
    ]
}

/// How much room the downloaded models take.
#[derive(Debug, PartialEq, Eq)]
pub struct StorageInfo {
    pub models_dir: String,
    pub total_size: u64,
    pub downloaded_count: usize,
    pub available_count: usize,
}

/// The sum of the sizes that are known.
pub open spec fn sum_sizes(sizes: Seq<Option<u64>>) -> nat
    decreases sizes.len(),
{
    if sizes.len() == 0 {
        0
    } else {
        sum_sizes(sizes.drop_last()) + match sizes.last() {
            Some(s) => s as nat,
            None => 0,
        }
    }
}

/// How many sizes are known.
pub open spec fn count_sizes(sizes: Seq<Option<u64>>) -> nat
    decreases sizes.len(),
{
    if sizes.len() == 0 {
        0
    } else {
        count_sizes(sizes.drop_last()) + if sizes.last() is Some {
            1nat
        } else {
            0nat
        }
    }
}

proof fn lemma_sum_prefix_bounded(sizes: Seq<Option<u64>>, i: int)
    requires
        0 <= i <= sizes.len(),
    ensures
        sum_sizes(sizes.subrange(0, i)) <= sum_sizes(sizes),
        count_sizes(sizes.subrange(0, i)) <= i,
    decreases sizes.len() - i,
{
    if i < sizes.len() {
        lemma_sum_prefix_bounded(sizes, i + 1);
        assert(sizes.subrange(0, i + 1).drop_last() =~= sizes.subrange(0, i));
    } else {
        assert(sizes.subrange(0, i) =~= sizes);
    }
    if i > 0 {
        lemma_count_prefix(sizes, i);
    }
}

proof fn lemma_count_prefix(sizes: Seq<Option<u64>>, i: int)
    requires
        0 <= i <= sizes.len(),
    ensures
        count_sizes(sizes.subrange(0, i)) <= i,
    decreases i,
{
    if i > 0 {
        lemma_count_prefix(sizes, i - 1);
        assert(sizes.subrange(0, i).drop_last() =~= sizes.subrange(0, i - 1));
    }
}

/// The storage summary: `sizes[i]` is the size of the i-th model of `Model::all()`
/// when it is downloaded and its size could be read, `None` otherwise.
pub fn storage_info(models_dir: String, sizes: &Vec<Option<u64>>) -> (r: StorageInfo)
    requires
        sizes@.len() == spec_all_models().len(),
        sum_sizes(sizes@) <= u64::MAX,
    ensures
        r.models_dir == models_dir,
        r.total_size == sum_sizes(sizes@),
        r.downloaded_count == count_sizes(sizes@),
        r.available_count == 12,
{
    let available_count = Model::all().len();
    let mut total_size: u64 = 0;
    let mut downloaded_count: usize = 0;
    let mut i: usize = 0;
    while i < sizes.len()
        invariant
            i <= sizes@.len(),
            sum_sizes(sizes@) <= u64::MAX,
            total_size == sum_sizes(sizes@.subrange(0, i as int)),
            downloaded_count == count_sizes(sizes@.subrange(0, i as int)),
            downloaded_count <= i,
        decreases sizes@.len() - i,
    {
        proof {
            assert(sizes@.subrange(0, i + 1).drop_last() =~= sizes@.subrange(0, i as int));
            lemma_sum_prefix_bounded(sizes@, i + 1);
        }
        match sizes[i] {
            Some(size) => {
                total_size = total_size + size;
                downloaded_count = downloaded_count + 1;
            },
            None => {},
        }
        i = i + 1;
    }
    proof {
        assert(sizes@.subrange(0, i as int) =~= sizes@);
    }
    StorageInfo { models_dir, total_size, downloaded_count, available_count }
}


/// Why stored engine and variant names name no model.
#[derive(Clone, Copy, Debug, PartialEq, Eq, Structural)]
pub enum ModelNameError {
    /// The engine is none of `whisper`, `moonshine`, `parakeet-tdt` (or `parakeet`).
    UnknownEngine,
    /// The engine is known, but the id names none of its variants.
    UnknownVariant,
}

impl Model {
    /// The engine family's stored name.
    pub open spec fn spec_engine_name(self) -> Seq<char> {
        match self {
            Model::Whisper(_) => "whisper"@,
            Model::Moonshine(_) => "moonshine"@,
            Model::ParakeetTdt(_) => "parakeet-tdt"@,
        }
    }

    /// The engine family's stored name.
    pub fn engine_name(self) -> (r: &'static str)
        ensures
            r@ == self.spec_engine_name(),
    {
        match self {
            Model::Whisper(_) => "whisper",
            Model::Moonshine(_) => "moonshine",
            Model::ParakeetTdt(_) => "parakeet-tdt",
        }
    }

    /// The variant's id within its engine, in kebab case.
    pub open spec fn spec_variant_id(self) -> Seq<char> {
        match self {
            Model::Whisper(WhisperModel::TinyEn) => "tiny-en"@,
            Model::Whisper(WhisperModel::Tiny) => "tiny"@,
            Model::Whisper(WhisperModel::BaseEn) => "base-en"@,
            Model::Whisper(WhisperModel::Base) => "base"@,
            Model::Whisper(WhisperModel::SmallEn) => "small-en"@,
            Model::Whisper(WhisperModel::Small) => "small"@,
            Model::Whisper(WhisperModel::MediumEn) => "medium-en"@,
            Model::Whisper(WhisperModel::Medium) => "medium"@,
            Model::Moonshine(MoonshineModel::TinyEn) => "tiny-en"@,
            Model::Moonshine(MoonshineModel::BaseEn) => "base-en"@,
            Model::ParakeetTdt(ParakeetTdtModel::V2) => "v2"@,
            Model::ParakeetTdt(ParakeetTdtModel::V3) => "v3"@,
        }
    }

    /// The variant's id within its engine, in kebab case.
    pub fn variant_id(self) -> (r: &'static str)
        ensures
            r@ == self.spec_variant_id(),
    {
        match self {
            Model::Whisper(WhisperModel::TinyEn) => "tiny-en",
            Model::Whisper(WhisperModel::Tiny) => "tiny",
            Model::Whisper(WhisperModel::BaseEn) => "base-en",
            Model::Whisper(WhisperModel::Base) => "base",
            Model::Whisper(WhisperModel::SmallEn) => "small-en",
            Model::Whisper(WhisperModel::Small) => "small",
            Model::Whisper(WhisperModel::MediumEn) => "medium-en",
            Model::Whisper(WhisperModel::Medium) => "medium",
            Model::Moonshine(MoonshineModel::TinyEn) => "tiny-en",
            Model::Moonshine(MoonshineModel::BaseEn) => "base-en",
            Model::ParakeetTdt(ParakeetTdtModel::V2) => "v2",
            Model::ParakeetTdt(ParakeetTdtModel::V3) => "v3",
        }
    }
}

/// The WhisperModel variant that `id` names.
pub open spec fn whisper_from_id(id: Seq<char>) -> Option<WhisperModel> {
    if id == "tiny-en"@ {
        Some(WhisperModel::TinyEn)
    } else if id == "tiny"@ {
        Some(WhisperModel::Tiny)
    } else if id == "base-en"@ {
        Some(WhisperModel::BaseEn)
    } else if id == "base"@ {
        Some(WhisperModel::Base)
    } else if id == "small-en"@ {
        Some(WhisperModel::SmallEn)
    } else if id == "small"@ {
        Some(WhisperModel::Small)
    } else if id == "medium-en"@ {
        Some(WhisperModel::MediumEn)
    } else if id == "medium"@ {
        Some(WhisperModel::Medium)
    } else {
        None
    }
}

/// The MoonshineModel variant that `id` names.
pub open spec fn moonshine_from_id(id: Seq<char>) -> Option<MoonshineModel> {
    if id == "tiny-en"@ {
        Some(MoonshineModel::TinyEn)
    } else if id == "base-en"@ {
        Some(MoonshineModel::BaseEn)
    } else {
        None
    }
}

/// The ParakeetTdtModel variant that `id` names.
pub open spec fn parakeet_from_id(id: Seq<char>) -> Option<ParakeetTdtModel> {
    if id == "v2"@ {
        Some(ParakeetTdtModel::V2)
    } else if id == "v3"@ {
        Some(ParakeetTdtModel::V3)
    } else {
        None
    }
}

/// The model that stored names give: the engine picks the family and the id its
/// variant (a missing or non-text id names none). The retired engine name `parakeet`
/// reads as Parakeet TDT: v3 when the id is `v3`, v2 for any other or missing id.
pub open spec fn spec_model_from_names(engine: Seq<char>, id: Option<Seq<char>>) -> Result<
    Model,
    ModelNameError,
> {
    if engine == "whisper"@ {
        match id {
            Some(i) => match whisper_from_id(i) {
                Some(v) => Ok(Model::Whisper(v)),
                None => Err(ModelNameError::UnknownVariant),
            },
            None => Err(ModelNameError::UnknownVariant),
        }
    } else if engine == "moonshine"@ {
        match id {
            Some(i) => match moonshine_from_id(i) {
                Some(v) => Ok(Model::Moonshine(v)),
                None => Err(ModelNameError::UnknownVariant),
            },
            None => Err(ModelNameError::UnknownVariant),
        }
    } else if engine == "parakeet-tdt"@ {
        match id {
            Some(i) => match parakeet_from_id(i) {
                Some(v) => Ok(Model::ParakeetTdt(v)),
                None => Err(ModelNameError::UnknownVariant),
            },
            None => Err(ModelNameError::UnknownVariant),
        }
    } else if engine == "parakeet"@ {
        if id == Some("v3"@) {
            Ok(Model::ParakeetTdt(ParakeetTdtModel::V3))
        } else {
            Ok(Model::ParakeetTdt(ParakeetTdtModel::V2))
        }
    } else {
        Err(ModelNameError::UnknownEngine)
    }
}

fn whisper_variant(id: &str) -> (r: Option<WhisperModel>)
    ensures
        r == whisper_from_id(id@),
{
    if str_eq(id, "tiny-en") {
        Some(WhisperModel::TinyEn)
    } else if str_eq(id, "tiny") {
        Some(WhisperModel::Tiny)
    } else if str_eq(id, "base-en") {
        Some(WhisperModel::BaseEn)
    } else if str_eq(id, "base") {
        Some(WhisperModel::Base)
    } else if str_eq(id, "small-en") {
        Some(WhisperModel::SmallEn)
    } else if str_eq(id, "small") {
        Some(WhisperModel::Small)
    } else if str_eq(id, "medium-en") {
        Some(WhisperModel::MediumEn)
    } else if str_eq(id, "medium") {
        Some(WhisperModel::Medium)
    } else {
        None
    }
}

fn moonshine_variant(id: &str) -> (r: Option<MoonshineModel>)
    ensures
        r == moonshine_from_id(id@),
{
    if str_eq(id, "tiny-en") {
        Some(MoonshineModel::TinyEn)
    } else if str_eq(id, "base-en") {
        Some(MoonshineModel::BaseEn)
    } else {
        None
    }
}

fn parakeet_variant(id: &str) -> (r: Option<ParakeetTdtModel>)
    ensures
        r == parakeet_from_id(id@),
{
    if str_eq(id, "v2") {
        Some(ParakeetTdtModel::V2)
    } else if str_eq(id, "v3") {
        Some(ParakeetTdtModel::V3)
    } else {
        None
    }
}

/// The model that stored engine and variant names give; `id` is `None` when the stored
/// id is missing or not text.
pub fn model_from_names(engine: &str, id: Option<&str>) -> (r: Result<Model, ModelNameError>)
    ensures
        r == spec_model_from_names(
            engine@,
            match id {
                Some(i) => Some(i@),
                None => None,
            },
        ),
{
    if str_eq(engine, "whisper") {
        match id {
            Some(i) => match whisper_variant(i) {
                Some(v) => Ok(Model::Whisper(v)),
                None => Err(ModelNameError::UnknownVariant),
            },
            None => Err(ModelNameError::UnknownVariant),
        }
    } else if str_eq(engine, "moonshine") {
        match id {
            Some(i) => match moonshine_variant(i) {
                Some(v) => Ok(Model::Moonshine(v)),
                None => Err(ModelNameError::UnknownVariant),
            },
            None => Err(ModelNameError::UnknownVariant),
        }
    } else if str_eq(engine, "parakeet-tdt") {
        match id {
            Some(i) => match parakeet_variant(i) {
                Some(v) => Ok(Model::ParakeetTdt(v)),
                None => Err(ModelNameError::UnknownVariant),
            },
            None => Err(ModelNameError::UnknownVariant),
        }
    } else if str_eq(engine, "parakeet") {
        match id {
            Some(i) => if str_eq(i, "v3") {
                Ok(Model::ParakeetTdt(ParakeetTdtModel::V3))
            } else {
                Ok(Model::ParakeetTdt(ParakeetTdtModel::V2))
            },
            None => Ok(Model::ParakeetTdt(ParakeetTdtModel::V2)),
        }
    } else {
        Err(ModelNameError::UnknownEngine)
    }
}

/// Reading back the names a model is stored under gives the same model.
pub proof fn lemma_model_names_round_trip(m: Model)
    ensures
        spec_model_from_names(m.spec_engine_name(), Some(m.spec_variant_id())) == Ok::<
            Model,
            ModelNameError,
        >(m),
{
    reveal_strlit("whisper");
    reveal_strlit("moonshine");
    reveal_strlit("parakeet-tdt");
    reveal_strlit("parakeet");
    reveal_strlit("tiny-en");
    reveal_strlit("tiny");
    reveal_strlit("base-en");
    reveal_strlit("base");
    reveal_strlit("small-en");
    reveal_strlit("small");
    reveal_strlit("medium-en");
    reveal_strlit("medium");
    reveal_strlit("v2");
    reveal_strlit("v3");
    match m {
        Model::Whisper(v) => {
            assert("whisper"@.len() == 7);
            assert("moonshine"@.len() == 9);
            assert("whisper"@ != "moonshine"@);
            match v {
                WhisperModel::TinyEn => {},
                WhisperModel::Tiny => {
                    assert("tiny"@.len() == 4);
                    assert("tiny-en"@.len() == 7);
                    assert("tiny"@ != "tiny-en"@);
                },
                WhisperModel::BaseEn => {
                    assert("base-en"@[0] == 'b');
                    assert("tiny-en"@[0] == 't');
                    assert("base-en"@ != "tiny-en"@);
                    assert("base-en"@.len() == 7);
                    assert("tiny"@.len() == 4);
                    assert("base-en"@ != "tiny"@);
                },
                WhisperModel::Base => {
                    assert("base"@.len() == 4);
                    assert("tiny-en"@.len() == 7);
                    assert("base"@ != "tiny-en"@);
                    assert("base"@[0] == 'b');
                    assert("tiny"@[0] == 't');
                    assert("base"@ != "tiny"@);
                    assert("base"@.len() == 4);
                    assert("base-en"@.len() == 7);
                    assert("base"@ != "base-en"@);
                },
                WhisperModel::SmallEn => {
                    assert("small-en"@.len() == 8);
                    assert("tiny-en"@.len() == 7);
                    assert("small-en"@ != "tiny-en"@);
                    assert("small-en"@.len() == 8);
                    assert("tiny"@.len() == 4);
                    assert("small-en"@ != "tiny"@);
                    assert("small-en"@.len() == 8);
                    assert("base-en"@.len() == 7);
                    assert("small-en"@ != "base-en"@);
                    assert("small-en"@.len() == 8);
                    assert("base"@.len() == 4);
                    assert("small-en"@ != "base"@);
                },
                WhisperModel::Small => {
                    assert("small"@.len() == 5);
                    assert("tiny-en"@.len() == 7);
                    assert("small"@ != "tiny-en"@);
                    assert("small"@.len() == 5);
                    assert("tiny"@.len() == 4);
                    assert("small"@ != "tiny"@);
                    assert("small"@.len() == 5);
                    assert("base-en"@.len() == 7);
                    assert("small"@ != "base-en"@);
                    assert("small"@.len() == 5);
                    assert("base"@.len() == 4);
                    assert("small"@ != "base"@);
                    assert("small"@.len() == 5);
                    assert("small-en"@.len() == 8);
                    assert("small"@ != "small-en"@);
                },
                WhisperModel::MediumEn => {
                    assert("medium-en"@.len() == 9);
                    assert("tiny-en"@.len() == 7);
                    assert("medium-en"@ != "tiny-en"@);
                    assert("medium-en"@.len() == 9);
                    assert("tiny"@.len() == 4);
                    assert("medium-en"@ != "tiny"@);
                    assert("medium-en"@.len() == 9);
                    assert("base-en"@.len() == 7);
                    assert("medium-en"@ != "base-en"@);
                    assert("medium-en"@.len() == 9);
                    assert("base"@.len() == 4);
                    assert("medium-en"@ != "base"@);
                    assert("medium-en"@.len() == 9);
                    assert("small-en"@.len() == 8);
                    assert("medium-en"@ != "small-en"@);
                    assert("medium-en"@.len() == 9);
                    assert("small"@.len() == 5);
                    assert("medium-en"@ != "small"@);
                },
                WhisperModel::Medium => {
                    assert("medium"@.len() == 6);
                    assert("tiny-en"@.len() == 7);
                    assert("medium"@ != "tiny-en"@);
                    assert("medium"@.len() == 6);
                    assert("tiny"@.len() == 4);
                    assert("medium"@ != "tiny"@);
                    assert("medium"@.len() == 6);
                    assert("base-en"@.len() == 7);
                    assert("medium"@ != "base-en"@);
                    assert("medium"@.len() == 6);
                    assert("base"@.len() == 4);
                    assert("medium"@ != "base"@);
                    assert("medium"@.len() == 6);
                    assert("small-en"@.len() == 8);
                    assert("medium"@ != "small-en"@);
                    assert("medium"@.len() == 6);
                    assert("small"@.len() == 5);
                    assert("medium"@ != "small"@);
                    assert("medium"@.len() == 6);
                    assert("medium-en"@.len() == 9);
                    assert("medium"@ != "medium-en"@);
                },
            }
        },
        Model::Moonshine(v) => {
            assert("moonshine"@.len() == 9);
            assert("whisper"@.len() == 7);
            assert("moonshine"@ != "whisper"@);
            match v {
                MoonshineModel::TinyEn => {},
                MoonshineModel::BaseEn => {
                    assert("base-en"@[0] == 'b');
                    assert("tiny-en"@[0] == 't');
                    assert("base-en"@ != "tiny-en"@);
                },
            }
        },
        Model::ParakeetTdt(v) => {
            assert("parakeet-tdt"@.len() == 12);
            assert("whisper"@.len() == 7);
            assert("parakeet-tdt"@ != "whisper"@);
            assert("parakeet-tdt"@.len() == 12);
            assert("moonshine"@.len() == 9);
            assert("parakeet-tdt"@ != "moonshine"@);
            match v {
                ParakeetTdtModel::V2 => {},
                ParakeetTdtModel::V3 => {
                    assert("v3"@[1] == '3');
                    assert("v2"@[1] == '2');
                    assert("v3"@ != "v2"@);
                },
            }
        },
    }
}

/// How a Whisper variant prints with `{:?}`.
pub open spec fn spec_whisper_debug(v: WhisperModel) -> Seq<char> {
    match v {
        WhisperModel::TinyEn => "TinyEn"@,
        WhisperModel::Tiny => "Tiny"@,
        WhisperModel::BaseEn => "BaseEn"@,
        WhisperModel::Base => "Base"@,
        WhisperModel::SmallEn => "SmallEn"@,
        WhisperModel::Small => "Small"@,
        WhisperModel::MediumEn => "MediumEn"@,
        WhisperModel::Medium => "Medium"@,
    }
}

/// How a model prints with `{:?}`: the family, then the variant in parentheses.
pub open spec fn spec_model_debug(m: Model) -> Seq<char> {
    match m {
        Model::Whisper(v) => "Whisper("@ + spec_whisper_debug(v) + ")"@,
        Model::Moonshine(MoonshineModel::TinyEn) => "Moonshine(TinyEn)"@,
        Model::Moonshine(MoonshineModel::BaseEn) => "Moonshine(BaseEn)"@,
        Model::ParakeetTdt(ParakeetTdtModel::V2) => "ParakeetTdt(V2)"@,
        Model::ParakeetTdt(ParakeetTdtModel::V3) => "ParakeetTdt(V3)"@,
    }
}

fn whisper_debug(v: WhisperModel) -> (r: &'static str)
    ensures
        r@ == spec_whisper_debug(v),
{
    match v {
        WhisperModel::TinyEn => "TinyEn",
        WhisperModel::Tiny => "Tiny",
        WhisperModel::BaseEn => "BaseEn",
        WhisperModel::Base => "Base",
        WhisperModel::SmallEn => "SmallEn",
        WhisperModel::Small => "Small",
        WhisperModel::MediumEn => "MediumEn",
        WhisperModel::Medium => "Medium",
    }
}

impl Model {
    /// The model as `{:?}` prints it, such as `Whisper(TinyEn)`.
    pub fn debug_name(self) -> (r: String)
        ensures
            r@ == spec_model_debug(self),
    {
        match self {
            Model::Whisper(v) => {
                let mut out = String::from_str("Whisper(");
                out.append(whisper_debug(v));
                out.append(")");
                out
            },
            Model::Moonshine(MoonshineModel::TinyEn) => String::from_str("Moonshine(TinyEn)"),
            Model::Moonshine(MoonshineModel::BaseEn) => String::from_str("Moonshine(BaseEn)"),
            Model::ParakeetTdt(ParakeetTdtModel::V2) => String::from_str("ParakeetTdt(V2)"),
            Model::ParakeetTdt(ParakeetTdtModel::V3) => String::from_str("ParakeetTdt(V3)"),
        }
    }

    /// An engine is loaded only from a downloaded model; otherwise the error names the
    /// model and asks to download it first.
    pub fn require_downloaded(self, downloaded: bool) -> (r: Result<(), String>)
        ensures
            downloaded ==> r is Ok,
            !downloaded ==> (r matches Err(m) && m@ == "Model '"@ + spec_model_debug(self)
                + "' not downloaded. Please download it first."@),
    {
        if downloaded {
            Ok(())
        } else {
            let mut out = String::from_str("Model '");
            out.append(self.debug_name().as_str());
            out.append("' not downloaded. Please download it first.");
            Err(out)
        }
    }
}

/// The stem of a Whisper variant's file names.
pub open spec fn spec_whisper_file_stem(variant: WhisperModel) -> Seq<char> {
    match variant {
        WhisperModel::TinyEn => "tiny.en"@,
        WhisperModel::BaseEn => "base.en"@,
        WhisperModel::SmallEn => "small.en"@,
        WhisperModel::MediumEn => "medium.en"@,
        WhisperModel::Tiny => "tiny"@,
        WhisperModel::Base => "base"@,
        WhisperModel::Small => "small"@,
        WhisperModel::Medium => "medium"@,
    }
}

/// The stem of a Whisper variant's file names.
pub fn whisper_file_stem(variant: WhisperModel) -> (r: &'static str)
    ensures
        r@ == spec_whisper_file_stem(variant),
{
    match variant {
        WhisperModel::TinyEn => "tiny.en",
        WhisperModel::BaseEn => "base.en",
        WhisperModel::SmallEn => "small.en",
        WhisperModel::MediumEn => "medium.en",
        WhisperModel::Tiny => "tiny",
        WhisperModel::Base => "base",
        WhisperModel::Small => "small",
        WhisperModel::Medium => "medium",
    }
}

/// What a model's recognizer is loaded from: the paths of its files and the fixed
/// settings of its engine.
#[derive(Clone, Debug, PartialEq, Eq)]
pub enum EngineConfig {
    Whisper { encoder: String, decoder: String, tokens: String, language: &'static str },
    Moonshine {
        preprocessor: String,
        encoder: String,
        uncached_decoder: String,
        cached_decoder: String,
        tokens: String,
    },
    Transducer {
        encoder: String,
        decoder: String,
        joiner: String,
        tokens: String,
        model_type: &'static str,
        sample_rate: u32,
        feature_dim: u32,
    },
}

/// Whether `config` loads `model` unpacked at `path`: Whisper reads the int8 encoder
/// and decoder named after the variant and transcribes English; Moonshine reads its
/// preprocessor, int8 encoder and both int8 decoders; Parakeet TDT is a NeMo
/// transducer at 16 kHz with 80 features. Every engine reads `tokens.txt`.
pub open spec fn is_engine_config_for(model: Model, path: Seq<char>, config: EngineConfig) -> bool {
    match model {
        Model::Whisper(variant) => config matches EngineConfig::Whisper {
            encoder,
            decoder,
            tokens,
            language,
        } && encoder@ == spec_join(path, spec_whisper_file_stem(variant) + "-encoder.int8.onnx"@)
            && decoder@ == spec_join(path, spec_whisper_file_stem(variant) + "-decoder.int8.onnx"@)
            && tokens@ == spec_join(path, "tokens.txt"@) && language@ == "en"@,
        Model::Moonshine(_) => config matches EngineConfig::Moonshine {
            preprocessor,
            encoder,
            uncached_decoder,
            cached_decoder,
            tokens,
        } && preprocessor@ == spec_join(path, "preprocess.onnx"@) && encoder@ == spec_join(
            path,
            "encode.int8.onnx"@,
        ) && uncached_decoder@ == spec_join(path, "uncached_decode.int8.onnx"@)
            && cached_decoder@ == spec_join(path, "cached_decode.int8.onnx"@) && tokens@
            == spec_join(path, "tokens.txt"@),
        Model::ParakeetTdt(_) => config matches EngineConfig::Transducer {
            encoder,
            decoder,
            joiner,
            tokens,
            model_type,
            sample_rate,
            feature_dim,
        } && encoder@ == spec_join(path, "encoder.int8.onnx"@) && decoder@ == spec_join(
            path,
            "decoder.int8.onnx"@,
        ) && joiner@ == spec_join(path, "joiner.int8.onnx"@) && tokens@ == spec_join(
            path,
            "tokens.txt"@,
        ) && model_type@ == "nemo_transducer"@ && sample_rate == 16_000 && feature_dim == 80,
    }
}

impl Model {
    /// The engine configuration of this model unpacked at `path`.
    pub fn engine_config(self, path: &str) -> (r: EngineConfig)
        ensures
            is_engine_config_for(self, path@, r),
    {
        match self {
            Model::Whisper(variant) => {
                let stem = whisper_file_stem(variant);
                EngineConfig::Whisper {
                    encoder: join(path, joined(stem, "-encoder.int8.onnx").as_str()),
                    decoder: join(path, joined(stem, "-decoder.int8.onnx").as_str()),
                    tokens: join(path, "tokens.txt"),
                    language: "en",
                }
            },
            Model::Moonshine(_) => EngineConfig::Moonshine {
                preprocessor: join(path, "preprocess.onnx"),
                encoder: join(path, "encode.int8.onnx"),
                uncached_decoder: join(path, "uncached_decode.int8.onnx"),
                cached_decoder: join(path, "cached_decode.int8.onnx"),
                tokens: join(path, "tokens.txt"),
            },
            Model::ParakeetTdt(_) => EngineConfig::Transducer {
                encoder: join(path, "encoder.int8.onnx"),
                decoder: join(path, "decoder.int8.onnx"),
                joiner: join(path, "joiner.int8.onnx"),
                tokens: join(path, "tokens.txt"),
                model_type: "nemo_transducer",
                sample_rate: 16_000,
                feature_dim: 80,
            },
        }
    }
}

/// The engine a model path is loaded with.
#[derive(Clone, Copy, Debug, PartialEq, Eq, Structural)]
pub enum PathEngine {
    /// A directory holds a Parakeet model.
    Parakeet,
    /// A single file holds a Whisper model.
    Whisper,
}

/// Which engine loads the model at `model_path`: a path that does not exist is an
/// error naming it; a directory is loaded as Parakeet, a file as Whisper.
pub fn path_engine(model_path: &str, exists: bool, is_directory: bool) -> (r: Result<
    PathEngine,
    String,
>)
    ensures
        !exists ==> (r matches Err(m) && m@ == "Model path not found: "@ + model_path@),
        exists && is_directory ==> r == Ok::<PathEngine, String>(PathEngine::Parakeet),
        exists && !is_directory ==> r == Ok::<PathEngine, String>(PathEngine::Whisper),
{
    if !exists {
        return Err(joined("Model path not found: ", model_path));
    }
    if is_directory {
        Ok(PathEngine::Parakeet)
    } else {
        Ok(PathEngine::Whisper)
    }
}

/// Below this many bytes a Whisper file that failed to load is probably incomplete.
pub const WHISPER_SUSPECT_SIZE_BYTES: u64 = 1_000_000;

/// The message for a Whisper file that failed to load with `error`: a file under a
/// million bytes is reported with its size as possibly corrupt.
pub fn whisper_load_failure(file_size: u64, error: &str) -> (r: String)
    ensures
        file_size < WHISPER_SUSPECT_SIZE_BYTES ==> r@
            == "Failed to load Whisper model (file may be corrupt, size: "@ + decimal(
            file_size as nat,
        ) + " bytes): "@ + error@,
        file_size >= WHISPER_SUSPECT_SIZE_BYTES ==> r@ == "Failed to load Whisper model: "@
            + error@,
{
    if file_size < WHISPER_SUSPECT_SIZE_BYTES {
        let mut out = String::from_str("Failed to load Whisper model (file may be corrupt, size: ");
        push_decimal(&mut out, file_size);
        out.append(" bytes): ");
        out.append(error);
        out
    } else {
        joined("Failed to load Whisper model: ", error)
    }
}

/// Whether the engine must be loaded for `wanted`: nothing is cached, or another model
/// is.
pub fn needs_engine_load(cached: Option<Model>, wanted: Model) -> (r: bool)
    ensures
        r == !(cached == Some(wanted)),
{
    match cached {
        Some(model) => model != wanted,
        None => true,
    }
}

/// The model path prefix that stands for no real model.
pub const PLACEHOLDER_PATH_PREFIX: &'static str = "placeholder:";

/// The text transcribed while only a placeholder model is loaded.
pub const PLACEHOLDER_TRANSCRIPT: &'static str =
    "This is a placeholder transcription from the audio file. Real transcription will work when model files are available.";

/// How a file is transcribed.
#[derive(Clone, Copy, Debug, PartialEq, Eq, Structural)]
pub enum TranscribePlan {
    /// Answer with the placeholder transcript after a pause.
    Placeholder,
    /// Run the loaded engine.
    Engine,
}

/// Whether `path` starts with the placeholder prefix.
pub open spec fn is_placeholder_path(path: Seq<char>) -> bool {
    path.len() >= 12 && path.subrange(0, 12) == "placeholder:"@
}

/// How a file is transcribed: not at all without a loaded model; with the placeholder
/// transcript when the loaded path is a placeholder; otherwise by the engine.
pub fn transcribe_plan(model_loaded: bool, model_path: Option<&str>) -> (r: Result<
    TranscribePlan,
    &'static str,
>)
    ensures
        !model_loaded ==> (r matches Err(m) && m@ == "No model loaded"@),
        model_loaded && (model_path matches Some(p) && is_placeholder_path(p@)) ==> r == Ok::<
            TranscribePlan,
            &'static str,
        >(TranscribePlan::Placeholder),
        model_loaded && !(model_path matches Some(p) && is_placeholder_path(p@)) ==> r == Ok::<
            TranscribePlan,
            &'static str,
        >(TranscribePlan::Engine),
{
    if !model_loaded {
        return Err("No model loaded");
    }
    match model_path {
        Some(path) => {
            let chars = chars_of(path);
            let prefix = chars_of(PLACEHOLDER_PATH_PREFIX);
            proof {
                reveal_strlit("placeholder:");
            }
            if starts_with_chars(&chars, &prefix) {
                Ok(TranscribePlan::Placeholder)
            } else {
                Ok(TranscribePlan::Engine)
            }
        },
        None => Ok(TranscribePlan::Engine),
    }
}

/// Whether `s` begins with `prefix`.
fn starts_with_chars(s: &Vec<char>, prefix: &Vec<char>) -> (r: bool)
    ensures
        r == (s@.len() >= prefix@.len() && s@.subrange(0, prefix@.len() as int) == prefix@),
{
    if s.len() < prefix.len() {
        return false;
    }
    let mut i: usize = 0;
    while i < prefix.len()
        invariant
            i <= prefix@.len() <= s@.len(),
            s@.subrange(0, i as int) == prefix@.subrange(0, i as int),
        decreases prefix@.len() - i,
    {
        if s[i] != prefix[i] {
            proof {
                assert(s@.subrange(0, prefix@.len() as int)[i as int] == s@[i as int]);
            }
            return false;
        }
        i = i + 1;
        proof {
            assert(s@.subrange(0, i as int) =~= prefix@.subrange(0, i as int));
        }
    }
    proof {
        assert(prefix@.subrange(0, i as int) =~= prefix@);
    }
    true
}

/// Different models are stored under different names, none of them absolute.
pub proof fn lemma_storage_names_distinct(m1: Model, m2: Model)
    ensures
        is_relative(m1.spec_storage_name()),
        m1 != m2 ==> m1.spec_storage_name() != m2.spec_storage_name(),
{
    reveal_strlit("sherpa-onnx-whisper-tiny.en");
    reveal_strlit("sherpa-onnx-whisper-tiny");
    reveal_strlit("sherpa-onnx-whisper-base.en");
    reveal_strlit("sherpa-onnx-whisper-base");
    reveal_strlit("sherpa-onnx-whisper-small.en");
    reveal_strlit("sherpa-onnx-whisper-small");
    reveal_strlit("sherpa-onnx-whisper-medium.en");
    reveal_strlit("sherpa-onnx-whisper-medium");
    reveal_strlit("sherpa-onnx-moonshine-tiny-en-int8");
    reveal_strlit("sherpa-onnx-moonshine-base-en-int8");
    reveal_strlit("sherpa-onnx-nemo-parakeet-tdt-0.6b-v2-int8");
    reveal_strlit("sherpa-onnx-nemo-parakeet-tdt-0.6b-v3-int8");
    let n1 = m1.spec_storage_name();
    let n2 = m2.spec_storage_name();
    if m1 != m2 && n1 == n2 {
        assert(n1.len() == n2.len());
        assert(n1[20] == n2[20]);
        assert(n1[22] == n2[22]);
        assert(n1[36] == n2[36]);
    }
}

/// Different models get different paths below the same models directory.
pub proof fn lemma_local_paths_differ(models_dir: Seq<char>, m1: Model, m2: Model)
    requires
        m1 != m2,
    ensures
        spec_join(models_dir, m1.spec_storage_name()) != spec_join(
            models_dir,
            m2.spec_storage_name(),
        ),
{
    lemma_storage_names_distinct(m1, m2);
    lemma_storage_names_distinct(m2, m1);
    lemma_join_injective(models_dir, m1.spec_storage_name(), m2.spec_storage_name());
}

/// How long a fetched model size stays fresh: one day, in nanoseconds.
pub const SIZE_CACHE_NANOS: u128 = 86_400_000_000_000;

/// Whether a size cached at `cached_at` is still fresh at `now`: it is less than a day
/// old (a cache time after `now` counts as no time at all).
pub open spec fn spec_size_is_fresh(cached_at: Moment, now: Moment) -> bool {
    now.spec_nanos() < cached_at.spec_nanos() + SIZE_CACHE_NANOS
}

/// Whether a size cached at `cached_at` is still fresh at `now`.
pub fn size_is_fresh(cached_at: Moment, now: Moment) -> (r: bool)
    ensures
        r == spec_size_is_fresh(cached_at, now),
{
    if now.is_at_or_before(&cached_at) {
        return true;
    }
    match now.checked_duration_since(&cached_at) {
        Some(age) => age.as_nanos() < SIZE_CACHE_NANOS,
        None => false,
    }
}

/// Where a model's size comes from.
#[derive(Clone, Copy, Debug, PartialEq, Eq, Structural)]
pub enum SizeSource {
    /// The cached size, still fresh.
    Cached(u64),
    /// Fetch it again.
    Fetch,
}

/// Where each model's size comes from at `now`, given what the cache holds for it (a
/// size and when it was fetched): a fresh cached size is used; a missing or stale one
/// is fetched.
pub fn size_sources(cached: &Vec<Option<(u64, Moment)>>, now: Moment) -> (r: Vec<SizeSource>)
    ensures
        r@.len() == cached@.len(),
        forall|i: int|
            0 <= i < cached@.len() ==> #[trigger] r@[i] == match cached@[i] {
                Some((size, at)) => if spec_size_is_fresh(at, now) {
                    SizeSource::Cached(size)
                } else {
                    SizeSource::Fetch
                },
                None => SizeSource::Fetch,
            },
{
    let mut out: Vec<SizeSource> = Vec::new();
    let mut i: usize = 0;
    while i < cached.len()
        invariant
            i <= cached@.len(),
            out@.len() == i,
            forall|j: int|
                0 <= j < i ==> #[trigger] out@[j] == match cached@[j] {
                    Some((size, at)) => if spec_size_is_fresh(at, now) {
                        SizeSource::Cached(size)
                    } else {
                        SizeSource::Fetch
                    },
                    None => SizeSource::Fetch,
                },
        decreases cached@.len() - i,
    {
        let source = match cached[i] {
            Some((size, at)) => if size_is_fresh(at, now) {
                SizeSource::Cached(size)
            } else {
                SizeSource::Fetch
            },
            None => SizeSource::Fetch,
        };
        out.push(source);
        i = i + 1;
    }
    out
}

/// What one model's size and cache entry come to at `now`, given its cache entry and
/// what fetching its size gave (looked at only when the cached size is missing or
/// stale): a fresh cached size is used and kept; a fetched size is used and cached at
/// `now`; a failed fetch leaves the model without a size and its cache entry as it was.
pub open spec fn spec_size_after(
    cached: Option<(u64, Moment)>,
    fetched: Option<u64>,
    now: Moment,
) -> (Option<u64>, Option<(u64, Moment)>) {
    match cached {
        Some((size, at)) if spec_size_is_fresh(at, now) => (Some(size), cached),
        _ => match fetched {
            Some(size) => (Some(size), Some((size, now))),
            None => (None, cached),
        },
    }
}

/// The size and cache entry of one model at `now`.
pub fn size_after(cached: Option<(u64, Moment)>, fetched: Option<u64>, now: Moment) -> (r: (
    Option<u64>,
    Option<(u64, Moment)>,
))
    ensures
        r == spec_size_after(cached, fetched, now),
{
    match cached {
        Some((size, at)) => {
            if size_is_fresh(at, now) {
                return (Some(size), cached);
            }
        },
        None => {},
    }
    match fetched {
        Some(size) => (Some(size), Some((size, now))),
        None => (None, cached),
    }
}

/// The sizes of the models and the cache after fetching the missing ones, model by
/// model in the same order: `cached` is the cache before, `fetched` what each fetch gave.
pub fn sizes_after_fetch(
    cached: &Vec<Option<(u64, Moment)>>,
    fetched: &Vec<Option<u64>>,
    now: Moment,
) -> (r: (Vec<Option<u64>>, Vec<Option<(u64, Moment)>>))
    requires
        fetched@.len() == cached@.len(),
    ensures
        r.0@.len() == cached@.len(),
        r.1@.len() == cached@.len(),
        forall|i: int|
            0 <= i < cached@.len() ==> (#[trigger] r.0@[i], r.1@[i]) == spec_size_after(
                cached@[i],
                fetched@[i],
                now,
            ),
{
    let mut sizes: Vec<Option<u64>> = Vec::new();
    let mut cache: Vec<Option<(u64, Moment)>> = Vec::new();
    let mut i: usize = 0;
    while i < cached.len()
        invariant
            i <= cached@.len(),
            fetched@.len() == cached@.len(),
            sizes@.len() == i,
            cache@.len() == i,
            forall|j: int|
                0 <= j < i ==> (#[trigger] sizes@[j], cache@[j]) == spec_size_after(
                    cached@[j],
                    fetched@[j],
                    now,
                ),
        decreases cached@.len() - i,
    {
        let (size, entry) = size_after(cached[i], fetched[i], now);
        sizes.push(size);
        cache.push(entry);
        i = i + 1;
    }
    (sizes, cache)
}

/// The engine loaded for one model, kept between transcriptions.
pub struct EngineCache<E> {
    entry: Option<(Model, E)>,
}

impl<E> EngineCache<E> {
    /// The cached model and its engine, if any.
    pub closed spec fn spec_entry(self) -> Option<(Model, E)> {
        self.entry
    }

    /// The model whose engine is cached, if any.
    pub open spec fn spec_model(self) -> Option<Model> {
        match self.spec_entry() {
            Some((m, _)) => Some(m),
            None => None,
        }
    }

    /// An empty cache.
    pub fn new() -> (r: EngineCache<E>)
        ensures
            r.spec_entry() is None,
    {
        EngineCache { entry: None }
    }

    /// The model whose engine is cached, if any.
    pub fn model(&self) -> (r: Option<Model>)
        ensures
            r == self.spec_model(),
    {
        match &self.entry {
            Some((m, _)) => Some(*m),
            None => None,
        }
    }

    /// The cached engine, if any.
    pub fn engine(&self) -> (r: Option<&E>)
        ensures
            match self.spec_entry() {
                Some((_, e)) => r == Some(&e),
                None => r is None,
            },
    {
        match &self.entry {
            Some((_, e)) => Some(e),
            None => None,
        }
    }

    /// Makes sure the engine for `wanted` is loaded. An engine cached for `wanted` is
    /// kept and `load` is not called; otherwise `load` is called once: the engine it
    /// gives replaces the cache, and a failed load leaves the cache as it was.
    pub fn ensure_loaded<X, F: FnOnce() -> Result<E, X>>(&mut self, wanted: Model, load: F) -> (r:
        Result<(), X>)
        requires
            old(self).spec_model() != Some(wanted) ==> call_requires(load, ()),
        ensures
            old(self).spec_model() == Some(wanted) ==> r is Ok && final(self).spec_entry()
                == old(self).spec_entry(),
            old(self).spec_model() != Some(wanted) ==> exists|loaded: Result<E, X>|
                #[trigger] call_ensures(load, (), loaded) && match loaded {
                    Ok(e) => r is Ok && final(self).spec_entry() == Some((wanted, e)),
                    Err(x) => r == Err::<(), X>(x) && final(self).spec_entry()
                        == old(self).spec_entry(),
                },
    {
        if !needs_engine_load(self.model(), wanted) {
            return Ok(());
        }
        let loaded = load();
        match loaded {
            Ok(engine) => {
                self.entry = Some((wanted, engine));
                Ok(())
            },
            Err(x) => Err(x),
        }
    }
}

} // verus!
