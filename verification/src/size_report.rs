//! The size report of a Whisper model, as the JSON check prints it.
use vstd::prelude::*;

verus! {

/// The Whisper variants the report covers.
#[derive(Clone, Copy, Debug, PartialEq, Eq, Structural, Hash)]
pub enum WhisperModel {
    Tiny,
    Base,
}

/// A model of the report.
#[derive(Clone, Copy, Debug, PartialEq, Eq, Structural, Hash)]
pub enum Model {
    Whisper(WhisperModel),
}

/// A model and its archive size in bytes.
#[derive(Clone, Copy, Debug, PartialEq, Eq, Structural)]
pub struct ModelSize {
    pub model: Model,
    pub size_bytes: u64,
}

impl WhisperModel {
    /// The id the JSON carries: kebab case.
    pub fn id(self) -> (r: &'static str)
        ensures
            r@ == match self {
                WhisperModel::Tiny => "tiny"@,
                WhisperModel::Base => "base"@,
            },
    {
        match self {
            WhisperModel::Tiny => "tiny",
            WhisperModel::Base => "base",
        }
    }
}

impl Model {
    /// The engine name the JSON carries.
    pub fn engine(self) -> (r: &'static str)
        ensures
            r@ == "whisper"@,
    {
        match self {
            Model::Whisper(_) => "whisper",
        }
    }
}

} // verus!
