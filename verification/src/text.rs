//! What shapes a transcript into text: the dictation mode, how spoken punctuation is
//! handled, the custom dictionary and the replacement rules.
use vstd::prelude::*;

verus! {

/// The kind of text being dictated.
#[derive(Clone, Copy, Debug, PartialEq, Eq, Structural)]
pub enum DictationMode {
    Raw,
    Literal,
    Message,
    Email,
    Note,
    Technical,
    Command,
}

impl DictationMode {
    /// The word that names the mode.
    pub open spec fn spec_name(self) -> Seq<char> {
        match self {
            DictationMode::Raw => "raw"@,
            DictationMode::Literal => "literal"@,
            DictationMode::Message => "message"@,
            DictationMode::Email => "email"@,
            DictationMode::Note => "note"@,
            DictationMode::Technical => "technical"@,
            DictationMode::Command => "command"@,
        }
    }
}

/// How spoken punctuation and line breaks are turned into text.
#[derive(Clone, Copy, Debug, PartialEq, Eq, Structural)]
pub enum SpokenFormatting {
    Disabled,
    PunctuationOnly,
    PunctuationAndLines,
}

/// Spoken phrases and the text written for them.
#[derive(Clone, Debug, PartialEq, Eq)]
pub struct CustomDictionary {
    pub entries: Vec<(String, String)>,
}

impl CustomDictionary {
    /// A dictionary of (spoken, written) pairs, in order.
    pub fn from_entries(entries: Vec<(String, String)>) -> (r: CustomDictionary)
        ensures
            r.entries@ == entries@,
    {
        CustomDictionary { entries }
    }
}

/// A phrase replaced by other text.
#[derive(Clone, Debug, PartialEq, Eq)]
pub struct ReplacementRule {
    pub spoken: String,
    pub written: String,
}

impl ReplacementRule {
    pub fn new(spoken: String, written: String) -> (r: ReplacementRule)
        ensures
            r.spoken == spoken,
            r.written == written,
    {
        ReplacementRule { spoken, written }
    }
}

/// Everything that shapes a transcript into text.
#[derive(Clone, Debug, PartialEq, Eq)]
pub struct DictationContext {
    pub mode: DictationMode,
    pub spoken_formatting: Option<SpokenFormatting>,
    pub dictionary: Option<CustomDictionary>,
    pub replacement_rules: Vec<ReplacementRule>,
}

impl DictationContext {
    /// A context for `mode` with nothing else set.
    pub fn new(mode: DictationMode) -> (r: DictationContext)
        ensures
            r.mode == mode,
            r.spoken_formatting is None,
            r.dictionary is None,
            r.replacement_rules@.len() == 0,
    {
        DictationContext {
            mode,
            spoken_formatting: None,
            dictionary: None,
            replacement_rules: Vec::new(),
        }
    }

    pub fn with_spoken_formatting(self, spoken_formatting: SpokenFormatting) -> (r:
        DictationContext)
        ensures
            r == (DictationContext { spoken_formatting: Some(spoken_formatting), ..self }),
    {
        DictationContext { spoken_formatting: Some(spoken_formatting), ..self }
    }

    pub fn with_dictionary(self, dictionary: CustomDictionary) -> (r: DictationContext)
        ensures
            r == (DictationContext { dictionary: Some(dictionary), ..self }),
    {
        DictationContext { dictionary: Some(dictionary), ..self }
    }

    pub fn with_replacement_rules(self, replacement_rules: Vec<ReplacementRule>) -> (r:
        DictationContext)
        ensures
            r == (DictationContext { replacement_rules, ..self }),
    {
        DictationContext { replacement_rules, ..self }
    }

    pub fn mode(&self) -> (r: DictationMode)
        ensures
            r == self.mode,
    {
        self.mode
    }
}

} // verus!
