//! Persistent settings: the model, the dictation mode and formatting, the custom
//! dictionary and replacements, and where dictation is delivered.
use vstd::prelude::*;
use vstd::string::StringExecFns;
use crate::delivery::DeliveryTarget;
use crate::models::default_model;
use crate::models::model_by_id;
use crate::models::spec_join_ids;
use crate::models::lemma_join_ids_lists_every_id;
use crate::models::lemma_default_model_is_in_catalog;
use crate::desktop_text::spec_contains;
use crate::desktop_text::lemma_contains_in_concat;
use crate::models::spec_catalog;
use crate::models::spec_model_by_id;
use crate::models::valid_model_ids;
use crate::models::ModelCatalogEntry;
use crate::models::DEFAULT_MODEL_ID_STR;
use crate::strings::debug_quoted;
use crate::strings::debug_quoted_spec;
use crate::text::CustomDictionary;
use crate::text::DictationContext;
use crate::text::DictationMode;
use crate::text::ReplacementRule;
use crate::text::SpokenFormatting;

verus! {

/// The dictation mode as settings name it.
#[derive(Clone, Copy, Debug, PartialEq, Eq, Structural)]
pub enum SettingsDictationMode {
    Raw,
    Literal,
    Message,
    Email,
    Note,
    Technical,
    Command,
}

impl Default for SettingsDictationMode {
    fn default() -> (r: SettingsDictationMode)
        ensures
            r == SettingsDictationMode::Message,
    {
        SettingsDictationMode::Message
    }
}

impl SettingsDictationMode {
    /// The word a settings file writes for the mode (`mode = "technical"`).
    pub open spec fn spec_setting_name(self) -> Seq<char> {
        match self {
            SettingsDictationMode::Raw => "raw"@,
            SettingsDictationMode::Literal => "literal"@,
            SettingsDictationMode::Message => "message"@,
            SettingsDictationMode::Email => "email"@,
            SettingsDictationMode::Note => "note"@,
            SettingsDictationMode::Technical => "technical"@,
            SettingsDictationMode::Command => "command"@,
        }
    }

    pub open spec fn spec_mode(self) -> DictationMode {
        match self {
            SettingsDictationMode::Raw => DictationMode::Raw,
            SettingsDictationMode::Literal => DictationMode::Literal,
            SettingsDictationMode::Message => DictationMode::Message,
            SettingsDictationMode::Email => DictationMode::Email,
            SettingsDictationMode::Note => DictationMode::Note,
            SettingsDictationMode::Technical => DictationMode::Technical,
            SettingsDictationMode::Command => DictationMode::Command,
        }
    }

    pub fn mode(self) -> (r: DictationMode)
        ensures
            r == self.spec_mode(),
    {
        match self {
            SettingsDictationMode::Raw => DictationMode::Raw,
            SettingsDictationMode::Literal => DictationMode::Literal,
            SettingsDictationMode::Message => DictationMode::Message,
            SettingsDictationMode::Email => DictationMode::Email,
            SettingsDictationMode::Note => DictationMode::Note,
            SettingsDictationMode::Technical => DictationMode::Technical,
            SettingsDictationMode::Command => DictationMode::Command,
        }
    }
}

/// Spoken formatting as settings name it.
#[derive(Clone, Copy, Debug, PartialEq, Eq, Structural)]
pub enum SettingsSpokenFormatting {
    Disabled,
    PunctuationOnly,
    PunctuationAndLines,
}

impl SettingsSpokenFormatting {
    pub open spec fn spec_formatting(self) -> SpokenFormatting {
        match self {
            SettingsSpokenFormatting::Disabled => SpokenFormatting::Disabled,
            SettingsSpokenFormatting::PunctuationOnly => SpokenFormatting::PunctuationOnly,
            SettingsSpokenFormatting::PunctuationAndLines => SpokenFormatting::PunctuationAndLines,
        }
    }

    pub fn formatting(self) -> (r: SpokenFormatting)
        ensures
            r == self.spec_formatting(),
    {
        match self {
            SettingsSpokenFormatting::Disabled => SpokenFormatting::Disabled,
            SettingsSpokenFormatting::PunctuationOnly => SpokenFormatting::PunctuationOnly,
            SettingsSpokenFormatting::PunctuationAndLines => SpokenFormatting::PunctuationAndLines,
        }
    }
}

/// The delivery targets that settings may choose.
#[derive(Clone, Copy, Debug, PartialEq, Eq, Structural)]
pub enum SettingsDeliveryTarget {
    Stdout,
    Clipboard,
}

/// A settings mode chooses the dictation mode of the same name, so different settings
/// modes choose different dictation modes, and every dictation mode can be chosen.
pub proof fn lemma_settings_mode_keeps_its_name(m: SettingsDictationMode, n: SettingsDictationMode, d: DictationMode)
    ensures
        m.spec_mode().spec_name() == m.spec_setting_name(),
        m.spec_mode() == n.spec_mode() ==> m == n,
        exists|k: SettingsDictationMode| #[trigger] k.spec_mode() == d,
{
    reveal_strlit("raw");
    reveal_strlit("literal");
    reveal_strlit("message");
    reveal_strlit("email");
    reveal_strlit("note");
    reveal_strlit("technical");
    reveal_strlit("command");
    match d {
        DictationMode::Raw => assert(SettingsDictationMode::Raw.spec_mode() == d),
        DictationMode::Literal => assert(SettingsDictationMode::Literal.spec_mode() == d),
        DictationMode::Message => assert(SettingsDictationMode::Message.spec_mode() == d),
        DictationMode::Email => assert(SettingsDictationMode::Email.spec_mode() == d),
        DictationMode::Note => assert(SettingsDictationMode::Note.spec_mode() == d),
        DictationMode::Technical => assert(SettingsDictationMode::Technical.spec_mode() == d),
        DictationMode::Command => assert(SettingsDictationMode::Command.spec_mode() == d),
    }
}

impl Default for SettingsDeliveryTarget {
    fn default() -> (r: SettingsDeliveryTarget)
        ensures
            r == SettingsDeliveryTarget::Stdout,
    {
        SettingsDeliveryTarget::Stdout
    }
}

impl SettingsDeliveryTarget {
    pub open spec fn spec_target(self) -> DeliveryTarget {
        match self {
            SettingsDeliveryTarget::Stdout => DeliveryTarget::Stdout,
            SettingsDeliveryTarget::Clipboard => DeliveryTarget::Clipboard,
        }
    }

    pub fn target(self) -> (r: DeliveryTarget)
        ensures
            r == self.spec_target(),
    {
        match self {
            SettingsDeliveryTarget::Stdout => DeliveryTarget::Stdout,
            SettingsDeliveryTarget::Clipboard => DeliveryTarget::Clipboard,
        }
    }
}

/// A spoken phrase and the text written for it.
#[derive(Clone, Debug, PartialEq, Eq)]
pub struct DictionaryEntry {
    pub spoken: String,
    pub written: String,
}

/// A phrase replaced by other text.
#[derive(Clone, Debug, PartialEq, Eq)]
pub struct ReplacementEntry {
    pub spoken: String,
    pub written: String,
}

/// The settings file's contents.
#[derive(Debug, PartialEq, Eq)]
pub struct Settings {
    pub model: String,
    pub mode: SettingsDictationMode,
    pub spoken_formatting: Option<SettingsSpokenFormatting>,
    pub dictionary: Vec<DictionaryEntry>,
    pub replacements: Vec<ReplacementEntry>,
    pub delivery: SettingsDeliveryTarget,
}

/// The error for an unknown model id in the settings: the id as `Debug` prints it,
/// the valid ids, and the default as an example line.
pub open spec fn spec_unknown_model_message(id: Seq<char>) -> Seq<char> {
    "unknown model id "@ + debug_quoted_spec(id) + "; valid model ids: "@ + spec_join_ids(
        spec_catalog(),
    ) + "; example: model = "@ + debug_quoted_spec(DEFAULT_MODEL_ID_STR@)
}

/// The error for a model id outside the catalog lists every catalog id, the default
/// id among them.
pub proof fn lemma_unknown_model_message_lists_catalog_ids(id: Seq<char>)
    ensures
        forall|i: int|
            0 <= i < spec_catalog().len() ==> spec_contains(
                spec_unknown_model_message(id),
                #[trigger] spec_catalog()[i].id.0@,
            ),
        spec_contains(spec_unknown_model_message(id), DEFAULT_MODEL_ID_STR@),
{
    let before = "unknown model id "@ + debug_quoted_spec(id) + "; valid model ids: "@;
    let ids = spec_join_ids(spec_catalog());
    let after = "; example: model = "@ + debug_quoted_spec(DEFAULT_MODEL_ID_STR@);
    assert(spec_unknown_model_message(id) =~= before + ids + after);
    assert forall|i: int| 0 <= i < spec_catalog().len() implies spec_contains(
        spec_unknown_model_message(id),
        #[trigger] spec_catalog()[i].id.0@,
    ) by {
        lemma_join_ids_lists_every_id(spec_catalog(), i);
        lemma_contains_in_concat(before, ids, after, spec_catalog()[i].id.0@);
    }
    assert(spec_catalog()[8].id.0@ == DEFAULT_MODEL_ID_STR@);
}

impl Settings {
    /// The chosen model; an id that names no catalog model is an error that lists the
    /// valid ids.
    pub fn model(&self) -> (r: Result<ModelCatalogEntry, String>)
        ensures
            match spec_model_by_id(self.model@) {
                Some(e) => r == Ok::<ModelCatalogEntry, String>(e),
                None => r matches Err(m) && m@ == spec_unknown_model_message(self.model@),
            },
    {
        match model_by_id(self.model.as_str()) {
            Some(entry) => Ok(entry),
            None => {
                let mut message = String::from_str("unknown model id ");
                message.append(debug_quoted(self.model.as_str()).as_str());
                message.append("; valid model ids: ");
                message.append(valid_model_ids().as_str());
                message.append("; example: model = ");
                message.append(debug_quoted(DEFAULT_MODEL_ID_STR).as_str());
                Err(message)
            },
        }
    }

    /// The context that shapes transcripts: the mode; spoken formatting when set; the
    /// dictionary and the replacements when not empty, in order.
    pub fn dictation_context(&self) -> (r: DictationContext)
        ensures
            r.mode == self.mode.spec_mode(),
            r.spoken_formatting == match self.spoken_formatting {
                Some(f) => Some(f.spec_formatting()),
                None => None,
            },
            r.dictionary is Some <==> self.dictionary@.len() > 0,
            r.dictionary matches Some(d) ==> d.entries@.len() == self.dictionary@.len() && forall|
                i: int,
            |
                0 <= i < self.dictionary@.len() ==> (#[trigger] d.entries@[i]).0@
                    == self.dictionary@[i].spoken@ && d.entries@[i].1@
                    == self.dictionary@[i].written@,
            r.replacement_rules@.len() == self.replacements@.len(),
            forall|i: int|
                0 <= i < self.replacements@.len() ==> (#[trigger] r.replacement_rules@[i]).spoken@
                    == self.replacements@[i].spoken@ && r.replacement_rules@[i].written@
                    == self.replacements@[i].written@,
    {
        let mut context = DictationContext::new(self.mode.mode());
        if let Some(spoken_formatting) = self.spoken_formatting {
            context = context.with_spoken_formatting(spoken_formatting.formatting());
        }
        if self.dictionary.len() > 0 {
            let mut entries: Vec<(String, String)> = Vec::new();
            let mut i: usize = 0;
            while i < self.dictionary.len()
                invariant
                    i <= self.dictionary@.len(),
                    entries@.len() == i,
                    forall|j: int|
                        0 <= j < i ==> (#[trigger] entries@[j]).0@ == self.dictionary@[j].spoken@
                            && entries@[j].1@ == self.dictionary@[j].written@,
                decreases self.dictionary@.len() - i,
            {
                let entry = &self.dictionary[i];
                entries.push((entry.spoken.clone(), entry.written.clone()));
                i = i + 1;
            }
            context = context.with_dictionary(CustomDictionary::from_entries(entries));
        }
        let mut rules: Vec<ReplacementRule> = Vec::new();
        let mut i: usize = 0;
        while i < self.replacements.len()
            invariant
                i <= self.replacements@.len(),
                rules@.len() == i,
                forall|j: int|
                    0 <= j < i ==> (#[trigger] rules@[j]).spoken@ == self.replacements@[j].spoken@
                        && rules@[j].written@ == self.replacements@[j].written@,
            decreases self.replacements@.len() - i,
        {
            let entry = &self.replacements[i];
            rules.push(ReplacementRule::new(entry.spoken.clone(), entry.written.clone()));
            i = i + 1;
        }
        if rules.len() > 0 {
            context = context.with_replacement_rules(rules);
        }
        context
    }

    /// Where dictation is delivered.
    pub fn delivery(&self) -> (r: DeliveryTarget)
        ensures
            r == self.delivery.spec_target(),
    {
        self.delivery.target()
    }
}

impl Default for Settings {
    /// The default model, message mode, no formatting override, no dictionary or
    /// replacements, delivery to stdout.
    fn default() -> (r: Settings)
        ensures
            r.model@ == DEFAULT_MODEL_ID_STR@,
            r.mode == SettingsDictationMode::Message,
            r.spoken_formatting is None,
            r.dictionary@.len() == 0,
            r.replacements@.len() == 0,
            r.delivery == SettingsDeliveryTarget::Stdout,
    {
        Settings {
            model: String::from_str(default_model().id().as_str()),
            mode: SettingsDictationMode::Message,
            spoken_formatting: None,
            dictionary: Vec::new(),
            replacements: Vec::new(),
            delivery: SettingsDeliveryTarget::Stdout,
        }
    }
}

/// Example lines of a valid settings file.
pub fn valid_setting_examples() -> (r: &'static str)
    ensures
        r@ == "model = \"whisper-base-en\", mode = \"message\", delivery = \"stdout\""@,
{
    "model = \"whisper-base-en\", mode = \"message\", delivery = \"stdout\""
}

/// The settings that a settings file gave: no file means the defaults; parsed settings
/// are kept only when their model is in the catalog, and otherwise the error names
/// the file.
pub fn settings_from_file(path: &str, parsed: Option<Settings>) -> (r: Result<Settings, String>)
    ensures
        parsed is None ==> (r matches Ok(s) && s.model@ == DEFAULT_MODEL_ID_STR@
            && s.mode == SettingsDictationMode::Message && s.delivery
            == SettingsDeliveryTarget::Stdout),
        parsed matches Some(s) ==> (r is Ok <==> spec_model_by_id(s.model@) is Some),
        parsed matches Some(s) ==> (r matches Ok(t) ==> t == s),
        parsed matches Some(s) ==> (r matches Err(m) ==> m@ == "invalid settings file "@
            + path@ + ": "@ + spec_unknown_model_message(s.model@)),
        r matches Ok(s) ==> spec_model_by_id(s.model@) is Some,
{
    proof {
        lemma_default_model_is_in_catalog();
    }
    match parsed {
        None => Ok(Settings::default()),
        Some(settings) => match settings.model() {
            Ok(_) => Ok(settings),
            Err(message) => {
                let mut out = String::from_str("invalid settings file ");
                out.append(path);
                out.append(": ");
                out.append(message.as_str());
                Err(out)
            },
        },
    }
}

} // verus!
