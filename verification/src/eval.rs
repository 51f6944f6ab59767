//! Choosing the model for a benchmark run: an explicit id overrides the settings.
use vstd::prelude::*;
use vstd::string::StringExecFns;
use crate::models::model_by_id;
use crate::models::spec_catalog;
use crate::models::spec_join_ids;
use crate::models::spec_model_by_id;
use crate::models::valid_model_ids;
use crate::models::ModelCatalogEntry;
use crate::models::DEFAULT_MODEL_ID_STR;
use crate::settings::spec_unknown_model_message;
use crate::settings::Settings;
use crate::strings::debug_quoted;
use crate::strings::debug_quoted_spec;

verus! {

/// The error for an unknown model id given on the command line.
pub open spec fn spec_unknown_override_message(id: Seq<char>) -> Seq<char> {
    "unknown model id "@ + debug_quoted_spec(id) + "; valid model ids: "@ + spec_join_ids(
        spec_catalog(),
    ) + "; example: --model "@ + DEFAULT_MODEL_ID_STR@
}

/// The catalog model with id `model_id`; otherwise an error that lists the valid ids.
pub fn model_by_id_or_error(model_id: &str) -> (r: Result<ModelCatalogEntry, String>)
    ensures
        match spec_model_by_id(model_id@) {
            Some(e) => r == Ok::<ModelCatalogEntry, String>(e),
            None => r matches Err(m) && m@ == spec_unknown_override_message(model_id@),
        },
{
    match model_by_id(model_id) {
        Some(entry) => Ok(entry),
        None => {
            let mut message = String::from_str("unknown model id ");
            message.append(debug_quoted(model_id).as_str());
            message.append("; valid model ids: ");
            message.append(valid_model_ids().as_str());
            message.append("; example: --model ");
            message.append(DEFAULT_MODEL_ID_STR);
            Err(message)
        },
    }
}

/// The model to run: the override when given, the settings' model otherwise.
pub fn selected_model(settings: &Settings, model_override: Option<&str>) -> (r: Result<
    ModelCatalogEntry,
    String,
>)
    ensures
        match model_override {
            Some(id) => match spec_model_by_id(id@) {
                Some(e) => r == Ok::<ModelCatalogEntry, String>(e),
                None => r matches Err(m) && m@ == spec_unknown_override_message(id@),
            },
            None => match spec_model_by_id(settings.model@) {
                Some(e) => r == Ok::<ModelCatalogEntry, String>(e),
                None => r matches Err(m) && m@ == spec_unknown_model_message(settings.model@),
            },
        },
{
    match model_override {
        Some(model_id) => model_by_id_or_error(model_id),
        None => settings.model(),
    }
}

} // verus!
