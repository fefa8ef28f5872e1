//! The command for the model of the `insanely-fast-whisper` program.

use vstd::prelude::*;

use crate::settings::AppSettings;

verus! {

/// Selects the model; an empty one goes back to the default.
pub fn change_insanely_fast_whisper_model_setting(settings: &mut AppSettings, model: String)
    ensures
        *final(settings) == (AppSettings {
            insanely_fast_whisper_model: if model@.len() == 0 {
                None
            } else {
                Some(model)
            },
            ..*old(settings)
        }),
{
    settings.insanely_fast_whisper_model =
    if model.as_str().unicode_len() == 0 {
        None
    } else {
        Some(model)
    };
}

} // verus!
