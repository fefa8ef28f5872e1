//! The commands that transcribe a recording of the history again.

use vstd::prelude::*;

use crate::settings::{request_language, AppSettings, RecordingRetentionPeriod};
use crate::text::{clone_texts, same_text, split_first};
use crate::transcription::slot::RestoreOutcome;
use crate::transcription::types::{
    TranscriptionError, TranscriptionRequest, TranscriptionTargetId,
};

verus! {

/// The answer to a reprocessing that succeeded. A model that could not be
/// restored is an error even so: the state of the local model is then unknown.
/// A newer selection that kept the restore from happening is none.
pub fn finalize_reprocess(new_text: String, restore_outcome: RestoreOutcome) -> (r: Result<
    String,
    String,
>)
    ensures
        match restore_outcome {
            RestoreOutcome::Failed(_) => r is Err && r->Err_0@
                == "Failed to restore the previous local model state"@,
            _ => r == Ok::<String, String>(new_text),
        },
{
    match restore_outcome {
        RestoreOutcome::Restored | RestoreOutcome::Superseded => Ok(new_text),
        RestoreOutcome::Failed(_) => {
            Err("Failed to restore the previous local model state".to_owned())
        },
    }
}

/// The error of a reprocessing that failed.
pub open spec fn reprocess_error(primary: Seq<char>, restore_failed: bool) -> Seq<char> {
    if restore_failed {
        primary + "; additionally failed to restore the previous local model state"@
    } else {
        primary
    }
}

/// The answer to a reprocessing that failed. A model that could not be restored
/// either is never passed over.
pub fn finalize_reprocess_error(primary_error: String, restore_outcome: RestoreOutcome) -> (r:
    Result<String, String>)
    ensures
        r is Err,
        r->Err_0@ == reprocess_error(primary_error@, restore_outcome is Failed),
        restore_outcome !is Failed ==> r == Err::<String, String>(primary_error),
        restore_outcome is Failed ==> r->Err_0@ == primary_error@
            + "; additionally failed to restore the previous local model state"@,
{
    match restore_outcome {
        RestoreOutcome::Failed(_) => {
            let mut text: String = primary_error;
            text.append("; additionally failed to restore the previous local model state");
            Err(text)
        },
        RestoreOutcome::Restored | RestoreOutcome::Superseded => Err(primary_error),
    }
}

/// The entry and the recording to reprocess, as far as they were found.
#[derive(Debug)]
pub enum RecordingLookup {
    /// The history could not be read; the reason.
    HistoryFailed(String),
    NoEntry,
    NoAudioFile,
    /// The recording could not be read; the reason.
    AudioFailed(String),
    Found,
}

/// Why a reprocessing cannot start, if it cannot.
pub fn check_reprocess(lookup: RecordingLookup) -> (r: Result<(), String>)
    ensures
        match lookup {
            RecordingLookup::HistoryFailed(error) => r == Err::<(), String>(error),
            RecordingLookup::NoEntry => r is Err && r->Err_0@ == "History entry not found"@,
            RecordingLookup::NoAudioFile => r is Err && r->Err_0@ == "Audio file not found"@,
            RecordingLookup::AudioFailed(error) => r == Err::<(), String>(error),
            RecordingLookup::Found => r is Ok,
        },
{
    match lookup {
        RecordingLookup::HistoryFailed(error) => Err(error),
        RecordingLookup::NoEntry => Err("History entry not found".to_owned()),
        RecordingLookup::NoAudioFile => Err("Audio file not found".to_owned()),
        RecordingLookup::AudioFailed(error) => Err(error),
        RecordingLookup::Found => Ok(()),
    }
}

/// The answer to a reprocessing: what was transcribed, whether the history took
/// it, and what became of the ticket, which is resolved in every case.
pub fn finish_reprocess(
    transcribed: Result<String, TranscriptionError>,
    updated: Result<(), String>,
    restore_outcome: RestoreOutcome,
) -> (r: Result<String, String>)
    ensures
        match transcribed {
            Err(error) => r is Err && r->Err_0@ == reprocess_error(
                crate::transcription::types::category_of(error@),
                restore_outcome is Failed,
            ),
            Ok(text) => match updated {
                Err(error) => r is Err && r->Err_0@ == reprocess_error(
                    error@,
                    restore_outcome is Failed,
                ),
                Ok(_) => match restore_outcome {
                    RestoreOutcome::Failed(_) => r is Err && r->Err_0@
                        == "Failed to restore the previous local model state"@,
                    _ => r == Ok::<String, String>(text),
                },
            },
        },
        r is Ok <==> transcribed is Ok && updated is Ok && restore_outcome !is Failed,
        r is Ok ==> r->Ok_0 == transcribed->Ok_0,
{
    match transcribed {
        Err(error) => finalize_reprocess_error(error.category().to_owned(), restore_outcome),
        Ok(text) => match updated {
            Err(error) => finalize_reprocess_error(error, restore_outcome),
            Ok(_) => finalize_reprocess(text, restore_outcome),
        },
    }
}

/// The entry of a failed cloud transcription, as far as it was found.
#[derive(Debug)]
pub enum EntryLookup {
    ReadFailed,
    NotFound,
    /// The `provider/model` that the entry was made with, if it says so.
    Found(Option<String>),
}

/// The target that a model name stands for: what is in front of its first slash
/// and what is behind it, neither empty.
pub open spec fn names_target(
    model_name: Seq<char>,
    target: crate::transcription::types::TargetView,
) -> bool {
    let at = target.provider_id.len() as int;
    &&& crate::text::first_at(model_name, '/', at)
    &&& target.provider_id == model_name.take(at)
    &&& target.model_id == model_name.skip(at + 1)
    &&& target.provider_id.len() > 0
    &&& target.model_id.len() > 0
}

/// A model name stands for one target only.
pub proof fn a_name_stands_for_one_target(
    model_name: Seq<char>,
    a: crate::transcription::types::TargetView,
    b: crate::transcription::types::TargetView,
)
    requires
        names_target(model_name, a),
        names_target(model_name, b),
    ensures
        a == b,
{
    let i = a.provider_id.len() as int;
    let j = b.provider_id.len() as int;
    if i < j {
        assert(model_name[i] != '/');
    } else if j < i {
        assert(model_name[j] != '/');
    }
}

/// What a retry answers about its target.
pub open spec fn retry_target_answer(
    lookup: EntryLookup,
    r: Result<TranscriptionTargetId, String>,
) -> bool {
    match lookup {
        EntryLookup::ReadFailed => r is Err && r->Err_0@ == "history_read_failed"@,
        EntryLookup::NotFound => r is Err && r->Err_0@ == "history_entry_not_found"@,
        EntryLookup::Found(None) => r is Err && r->Err_0@ == "cloud_target_missing"@,
        EntryLookup::Found(Some(name)) => match r {
            Ok(target) => names_target(name@, target@) && target@.provider_id != "local"@,
            Err(error) => {
                ||| error@ == "cloud_target_invalid"@ && forall|t|
                    !#[trigger] names_target(name@, t)
                ||| error@ == "cloud_target_required"@ && exists|t|
                    #[trigger] names_target(name@, t) && t.provider_id == "local"@
            },
        },
    }
}

/// The target of a retry: the cloud target that the entry was made with. A
/// retry never falls back to a local model.
pub fn retry_cloud_target(lookup: EntryLookup) -> (r: Result<TranscriptionTargetId, String>)
    ensures
        retry_target_answer(lookup, r),
        lookup is ReadFailed ==> r is Err && r->Err_0@ == "history_read_failed"@,
        lookup is NotFound ==> r is Err && r->Err_0@ == "history_entry_not_found"@,
        lookup matches EntryLookup::Found(None) ==> r is Err && r->Err_0@
            == "cloud_target_missing"@,
        r matches Ok(target) ==> {
            &&& target.provider_id@ != "local"@
            &&& target.provider_id@.len() > 0
            &&& target.model_id@.len() > 0
            &&& !target.provider_id@.contains('/')
            &&& lookup matches EntryLookup::Found(Some(name))
            &&& name@ == target.provider_id@.push('/') + target.model_id@
        },
{
    let name: String = match lookup {
        EntryLookup::ReadFailed => {
            return Err("history_read_failed".to_owned());
        },
        EntryLookup::NotFound => {
            return Err("history_entry_not_found".to_owned());
        },
        EntryLookup::Found(None) => {
            return Err("cloud_target_missing".to_owned());
        },
        EntryLookup::Found(Some(name)) => name,
    };
    match split_first(name.as_str(), '/') {
        Some((provider, model)) => {
            if provider.unicode_len() == 0 || model.unicode_len() == 0 {
                proof {
                    assert forall|t: crate::transcription::types::TargetView|
                        !#[trigger] names_target(name@, t) by {
                        if names_target(name@, t) {
                            let i = t.provider_id.len() as int;
                            let j = provider@.len() as int;
                            if i < j {
                                assert(name@[i] != '/');
                            } else if j < i {
                                assert(name@[j] != '/');
                            }
                        }
                    }
                }
                return Err("cloud_target_invalid".to_owned());
            }
            let target = TranscriptionTargetId::new(provider, model);
            proof {
                assert(names_target(name@, target@));
                assert(name@ =~= provider@.push('/') + model@);
                assert forall|i: int| 0 <= i < provider@.len() implies provider@[i] != '/' by {
                    assert(name@[i] != '/');
                }
            }
            if same_text(provider, "local") {
                return Err("cloud_target_required".to_owned());
            }
            Ok(target)
        },
        None => {
            proof {
                assert forall|t: crate::transcription::types::TargetView|
                    !#[trigger] names_target(name@, t) by {
                    if names_target(name@, t) {
                        assert(name@.contains(name@[t.provider_id.len() as int]));
                    }
                }
            }
            Err("cloud_target_invalid".to_owned())
        },
    }
}

/// The recording of an entry, as far as it was found.
#[derive(Debug)]
pub enum AudioLookup {
    NotFound,
    ReadFailed,
    Samples(Vec<i16>),
}

/// What a retry hands to the transcription service.
#[derive(Debug)]
pub struct RetryRequest {
    pub accepted_consent_version: u32,
    pub request: TranscriptionRequest,
}

/// The consent version that was accepted for a provider; 0 where none was.
pub open spec fn accepted_version(consents: Map<Seq<char>, u32>, provider_id: Seq<char>) -> u32 {
    if consents.dom().contains(provider_id) {
        consents[provider_id]
    } else {
        0
    }
}

/// The request of a retry, with the current language, words and consent.
pub fn retry_cloud_request(
    target: &TranscriptionTargetId,
    audio: AudioLookup,
    settings: &AppSettings,
) -> (r: Result<RetryRequest, String>)
    ensures
        match audio {
            AudioLookup::NotFound => r is Err && r->Err_0@ == "audio_file_not_found"@,
            AudioLookup::ReadFailed => r is Err && r->Err_0@ == "audio_read_failed"@,
            AudioLookup::Samples(samples) => {
                &&& r is Ok
                &&& r->Ok_0.accepted_consent_version == accepted_version(
                    settings.cloud_provider_consents@,
                    target@.provider_id,
                )
                &&& r->Ok_0.request.audio_16khz_mono == samples
                &&& crate::text::optional_text(r->Ok_0.request.language)
                    == crate::settings::requested_language(settings.selected_language@)
                &&& r->Ok_0.request.custom_words@ == settings.custom_words@
            },
        },
        r matches Ok(retry) ==> {
            &&& settings.cloud_provider_consents@.dom().contains(target.provider_id@)
                ==> retry.accepted_consent_version
                == settings.cloud_provider_consents@[target.provider_id@]
            &&& !settings.cloud_provider_consents@.dom().contains(target.provider_id@)
                ==> retry.accepted_consent_version == 0
            &&& retry.request.language is None <==> settings.selected_language@ == "auto"@
            &&& retry.request.language matches Some(asked) ==> asked@ == (
            if settings.selected_language@ == "zh-Hans"@ || settings.selected_language@
                == "zh-Hant"@ {
                "zh"@
            } else {
                settings.selected_language@
            })
        },
{
    let samples: Vec<i16> = match audio {
        AudioLookup::NotFound => {
            return Err("audio_file_not_found".to_owned());
        },
        AudioLookup::ReadFailed => {
            return Err("audio_read_failed".to_owned());
        },
        AudioLookup::Samples(samples) => samples,
    };
    let accepted_consent_version: u32 = match settings.cloud_provider_consents.get(
        &target.provider_id,
    ) {
        Some(version) => *version,
        None => 0,
    };
    Ok(
        RetryRequest {
            accepted_consent_version,
            request: TranscriptionRequest {
                audio_16khz_mono: samples,
                language: request_language(settings.selected_language.as_str()),
                custom_words: clone_texts(&settings.custom_words),
            },
        },
    )
}

/// The answer to a retry: the final text, once the history took it.
pub fn finish_cloud_retry(
    transcribed: Result<String, TranscriptionError>,
    history_took_it: bool,
) -> (r: Result<String, String>)
    ensures
        match transcribed {
            Err(error) => r is Err && r->Err_0@ == crate::transcription::types::category_of(error@),
            Ok(text) => if history_took_it {
                r == Ok::<String, String>(text)
            } else {
                r is Err && r->Err_0@ == "history_update_failed"@
            },
        },
{
    match transcribed {
        Err(error) => Err(error.category().to_owned()),
        Ok(text) => {
            if history_took_it {
                Ok(text)
            } else {
                Err("history_update_failed".to_owned())
            }
        },
    }
}

/// The period that a text stands for.
pub open spec fn period_of(text: Seq<char>) -> Option<RecordingRetentionPeriod> {
    if text == "never"@ {
        Some(RecordingRetentionPeriod::Never)
    } else if text == "preserve_limit"@ {
        Some(RecordingRetentionPeriod::PreserveLimit)
    } else if text == "days3"@ {
        Some(RecordingRetentionPeriod::Days3)
    } else if text == "weeks2"@ {
        Some(RecordingRetentionPeriod::Weeks2)
    } else if text == "months3"@ {
        Some(RecordingRetentionPeriod::Months3)
    } else {
        None
    }
}

fn parse_retention_period(period: &str) -> (r: Option<RecordingRetentionPeriod>)
    ensures
        r == period_of(period@),
{
    if same_text(period, "never") {
        Some(RecordingRetentionPeriod::Never)
    } else if same_text(period, "preserve_limit") {
        Some(RecordingRetentionPeriod::PreserveLimit)
    } else if same_text(period, "days3") {
        Some(RecordingRetentionPeriod::Days3)
    } else if same_text(period, "weeks2") {
        Some(RecordingRetentionPeriod::Weeks2)
    } else if same_text(period, "months3") {
        Some(RecordingRetentionPeriod::Months3)
    } else {
        None
    }
}

/// Sets how long recordings are kept.
pub fn update_recording_retention_period(settings: &mut AppSettings, period: &str) -> (r: Result<
    (),
    String,
>)
    ensures
        match period_of(period@) {
            Some(chosen) => r is Ok && *final(settings) == (AppSettings {
                recording_retention_period: chosen,
                ..*old(settings)
            }),
            None => r is Err && r->Err_0@ == "Invalid retention period: "@ + period@
                && *final(settings) == *old(settings),
        },
        r is Ok <==> period@ == "never"@ || period@ == "preserve_limit"@ || period@ == "days3"@
            || period@ == "weeks2"@ || period@ == "months3"@,
        period@ == "never"@ ==> final(settings).recording_retention_period
            == RecordingRetentionPeriod::Never,
        period@ == "preserve_limit"@ ==> final(settings).recording_retention_period
            == RecordingRetentionPeriod::PreserveLimit,
        period@ == "days3"@ ==> final(settings).recording_retention_period
            == RecordingRetentionPeriod::Days3,
        period@ == "weeks2"@ ==> final(settings).recording_retention_period
            == RecordingRetentionPeriod::Weeks2,
        period@ == "months3"@ ==> final(settings).recording_retention_period
            == RecordingRetentionPeriod::Months3,
{
    proof {
        each_period_has_its_name(period@);
    }
    match parse_retention_period(period) {
        Some(chosen) => {
            settings.recording_retention_period = chosen;
            Ok(())
        },
        None => {
            let mut text: String = "Invalid retention period: ".to_owned();
            text.append(period);
            Err(text)
        },
    }
}

/// Sets how many entries the history keeps.
pub fn update_history_limit(settings: &mut AppSettings, limit: usize)
    ensures
        *final(settings) == (AppSettings { history_limit: limit, ..*old(settings) }),
{
    settings.history_limit = limit;
}

/// The error of a reprocessing that failed always starts with its own cause; that
/// the model could not be restored either is added, never put in its place.
pub proof fn a_failed_restore_is_added(primary: Seq<char>)
    ensures
        reprocess_error(primary, false) == primary,
        reprocess_error(primary, true) == primary
            + "; additionally failed to restore the previous local model state"@,
        crate::text::starts_with(reprocess_error(primary, true), primary),
{
    crate::text::a_text_holds_what_stands_between(
        Seq::empty(),
        primary,
        "; additionally failed to restore the previous local model state"@,
    );
}

/// A provider and a model, neither empty and the provider without a slash, can
/// be told from their name, also where the model has slashes of its own.
pub proof fn a_name_is_split_at_its_first_slash(provider_id: Seq<char>, model_id: Seq<char>)
    requires
        provider_id.len() > 0,
        model_id.len() > 0,
        !provider_id.contains('/'),
    ensures
        names_target(
            provider_id.push('/') + model_id,
            crate::transcription::types::TargetView { provider_id, model_id },
        ),
{
    let name = provider_id.push('/') + model_id;
    let at = provider_id.len() as int;
    assert(name[at] == '/');
    assert forall|i: int| 0 <= i < at implies #[trigger] name[i] != '/' by {
        assert(name[i] == provider_id[i]);
        assert(provider_id.contains(provider_id[i]));
    }
    assert(name.take(at) == provider_id);
    assert(name.skip(at + 1) == model_id);
}

/// What a name stands for makes up the name: the provider, a slash, the model.
pub proof fn a_target_makes_up_its_name(
    model_name: Seq<char>,
    target: crate::transcription::types::TargetView,
)
    requires
        names_target(model_name, target),
    ensures
        model_name == target.provider_id.push('/') + target.model_id,
        target.provider_id.len() > 0,
        target.model_id.len() > 0,
        !target.provider_id.contains('/'),
{
    let at = target.provider_id.len() as int;
    assert(model_name =~= target.provider_id.push('/') + target.model_id);
    assert forall|i: int| 0 <= i < at implies target.provider_id[i] != '/' by {
        assert(model_name[i] != '/');
    }
}

/// Without a recorded consent none is claimed; a recorded one is claimed as it
/// is.
pub proof fn a_consent_is_claimed_as_it_is(
    consents: Map<Seq<char>, u32>,
    provider_id: Seq<char>,
    version: u32,
)
    ensures
        accepted_version(consents.insert(provider_id, version), provider_id) == version,
        accepted_version(consents.remove(provider_id), provider_id) == 0,
{
}

/// Each period has one name, and no other text is a period.
pub proof fn each_period_has_its_name(text: Seq<char>)
    ensures
        period_of(text) == Some(RecordingRetentionPeriod::Never) <==> text == "never"@,
        period_of(text) == Some(RecordingRetentionPeriod::PreserveLimit) <==> text
            == "preserve_limit"@,
        period_of(text) == Some(RecordingRetentionPeriod::Days3) <==> text == "days3"@,
        period_of(text) == Some(RecordingRetentionPeriod::Weeks2) <==> text == "weeks2"@,
        period_of(text) == Some(RecordingRetentionPeriod::Months3) <==> text == "months3"@,
{
    reveal_strlit("never");
    reveal_strlit("preserve_limit");
    reveal_strlit("days3");
    reveal_strlit("weeks2");
    reveal_strlit("months3");
    assert("never"@[0] == 'n' && "preserve_limit"@[0] == 'p' && "days3"@[0] == 'd');
    assert("weeks2"@[0] == 'w' && "months3"@[0] == 'm');
}

/// A retry goes to the very cloud target that the entry was made with. It is
/// refused for a name that stands for no target and for a local one, with a
/// text for each, and for nothing else.
pub proof fn a_retry_goes_to_the_target_of_its_entry(
    name: String,
    target: crate::transcription::types::TargetView,
    r: Result<TranscriptionTargetId, String>,
)
    requires
        retry_target_answer(EntryLookup::Found(Some(name)), r),
    ensures
        names_target(name@, target) && target.provider_id != "local"@ ==> r is Ok && r->Ok_0@
            == target,
        names_target(name@, target) && target.provider_id == "local"@ ==> r is Err && r->Err_0@
            == "cloud_target_required"@,
        r is Ok ==> names_target(name@, r->Ok_0@) && r->Ok_0@.provider_id != "local"@,
        (forall|t| !#[trigger] names_target(name@, t)) ==> r is Err && r->Err_0@
            == "cloud_target_invalid"@,
{
    reveal_strlit("cloud_target_invalid");
    reveal_strlit("cloud_target_required");
    assert("cloud_target_invalid"@.len() == 20 && "cloud_target_required"@.len() == 21);
    if names_target(name@, target) {
        match r {
            Ok(found) => {
                a_name_stands_for_one_target(name@, target, found@);
            },
            Err(error) => {
                let lookup = EntryLookup::Found(Some(name));
                assert(names_target(lookup->Found_0->0@, target));
                let t = choose|t: crate::transcription::types::TargetView| #[trigger]
                    names_target(name@, t) && t.provider_id == "local"@;
                a_name_stands_for_one_target(name@, target, t);
            },
        }
    }
}

/// An entry that cannot be used is refused, each with its own text.
pub proof fn a_retry_without_an_entry_is_refused(r: Result<TranscriptionTargetId, String>)
    ensures
        retry_target_answer(EntryLookup::ReadFailed, r) ==> r is Err && r->Err_0@
            == "history_read_failed"@,
        retry_target_answer(EntryLookup::NotFound, r) ==> r is Err && r->Err_0@
            == "history_entry_not_found"@,
        retry_target_answer(EntryLookup::Found(None), r) ==> r is Err && r->Err_0@
            == "cloud_target_missing"@,
{
}

} // verus!
