//! The client of the `insanely-fast-whisper` program: how it is called, and
//! what came of the call.

use vstd::prelude::*;

use crate::settings::request_language;
use crate::text::trim;

verus! {

/// The arguments of the program. A concrete language is passed on, either
/// Chinese script as `zh`; `auto` is left to the program.
pub open spec fn arguments(
    wav_path: Seq<char>,
    model_name: Seq<char>,
    json_path: Seq<char>,
    language: Seq<char>,
) -> Seq<Seq<char>> {
    let fixed = seq![
        "--file-name"@,
        wav_path,
        "--model-name"@,
        model_name,
        "--transcript-path"@,
        json_path,
    ];
    match crate::settings::requested_language(language) {
        Some(lang) => fixed + seq!["--language"@, lang],
        None => fixed,
    }
}

/// The arguments of the program.
pub fn command_arguments(wav_path: &str, model_name: &str, json_path: &str, language: &str) -> (r:
    Vec<String>)
    ensures
        crate::text::texts(r@) == arguments(wav_path@, model_name@, json_path@, language@),
        r@.len() >= 6,
        r@[0]@ == "--file-name"@,
        r@[1]@ == wav_path@,
        r@[2]@ == "--model-name"@,
        r@[3]@ == model_name@,
        r@[4]@ == "--transcript-path"@,
        r@[5]@ == json_path@,
        language@ == "auto"@ ==> r@.len() == 6,
        language@ != "auto"@ ==> {
            &&& r@.len() == 8
            &&& r@[6]@ == "--language"@
            &&& r@[7]@ == (if language@ == "zh-Hans"@ || language@ == "zh-Hant"@ {
                "zh"@
            } else {
                language@
            })
        },
{
    let mut args: Vec<String> = Vec::new();
    args.push("--file-name".to_owned());
    args.push(wav_path.to_owned());
    args.push("--model-name".to_owned());
    args.push(model_name.to_owned());
    args.push("--transcript-path".to_owned());
    args.push(json_path.to_owned());
    match request_language(language) {
        Some(lang) => {
            args.push("--language".to_owned());
            args.push(lang);
        },
        None => {},
    }
    proof {
        assert(crate::text::texts(args@) =~= arguments(
            wav_path@,
            model_name@,
            json_path@,
            language@,
        ));
    }
    args
}

/// What came of running the program.
#[derive(Debug)]
pub enum RunOutcome {
    /// It could not be started; the reason.
    NotStarted(String),
    /// It failed; what it wrote to its error output.
    Failed(String),
    /// Its output file could not be read; the reason.
    OutputMissing(String),
    /// Its output is no transcript; the reason, and the output.
    OutputUnreadable(String, String),
    /// The text of its transcript, if any.
    Transcript(Option<String>),
}

/// The result of a run.
pub open spec fn run_result(outcome: RunOutcome) -> Result<Seq<char>, Seq<char>> {
    match outcome {
        RunOutcome::NotStarted(e) => Err(
            "Failed to run insanely-fast-whisper: "@ + e@
                + ". Make sure it is installed with: pip install insanely-fast-whisper"@,
        ),
        RunOutcome::Failed(stderr) => Err(
            "insanely-fast-whisper failed: "@ + crate::text::trimmed(stderr@),
        ),
        RunOutcome::OutputMissing(e) => Err(
            "Failed to read insanely-fast-whisper output: "@ + e@,
        ),
        RunOutcome::OutputUnreadable(e, raw) => Err(
            "Failed to parse insanely-fast-whisper output: "@ + e@ + ". Raw: "@ + raw@,
        ),
        RunOutcome::Transcript(text) => Ok(
            match text {
                Some(text) => crate::text::trimmed(text@),
                None => ""@,
            },
        ),
    }
}

/// The result of a run: the trimmed transcript, or what went wrong.
pub fn finish_run(outcome: RunOutcome) -> (r: Result<String, String>)
    ensures
        (match r {
            Ok(text) => Ok::<Seq<char>, Seq<char>>(text@),
            Err(error) => Err(error@),
        }) == run_result(outcome),
        r is Ok <==> outcome is Transcript,
        outcome matches RunOutcome::Transcript(Some(text)) ==> r->Ok_0@ == crate::text::trimmed(
            text@,
        ),
        outcome matches RunOutcome::Transcript(None) ==> r->Ok_0@ == ""@,
        outcome matches RunOutcome::NotStarted(e) ==> r->Err_0@
            == "Failed to run insanely-fast-whisper: "@ + e@
            + ". Make sure it is installed with: pip install insanely-fast-whisper"@,
        outcome matches RunOutcome::Failed(stderr) ==> r->Err_0@
            == "insanely-fast-whisper failed: "@ + crate::text::trimmed(stderr@),
        outcome matches RunOutcome::OutputMissing(e) ==> r->Err_0@
            == "Failed to read insanely-fast-whisper output: "@ + e@,
        outcome matches RunOutcome::OutputUnreadable(e, raw) ==> r->Err_0@
            == "Failed to parse insanely-fast-whisper output: "@ + e@ + ". Raw: "@ + raw@,
{
    match outcome {
        RunOutcome::NotStarted(e) => {
            let mut text: String = "Failed to run insanely-fast-whisper: ".to_owned();
            text.append(e.as_str());
            text.append(". Make sure it is installed with: pip install insanely-fast-whisper");
            Err(text)
        },
        RunOutcome::Failed(stderr) => {
            let mut text: String = "insanely-fast-whisper failed: ".to_owned();
            text.append(trim(stderr.as_str()));
            Err(text)
        },
        RunOutcome::OutputMissing(e) => {
            let mut text: String = "Failed to read insanely-fast-whisper output: ".to_owned();
            text.append(e.as_str());
            Err(text)
        },
        RunOutcome::OutputUnreadable(e, raw) => {
            let mut text: String = "Failed to parse insanely-fast-whisper output: ".to_owned();
            text.append(e.as_str());
            text.append(". Raw: ");
            text.append(raw.as_str());
            Err(text)
        },
        RunOutcome::Transcript(text) => match text {
            Some(text) => Ok(trim(text.as_str()).to_owned()),
            None => Ok("".to_owned()),
        },
    }
}

/// Every value follows the option that it belongs to, and a language is named
/// exactly where the selection is not `auto`.
pub proof fn each_option_has_its_value(
    wav_path: Seq<char>,
    model_name: Seq<char>,
    json_path: Seq<char>,
    language: Seq<char>,
)
    ensures
        ({
            let args = arguments(wav_path, model_name, json_path, language);
            &&& args.len() == 6 <==> language == "auto"@
            &&& args.len() == 8 <==> language != "auto"@
            &&& args[0] == "--file-name"@
            &&& args[1] == wav_path
            &&& args[2] == "--model-name"@
            &&& args[3] == model_name
            &&& args[4] == "--transcript-path"@
            &&& args[5] == json_path
            &&& language != "auto"@ ==> args[6] == "--language"@ && Some(args[7])
                == crate::settings::requested_language(language)
        }),
{
    crate::settings::only_auto_asks_for_no_language(language);
}

/// A run succeeds exactly where it leaves a transcript, and an error always says
/// what was reported of it.
pub proof fn a_failed_run_says_why(outcome: RunOutcome)
    ensures
        run_result(outcome) is Ok <==> outcome is Transcript,
        outcome matches RunOutcome::Transcript(Some(text)) ==> run_result(outcome)->Ok_0
            == crate::text::trimmed(text@),
        outcome matches RunOutcome::NotStarted(e) ==> crate::text::contains_text(
            run_result(outcome)->Err_0,
            e@,
        ),
        outcome matches RunOutcome::Failed(stderr) ==> crate::text::contains_text(
            run_result(outcome)->Err_0,
            crate::text::trimmed(stderr@),
        ),
        outcome matches RunOutcome::OutputMissing(e) ==> crate::text::contains_text(
            run_result(outcome)->Err_0,
            e@,
        ),
{
    match outcome {
        RunOutcome::NotStarted(e) => {
            crate::text::a_text_holds_what_stands_between(
                "Failed to run insanely-fast-whisper: "@,
                e@,
                ". Make sure it is installed with: pip install insanely-fast-whisper"@,
            );
        },
        RunOutcome::Failed(stderr) => {
            let detail = crate::text::trimmed(stderr@);
            crate::text::a_text_holds_what_stands_between(
                "insanely-fast-whisper failed: "@,
                detail,
                Seq::empty(),
            );
            assert(run_result(outcome)->Err_0 =~= "insanely-fast-whisper failed: "@ + detail
                + Seq::<char>::empty());
        },
        RunOutcome::OutputMissing(e) => {
            crate::text::a_text_holds_what_stands_between(
                "Failed to read insanely-fast-whisper output: "@,
                e@,
                Seq::empty(),
            );
            assert(run_result(outcome)->Err_0 =~= "Failed to read insanely-fast-whisper output: "@
                + e@ + Seq::<char>::empty());
        },
        _ => {},
    }
}

} // verus!
