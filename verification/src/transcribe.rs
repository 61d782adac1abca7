//! The transcription step as far as it can be decided without running the
//! tool: the command line that the tool is given, and what is made of the
//! way its run ended.

use vstd::prelude::*;
use vstd::string::StringExecFns;
use crate::queue::names_of;

verus! {

/// The program that transcribes.
pub open spec fn spec_tool_name() -> Seq<char> {
    "whisper-cli"@
}

/// The path of the model inside the model directory.
pub open spec fn spec_model_path(modeldir: Seq<char>) -> Seq<char> {
    modeldir + "/ggml-large-v3.bin"@
}

/// The arguments of the tool: the language, the model, then the audio file.
pub open spec fn spec_tool_args(language: Seq<char>, modeldir: Seq<char>, input: Seq<char>) -> Seq<
    Seq<char>,
> {
    seq!["-l"@, language, "-m"@, spec_model_path(modeldir), input]
}

/// The name of the program that transcribes.
pub fn tool_name() -> (name: String)
    ensures
        name@ == spec_tool_name(),
{
    String::from_str("whisper-cli")
}

/// The path of the model inside the model directory `modeldir`.
pub fn model_path(modeldir: &str) -> (path: String)
    ensures
        path@ == spec_model_path(modeldir@),
{
    String::from_str(modeldir).concat("/ggml-large-v3.bin")
}

/// The arguments that the tool is run with to transcribe the audio file
/// `input` in the language `language` with the model in `modeldir`.
pub fn tool_args(language: &str, modeldir: &str, input: &str) -> (args: Vec<String>)
    ensures
        names_of(args@) == spec_tool_args(language@, modeldir@, input@),
{
    let mut args: Vec<String> = Vec::new();
    args.push(String::from_str("-l"));
    args.push(String::from_str(language));
    args.push(String::from_str("-m"));
    args.push(model_path(modeldir));
    args.push(String::from_str(input));
    assert(names_of(args@) =~= spec_tool_args(language@, modeldir@, input@));
    args
}

/// How a run of the tool ended.
#[derive(Clone, Copy, Debug, PartialEq, Eq, Structural)]
pub enum ToolOutcome {
    /// The tool could not be started.
    SpawnFailed,
    /// The tool was started and its output could not be collected.
    WaitFailed,
    /// The tool ran to its end; `success` tells whether its exit status was
    /// zero.
    Exited { success: bool },
}

/// What is made of a run of the tool.
#[derive(Clone, Copy, Debug, PartialEq, Eq, Structural)]
pub enum Verdict {
    /// The transcript and the log are kept.
    Transcribed,
    /// The transcript and the log are kept, and a warning is due: the tool
    /// exited with a status other than zero.
    TranscribedWithWarning,
    /// Nothing is kept and an error is due.
    Failed,
}

/// What is made of a run that ended in `outcome`.
pub open spec fn spec_verdict(outcome: ToolOutcome) -> Verdict {
    match outcome {
        ToolOutcome::Exited { success } => if success {
            Verdict::Transcribed
        } else {
            Verdict::TranscribedWithWarning
        },
        _ => Verdict::Failed,
    }
}

/// Whether the tool's output is persisted after a run that ended in
/// `outcome`: whenever the tool ran to its end, whatever its exit status.
pub open spec fn spec_keeps_output(outcome: ToolOutcome) -> bool {
    outcome is Exited
}

/// Judges a run of the tool. An exit status other than zero is a warning,
/// not a failure; only a tool that could not be run or awaited fails.
pub fn verdict(outcome: ToolOutcome) -> (v: Verdict)
    ensures
        v == spec_verdict(outcome),
        (v != Verdict::Failed) == spec_keeps_output(outcome),
{
    match outcome {
        ToolOutcome::Exited { success } => {
            if success {
                Verdict::Transcribed
            } else {
                Verdict::TranscribedWithWarning
            }
        },
        ToolOutcome::SpawnFailed => Verdict::Failed,
        ToolOutcome::WaitFailed => Verdict::Failed,
    }
}

} // verus!
