use vstd::prelude::*;
use crate::manifest::{manifest_contents, manifest_of};
use crate::stitch::{manifest_path, manifest_path_text, tool_args, tool_arguments};

verus! {

/// Why a run stopped without an output file.
#[derive(Clone, Debug, PartialEq, Eq)]
pub enum RunError {
    /// No candidate binary worked; the report names the paths checked.
    NoBinary(String),
    /// The local time has no date, so no default output name can be made.
    NoTimestamp,
    /// Discovery gave no files.
    NoFiles,
    /// The manifest could not be written; the cause as text.
    ManifestNotWritten(String),
    /// The tool could not be started; the cause as text.
    ToolNotStarted(String),
    /// The tool exited with a failure; its exit status as text.
    ToolFailed(String),
    /// The manifest could not be removed after the tool ran; the cause as text.
    ManifestNotRemoved(String),
}

/// The text of the message for an error.
pub open spec fn error_text(e: RunError) -> Seq<char> {
    match e {
        RunError::NoBinary(m) => m@,
        RunError::NoTimestamp => "the local time has no date to name the output file"@,
        RunError::NoFiles => "found no files!"@,
        RunError::ManifestNotWritten(d) => "failed to write lines to the temp file!: "@ + d@,
        RunError::ToolNotStarted(d) => "did not concatenate the files: ffmpeg command failed: "@ + d@,
        RunError::ToolFailed(d) => "did not concatenate the files: exit not ok: "@ + d@,
        RunError::ManifestNotRemoved(d) => "failed to clean up the temporary file! "@ + d@,
    }
}

impl RunError {
    /// A message for the user.
    pub fn message(&self) -> (r: String)
        ensures
            r@ == error_text(*self),
    {
        match self {
            RunError::NoBinary(m) => m.clone(),
            RunError::NoTimestamp => String::from_str("the local time has no date to name the output file"),
            RunError::NoFiles => String::from_str("found no files!"),
            RunError::ManifestNotWritten(d) => {
                let mut r = String::from_str("failed to write lines to the temp file!: ");
                r.append(d.as_str());
                r
            },
            RunError::ToolNotStarted(d) => {
                let mut r = String::from_str("did not concatenate the files: ffmpeg command failed: ");
                r.append(d.as_str());
                r
            },
            RunError::ToolFailed(d) => {
                let mut r = String::from_str("did not concatenate the files: exit not ok: ");
                r.append(d.as_str());
                r
            },
            RunError::ManifestNotRemoved(d) => {
                let mut r = String::from_str("failed to clean up the temporary file! ");
                r.append(d.as_str());
                r
            },
        }
    }
}

/// Everything a stitch needs: the tool, the manifest's path and text, the
/// tool's arguments, and the output path.
pub struct StitchPlan {
    pub program: String,
    pub manifest_path: String,
    pub manifest: String,
    pub args: Vec<String>,
    pub output: String,
}

/// The plan for joining `files` into `output` with the tool at `program`.
pub open spec fn plan_fits(
    plan: StitchPlan,
    program: Seq<char>,
    output: Seq<char>,
    files: Seq<Seq<char>>,
) -> bool {
    &&& plan.program@ == program
    &&& plan.manifest_path@ == manifest_path_text()
    &&& plan.manifest@ == manifest_of(files)
    &&& plan.args.deep_view() == tool_args(manifest_path_text(), output)
    &&& plan.output@ == output
}

/// Plans the stitch of `files` into `output` with the tool at `program`. With
/// no files there is nothing to stitch and no manifest to write: the run
/// stops with `NoFiles`.
pub fn plan_stitch(program: String, output: String, files: &Vec<String>) -> (r: Result<
    StitchPlan,
    RunError,
>)
    ensures
        files@.len() == 0 ==> r == Err::<StitchPlan, RunError>(RunError::NoFiles),
        files@.len() > 0 ==> (r matches Ok(plan) && plan_fits(plan, program@, output@, files.deep_view())),
{
    if files.len() == 0 {
        return Err(RunError::NoFiles);
    }
    let mpath = manifest_path();
    let args = tool_arguments(mpath.as_str(), output.as_str());
    let manifest = manifest_contents(files);
    Ok(StitchPlan { program, manifest_path: mpath, manifest, args, output })
}

/// How the tool's run went.
#[derive(PartialEq, Eq, Structural, Clone, Copy, Debug)]
pub enum ToolOutcome {
    /// It exited with status 0.
    Succeeded,
    /// It exited with another status.
    Failed,
    /// It could not be started.
    NotStarted,
}

/// Where a stitch stands.
#[derive(PartialEq, Eq, Structural, Clone, Copy, Debug)]
pub enum StitchStage {
    /// The manifest is being written.
    WritingManifest,
    /// The tool runs.
    RunningTool,
    /// The manifest is being removed after the tool ran as given.
    RemovingManifest(ToolOutcome),
    /// Nothing is left to do.
    Done,
}

/// What is reported back to a stitch.
#[derive(PartialEq, Eq, Structural, Clone, Copy, Debug)]
pub enum StitchEvent {
    /// The manifest was written, or not.
    Written(bool),
    /// The tool's run ended so.
    ToolEnded(ToolOutcome),
    /// The manifest was removed, or not.
    Removed(bool),
}

/// How a stitch ended.
#[derive(PartialEq, Eq, Structural, Clone, Copy, Debug)]
pub enum Ending {
    /// The output file was made and the manifest removed.
    Stitched,
    ManifestNotWritten,
    ToolNotStarted,
    ToolFailed,
    ManifestNotRemoved,
}

/// What a stitch asks to be done next.
#[derive(PartialEq, Eq, Structural, Clone, Copy, Debug)]
pub enum StitchAction {
    /// Run the plan's program with the plan's arguments and wait for it.
    RunTool,
    /// Remove the file at the plan's manifest path.
    RemoveManifest,
    /// Stop, ending so.
    Finish(Ending),
    /// The event does not belong to this stage; nothing is done.
    Ignore,
}

/// How a stitch ends after the tool ran as `tool` and the removal of the
/// manifest succeeded or not: a tool that failed or did not start decides the
/// ending; after a good run, a manifest left behind does.
pub open spec fn ending_after(tool: ToolOutcome, removed: bool) -> Ending {
    match tool {
        ToolOutcome::NotStarted => Ending::ToolNotStarted,
        ToolOutcome::Failed => Ending::ToolFailed,
        ToolOutcome::Succeeded => if removed {
            Ending::Stitched
        } else {
            Ending::ManifestNotRemoved
        },
    }
}

/// One step of a stitch: the stage it moves to and what is to be done. A
/// stitch begins in `WritingManifest`, by writing the plan's manifest.
pub open spec fn stitch_next(stage: StitchStage, event: StitchEvent) -> (StitchStage, StitchAction) {
    match (stage, event) {
        (StitchStage::WritingManifest, StitchEvent::Written(true)) => (StitchStage::RunningTool, StitchAction::RunTool),
        (StitchStage::WritingManifest, StitchEvent::Written(false)) => (
            StitchStage::Done,
            StitchAction::Finish(Ending::ManifestNotWritten),
        ),
        (StitchStage::RunningTool, StitchEvent::ToolEnded(o)) => (
            StitchStage::RemovingManifest(o),
            StitchAction::RemoveManifest,
        ),
        (StitchStage::RemovingManifest(o), StitchEvent::Removed(ok)) => (
            StitchStage::Done,
            StitchAction::Finish(ending_after(o, ok)),
        ),
        _ => (stage, StitchAction::Ignore),
    }
}

/// The step of a stitch from `stage` on `event`, as `stitch_next` gives it.
pub fn stitch_step(stage: StitchStage, event: StitchEvent) -> (r: (StitchStage, StitchAction))
    ensures
        r == stitch_next(stage, event),
{
    match (stage, event) {
        (StitchStage::WritingManifest, StitchEvent::Written(true)) => (StitchStage::RunningTool, StitchAction::RunTool),
        (StitchStage::WritingManifest, StitchEvent::Written(false)) => (
            StitchStage::Done,
            StitchAction::Finish(Ending::ManifestNotWritten),
        ),
        (StitchStage::RunningTool, StitchEvent::ToolEnded(o)) => (
            StitchStage::RemovingManifest(o),
            StitchAction::RemoveManifest,
        ),
        (StitchStage::RemovingManifest(o), StitchEvent::Removed(ok)) => {
            let ending = match o {
                ToolOutcome::NotStarted => Ending::ToolNotStarted,
                ToolOutcome::Failed => Ending::ToolFailed,
                ToolOutcome::Succeeded => if ok {
                    Ending::Stitched
                } else {
                    Ending::ManifestNotRemoved
                },
            };
            (StitchStage::Done, StitchAction::Finish(ending))
        },
        _ => (stage, StitchAction::Ignore),
    }
}

/// What a stitch that ended so returns: the output path, or the error with
/// the cause as text: `remove_detail` where the manifest was not removed,
/// `detail` (of the write or of the tool) otherwise.
pub open spec fn result_of(ending: Ending, output: String, detail: String, remove_detail: String) -> Result<
    String,
    RunError,
> {
    match ending {
        Ending::Stitched => Ok(output),
        Ending::ManifestNotWritten => Err(RunError::ManifestNotWritten(detail)),
        Ending::ToolNotStarted => Err(RunError::ToolNotStarted(detail)),
        Ending::ToolFailed => Err(RunError::ToolFailed(detail)),
        Ending::ManifestNotRemoved => Err(RunError::ManifestNotRemoved(remove_detail)),
    }
}

/// The result of a stitch that ended so, as `result_of` gives it.
pub fn stitch_result(ending: Ending, output: String, detail: String, remove_detail: String) -> (r:
    Result<String, RunError>)
    ensures
        r == result_of(ending, output, detail, remove_detail),
{
    match ending {
        Ending::Stitched => Ok(output),
        Ending::ManifestNotWritten => Err(RunError::ManifestNotWritten(detail)),
        Ending::ToolNotStarted => Err(RunError::ToolNotStarted(detail)),
        Ending::ToolFailed => Err(RunError::ToolFailed(detail)),
        Ending::ManifestNotRemoved => Err(RunError::ManifestNotRemoved(remove_detail)),
    }
}

/// Once the manifest is written the tool runs, and however the tool's run
/// ends, removing the manifest comes next; the stitch succeeds exactly when
/// the tool succeeded and the manifest was removed.
pub proof fn lemma_stitch_removes_manifest(tool: ToolOutcome, removed: bool)
    ensures
        stitch_next(StitchStage::WritingManifest, StitchEvent::Written(true)) == (
            StitchStage::RunningTool,
            StitchAction::RunTool,
        ),
        stitch_next(StitchStage::RunningTool, StitchEvent::ToolEnded(tool)).1
            == StitchAction::RemoveManifest,
        stitch_next(
            stitch_next(StitchStage::RunningTool, StitchEvent::ToolEnded(tool)).0,
            StitchEvent::Removed(removed),
        ) == (StitchStage::Done, StitchAction::Finish(ending_after(tool, removed))),
        (ending_after(tool, removed) == Ending::Stitched) == (tool == ToolOutcome::Succeeded
            && removed),
{
}

/// A stitch that could not write its manifest stops there: the tool does not
/// run.
pub proof fn lemma_no_tool_without_manifest()
    ensures
        stitch_next(StitchStage::WritingManifest, StitchEvent::Written(false)) == (
            StitchStage::Done,
            StitchAction::Finish(Ending::ManifestNotWritten),
        ),
{
}

} // verus!
