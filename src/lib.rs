//! Stitches the audio files of a directory into one file with an external
//! media tool: the decisions of that run, with their contracts.
//!
//! - `discover`: which directory entries are audio files to join.
//! - `manifest`: the text of the list that the tool reads.
//! - `locate`: which candidate binary is taken, one probe at a time.
//! - `stitch`: the tool's arguments, the manifest's place and the output name.
//! - `run`: the plan of a stitch, its steps, and how a run can fail.
pub mod discover;
pub mod locate;
pub mod manifest;
pub mod run;
pub mod stitch;

pub use discover::{filter_supported_extensions, is_supported_extension, select_audio_files};
pub use manifest::manifest_contents;
pub use locate::{locate_next, locate_start, not_found_message, LocateStep};
pub use stitch::{default_output_name, manifest_path, resolve_output_path, tool_arguments};
pub use run::{plan_stitch, stitch_result, stitch_step, Ending, RunError, StitchAction, StitchEvent, StitchPlan, StitchStage, ToolOutcome};
