use stitcher::{
    default_output_name, filter_supported_extensions, is_supported_extension, locate_next,
    locate_start, manifest_contents, manifest_path, not_found_message, plan_stitch,
    resolve_output_path, select_audio_files, stitch_result, stitch_step, tool_arguments, Ending,
    LocateStep, RunError, StitchAction, StitchEvent, StitchStage, ToolOutcome,
};

fn strings(items: &[&str]) -> Vec<String> {
    items.iter().map(|s| s.to_string()).collect()
}

/// Runs the search over `paths`, answering each probe from `probes`, and
/// gives the chosen path or the report, with the positions probed.
fn search(paths: &Vec<String>, probes: &[bool]) -> (Result<String, String>, Vec<usize>) {
    let mut probed = Vec::new();
    let mut step = locate_start(paths.len());
    loop {
        match step {
            LocateStep::Probe(i) => {
                probed.push(i);
                step = locate_next(paths.len(), i, probes[i]);
            }
            LocateStep::Found(i) => return (Ok(paths[i].clone()), probed),
            LocateStep::NotFound => return (Err(not_found_message(paths)), probed),
        }
    }
}

#[test]
pub fn test_filter_supported_extensions() {
    let paths = strings(&["file1.txt", "file2.wav", "file3.mp3", "file4.rs", "file5"]);
    let expected_supported = strings(&["file2.wav", "file3.mp3"]);
    let actual: Vec<String> = paths.into_iter().filter_map(filter_supported_extensions).collect();
    assert!(
        expected_supported.eq(&actual),
        "expected the filtered extensions to match the supported values"
    );
}

#[test]
fn supported_extensions_are_exact_and_case_sensitive() {
    assert!(is_supported_extension("mp3"));
    assert!(is_supported_extension("wav"));
    assert!(!is_supported_extension("WAV"));
    assert!(!is_supported_extension("Mp3"));
    assert!(!is_supported_extension("wave"));
    assert!(!is_supported_extension("wa"));
    assert!(!is_supported_extension(""));
}

#[test]
fn filter_reads_the_last_extension() {
    assert_eq!(filter_supported_extensions("a.txt.wav".to_string()), Some("a.txt.wav".to_string()));
    assert_eq!(filter_supported_extensions("a.wav.txt".to_string()), None);
    assert_eq!(filter_supported_extensions("./dir.wav/noext".to_string()), None);
    assert_eq!(filter_supported_extensions(".wav".to_string()), None);
    assert_eq!(filter_supported_extensions("song.WAV".to_string()), None);
    assert_eq!(filter_supported_extensions("./sounds/b.mp3".to_string()), Some("./sounds/b.mp3".to_string()));
}

#[test]
fn discovery_keeps_audio_files_in_listing_order() {
    let entries = vec![
        (Some("./d/z.mp3".to_string()), true),
        (Some("./d/notes.txt".to_string()), true),
        (None, true),
        (Some("./d/a.wav".to_string()), true),
        (Some("./d/B.WAV".to_string()), true),
        (Some("./d/sub".to_string()), false),
        (Some("./d/m.mp3".to_string()), true),
    ];
    assert_eq!(select_audio_files(entries), strings(&["./d/z.mp3", "./d/a.wav", "./d/m.mp3"]));
}

#[test]
fn discovery_of_nothing_is_empty() {
    assert_eq!(select_audio_files(vec![]), Vec::<String>::new());
    assert_eq!(select_audio_files(vec![(None, true), (Some("x.txt".to_string()), true)]), Vec::<String>::new());
}

#[test]
fn discovery_keeps_only_regular_files() {
    let entries = vec![(Some("./d/sub.wav".to_string()), false), (Some("./d/a.wav".to_string()), true)];
    assert_eq!(select_audio_files(entries), strings(&["./d/a.wav"]));
}

#[test]
fn discovery_is_case_sensitive() {
    let entries = vec![
        (Some("./d/A.WAV".to_string()), true),
        (Some("./d/b.Mp3".to_string()), true),
        (Some("./d/c.wav".to_string()), true),
        (Some("./d/d.mp3".to_string()), true),
    ];
    assert_eq!(select_audio_files(entries), strings(&["./d/c.wav", "./d/d.mp3"]));
}

#[test]
fn scenario_sounds_directory() {
    let entries = vec![
        (Some("./sounds/a.wav".to_string()), true),
        (Some("./sounds/b.mp3".to_string()), true),
        (Some("./sounds/c.txt".to_string()), true),
    ];
    let files = select_audio_files(entries);
    assert_eq!(files, strings(&["./sounds/a.wav", "./sounds/b.mp3"]));
    assert_eq!(manifest_contents(&files), "file ./sounds/a.wav\nfile ./sounds/b.mp3\n");
    let output = resolve_output_path(Some("result.wav".to_string()), 0).unwrap();
    assert_eq!(output, "result.wav");
    let plan = match plan_stitch("/bin/ffmpeg".to_string(), output, &files) {
        Ok(plan) => plan,
        Err(_) => panic!("expected a plan for two files"),
    };
    assert_eq!(plan.program, "/bin/ffmpeg");
    assert_eq!(plan.manifest, "file ./sounds/a.wav\nfile ./sounds/b.mp3\n");
    assert_eq!(plan.manifest_path, "./_stitcher_tmp_.txt");
    assert_eq!(plan.output, "result.wav");
    assert_eq!(plan.args.last().map(|s| s.as_str()), Some("result.wav"));
}

#[test]
fn scenario_missing_directory_finds_no_files() {
    let files = select_audio_files(vec![]);
    match plan_stitch("/bin/ffmpeg".to_string(), "out.wav".to_string(), &files) {
        Err(e) => {
            assert_eq!(e, RunError::NoFiles);
            assert_eq!(e.message(), "found no files!");
        }
        Ok(_) => panic!("expected no plan without files"),
    }
}

#[test]
fn manifest_has_one_line_per_file_in_order() {
    let files = strings(&["/abs/x.wav", "rel/y.mp3", "z.wav"]);
    let text = manifest_contents(&files);
    let lines: Vec<&str> = text.lines().collect();
    assert_eq!(lines, vec!["file /abs/x.wav", "file rel/y.mp3", "file z.wav"]);
    assert!(text.ends_with('\n'));
    assert_eq!(manifest_contents(&vec![]), "");
}

#[test]
fn locator_takes_the_first_working_candidate() {
    let paths = strings(&["/bin/ffmpeg", "./vendor/ffmpeg/ffmpeg", "/usr/bin/ffmpeg"]);
    let (r, probed) = search(&paths, &[false, true, true]);
    assert_eq!(r, Ok("./vendor/ffmpeg/ffmpeg".to_string()));
    assert_eq!(probed, vec![0, 1]);
    let (r, probed) = search(&paths, &[true, false, true]);
    assert_eq!(r, Ok("/bin/ffmpeg".to_string()));
    assert_eq!(probed, vec![0]);
}

#[test]
fn locator_reports_every_path_when_none_works() {
    let paths = strings(&["/bin/ffmpeg", "./vendor/ffmpeg/ffmpeg"]);
    let (r, probed) = search(&paths, &[false, false]);
    assert_eq!(probed, vec![0, 1]);
    assert_eq!(
        r,
        Err("failed to find a valid ffmpeg binary. checked paths: [\"/bin/ffmpeg\", \"./vendor/ffmpeg/ffmpeg\"]"
            .to_string())
    );
    let (r, _) = search(&strings(&["a\"b", "c\\d"]), &[false, false]);
    assert_eq!(
        r,
        Err("failed to find a valid ffmpeg binary. checked paths: [\"a\\\"b\", \"c\\\\d\"]".to_string())
    );
    let (r, probed) = search(&vec![], &[]);
    assert!(probed.is_empty());
    assert_eq!(r, Err("failed to find a valid ffmpeg binary. checked paths: []".to_string()));
}

#[test]
fn tool_arguments_select_concat_and_copy() {
    assert_eq!(
        tool_arguments("./_stitcher_tmp_.txt", "out.wav"),
        strings(&[
            "-y", "-vn", "-f", "concat", "-safe", "0", "-i", "./_stitcher_tmp_.txt", "-c", "copy",
            "out.wav",
        ])
    );
    assert_eq!(manifest_path(), "./_stitcher_tmp_.txt");
}

#[test]
fn default_output_name_wraps_the_stamp() {
    assert_eq!(default_output_name("17-Oct-2026 09:05"), "STITCH_OUTPUT_17-Oct-2026 09:05.wav");
}

#[test]
fn default_output_path_is_stamped_to_the_minute() {
    assert_eq!(resolve_output_path(None, 1431648000), Ok("STITCH_OUTPUT_15-May-2015 00:00.wav".to_string()));
    assert_eq!(resolve_output_path(None, 1431680759), Ok("STITCH_OUTPUT_15-May-2015 09:05.wav".to_string()));
    assert_eq!(resolve_output_path(None, -1), Ok("STITCH_OUTPUT_31-Dec-1969 23:59.wav".to_string()));
    assert_eq!(resolve_output_path(Some("x.wav".to_string()), i64::MAX), Ok("x.wav".to_string()));
}

#[test]
fn default_output_path_out_of_range_fails() {
    let e = resolve_output_path(None, i64::MAX).unwrap_err();
    assert_eq!(e, RunError::NoTimestamp);
    assert_eq!(e.message(), "the local time has no date to name the output file");
}

#[test]
fn stitch_steps_remove_the_manifest_after_the_tool() {
    let (s, a) = stitch_step(StitchStage::WritingManifest, StitchEvent::Written(true));
    assert_eq!((s, a), (StitchStage::RunningTool, StitchAction::RunTool));
    for tool in [ToolOutcome::Succeeded, ToolOutcome::Failed, ToolOutcome::NotStarted] {
        let (s2, a2) = stitch_step(s, StitchEvent::ToolEnded(tool));
        assert_eq!(a2, StitchAction::RemoveManifest);
        let (s3, a3) = stitch_step(s2, StitchEvent::Removed(true));
        assert_eq!(s3, StitchStage::Done);
        let expected = match tool {
            ToolOutcome::Succeeded => Ending::Stitched,
            ToolOutcome::Failed => Ending::ToolFailed,
            ToolOutcome::NotStarted => Ending::ToolNotStarted,
        };
        assert_eq!(a3, StitchAction::Finish(expected));
    }
}

#[test]
fn stitch_steps_on_failures() {
    assert_eq!(
        stitch_step(StitchStage::WritingManifest, StitchEvent::Written(false)),
        (StitchStage::Done, StitchAction::Finish(Ending::ManifestNotWritten))
    );
    assert_eq!(
        stitch_step(StitchStage::RemovingManifest(ToolOutcome::Succeeded), StitchEvent::Removed(false)),
        (StitchStage::Done, StitchAction::Finish(Ending::ManifestNotRemoved))
    );
    assert_eq!(
        stitch_step(StitchStage::RemovingManifest(ToolOutcome::Failed), StitchEvent::Removed(false)),
        (StitchStage::Done, StitchAction::Finish(Ending::ToolFailed))
    );
    assert_eq!(
        stitch_step(StitchStage::Done, StitchEvent::Written(true)),
        (StitchStage::Done, StitchAction::Ignore)
    );
}

#[test]
fn stitch_results_and_messages() {
    let out = "result.wav".to_string();
    let d = "why".to_string();
    assert_eq!(stitch_result(Ending::Stitched, out.clone(), d.clone(), String::new()), Ok(out.clone()));
    let cases = [
        (Ending::ManifestNotWritten, "failed to write lines to the temp file!: why"),
        (Ending::ToolNotStarted, "did not concatenate the files: ffmpeg command failed: why"),
        (Ending::ToolFailed, "did not concatenate the files: exit not ok: why"),
        (Ending::ManifestNotRemoved, "failed to clean up the temporary file! gone"),
    ];
    for (ending, text) in cases {
        match stitch_result(ending, out.clone(), d.clone(), "gone".to_string()) {
            Err(e) => assert_eq!(e.message(), text),
            Ok(_) => panic!("expected an error for {:?}", ending),
        }
    }
    assert_eq!(RunError::NoBinary("none here".to_string()).message(), "none here");
}
