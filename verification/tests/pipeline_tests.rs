use dv_pipeline::frame_rate::FrameRate;
use dv_pipeline::pipeline::{ItemMachine, Phase, StepResult};
use dv_pipeline::plan::ConversionRequest;
use dv_pipeline::process::{CommandSpec, ProcessOutcome};
use dv_pipeline::text::usize_to_string;

fn ok() -> ProcessOutcome {
    ProcessOutcome::Exited { success: true, stderr: String::new() }
}

fn fail(stderr: &str) -> ProcessOutcome {
    ProcessOutcome::Exited { success: false, stderr: stderr.to_string() }
}

fn no_launch(msg: &str) -> ProcessOutcome {
    ProcessOutcome::LaunchFailure { message: msg.to_string() }
}

fn request(include_subtitles: bool) -> ConversionRequest {
    ConversionRequest {
        input_path: "/in/movie.mkv".to_string(),
        output_directory: "/out".to_string(),
        scratch_directory: "/scratch".to_string(),
        include_subtitles,
        frame_rate: FrameRate::Film23976,
    }
}

fn cmd_line(c: &CommandSpec) -> String {
    let mut s = c.name.clone();
    for a in &c.args {
        s.push(' ');
        s.push_str(a);
    }
    s
}

/// Drives an item to completion, feeding each pending command through `f`.
/// Returns the commands issued, the transcript, and the final removals.
fn drive_item(
    m: &mut ItemMachine,
    mut f: impl FnMut(&CommandSpec) -> ProcessOutcome,
) -> (Vec<String>, Vec<String>, Vec<String>) {
    let mut commands: Vec<String> = Vec::new();
    let mut transcript: Vec<String> = Vec::new();
    let mut removes: Vec<String> = Vec::new();
    loop {
        let outcome = match m.pending_command() {
            Some(c) => {
                commands.push(cmd_line(c));
                f(c)
            },
            None => break,
        };
        let StepResult { lines, remove_paths } = m.absorb(outcome);
        transcript.extend(lines);
        removes.extend(remove_paths);
    }
    (commands, transcript, removes)
}

#[test]
fn frame_rate_ratio_strings_are_fixed() {
    let all = [
        (FrameRate::Film23976, "24000/1001", "23.976 (24000/1001)"),
        (FrameRate::Film24, "24", "24.000 (24)"),
        (FrameRate::Tv29970, "30000/1001", "29.970 (30000/1001)"),
        (FrameRate::Tv25, "25", "25.000 (25)"),
        (FrameRate::Hfr60, "60", "60.000 (60)"),
        (FrameRate::Hfr59940, "60000/1001", "59.940 (60000/1001)"),
    ];
    for (fr, ratio, display) in all {
        assert_eq!(fr.to_value(), ratio);
        assert_eq!(fr.to_value(), fr.to_value());
        assert_eq!(fr.to_string(), display);
        assert_eq!(fr.to_string(), fr.to_string());
    }
}

#[test]
fn decimal_rendering() {
    assert_eq!(usize_to_string(0), "0");
    assert_eq!(usize_to_string(7), "7");
    assert_eq!(usize_to_string(10), "10");
    assert_eq!(usize_to_string(123), "123");
    assert_eq!(usize_to_string(90210), "90210");
}

#[test]
fn no_subtitles_runs_three_stages_only() {
    let (mut m, start_lines) = ItemMachine::start(&request(false)).unwrap();
    assert_eq!(start_lines[0], "Extracting video stream...");
    assert_eq!(
        start_lines[1],
        "$ mkvextract tracks /in/movie.mkv 0:/scratch/movie_DV.hevc"
    );
    let (commands, transcript, removes) = drive_item(&mut m, |_| ok());
    assert_eq!(
        commands,
        vec![
            "mkvextract tracks /in/movie.mkv 0:/scratch/movie_DV.hevc".to_string(),
            "ffmpeg -i /in/movie.mkv -map 0:a:0 -c copy /scratch/movie_audio.ec3 -y".to_string(),
            "mp4muxer -o /out/movie_dvh1.mp4 -i /scratch/movie_DV.hevc \
             --input-video-frame-rate 24000/1001 -i /scratch/movie_audio.ec3 \
             --dv-profile 5 --dvh1flag 0"
                .to_string(),
        ]
    );
    let outcome = m.outcome();
    assert!(outcome.success);
    assert_eq!(outcome.file, "movie.mkv");
    assert!(outcome.failure_reason.is_none());
    assert_eq!(removes, vec!["/scratch/movie_DV.hevc", "/scratch/movie_audio.ec3"]);
    assert!(transcript.contains(&"Processing completed!".to_string()));
    assert!(!commands.iter().any(|c| c.contains("0:s:0")));
    assert!(!commands.iter().any(|c| c.contains("MP4Box")));
}

#[test]
fn mandatory_failure_reports_stderr() {
    let (mut m, _) = ItemMachine::start(&request(false)).unwrap();
    let mut step = 0usize;
    let (commands, transcript, removes) = drive_item(&mut m, |_| {
        step += 1;
        if step == 2 { fail(" audio boom \n") } else { ok() }
    });
    assert_eq!(commands.len(), 2);
    let outcome = m.outcome();
    assert!(!outcome.success);
    let reason = outcome.failure_reason.unwrap();
    assert_eq!(reason, "Audio extraction failed:  audio boom \n");
    assert!(reason.contains("audio boom"));
    assert!(transcript.contains(&"Error: audio boom".to_string()));
    assert_eq!(removes, vec!["/scratch/movie_DV.hevc", "/scratch/movie_audio.ec3"]);
}

#[test]
fn failure_with_blank_stderr_logs_no_error_line() {
    let (mut m, _) = ItemMachine::start(&request(false)).unwrap();
    let (_, transcript, _) = drive_item(&mut m, |_| fail("  \n"));
    assert!(!transcript.iter().any(|l| l.starts_with("Error:")));
    let outcome = m.outcome();
    assert!(!outcome.success);
    assert_eq!(outcome.failure_reason.unwrap(), "Video extraction failed:   \n");
}

#[test]
fn launch_failure_is_hard_and_keeps_message() {
    let (mut m, _) = ItemMachine::start(&request(false)).unwrap();
    let (commands, transcript, _) = drive_item(&mut m, |_| no_launch("tool not found"));
    assert_eq!(commands.len(), 1);
    let outcome = m.outcome();
    assert!(!outcome.success);
    assert_eq!(outcome.failure_reason.unwrap(), "tool not found");
    assert!(transcript.contains(&"Error: tool not found".to_string()));
}

#[test]
fn subtitle_extraction_failure_is_soft() {
    let (mut m, _) = ItemMachine::start(&request(true)).unwrap();
    let (commands, transcript, removes) = drive_item(&mut m, |c| {
        if c.args.iter().any(|a| a == "0:s:0") { fail("no subs") } else { ok() }
    });
    assert_eq!(commands.len(), 4);
    assert!(commands[2].contains("0:s:0"));
    assert!(commands[3].starts_with("mp4muxer"));
    assert!(transcript.contains(&"Subtitle extraction failed, continuing...".to_string()));
    let outcome = m.outcome();
    assert!(outcome.success);
    assert!(!commands.iter().any(|c| c.contains("mov_text")));
    assert!(!commands.iter().any(|c| c.contains("MP4Box")));
    assert!(!commands.iter().any(|c| c.contains("_dvh1_with_subs")));
    assert_eq!(removes, vec!["/scratch/movie_DV.hevc", "/scratch/movie_audio.ec3"]);
}

#[test]
fn subtitle_launch_failure_is_soft_too() {
    let (mut m, _) = ItemMachine::start(&request(true)).unwrap();
    let (commands, _, _) = drive_item(&mut m, |c| {
        if c.args.iter().any(|a| a == "0:s:0") { no_launch("gone") } else { ok() }
    });
    assert!(m.outcome().success);
    assert_eq!(commands.len(), 4);
}

#[test]
fn conversion_failure_skips_merge_and_succeeds() {
    let (mut m, _) = ItemMachine::start(&request(true)).unwrap();
    let (commands, _, removes) = drive_item(&mut m, |c| {
        if c.args.iter().any(|a| a == "mov_text") { fail("bad codec") } else { ok() }
    });
    assert_eq!(commands.len(), 5);
    assert!(commands[4].contains("mov_text"));
    assert!(!commands.iter().any(|c| c.starts_with("MP4Box")));
    assert!(!commands.iter().any(|c| c.contains("_dvh1_with_subs")));
    let outcome = m.outcome();
    assert!(outcome.success);
    assert!(outcome.failure_reason.is_none());
    assert_eq!(
        removes,
        vec![
            "/scratch/movie_DV.hevc",
            "/scratch/movie_audio.ec3",
            "/scratch/movie_subs.srt",
        ]
    );
}

#[test]
fn full_subtitle_run_merges_and_cleans_everything() {
    let (mut m, _) = ItemMachine::start(&request(true)).unwrap();
    let (commands, transcript, removes) = drive_item(&mut m, |_| ok());
    assert_eq!(commands.len(), 6);
    assert_eq!(
        commands[5],
        "MP4Box -add /out/movie_dvh1.mp4 -add /scratch/movie_subs.mp4 \
         -new /out/movie_dvh1_with_subs.mp4"
    );
    assert!(m.outcome().success);
    assert_eq!(
        removes,
        vec![
            "/scratch/movie_DV.hevc",
            "/scratch/movie_audio.ec3",
            "/scratch/movie_subs.srt",
            "/scratch/movie_subs.mp4",
        ]
    );
    assert!(transcript.contains(&"Processing subtitles...".to_string()));
}

#[test]
fn merge_failure_is_hard() {
    let (mut m, _) = ItemMachine::start(&request(true)).unwrap();
    let (commands, _, removes) = drive_item(&mut m, |c| {
        if c.name == "MP4Box" { fail("merge broke") } else { ok() }
    });
    assert_eq!(commands.len(), 6);
    let outcome = m.outcome();
    assert!(!outcome.success);
    assert_eq!(outcome.failure_reason.unwrap(), "Subtitle merging failed: merge broke");
    assert_eq!(removes.len(), 4);
}

#[test]
fn mux_failure_reports_its_stage() {
    let (mut m, _) = ItemMachine::start(&request(false)).unwrap();
    let (commands, _, _) = drive_item(&mut m, |c| {
        if c.name == "mp4muxer" { fail("profile rejected") } else { ok() }
    });
    assert_eq!(commands.len(), 3);
    let outcome = m.outcome();
    assert!(!outcome.success);
    assert_eq!(outcome.failure_reason.unwrap(), "MP4 muxing failed: profile rejected");
}

#[test]
fn merge_launch_failure_is_hard() {
    let (mut m, _) = ItemMachine::start(&request(true)).unwrap();
    let (commands, _, _) = drive_item(&mut m, |c| {
        if c.name == "MP4Box" { no_launch("MP4Box missing") } else { ok() }
    });
    assert_eq!(commands.len(), 6);
    let outcome = m.outcome();
    assert!(!outcome.success);
    assert_eq!(outcome.failure_reason.unwrap(), "MP4Box missing");
}

#[test]
fn conversion_launch_failure_skips_merge_silently() {
    let (mut m, _) = ItemMachine::start(&request(true)).unwrap();
    let (commands, _, _) = drive_item(&mut m, |c| {
        if c.args.iter().any(|a| a == "mov_text") { no_launch("gone") } else { ok() }
    });
    assert_eq!(commands.len(), 5);
    assert!(!commands.iter().any(|c| c.starts_with("MP4Box")));
    assert!(m.outcome().success);
}

#[test]
fn missing_file_name_fails_before_any_tool() {
    for path in ["/in/..", "..", ".", "/", ""] {
        let req = ConversionRequest {
            input_path: path.to_string(),
            output_directory: "/out".to_string(),
            scratch_directory: "/scratch".to_string(),
            include_subtitles: false,
            frame_rate: FrameRate::Film24,
        };
        match ItemMachine::start(&req) {
            Ok(_) => panic!("a path without a file name must be rejected: {}", path),
            Err(msg) => assert_eq!(msg, format!("Input path has no file name: {}", path)),
        }
    }
}

#[test]
fn trailing_separators_are_ignored_in_the_file_name() {
    let req = ConversionRequest {
        input_path: "/in/movie.mkv/".to_string(),
        output_directory: "/out".to_string(),
        scratch_directory: "/scratch".to_string(),
        include_subtitles: false,
        frame_rate: FrameRate::Film24,
    };
    let (mut m, _) = ItemMachine::start(&req).unwrap();
    let c = m.pending_command().unwrap();
    // The tool still receives the path as given; the derived names use the
    // stripped file name.
    assert_eq!(c.args[1], "/in/movie.mkv/");
    assert_eq!(c.args[2], "0:/scratch/movie_DV.hevc");
    let (_, _, _) = drive_item(&mut m, |_| ok());
    let outcome = m.outcome();
    assert!(outcome.success);
    assert_eq!(outcome.file, "movie.mkv");
}

#[test]
fn stem_keeps_inner_dots_and_hidden_names() {
    let req = ConversionRequest {
        input_path: "/in/movie.2023.remux.mkv".to_string(),
        output_directory: "/out".to_string(),
        scratch_directory: "/scratch".to_string(),
        include_subtitles: false,
        frame_rate: FrameRate::Tv25,
    };
    let (m, _) = ItemMachine::start(&req).unwrap();
    let c = m.pending_command().unwrap();
    assert_eq!(c.args[2], "0:/scratch/movie.2023.remux_DV.hevc");

    let hidden = ConversionRequest {
        input_path: "/in/.hidden".to_string(),
        output_directory: "/out".to_string(),
        scratch_directory: "/scratch".to_string(),
        include_subtitles: false,
        frame_rate: FrameRate::Tv25,
    };
    let (m2, _) = ItemMachine::start(&hidden).unwrap();
    let c2 = m2.pending_command().unwrap();
    assert_eq!(c2.args[2], "0:/scratch/.hidden_DV.hevc");
}

#[test]
fn backslash_paths_and_trailing_separators_join_cleanly() {
    let req = ConversionRequest {
        input_path: "C:\\media\\movie.mkv".to_string(),
        output_directory: "/out/".to_string(),
        scratch_directory: "/scratch/".to_string(),
        include_subtitles: false,
        frame_rate: FrameRate::Hfr60,
    };
    let (mut m, _) = ItemMachine::start(&req).unwrap();
    let (commands, _, _) = drive_item(&mut m, |_| ok());
    assert_eq!(
        commands[0],
        "mkvextract tracks C:\\media\\movie.mkv 0:/scratch/movie_DV.hevc"
    );
    assert!(commands[2].contains("-o /out/movie_dvh1.mp4"));
}

#[test]
fn machine_phase_reaches_done_once() {
    let (mut m, _) = ItemMachine::start(&request(false)).unwrap();
    assert!(matches!(m.phase, Phase::AwaitVideo));
    drive_item(&mut m, |_| ok());
    assert!(matches!(m.phase, Phase::Done));
    assert!(m.pending_command().is_none());
}
