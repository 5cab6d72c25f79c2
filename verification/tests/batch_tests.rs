use dv_pipeline::batch::BatchMachine;
use dv_pipeline::frame_rate::FrameRate;
use dv_pipeline::plan::ConversionRequest;
use dv_pipeline::process::{CommandSpec, ProcessOutcome};

fn req(input: &str, include_subtitles: bool) -> ConversionRequest {
    ConversionRequest {
        input_path: input.to_string(),
        output_directory: "/out".to_string(),
        scratch_directory: "/scratch".to_string(),
        include_subtitles,
        frame_rate: FrameRate::Film24,
    }
}

fn ok_outcome() -> ProcessOutcome {
    ProcessOutcome::Exited { success: true, stderr: String::new() }
}

fn fail_outcome(stderr: &str) -> ProcessOutcome {
    ProcessOutcome::Exited { success: false, stderr: stderr.to_string() }
}

/// Drives a batch to completion. Returns the issued command lines and the
/// removal requests.
fn drive_batch(
    b: &mut BatchMachine,
    mut f: impl FnMut(&CommandSpec) -> ProcessOutcome,
) -> (Vec<String>, Vec<String>) {
    let mut commands: Vec<String> = Vec::new();
    let mut removes: Vec<String> = Vec::new();
    while !b.done {
        let outcome = match b.pending_command() {
            Some(c) => {
                let mut line = c.name.clone();
                for a in &c.args {
                    line.push(' ');
                    line.push_str(a);
                }
                commands.push(line);
                Some(f(c))
            },
            None => None,
        };
        let step = match outcome {
            Some(o) => b.absorb(o),
            None => b.advance(),
        };
        removes.extend(step.remove_paths);
    }
    (commands, removes)
}

/// The expected transcript of one fully successful no-subtitle item.
fn expected_item_lines(stem: &str, i: usize, n: usize) -> Vec<String> {
    vec![
        format!("Processing file {}/{}: {}.mkv", i, n, stem),
        "Extracting video stream...".to_string(),
        format!("$ mkvextract tracks /in/{}.mkv 0:/scratch/{}_DV.hevc", stem, stem),
        "\u{2713} Command completed successfully".to_string(),
        "Extracting audio stream...".to_string(),
        format!("$ ffmpeg -i /in/{}.mkv -map 0:a:0 -c copy /scratch/{}_audio.ec3 -y", stem, stem),
        "\u{2713} Command completed successfully".to_string(),
        "Remuxing to MP4...".to_string(),
        format!(
            "$ mp4muxer -o /out/{}_dvh1.mp4 -i /scratch/{}_DV.hevc \
             --input-video-frame-rate 24 -i /scratch/{}_audio.ec3 --dv-profile 5 --dvh1flag 0",
            stem, stem, stem
        ),
        "\u{2713} Command completed successfully".to_string(),
        "Cleaning up temporary files...".to_string(),
        "Processing completed!".to_string(),
        format!("\u{2705} File {}/{} completed", i, n),
    ]
}

#[test]
fn empty_batch_succeeds_immediately() {
    let mut b = BatchMachine::start(Vec::new());
    let (commands, removes) = drive_batch(&mut b, |_| ok_outcome());
    assert!(commands.is_empty());
    assert!(removes.is_empty());
    let outcome = b.outcome();
    assert!(outcome.success);
    assert_eq!(outcome.total_files, 0);
    assert_eq!(outcome.processed_count, 0);
    assert_eq!(
        b.log,
        vec![
            "Starting batch processing of 0 files...".to_string(),
            "\u{1f389} All 0 files processed successfully!".to_string(),
        ]
    );
}

#[test]
fn four_file_batch_transcript_is_ordered() {
    let files = ["alpha", "beta", "gamma", "delta"];
    let requests: Vec<ConversionRequest> =
        files.iter().map(|s| req(&format!("/in/{}.mkv", s), false)).collect();
    let mut b = BatchMachine::start(requests);
    let (commands, _) = drive_batch(&mut b, |_| ok_outcome());
    assert_eq!(commands.len(), 12);
    let mut expected: Vec<String> = vec!["Starting batch processing of 4 files...".to_string()];
    for (k, stem) in files.iter().enumerate() {
        expected.extend(expected_item_lines(stem, k + 1, 4));
    }
    expected.push("\u{1f389} All 4 files processed successfully!".to_string());
    assert_eq!(b.log, expected);
    let outcome = b.outcome();
    assert!(outcome.success);
    assert_eq!(outcome.processed_count, 4);
    assert!(outcome.halt_index.is_none());
}

#[test]
fn batch_halts_at_first_failure() {
    let requests = vec![
        req("/in/one.mkv", false),
        req("/in/two.mkv", false),
        req("/in/three.mkv", false),
    ];
    let mut b = BatchMachine::start(requests);
    let (commands, removes) = drive_batch(&mut b, |c| {
        if c.args.iter().any(|a| a.contains("two")) && c.name == "mkvextract" {
            fail_outcome("disk error")
        } else {
            ok_outcome()
        }
    });
    // Item one runs all three stages; item two fails at its first command;
    // item three is never started.
    assert_eq!(commands.len(), 4);
    assert!(!commands.iter().any(|c| c.contains("three")));
    let outcome = b.outcome();
    assert!(!outcome.success);
    assert_eq!(outcome.total_files, 3);
    assert_eq!(outcome.processed_count, 1);
    assert_eq!(outcome.halt_index, Some(2));
    assert_eq!(
        outcome.failure_reason.unwrap(),
        "Batch processing failed at file 2: Video extraction failed: disk error"
    );
    assert_eq!(b.items_started, 2);
    assert!(b
        .log
        .contains(&"File processing failed: Video extraction failed: disk error".to_string()));
    // Both items' scratch artifacts were handed back for deletion.
    assert_eq!(
        removes,
        vec![
            "/scratch/one_DV.hevc",
            "/scratch/one_audio.ec3",
            "/scratch/two_DV.hevc",
            "/scratch/two_audio.ec3",
        ]
    );
}

#[test]
fn unplannable_item_halts_batch_without_commands() {
    let requests = vec![req("/in/..", false), req("/in/fine.mkv", false)];
    let mut b = BatchMachine::start(requests);
    let (commands, _) = drive_batch(&mut b, |_| ok_outcome());
    assert!(commands.is_empty());
    let outcome = b.outcome();
    assert!(!outcome.success);
    assert_eq!(outcome.halt_index, Some(1));
    assert_eq!(outcome.processed_count, 0);
    assert_eq!(
        outcome.failure_reason.unwrap(),
        "Batch processing failed at file 1: Input path has no file name: /in/.."
    );
    assert!(b.log.contains(
        &"File processing failed: Input path has no file name: /in/..".to_string()
    ));
}

#[test]
fn subtitle_soft_failure_keeps_batch_running() {
    let requests = vec![req("/in/a.mkv", true), req("/in/b.mkv", true)];
    let mut b = BatchMachine::start(requests);
    let (commands, _) = drive_batch(&mut b, |c| {
        if c.args.iter().any(|a| a == "0:s:0") {
            fail_outcome("no subtitle track")
        } else {
            ok_outcome()
        }
    });
    // Each item: video, audio, subtitles (fails soft), multiplex.
    assert_eq!(commands.len(), 8);
    let outcome = b.outcome();
    assert!(outcome.success);
    assert_eq!(outcome.processed_count, 2);
    assert!(!commands.iter().any(|c| c.contains("MP4Box")));
    assert_eq!(
        b.log.iter().filter(|l| l.as_str() == "Subtitle extraction failed, continuing...").count(),
        2
    );
}

#[test]
fn batch_log_is_append_only_across_steps() {
    let requests = vec![req("/in/solo.mkv", false)];
    let mut b = BatchMachine::start(requests);
    let mut prev_len = b.log.len();
    let mut prefix = b.log.clone();
    while !b.done {
        let step = match b.pending_command() {
            Some(_) => b.absorb(ok_outcome()),
            None => b.advance(),
        };
        assert!(b.log.len() == prev_len + step.lines.len());
        assert_eq!(&b.log[..prev_len], &prefix[..]);
        assert_eq!(&b.log[prev_len..], &step.lines[..]);
        prev_len = b.log.len();
        prefix = b.log.clone();
    }
    assert!(b.outcome().success);
}
