//! The single-item pipeline: a state machine that sequences the external
//! tool invocations converting one input file, interprets each outcome,
//! emits the transcript, and hands back the scratch artifacts to delete.
//!
//! The caller runs the machine: it asks for the pending command, runs that
//! process, and feeds the outcome back with `absorb`. Every transition is
//! pinned by the relation `step_post`, so what the machine decides is proved
//! for every possible outcome of every tool.

use vstd::prelude::*;

use crate::plan::{build_plan, plan_matches, ConversionRequest, ItemPlan};
use crate::process::{echo_line, echo_of, outcome_ok, result_lines, result_lines_spec, CommandSpec, ProcessOutcome};
use crate::text::{concat2, lemma_lines_match_concat, lines_match};

verus! {

/// Which step the pipeline is at: awaiting the outcome of one stage's
/// command, or finished.
#[derive(Clone, Copy, Debug, PartialEq, Eq, Structural)]
pub enum Phase {
    AwaitVideo,
    AwaitAudio,
    AwaitSubtitles,
    AwaitMux,
    AwaitConvert,
    AwaitMerge,
    Done,
}

/// The finalized result of one item's pipeline run.
pub struct PipelineOutcome {
    /// The file name of the input, identifying the item.
    pub file: String,
    pub success: bool,
    /// The reason of a failure; `None` exactly on success.
    pub failure_reason: Option<String>,
}

/// What one `absorb` call hands back: new transcript lines, and scratch
/// paths to delete (empty until the item finishes).
pub struct StepResult {
    pub lines: Vec<String>,
    pub remove_paths: Vec<String>,
}

/// The state machine converting one input file.
pub struct ItemMachine {
    pub plan: ItemPlan,
    pub include_subtitles: bool,
    pub phase: Phase,
    /// Subtitle extraction succeeded and its artifact exists.
    pub subs_extracted: bool,
    /// Subtitle format conversion succeeded and its artifact exists.
    pub subs_converted: bool,
    /// Valid once `phase` is `Done`.
    pub success: bool,
    /// `Some` exactly when the item finished in failure.
    pub failure_reason: Option<String>,
    /// History of the stages whose command was issued.
    pub invoked: Ghost<Seq<Phase>>,
}

/// The command of a stage.
pub open spec fn command_of(plan: ItemPlan, p: Phase) -> CommandSpec {
    match p {
        Phase::AwaitVideo => plan.extract_video,
        Phase::AwaitAudio => plan.extract_audio,
        Phase::AwaitSubtitles => plan.extract_subs,
        Phase::AwaitMux => plan.multiplex,
        Phase::AwaitConvert => plan.convert_subs,
        Phase::AwaitMerge => plan.merge_subs,
        Phase::Done => plan.extract_video,
    }
}

/// The transcript lines announcing a stage: its starting message and the
/// echo of the command about to run. The merge stage follows the subtitle
/// message of the conversion stage and announces only its command.
pub open spec fn stage_start_lines(plan: ItemPlan, p: Phase) -> Seq<Seq<char>> {
    match p {
        Phase::AwaitVideo => seq!["Extracting video stream..."@, echo_of(plan.extract_video)],
        Phase::AwaitAudio => seq!["Extracting audio stream..."@, echo_of(plan.extract_audio)],
        Phase::AwaitSubtitles => seq!["Extracting subtitles..."@, echo_of(plan.extract_subs)],
        Phase::AwaitMux => seq!["Remuxing to MP4..."@, echo_of(plan.multiplex)],
        Phase::AwaitConvert => seq!["Processing subtitles..."@, echo_of(plan.convert_subs)],
        Phase::AwaitMerge => seq![echo_of(plan.merge_subs)],
        Phase::Done => Seq::empty(),
    }
}

/// The message opening the failure reason of a mandatory stage.
pub open spec fn failure_prefix(p: Phase) -> Seq<char> {
    match p {
        Phase::AwaitVideo => "Video extraction failed: "@,
        Phase::AwaitAudio => "Audio extraction failed: "@,
        Phase::AwaitMux => "MP4 muxing failed: "@,
        Phase::AwaitMerge => "Subtitle merging failed: "@,
        _ => ""@,
    }
}

/// The failure reason a hard failure at stage `p` reports: the stage's
/// message followed by the captured stderr, or the launch-failure message
/// unchanged.
pub open spec fn reason_of(p: Phase, o: ProcessOutcome) -> Seq<char> {
    match o {
        ProcessOutcome::Exited { stderr, .. } => failure_prefix(p) + stderr@,
        ProcessOutcome::LaunchFailure { message } => message@,
    }
}

/// The scratch paths deleted at the end of a run: video and audio always,
/// each subtitle artifact when the stage that creates it succeeded.
pub open spec fn cleanup_paths_spec(plan: ItemPlan, extracted: bool, converted: bool) -> Seq<
    Seq<char>,
> {
    seq![plan.video_path@, plan.audio_path@] + (if extracted {
        seq![plan.subs_path@]
    } else {
        Seq::empty()
    }) + (if converted {
        seq![plan.subs_mp4_path@]
    } else {
        Seq::empty()
    })
}

/// Well-formedness of a machine: every state the machine can reach.
pub open spec fn inv(self_: ItemMachine) -> bool {
    &&& (self_.subs_converted ==> self_.subs_extracted)
    &&& (self_.subs_extracted ==> self_.include_subtitles)
    &&& (self_.phase == Phase::AwaitVideo || self_.phase == Phase::AwaitAudio
        || self_.phase == Phase::AwaitSubtitles ==> !self_.subs_extracted
        && !self_.subs_converted)
    &&& (self_.phase == Phase::AwaitSubtitles ==> self_.include_subtitles)
    &&& (self_.phase == Phase::AwaitMux ==> !self_.subs_converted)
    &&& (self_.phase == Phase::AwaitConvert ==> self_.subs_extracted && !self_.subs_converted)
    &&& (self_.phase == Phase::AwaitMerge ==> self_.subs_converted)
    &&& (self_.invoked@.contains(Phase::AwaitSubtitles) ==> self_.include_subtitles)
    &&& (self_.invoked@.contains(Phase::AwaitConvert) ==> self_.subs_extracted)
    &&& (self_.invoked@.contains(Phase::AwaitMerge) ==> self_.subs_converted)
    &&& !self_.invoked@.contains(Phase::Done)
    &&& (self_.phase != Phase::Done ==> !self_.success && self_.failure_reason is None)
    &&& (self_.phase == Phase::Done && !self_.success ==> self_.failure_reason is Some)
    &&& (self_.success ==> self_.failure_reason is None)
}

/// A step that moves to stage `next`: the flags take the given values, the
/// new stage's command is recorded as invoked, the transcript gains the
/// outcome's result lines, `extra`, and the new stage's announcement, and
/// nothing is removed.
pub open spec fn go_post(
    pre: ItemMachine,
    o: ProcessOutcome,
    post: ItemMachine,
    lines: Seq<String>,
    removes: Seq<String>,
    next: Phase,
    extracted: bool,
    converted: bool,
    extra: Seq<Seq<char>>,
) -> bool {
    &&& post.phase == next
    &&& post.subs_extracted == extracted
    &&& post.subs_converted == converted
    &&& !post.success
    &&& post.failure_reason is None
    &&& post.invoked@ == pre.invoked@.push(next)
    &&& lines_match(lines, result_lines_spec(o) + extra + stage_start_lines(pre.plan, next))
    &&& removes.len() == 0
}

/// A step that ends the item in hard failure: the reason carries the
/// failing stage's stderr or launch message, the transcript notes cleanup,
/// and every scratch artifact is handed back for deletion.
pub open spec fn fail_post(
    pre: ItemMachine,
    o: ProcessOutcome,
    post: ItemMachine,
    lines: Seq<String>,
    removes: Seq<String>,
) -> bool {
    &&& post.phase == Phase::Done
    &&& !post.success
    &&& post.subs_extracted == pre.subs_extracted
    &&& post.subs_converted == pre.subs_converted
    &&& (match post.failure_reason {
        Some(m) => m@ == reason_of(pre.phase, o),
        None => false,
    })
    &&& post.invoked@ == pre.invoked@
    &&& lines_match(lines, result_lines_spec(o) + seq!["Cleaning up temporary files..."@])
    &&& lines_match(removes, cleanup_paths_spec(pre.plan, pre.subs_extracted, pre.subs_converted))
}

/// A step that ends the item in success.
pub open spec fn succeed_post(
    pre: ItemMachine,
    o: ProcessOutcome,
    post: ItemMachine,
    lines: Seq<String>,
    removes: Seq<String>,
) -> bool {
    &&& post.phase == Phase::Done
    &&& post.success
    &&& post.failure_reason is None
    &&& post.subs_extracted == pre.subs_extracted
    &&& post.subs_converted == pre.subs_converted
    &&& post.invoked@ == pre.invoked@
    &&& lines_match(
        lines,
        result_lines_spec(o) + seq![
            "Cleaning up temporary files..."@,
            "Processing completed!"@,
        ],
    )
    &&& lines_match(removes, cleanup_paths_spec(pre.plan, pre.subs_extracted, pre.subs_converted))
}

/// The full transition relation of one `absorb` step. Mandatory stages fail
/// hard on any non-success; subtitle extraction degrades to the no-subtitle
/// path; a failed format conversion skips the merge and still succeeds; a
/// merge failure is hard.
pub open spec fn step_post(
    pre: ItemMachine,
    o: ProcessOutcome,
    post: ItemMachine,
    lines: Seq<String>,
    removes: Seq<String>,
) -> bool {
    &&& post.plan == pre.plan
    &&& post.include_subtitles == pre.include_subtitles
    &&& match pre.phase {
        Phase::AwaitVideo => if outcome_ok(o) {
            go_post(
                pre,
                o,
                post,
                lines,
                removes,
                Phase::AwaitAudio,
                false,
                false,
                Seq::empty(),
            )
        } else {
            fail_post(pre, o, post, lines, removes)
        },
        Phase::AwaitAudio => if outcome_ok(o) {
            if pre.include_subtitles {
                go_post(
                    pre,
                    o,
                    post,
                    lines,
                    removes,
                    Phase::AwaitSubtitles,
                    false,
                    false,
                    Seq::empty(),
                )
            } else {
                go_post(pre, o, post, lines, removes, Phase::AwaitMux, false, false, Seq::empty())
            }
        } else {
            fail_post(pre, o, post, lines, removes)
        },
        Phase::AwaitSubtitles => if outcome_ok(o) {
            go_post(pre, o, post, lines, removes, Phase::AwaitMux, true, false, Seq::empty())
        } else {
            go_post(
                pre,
                o,
                post,
                lines,
                removes,
                Phase::AwaitMux,
                false,
                false,
                seq!["Subtitle extraction failed, continuing..."@],
            )
        },
        Phase::AwaitMux => if outcome_ok(o) {
            if pre.subs_extracted {
                go_post(
                    pre,
                    o,
                    post,
                    lines,
                    removes,
                    Phase::AwaitConvert,
                    pre.subs_extracted,
                    false,
                    Seq::empty(),
                )
            } else {
                succeed_post(pre, o, post, lines, removes)
            }
        } else {
            fail_post(pre, o, post, lines, removes)
        },
        Phase::AwaitConvert => if outcome_ok(o) {
            go_post(
                pre,
                o,
                post,
                lines,
                removes,
                Phase::AwaitMerge,
                pre.subs_extracted,
                true,
                Seq::empty(),
            )
        } else {
            succeed_post(pre, o, post, lines, removes)
        },
        Phase::AwaitMerge => if outcome_ok(o) {
            succeed_post(pre, o, post, lines, removes)
        } else {
            fail_post(pre, o, post, lines, removes)
        },
        Phase::Done => false,
    }
}

/// What a pushed history contains: the old entries and the new one.
proof fn lemma_push_contains_all(s: Seq<Phase>, x: Phase)
    ensures
        forall|y: Phase| #[trigger] s.push(x).contains(y) <==> s.contains(y) || x == y,
{
    assert forall|y: Phase| #[trigger] s.push(x).contains(y) <==> s.contains(y) || x == y by {
        if s.push(x).contains(y) {
            let i = choose|i: int| 0 <= i < s.push(x).len() && s.push(x)[i] == y;
            if i < s.len() {
                assert(s[i] == y);
            }
        }
        if s.contains(y) {
            let i = choose|i: int| 0 <= i < s.len() && s[i] == y;
            assert(s.push(x)[i] == y);
        }
        if x == y {
            assert(s.push(x)[s.len() as int] == y);
        }
    }
}

/// Builds the announcement lines of a stage.
fn stage_entry_lines(plan: &ItemPlan, p: Phase) -> (v: Vec<String>)
    requires
        p != Phase::Done,
    ensures
        lines_match(v@, stage_start_lines(*plan, p)),
{
    let mut v: Vec<String> = Vec::new();
    match p {
        Phase::AwaitVideo => {
            v.push("Extracting video stream...".to_owned());
            v.push(echo_line(&plan.extract_video));
        },
        Phase::AwaitAudio => {
            v.push("Extracting audio stream...".to_owned());
            v.push(echo_line(&plan.extract_audio));
        },
        Phase::AwaitSubtitles => {
            v.push("Extracting subtitles...".to_owned());
            v.push(echo_line(&plan.extract_subs));
        },
        Phase::AwaitMux => {
            v.push("Remuxing to MP4...".to_owned());
            v.push(echo_line(&plan.multiplex));
        },
        Phase::AwaitConvert => {
            v.push("Processing subtitles...".to_owned());
            v.push(echo_line(&plan.convert_subs));
        },
        Phase::AwaitMerge => {
            v.push(echo_line(&plan.merge_subs));
        },
        Phase::Done => {},
    }
    v
}

/// Builds the removal list of a finished run.
fn cleanup_paths_exec(plan: &ItemPlan, extracted: bool, converted: bool) -> (v: Vec<String>)
    ensures
        lines_match(v@, cleanup_paths_spec(*plan, extracted, converted)),
{
    let mut v: Vec<String> = Vec::new();
    v.push(plan.video_path.clone());
    v.push(plan.audio_path.clone());
    if extracted {
        v.push(plan.subs_path.clone());
    }
    if converted {
        v.push(plan.subs_mp4_path.clone());
    }
    proof {
        let m = cleanup_paths_spec(*plan, extracted, converted);
        if extracted && converted {
            assert(m =~= seq![
                plan.video_path@,
                plan.audio_path@,
                plan.subs_path@,
                plan.subs_mp4_path@,
            ]);
        } else if extracted {
            assert(m =~= seq![plan.video_path@, plan.audio_path@, plan.subs_path@]);
        } else if converted {
            assert(m =~= seq![plan.video_path@, plan.audio_path@, plan.subs_mp4_path@]);
        } else {
            assert(m =~= seq![plan.video_path@, plan.audio_path@]);
        }
    }
    v
}

impl ItemMachine {
    /// Starts the pipeline of one request: plans every path and command and
    /// issues the first stage. An input path without a file name is the one
    /// local failure: it is reported as data before any tool runs.
    pub fn start(req: &ConversionRequest) -> (r: Result<(ItemMachine, Vec<String>), String>)
        ensures
            match r {
                Ok(p) => {
                    &&& crate::plan::has_valid_stem(*req)
                    &&& inv(p.0)
                    &&& plan_matches(p.0.plan, *req)
                    &&& p.0.include_subtitles == req.include_subtitles
                    &&& p.0.phase == Phase::AwaitVideo
                    &&& !p.0.subs_extracted
                    &&& !p.0.subs_converted
                    &&& !p.0.success
                    &&& p.0.failure_reason is None
                    &&& p.0.invoked@ == seq![Phase::AwaitVideo]
                    &&& lines_match(p.1@, stage_start_lines(p.0.plan, Phase::AwaitVideo))
                },
                Err(m) => {
                    &&& !crate::plan::has_valid_stem(*req)
                    &&& m@ == "Input path has no file name: "@ + req.input_path@
                },
            },
    {
        match build_plan(req) {
            Some(plan) => {
                let lines = stage_entry_lines(&plan, Phase::AwaitVideo);
                let ghost iv: Seq<Phase> = seq![Phase::AwaitVideo];
                let m = ItemMachine {
                    plan,
                    include_subtitles: req.include_subtitles,
                    phase: Phase::AwaitVideo,
                    subs_extracted: false,
                    subs_converted: false,
                    success: false,
                    failure_reason: None,
                    invoked: Ghost(iv),
                };
                Ok((m, lines))
            },
            None => Err(concat2("Input path has no file name: ", req.input_path.as_str())),
        }
    }

    /// The command whose outcome the machine is waiting for, or `None` once
    /// the item is finished.
    pub fn pending_command(&self) -> (r: Option<&CommandSpec>)
        ensures
            match r {
                Some(c) => self.phase != Phase::Done && *c == command_of(self.plan, self.phase),
                None => self.phase == Phase::Done,
            },
    {
        match self.phase {
            Phase::AwaitVideo => Some(&self.plan.extract_video),
            Phase::AwaitAudio => Some(&self.plan.extract_audio),
            Phase::AwaitSubtitles => Some(&self.plan.extract_subs),
            Phase::AwaitMux => Some(&self.plan.multiplex),
            Phase::AwaitConvert => Some(&self.plan.convert_subs),
            Phase::AwaitMerge => Some(&self.plan.merge_subs),
            Phase::Done => None,
        }
    }

    /// Feeds the outcome of the pending command into the machine. The
    /// machine advances exactly as `step_post` states.
    pub fn absorb(&mut self, o: ProcessOutcome) -> (r: StepResult)
        requires
            inv(*old(self)),
            old(self).phase != Phase::Done,
        ensures
            inv(*final(self)),
            step_post(*old(self), o, *final(self), r.lines@, r.remove_paths@),
    {
        let ok = match &o {
            ProcessOutcome::Exited { success, .. } => *success,
            ProcessOutcome::LaunchFailure { .. } => false,
        };
        let mut lines = result_lines(&o);
        match self.phase {
            Phase::AwaitVideo => {
                if ok {
                    self.advance_to(Phase::AwaitAudio, false, false, lines, o)
                } else {
                    self.fail_with(lines, o)
                }
            },
            Phase::AwaitAudio => {
                if ok {
                    if self.include_subtitles {
                        self.advance_to(Phase::AwaitSubtitles, false, false, lines, o)
                    } else {
                        self.advance_to(Phase::AwaitMux, false, false, lines, o)
                    }
                } else {
                    self.fail_with(lines, o)
                }
            },
            Phase::AwaitSubtitles => {
                if ok {
                    self.advance_to(Phase::AwaitMux, true, false, lines, o)
                } else {
                    let note = "Subtitle extraction failed, continuing...".to_owned();
                    proof {
                        assert(lines@.push(note) =~= lines@ + seq![note]);
                        lemma_lines_match_concat(
                            lines@,
                            result_lines_spec(o),
                            seq![note],
                            seq!["Subtitle extraction failed, continuing..."@],
                        );
                    }
                    lines.push(note);
                    self.advance_noted(
                        Phase::AwaitMux,
                        false,
                        false,
                        lines,
                        Ghost(
                            result_lines_spec(o) + seq![
                                "Subtitle extraction failed, continuing..."@,
                            ],
                        ),
                    )
                }
            },
            Phase::AwaitMux => {
                if ok {
                    if self.subs_extracted {
                        self.advance_to(Phase::AwaitConvert, true, false, lines, o)
                    } else {
                        self.succeed_with(lines, o)
                    }
                } else {
                    self.fail_with(lines, o)
                }
            },
            Phase::AwaitConvert => {
                if ok {
                    self.advance_to(Phase::AwaitMerge, true, true, lines, o)
                } else {
                    self.succeed_with(lines, o)
                }
            },
            Phase::AwaitMerge => {
                if ok {
                    self.succeed_with(lines, o)
                } else {
                    self.fail_with(lines, o)
                }
            },
            Phase::Done => {
                proof {
                    assert(false);
                }
                StepResult { lines, remove_paths: Vec::new() }
            },
        }
    }

    /// Moves to stage `next`, announcing it after the given result lines.
    fn advance_to(
        &mut self,
        next: Phase,
        extracted: bool,
        converted: bool,
        lines: Vec<String>,
        o: ProcessOutcome,
    ) -> (r: StepResult)
        requires
            next != Phase::Done,
            lines_match(lines@, result_lines_spec(o)),
        ensures
            go_post(
                *old(self),
                o,
                *final(self),
                r.lines@,
                r.remove_paths@,
                next,
                extracted,
                converted,
                Seq::empty(),
            ),
            final(self).plan == old(self).plan,
            final(self).include_subtitles == old(self).include_subtitles,
            forall|y: Phase| #[trigger]
                final(self).invoked@.contains(y) <==> old(self).invoked@.contains(y) || y == next,
    {
        let r = self.advance_noted(next, extracted, converted, lines, Ghost(result_lines_spec(o)));
        proof {
            assert(result_lines_spec(o) + Seq::<Seq<char>>::empty() + stage_start_lines(
                old(self).plan,
                next,
            ) =~= result_lines_spec(o) + stage_start_lines(old(self).plan, next));
        }
        r
    }

    /// Moves to stage `next`; `lines` carries the result lines and any
    /// soft-failure note, matching `model`.
    fn advance_noted(
        &mut self,
        next: Phase,
        extracted: bool,
        converted: bool,
        lines: Vec<String>,
        Ghost(model): Ghost<Seq<Seq<char>>>,
    ) -> (r: StepResult)
        requires
            next != Phase::Done,
            lines_match(lines@, model),
        ensures
            final(self).phase == next,
            final(self).subs_extracted == extracted,
            final(self).subs_converted == converted,
            !final(self).success,
            final(self).failure_reason is None,
            final(self).invoked@ == old(self).invoked@.push(next),
            final(self).plan == old(self).plan,
            final(self).include_subtitles == old(self).include_subtitles,
            r.remove_paths@.len() == 0,
            lines_match(r.lines@, model + stage_start_lines(old(self).plan, next)),
            forall|y: Phase| #[trigger]
                final(self).invoked@.contains(y) <==> old(self).invoked@.contains(y) || y == next,
    {
        proof {
            lemma_push_contains_all(self.invoked@, next);
        }
        let mut lines = lines;
        let mut entry = stage_entry_lines(&self.plan, next);
        proof {
            lemma_lines_match_concat(
                lines@,
                model,
                entry@,
                stage_start_lines(self.plan, next),
            );
        }
        lines.append(&mut entry);
        self.phase = next;
        self.subs_extracted = extracted;
        self.subs_converted = converted;
        self.success = false;
        self.failure_reason = None;
        proof {
            self.invoked@ = self.invoked@.push(next);
        }
        StepResult { lines, remove_paths: Vec::new() }
    }

    /// Ends the item in hard failure.
    fn fail_with(&mut self, lines: Vec<String>, o: ProcessOutcome) -> (r: StepResult)
        requires
            lines_match(lines@, result_lines_spec(o)),
            old(self).phase != Phase::Done,
        ensures
            fail_post(*old(self), o, *final(self), r.lines@, r.remove_paths@),
            final(self).plan == old(self).plan,
            final(self).include_subtitles == old(self).include_subtitles,
    {
        let reason = match &o {
            ProcessOutcome::Exited { stderr, .. } => {
                concat2(failure_prefix_str(self.phase), stderr.as_str())
            },
            ProcessOutcome::LaunchFailure { message } => message.clone(),
        };
        let mut lines = lines;
        let cleanup_note = "Cleaning up temporary files...".to_owned();
        proof {
            assert(lines@.push(cleanup_note) =~= lines@ + seq![cleanup_note]);
            lemma_lines_match_concat(
                lines@,
                result_lines_spec(o),
                seq![cleanup_note],
                seq!["Cleaning up temporary files..."@],
            );
        }
        lines.push(cleanup_note);
        let removes = cleanup_paths_exec(&self.plan, self.subs_extracted, self.subs_converted);
        self.phase = Phase::Done;
        self.success = false;
        self.failure_reason = Some(reason);
        StepResult { lines, remove_paths: removes }
    }

    /// Ends the item in success.
    fn succeed_with(&mut self, lines: Vec<String>, o: ProcessOutcome) -> (r: StepResult)
        requires
            lines_match(lines@, result_lines_spec(o)),
            old(self).phase != Phase::Done,
        ensures
            succeed_post(*old(self), o, *final(self), r.lines@, r.remove_paths@),
            final(self).plan == old(self).plan,
            final(self).include_subtitles == old(self).include_subtitles,
    {
        let mut lines = lines;
        let cleanup_note = "Cleaning up temporary files...".to_owned();
        let done_note = "Processing completed!".to_owned();
        proof {
            assert(lines@.push(cleanup_note).push(done_note) =~= lines@ + seq![
                cleanup_note,
                done_note,
            ]);
            lemma_lines_match_concat(
                lines@,
                result_lines_spec(o),
                seq![cleanup_note, done_note],
                seq!["Cleaning up temporary files..."@, "Processing completed!"@],
            );
        }
        lines.push(cleanup_note);
        lines.push(done_note);
        let removes = cleanup_paths_exec(&self.plan, self.subs_extracted, self.subs_converted);
        self.phase = Phase::Done;
        self.success = true;
        self.failure_reason = None;
        StepResult { lines, remove_paths: removes }
    }

    /// The finalized outcome of a finished item.
    pub fn outcome(&self) -> (r: PipelineOutcome)
        requires
            self.phase == Phase::Done,
        ensures
            r.file@ == self.plan.file_name@,
            r.success == self.success,
            match (r.failure_reason, self.failure_reason) {
                (Some(a), Some(b)) => a@ == b@,
                (None, None) => true,
                _ => false,
            },
    {
        PipelineOutcome {
            file: self.plan.file_name.clone(),
            success: self.success,
            failure_reason: match &self.failure_reason {
                Some(s) => Some(s.clone()),
                None => None,
            },
        }
    }
}

/// The exact transcript lines one step emits, as a function of the stage
/// and the outcome.
pub open spec fn item_step_lines(m: ItemMachine, o: ProcessOutcome) -> Seq<Seq<char>> {
    let r = result_lines_spec(o);
    match m.phase {
        Phase::AwaitVideo => if outcome_ok(o) {
            r + stage_start_lines(m.plan, Phase::AwaitAudio)
        } else {
            r + seq!["Cleaning up temporary files..."@]
        },
        Phase::AwaitAudio => if outcome_ok(o) {
            if m.include_subtitles {
                r + stage_start_lines(m.plan, Phase::AwaitSubtitles)
            } else {
                r + stage_start_lines(m.plan, Phase::AwaitMux)
            }
        } else {
            r + seq!["Cleaning up temporary files..."@]
        },
        Phase::AwaitSubtitles => if outcome_ok(o) {
            r + stage_start_lines(m.plan, Phase::AwaitMux)
        } else {
            r + seq!["Subtitle extraction failed, continuing..."@] + stage_start_lines(
                m.plan,
                Phase::AwaitMux,
            )
        },
        Phase::AwaitMux => if outcome_ok(o) {
            if m.subs_extracted {
                r + stage_start_lines(m.plan, Phase::AwaitConvert)
            } else {
                r + seq!["Cleaning up temporary files..."@, "Processing completed!"@]
            }
        } else {
            r + seq!["Cleaning up temporary files..."@]
        },
        Phase::AwaitConvert => if outcome_ok(o) {
            r + stage_start_lines(m.plan, Phase::AwaitMerge)
        } else {
            r + seq!["Cleaning up temporary files..."@, "Processing completed!"@]
        },
        Phase::AwaitMerge => if outcome_ok(o) {
            r + seq!["Cleaning up temporary files..."@, "Processing completed!"@]
        } else {
            r + seq!["Cleaning up temporary files..."@]
        },
        Phase::Done => Seq::empty(),
    }
}

/// The lines a step hands back match `item_step_lines` of its stage and
/// outcome.
pub proof fn lemma_step_lines(
    pre: ItemMachine,
    o: ProcessOutcome,
    post: ItemMachine,
    lines: Seq<String>,
    removes: Seq<String>,
)
    requires
        step_post(pre, o, post, lines, removes),
    ensures
        lines_match(lines, item_step_lines(pre, o)),
{
    let r = result_lines_spec(o);
    match pre.phase {
        Phase::AwaitVideo => {
            assert(r + Seq::<Seq<char>>::empty() + stage_start_lines(pre.plan, Phase::AwaitAudio)
                =~= r + stage_start_lines(pre.plan, Phase::AwaitAudio));
        },
        Phase::AwaitAudio => {
            assert(r + Seq::<Seq<char>>::empty() + stage_start_lines(
                pre.plan,
                Phase::AwaitSubtitles,
            ) =~= r + stage_start_lines(pre.plan, Phase::AwaitSubtitles));
            assert(r + Seq::<Seq<char>>::empty() + stage_start_lines(pre.plan, Phase::AwaitMux)
                =~= r + stage_start_lines(pre.plan, Phase::AwaitMux));
        },
        Phase::AwaitSubtitles => {
            assert(r + Seq::<Seq<char>>::empty() + stage_start_lines(pre.plan, Phase::AwaitMux)
                =~= r + stage_start_lines(pre.plan, Phase::AwaitMux));
        },
        Phase::AwaitMux => {
            assert(r + Seq::<Seq<char>>::empty() + stage_start_lines(
                pre.plan,
                Phase::AwaitConvert,
            ) =~= r + stage_start_lines(pre.plan, Phase::AwaitConvert));
        },
        Phase::AwaitConvert => {
            assert(r + Seq::<Seq<char>>::empty() + stage_start_lines(pre.plan, Phase::AwaitMerge)
                =~= r + stage_start_lines(pre.plan, Phase::AwaitMerge));
        },
        Phase::AwaitMerge => {},
        Phase::Done => {},
    }
}

/// `needle` occurs verbatim somewhere inside `hay`.
pub open spec fn seq_contains_sub(hay: Seq<char>, needle: Seq<char>) -> bool {
    exists|k: int|
        0 <= k && k + needle.len() <= hay.len() && #[trigger] hay.subrange(k, k + needle.len())
            == needle
}

/// Hard-failure law: when a mandatory stage (video extraction, audio
/// extraction, multiplex, subtitle merge) exits non-zero, the step ends the
/// item in failure, and the reported reason is the stage's message followed
/// verbatim by the captured stderr text.
pub proof fn lemma_mandatory_failure_carries_stderr(
    pre: ItemMachine,
    o: ProcessOutcome,
    post: ItemMachine,
    lines: Seq<String>,
    removes: Seq<String>,
)
    requires
        inv(pre),
        step_post(pre, o, post, lines, removes),
        pre.phase == Phase::AwaitVideo || pre.phase == Phase::AwaitAudio || pre.phase
            == Phase::AwaitMux || pre.phase == Phase::AwaitMerge,
        o matches ProcessOutcome::Exited { success: false, .. },
    ensures
        post.phase == Phase::Done,
        !post.success,
        match (post.failure_reason, o) {
            (Some(m), ProcessOutcome::Exited { stderr, .. }) => m@ == failure_prefix(pre.phase)
                + stderr@ && seq_contains_sub(m@, stderr@),
            _ => false,
        },
{
    let stderr = o->Exited_stderr;
    let m = post.failure_reason->0;
    let p = failure_prefix(pre.phase);
    assert(m@.subrange(p.len() as int, p.len() as int + stderr@.len() as int) =~= stderr@);
}

/// Soft-failure law (subtitle extraction): any failing outcome at the
/// subtitle-extraction stage, a non-zero exit or a launch failure alike,
/// leaves the item alive and headed to the multiplex stage without
/// subtitles; no failure is recorded and nothing is deleted.
pub proof fn lemma_subtitle_failure_is_soft(
    pre: ItemMachine,
    o: ProcessOutcome,
    post: ItemMachine,
    lines: Seq<String>,
    removes: Seq<String>,
)
    requires
        inv(pre),
        step_post(pre, o, post, lines, removes),
        pre.phase == Phase::AwaitSubtitles,
        !outcome_ok(o),
    ensures
        post.phase == Phase::AwaitMux,
        !post.subs_extracted,
        !post.success,
        post.failure_reason is None,
        removes.len() == 0,
{
}

/// With no subtitle artifact, a successful multiplex ends the item in
/// success, and neither the conversion nor the merge stage was ever
/// invoked: the primary output is the only one produced.
pub proof fn lemma_mux_success_without_subs(
    pre: ItemMachine,
    o: ProcessOutcome,
    post: ItemMachine,
    lines: Seq<String>,
    removes: Seq<String>,
)
    requires
        inv(pre),
        step_post(pre, o, post, lines, removes),
        pre.phase == Phase::AwaitMux,
        !pre.subs_extracted,
        outcome_ok(o),
    ensures
        post.phase == Phase::Done,
        post.success,
        !post.invoked@.contains(Phase::AwaitConvert),
        !post.invoked@.contains(Phase::AwaitMerge),
{
}

/// A machine that never converted its subtitles never invoked the merge
/// tool: when format conversion fails, the merge stage is skipped and the
/// primary output stands alone.
pub proof fn lemma_no_merge_without_conversion(m: ItemMachine)
    requires
        inv(m),
        !m.subs_converted,
    ensures
        !m.invoked@.contains(Phase::AwaitMerge),
{
}

/// Without the subtitle option, no subtitle-related stage is ever invoked:
/// only extraction of video and audio, and the multiplex, run.
pub proof fn lemma_no_subtitle_stages_without_option(m: ItemMachine)
    requires
        inv(m),
        !m.include_subtitles,
    ensures
        !m.invoked@.contains(Phase::AwaitSubtitles),
        !m.invoked@.contains(Phase::AwaitConvert),
        !m.invoked@.contains(Phase::AwaitMerge),
{
}

/// Cleanup law: the step that finishes an item, in success or in failure,
/// hands back a removal list that covers every scratch artifact the run
/// created: the video and audio streams always, the extracted subtitle file
/// when extraction succeeded, the converted subtitle container when
/// conversion succeeded.
pub proof fn lemma_cleanup_covers_artifacts(
    pre: ItemMachine,
    o: ProcessOutcome,
    post: ItemMachine,
    lines: Seq<String>,
    removes: Seq<String>,
)
    requires
        inv(pre),
        step_post(pre, o, post, lines, removes),
        post.phase == Phase::Done,
    ensures
        exists|i: int| 0 <= i < removes.len() && (#[trigger] removes[i])@ == pre.plan.video_path@,
        exists|i: int| 0 <= i < removes.len() && (#[trigger] removes[i])@ == pre.plan.audio_path@,
        pre.subs_extracted ==> exists|i: int|
            0 <= i < removes.len() && (#[trigger] removes[i])@ == pre.plan.subs_path@,
        pre.subs_converted ==> exists|i: int|
            0 <= i < removes.len() && (#[trigger] removes[i])@ == pre.plan.subs_mp4_path@,
{
    let model = cleanup_paths_spec(pre.plan, pre.subs_extracted, pre.subs_converted);
    assert(model[0] == pre.plan.video_path@);
    assert(model[1] == pre.plan.audio_path@);
    assert(removes[0]@ == pre.plan.video_path@);
    assert(removes[1]@ == pre.plan.audio_path@);
    if pre.subs_extracted {
        assert(model[2] == pre.plan.subs_path@);
        assert(removes[2]@ == pre.plan.subs_path@);
    }
    if pre.subs_converted {
        if pre.subs_extracted {
            assert(model[3] == pre.plan.subs_mp4_path@);
            assert(removes[3]@ == pre.plan.subs_mp4_path@);
        } else {
            assert(model[2] == pre.plan.subs_mp4_path@);
            assert(removes[2]@ == pre.plan.subs_mp4_path@);
        }
    }
}

/// The stage's failure message.
fn failure_prefix_str(p: Phase) -> (r: &'static str)
    ensures
        r@ == failure_prefix(p),
{
    match p {
        Phase::AwaitVideo => "Video extraction failed: ",
        Phase::AwaitAudio => "Audio extraction failed: ",
        Phase::AwaitMux => "MP4 muxing failed: ",
        Phase::AwaitMerge => "Subtitle merging failed: ",
        _ => "",
    }
}

} // verus!
