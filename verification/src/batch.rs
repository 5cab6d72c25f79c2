//! The batch orchestrator: it runs the single-item pipeline over a queue of
//! requests in order, accumulates the whole transcript, and halts the batch
//! at the first item failure. Remaining items are then never started.

use vstd::prelude::*;
use vstd::string::StringExecFns;

use crate::pipeline::{
    cleanup_paths_spec, inv, item_step_lines, lemma_step_lines, reason_of, step_post, ItemMachine,
    Phase, StepResult,
};
use crate::plan::{has_valid_stem, plan_matches, ConversionRequest};
use crate::process::{outcome_ok, CommandSpec, ProcessOutcome};
use crate::text::{concat2, dec_str, lemma_lines_match_concat, lines_match, usize_to_string};

verus! {

/// The finalized result of one batch run.
pub struct BatchOutcome {
    pub total_files: usize,
    /// Items that completed successfully.
    pub processed_count: usize,
    pub success: bool,
    /// The reason of the halting failure; `None` exactly on success.
    pub failure_reason: Option<String>,
    /// The position (1-based) of the item whose failure halted the batch.
    pub halt_index: Option<usize>,
}

/// The state machine running a queue of conversions with fail-fast
/// semantics. The caller runs it like the item machine: run the pending
/// command and feed the outcome back; between items, call `advance`.
pub struct BatchMachine {
    pub requests: Vec<ConversionRequest>,
    /// The item in flight, if one is.
    pub item: Option<ItemMachine>,
    /// The whole accumulated transcript, append-only.
    pub log: Vec<String>,
    pub done: bool,
    pub success: bool,
    pub failure_reason: Option<String>,
    pub halt_index: Option<usize>,
    /// Items completed successfully, which is also the index of the current
    /// item while one is in flight.
    pub processed: usize,
    /// Items whose pipeline was started.
    pub items_started: usize,
}

/// The line opening a batch transcript.
pub open spec fn batch_start_line(n: int) -> Seq<char> {
    "Starting batch processing of "@ + dec_str(n as nat) + " files..."@
}

/// The header announcing item `i` of `n` (1-based).
pub open spec fn file_header_line(i: int, n: int, input: Seq<char>) -> Seq<char> {
    "Processing file "@ + dec_str(i as nat) + "/"@ + dec_str(n as nat) + ": "@
        + crate::text::file_name_spec(input)
}

/// The marker closing a successful item.
pub open spec fn file_completed_line(i: int, n: int) -> Seq<char> {
    "\u{2705} File "@ + dec_str(i as nat) + "/"@ + dec_str(n as nat) + " completed"@
}

/// The line recording an item failure in the transcript.
pub open spec fn item_failed_line(reason: Seq<char>) -> Seq<char> {
    "File processing failed: "@ + reason
}

/// The summary closing a fully successful batch.
pub open spec fn batch_summary_line(n: int) -> Seq<char> {
    "\u{1f389} All "@ + dec_str(n as nat) + " files processed successfully!"@
}

/// The failure reason of a halted batch: the item's position and reason.
pub open spec fn batch_failure_reason(i: int, reason: Seq<char>) -> Seq<char> {
    "Batch processing failed at file "@ + dec_str(i as nat) + ": "@ + reason
}

/// The reason an unplannable request reports.
pub open spec fn missing_name_reason(req: ConversionRequest) -> Seq<char> {
    "Input path has no file name: "@ + req.input_path@
}

/// Well-formedness of a batch machine: every state the machine can reach.
/// In particular, once the batch has halted on item `k`, exactly `k` items
/// were ever started and `k - 1` completed: the rest were never touched.
pub open spec fn batch_inv(b: BatchMachine) -> bool {
    let n = b.requests@.len();
    &&& b.processed <= n
    &&& if b.done {
        &&& b.item is None
        &&& (b.success ==> b.processed == n && b.items_started == n && b.halt_index is None
            && b.failure_reason is None)
        &&& (!b.success ==> match b.halt_index {
            Some(k) => 1 <= k <= n && b.items_started == k && b.processed == k - 1
                && b.failure_reason is Some,
            None => false,
        })
    } else {
        &&& !b.success
        &&& b.failure_reason is None
        &&& b.halt_index is None
        &&& match b.item {
            Some(m) => {
                &&& inv(m)
                &&& m.phase != Phase::Done
                &&& b.processed < n
                &&& b.items_started == b.processed + 1
                &&& plan_matches(m.plan, b.requests@[b.processed as int])
                &&& m.include_subtitles == b.requests@[b.processed as int].include_subtitles
            },
            None => b.items_started == b.processed,
        }
    }
}

/// This step ends the item in flight.
pub open spec fn item_terminal(m: ItemMachine, o: ProcessOutcome) -> bool {
    match m.phase {
        Phase::AwaitVideo => !outcome_ok(o),
        Phase::AwaitAudio => !outcome_ok(o),
        Phase::AwaitSubtitles => false,
        Phase::AwaitMux => !outcome_ok(o) || !m.subs_extracted,
        Phase::AwaitConvert => !outcome_ok(o),
        Phase::AwaitMerge => true,
        Phase::Done => false,
    }
}

/// This step ends the item in flight successfully.
pub open spec fn item_step_success(m: ItemMachine, o: ProcessOutcome) -> bool {
    match m.phase {
        Phase::AwaitMux => outcome_ok(o) && !m.subs_extracted,
        Phase::AwaitConvert => !outcome_ok(o),
        Phase::AwaitMerge => outcome_ok(o),
        _ => false,
    }
}

/// The full effect of one batch `absorb` step: the inner item advances as
/// `step_post` states; a finished item is closed with its marker; a failed
/// item halts the whole batch, carrying its position and reason.
pub open spec fn batch_absorb_post(
    pre: BatchMachine,
    o: ProcessOutcome,
    post: BatchMachine,
    lines: Seq<String>,
    removes: Seq<String>,
) -> bool {
    let m = pre.item->0;
    let n = pre.requests@.len() as int;
    let i = pre.processed as int;
    if !item_terminal(m, o) {
        &&& !post.done
        &&& post.processed == pre.processed
        &&& post.items_started == pre.items_started
        &&& (match post.item {
            Some(m2) => step_post(m, o, m2, lines, removes) && m2.phase != Phase::Done,
            None => false,
        })
        &&& removes.len() == 0
    } else if item_step_success(m, o) {
        &&& !post.done
        &&& post.item is None
        &&& post.processed == pre.processed + 1
        &&& post.items_started == pre.items_started
        &&& lines_match(lines, item_step_lines(m, o) + seq![file_completed_line(i + 1, n)])
        &&& lines_match(removes, cleanup_paths_spec(m.plan, m.subs_extracted, m.subs_converted))
    } else {
        &&& post.done
        &&& !post.success
        &&& post.item is None
        &&& post.processed == pre.processed
        &&& post.items_started == pre.items_started
        &&& (match post.halt_index {
            Some(k) => k as int == i + 1,
            None => false,
        })
        &&& (match post.failure_reason {
            Some(r) => r@ == batch_failure_reason(i + 1, reason_of(m.phase, o)),
            None => false,
        })
        &&& lines_match(
            lines,
            item_step_lines(m, o) + seq![item_failed_line(reason_of(m.phase, o))],
        )
        &&& lines_match(removes, cleanup_paths_spec(m.plan, m.subs_extracted, m.subs_converted))
    }
}

/// Appends clones of all lines to the log.
fn append_log(log: &mut Vec<String>, lines: &Vec<String>)
    ensures
        final(log)@ == old(log)@ + lines@,
{
    proof {
        assert(old(log)@ + lines@.take(0) =~= old(log)@);
    }
    let mut i: usize = 0;
    while i < lines.len()
        invariant
            i <= lines@.len(),
            log@ == old(log)@ + lines@.take(i as int),
        decreases lines@.len() - i,
    {
        log.push(lines[i].clone());
        proof {
            assert(old(log)@ + lines@.take(i as int) + seq![lines@[i as int]] =~= old(log)@
                + lines@.take(i + 1 as int));
        }
        i += 1;
    }
    proof {
        assert(old(log)@ + lines@.take(lines@.len() as int) =~= old(log)@ + lines@);
    }
}

impl BatchMachine {
    /// Opens a batch over the queue, in the given order. No item is started
    /// yet: the first `advance` starts the first one.
    pub fn start(requests: Vec<ConversionRequest>) -> (b: BatchMachine)
        ensures
            batch_inv(b),
            !b.done,
            b.item is None,
            b.processed == 0,
            b.items_started == 0,
            b.requests@ == requests@,
            lines_match(b.log@, seq![batch_start_line(requests@.len() as int)]),
    {
        let n = requests.len();
        let mut line = concat2("Starting batch processing of ", usize_to_string(n).as_str());
        line.append(" files...");
        let mut log: Vec<String> = Vec::new();
        log.push(line);
        BatchMachine {
            requests,
            item: None,
            log,
            done: false,
            success: false,
            failure_reason: None,
            halt_index: None,
            processed: 0,
            items_started: 0,
        }
    }

    /// The command whose outcome the batch is waiting for, if an item is in
    /// flight.
    pub fn pending_command(&self) -> (r: Option<&CommandSpec>)
        ensures
            match r {
                Some(c) => match self.item {
                    Some(m) => m.phase != Phase::Done && *c == crate::pipeline::command_of(
                        m.plan,
                        m.phase,
                    ),
                    None => false,
                },
                None => match self.item {
                    Some(m) => m.phase == Phase::Done,
                    None => true,
                },
            },
    {
        match &self.item {
            Some(m) => m.pending_command(),
            None => None,
        }
    }

    /// Between items: starts the next queued item, or closes the batch when
    /// every item completed. An item whose input path names no file fails
    /// before any tool runs and halts the batch like any other failure.
    pub fn advance(&mut self) -> (r: StepResult)
        requires
            batch_inv(*old(self)),
            !old(self).done,
            old(self).item is None,
        ensures
            batch_inv(*final(self)),
            final(self).requests@ == old(self).requests@,
            r.remove_paths@.len() == 0,
            final(self).log@ == old(self).log@ + r.lines@,
            ({
                let n = old(self).requests@.len() as int;
                let i = old(self).processed as int;
                if i == n {
                    &&& final(self).done
                    &&& final(self).success
                    &&& final(self).processed == old(self).processed
                    &&& final(self).items_started == old(self).items_started
                    &&& lines_match(r.lines@, seq![batch_summary_line(n)])
                } else {
                    let req = old(self).requests@[i];
                    &&& final(self).items_started == old(self).items_started + 1
                    &&& final(self).processed == old(self).processed
                    &&& if has_valid_stem(req) {
                        &&& !final(self).done
                        &&& (match final(self).item {
                            Some(m) => {
                                &&& m.phase == Phase::AwaitVideo
                                &&& plan_matches(m.plan, req)
                                &&& !m.subs_extracted
                                &&& !m.subs_converted
                                &&& lines_match(
                                    r.lines@,
                                    seq![file_header_line(i + 1, n, req.input_path@)]
                                        + crate::pipeline::stage_start_lines(
                                        m.plan,
                                        Phase::AwaitVideo,
                                    ),
                                )
                            },
                            None => false,
                        })
                    } else {
                        &&& final(self).done
                        &&& !final(self).success
                        &&& (match final(self).halt_index {
                            Some(k) => k as int == i + 1,
                            None => false,
                        })
                        &&& (match final(self).failure_reason {
                            Some(m) => m@ == batch_failure_reason(i + 1, missing_name_reason(req)),
                            None => false,
                        })
                        &&& lines_match(
                            r.lines@,
                            seq![
                                file_header_line(i + 1, n, req.input_path@),
                                item_failed_line(missing_name_reason(req)),
                            ],
                        )
                    }
                }
            }),
    {
        let n = self.requests.len();
        if self.processed == n {
            let mut line = concat2("\u{1f389} All ", usize_to_string(n).as_str());
            line.append(" files processed successfully!");
            let mut lines: Vec<String> = Vec::new();
            lines.push(line);
            append_log(&mut self.log, &lines);
            self.done = true;
            self.success = true;
            return StepResult { lines, remove_paths: Vec::new() };
        }
        let i = self.processed;
        let name = crate::text::file_name_of(self.requests[i].input_path.as_str());
        let mut header = concat2("Processing file ", usize_to_string(i + 1).as_str());
        header.append("/");
        header.append(usize_to_string(n).as_str());
        header.append(": ");
        header.append(name.as_str());
        let mut lines: Vec<String> = Vec::new();
        lines.push(header);
        self.items_started = self.items_started + 1;
        match ItemMachine::start(&self.requests[i]) {
            Ok(p) => {
                let (m, mut sl) = p;
                proof {
                    lemma_lines_match_concat(
                        lines@,
                        seq![file_header_line(i + 1 as int, n as int, self.requests@[i as int].input_path@)],
                        sl@,
                        crate::pipeline::stage_start_lines(m.plan, Phase::AwaitVideo),
                    );
                }
                lines.append(&mut sl);
                self.item = Some(m);
                append_log(&mut self.log, &lines);
                StepResult { lines, remove_paths: Vec::new() }
            },
            Err(reason) => {
                let fline = concat2("File processing failed: ", reason.as_str());
                proof {
                    assert(lines@.push(fline) =~= lines@ + seq![fline]);
                    lemma_lines_match_concat(
                        lines@,
                        seq![file_header_line(i + 1 as int, n as int, self.requests@[i as int].input_path@)],
                        seq![fline],
                        seq![item_failed_line(missing_name_reason(self.requests@[i as int]))],
                    );
                }
                lines.push(fline);
                let mut br = concat2(
                    "Batch processing failed at file ",
                    usize_to_string(i + 1).as_str(),
                );
                br.append(": ");
                br.append(reason.as_str());
                self.done = true;
                self.success = false;
                self.halt_index = Some(i + 1);
                self.failure_reason = Some(br);
                append_log(&mut self.log, &lines);
                StepResult { lines, remove_paths: Vec::new() }
            },
        }
    }

    /// Feeds the outcome of the pending command into the batch. The item in
    /// flight advances; a finished item is closed; a failed item halts the
    /// batch: the remaining queued items are never started.
    pub fn absorb(&mut self, o: ProcessOutcome) -> (r: StepResult)
        requires
            batch_inv(*old(self)),
            !old(self).done,
            old(self).item is Some,
        ensures
            batch_inv(*final(self)),
            final(self).requests@ == old(self).requests@,
            final(self).log@ == old(self).log@ + r.lines@,
            batch_absorb_post(*old(self), o, *final(self), r.lines@, r.remove_paths@),
    {
        let n = self.requests.len();
        let i = self.processed;
        let taken = self.item.take();
        match taken {
            Some(mut im) => {
                let step = im.absorb(o);
                proof {
                    lemma_step_lines(old(self).item->0, o, im, step.lines@, step.remove_paths@);
                }
                let mut lines = step.lines;
                let finished = match im.phase {
                    Phase::Done => true,
                    _ => false,
                };
                if !finished {
                    self.item = Some(im);
                    append_log(&mut self.log, &lines);
                    StepResult { lines, remove_paths: step.remove_paths }
                } else if im.success {
                    let mut marker = concat2("\u{2705} File ", usize_to_string(i + 1).as_str());
                    marker.append("/");
                    marker.append(usize_to_string(n).as_str());
                    marker.append(" completed");
                    proof {
                        assert(lines@.push(marker) =~= lines@ + seq![marker]);
                        lemma_lines_match_concat(
                            lines@,
                            item_step_lines(old(self).item->0, o),
                            seq![marker],
                            seq![file_completed_line(i + 1 as int, n as int)],
                        );
                    }
                    lines.push(marker);
                    self.processed = i + 1;
                    append_log(&mut self.log, &lines);
                    StepResult { lines, remove_paths: step.remove_paths }
                } else {
                    let reason = match &im.failure_reason {
                        Some(s) => s.clone(),
                        None => {
                            proof {
                                assert(false);
                            }
                            String::new()
                        },
                    };
                    let fline = concat2("File processing failed: ", reason.as_str());
                    proof {
                        assert(lines@.push(fline) =~= lines@ + seq![fline]);
                        lemma_lines_match_concat(
                            lines@,
                            item_step_lines(old(self).item->0, o),
                            seq![fline],
                            seq![item_failed_line(reason_of(old(self).item->0.phase, o))],
                        );
                    }
                    lines.push(fline);
                    let mut br = concat2(
                        "Batch processing failed at file ",
                        usize_to_string(i + 1).as_str(),
                    );
                    br.append(": ");
                    br.append(reason.as_str());
                    self.done = true;
                    self.success = false;
                    self.halt_index = Some(i + 1);
                    self.failure_reason = Some(br);
                    append_log(&mut self.log, &lines);
                    StepResult { lines, remove_paths: step.remove_paths }
                }
            },
            None => {
                proof {
                    assert(false);
                }
                StepResult { lines: Vec::new(), remove_paths: Vec::new() }
            },
        }
    }

    /// The finalized outcome of a finished batch.
    pub fn outcome(&self) -> (r: BatchOutcome)
        requires
            self.done,
            batch_inv(*self),
        ensures
            r.total_files == self.requests@.len(),
            r.processed_count == self.processed,
            r.success == self.success,
            r.halt_index == self.halt_index,
            match (r.failure_reason, self.failure_reason) {
                (Some(a), Some(b)) => a@ == b@,
                (None, None) => true,
                _ => false,
            },
    {
        BatchOutcome {
            total_files: self.requests.len(),
            processed_count: self.processed,
            success: self.success,
            failure_reason: match &self.failure_reason {
                Some(s) => Some(s.clone()),
                None => None,
            },
            halt_index: self.halt_index,
        }
    }
}

/// Fail-fast law: a halted batch with halt position `k` started exactly the
/// first `k` items and completed exactly the first `k - 1`; the items after
/// `k` were never started, so none of their tools was ever invoked.
pub proof fn lemma_fail_fast(b: BatchMachine)
    requires
        batch_inv(b),
        b.done,
        !b.success,
    ensures
        match b.halt_index {
            Some(k) => 1 <= k <= b.requests@.len() && b.items_started == k && b.processed == k
                - 1,
            None => false,
        },
{
}

/// A fully successful batch started and completed every queued item.
pub proof fn lemma_success_means_all_processed(b: BatchMachine)
    requires
        batch_inv(b),
        b.done,
        b.success,
    ensures
        b.processed == b.requests@.len(),
        b.items_started == b.requests@.len(),
{
}

} // verus!
