//! Batch accounting: the record of one file, the steps that handling one file
//! goes through, and the summary over all files. A file that fails is recorded
//! and leaves the totals alone.
use vstd::prelude::*;
use crate::text::joined;

verus! {

/// The step at which handling a file failed.
#[derive(Clone, Copy, Debug, PartialEq, Eq, Structural)]
pub enum FailureStage {
    Read,
    Compress,
    Write,
    Backup,
    Overwrite,
}

/// A step in handling one file. The last three belong to overwriting the
/// input file: move it aside, move the output into its place, and then either
/// remove what was moved aside or, where the second move failed, move it back.
#[derive(Clone, Copy, Debug, PartialEq, Eq, Structural)]
pub enum FileStep {
    Read,
    Compress,
    Write,
    Backup,
    Replace,
    Rollback,
    RemoveBackup,
}

/// What follows a step.
#[derive(Clone, Copy, Debug, PartialEq, Eq, Structural)]
pub enum StepOutcome {
    Continue(FileStep),
    Failed(FailureStage),
    Done,
}

/// The record of one file of a batch.
#[derive(Clone, Debug)]
pub struct BatchFileResult {
    pub path: String,
    pub size_before: u64,
    pub size_after: u64,
    pub success: bool,
    pub message: String,
}

/// The summary of a batch: how many files were compressed, how many failed, and
/// the sizes of the compressed ones before and after.
#[derive(Clone, Copy, Debug, PartialEq, Eq, Structural)]
pub struct BatchSummary {
    pub processed: usize,
    pub failed: usize,
    pub total_before: u64,
    pub total_after: u64,
}

/// The word that opens the message of a failure at a stage.
pub open spec fn stage_label(stage: FailureStage) -> Seq<char> {
    match stage {
        FailureStage::Read => "read-failed"@,
        FailureStage::Compress => "compress-failed"@,
        FailureStage::Write => "write-failed"@,
        FailureStage::Backup => "backup-failed"@,
        FailureStage::Overwrite => "overwrite-failed"@,
    }
}

/// The message of a failure: the stage's label, a colon and the detail.
pub open spec fn failure_message_of(stage: FailureStage, detail: Seq<char>) -> Seq<char> {
    stage_label(stage) + ": "@ + detail
}

/// What follows a step that went well (`ok`) or did not. A failure ends the
/// handling of the file, with two exceptions: where the output could not be moved
/// into the input file's place, the input file is first moved back; and whether the
/// file set aside could be removed or moved back does not matter.
pub open spec fn after_step_of(step: FileStep, ok: bool, overwrite: bool) -> StepOutcome {
    match step {
        FileStep::Read => if ok {
            StepOutcome::Continue(FileStep::Compress)
        } else {
            StepOutcome::Failed(FailureStage::Read)
        },
        FileStep::Compress => if ok {
            StepOutcome::Continue(FileStep::Write)
        } else {
            StepOutcome::Failed(FailureStage::Compress)
        },
        FileStep::Write => if !ok {
            StepOutcome::Failed(FailureStage::Write)
        } else if overwrite {
            StepOutcome::Continue(FileStep::Backup)
        } else {
            StepOutcome::Done
        },
        FileStep::Backup => if ok {
            StepOutcome::Continue(FileStep::Replace)
        } else {
            StepOutcome::Failed(FailureStage::Backup)
        },
        FileStep::Replace => if ok {
            StepOutcome::Continue(FileStep::RemoveBackup)
        } else {
            StepOutcome::Continue(FileStep::Rollback)
        },
        FileStep::Rollback => StepOutcome::Failed(FailureStage::Overwrite),
        FileStep::RemoveBackup => StepOutcome::Done,
    }
}

/// How far a step is from the end of the longest run that starts with it.
pub open spec fn steps_left(step: FileStep) -> nat {
    match step {
        FileStep::Read => 6,
        FileStep::Compress => 5,
        FileStep::Write => 4,
        FileStep::Backup => 3,
        FileStep::Replace => 2,
        FileStep::Rollback => 1,
        FileStep::RemoveBackup => 1,
    }
}

/// The number of compressed files among the records.
pub open spec fn count_successes(rs: Seq<BatchFileResult>) -> nat
    decreases rs.len(),
{
    if rs.len() == 0 {
        0
    } else {
        count_successes(rs.drop_last()) + if rs.last().success {
            1nat
        } else {
            0nat
        }
    }
}

/// The sizes before compression of the compressed files, added up.
pub open spec fn sum_before(rs: Seq<BatchFileResult>) -> nat
    decreases rs.len(),
{
    if rs.len() == 0 {
        0
    } else {
        sum_before(rs.drop_last()) + if rs.last().success {
            rs.last().size_before as nat
        } else {
            0nat
        }
    }
}

/// The sizes after compression of the compressed files, added up.
pub open spec fn sum_after(rs: Seq<BatchFileResult>) -> nat
    decreases rs.len(),
{
    if rs.len() == 0 {
        0
    } else {
        sum_after(rs.drop_last()) + if rs.last().success {
            rs.last().size_after as nat
        } else {
            0nat
        }
    }
}

/// A total as it is reported: cut off at the largest 64-bit number.
pub open spec fn saturated(n: nat) -> u64 {
    if n > u64::MAX {
        u64::MAX
    } else {
        n as u64
    }
}

/// The summary of a sequence of records.
pub open spec fn summary_of(rs: Seq<BatchFileResult>) -> BatchSummary {
    BatchSummary {
        processed: count_successes(rs) as usize,
        failed: (rs.len() - count_successes(rs)) as usize,
        total_before: saturated(sum_before(rs)),
        total_after: saturated(sum_after(rs)),
    }
}

/// No more records count as compressed than there are records.
pub proof fn lemma_successes_bounded(rs: Seq<BatchFileResult>)
    ensures
        count_successes(rs) <= rs.len(),
    decreases rs.len(),
{
    if rs.len() > 0 {
        lemma_successes_bounded(rs.drop_last());
    }
}

/// A failed file adds one to the failures and leaves the count of compressed
/// files and both totals as they were.
pub proof fn lemma_failure_is_contained(rs: Seq<BatchFileResult>, r: BatchFileResult)
    requires
        !r.success,
    ensures
        count_successes(rs.push(r)) == count_successes(rs),
        sum_before(rs.push(r)) == sum_before(rs),
        sum_after(rs.push(r)) == sum_after(rs),
        rs.push(r).len() - count_successes(rs.push(r)) == rs.len() - count_successes(rs) + 1,
{
    assert(rs.push(r).drop_last() =~= rs);
    assert(rs.push(r).last() == r);
}

/// A compressed file adds one to the count and its two sizes to the totals.
pub proof fn lemma_success_is_counted(rs: Seq<BatchFileResult>, r: BatchFileResult)
    requires
        r.success,
    ensures
        count_successes(rs.push(r)) == count_successes(rs) + 1,
        sum_before(rs.push(r)) == sum_before(rs) + r.size_before,
        sum_after(rs.push(r)) == sum_after(rs) + r.size_after,
{
    assert(rs.push(r).drop_last() =~= rs);
    assert(rs.push(r).last() == r);
}

/// Every step leads to an end or to a step that is nearer to the end, so the
/// handling of a file ends after at most six steps.
pub proof fn lemma_steps_run_out(step: FileStep, ok: bool, overwrite: bool)
    ensures
        after_step_of(step, ok, overwrite) matches StepOutcome::Continue(next) ==> steps_left(next)
            < steps_left(step),
{
}

/// The input file is moved back only after the output could not be moved into its
/// place, and then the file counts as failed.
pub proof fn lemma_rollback_follows_failed_replace(step: FileStep, ok: bool, overwrite: bool)
    ensures
        after_step_of(step, ok, overwrite) == StepOutcome::Continue(FileStep::Rollback) <==> (step
            == FileStep::Replace && !ok),
        after_step_of(FileStep::Rollback, ok, overwrite) == StepOutcome::Failed(
            FailureStage::Overwrite,
        ),
        !overwrite ==> after_step_of(FileStep::Write, true, overwrite) == StepOutcome::Done,
{
}

/// What follows a step.
pub fn after_step(step: FileStep, ok: bool, overwrite: bool) -> (r: StepOutcome)
    ensures
        r == after_step_of(step, ok, overwrite),
{
    match step {
        FileStep::Read => if ok {
            StepOutcome::Continue(FileStep::Compress)
        } else {
            StepOutcome::Failed(FailureStage::Read)
        },
        FileStep::Compress => if ok {
            StepOutcome::Continue(FileStep::Write)
        } else {
            StepOutcome::Failed(FailureStage::Compress)
        },
        FileStep::Write => if !ok {
            StepOutcome::Failed(FailureStage::Write)
        } else if overwrite {
            StepOutcome::Continue(FileStep::Backup)
        } else {
            StepOutcome::Done
        },
        FileStep::Backup => if ok {
            StepOutcome::Continue(FileStep::Replace)
        } else {
            StepOutcome::Failed(FailureStage::Backup)
        },
        FileStep::Replace => if ok {
            StepOutcome::Continue(FileStep::RemoveBackup)
        } else {
            StepOutcome::Continue(FileStep::Rollback)
        },
        FileStep::Rollback => StepOutcome::Failed(FailureStage::Overwrite),
        FileStep::RemoveBackup => StepOutcome::Done,
    }
}

/// The message of a failure at a stage.
pub fn failure_message(stage: FailureStage, detail: &str) -> (r: String)
    ensures
        r@ == failure_message_of(stage, detail@),
{
    let label = match stage {
        FailureStage::Read => "read-failed",
        FailureStage::Compress => "compress-failed",
        FailureStage::Write => "write-failed",
        FailureStage::Backup => "backup-failed",
        FailureStage::Overwrite => "overwrite-failed",
    };
    let opened = joined(label, ": ");
    joined(opened.as_str(), detail)
}

/// The bytes saved by compression; none where the output is the larger.
pub fn saved_bytes(before: u64, after: u64) -> (r: u64)
    ensures
        r == if before >= after {
            before - after
        } else {
            0
        },
{
    if before >= after {
        before - after
    } else {
        0
    }
}

impl BatchFileResult {
    /// The record of a file that failed at a stage: no size after, and the
    /// stage's message.
    pub fn failed(path: String, size_before: u64, stage: FailureStage, detail: &str) -> (r:
        BatchFileResult)
        ensures
            r.path == path,
            r.size_before == size_before,
            r.size_after == 0,
            !r.success,
            r.message@ == failure_message_of(stage, detail@),
    {
        BatchFileResult {
            path,
            size_before,
            size_after: 0,
            success: false,
            message: failure_message(stage, detail),
        }
    }

    /// The record of a compressed file: both sizes and no message.
    pub fn succeeded(path: String, size_before: u64, size_after: u64) -> (r: BatchFileResult)
        ensures
            r.path == path,
            r.size_before == size_before,
            r.size_after == size_after,
            r.success,
            r.message@ == Seq::<char>::empty(),
    {
        BatchFileResult { path, size_before, size_after, success: true, message: String::new() }
    }

    /// The bytes that compressing this file saved.
    pub fn saved(&self) -> (r: u64)
        ensures
            r == if self.size_before >= self.size_after {
                self.size_before - self.size_after
            } else {
                0
            },
    {
        saved_bytes(self.size_before, self.size_after)
    }
}

impl BatchSummary {
    /// The bytes that the batch saved in all.
    pub fn total_saved(&self) -> (r: u64)
        ensures
            r == if self.total_before >= self.total_after {
                self.total_before - self.total_after
            } else {
                0
            },
    {
        saved_bytes(self.total_before, self.total_after)
    }
}

/// Adds a size to a total, stopping at the largest 64-bit number.
fn add_saturating(total: u64, size: u64) -> (r: u64)
    ensures
        r == saturated(total as nat + size as nat),
{
    if size > u64::MAX - total {
        u64::MAX
    } else {
        total + size
    }
}

/// Sums up a batch. Files that failed are counted as failed and add nothing to
/// the totals.
pub fn summarize(results: &Vec<BatchFileResult>) -> (s: BatchSummary)
    ensures
        s == summary_of(results@),
        s.processed + s.failed == results@.len(),
{
    let mut processed: usize = 0;
    let mut total_before: u64 = 0;
    let mut total_after: u64 = 0;
    let mut i: usize = 0;
    while i < results.len()
        invariant
            i <= results@.len(),
            processed == count_successes(results@.subrange(0, i as int)),
            processed <= i,
            total_before == saturated(sum_before(results@.subrange(0, i as int))),
            total_after == saturated(sum_after(results@.subrange(0, i as int))),
        decreases results@.len() - i,
    {
        proof {
            let head = results@.subrange(0, i as int);
            let next = results@.subrange(0, i + 1);
            assert(next.drop_last() =~= head);
            assert(next.last() == results@[i as int]);
        }
        if results[i].success {
            processed = processed + 1;
            total_before = add_saturating(total_before, results[i].size_before);
            total_after = add_saturating(total_after, results[i].size_after);
        }
        i = i + 1;
    }
    proof {
        assert(results@.subrange(0, i as int) =~= results@);
    }
    BatchSummary { processed, failed: results.len() - processed, total_before, total_after }
}

} // verus!
