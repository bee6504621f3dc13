//! Jobs, job results, and the producer that numbers them.
//!
//! A job is a resolved command together with its sequence number.  Sequence
//! numbers are assigned by the producer at job creation, in strictly
//! increasing order of production, global over the whole run: this is the one
//! property the producer must guarantee, however many workers later process
//! the jobs out of order.  A job's result carries the number and command
//! through, with the start time and the elapsed time of its execution and the
//! command's exit code.  Times are held as plain milliseconds; the elapsed
//! time is measured end minus start and clamped to zero, so that it is never
//! negative, even when the clock steps backward between the two readings.

use vstd::prelude::*;
use crate::template::resolve_spec;
use crate::template::resolve_command;

verus! {

/// One queued unit of work.
pub struct Job {
    /// Position of this job in production order, counted from zero.
    pub seq: usize,
    /// The command template with every placeholder resolved.
    pub cmd: Vec<u8>,
}

/// The outcome of one executed job.
pub struct JobResult {
    /// The sequence number of the job this result answers.
    pub seq: usize,
    /// Exit code of the executed command.
    pub exit_code: i32,
    /// Wall-clock start of the execution, in milliseconds since the epoch.
    pub start_ms: i64,
    /// Elapsed time of the execution, in milliseconds.
    pub duration_ms: u64,
    /// The command that was executed.
    pub cmd: Vec<u8>,
}

/// Relies on chrono::Local::now and DateTime::timestamp_millis: the current
/// wall clock as milliseconds since the epoch.  Nothing is promised of the
/// value: the clock may read anything, and may step backward between calls.
#[verifier::external_body]
fn now_ms() -> i64 {
    chrono::Local::now().timestamp_millis()
}

/// Read the wall clock, for the start of an execution.
pub fn clock_now_ms() -> i64 {
    now_ms()
}

/// Elapsed milliseconds from `start_ms` to `end_ms`, clamped to zero when the
/// clock stepped backward in between.
pub fn elapsed_ms(start_ms: i64, end_ms: i64) -> (elapsed: u64)
    ensures
        end_ms >= start_ms ==> elapsed == end_ms - start_ms,
        end_ms < start_ms ==> elapsed == 0,
{
    if end_ms >= start_ms {
        proof {
            assert(0 <= end_ms as i128 - start_ms as i128 <= u64::MAX);
        }
        (end_ms as i128 - start_ms as i128) as u64
    } else {
        0
    }
}

/// Build the result of an executed job from both clock readings.
pub fn complete_job(job: Job, exit_code: i32, start_ms: i64, end_ms: i64) -> (result: JobResult)
    ensures
        result.seq == job.seq,
        result.cmd@ == job.cmd@,
        result.exit_code == exit_code,
        result.start_ms == start_ms,
        end_ms >= start_ms ==> result.duration_ms == end_ms - start_ms,
        end_ms < start_ms ==> result.duration_ms == 0,
{
    let duration_ms = elapsed_ms(start_ms, end_ms);
    JobResult { seq: job.seq, exit_code, start_ms, duration_ms, cmd: job.cmd }
}

/// Build the result of an executed job, reading the end time from the clock
/// now: the elapsed time is measured strictly after the execution returned,
/// and is non-negative whatever the clock read.
pub fn finish_job(job: Job, exit_code: i32, start_ms: i64) -> (result: JobResult)
    ensures
        result.seq == job.seq,
        result.cmd@ == job.cmd@,
        result.exit_code == exit_code,
        result.start_ms == start_ms,
        result.duration_ms >= 0,
{
    let end_ms = now_ms();
    complete_job(job, exit_code, start_ms, end_ms)
}

/// The producer: owns the command template and numbers the jobs it creates.
pub struct Producer {
    /// The command template shared by every job of the run.
    pub template: Vec<u8>,
    /// The sequence number the next job will get; equally, how many jobs
    /// have been produced.
    pub next_seq: usize,
}

impl Producer {
    /// A producer at the start of a run.
    pub fn new(template: Vec<u8>) -> (producer: Producer)
        ensures
            producer.template@ == template@,
            producer.next_seq == 0,
    {
        Producer { template, next_seq: 0 }
    }

    /// Turn one argument into the next job: the command is the template with
    /// every placeholder resolved to the argument, and the sequence number is
    /// the next in production order.
    pub fn produce(&mut self, argument: &Vec<u8>) -> (job: Job)
        requires
            old(self).next_seq < usize::MAX,
        ensures
            job.seq == old(self).next_seq,
            job.cmd@ == resolve_spec(old(self).template@, argument@),
            final(self).template == old(self).template,
            final(self).next_seq == old(self).next_seq + 1,
    {
        let cmd = resolve_command(&self.template, argument);
        let seq = self.next_seq;
        self.next_seq = self.next_seq + 1;
        Job { seq, cmd }
    }
}

} // verus!
