//! The dispatch engine: one model of the whole pipeline.
//!
//! Arguments flow through the interactive gate into the job queue, workers
//! take jobs from its front and later hand in one result per job, and the
//! single collector folds every result into the run's aggregate.  The engine
//! holds all four stages as one state and steps them one transition at a
//! time, in whatever order a schedule interleaves them: offering an argument,
//! dispatching the front job to a worker, and collecting one result.  Its
//! well-formedness invariant is the concurrency contract of the run: the
//! sequence numbers at the stages partition `{0, ..., next_seq - 1}`, so no
//! job is lost, no result is invented, and no number is seen twice, whatever
//! order results arrive in.

use vstd::prelude::*;
use vstd::seq_lib::seq_to_set_is_finite;
use vstd::set_lib::lemma_int_range;
use vstd::set_lib::lemma_subset_equality;
use vstd::set_lib::set_int_range;
use crate::collector::Collector;
use crate::gate::Answer;
use crate::gate::Gate;
use crate::job::Job;
use crate::job::JobResult;
use crate::job::Producer;
use crate::template::resolve_spec;

verus! {

/// The sequence numbers of queued jobs, in queue order.
pub open spec fn job_seqs(jobs: Seq<Job>) -> Seq<int> {
    jobs.map_values(|j: Job| j.seq as int)
}

/// The sequence numbers of collected results, in order of arrival.
pub open spec fn result_seqs(results: Seq<JobResult>) -> Seq<int> {
    results.map_values(|r: JobResult| r.seq as int)
}

/// The whole pipeline of one run, stepped one transition at a time.
pub struct Dispatcher {
    /// Resolves arguments into numbered jobs.
    pub producer: Producer,
    /// The interactive gate in front of the producer.
    pub gate: Gate,
    /// The job queue: produced, not yet taken by a worker.
    pub pending: Vec<Job>,
    /// Jobs taken by a worker whose result has not yet been collected.
    pub running: Vec<Job>,
    /// Every result the collector has received.
    pub done: Vec<JobResult>,
    /// The run's aggregate outcome.
    pub collector: Collector,
}

impl Dispatcher {
    /// Sequence numbers waiting in the job queue.
    pub open spec fn pending_seqs(self) -> Seq<int> {
        job_seqs(self.pending@)
    }

    /// Sequence numbers being executed.
    pub open spec fn running_seqs(self) -> Seq<int> {
        job_seqs(self.running@)
    }

    /// Sequence numbers the collector has received.
    pub open spec fn done_seqs(self) -> Seq<int> {
        result_seqs(self.done@)
    }

    /// The concurrency contract of the run: every produced job is at exactly
    /// one stage — queued, in flight, or collected — and the numbers over
    /// all three stages are exactly `{0, ..., next_seq - 1}`, each once.
    pub open spec fn wf(self) -> bool {
        let p = self.pending_seqs();
        let r = self.running_seqs();
        let d = self.done_seqs();
        let n = self.producer.next_seq as int;
        &&& p.len() + r.len() + d.len() == n
        &&& forall|i: int| 0 <= i < p.len() ==> 0 <= #[trigger] p[i] < n
        &&& forall|i: int| 0 <= i < r.len() ==> 0 <= #[trigger] r[i] < n
        &&& forall|i: int| 0 <= i < d.len() ==> 0 <= #[trigger] d[i] < n
        &&& p.no_duplicates()
        &&& r.no_duplicates()
        &&& d.no_duplicates()
        &&& p.disjoint(r)
        &&& p.disjoint(d)
        &&& r.disjoint(d)
        &&& self.collector.received == self.done.len()
    }

    /// An engine at the start of a run: nothing produced, nothing running,
    /// nothing collected.
    pub fn new(template: Vec<u8>, interactive: bool, dry_run: bool, halt_on_error: bool) -> (d:
        Dispatcher)
        ensures
            d.wf(),
            d.producer.template@ == template@,
            d.producer.next_seq == 0,
            d.gate.enabled == interactive,
            !d.gate.always,
            d.pending@.len() == 0,
            d.running@.len() == 0,
            d.done@.len() == 0,
            d.collector == (Collector {
                dry_run,
                halt_on_error,
                received: 0usize,
                any_failed: false,
                halted: false,
            }),
    {
        Dispatcher {
            producer: Producer::new(template),
            gate: Gate::new(interactive),
            pending: Vec::new(),
            running: Vec::new(),
            done: Vec::new(),
            collector: Collector::new(dry_run, halt_on_error),
        }
    }

    /// Producer step: offer one argument to the run, with the operator's
    /// answer where one is prompted for.  Unless the answer declines it, the argument
    /// becomes the next job, numbered in production order; a declined
    /// argument produces no job now and can never produce a result.
    pub fn offer(&mut self, argument: &Vec<u8>, answer: Option<Answer>) -> (produced: bool)
        requires
            old(self).wf(),
            old(self).producer.next_seq < usize::MAX,
            old(self).gate.must_prompt_spec() <==> answer is Some,
        ensures
            final(self).wf(),
            final(self).gate == (match answer {
                Some(a) => old(self).gate.record_spec(a),
                None => old(self).gate,
            }),
            final(self).running == old(self).running,
            final(self).done == old(self).done,
            final(self).collector == old(self).collector,
            final(self).producer.template == old(self).producer.template,
            produced == (answer != Some(Answer::Decline)),
            answer == Some(Answer::Decline) ==> final(self).pending == old(self).pending
                && final(self).producer == old(self).producer,
            answer != Some(Answer::Decline) ==> ({
                let prev = *old(self);
                let now = *final(self);
                &&& now.producer.next_seq == prev.producer.next_seq + 1
                &&& now.pending@ =~= prev.pending@.push(now.pending@.last())
                &&& now.pending@.last().seq == prev.producer.next_seq
                &&& now.pending@.last().cmd@ == resolve_spec(prev.producer.template@, argument@)
            }),
    {
        let run = match answer {
            Some(a) => self.gate.record_answer(a),
            None => true,
        };
        if run {
            let ghost before = *self;
            let job = self.producer.produce(argument);
            self.pending.push(job);
            proof {
                let n = before.producer.next_seq as int;
                assert(self.pending_seqs() =~= before.pending_seqs().push(n));
                assert(forall|i: int|
                    0 <= i < before.pending_seqs().len() ==> self.pending_seqs()[i] == before
                        .pending_seqs()[i]);
                assert(self.wf());
            }
            true
        } else {
            false
        }
    }

    /// Worker step: take the job at the front of the queue, if any.  The
    /// taken job goes to the worker and stays marked in flight, so that its
    /// result, and only its result, can later be collected.
    pub fn dispatch(&mut self) -> (job: Option<Job>)
        requires
            old(self).wf(),
        ensures
            final(self).wf(),
            old(self).pending@.len() == 0 ==> job is None && *final(self) == *old(self),
            old(self).pending@.len() > 0 ==> (job matches Some(j)
                && j == old(self).pending@[0]
                && final(self).pending@ =~= old(self).pending@.skip(1)
                && final(self).running@.len() == old(self).running@.len() + 1
                && final(self).running@.last().seq == j.seq
                && final(self).running@.last().cmd@ == j.cmd@
                && final(self).running@.take(old(self).running@.len() as int) =~= old(
                self,
            ).running@
                && final(self).producer == old(self).producer
                && final(self).gate == old(self).gate
                && final(self).done == old(self).done
                && final(self).collector == old(self).collector),
    {
        if self.pending.len() == 0 {
            return None;
        }
        let ghost before = *self;
        let job = self.pending.remove(0);
        let seq = job.seq;
        let cmd = job.cmd.clone();
        proof {
            assert forall|i: int| 0 <= i < job.cmd@.len() implies cmd@[i] == job.cmd@[i] by {
                assert(cloned::<u8>(job.cmd@[i], cmd@[i]));
            }
            assert(cmd@ =~= job.cmd@);
        }
        self.running.push(Job { seq, cmd });
        proof {
            assert(self.pending_seqs() =~= before.pending_seqs().skip(1));
            assert(self.running_seqs() =~= before.running_seqs().push(job.seq as int));
            assert(before.pending_seqs()[0] == job.seq as int);
            assert(forall|i: int|
                0 <= i < self.pending_seqs().len() ==> self.pending_seqs()[i] == before
                    .pending_seqs()[i + 1]);
            assert(self.running@.take(before.running@.len() as int) =~= before.running@);
            assert(self.wf());
        }
        Some(job)
    }

    /// Collector step: receive one result from the result queue.  The result
    /// must answer an in-flight job, carrying its sequence number and its
    /// command — a worker publishes a result only after taking the job, and
    /// only one per job.  The job leaves the in-flight stage, the result
    /// joins the collected stage, and the aggregate folds it in; the
    /// returned flag says whether halt-on-error stops the run right now,
    /// before any further result is drained.
    pub fn collect(&mut self, result: JobResult) -> (halt: bool)
        requires
            old(self).wf(),
            exists|i: int|
                0 <= i < old(self).running@.len() && old(self).running@[i].seq == result.seq
                    && old(self).running@[i].cmd@ == result.cmd@,
        ensures
            final(self).wf(),
            final(self).done@ =~= old(self).done@.push(result),
            final(self).collector == old(self).collector.absorb_spec(result.exit_code),
            halt == final(self).collector.halted,
            exists|i: int|
                0 <= i < old(self).running@.len() && old(self).running@[i].seq == result.seq
                    && final(self).running@ =~= old(self).running@.remove(i),
            final(self).pending == old(self).pending,
            final(self).producer == old(self).producer,
            final(self).gate == old(self).gate,
    {
        let ghost before = *self;
        let ghost witness = choose|i: int|
            0 <= i < self.running@.len() && self.running@[i].seq == result.seq;
        let mut idx: usize = 0;
        while self.running[idx].seq != result.seq
            invariant
                *self == before,
                0 <= idx <= witness < self.running@.len(),
                self.running@[witness].seq == result.seq,
                forall|j: int| 0 <= j < idx ==> self.running@[j].seq != result.seq,
            decreases witness - idx,
        {
            proof {
                assert(idx < self.running.len());
            }
            idx = idx + 1;
        }
        self.running.remove(idx);
        proof {
            assert(before.wf());
            assert(before.collector.received < usize::MAX) by {
                assert(before.done_seqs().len() <= before.producer.next_seq);
            }
        }
        let halt = self.collector.absorb(&result);
        self.done.push(result);
        proof {
            let s = result.seq as int;
            assert(self.running_seqs() =~= before.running_seqs().remove(idx as int));
            assert(self.done_seqs() =~= before.done_seqs().push(s));
            assert(before.running_seqs()[idx as int] == s);
            assert(forall|i: int|
                0 <= i < idx ==> self.running_seqs()[i] == before.running_seqs()[i]);
            assert(forall|i: int|
                idx <= i < self.running_seqs().len() ==> self.running_seqs()[i] == before
                    .running_seqs()[i + 1]);
            assert(self.running@ =~= before.running@.remove(idx as int));
            assert(self.wf());
        }
        halt
    }

    /// The process exit status the run's aggregate calls for.
    pub fn exit_status(&self) -> (status: i32)
        ensures
            status == self.collector.exit_status_spec(),
    {
        self.collector.exit_status()
    }

    /// A drained run is complete: once the queue is empty and no execution
    /// is in flight, the collector has received exactly one result per
    /// produced job — none lost, none duplicated — and the sequence numbers
    /// of the results are exactly the set `{0, ..., next_seq - 1}`, whatever
    /// order they arrived in.
    pub proof fn lemma_complete_run(self)
        requires
            self.wf(),
            self.pending@.len() == 0,
            self.running@.len() == 0,
        ensures
            self.done@.len() == self.producer.next_seq,
            self.collector.received == self.producer.next_seq,
            self.done_seqs().no_duplicates(),
            self.done_seqs().to_set() == set_int_range(0, self.producer.next_seq as int),
    {
        broadcast use seq_to_set_is_finite;

        let n = self.producer.next_seq as int;
        let d = self.done_seqs();
        assert(d.len() == n);
        d.unique_seq_to_set();
        lemma_int_range(0, n);
        assert(d.to_set().subset_of(set_int_range(0, n))) by {
            assert forall|x: int| d.to_set().contains(x) implies set_int_range(0, n).contains(
                x,
            ) by {
                let i = choose|i: int| 0 <= i < d.len() && d[i] == x;
                assert(0 <= d[i] < n);
            }
        }
        lemma_subset_equality(d.to_set(), set_int_range(0, n));
    }
}

} // verus!
