//! The result collector's aggregate.
//!
//! A single consumer drains the result queue and folds every result into one
//! running aggregate: how many results arrived, whether any counted job
//! failed, and whether halt-on-error has fired.  In a dry run exit codes are
//! not meaningful and are suppressed from failure accounting, so a dry run
//! always ends successfully.  With halt-on-error configured, the first
//! counted failure halts the whole run at once, without draining the
//! remaining results.

use vstd::prelude::*;
use crate::job::JobResult;

verus! {

/// The collector's running aggregate over the results of a run.
#[derive(Clone, Copy, PartialEq, Eq, Structural, Debug)]
pub struct Collector {
    /// Exit codes are suppressed from failure accounting.
    pub dry_run: bool,
    /// The first counted failure halts the run.
    pub halt_on_error: bool,
    /// How many results have been folded in.
    pub received: usize,
    /// Some counted job exited nonzero.
    pub any_failed: bool,
    /// Halt-on-error has fired: the run stops without draining the rest.
    pub halted: bool,
}

impl Collector {
    /// A collector at the start of a run.
    pub fn new(dry_run: bool, halt_on_error: bool) -> (collector: Collector)
        ensures
            collector == (Collector {
                dry_run,
                halt_on_error,
                received: 0usize,
                any_failed: false,
                halted: false,
            }),
    {
        Collector { dry_run, halt_on_error, received: 0, any_failed: false, halted: false }
    }

    /// The aggregate after folding in one result with exit code `exit_code`.
    pub open spec fn absorb_spec(self, exit_code: i32) -> Collector {
        Collector {
            dry_run: self.dry_run,
            halt_on_error: self.halt_on_error,
            received: (self.received + 1) as usize,
            any_failed: self.any_failed || (!self.dry_run && exit_code != 0),
            halted: self.halted || (!self.dry_run && self.halt_on_error && exit_code != 0),
        }
    }

    /// Fold one result into the aggregate; the result says whether
    /// halt-on-error calls for stopping the run right now.
    pub fn absorb(&mut self, result: &JobResult) -> (halt: bool)
        requires
            old(self).received < usize::MAX,
        ensures
            *final(self) == old(self).absorb_spec(result.exit_code),
            halt == final(self).halted,
    {
        self.received = self.received + 1;
        if !self.dry_run && result.exit_code != 0 {
            self.any_failed = true;
            if self.halt_on_error {
                self.halted = true;
            }
        }
        self.halted
    }

    /// The process exit status the aggregate calls for.
    pub open spec fn exit_status_spec(self) -> i32 {
        if self.any_failed || self.halted {
            1
        } else {
            0
        }
    }

    /// The process exit status: 1 when any counted job failed or the run was
    /// halted, 0 otherwise.
    pub fn exit_status(&self) -> (status: i32)
        ensures
            status == self.exit_status_spec(),
    {
        if self.any_failed || self.halted {
            1
        } else {
            0
        }
    }

    /// The aggregate after folding in each exit code of `codes`, in order.
    pub open spec fn absorb_all_spec(self, codes: Seq<i32>) -> Collector
        decreases codes.len(),
    {
        if codes.len() == 0 {
            self
        } else {
            self.absorb_spec(codes[0]).absorb_all_spec(codes.skip(1))
        }
    }

    /// A dry run always succeeds: whatever exit codes the backend reports in
    /// check mode, none is counted as a failure, no halt fires, and the
    /// process exit status is zero.
    pub proof fn lemma_dry_run_always_succeeds(self, codes: Seq<i32>)
        requires
            self.dry_run,
            !self.any_failed,
            !self.halted,
        ensures
            !self.absorb_all_spec(codes).any_failed,
            !self.absorb_all_spec(codes).halted,
            self.absorb_all_spec(codes).exit_status_spec() == 0,
        decreases codes.len(),
    {
        if codes.len() > 0 {
            self.absorb_spec(codes[0]).lemma_dry_run_always_succeeds(codes.skip(1));
        }
    }

    /// Without halt-on-error the run is never halted early, and the exit
    /// status is failure exactly when some counted exit code was nonzero.
    pub proof fn lemma_exit_status_reflects_failures(self, codes: Seq<i32>)
        requires
            !self.halt_on_error,
            !self.any_failed,
            !self.halted,
        ensures
            !self.absorb_all_spec(codes).halted,
            self.absorb_all_spec(codes).exit_status_spec() == 1 <==> (!self.dry_run
                && exists|i: int| 0 <= i < codes.len() && codes[i] != 0),
        decreases codes.len(),
    {
        if codes.len() > 0 {
            let after = self.absorb_spec(codes[0]);
            if !self.dry_run && codes[0] != 0 {
                after.lemma_absorb_all_keeps_failure(codes.skip(1));
                after.lemma_no_halt_without_flag(codes.skip(1));
                assert(0 <= 0 < codes.len() && codes[0] != 0);
            } else {
                after.lemma_exit_status_reflects_failures(codes.skip(1));
                assert forall|i: int|
                    0 <= i < codes.skip(1).len() && codes.skip(1)[i] != 0 implies 0 <= i + 1
                    < codes.len() && codes[i + 1] != 0 by {}
                if !self.dry_run {
                    assert forall|i: int|
                        0 <= i < codes.len() && codes[i] != 0 implies 0 <= i - 1 < codes.skip(
                        1,
                    ).len() && codes.skip(1)[i - 1] != 0 by {
                        assert(codes[0] == 0);
                    }
                }
            }
        }
    }

    /// Halt-on-error never fires when it is not configured.
    pub proof fn lemma_no_halt_without_flag(self, codes: Seq<i32>)
        requires
            !self.halt_on_error,
            !self.halted,
        ensures
            !self.absorb_all_spec(codes).halted,
        decreases codes.len(),
    {
        if codes.len() > 0 {
            self.absorb_spec(codes[0]).lemma_no_halt_without_flag(codes.skip(1));
        }
    }

    /// A failure already counted stays counted, whatever arrives afterwards.
    pub proof fn lemma_absorb_all_keeps_failure(self, codes: Seq<i32>)
        requires
            self.any_failed,
        ensures
            self.absorb_all_spec(codes).any_failed,
            self.absorb_all_spec(codes).exit_status_spec() == 1,
        decreases codes.len(),
    {
        if codes.len() > 0 {
            self.absorb_spec(codes[0]).lemma_absorb_all_keeps_failure(codes.skip(1));
        }
    }
}

} // verus!
