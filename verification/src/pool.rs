//! Worker-pool sizing.
//!
//! The pool runs a fixed number of workers chosen before the run: the
//! configured count, or the machine's logical core count when none is
//! configured, clamped to the number of arguments when that number is known
//! before any job is produced.  A configured count of zero is the degenerate
//! case meaning one worker per job: concurrency bounded only by the number of
//! arguments, bypassing the clamp entirely.

use vstd::prelude::*;

verus! {

/// How many workers the pool runs.
#[derive(Clone, Copy, PartialEq, Eq, Structural, Debug)]
pub enum PoolSize {
    /// A fixed number of concurrent workers.
    Fixed(usize),
    /// One worker per job.
    PerJob,
}

/// Relies on num_cpus::get: the number of logical cores available to the
/// process, which its documentation promises to be at least 1.
#[verifier::external_body]
fn detect_cores() -> (cores: usize)
    ensures
        cores >= 1,
{
    num_cpus::get()
}

/// The pool size for a run: `configured` workers (or `cores` when none is
/// configured), clamped to `known_args` where the argument count is known
/// ahead of the run; a configured zero means one worker per job.
pub open spec fn plan_spec(configured: Option<usize>, cores: usize, known_args: Option<
    usize,
>) -> PoolSize {
    if configured == Some(0usize) {
        PoolSize::PerJob
    } else {
        let wanted = match configured {
            Some(j) => j,
            None => cores,
        };
        match known_args {
            Some(n) => PoolSize::Fixed(if wanted <= n { wanted } else { n }),
            None => PoolSize::Fixed(wanted),
        }
    }
}

/// Choose the pool size from the configured worker count and the argument
/// count, where known ahead of the run.
pub fn plan_workers(configured: Option<usize>, cores: usize, known_args: Option<usize>) -> (size:
    PoolSize)
    ensures
        size == plan_spec(configured, cores, known_args),
{
    match configured {
        Some(0) => PoolSize::PerJob,
        Some(j) => match known_args {
            Some(n) => PoolSize::Fixed(if j <= n { j } else { n }),
            None => PoolSize::Fixed(j),
        },
        None => match known_args {
            Some(n) => PoolSize::Fixed(if cores <= n { cores } else { n }),
            None => PoolSize::Fixed(cores),
        },
    }
}

/// Choose the pool size, detecting the core count when no worker count is
/// configured.
pub fn plan_workers_detected(configured: Option<usize>, known_args: Option<usize>) -> (size:
    PoolSize)
    ensures
        exists|cores: usize|
            cores >= 1 && size == #[trigger] plan_spec(configured, cores, known_args),
{
    let cores = detect_cores();
    plan_workers(configured, cores, known_args)
}

/// Whether a pool of size `size` admits one more execution while `active`
/// executions are already running.
pub open spec fn may_start_spec(size: PoolSize, active: nat) -> bool {
    match size {
        PoolSize::Fixed(w) => active < w,
        PoolSize::PerJob => true,
    }
}

/// The pool never outgrows either bound: with a positive worker count `j`
/// configured and `n` arguments known ahead of the run, at most
/// `min(j, n)` workers run.
pub proof fn lemma_pool_clamped(configured: Option<usize>, cores: usize, j: usize, n: usize)
    requires
        configured == Some(j),
        j > 0,
    ensures
        ({
            let size = plan_spec(configured, cores, Some(n));
            size matches PoolSize::Fixed(w) && w <= j && w <= n
        }),
{
}

/// Whatever the configured or detected worker count, a known argument count
/// bounds the pool, except in the one-worker-per-job case.
pub proof fn lemma_pool_clamped_by_args(configured: Option<usize>, cores: usize, n: usize)
    requires
        configured != Some(0usize),
    ensures
        ({
            let size = plan_spec(configured, cores, Some(n));
            size matches PoolSize::Fixed(w) && w <= n
        }),
{
}

/// With one worker per job the pool never limits concurrency: another start
/// is admitted whatever the number of active executions, so as many
/// executions run as there are pending arguments.
pub proof fn lemma_per_job_is_unbounded(active: nat)
    ensures
        may_start_spec(PoolSize::PerJob, active),
{
}

} // verus!
