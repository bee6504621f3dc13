use parallelion::engine::Dispatcher;
use parallelion::gate::Answer;
use parallelion::job::complete_job;
use parallelion::job::Job;

fn drain_pending(engine: &mut Dispatcher) -> Vec<Job> {
    let mut taken = Vec::new();
    while let Some(job) = engine.dispatch() {
        taken.push(job);
    }
    taken
}

#[test]
fn every_job_yields_exactly_one_result() {
    let mut engine = Dispatcher::new(b"echo {}".to_vec(), false, false, false);
    for arg in [&b"a"[..], b"b", b"c"] {
        assert!(engine.offer(&arg.to_vec(), None));
    }
    let jobs = drain_pending(&mut engine);
    assert_eq!(jobs.len(), 3);
    // results arrive in a different order than the jobs were produced
    for job in jobs.into_iter().rev() {
        let halt = engine.collect(complete_job(job, 0, 10, 20));
        assert!(!halt);
    }
    assert_eq!(engine.done.len(), 3);
    assert_eq!(engine.collector.received, 3);
    let mut seqs: Vec<usize> = engine.done.iter().map(|r| r.seq).collect();
    seqs.sort();
    assert_eq!(seqs, vec![0, 1, 2]);
    assert_eq!(engine.exit_status(), 0);
}

#[test]
fn out_of_order_results_keep_distinct_sequence_numbers() {
    let mut engine = Dispatcher::new(b"work {}".to_vec(), false, false, false);
    for arg in [&b"p"[..], b"q", b"r", b"s"] {
        engine.offer(&arg.to_vec(), None);
    }
    let mut jobs = drain_pending(&mut engine);
    jobs.swap(0, 3);
    jobs.swap(1, 2);
    for job in jobs {
        engine.collect(complete_job(job, 0, 0, 5));
    }
    let mut seqs: Vec<usize> = engine.done.iter().map(|r| r.seq).collect();
    seqs.sort();
    assert_eq!(seqs, vec![0, 1, 2, 3]);
}

#[test]
fn declined_argument_produces_no_job_and_no_result() {
    let mut engine = Dispatcher::new(b"touch {}".to_vec(), true, false, false);
    assert!(engine.offer(&b"a".to_vec(), Some(Answer::Affirm)));
    assert!(!engine.offer(&b"skipped".to_vec(), Some(Answer::Decline)));
    assert!(engine.offer(&b"b".to_vec(), Some(Answer::Affirm)));
    let jobs = drain_pending(&mut engine);
    assert_eq!(jobs.len(), 2);
    assert!(jobs.iter().all(|j| j.cmd != b"touch skipped".to_vec()));
    for job in jobs {
        engine.collect(complete_job(job, 0, 0, 1));
    }
    assert_eq!(engine.done.len(), 2);
    assert!(engine.done.iter().all(|r| r.cmd != b"touch skipped".to_vec()));
}

#[test]
fn affirm_all_silences_the_gate_for_the_rest_of_the_run() {
    let mut engine = Dispatcher::new(b"run {}".to_vec(), true, false, false);
    assert!(engine.gate.must_prompt());
    assert!(engine.offer(&b"a".to_vec(), Some(Answer::AffirmAll)));
    assert!(!engine.gate.must_prompt());
    assert!(engine.offer(&b"b".to_vec(), None));
    assert!(engine.offer(&b"c".to_vec(), None));
    assert_eq!(engine.pending.len(), 3);
}

#[test]
fn halt_on_error_stops_the_run_on_the_first_failure() {
    let mut engine = Dispatcher::new(b"job {}".to_vec(), false, false, true);
    for arg in [&b"ok1"[..], b"fail", b"ok2"] {
        engine.offer(&arg.to_vec(), None);
    }
    let jobs = drain_pending(&mut engine);
    let mut jobs = jobs.into_iter();
    let first = jobs.next().unwrap();
    let failing = jobs.next().unwrap();
    assert!(!engine.collect(complete_job(first, 0, 0, 1)));
    // the failing result halts the run at once: the remaining result is
    // never drained
    assert!(engine.collect(complete_job(failing, 1, 0, 1)));
    assert_eq!(engine.exit_status(), 1);
    assert_eq!(engine.collector.received, 2);
}

#[test]
fn dry_run_exits_zero_despite_failing_exit_codes() {
    let mut engine = Dispatcher::new(b"job {}".to_vec(), false, true, true);
    for arg in [&b"a"[..], b"b"] {
        engine.offer(&arg.to_vec(), None);
    }
    let jobs = drain_pending(&mut engine);
    for job in jobs {
        let halt = engine.collect(complete_job(job, 1, 0, 1));
        assert!(!halt);
    }
    assert_eq!(engine.exit_status(), 0);
}

#[test]
fn results_record_the_resolved_command() {
    let mut engine = Dispatcher::new(b"echo {}".to_vec(), false, false, false);
    engine.offer(&b"x".to_vec(), None);
    let job = engine.dispatch().unwrap();
    assert_eq!(job.cmd, b"echo x".to_vec());
    engine.collect(complete_job(job, 0, 100, 130));
    assert_eq!(engine.done[0].cmd, b"echo x".to_vec());
    assert_eq!(engine.done[0].duration_ms, 30);
}
