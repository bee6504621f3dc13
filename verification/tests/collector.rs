use parallelion::collector::Collector;
use parallelion::job::JobResult;

fn result_with_exit(seq: usize, exit_code: i32) -> JobResult {
    JobResult { seq, exit_code, start_ms: 0, duration_ms: 1, cmd: b"cmd".to_vec() }
}

#[test]
fn all_successes_exit_zero() {
    let mut collector = Collector::new(false, false);
    for seq in 0..3 {
        let halt = collector.absorb(&result_with_exit(seq, 0));
        assert!(!halt);
    }
    assert_eq!(collector.received, 3);
    assert!(!collector.any_failed);
    assert_eq!(collector.exit_status(), 0);
}

#[test]
fn one_failure_exits_one_without_halting() {
    let mut collector = Collector::new(false, false);
    assert!(!collector.absorb(&result_with_exit(0, 0)));
    assert!(!collector.absorb(&result_with_exit(1, 2)));
    assert!(!collector.absorb(&result_with_exit(2, 0)));
    assert_eq!(collector.received, 3);
    assert!(collector.any_failed);
    assert!(!collector.halted);
    assert_eq!(collector.exit_status(), 1);
}

#[test]
fn dry_run_ignores_exit_codes() {
    let mut collector = Collector::new(true, false);
    assert!(!collector.absorb(&result_with_exit(0, 1)));
    assert!(!collector.absorb(&result_with_exit(1, 127)));
    assert!(!collector.any_failed);
    assert!(!collector.halted);
    assert_eq!(collector.exit_status(), 0);
}

#[test]
fn dry_run_ignores_exit_codes_even_with_halt_configured() {
    let mut collector = Collector::new(true, true);
    assert!(!collector.absorb(&result_with_exit(0, 1)));
    assert!(!collector.halted);
    assert_eq!(collector.exit_status(), 0);
}

#[test]
fn halt_on_error_fires_on_the_first_failure() {
    let mut collector = Collector::new(false, true);
    assert!(!collector.absorb(&result_with_exit(0, 0)));
    let halt = collector.absorb(&result_with_exit(1, 1));
    assert!(halt);
    assert!(collector.halted);
    assert_eq!(collector.received, 2);
    assert_eq!(collector.exit_status(), 1);
}
