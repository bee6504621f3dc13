use parallelion::job::clock_now_ms;
use parallelion::job::complete_job;
use parallelion::job::elapsed_ms;
use parallelion::job::finish_job;
use parallelion::job::Job;
use parallelion::job::Producer;

#[test]
fn elapsed_time_is_end_minus_start() {
    assert_eq!(elapsed_ms(100, 250), 150);
    assert_eq!(elapsed_ms(0, 0), 0);
    assert_eq!(elapsed_ms(-50, 50), 100);
}

#[test]
fn elapsed_time_clamps_a_backward_clock_to_zero() {
    assert_eq!(elapsed_ms(250, 100), 0);
    assert_eq!(elapsed_ms(i64::MAX, i64::MIN), 0);
}

#[test]
fn elapsed_time_spans_the_whole_clock_range() {
    assert_eq!(elapsed_ms(i64::MIN, i64::MAX), u64::MAX);
}

#[test]
fn completed_job_carries_everything_through() {
    let job = Job { seq: 7, cmd: b"echo x".to_vec() };
    let result = complete_job(job, 3, 1_000, 1_250);
    assert_eq!(result.seq, 7);
    assert_eq!(result.cmd, b"echo x".to_vec());
    assert_eq!(result.exit_code, 3);
    assert_eq!(result.start_ms, 1_000);
    assert_eq!(result.duration_ms, 250);
}

#[test]
fn finished_job_measures_a_nonnegative_duration() {
    let start = clock_now_ms();
    let job = Job { seq: 0, cmd: b"true".to_vec() };
    let result = finish_job(job, 0, start);
    assert_eq!(result.seq, 0);
    assert_eq!(result.exit_code, 0);
    assert_eq!(result.start_ms, start);
    assert!(result.duration_ms < 60_000);
}

#[test]
fn producer_numbers_jobs_in_production_order() {
    let mut producer = Producer::new(b"echo {}".to_vec());
    let first = producer.produce(&b"a".to_vec());
    let second = producer.produce(&b"b".to_vec());
    let third = producer.produce(&b"c".to_vec());
    assert_eq!(first.seq, 0);
    assert_eq!(second.seq, 1);
    assert_eq!(third.seq, 2);
    assert_eq!(first.cmd, b"echo a".to_vec());
    assert_eq!(second.cmd, b"echo b".to_vec());
    assert_eq!(third.cmd, b"echo c".to_vec());
}
