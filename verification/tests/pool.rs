use parallelion::pool::plan_workers;
use parallelion::pool::plan_workers_detected;
use parallelion::pool::PoolSize;

#[test]
fn known_argument_count_clamps_the_pool() {
    assert_eq!(plan_workers(Some(8), 4, Some(3)), PoolSize::Fixed(3));
    assert_eq!(plan_workers(Some(2), 4, Some(3)), PoolSize::Fixed(2));
}

#[test]
fn cores_are_used_when_nothing_is_configured() {
    assert_eq!(plan_workers(None, 4, Some(10)), PoolSize::Fixed(4));
    assert_eq!(plan_workers(None, 4, None), PoolSize::Fixed(4));
    assert_eq!(plan_workers(None, 16, Some(3)), PoolSize::Fixed(3));
}

#[test]
fn unknown_argument_count_leaves_the_pool_unclamped() {
    assert_eq!(plan_workers(Some(8), 4, None), PoolSize::Fixed(8));
}

#[test]
fn zero_workers_means_one_worker_per_job() {
    assert_eq!(plan_workers(Some(0), 4, Some(3)), PoolSize::PerJob);
    assert_eq!(plan_workers(Some(0), 4, None), PoolSize::PerJob);
}

#[test]
fn detected_cores_respect_the_clamp() {
    assert_eq!(plan_workers_detected(Some(3), Some(10)), PoolSize::Fixed(3));
    assert_eq!(plan_workers_detected(Some(0), Some(10)), PoolSize::PerJob);
    match plan_workers_detected(None, None) {
        PoolSize::Fixed(w) => assert!(w >= 1),
        PoolSize::PerJob => panic!("no worker count was configured"),
    }
}
