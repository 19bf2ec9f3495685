use marker_tracking::average::SlidingWindowAverage;

#[test]
fn initial_value_is_the_average() {
    let avg = SlidingWindowAverage::new(10u64, 3);
    assert_eq!(avg.get_average(), 10);
}

#[test]
fn average_of_partial_window() {
    let mut avg = SlidingWindowAverage::new(10u64, 3);
    avg.submit_sample(20);
    assert_eq!(avg.get_average(), 15);
    avg.submit_sample(30);
    assert_eq!(avg.get_average(), 20);
}

#[test]
fn full_window_drops_oldest_sample() {
    let mut avg = SlidingWindowAverage::new(10u64, 3);
    avg.submit_sample(20);
    avg.submit_sample(30);
    avg.submit_sample(40);
    assert_eq!(avg.get_average(), 30);
}

#[test]
fn window_of_one_keeps_only_newest() {
    let mut avg = SlidingWindowAverage::new(5u64, 1);
    avg.submit_sample(9);
    assert_eq!(avg.get_average(), 9);
    avg.submit_sample(100);
    assert_eq!(avg.get_average(), 100);
}

#[test]
fn average_truncates() {
    let mut avg = SlidingWindowAverage::new(1u64, 4);
    avg.submit_sample(2);
    assert_eq!(avg.get_average(), 1);
}

#[test]
fn retain_keeps_newest_samples() {
    let mut avg = SlidingWindowAverage::new(10u64, 4);
    avg.submit_sample(20);
    avg.submit_sample(30);
    avg.submit_sample(40);
    avg.retain(1);
    assert_eq!(avg.get_average(), 40);
}

#[test]
fn retain_more_than_present_keeps_all() {
    let mut avg = SlidingWindowAverage::new(10u64, 4);
    avg.submit_sample(20);
    avg.retain(5);
    assert_eq!(avg.get_average(), 15);
}

#[test]
fn retain_two_of_three() {
    let mut avg = SlidingWindowAverage::new(6u64, 8);
    avg.submit_sample(12);
    avg.submit_sample(18);
    avg.retain(2);
    assert_eq!(avg.get_average(), 15);
}

#[test]
fn samples_are_exposed_oldest_first() {
    let mut avg = SlidingWindowAverage::new(1u64, 2);
    avg.submit_sample(2);
    avg.submit_sample(3);
    let samples: Vec<u64> = avg.samples().iter().copied().collect();
    assert_eq!(samples, vec![2, 3]);
}

#[test]
fn large_samples_do_not_overflow() {
    let mut avg = SlidingWindowAverage::new(u64::MAX, 4);
    avg.submit_sample(u64::MAX);
    avg.submit_sample(u64::MAX);
    assert_eq!(avg.get_average(), u64::MAX);
}
