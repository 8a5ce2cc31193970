use openless_remote::timer::time_left;

#[test]
fn periods_run_out() {
    assert_eq!(time_left(5, 10, 5), 10);
    assert_eq!(time_left(5, 10, 3), 10);
    assert_eq!(time_left(5, 10, 14), 1);
    assert_eq!(time_left(5, 10, 15), 0);
    assert_eq!(time_left(5, 10, u64::MAX), 0);
    assert_eq!(time_left(u64::MAX, u64::MAX, 0), u64::MAX);
}
