use scheduler::schedule::{next_run, ExecuteType};

#[test]
fn next_run_adds_unit_seconds() {
    let t: i64 = 1_700_000_000;
    assert_eq!(next_run(t, ExecuteType::Seconds, 7), Some(t + 7));
    assert_eq!(next_run(t, ExecuteType::Minutes, 5), Some(t + 300));
    assert_eq!(next_run(t, ExecuteType::Hours, 2), Some(t + 7200));
    assert_eq!(next_run(t, ExecuteType::Days, 3), Some(t + 259_200));
}

#[test]
fn next_run_offset_is_magnitude_times_unit() {
    let units = [
        (ExecuteType::Seconds, 1i64),
        (ExecuteType::Minutes, 60),
        (ExecuteType::Hours, 3600),
        (ExecuteType::Days, 86400),
    ];
    for (unit, secs) in units {
        for m in [1i64, 2, 10, 1000] {
            let t: i64 = -5_000;
            assert_eq!(next_run(t, unit, m).unwrap() - t, m * secs);
            assert_eq!(unit.seconds(), secs);
        }
    }
}

#[test]
fn next_run_rejects_magnitude_below_one() {
    assert_eq!(next_run(100, ExecuteType::Minutes, 0), None);
    assert_eq!(next_run(100, ExecuteType::Seconds, -3), None);
}

#[test]
fn next_run_rejects_overflow() {
    assert_eq!(next_run(i64::MAX - 10, ExecuteType::Seconds, 11), None);
    assert_eq!(next_run(i64::MAX - 10, ExecuteType::Seconds, 10), Some(i64::MAX));
    assert_eq!(next_run(0, ExecuteType::Days, i64::MAX), None);
}
