use weather::stats::{Accumulated, Summary};
use weather::wind::Wind;

// Readings are in hundredths: 2040 stands for 20.40.
#[test]
fn check_accumulated_and_summary() {
    let mut acc = Accumulated::new();
    acc.add(2040);
    acc.add(1060);
    acc.add(560);
    assert_eq!(acc.max_value(), 2040);
    assert_eq!(acc.min_value(), 560);
    assert_eq!(acc.len(), 3);
    assert_eq!(acc.sum(), 2040 + 1060 + 560);

    let summary = acc.sample();
    assert_eq!(acc.len(), 0);

    assert_eq!(summary.get_max(), 2040);
    assert_eq!(summary.get_min(), 560);
    assert_eq!(summary.get_average(), (2040 + 1060 + 560) / 3);

    acc.add(340);
    acc.add(960);
    assert_eq!(acc.max_value(), 960);
    assert_eq!(acc.min_value(), 340);
    assert_eq!(acc.len(), 2);
    assert_eq!(acc.sum(), 960 + 340);
}

#[test]
fn empty_period_summarises_to_zero() {
    let mut acc = Accumulated::new();
    let summary = acc.sample();
    assert_eq!(summary, Summary { max_value: 0, min_value: 0, ave_value: 0 });
    acc.add(-5);
    acc.add(-2);
    acc.add(-2);
    acc.reset();
    assert_eq!(acc.len(), 0);
    assert_eq!(acc.sample(), Summary { max_value: 0, min_value: 0, ave_value: 0 });
}

#[test]
fn average_rounds_toward_zero() {
    let mut acc = Accumulated::new();
    acc.add(-5);
    acc.add(-2);
    acc.add(-2);
    assert_eq!(acc.sample(), Summary { max_value: -2, min_value: -5, ave_value: -3 });
    acc.add(5);
    acc.add(2);
    acc.add(2);
    assert_eq!(acc.sample(), Summary { max_value: 5, min_value: 2, ave_value: 3 });
    acc.add(i32::MAX);
    acc.add(i32::MAX);
    assert_eq!(acc.sample().get_average(), i32::MAX);
}

#[test]
fn wind_accumulates_between_samples() {
    let mut wind = Wind::new("/dev/wind");
    assert_eq!(wind.dev_name, "/dev/wind");
    assert!(wind.process(120));
    assert!(wind.process(340));
    assert!(wind.process(50));
    let summary = wind.sample();
    assert_eq!(summary, Summary { max_value: 340, min_value: 50, ave_value: 170 });
    assert_eq!(wind.sample(), Summary { max_value: 0, min_value: 0, ave_value: 0 });
    wind.process(7);
    wind.init("/dev/other");
    assert_eq!(wind.dev_name, "/dev/other");
    assert_eq!(wind.speed.len(), 0);
    wind.process(9);
    wind.reset();
    assert_eq!(wind.speed.len(), 0);
}

#[test]
fn wind_drops_readings_beyond_capacity() {
    let mut wind = Wind::new("w");
    for _ in 0..65535 {
        assert!(wind.process(1));
    }
    assert!(!wind.process(1));
    assert_eq!(wind.speed.len(), 65535);
    assert_eq!(wind.sample().get_average(), 1);
}
