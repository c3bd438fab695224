use chrono::{DateTime, Datelike, Timelike, Utc};
use weather::clock::Clock;

#[test]
fn check_nearest_tick() {
    let ticker = Clock::new(60 * 15);

    // Read the clock on both sides of the call, and try again when a second
    // boundary fell between the readings.
    loop {
        let now = Utc::now();
        let unix_time = ticker.get_nearest_tick();
        if Utc::now().timestamp() != now.timestamp() {
            continue;
        }

        let now_test = DateTime::from_timestamp(unix_time, 0).expect("invalid timestamp");
        assert_eq!(0, now_test.second());

        let into_period = ((60 * now.minute() + now.second()) % (60 * 15)) as i64;
        if into_period > 60 * 15 / 2 {
            // More than half a period in: the nearest tick is the next one,
            // which may fall in the next hour.
            assert_eq!(unix_time, now.timestamp() - into_period + 60 * 15);
            break;
        }

        assert_eq!(now.year_ce(), now_test.year_ce());
        assert_eq!(now.month(), now_test.month());
        assert_eq!(now.day(), now_test.day());
        assert_eq!(now.hour(), now_test.hour());

        if now.minute() < 8 {
            assert_eq!(now_test.minute(), 0)
        } else if now.minute() < 23 {
            assert_eq!(now_test.minute(), 15)
        } else if now.minute() < 38 {
            assert_eq!(now_test.minute(), 30)
        } else {
            assert_eq!(now_test.minute(), 45)
        }
        break;
    }
}

#[test]
fn secs_to_next_tick() {
    let ticker = Clock::new(60 * 15);

    // Read the clock on both sides of the call, and try again when a second
    // boundary fell between the readings.
    loop {
        let now = Utc::now();
        let delay_to_hour = 60 * 60 - 60 * now.minute() - now.second();
        let delay = ticker.secs_to_next_tick();
        if Utc::now().timestamp() != now.timestamp() {
            continue;
        }

        if now.minute() < 15 {
            assert_eq!(delay, delay_to_hour - 60 * 45)
        } else if now.minute() < 30 {
            assert_eq!(delay, delay_to_hour - 60 * 30)
        } else if now.minute() < 45 {
            assert_eq!(delay, delay_to_hour - 60 * 15)
        } else {
            assert_eq!(delay, delay_to_hour)
        }
        break;
    }
}

#[test]
fn nearest_tick_for_given_times() {
    let ticker = Clock::new(900);
    // 12:07:29 goes back to 12:00, 12:07:31 forward to 12:15.
    let noon = 1_700_006_400;
    assert_eq!(ticker.nearest_tick_at(noon + 449, 7, 29), noon);
    assert_eq!(ticker.nearest_tick_at(noon + 451, 7, 31), noon + 900);
    // Exactly half way goes to the earlier tick.
    assert_eq!(ticker.nearest_tick_at(noon + 450, 7, 30), noon);
    assert_eq!(ticker.nearest_tick_at(noon + 3599, 59, 59), noon + 3600);
}

#[test]
fn seconds_to_tick_for_given_times() {
    let ticker = Clock::new(900);
    assert_eq!(ticker.secs_to_tick_at(0, 0), 900);
    assert_eq!(ticker.secs_to_tick_at(14, 59), 1);
    assert_eq!(ticker.secs_to_tick_at(20, 0), 600);
    let hourly = Clock::new(3600);
    assert_eq!(hourly.secs_to_tick_at(59, 59), 1);
}

#[test]
fn period_must_divide_hour() {
    assert!(Clock::try_new(900).is_some());
    assert!(Clock::try_new(7).is_none());
    assert!(Clock::try_new(0).is_none());
    assert!(Clock::try_new(-900).is_none());
    assert!(Clock::try_new(7200).is_none());
}
