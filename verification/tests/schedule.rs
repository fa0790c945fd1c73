use crn_picker::cli::{instant_of, parse_time, MakeConfigArgs, TimeError};
use crn_picker::requester::{Config, ERROR_MARGIN, ONE_MINUTE, TRT_OFFSET_SECONDS};
use crn_picker::retry::{RetryLoop, RetryStep};
use crn_picker::schedule::{wait_until, Instant, Wait, NANOS_PER_SECOND};

fn at(secs: i64, nanos: u32) -> Instant {
    Instant::new(secs, nanos).expect("an instant")
}

#[test]
fn an_instant_has_less_than_a_second_of_nanoseconds() {
    assert!(Instant::new(5, NANOS_PER_SECOND).is_none());
    assert!(Instant::new(5, u32::MAX).is_none());
    let instant = at(-5, 999_999_999);
    assert_eq!(instant.timestamp(), -5);
    assert_eq!(instant.timestamp_subsec_nanos(), 999_999_999);
    assert_eq!(instant.total_nanos(), -4_000_000_001);
    assert_eq!(at(i64::MAX, 999_999_999).total_nanos(), 9_223_372_036_854_775_807_999_999_999);
    assert_eq!(at(i64::MIN, 0).total_nanos(), -9_223_372_036_854_775_808_000_000_000);
}

#[test]
fn durations_between_instants_are_signed() {
    assert_eq!(at(10, 5).signed_duration_since(at(8, 7)), 1_999_999_998);
    assert_eq!(at(8, 7).signed_duration_since(at(10, 5)), -1_999_999_998);
    assert_eq!(
        at(i64::MAX, 999_999_999).signed_duration_since(at(i64::MIN, 0)),
        18_446_744_073_709_551_615_999_999_999
    );
}

#[test]
fn seconds_are_added_where_they_fit() {
    assert_eq!(at(10, 5).checked_add_seconds(-12), Some(at(-2, 5)));
    assert_eq!(at(i64::MAX, 5).checked_add_seconds(1), None);
    assert_eq!(at(i64::MIN, 5).checked_add_seconds(-1), None);
    assert_eq!(at(i64::MIN, 5).checked_add_seconds(0), Some(at(i64::MIN, 5)));
}

#[test]
fn waiting_returns_at_once_when_the_point_is_reached() {
    let deadline = at(1_000, 0);
    assert_eq!(wait_until(deadline, ONE_MINUTE, at(940, 0)), Wait::Proceed);
    assert_eq!(wait_until(deadline, ONE_MINUTE, at(940, 1)), Wait::Proceed);
    assert_eq!(wait_until(deadline, ONE_MINUTE, at(2_000, 0)), Wait::Proceed);
    assert_eq!(wait_until(deadline, 0, at(1_000, 0)), Wait::Proceed);
    assert_eq!(wait_until(deadline, -ERROR_MARGIN, at(1_000, 1_000_000)), Wait::Proceed);
}

#[test]
fn waiting_sleeps_for_what_is_left() {
    let deadline = at(1_000, 0);
    assert_eq!(wait_until(deadline, ONE_MINUTE, at(939, 999_999_999)), Wait::Sleep(1));
    assert_eq!(wait_until(deadline, ONE_MINUTE, at(0, 0)), Wait::Sleep(940_000_000_000));
    assert_eq!(wait_until(deadline, 0, at(998, 0)), Wait::Sleep(2_000_000_000));
    assert_eq!(wait_until(deadline, -ERROR_MARGIN, at(998, 0)), Wait::Sleep(2_001_000_000));
    assert_eq!(wait_until(deadline, -ERROR_MARGIN, at(1_000, 999_999)), Wait::Sleep(1));
    assert_eq!(
        wait_until(at(i64::MAX, 999_999_999), i64::MIN, at(i64::MIN, 0)),
        Wait::Sleep(18_446_744_073_709_551_615_999_999_999 + 9_223_372_036_854_775_808)
    );
}

#[test]
fn the_margins_are_a_minute_and_a_millisecond() {
    assert_eq!(ONE_MINUTE, 60 * 1_000_000_000);
    assert_eq!(ERROR_MARGIN, 1_000_000);
    assert_eq!(TRT_OFFSET_SECONDS, 10_800);
}

#[test]
fn a_retry_loop_submits_as_often_as_it_allows() {
    for attempts in [0u64, 1, 2, 5, 100] {
        let mut count = RetryLoop::new(attempts);
        let mut submissions = 0;
        while count.advance() == RetryStep::Submit {
            submissions += 1;
            assert_eq!(count.submitted, submissions);
        }
        assert_eq!(submissions, attempts);
        assert_eq!(count.advance(), RetryStep::Finished);
        assert_eq!(count, RetryLoop { attempts, submitted: attempts });
    }
}

#[test]
fn a_retry_loop_counts_to_the_largest_number() {
    let mut count = RetryLoop { attempts: u64::MAX, submitted: u64::MAX - 1 };
    assert_eq!(count.advance(), RetryStep::Submit);
    assert_eq!(count.submitted, u64::MAX);
    assert_eq!(count.advance(), RetryStep::Finished);
    assert_eq!(count.submitted, u64::MAX);
}

#[test]
fn times_are_read_from_the_command_line() {
    assert_eq!(parse_time("1970-01-01 00:00:00"), Ok(at(0, 0)));
    assert_eq!(parse_time("2025-02-10 14:00:00"), Ok(at(1_739_196_000, 0)));
    assert_eq!(parse_time("2025-02-10T14:00:00Z"), Ok(at(1_739_196_000, 0)));
    assert_eq!(parse_time("2025-02-10T14:00:00.25Z"), Ok(at(1_739_196_000, 250_000_000)));
    assert_eq!(parse_time("2025-02-10 14:00:00.000000001"), Ok(at(1_739_196_000, 1)));
}

#[test]
fn a_text_that_is_no_time_is_unreadable() {
    for text in ["", "now", "2025-02-10", "2025-13-10 14:00:00", "1969-12-31 23:59:59", "10.02.2025 14:00"]
    {
        assert_eq!(parse_time(text), Err(TimeError::Unreadable), "{}", text);
    }
}

#[test]
fn a_timestamp_becomes_an_instant_where_it_fits() {
    assert_eq!(instant_of(None), Err(TimeError::Unreadable));
    assert_eq!(instant_of(Some((12, 34))), Ok(at(12, 34)));
    assert_eq!(instant_of(Some((i64::MAX as u64, 0))), Ok(at(i64::MAX, 0)));
    assert_eq!(instant_of(Some((i64::MAX as u64 + 1, 0))), Err(TimeError::OutOfRange));
    assert_eq!(instant_of(Some((u64::MAX, 0))), Err(TimeError::OutOfRange));
    assert_eq!(instant_of(Some((0, 1_000_000_000))), Err(TimeError::OutOfRange));
}

fn args(time: Instant) -> MakeConfigArgs {
    MakeConfigArgs {
        output_path: "config.json".to_string(),
        username: "user".to_string(),
        password: "secret".to_string(),
        time,
        crn_list: vec!["1".to_string(), "2".to_string()],
        scrn_list: vec!["3".to_string()],
    }
}

#[test]
fn a_configuration_takes_the_time_as_local_time() {
    let config = Config::from_args(args(at(1_739_196_000, 7))).expect("a configuration");
    assert_eq!(config.time, at(1_739_196_000 - 3 * 3600, 7));
    assert_eq!(config.username, "user");
    assert_eq!(config.password, "secret");
    assert_eq!(config.crn_list, vec!["1".to_string(), "2".to_string()]);
    assert_eq!(config.scrn_list, vec!["3".to_string()]);
    let early = Config::from_args(args(at(0, 0))).expect("a configuration");
    assert_eq!(early.time, at(-10_800, 0));
}

#[test]
fn a_configuration_needs_a_time_that_can_be_written() {
    assert!(Config::from_args(args(at(i64::MIN + 10_799, 0))).is_none());
    assert!(Config::from_args(args(at(i64::MIN, 0))).is_none());
    let first = Config::from_args(args(at(i64::MIN + 10_800, 0))).expect("a configuration");
    assert_eq!(first.time, at(i64::MIN, 0));
}
