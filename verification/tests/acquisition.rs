use cistern::acquisition::{
    AcquisitionLoop, FailurePolicy, LoopState, NextAction, SampleEvent,
    DEFAULT_PUBLISH_THRESHOLD,
};
use cistern::convert::{convert, CalibrationConstants, Ratio};
use cistern::Cistern;

fn running(threshold: u32, policy: FailurePolicy) -> AcquisitionLoop {
    AcquisitionLoop::new(Cistern::new(), threshold, policy)
}

fn sample(code: i16) -> SampleEvent<&'static str> {
    SampleEvent::Sample(code)
}

fn failed(cause: &'static str) -> SampleEvent<&'static str> {
    SampleEvent::ReadFailed(cause)
}

#[test]
fn a_new_loop_runs_and_reads() {
    let mut acquisition = running(3, FailurePolicy::Fatal);
    assert_eq!(acquisition.state(), LoopState::Running);
    assert_eq!(acquisition.start(false), NextAction::ReadSample);
    assert_eq!(acquisition.state(), LoopState::Running);
    assert_eq!(DEFAULT_PUBLISH_THRESHOLD, 1000);
}

#[test]
fn a_stop_before_the_first_read_means_no_read() {
    let mut acquisition = running(3, FailurePolicy::Fatal);
    assert_eq!(acquisition.start(true), NextAction::ReleaseSource);
    assert_eq!(acquisition.state(), LoopState::Stopping);
    acquisition.release();
    assert_eq!(acquisition.state(), LoopState::Stopped);
    assert_eq!(acquisition.start(false), NextAction::ReleaseSource);
    assert_eq!(acquisition.state(), LoopState::Stopped);
}

#[test]
fn every_third_sample_makes_a_publication_due() {
    let mut acquisition = running(3, FailurePolicy::Fatal);
    let mut published = Vec::new();
    for (i, code) in [100i16, 300, 200, 7000, 7000, 1, 2].into_iter().enumerate() {
        let directive = acquisition.step(sample(code), false);
        assert!(directive.failure.is_none());
        assert!(!directive.fatal);
        assert_eq!(directive.next, NextAction::ReadSample);
        assert_eq!(directive.publish.is_some(), i % 3 == 2);
        if let Some(reading) = directive.publish {
            published.push(reading);
        }
    }
    let calib = CalibrationConstants::default();
    // The median of 100, 300, 200 is 200; that of the first six codes is
    // the mean of 200 and 300.
    assert_eq!(published, vec![convert(200, &calib), convert(250, &calib)]);
    assert_eq!(acquisition.state(), LoopState::Running);
}

#[test]
fn published_reading_is_the_level_of_the_cistern() {
    let mut acquisition = running(2, FailurePolicy::Fatal);
    assert!(acquisition.step(sample(3600), false).publish.is_none());
    let reading = acquisition.step(sample(3600), false).publish.unwrap();
    assert_eq!(reading.height_cm(), Ratio { num: 22118400, den: 327670 });
    assert_eq!(reading.fill_fraction(), Ratio { num: 22118400, den: 44235450 });
    assert_eq!(reading.volume_l(), Ratio { num: 35389440000, den: 44235450 });
    assert_eq!(Some(reading), acquisition.cistern().level());
}

#[test]
fn thresholds_of_zero_and_one_publish_every_sample() {
    for threshold in [0u32, 1] {
        let mut acquisition = running(threshold, FailurePolicy::Fatal);
        for code in [5i16, 6, 7] {
            assert!(acquisition.step(sample(code), false).publish.is_some());
        }
    }
}

#[test]
fn a_stop_ends_the_loop_after_the_read_in_flight() {
    let mut acquisition = running(1000, FailurePolicy::LogAndContinue);
    assert_eq!(acquisition.step(sample(1), false).next, NextAction::ReadSample);
    let directive = acquisition.step(sample(2), true);
    assert_eq!(directive.next, NextAction::ReleaseSource);
    assert_eq!(acquisition.state(), LoopState::Stopping);
    acquisition.release();
    assert_eq!(acquisition.state(), LoopState::Stopped);
    // The sample of the read in flight is kept.
    assert_eq!(acquisition.cistern().level(), Some(convert(1, &CalibrationConstants::default())));
}

#[test]
fn a_stop_with_a_due_publication_still_publishes() {
    let mut acquisition = running(1, FailurePolicy::Fatal);
    let directive = acquisition.step(sample(3600), true);
    assert_eq!(directive.publish, Some(convert(3600, &CalibrationConstants::default())));
    assert_eq!(directive.next, NextAction::ReleaseSource);
}

#[test]
fn a_stop_ends_the_loop_after_a_failed_read_too() {
    let mut acquisition = running(1000, FailurePolicy::LogAndContinue);
    let directive = acquisition.step(failed("bus"), true);
    assert_eq!(directive.next, NextAction::ReleaseSource);
    assert!(!directive.fatal);
    assert_eq!(directive.failure.unwrap().cause, "bus");
    assert_eq!(acquisition.state(), LoopState::Stopping);
}

#[test]
fn fatal_policy_stops_at_the_first_failure() {
    let mut acquisition = running(1000, FailurePolicy::Fatal);
    acquisition.step(sample(1), false);
    let directive = acquisition.step(failed("nack"), false);
    assert!(directive.fatal);
    assert!(directive.publish.is_none());
    let failure = directive.failure.unwrap();
    assert_eq!(failure.cause, "nack");
    assert_eq!(failure.consecutive_failures, 1);
    assert_eq!(directive.next, NextAction::ReleaseSource);
    assert_eq!(acquisition.state(), LoopState::Stopping);
    acquisition.release();
    assert_eq!(acquisition.state(), LoopState::Stopped);
}

#[test]
fn log_and_continue_reads_on_after_failures() {
    let mut acquisition = running(1000, FailurePolicy::LogAndContinue);
    for n in 1..=20u32 {
        let directive = acquisition.step(failed("noise"), false);
        assert!(!directive.fatal);
        assert_eq!(directive.next, NextAction::ReadSample);
        let failure = directive.failure.unwrap();
        assert_eq!(failure.cause, "noise");
        assert_eq!(failure.consecutive_failures, n);
    }
    assert_eq!(acquisition.state(), LoopState::Running);
}

#[test]
fn fatal_after_three_stops_at_the_third_failure_in_a_row() {
    let mut acquisition = running(1000, FailurePolicy::FatalAfter(3));
    assert!(!acquisition.step(failed("a"), false).fatal);
    assert!(!acquisition.step(failed("b"), false).fatal);
    // A sample in between starts the count over.
    acquisition.step(sample(9), false);
    let directive = acquisition.step(failed("c"), false);
    assert!(!directive.fatal);
    assert_eq!(directive.failure.unwrap().consecutive_failures, 1);
    assert!(!acquisition.step(failed("d"), false).fatal);
    let directive = acquisition.step(failed("e"), false);
    assert!(directive.fatal);
    assert_eq!(directive.next, NextAction::ReleaseSource);
    let failure = directive.failure.unwrap();
    assert_eq!(failure.cause, "e");
    assert_eq!(failure.consecutive_failures, 3);
    assert_eq!(acquisition.state(), LoopState::Stopping);
}

#[test]
fn fatal_after_zero_or_one_is_fatal_at_once() {
    for limit in [0u32, 1] {
        let mut acquisition = running(1000, FailurePolicy::FatalAfter(limit));
        let directive = acquisition.step(failed("x"), false);
        assert!(directive.fatal);
        assert_eq!(directive.next, NextAction::ReleaseSource);
    }
}

#[test]
fn failures_do_not_count_as_samples() {
    let mut acquisition = running(2, FailurePolicy::LogAndContinue);
    assert!(acquisition.step(sample(10), false).publish.is_none());
    assert!(acquisition.step(failed("x"), false).publish.is_none());
    assert!(acquisition.step(failed("y"), false).publish.is_none());
    assert_eq!(
        acquisition.step(sample(20), false).publish,
        Some(convert(15, &CalibrationConstants::default()))
    );
}

#[test]
fn a_loop_that_is_not_running_takes_nothing_in() {
    let mut acquisition = running(1, FailurePolicy::LogAndContinue);
    acquisition.step(sample(3600), true);
    assert_eq!(acquisition.state(), LoopState::Stopping);
    let directive = acquisition.step(sample(0), false);
    assert!(directive.publish.is_none());
    assert!(directive.failure.is_none());
    assert_eq!(directive.next, NextAction::ReleaseSource);
    assert_eq!(acquisition.state(), LoopState::Stopping);
    let directive = acquisition.step(failed("late"), false);
    assert!(!directive.fatal);
    assert_eq!(directive.failure.unwrap().cause, "late");
    assert_eq!(directive.next, NextAction::ReleaseSource);
    acquisition.release();
    let directive = acquisition.step(sample(0), false);
    assert_eq!(directive.next, NextAction::ReleaseSource);
    assert_eq!(acquisition.state(), LoopState::Stopped);
    assert_eq!(
        acquisition.cistern().level(),
        Some(convert(3600, &CalibrationConstants::default()))
    );
}
