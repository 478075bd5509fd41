//! The acquisition loop as a state machine. The caller owns the sample
//! source: it reads one sample at a time and hands each outcome to `step`,
//! which takes the sample into the cistern, says when a reading is due for
//! publication, and says whether to read on or to release the source.

use crate::cistern::Cistern;
use crate::convert::{convert_spec, Calibration, Level, PhysicalReading};
use crate::median::median_of;
use crate::window::most_recent;
use vstd::prelude::*;

verus! {

/// The number of samples between two publications unless told otherwise.
pub const DEFAULT_PUBLISH_THRESHOLD: u32 = 1000;

/// Where the loop stands.
#[derive(Clone, Copy, Debug, PartialEq, Eq, Structural)]
pub enum LoopState {
    /// Samples are being read.
    Running,
    /// No further sample is read; the source is about to be released.
    Stopping,
    /// The source is released.
    Stopped,
}

/// What a failed read means for the loop.
#[derive(Clone, Copy, Debug, PartialEq, Eq, Structural)]
pub enum FailurePolicy {
    /// Every failure is logged, and the loop reads on.
    LogAndContinue,
    /// The first failure stops the loop.
    Fatal,
    /// Failures are logged, until so many have come in a row: that one
    /// stops the loop.
    FatalAfter(u32),
}

/// The outcome of one read of the sample source.
#[derive(Debug)]
pub enum SampleEvent<E> {
    /// The source gave a raw code.
    Sample(i16),
    /// The read failed, for the given cause.
    ReadFailed(E),
}

/// A failed read of the sample source.
#[derive(Debug)]
pub struct AcquisitionError<E> {
    /// What the source reported.
    pub cause: E,
    /// The number of reads that failed in a row, this one included.
    pub consecutive_failures: u32,
}

/// What the caller does next with the sample source.
#[derive(Clone, Copy, Debug, PartialEq, Eq, Structural)]
pub enum NextAction {
    /// Read one more sample, and hand the outcome to `step`.
    ReadSample,
    /// Read no more: release the source, and call `release`.
    ReleaseSource,
}

/// What the loop asks of the caller after one read.
#[derive(Debug)]
pub struct Directive<E> {
    /// A reading to write to the published reading, and to tell observers of.
    pub publish: Option<PhysicalReading>,
    /// A failed read. It is to be logged, or handed on where it is fatal.
    pub failure: Option<AcquisitionError<E>>,
    /// The failure ends the acquisition.
    pub fatal: bool,
    /// Whether to read on.
    pub next: NextAction,
}

/// The loop as plain values.
pub struct LoopModel {
    pub state: LoopState,
    /// The codes in the cistern's window, oldest first.
    pub samples: Seq<i16>,
    /// The capacity of that window.
    pub capacity: nat,
    pub calib: Calibration,
    /// The number of samples taken in since the last publication.
    pub unpublished: nat,
    /// The number of samples that make a publication due.
    pub threshold: nat,
    pub policy: FailurePolicy,
    /// The number of reads that failed in a row up to now.
    pub failures: nat,
}

/// With one more sample a publication is due.
pub open spec fn publication_due(m: LoopModel) -> bool {
    m.unpublished + 1 >= m.threshold
}

/// So many failures in a row end the acquisition under the policy.
pub open spec fn is_fatal(policy: FailurePolicy, failures: nat) -> bool {
    match policy {
        FailurePolicy::LogAndContinue => false,
        FailurePolicy::Fatal => true,
        FailurePolicy::FatalAfter(limit) => failures >= limit,
    }
}

/// One more failure in a row. The count stops at the largest number.
pub open spec fn one_more(failures: nat) -> nat {
    if failures < u32::MAX {
        failures + 1
    } else {
        failures
    }
}

/// The state after an iteration: a running loop stops where a stop was asked
/// for or a failure was fatal.
pub open spec fn state_after(stop_requested: bool, fatal: bool) -> LoopState {
    if stop_requested || fatal {
        LoopState::Stopping
    } else {
        LoopState::Running
    }
}

/// The running loop after it took in a sample: the window has the code, the
/// failures in a row are over, and the count of unpublished samples goes up,
/// or back to zero where a publication is due.
pub open spec fn after_sample(m: LoopModel, code: i16, stop_requested: bool) -> LoopModel {
    LoopModel {
        state: state_after(stop_requested, false),
        samples: most_recent(m.samples.push(code), m.capacity),
        unpublished: if publication_due(m) {
            0
        } else {
            m.unpublished + 1
        },
        failures: 0,
        ..m
    }
}

/// The running loop after a read failed.
pub open spec fn after_failure(m: LoopModel, stop_requested: bool) -> LoopModel {
    LoopModel {
        state: state_after(stop_requested, is_fatal(m.policy, one_more(m.failures))),
        failures: one_more(m.failures),
        ..m
    }
}

/// The loop after the source was released.
pub open spec fn after_release(m: LoopModel) -> LoopModel {
    LoopModel { state: LoopState::Stopped, ..m }
}

/// What the caller does next in a given state.
pub open spec fn action_in(state: LoopState) -> NextAction {
    match state {
        LoopState::Running => NextAction::ReadSample,
        _ => NextAction::ReleaseSource,
    }
}

/// The level of a cistern whose window is not empty.
pub open spec fn level_of(samples: Seq<i16>, calib: Calibration) -> Level {
    convert_spec(median_of(samples.to_multiset())->0.spec_code(), calib)
}

/// Once a stop is asked for, a running loop is over after the read in
/// flight: whether that read gives a sample or fails, the loop is stopping
/// then and asks for no further read, and with the release it is stopped.
/// Where no read is in flight, the same holds at once.
pub proof fn lemma_stop_takes_one_read(m: LoopModel, code: i16)
    requires
        m.state is Running,
    ensures
        after_sample(m, code, true).state is Stopping,
        after_failure(m, true).state is Stopping,
        action_in(after_sample(m, code, true).state) is ReleaseSource,
        action_in(after_failure(m, true).state) is ReleaseSource,
        after_release(after_sample(m, code, true)).state is Stopped,
        after_release(after_failure(m, true)).state is Stopped,
        after_release(after_sample(m, code, true)).samples == most_recent(
            m.samples.push(code),
            m.capacity,
        ),
        after_release(after_failure(m, true)).samples == m.samples,
{
}

/// The acquisition loop: a cistern, and what the loop remembers from one
/// read to the next.
pub struct AcquisitionLoop {
    cistern: Cistern,
    state: LoopState,
    unpublished: u32,
    threshold: u32,
    policy: FailurePolicy,
    failures: u32,
}

impl View for AcquisitionLoop {
    type V = LoopModel;

    closed spec fn view(&self) -> LoopModel {
        LoopModel {
            state: self.state,
            samples: self.cistern.samples(),
            capacity: self.cistern.capacity() as nat,
            calib: self.cistern.calibration(),
            unpublished: self.unpublished as nat,
            threshold: self.threshold as nat,
            policy: self.policy,
            failures: self.failures as nat,
        }
    }
}

impl AcquisitionLoop {
    /// A running loop over `cistern` that makes a publication due every
    /// `threshold` samples (every sample, where that is zero), and treats
    /// failed reads as `policy` says.
    pub fn new(cistern: Cistern, threshold: u32, policy: FailurePolicy) -> (acquisition:
        AcquisitionLoop)
        ensures
            acquisition@.state is Running,
            acquisition@.samples == cistern.samples(),
            acquisition@.capacity == cistern.capacity(),
            acquisition@.calib == cistern.calibration(),
            acquisition@.unpublished == 0,
            acquisition@.threshold == threshold,
            acquisition@.policy == policy,
            acquisition@.failures == 0,
    {
        AcquisitionLoop {
            cistern,
            state: LoopState::Running,
            unpublished: 0,
            threshold,
            policy,
            failures: 0,
        }
    }

    pub fn state(&self) -> (state: LoopState)
        ensures
            state == self@.state,
    {
        self.state
    }

    /// The cistern that the loop measures.
    pub fn cistern(&self) -> (cistern: &Cistern)
        ensures
            cistern.samples() == self@.samples,
            cistern.capacity() == self@.capacity,
            cistern.calibration() == self@.calib,
    {
        &self.cistern
    }

    /// What to do before the first read: a running loop stops here already
    /// where a stop was asked for, and else reads.
    pub fn start(&mut self, stop_requested: bool) -> (next: NextAction)
        ensures
            final(self)@ == (LoopModel {
                state: if old(self)@.state is Running {
                    state_after(stop_requested, false)
                } else {
                    old(self)@.state
                },
                ..old(self)@
            }),
            next == action_in(final(self)@.state),
            stop_requested ==> next is ReleaseSource,
    {
        if stop_requested {
            match self.state {
                LoopState::Running => {
                    self.state = LoopState::Stopping;
                },
                _ => {},
            }
        }
        match self.state {
            LoopState::Running => NextAction::ReadSample,
            _ => NextAction::ReleaseSource,
        }
    }

    /// Takes in the outcome of one read, and says what follows.
    ///
    /// A sample goes into the cistern's window. With every `threshold`-th
    /// sample the level of the cistern is due for publication. A failed read
    /// is handed back with the number of failures in a row, and is fatal
    /// where the policy says so. The loop reads on unless a stop was asked
    /// for or the failure is fatal. A loop that is not running takes nothing
    /// in, and hands a failure back as it is.
    pub fn step<E>(&mut self, event: SampleEvent<E>, stop_requested: bool) -> (directive: Directive<
        E,
    >)
        ensures
            !(old(self)@.state is Running) ==> {
                &&& final(self)@ == old(self)@
                &&& directive.publish is None
                &&& !directive.fatal
                &&& match event {
                    SampleEvent::Sample(_) => directive.failure is None,
                    SampleEvent::ReadFailed(cause) => directive.failure == Some(
                        AcquisitionError { cause, consecutive_failures: old(self)@.failures as u32 },
                    ),
                }
            },
            old(self)@.state is Running ==> match event {
                SampleEvent::Sample(code) => {
                    &&& final(self)@ == after_sample(old(self)@, code, stop_requested)
                    &&& directive.failure is None
                    &&& !directive.fatal
                    &&& match directive.publish {
                        Some(reading) => publication_due(old(self)@) && reading@ == level_of(
                            final(self)@.samples,
                            final(self)@.calib,
                        ),
                        None => !publication_due(old(self)@),
                    }
                },
                SampleEvent::ReadFailed(cause) => {
                    &&& final(self)@ == after_failure(old(self)@, stop_requested)
                    &&& directive.publish is None
                    &&& directive.failure == Some(
                        AcquisitionError {
                            cause,
                            consecutive_failures: final(self)@.failures as u32,
                        },
                    )
                    &&& directive.fatal == is_fatal(final(self)@.policy, final(self)@.failures)
                },
            },
            directive.next == action_in(final(self)@.state),
            stop_requested ==> directive.next is ReleaseSource,
    {
        match self.state {
            LoopState::Running => {},
            _ => {
                let failure = match event {
                    SampleEvent::Sample(_) => None,
                    SampleEvent::ReadFailed(cause) => Some(
                        AcquisitionError { cause, consecutive_failures: self.failures },
                    ),
                };
                return Directive {
                    publish: None,
                    failure,
                    fatal: false,
                    next: NextAction::ReleaseSource,
                };
            },
        }
        match event {
            SampleEvent::Sample(code) => {
                self.cistern.push(code);
                self.failures = 0;
                let publish = if self.unpublished >= self.threshold.saturating_sub(1) {
                    self.unpublished = 0;
                    self.cistern.level()
                } else {
                    self.unpublished = self.unpublished + 1;
                    None
                };
                if stop_requested {
                    self.state = LoopState::Stopping;
                }
                Directive {
                    publish,
                    failure: None,
                    fatal: false,
                    next: if stop_requested {
                        NextAction::ReleaseSource
                    } else {
                        NextAction::ReadSample
                    },
                }
            },
            SampleEvent::ReadFailed(cause) => {
                if self.failures < u32::MAX {
                    self.failures = self.failures + 1;
                }
                let fatal = match self.policy {
                    FailurePolicy::LogAndContinue => false,
                    FailurePolicy::Fatal => true,
                    FailurePolicy::FatalAfter(limit) => self.failures >= limit,
                };
                let stop = stop_requested || fatal;
                if stop {
                    self.state = LoopState::Stopping;
                }
                Directive {
                    publish: None,
                    failure: Some(AcquisitionError { cause, consecutive_failures: self.failures }),
                    fatal,
                    next: if stop {
                        NextAction::ReleaseSource
                    } else {
                        NextAction::ReadSample
                    },
                }
            },
        }
    }

    /// The source is released: the loop is stopped, with all the samples
    /// that it took in.
    pub fn release(&mut self)
        ensures
            final(self)@ == after_release(old(self)@),
    {
        self.state = LoopState::Stopped;
    }
}

} // verus!
