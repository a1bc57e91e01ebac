//! Transform driver: the state machine shared by the video and audio
//! encoders. It drives an asynchronous encode transform's input/output
//! protocol — pull a raw sample when the transform wants input, submit it,
//! pull encoded samples when output is ready — and owns the lifecycle
//! `Idle -> Running -> Draining -> Stopped`.
//!
//! The transform itself and the loop that waits on its events live outside
//! the library; they report each outcome as a [`DriverEvent`], and the
//! driver decides the next state. When the input callback runs dry, or a
//! stop is requested, the driver issues a drain; a "needs more input"
//! answer while draining means the transform is flushed and the loop exits.
//! Any transform failure other than "needs more input" / "not accepting
//! input" is fatal and stops the driver with its failure recorded.

use vstd::prelude::*;

verus! {

/// Lifecycle of one transform driver.
#[derive(Clone, Copy, Debug, PartialEq, Eq, Structural)]
pub enum DriverState {
    Idle,
    Running,
    Draining,
    Stopped,
}

/// What the transform answered when one raw sample was submitted to it.
#[derive(Clone, Copy, Debug, PartialEq, Eq, Structural)]
pub enum SubmitOutcome {
    /// The transform took the sample.
    Accepted,
    /// The transform is not currently accepting input; the driver stops
    /// requesting input until the next output event (no retry storm).
    NotAccepting,
    /// Any other transform error: fatal.
    TransformFailure,
}

/// What the transform answered when one encoded sample was pulled from it.
#[derive(Clone, Copy, Debug, PartialEq, Eq, Structural)]
pub enum OutputOutcome {
    /// One encoded sample came out and was delivered onward.
    Produced,
    /// The transform needs more input before it can produce output; while
    /// draining this means the drain is complete.
    NeedsMoreInput,
    /// Any other transform error: fatal.
    TransformFailure,
}

/// One observation the event loop reports to the driver.
#[derive(Clone, Copy, Debug, PartialEq, Eq, Structural)]
pub enum DriverEvent {
    /// Top of a loop iteration: the stop flag was read.
    StopObserved,
    /// The transform asked for input and the input callback was polled;
    /// `true` iff it yielded a sample.
    InputPulled(bool),
    /// A pulled sample was submitted to the transform.
    InputSubmitted(SubmitOutcome),
    /// An output pull finished.
    OutputPulled(OutputOutcome),
}

/// The state a transform driver carries across loop iterations.
#[derive(Clone, Copy, Debug, PartialEq, Eq, Structural)]
pub struct Driver {
    pub state: DriverState,
    /// Set by `request_stop`; observed at the top of the next iteration.
    pub stop_requested: bool,
    /// False after the transform reported "not accepting input", until the
    /// next output event.
    pub accepting_input: bool,
    /// A fatal transform failure was observed.
    pub failed: bool,
    /// Raw samples the transform accepted.
    pub submitted: u64,
    /// Encoded samples pulled from the transform and delivered onward.
    pub emitted: u64,
}

/// The driver's reaction to one event. Events are ignored unless the event
/// loop is live (`Running` or `Draining`); in particular a `Stopped` driver
/// never changes again.
pub open spec fn driver_step(d: Driver, ev: DriverEvent) -> Driver {
    if d.state == DriverState::Idle || d.state == DriverState::Stopped {
        d
    } else {
        match ev {
            DriverEvent::StopObserved => if d.state == DriverState::Running && d.stop_requested {
                Driver { state: DriverState::Draining, ..d }
            } else {
                d
            },
            DriverEvent::InputPulled(have) => if d.state == DriverState::Running && !have {
                Driver { state: DriverState::Draining, ..d }
            } else {
                d
            },
            DriverEvent::InputSubmitted(outcome) => if d.state == DriverState::Running {
                match outcome {
                    SubmitOutcome::Accepted => if d.submitted < u64::MAX {
                        Driver { submitted: (d.submitted + 1) as u64, ..d }
                    } else {
                        d
                    },
                    SubmitOutcome::NotAccepting => Driver { accepting_input: false, ..d },
                    SubmitOutcome::TransformFailure => Driver {
                        state: DriverState::Stopped,
                        failed: true,
                        ..d
                    },
                }
            } else {
                d
            },
            DriverEvent::OutputPulled(outcome) => match outcome {
                OutputOutcome::Produced => if d.emitted < u64::MAX {
                    Driver { emitted: (d.emitted + 1) as u64, accepting_input: true, ..d }
                } else {
                    Driver { accepting_input: true, ..d }
                },
                OutputOutcome::NeedsMoreInput => if d.state == DriverState::Draining {
                    Driver { state: DriverState::Stopped, ..d }
                } else {
                    d
                },
                OutputOutcome::TransformFailure => Driver {
                    state: DriverState::Stopped,
                    failed: true,
                    ..d
                },
            },
        }
    }
}

/// The driver after a whole sequence of events.
pub open spec fn driver_run(d: Driver, evs: Seq<DriverEvent>) -> Driver
    decreases evs.len(),
{
    if evs.len() == 0 {
        d
    } else {
        driver_run(driver_step(d, evs[0]), evs.drop_first())
    }
}

/// What an encode transform can do: it only hands out an encoded sample
/// when it holds more accepted input than it has already emitted.
pub open spec fn encoder_legal(d: Driver, evs: Seq<DriverEvent>) -> bool
    decreases evs.len(),
{
    if evs.len() == 0 {
        true
    } else {
        let ok = match evs[0] {
            DriverEvent::OutputPulled(OutputOutcome::Produced) => d.emitted < d.submitted,
            _ => true,
        };
        ok && encoder_legal(driver_step(d, evs[0]), evs.drop_first())
    }
}

/// How many submissions of `evs` the transform accepted.
pub open spec fn accepted_count(evs: Seq<DriverEvent>) -> nat
    decreases evs.len(),
{
    if evs.len() == 0 {
        0
    } else {
        (if evs[0] == DriverEvent::InputSubmitted(SubmitOutcome::Accepted) {
            1nat
        } else {
            0nat
        }) + accepted_count(evs.drop_first())
    }
}

impl Driver {
    /// A fresh driver: idle, no stop requested, ready to request input.
    pub fn new() -> (d: Driver)
        ensures
            d == (Driver {
                state: DriverState::Idle,
                stop_requested: false,
                accepting_input: true,
                failed: false,
                submitted: 0,
                emitted: 0,
            }),
    {
        Driver {
            state: DriverState::Idle,
            stop_requested: false,
            accepting_input: true,
            failed: false,
            submitted: 0,
            emitted: 0,
        }
    }

    /// Starts the driver's event loop. Start is idempotent-guarded: only an
    /// idle driver starts, and a second start is refused.
    pub fn try_start(&mut self) -> (started: bool)
        ensures
            started == (old(self).state == DriverState::Idle),
            started ==> *final(self) == (Driver { state: DriverState::Running, ..*old(self) }),
            !started ==> *final(self) == *old(self),
    {
        if self.state == DriverState::Idle {
            self.state = DriverState::Running;
            true
        } else {
            false
        }
    }

    /// Requests a stop. The flag is observed at the top of the next loop
    /// iteration, which triggers the drain path if not already draining.
    /// On a driver that is already stopping or stopped this is a no-op
    /// that still succeeds.
    pub fn request_stop(&mut self)
        ensures
            *final(self) == (Driver { stop_requested: true, ..*old(self) }),
    {
        self.stop_requested = true;
    }

    /// Feeds one observed event to the state machine.
    pub fn handle(&mut self, ev: DriverEvent)
        ensures
            *final(self) == driver_step(*old(self), ev),
    {
        if self.state == DriverState::Idle || self.state == DriverState::Stopped {
            return ;
        }
        match ev {
            DriverEvent::StopObserved => {
                if self.state == DriverState::Running && self.stop_requested {
                    self.state = DriverState::Draining;
                }
            },
            DriverEvent::InputPulled(have) => {
                if self.state == DriverState::Running && !have {
                    self.state = DriverState::Draining;
                }
            },
            DriverEvent::InputSubmitted(outcome) => {
                if self.state == DriverState::Running {
                    match outcome {
                        SubmitOutcome::Accepted => {
                            if self.submitted < u64::MAX {
                                self.submitted = self.submitted + 1;
                            }
                        },
                        SubmitOutcome::NotAccepting => {
                            self.accepting_input = false;
                        },
                        SubmitOutcome::TransformFailure => {
                            self.state = DriverState::Stopped;
                            self.failed = true;
                        },
                    }
                }
            },
            DriverEvent::OutputPulled(outcome) => {
                match outcome {
                    OutputOutcome::Produced => {
                        if self.emitted < u64::MAX {
                            self.emitted = self.emitted + 1;
                        }
                        self.accepting_input = true;
                    },
                    OutputOutcome::NeedsMoreInput => {
                        if self.state == DriverState::Draining {
                            self.state = DriverState::Stopped;
                        }
                    },
                    OutputOutcome::TransformFailure => {
                        self.state = DriverState::Stopped;
                        self.failed = true;
                    },
                }
            },
        }
    }

    /// Feeds a whole sequence of observed events to the driver: the
    /// executable form of [`driver_run`], about which the emission laws
    /// below are proved.
    pub fn handle_all(&mut self, events: &Vec<DriverEvent>)
        ensures
            *final(self) == driver_run(*old(self), events@),
    {
        let mut i: usize = 0;
        proof {
            assert(events@.skip(0) =~= events@);
        }
        while i < events.len()
            invariant
                i <= events@.len(),
                driver_run(*old(self), events@) == driver_run(*self, events@.skip(i as int)),
            decreases events@.len() - i,
        {
            let ev = events[i];
            proof {
                let remaining = events@.skip(i as int);
                assert(remaining =~= seq![events@[i as int]] + events@.skip(i as int + 1));
                assert(remaining.drop_first() =~= events@.skip(i as int + 1));
            }
            self.handle(ev);
            i = i + 1;
        }
        proof {
            assert(events@.skip(events@.len() as int) =~= Seq::<DriverEvent>::empty());
        }
    }

    /// Whether the loop should ask the input callback for another sample.
    pub fn wants_input(&self) -> (r: bool)
        ensures
            r == (self.state == DriverState::Running && self.accepting_input
                && !self.stop_requested),
    {
        self.state == DriverState::Running && self.accepting_input && !self.stop_requested
    }

    /// Whether the event loop is still live.
    pub fn is_active(&self) -> (r: bool)
        ensures
            r == (self.state == DriverState::Running || self.state == DriverState::Draining),
    {
        self.state == DriverState::Running || self.state == DriverState::Draining
    }
}

/// A driver fed any legal transform behaviour never delivers more encoded
/// samples than the transform accepted raw samples: after any run,
/// `emitted <= submitted`, and the accepted count grows by at most the
/// accepted submissions of the run. In particular a driver fed `N` input
/// samples and an end-of-input signal emits at most `N` encoded samples.
pub proof fn lemma_driver_emits_at_most_inputs(d: Driver, evs: Seq<DriverEvent>)
    requires
        d.emitted <= d.submitted,
        encoder_legal(d, evs),
    ensures
        driver_run(d, evs).emitted <= driver_run(d, evs).submitted,
        driver_run(d, evs).submitted <= d.submitted + accepted_count(evs),
    decreases evs.len(),
{
    if evs.len() != 0 {
        let d1 = driver_step(d, evs[0]);
        assert(d1.emitted <= d1.submitted);
        assert(d1.submitted <= d.submitted + (if evs[0] == DriverEvent::InputSubmitted(
            SubmitOutcome::Accepted,
        ) {
            1int
        } else {
            0int
        }));
        lemma_driver_emits_at_most_inputs(d1, evs.drop_first());
    }
}

/// Once a driver has stopped — in particular once a "needs more input"
/// answer was observed during drain — no later event changes it: it emits
/// zero further samples.
pub proof fn lemma_driver_stopped_is_final(d: Driver, evs: Seq<DriverEvent>)
    requires
        d.state == DriverState::Stopped,
    ensures
        driver_run(d, evs) == d,
    decreases evs.len(),
{
    if evs.len() != 0 {
        assert(driver_step(d, evs[0]) == d);
        lemma_driver_stopped_is_final(d, evs.drop_first());
    }
}

} // verus!
