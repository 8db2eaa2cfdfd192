use vstd::prelude::*;

use crate::message::{Fault, Message};

verus! {

/// How long the coordinator waits for a message before it re-evaluates the
/// deadline and polls the supervisor, in milliseconds.
pub const POLL_MILLIS: u64 = 500;

/// How long an interrupted watchdog lets the kill proceed before it exits,
/// in milliseconds.
pub const GRACE_MILLIS: u64 = 100;

/// Where the coordinator stands in the life of the current run.
#[derive(Clone, Copy, Debug, PartialEq, Eq, Structural)]
pub enum Phase {
    /// The supervisor's endpoint has not arrived yet.
    Connecting,
    /// A `Start` was issued and neither `Finished` nor a kill has ended it.
    Running,
    /// A deadline `Kill` was issued and its `Killed` is awaited.
    Killing,
    /// The watchdog has decided to exit; nothing more is issued.
    Stopped,
}

/// Informational events for the operator.
#[derive(Clone, Copy, Debug, PartialEq, Eq, Structural)]
pub enum Report {
    CommandStarted,
    CommandStillRunning,
    CommandFinishedBeforeTimeout,
    TimeoutReached,
    CommandKilled,
    Restarting,
    Exiting,
}

/// What the runtime does after a decision has been carried out.
#[derive(Clone, Copy, Debug, PartialEq, Eq, Structural)]
pub enum After {
    /// Wait for the next message.
    Continue,
    /// Exit with code 0 now.
    Exit,
    /// Wait `GRACE_MILLIS`, then exit with code 0.
    ExitAfterGrace,
}

/// The outcome of one wake-up of the coordinator.
#[derive(Clone, Copy, Debug, PartialEq, Eq, Structural)]
pub struct Decision {
    /// The command to send to the supervisor, if any.
    pub send: Option<Message>,
    /// The event to surface to the operator, if any.
    pub report: Option<Report>,
    pub after: After,
}

/// The coordinator's state as a mathematical value.
pub ghost struct CoordinatorModel {
    pub timeout_secs: u64,
    pub restart: bool,
    pub phase: Phase,
    /// The absolute time, in milliseconds, at which the current run is killed.
    pub deadline: u64,
}

/// `now` plus the timeout, in milliseconds, capped at the largest `u64`.
pub open spec fn deadline_from(now: u64, timeout_secs: u64) -> u64 {
    let d = now + 1000 * timeout_secs;
    if d > u64::MAX {
        u64::MAX
    } else {
        d as u64
    }
}

pub open spec fn decision(send: Option<Message>, report: Option<Report>, after: After) -> Decision {
    Decision { send, report, after }
}

/// The model after a fresh run was started at `now`.
pub open spec fn started(m: CoordinatorModel, now: u64) -> CoordinatorModel {
    CoordinatorModel { phase: Phase::Running, deadline: deadline_from(now, m.timeout_secs), ..m }
}

pub open spec fn stopped(m: CoordinatorModel) -> CoordinatorModel {
    CoordinatorModel { phase: Phase::Stopped, ..m }
}

/// A wait that ended with no message, at time `now`.
pub open spec fn timeout_step(m: CoordinatorModel, now: u64) -> Result<
    (CoordinatorModel, Decision),
    Fault,
> {
    match m.phase {
        Phase::Connecting => if now >= m.deadline {
            Err(Fault::NoEndpoint)
        } else {
            Ok((m, decision(None, None, After::Continue)))
        },
        Phase::Running => if now >= m.deadline {
            Ok(
                (
                    CoordinatorModel {
                        phase: Phase::Killing,
                        deadline: deadline_from(now, m.timeout_secs),
                        ..m
                    },
                    decision(Some(Message::Kill), Some(Report::TimeoutReached), After::Continue),
                ),
            )
        } else {
            Ok((m, decision(Some(Message::Poll), None, After::Continue)))
        },
        Phase::Killing => Ok((m, decision(None, None, After::Continue))),
        Phase::Stopped => Ok((m, decision(None, None, After::Exit))),
    }
}

/// A message that arrived at time `now`.
pub open spec fn message_step(m: CoordinatorModel, msg: Message, now: u64) -> Result<
    (CoordinatorModel, Decision),
    Fault,
> {
    if m.phase == Phase::Stopped {
        Ok((m, decision(None, None, After::Exit)))
    } else {
        match msg {
            Message::Endpoint => if m.phase == Phase::Connecting {
                Ok(
                    (
                        started(m, now),
                        decision(
                            Some(Message::Start),
                            Some(Report::CommandStarted),
                            After::Continue,
                        ),
                    ),
                )
            } else {
                Err(Fault::Unexpected)
            },
            Message::Running => if m.phase == Phase::Connecting {
                Err(Fault::Unexpected)
            } else {
                Ok((m, decision(None, Some(Report::CommandStillRunning), After::Continue)))
            },
            Message::Finished => match m.phase {
                Phase::Running => if m.restart {
                    Ok(
                        (
                            started(m, now),
                            decision(Some(Message::Start), Some(Report::Restarting), After::Continue),
                        ),
                    )
                } else {
                    Ok(
                        (
                            stopped(m),
                            decision(
                                None,
                                Some(Report::CommandFinishedBeforeTimeout),
                                After::Exit,
                            ),
                        ),
                    )
                },
                Phase::Killing => Ok((m, decision(None, None, After::Continue))),
                _ => Err(Fault::Unexpected),
            },
            Message::Killed => if m.phase == Phase::Killing {
                if m.restart {
                    Ok(
                        (
                            started(m, now),
                            decision(Some(Message::Start), Some(Report::Restarting), After::Continue),
                        ),
                    )
                } else {
                    Ok(
                        (
                            stopped(m),
                            decision(None, Some(Report::CommandKilled), After::Exit),
                        ),
                    )
                }
            } else {
                Err(Fault::Unexpected)
            },
            Message::Interrupt => if m.phase == Phase::Connecting {
                Ok(
                    (
                        stopped(m),
                        decision(None, Some(Report::Exiting), After::ExitAfterGrace),
                    ),
                )
            } else {
                Ok(
                    (
                        stopped(m),
                        decision(
                            Some(Message::Kill),
                            Some(Report::Exiting),
                            After::ExitAfterGrace,
                        ),
                    ),
                )
            },
            _ => Err(Fault::Unexpected),
        }
    }
}

/// Holds the deadline and the restart policy, and decides on every wake-up
/// what the supervisor is told to do.
pub struct Coordinator {
    timeout_secs: u64,
    restart: bool,
    phase: Phase,
    deadline: u64,
}

impl View for Coordinator {
    type V = CoordinatorModel;

    closed spec fn view(&self) -> CoordinatorModel {
        CoordinatorModel {
            timeout_secs: self.timeout_secs,
            restart: self.restart,
            phase: self.phase,
            deadline: self.deadline,
        }
    }
}

/// Computes `deadline_from`.
fn deadline_after(now: u64, timeout_secs: u64) -> (r: u64)
    ensures
        r == deadline_from(now, timeout_secs),
{
    match timeout_secs.checked_mul(1000) {
        Some(span) => now.saturating_add(span),
        None => u64::MAX,
    }
}

impl Coordinator {
    /// A coordinator created at time `now`, waiting for the supervisor's
    /// endpoint; the first deadline already counts from `now`.
    pub fn new(timeout_secs: u64, restart: bool, now: u64) -> (r: Coordinator)
        ensures
            r@ == (CoordinatorModel {
                timeout_secs,
                restart,
                phase: Phase::Connecting,
                deadline: deadline_from(now, timeout_secs),
            }),
    {
        Coordinator {
            timeout_secs,
            restart,
            phase: Phase::Connecting,
            deadline: deadline_after(now, timeout_secs),
        }
    }

    pub fn phase(&self) -> (r: Phase)
        ensures
            r == self@.phase,
    {
        self.phase
    }

    pub fn deadline(&self) -> (r: u64)
        ensures
            r == self@.deadline,
    {
        self.deadline
    }

    pub fn restart(&self) -> (r: bool)
        ensures
            r == self@.restart,
    {
        self.restart
    }

    pub fn timeout_secs(&self) -> (r: u64)
        ensures
            r == self@.timeout_secs,
    {
        self.timeout_secs
    }

    fn start_run(&mut self, now: u64)
        ensures
            final(self)@ == started(old(self)@, now),
    {
        self.phase = Phase::Running;
        self.deadline = deadline_after(now, self.timeout_secs);
    }

    /// The wait for a message ended at time `now` with none: kill the run
    /// whose deadline has passed, otherwise poll it.
    pub fn on_timeout(&mut self, now: u64) -> (r: Result<Decision, Fault>)
        ensures
            match timeout_step(old(self)@, now) {
                Ok((m, d)) => r == Ok::<Decision, Fault>(d) && final(self)@ == m,
                Err(f) => r == Err::<Decision, Fault>(f) && final(self)@ == old(self)@,
            },
    {
        match self.phase {
            Phase::Connecting => {
                if now >= self.deadline {
                    Err(Fault::NoEndpoint)
                } else {
                    Ok(Decision { send: None, report: None, after: After::Continue })
                }
            },
            Phase::Running => {
                if now >= self.deadline {
                    self.phase = Phase::Killing;
                    self.deadline = deadline_after(now, self.timeout_secs);
                    Ok(
                        Decision {
                            send: Some(Message::Kill),
                            report: Some(Report::TimeoutReached),
                            after: After::Continue,
                        },
                    )
                } else {
                    Ok(Decision { send: Some(Message::Poll), report: None, after: After::Continue })
                }
            },
            Phase::Killing => Ok(Decision { send: None, report: None, after: After::Continue }),
            Phase::Stopped => Ok(Decision { send: None, report: None, after: After::Exit }),
        }
    }

    /// A message arrived at time `now`.
    pub fn on_message(&mut self, msg: Message, now: u64) -> (r: Result<Decision, Fault>)
        ensures
            match message_step(old(self)@, msg, now) {
                Ok((m, d)) => r == Ok::<Decision, Fault>(d) && final(self)@ == m,
                Err(f) => r == Err::<Decision, Fault>(f) && final(self)@ == old(self)@,
            },
    {
        if self.phase == Phase::Stopped {
            return Ok(Decision { send: None, report: None, after: After::Exit });
        }
        match msg {
            Message::Endpoint => {
                if self.phase == Phase::Connecting {
                    self.start_run(now);
                    Ok(
                        Decision {
                            send: Some(Message::Start),
                            report: Some(Report::CommandStarted),
                            after: After::Continue,
                        },
                    )
                } else {
                    Err(Fault::Unexpected)
                }
            },
            Message::Running => {
                if self.phase == Phase::Connecting {
                    Err(Fault::Unexpected)
                } else {
                    Ok(
                        Decision {
                            send: None,
                            report: Some(Report::CommandStillRunning),
                            after: After::Continue,
                        },
                    )
                }
            },
            Message::Finished => {
                if self.phase == Phase::Running {
                    self.end_run(Report::CommandFinishedBeforeTimeout, now)
                } else if self.phase == Phase::Killing {
                    Ok(Decision { send: None, report: None, after: After::Continue })
                } else {
                    Err(Fault::Unexpected)
                }
            },
            Message::Killed => {
                if self.phase == Phase::Killing {
                    self.end_run(Report::CommandKilled, now)
                } else {
                    Err(Fault::Unexpected)
                }
            },
            Message::Interrupt => {
                let send = if self.phase == Phase::Connecting {
                    None
                } else {
                    Some(Message::Kill)
                };
                self.phase = Phase::Stopped;
                Ok(Decision { send, report: Some(Report::Exiting), after: After::ExitAfterGrace })
            },
            _ => Err(Fault::Unexpected),
        }
    }

    /// The current run has ended: restart it, or stop with `ending`.
    fn end_run(&mut self, ending: Report, now: u64) -> (r: Result<Decision, Fault>)
        ensures
            old(self)@.restart ==> r == Ok::<Decision, Fault>(
                decision(Some(Message::Start), Some(Report::Restarting), After::Continue),
            ) && final(self)@ == started(old(self)@, now),
            !old(self)@.restart ==> r == Ok::<Decision, Fault>(
                decision(None, Some(ending), After::Exit),
            ) && final(self)@ == stopped(old(self)@),
    {
        if self.restart {
            self.start_run(now);
            Ok(
                Decision {
                    send: Some(Message::Start),
                    report: Some(Report::Restarting),
                    after: After::Continue,
                },
            )
        } else {
            self.phase = Phase::Stopped;
            Ok(Decision { send: None, report: Some(ending), after: After::Exit })
        }
    }
}

} // verus!
