use vstd::prelude::*;

use crate::message::{Fault, Message};

verus! {

/// What the runtime must do with the child process after the supervisor
/// has accepted a request.
#[derive(Clone, Copy, Debug, PartialEq, Eq, Structural)]
pub enum Work {
    /// Spawn the command; the new process is now owned.
    Spawn,
    /// Check non-blockingly whether the owned process has exited, then
    /// report the outcome through `Supervisor::checked`.
    Check,
    /// Signal the owned process, wait until it is reaped, then reply `Killed`.
    Terminate,
    /// Nothing was owned: reply `Killed` at once.
    Acknowledge,
    /// Nothing was owned: a stale poll, absorbed without a reply.
    Ignore,
}

impl Work {
    /// The notification to send once this work is done, if it is known
    /// before the work is carried out.
    pub open spec fn reply_spec(self) -> Option<Message> {
        match self {
            Work::Terminate | Work::Acknowledge => Some(Message::Killed),
            _ => None,
        }
    }

    pub fn reply(&self) -> (r: Option<Message>)
        ensures
            r == self.reply_spec(),
    {
        match self {
            Work::Terminate | Work::Acknowledge => Some(Message::Killed),
            _ => None,
        }
    }
}

/// The actor that exclusively owns zero or one child process.
///
/// The process handle itself lives in the runtime; this records whether
/// one is owned, and decides every transition of that ownership.
#[derive(Clone, Copy, Debug, PartialEq, Eq, Structural)]
pub struct Supervisor {
    owns: bool,
}

/// The supervisor's answer to one request: the work to do, and whether a
/// process is owned afterwards.
pub open spec fn handle_spec(owns: bool, msg: Message) -> Result<(Work, bool), Fault> {
    match msg {
        Message::Start => if owns {
            Err(Fault::AlreadyRunning)
        } else {
            Ok((Work::Spawn, true))
        },
        Message::Poll => if owns {
            Ok((Work::Check, true))
        } else {
            Ok((Work::Ignore, false))
        },
        Message::Kill => if owns {
            Ok((Work::Terminate, false))
        } else {
            Ok((Work::Acknowledge, false))
        },
        _ => Err(Fault::Unexpected),
    }
}

impl Supervisor {
    pub closed spec fn owns_spec(self) -> bool {
        self.owns
    }

    /// A supervisor that owns no process yet.
    pub fn new() -> (r: Supervisor)
        ensures
            !r.owns_spec(),
    {
        Supervisor { owns: false }
    }

    /// Whether a child process is owned.
    pub fn owns(&self) -> (r: bool)
        ensures
            r == self.owns_spec(),
    {
        self.owns
    }

    /// Accepts one request from the coordinator.
    ///
    /// A `Start` while a process is owned is a protocol violation, as is any
    /// message other than `Start`, `Poll` and `Kill`; both leave the state
    /// unchanged. `Poll` and `Kill` with nothing owned are benign races.
    pub fn handle(&mut self, msg: Message) -> (r: Result<Work, Fault>)
        ensures
            match handle_spec(old(self).owns_spec(), msg) {
                Ok((w, owns)) => r == Ok::<Work, Fault>(w) && final(self).owns_spec() == owns,
                Err(f) => r == Err::<Work, Fault>(f) && *final(self) == *old(self),
            },
    {
        match msg {
            Message::Start => {
                if self.owns {
                    Err(Fault::AlreadyRunning)
                } else {
                    self.owns = true;
                    Ok(Work::Spawn)
                }
            },
            Message::Poll => {
                if self.owns {
                    Ok(Work::Check)
                } else {
                    Ok(Work::Ignore)
                }
            },
            Message::Kill => {
                let was = self.owns;
                self.owns = false;
                if was {
                    Ok(Work::Terminate)
                } else {
                    Ok(Work::Acknowledge)
                }
            },
            _ => Err(Fault::Unexpected),
        }
    }

    /// Records the outcome of a `Check`: an exited process is released and
    /// reported `Finished`, a live one is reported `Running`.
    pub fn checked(&mut self, exited: bool) -> (r: Message)
        requires
            old(self).owns_spec(),
        ensures
            final(self).owns_spec() == !exited,
            r == (if exited { Message::Finished } else { Message::Running }),
    {
        if exited {
            self.owns = false;
            Message::Finished
        } else {
            Message::Running
        }
    }
}

} // verus!
