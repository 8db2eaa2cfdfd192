use vstd::prelude::*;

verus! {

/// The control vocabulary exchanged between the coordinator and the
/// supervisor, plus the interrupt notification.
///
/// `Endpoint` announces that the supervisor's inbox is ready; the channel
/// half that travels with it is carried by the runtime around the library.
#[derive(Clone, Copy, Debug, PartialEq, Eq, Structural)]
pub enum Message {
    Endpoint,
    Start,
    Poll,
    Kill,
    Running,
    Finished,
    Killed,
    Interrupt,
}

/// An unrecoverable fault: the whole watchdog stops with a diagnostic.
#[derive(Clone, Copy, Debug, PartialEq, Eq, Structural)]
pub enum Fault {
    /// `Start` arrived while a child process is still owned.
    AlreadyRunning,
    /// A command had to be sent before the supervisor's endpoint arrived.
    NoEndpoint,
    /// A message that the receiving actor never accepts in its current state.
    Unexpected,
}

impl Fault {
    /// A one-line diagnostic for the operator.
    pub fn describe(&self) -> &'static str {
        match self {
            Fault::AlreadyRunning => "tried to start a new command while another one was running",
            Fault::NoEndpoint => "a command was due before the supervisor channel was established",
            Fault::Unexpected => "unexpected message received",
        }
    }
}

} // verus!
