use vstd::prelude::*;

use crate::coordinator::{message_step, timeout_step, CoordinatorModel, Decision, Phase};
use crate::message::{Fault, Message};
use crate::supervisor::{handle_spec, Work};

verus! {

/// The whole watchdog as one value: both actors and the two queues between
/// them, each read from its front.
pub ghost struct SystemModel {
    pub coord: CoordinatorModel,
    /// Whether the supervisor owns a child process.
    pub owns: bool,
    /// Commands the coordinator sent that the supervisor has not taken yet.
    pub to_supervisor: Seq<Message>,
    /// Messages waiting in the coordinator's inbox.
    pub to_coordinator: Seq<Message>,
}

/// One thing that may happen next, in any order the scheduler picks.
pub ghost enum SystemEvent {
    /// The coordinator takes the next message of its inbox at time `now`.
    Deliver { now: u64 },
    /// The coordinator's wait ends without a message at time `now`.
    Wake { now: u64 },
    /// The supervisor takes the next command; a check finds the child
    /// exited or not as `exited` says.
    Serve { exited: bool },
    /// The operator interrupts the watchdog.
    Interrupt,
}

/// The messages that open or close a run: all but polls, their `Running`
/// answers and interrupts.
pub open spec fn is_lifecycle(m: Message) -> bool {
    m != Message::Poll && m != Message::Running && m != Message::Interrupt
}

/// The lifecycle messages of a queue, in order.
pub open spec fn lifecycle(q: Seq<Message>) -> Seq<Message>
    decreases q.len(),
{
    if q.len() == 0 {
        q
    } else if is_lifecycle(q.last()) {
        lifecycle(q.drop_last()).push(q.last())
    } else {
        lifecycle(q.drop_last())
    }
}

pub open spec fn is_command(m: Message) -> bool {
    m == Message::Start || m == Message::Poll || m == Message::Kill
}

pub open spec fn queued(q: Seq<Message>, d: Decision) -> Seq<Message> {
    match d.send {
        Some(m) => q.push(m),
        None => q,
    }
}

/// The supervisor's new ownership and its reply, once `w` is done; `exited`
/// is what a check found.
pub open spec fn served(w: Work, owns: bool, exited: bool) -> (bool, Option<Message>) {
    if w == Work::Check {
        if exited {
            (false, Some(Message::Finished))
        } else {
            (true, Some(Message::Running))
        }
    } else {
        (owns, w.reply_spec())
    }
}

pub open spec fn reply_to(q: Seq<Message>, reply: Option<Message>) -> Seq<Message> {
    match reply {
        Some(m) => q.push(m),
        None => q,
    }
}

/// The system after `e`, or the fault that stops it. An event with nothing
/// to act on (an empty queue) changes nothing.
pub open spec fn system_step(s: SystemModel, e: SystemEvent) -> Result<SystemModel, Fault> {
    match e {
        SystemEvent::Deliver { now } => if s.to_coordinator.len() == 0 {
            Ok(s)
        } else {
            match message_step(s.coord, s.to_coordinator[0], now) {
                Ok((c, d)) => Ok(
                    SystemModel {
                        coord: c,
                        to_supervisor: queued(s.to_supervisor, d),
                        to_coordinator: s.to_coordinator.drop_first(),
                        ..s
                    },
                ),
                Err(f) => Err(f),
            }
        },
        SystemEvent::Wake { now } => match timeout_step(s.coord, now) {
            Ok((c, d)) => Ok(
                SystemModel { coord: c, to_supervisor: queued(s.to_supervisor, d), ..s },
            ),
            Err(f) => Err(f),
        },
        SystemEvent::Serve { exited } => if s.to_supervisor.len() == 0 {
            Ok(s)
        } else {
            match handle_spec(s.owns, s.to_supervisor[0]) {
                Ok((w, owns)) => {
                    let (owns2, reply) = served(w, owns, exited);
                    Ok(
                        SystemModel {
                            owns: owns2,
                            to_supervisor: s.to_supervisor.drop_first(),
                            to_coordinator: reply_to(s.to_coordinator, reply),
                            ..s
                        },
                    )
                },
                Err(f) => Err(f),
            }
        },
        SystemEvent::Interrupt => Ok(
            SystemModel { to_coordinator: s.to_coordinator.push(Message::Interrupt), ..s },
        ),
    }
}

/// The system after a whole schedule of events, or the first fault.
pub open spec fn system_run(s: SystemModel, events: Seq<SystemEvent>) -> Result<SystemModel, Fault>
    decreases events.len(),
{
    if events.len() == 0 {
        Ok(s)
    } else {
        match system_step(s, events[0]) {
            Ok(s2) => system_run(s2, events.drop_first()),
            Err(f) => Err(f),
        }
    }
}

/// Just after the handshake: the coordinator waits for the supervisor's
/// endpoint, which is already in its inbox, and nothing is owned.
pub open spec fn system_initial(s: SystemModel) -> bool {
    &&& s.coord.phase == Phase::Connecting
    &&& !s.owns
    &&& s.to_supervisor == Seq::<Message>::empty()
    &&& s.to_coordinator == seq![Message::Endpoint]
}

/// What holds in every reachable state: each queue carries only its own
/// direction's messages, and the runs in flight agree with the phase.
pub open spec fn system_inv(s: SystemModel) -> bool {
    let d = lifecycle(s.to_supervisor);
    let u = lifecycle(s.to_coordinator);
    &&& forall|i: int| 0 <= i < s.to_supervisor.len() ==> is_command(#[trigger] s.to_supervisor[i])
    &&& s.coord.phase != Phase::Stopped ==> forall|i: int|
        0 <= i < s.to_coordinator.len() ==> !is_command(#[trigger] s.to_coordinator[i])
    &&& match s.coord.phase {
        Phase::Connecting => {
            &&& !s.owns
            &&& s.to_supervisor.len() == 0
            &&& u == seq![Message::Endpoint]
            &&& forall|i: int|
                0 <= i < s.to_coordinator.len() ==> #[trigger] s.to_coordinator[i]
                    != Message::Running
        },
        Phase::Running => {
            ||| !s.owns && d == seq![Message::Start] && u.len() == 0
            ||| s.owns && d.len() == 0 && u.len() == 0
            ||| !s.owns && d.len() == 0 && u == seq![Message::Finished]
        },
        Phase::Killing => {
            ||| !s.owns && d == seq![Message::Start, Message::Kill] && u.len() == 0
            ||| s.owns && d == seq![Message::Kill] && u.len() == 0
            ||| !s.owns && d == seq![Message::Kill] && (u.len() == 0 || u == seq![
                Message::Finished,
            ])
            ||| !s.owns && d.len() == 0 && (u == seq![Message::Killed] || u == seq![
                Message::Finished,
                Message::Killed,
            ])
        },
        Phase::Stopped => {
            &&& forall|i: int| 0 < i < d.len() ==> #[trigger] d[i] == Message::Kill
            &&& d.len() > 0 && d[0] == Message::Start ==> !s.owns
        },
    }
}

proof fn lemma_lifecycle_push(q: Seq<Message>, m: Message)
    ensures
        lifecycle(q.push(m)) == if is_lifecycle(m) {
            lifecycle(q).push(m)
        } else {
            lifecycle(q)
        },
{
    assert(q.push(m).drop_last() =~= q);
}

proof fn lemma_lifecycle_first(q: Seq<Message>)
    requires
        q.len() > 0,
    ensures
        lifecycle(q) == if is_lifecycle(q[0]) {
            seq![q[0]] + lifecycle(q.drop_first())
        } else {
            lifecycle(q.drop_first())
        },
    decreases q.len(),
{
    if q.len() == 1 {
        assert(q.drop_first() =~= Seq::<Message>::empty());
        assert(q.drop_last() =~= Seq::<Message>::empty());
        assert(lifecycle(q.drop_last()) == Seq::<Message>::empty());
        assert(lifecycle(q.drop_first()) == Seq::<Message>::empty());
        if is_lifecycle(q[0]) {
            assert(lifecycle(q) =~= seq![q[0]] + lifecycle(q.drop_first()));
        }
    } else {
        let p = q.drop_last();
        lemma_lifecycle_first(p);
        assert(p.drop_first() =~= q.drop_first().drop_last());
        assert(q.drop_first().last() == q.last());
        if is_lifecycle(q[0]) {
            assert(lifecycle(q) =~= seq![q[0]] + lifecycle(q.drop_first()));
        }
    }
}

proof fn lemma_empty(q: Seq<Message>)
    ensures
        q.len() == 0 ==> q == Seq::<Message>::empty(),
{
    if q.len() == 0 {
        assert(q =~= Seq::<Message>::empty());
    }
}

proof fn lemma_short_queues()
    ensures
        Seq::<Message>::empty().push(Message::Kill) == seq![Message::Kill],
        Seq::<Message>::empty().push(Message::Start) == seq![Message::Start],
        Seq::<Message>::empty().push(Message::Finished) == seq![Message::Finished],
        Seq::<Message>::empty().push(Message::Killed) == seq![Message::Killed],
        seq![Message::Start].push(Message::Kill) == seq![Message::Start, Message::Kill],
        seq![Message::Finished].push(Message::Killed) == seq![
            Message::Finished,
            Message::Killed,
        ],
        seq![Message::Start, Message::Kill].drop_first() == seq![Message::Kill],
        seq![Message::Finished, Message::Killed].drop_first() == seq![Message::Killed],
        seq![Message::Start].drop_first() == Seq::<Message>::empty(),
        seq![Message::Kill].drop_first() == Seq::<Message>::empty(),
        seq![Message::Finished].drop_first() == Seq::<Message>::empty(),
        seq![Message::Killed].drop_first() == Seq::<Message>::empty(),
        seq![Message::Endpoint].drop_first() == Seq::<Message>::empty(),
{
    assert(Seq::<Message>::empty().push(Message::Kill) =~= seq![Message::Kill]);
    assert(Seq::<Message>::empty().push(Message::Start) =~= seq![Message::Start]);
    assert(Seq::<Message>::empty().push(Message::Finished) =~= seq![Message::Finished]);
    assert(Seq::<Message>::empty().push(Message::Killed) =~= seq![Message::Killed]);
    assert(seq![Message::Start].push(Message::Kill) =~= seq![Message::Start, Message::Kill]);
    assert(seq![Message::Finished].push(Message::Killed) =~= seq![
        Message::Finished,
        Message::Killed,
    ]);
    assert(seq![Message::Start, Message::Kill].drop_first() =~= seq![Message::Kill]);
    assert(seq![Message::Finished, Message::Killed].drop_first() =~= seq![Message::Killed]);
    assert(seq![Message::Start].drop_first() =~= Seq::<Message>::empty());
    assert(seq![Message::Kill].drop_first() =~= Seq::<Message>::empty());
    assert(seq![Message::Finished].drop_first() =~= Seq::<Message>::empty());
    assert(seq![Message::Killed].drop_first() =~= Seq::<Message>::empty());
    assert(seq![Message::Endpoint].drop_first() =~= Seq::<Message>::empty());
}

/// A command at the front of the supervisor's queue is also the front of
/// its lifecycle messages, if it is one.
proof fn lemma_front(q: Seq<Message>)
    requires
        q.len() > 0,
    ensures
        is_lifecycle(q[0]) ==> lifecycle(q).len() > 0 && lifecycle(q)[0] == q[0]
            && lifecycle(q.drop_first()) =~= lifecycle(q).drop_first(),
        !is_lifecycle(q[0]) ==> lifecycle(q.drop_first()) == lifecycle(q),
{
    lemma_lifecycle_first(q);
}

proof fn lemma_deliver(s: SystemModel, now: u64)
    requires
        system_inv(s),
    ensures
        system_step(s, SystemEvent::Deliver { now }) matches Ok(s2) && system_inv(s2),
{
    lemma_short_queues();
    lemma_empty(lifecycle(s.to_supervisor));
    lemma_empty(lifecycle(s.to_coordinator));
    lemma_empty(s.to_supervisor);
    lemma_empty(s.to_coordinator);
    let q = s.to_coordinator;
    if q.len() > 0 {
        lemma_front(q);
        let msg = q[0];
        assert(s.coord.phase != Phase::Stopped ==> !is_command(q[0]));
        let r = message_step(s.coord, msg, now);
        assert(r is Ok);
        let (c, d) = r->Ok_0;
        if let Some(m) = d.send {
            lemma_lifecycle_push(s.to_supervisor, m);
        }
        let s2 = system_step(s, SystemEvent::Deliver { now })->Ok_0;
        assert(forall|i: int|
            0 <= i < s2.to_coordinator.len() ==> s2.to_coordinator[i] == q[i + 1]);
        assert(forall|i: int|
            0 <= i < s.to_supervisor.len() ==> s2.to_supervisor[i] == s.to_supervisor[i]);
        assert(system_inv(s2));
    }
}

proof fn lemma_wake(s: SystemModel, now: u64)
    requires
        system_inv(s),
    ensures
        system_step(s, SystemEvent::Wake { now }) matches Ok(s2) ==> system_inv(s2),
        system_step(s, SystemEvent::Wake { now }) matches Err(f) ==> f == Fault::NoEndpoint,
{
    lemma_short_queues();
    lemma_empty(lifecycle(s.to_supervisor));
    lemma_empty(lifecycle(s.to_coordinator));
    lemma_empty(s.to_supervisor);
    lemma_empty(s.to_coordinator);
    if let Ok((c, d)) = timeout_step(s.coord, now) {
        if let Some(m) = d.send {
            lemma_lifecycle_push(s.to_supervisor, m);
        }
        let s2 = system_step(s, SystemEvent::Wake { now })->Ok_0;
        assert(forall|i: int|
            0 <= i < s.to_supervisor.len() ==> s2.to_supervisor[i] == s.to_supervisor[i]);
        assert(system_inv(s2));
    }
}

proof fn lemma_serve(s: SystemModel, exited: bool)
    requires
        system_inv(s),
    ensures
        system_step(s, SystemEvent::Serve { exited }) matches Ok(s2) && system_inv(s2),
{
    lemma_short_queues();
    lemma_empty(lifecycle(s.to_supervisor));
    lemma_empty(lifecycle(s.to_coordinator));
    lemma_empty(s.to_supervisor);
    lemma_empty(s.to_coordinator);
    let q = s.to_supervisor;
    if q.len() > 0 {
        lemma_front(q);
        assert(is_command(q[0]));
        let r = handle_spec(s.owns, q[0]);
        assert(r is Ok);
        let (w, owns) = r->Ok_0;
        let (owns2, reply) = served(w, owns, exited);
        if let Some(m) = reply {
            lemma_lifecycle_push(s.to_coordinator, m);
        }
        let s2 = system_step(s, SystemEvent::Serve { exited })->Ok_0;
        assert(forall|i: int|
            0 <= i < s2.to_supervisor.len() ==> s2.to_supervisor[i] == q[i + 1]);
        assert(forall|i: int|
            0 <= i < s.to_coordinator.len() ==> s2.to_coordinator[i] == s.to_coordinator[i]);
        assert(system_inv(s2));
    }
}

proof fn lemma_interrupt(s: SystemModel)
    requires
        system_inv(s),
    ensures
        system_step(s, SystemEvent::Interrupt) matches Ok(s2) && system_inv(s2),
{
    lemma_lifecycle_push(s.to_coordinator, Message::Interrupt);
    let s2 = system_step(s, SystemEvent::Interrupt)->Ok_0;
    assert(forall|i: int|
        0 <= i < s.to_coordinator.len() ==> s2.to_coordinator[i] == s.to_coordinator[i]);
    assert(system_inv(s2));
}

/// Every event keeps the invariant, and the only fault any event can raise
/// is a deadline that passed before the supervisor's endpoint arrived.
pub proof fn law_step_keeps_inv(s: SystemModel, e: SystemEvent)
    requires
        system_inv(s),
    ensures
        system_step(s, e) matches Ok(s2) ==> system_inv(s2),
        system_step(s, e) matches Err(f) ==> f == Fault::NoEndpoint && e is Wake,
{
    match e {
        SystemEvent::Deliver { now } => lemma_deliver(s, now),
        SystemEvent::Wake { now } => lemma_wake(s, now),
        SystemEvent::Serve { exited } => lemma_serve(s, exited),
        SystemEvent::Interrupt => lemma_interrupt(s),
    }
}

/// The state right after the handshake satisfies the invariant.
pub proof fn law_initial_inv(s: SystemModel)
    requires
        system_initial(s),
    ensures
        system_inv(s),
{
    assert(lifecycle(s.to_coordinator.drop_last()) == Seq::<Message>::empty());
    assert(lifecycle(s.to_coordinator) =~= seq![Message::Endpoint]);
}

/// In a state of the invariant, a `Start` at the front of the supervisor's
/// queue meets a supervisor that owns nothing.
pub proof fn law_inv_no_double_start(s: SystemModel)
    requires
        system_inv(s),
    ensures
        s.to_supervisor.len() > 0 && s.to_supervisor[0] == Message::Start ==> !s.owns,
{
    if s.to_supervisor.len() > 0 {
        lemma_front(s.to_supervisor);
    }
}

/// Whatever the schedule, from the handshake on the watchdog never holds
/// two processes and never sees a message its protocol forbids: the
/// supervisor is never sent `Start` while it owns a process, and the only
/// fault that can stop the run is a deadline that passed before the
/// supervisor's endpoint arrived.
pub proof fn law_protocol_safe(s: SystemModel, events: Seq<SystemEvent>)
    requires
        system_initial(s),
    ensures
        system_run(s, events) matches Ok(s2) ==> system_inv(s2) && (s2.to_supervisor.len() > 0
            && s2.to_supervisor[0] == Message::Start ==> !s2.owns),
        system_run(s, events) matches Err(f) ==> f == Fault::NoEndpoint,
{
    law_initial_inv(s);
    lemma_run_keeps_inv(s, events);
    if let Ok(s2) = system_run(s, events) {
        law_inv_no_double_start(s2);
    }
}

proof fn lemma_run_keeps_inv(s: SystemModel, events: Seq<SystemEvent>)
    requires
        system_inv(s),
    ensures
        system_run(s, events) matches Ok(s2) ==> system_inv(s2),
        system_run(s, events) matches Err(f) ==> f == Fault::NoEndpoint,
    decreases events.len(),
{
    if events.len() > 0 {
        law_step_keeps_inv(s, events[0]);
        if let Ok(s2) = system_step(s, events[0]) {
            lemma_run_keeps_inv(s2, events.drop_first());
        }
    }
}

} // verus!
