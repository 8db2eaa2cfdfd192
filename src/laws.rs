use vstd::prelude::*;

use crate::coordinator::{
    decision, deadline_from, message_step, timeout_step, After, CoordinatorModel, Decision, Phase,
    Report,
};
use crate::message::{Fault, Message};
use crate::supervisor::{handle_spec, Work};

verus! {

/// Whenever the coordinator issues `Start`, a run begins and its deadline
/// is the timeout counted from that very moment, never a stale one.
pub proof fn law_start_sets_deadline(m: CoordinatorModel, msg: Message, now: u64)
    ensures
        message_step(m, msg, now) matches Ok((m2, d)) ==> d.send == Some(Message::Start) ==> {
            &&& m2.phase == Phase::Running
            &&& m2.deadline == deadline_from(now, m.timeout_secs)
            &&& m2.timeout_secs == m.timeout_secs
            &&& m2.restart == m.restart
        },
        timeout_step(m, now) matches Ok((m2, d)) ==> d.send != Some(Message::Start),
{
}

/// A run started at `start` is killed at the first timed-out wake-up that
/// comes at least the timeout after `start`; earlier wake-ups only poll.
/// Wake-ups come at least every `POLL_MILLIS`, so the kill is issued within
/// the timeout plus that cadence.
pub proof fn law_kill_at_deadline(m: CoordinatorModel, start: u64, now: u64)
    requires
        m.phase == Phase::Running,
        m.deadline == deadline_from(start, m.timeout_secs),
    ensures
        now >= start + 1000 * m.timeout_secs ==> timeout_step(m, now) == Ok::<
            (CoordinatorModel, Decision),
            Fault,
        >(
            (
                CoordinatorModel {
                    phase: Phase::Killing,
                    deadline: deadline_from(now, m.timeout_secs),
                    ..m
                },
                decision(
                    Some(Message::Kill),
                    Some(Report::TimeoutReached),
                    After::Continue,
                ),
            ),
        ),
        now < m.deadline ==> (timeout_step(m, now) matches Ok((m2, d)) && m2 == m && d.send
            == Some(Message::Poll)),
{
}

/// Without restart, a command that finishes on its own makes the watchdog
/// exit, and from then on no command at all, `Start` included, is issued.
pub proof fn law_finish_without_restart(m: CoordinatorModel, now: u64)
    requires
        !m.restart,
        m.phase == Phase::Running,
    ensures
        message_step(m, Message::Finished, now) matches Ok((m2, d)) && m2.phase == Phase::Stopped
            && d.send.is_none() && d.after == After::Exit,
{
}

/// Once stopped, the coordinator issues nothing more, whatever wakes it.
pub proof fn law_stopped_is_final(m: CoordinatorModel, msg: Message, now: u64)
    requires
        m.phase == Phase::Stopped,
    ensures
        message_step(m, msg, now) matches Ok((m2, d)) && m2 == m && d.send.is_none(),
        timeout_step(m, now) matches Ok((m2, d)) && m2 == m && d.send.is_none(),
{
}

/// With restart, the notification that ends a run (`Finished` while it
/// runs, `Killed` after a deadline kill) is answered by exactly one `Start`,
/// and the new deadline counts from the restart.
pub proof fn law_restart_after_run(m: CoordinatorModel, msg: Message, now: u64)
    requires
        m.restart,
        (msg == Message::Finished && m.phase == Phase::Running) || (msg == Message::Killed
            && m.phase == Phase::Killing),
    ensures
        message_step(m, msg, now) matches Ok((m2, d)) && d.send == Some(Message::Start)
            && m2.phase == Phase::Running && m2.deadline == deadline_from(now, m.timeout_secs),
{
}

/// A `Finished` that crosses a deadline kill starts nothing: only the
/// `Killed` that answers the kill may, so a run never gets two successors.
pub proof fn law_no_start_while_killing(m: CoordinatorModel, msg: Message, now: u64)
    requires
        m.phase == Phase::Killing,
        msg != Message::Killed,
    ensures
        message_step(m, msg, now) matches Ok((m2, d)) ==> d.send != Some(Message::Start),
        timeout_step(m, now) matches Ok((m2, d)) && d.send.is_none(),
{
}

/// The supervisor never owns two processes: `Start` is accepted only when
/// nothing is owned, and is a fatal fault otherwise.
pub proof fn law_no_double_spawn(owns: bool)
    ensures
        handle_spec(owns, Message::Start) == if owns {
            Err::<(Work, bool), Fault>(Fault::AlreadyRunning)
        } else {
            Ok::<(Work, bool), Fault>((Work::Spawn, true))
        },
{
}

/// A kill always leaves nothing owned, and is always answered with
/// `Killed`; an owned process is signalled and reaped first.
pub proof fn law_kill_releases(owns: bool)
    ensures
        handle_spec(owns, Message::Kill) matches Ok((w, owns2)) && !owns2 && w.reply_spec() == Some(
            Message::Killed,
        ) && (w == Work::Terminate <==> owns),
{
}

/// An interrupt stops the coordinator at once: the running command is
/// sent `Kill` (once the supervisor is reachable) and the watchdog exits
/// after the grace period, whatever the timeout.
pub proof fn law_interrupt_stops(m: CoordinatorModel, now: u64)
    requires
        m.phase != Phase::Stopped,
    ensures
        message_step(m, Message::Interrupt, now) matches Ok((m2, d)) && m2.phase == Phase::Stopped
            && d.after == After::ExitAfterGrace && (d.send == Some(Message::Kill) <==> m.phase
            != Phase::Connecting) && (d.send.is_none() <==> m.phase == Phase::Connecting),
{
}

} // verus!
