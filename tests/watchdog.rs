use watchdog::{
    After, Coordinator, Decision, Fault, Message, Phase, Report, Supervisor, Work, GRACE_MILLIS,
    POLL_MILLIS,
};

fn decided(send: Option<Message>, report: Option<Report>, after: After) -> Decision {
    Decision { send, report, after }
}

/// Hands a coordinator's command to the supervisor and returns the reply
/// the runtime would send back, with `exited` as the outcome of a check.
fn serve(sup: &mut Supervisor, cmd: Message, exited: bool) -> Option<Message> {
    let work = sup.handle(cmd).expect("the supervisor accepts the command");
    if work == Work::Check {
        Some(sup.checked(exited))
    } else {
        work.reply()
    }
}

#[test]
fn new_coordinator_waits_for_endpoint() {
    let c = Coordinator::new(5, false, 1_000);
    assert_eq!(c.phase(), Phase::Connecting);
    assert_eq!(c.deadline(), 6_000);
    assert_eq!(c.timeout_secs(), 5);
    assert!(!c.restart());
}

#[test]
fn deadline_saturates_for_huge_timeouts() {
    let c = Coordinator::new(u64::MAX, true, 10);
    assert_eq!(c.deadline(), u64::MAX);
    let c = Coordinator::new(u64::MAX / 1000, true, u64::MAX - 5);
    assert_eq!(c.deadline(), u64::MAX);
}

#[test]
fn endpoint_starts_first_run_and_resets_deadline() {
    let mut c = Coordinator::new(2, false, 0);
    let d = c.on_message(Message::Endpoint, 300).unwrap();
    assert_eq!(d, decided(Some(Message::Start), Some(Report::CommandStarted), After::Continue));
    assert_eq!(c.phase(), Phase::Running);
    assert_eq!(c.deadline(), 2_300);
}

#[test]
fn wake_before_deadline_polls() {
    let mut c = Coordinator::new(2, false, 0);
    c.on_message(Message::Endpoint, 0).unwrap();
    let d = c.on_timeout(1_999).unwrap();
    assert_eq!(d, decided(Some(Message::Poll), None, After::Continue));
    assert_eq!(c.phase(), Phase::Running);
}

#[test]
fn wake_at_deadline_kills_and_recomputes_deadline() {
    let mut c = Coordinator::new(2, true, 0);
    c.on_message(Message::Endpoint, 0).unwrap();
    let d = c.on_timeout(2_000).unwrap();
    assert_eq!(d, decided(Some(Message::Kill), Some(Report::TimeoutReached), After::Continue));
    assert_eq!(c.phase(), Phase::Killing);
    assert_eq!(c.deadline(), 4_000);
}

#[test]
fn wake_while_killing_issues_nothing() {
    let mut c = Coordinator::new(1, true, 0);
    c.on_message(Message::Endpoint, 0).unwrap();
    c.on_timeout(1_000).unwrap();
    let d = c.on_timeout(5_000).unwrap();
    assert_eq!(d, decided(None, None, After::Continue));
    assert_eq!(c.phase(), Phase::Killing);
}

#[test]
fn wake_before_endpoint_is_benign_until_deadline() {
    let mut c = Coordinator::new(1, false, 0);
    assert_eq!(c.on_timeout(500), Ok(decided(None, None, After::Continue)));
    assert_eq!(c.on_timeout(1_000), Err(Fault::NoEndpoint));
    assert_eq!(c.phase(), Phase::Connecting);
}

#[test]
fn finished_without_restart_exits() {
    let mut c = Coordinator::new(5, false, 0);
    c.on_message(Message::Endpoint, 0).unwrap();
    let d = c.on_message(Message::Finished, 700).unwrap();
    assert_eq!(d, decided(None, Some(Report::CommandFinishedBeforeTimeout), After::Exit));
    assert_eq!(c.phase(), Phase::Stopped);
    // Nothing more is ever issued.
    assert_eq!(c.on_message(Message::Killed, 800), Ok(decided(None, None, After::Exit)));
    assert_eq!(c.on_timeout(100_000), Ok(decided(None, None, After::Exit)));
}

#[test]
fn finished_with_restart_starts_again_from_now() {
    let mut c = Coordinator::new(5, true, 0);
    c.on_message(Message::Endpoint, 0).unwrap();
    let d = c.on_message(Message::Finished, 3_000).unwrap();
    assert_eq!(d, decided(Some(Message::Start), Some(Report::Restarting), After::Continue));
    assert_eq!(c.phase(), Phase::Running);
    // Counted from the restart, not from the original start.
    assert_eq!(c.deadline(), 8_000);
}

#[test]
fn killed_with_restart_starts_again_from_now() {
    let mut c = Coordinator::new(1, true, 0);
    c.on_message(Message::Endpoint, 0).unwrap();
    c.on_timeout(1_200).unwrap();
    let d = c.on_message(Message::Killed, 1_300).unwrap();
    assert_eq!(d, decided(Some(Message::Start), Some(Report::Restarting), After::Continue));
    assert_eq!(c.deadline(), 2_300);
}

#[test]
fn killed_without_restart_exits() {
    let mut c = Coordinator::new(1, false, 0);
    c.on_message(Message::Endpoint, 0).unwrap();
    c.on_timeout(1_000).unwrap();
    let d = c.on_message(Message::Killed, 1_010).unwrap();
    assert_eq!(d, decided(None, Some(Report::CommandKilled), After::Exit));
    assert_eq!(c.phase(), Phase::Stopped);
}

#[test]
fn finished_crossing_a_kill_waits_for_killed() {
    let mut c = Coordinator::new(1, true, 0);
    c.on_message(Message::Endpoint, 0).unwrap();
    c.on_timeout(1_000).unwrap();
    let d = c.on_message(Message::Finished, 1_001).unwrap();
    assert_eq!(d, decided(None, None, After::Continue));
    assert_eq!(c.phase(), Phase::Killing);
    let d = c.on_message(Message::Killed, 1_002).unwrap();
    assert_eq!(d.send, Some(Message::Start));
}

#[test]
fn running_is_informational() {
    let mut c = Coordinator::new(5, false, 0);
    c.on_message(Message::Endpoint, 0).unwrap();
    let before = c.deadline();
    let d = c.on_message(Message::Running, 600).unwrap();
    assert_eq!(d, decided(None, Some(Report::CommandStillRunning), After::Continue));
    assert_eq!(c.phase(), Phase::Running);
    assert_eq!(c.deadline(), before);
}

#[test]
fn interrupt_kills_and_exits_after_grace() {
    let mut c = Coordinator::new(100, true, 0);
    c.on_message(Message::Endpoint, 0).unwrap();
    let d = c.on_message(Message::Interrupt, 50).unwrap();
    assert_eq!(d, decided(Some(Message::Kill), Some(Report::Exiting), After::ExitAfterGrace));
    assert_eq!(c.phase(), Phase::Stopped);
    assert_eq!(GRACE_MILLIS, 100);
}

#[test]
fn interrupt_before_endpoint_sends_nothing() {
    let mut c = Coordinator::new(100, true, 0);
    let d = c.on_message(Message::Interrupt, 50).unwrap();
    assert_eq!(d, decided(None, Some(Report::Exiting), After::ExitAfterGrace));
}

#[test]
fn coordinator_rejects_protocol_violations() {
    let mut c = Coordinator::new(5, true, 0);
    assert_eq!(c.on_message(Message::Running, 0), Err(Fault::Unexpected));
    assert_eq!(c.on_message(Message::Finished, 0), Err(Fault::Unexpected));
    assert_eq!(c.on_message(Message::Killed, 0), Err(Fault::Unexpected));
    c.on_message(Message::Endpoint, 0).unwrap();
    assert_eq!(c.on_message(Message::Endpoint, 0), Err(Fault::Unexpected));
    assert_eq!(c.on_message(Message::Killed, 0), Err(Fault::Unexpected));
    assert_eq!(c.on_message(Message::Start, 0), Err(Fault::Unexpected));
    assert_eq!(c.on_message(Message::Poll, 0), Err(Fault::Unexpected));
    assert_eq!(c.on_message(Message::Kill, 0), Err(Fault::Unexpected));
    assert_eq!(c.phase(), Phase::Running);
    assert_eq!(c.deadline(), 5_000);
}

#[test]
fn supervisor_start_poll_finish() {
    let mut s = Supervisor::new();
    assert!(!s.owns());
    assert_eq!(s.handle(Message::Start), Ok(Work::Spawn));
    assert!(s.owns());
    assert_eq!(s.handle(Message::Poll), Ok(Work::Check));
    assert_eq!(s.checked(false), Message::Running);
    assert!(s.owns());
    assert_eq!(s.handle(Message::Poll), Ok(Work::Check));
    assert_eq!(s.checked(true), Message::Finished);
    assert!(!s.owns());
}

#[test]
fn supervisor_double_start_is_fatal() {
    let mut s = Supervisor::new();
    assert_eq!(s.handle(Message::Start), Ok(Work::Spawn));
    assert_eq!(s.handle(Message::Start), Err(Fault::AlreadyRunning));
    assert!(s.owns());
}

#[test]
fn supervisor_kill_releases_and_replies() {
    let mut s = Supervisor::new();
    s.handle(Message::Start).unwrap();
    let w = s.handle(Message::Kill).unwrap();
    assert_eq!(w, Work::Terminate);
    assert_eq!(w.reply(), Some(Message::Killed));
    assert!(!s.owns());
}

#[test]
fn supervisor_benign_races() {
    let mut s = Supervisor::new();
    assert_eq!(s.handle(Message::Poll), Ok(Work::Ignore));
    assert_eq!(Work::Ignore.reply(), None);
    let w = s.handle(Message::Kill).unwrap();
    assert_eq!(w, Work::Acknowledge);
    assert_eq!(w.reply(), Some(Message::Killed));
    assert!(!s.owns());
    assert_eq!(Work::Spawn.reply(), None);
    assert_eq!(Work::Check.reply(), None);
}

#[test]
fn supervisor_rejects_notifications() {
    let mut s = Supervisor::new();
    for m in [
        Message::Endpoint,
        Message::Running,
        Message::Finished,
        Message::Killed,
        Message::Interrupt,
    ] {
        assert_eq!(s.handle(m), Err(Fault::Unexpected));
    }
    assert!(!s.owns());
}

#[test]
fn fault_descriptions_are_distinct() {
    let a = Fault::AlreadyRunning.describe();
    let b = Fault::NoEndpoint.describe();
    let c = Fault::Unexpected.describe();
    assert!(!a.is_empty() && !b.is_empty() && !c.is_empty());
    assert!(a != b && b != c && a != c);
}

#[test]
fn long_command_is_killed_once_and_not_restarted() {
    // sleep 100 with a one second timeout and no restart.
    let mut c = Coordinator::new(1, false, 0);
    let mut s = Supervisor::new();
    let mut starts = 0;
    let mut kills = 0;
    let mut now: u64 = 0;
    let mut inbox = vec![Message::Endpoint];
    let mut exit_at = None;
    while exit_at.is_none() && now < 10_000 {
        let decision = if inbox.is_empty() {
            now += POLL_MILLIS;
            c.on_timeout(now).unwrap()
        } else {
            let m = inbox.remove(0);
            c.on_message(m, now).unwrap()
        };
        if let Some(cmd) = decision.send {
            match cmd {
                Message::Start => starts += 1,
                Message::Kill => {
                    kills += 1;
                    assert!(now >= 1_000 && now <= 1_000 + POLL_MILLIS);
                }
                _ => {}
            }
            if let Some(reply) = serve(&mut s, cmd, false) {
                inbox.push(reply);
            }
        }
        if decision.after == After::Exit {
            exit_at = Some(now);
        }
    }
    assert_eq!(starts, 1);
    assert_eq!(kills, 1);
    assert_eq!(exit_at, Some(1_000));
    assert!(!s.owns());
}

#[test]
fn quick_command_with_restart_cycles() {
    // `true` with a five second timeout and restart.
    let mut c = Coordinator::new(5, true, 0);
    let mut s = Supervisor::new();
    let mut starts = 0;
    let mut finishes = 0;
    let mut now: u64 = 0;
    let mut inbox = vec![Message::Endpoint];
    while now < 20_000 {
        let decision = if inbox.is_empty() {
            now += POLL_MILLIS;
            c.on_timeout(now).unwrap()
        } else {
            let m = inbox.remove(0);
            if m == Message::Finished {
                finishes += 1;
            }
            c.on_message(m, now).unwrap()
        };
        assert_eq!(decision.after, After::Continue);
        assert_ne!(decision.send, Some(Message::Kill));
        if let Some(cmd) = decision.send {
            if cmd == Message::Start {
                starts += 1;
                assert_eq!(starts, finishes + 1);
                assert_eq!(c.deadline(), now + 5_000);
            }
            if let Some(reply) = serve(&mut s, cmd, true) {
                inbox.push(reply);
            }
        }
    }
    assert!(finishes >= 30);
    assert_eq!(starts, finishes + 1);
}
