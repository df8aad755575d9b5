use faketty::drain::{Drain, DrainStep, ReadOutcome};
use faketty::lifecycle::{Action, Coordinator, Event, Phase, RunError};
use faketty::size::TerminalSize;

fn feed(events: Vec<Event>) -> (Coordinator, Vec<Action>) {
    let (mut c, first) = Coordinator::new(TerminalSize { columns: 80, rows: 24 });
    let mut actions = vec![first];
    for e in events {
        assert!(c.accepts(&e));
        let (next, more) = c.step(e);
        c = next;
        actions.extend(more);
    }
    (c, actions)
}

fn clean(code: u32, output: &[u8]) -> Vec<Event> {
    vec![
        Event::PtyOpened,
        Event::ChildStarted,
        Event::DrainLaunched,
        Event::ChildExited(code),
        Event::DrainFinished(output.to_vec()),
    ]
}

#[test]
fn hello_child_output_and_code_pass_through() {
    let (c, actions) = feed(clean(0, b"hello\n"));
    assert_eq!(c.phase, Phase::Done);
    assert_eq!(
        actions,
        vec![
            Action::OpenPty(TerminalSize { columns: 80, rows: 24 }),
            Action::SpawnChild,
            Action::ReleaseSubordinate,
            Action::StartDrain,
            Action::WaitChild,
            Action::ReleaseControlling,
            Action::CollectDrain,
            Action::Emit { output: b"hello\n".to_vec(), code: 0 },
        ]
    );
}

#[test]
fn nonzero_exit_code_passes_through() {
    let (_, actions) = feed(clean(42, b"partial\r\n"));
    assert_eq!(actions.last(), Some(&Action::Emit { output: b"partial\r\n".to_vec(), code: 42 }));
}

#[test]
fn large_output_passes_through_whole() {
    let big = vec![b'x'; 1 << 20];
    let (_, actions) = feed(clean(0, &big));
    assert_eq!(actions.last(), Some(&Action::Emit { output: big, code: 0 }));
}

#[test]
fn same_events_give_same_actions() {
    let a = feed(clean(3, b"same"));
    let b = feed(clean(3, b"same"));
    assert_eq!(a, b);
}

#[test]
fn subordinate_released_before_drain_and_wait() {
    let (_, actions) = feed(clean(0, b""));
    let release = actions.iter().position(|a| *a == Action::ReleaseSubordinate).unwrap();
    let drain = actions.iter().position(|a| *a == Action::StartDrain).unwrap();
    let wait = actions.iter().position(|a| *a == Action::WaitChild).unwrap();
    assert!(release < drain);
    assert!(release < wait);
}

#[test]
fn pty_refusal_is_reported() {
    let (c, actions) = feed(vec![Event::PtyRefused("no pty".to_string())]);
    assert_eq!(c.phase, Phase::Failed);
    assert_eq!(actions[1], Action::Report(RunError::PtyAllocation("no pty".to_string())));
    assert_eq!(actions.len(), 2);
}

#[test]
fn spawn_refusal_releases_handles_first() {
    let (c, actions) = feed(vec![Event::PtyOpened, Event::SpawnRefused("denied".to_string())]);
    assert_eq!(c.phase, Phase::Failed);
    assert!(!c.subordinate_held && !c.controlling_held);
    assert_eq!(
        actions[2..].to_vec(),
        vec![
            Action::ReleaseSubordinate,
            Action::ReleaseControlling,
            Action::Report(RunError::Spawn("denied".to_string())),
        ]
    );
}

#[test]
fn drain_launch_refusal_is_reported() {
    let (_, actions) = feed(vec![
        Event::PtyOpened,
        Event::ChildStarted,
        Event::DrainRefused("clone".to_string()),
    ]);
    assert_eq!(
        actions[4..].to_vec(),
        vec![Action::ReleaseControlling, Action::Report(RunError::Drain("clone".to_string()))]
    );
}

#[test]
fn wait_failure_is_reported() {
    let (_, actions) = feed(vec![
        Event::PtyOpened,
        Event::ChildStarted,
        Event::DrainLaunched,
        Event::WaitRefused("lost".to_string()),
    ]);
    assert_eq!(
        actions[5..].to_vec(),
        vec![Action::ReleaseControlling, Action::Report(RunError::Wait("lost".to_string()))]
    );
}

#[test]
fn drain_failure_discards_output() {
    let (c, actions) = feed(vec![
        Event::PtyOpened,
        Event::ChildStarted,
        Event::DrainLaunched,
        Event::ChildExited(0),
        Event::DrainBroke("read".to_string()),
    ]);
    assert_eq!(c.phase, Phase::Failed);
    assert_eq!(actions.last(), Some(&Action::Report(RunError::Drain("read".to_string()))));
    assert!(!actions.iter().any(|a| matches!(a, Action::Emit { .. })));
}

#[test]
fn out_of_turn_event_is_not_accepted() {
    let (c, _) = Coordinator::new(TerminalSize { columns: 1, rows: 1 });
    assert!(!c.accepts(&Event::ChildExited(0)));
    assert!(c.accepts(&Event::PtyOpened));
    let (done, _) = feed(clean(0, b""));
    assert!(!done.accepts(&Event::PtyOpened));
}

#[test]
fn errors_exit_with_one() {
    assert_eq!(RunError::Wait("x".to_string()).exit_code(), 1);
    assert_eq!(RunError::Spawn("x".to_string()).exit_code(), 1);
}

fn drain_all(outcomes: Vec<ReadOutcome>) -> Option<Event> {
    let mut d = Drain::new();
    for o in outcomes {
        match d.absorb(o) {
            DrainStep::More(next) => d = next,
            DrainStep::Over(e) => return Some(e),
        }
    }
    None
}

#[test]
fn drain_keeps_chunks_in_order() {
    let e = drain_all(vec![
        ReadOutcome::Data(b"he".to_vec()),
        ReadOutcome::Interrupted,
        ReadOutcome::Data(b"llo\n".to_vec()),
        ReadOutcome::End,
    ]);
    assert_eq!(e, Some(Event::DrainFinished(b"hello\n".to_vec())));
}

#[test]
fn drain_of_silent_child_is_empty() {
    assert_eq!(drain_all(vec![ReadOutcome::End]), Some(Event::DrainFinished(vec![])));
}

#[test]
fn drain_failure_drops_partial_output() {
    let e = drain_all(vec![ReadOutcome::Data(b"part".to_vec()), ReadOutcome::Failed("eio".to_string())]);
    assert_eq!(e, Some(Event::DrainBroke("eio".to_string())));
}

#[test]
fn drain_waits_for_end() {
    assert_eq!(drain_all(vec![ReadOutcome::Data(b"x".to_vec())]), None);
}
