//! The order of work around one child on a pseudo-terminal.
//!
//! A [`Coordinator`] takes the outcome of each piece of outside work as an
//! [`Event`] and answers with the next state and the [`Action`]s to perform,
//! in order. Its central rule: the parent's copy of the subordinate handle is
//! released before the output is drained or the child is awaited, since the
//! controlling side reaches end-of-stream only once no process holds the
//! subordinate side.
use vstd::prelude::*;
use crate::command::LookupError;
use crate::size::TerminalSize;

verus! {

/// Why a run failed. Each failure ends the run with exit code 1.
#[derive(Clone, Debug, PartialEq, Eq)]
pub enum RunError {
    /// The program name was not found on the search path.
    CommandNotFound(LookupError),
    /// No pseudo-terminal could be had.
    PtyAllocation(String),
    /// The system refused to start the program.
    Spawn(String),
    /// Waiting for the child failed.
    Wait(String),
    /// Reading the child's output failed.
    Drain(String),
}

impl RunError {
    /// The exit code of a failed run.
    pub fn exit_code(&self) -> (r: i32)
        ensures
            r == 1,
    {
        1
    }
}

/// How far a run has come.
#[derive(Clone, Copy, Debug, PartialEq, Eq, Structural)]
pub enum Phase {
    /// The pseudo-terminal is being opened.
    Idle,
    /// The pair is open; the child is being started.
    Allocated,
    /// The child runs and the subordinate handle is released; the drain is being launched.
    Spawned,
    /// The drain runs; the child is awaited.
    Draining,
    /// The child exited with `code` and the controlling handle is released.
    TornDown { code: u32 },
    /// The output and the exit code were handed out.
    Done,
    /// A failure was reported.
    Failed,
}

/// The outcome of the last piece of outside work.
#[derive(Clone, Debug, PartialEq, Eq)]
pub enum Event {
    PtyOpened,
    PtyRefused(String),
    ChildStarted,
    SpawnRefused(String),
    DrainLaunched,
    DrainRefused(String),
    ChildExited(u32),
    WaitRefused(String),
    DrainFinished(Vec<u8>),
    DrainBroke(String),
}

/// A piece of work for the caller to perform.
#[derive(Clone, Debug, PartialEq, Eq)]
pub enum Action {
    /// Open a pseudo-terminal pair of this size.
    OpenPty(TerminalSize),
    /// Start the program on the subordinate side.
    SpawnChild,
    /// Drop the parent's subordinate handle.
    ReleaseSubordinate,
    /// Read the controlling side to end-of-stream in the background.
    StartDrain,
    /// Block until the child exits.
    WaitChild,
    /// Drop the parent's controlling handle.
    ReleaseControlling,
    /// Block until the drain hands over what it read.
    CollectDrain,
    /// Write `output` to standard output and exit with `code`.
    Emit { output: Vec<u8>, code: u32 },
    /// Print the failure and exit with code 1.
    Report(RunError),
}

/// The state of one run, with the handles the parent still holds.
#[derive(Clone, Copy, Debug, PartialEq, Eq, Structural)]
pub struct Coordinator {
    pub phase: Phase,
    pub subordinate_held: bool,
    pub controlling_held: bool,
}

/// The state before anything was opened.
pub open spec fn initial() -> Coordinator {
    Coordinator { phase: Phase::Idle, subordinate_held: false, controlling_held: false }
}

/// Whether `e` is an outcome of the work that a run in phase `p` waits for.
pub open spec fn accepts(p: Phase, e: Event) -> bool {
    match p {
        Phase::Idle => e is PtyOpened || e is PtyRefused,
        Phase::Allocated => e is ChildStarted || e is SpawnRefused,
        Phase::Spawned => e is DrainLaunched || e is DrainRefused,
        Phase::Draining => e is ChildExited || e is WaitRefused,
        Phase::TornDown { .. } => e is DrainFinished || e is DrainBroke,
        _ => false,
    }
}

pub open spec fn at(phase: Phase, subordinate_held: bool, controlling_held: bool) -> Coordinator {
    Coordinator { phase, subordinate_held, controlling_held }
}

/// The next state, and the actions to perform in order, after event `e`.
pub open spec fn transition(c: Coordinator, e: Event) -> (Coordinator, Seq<Action>) {
    match c.phase {
        Phase::Idle => match e {
            Event::PtyOpened => (at(Phase::Allocated, true, true), seq![Action::SpawnChild]),
            Event::PtyRefused(m) => (
                at(Phase::Failed, false, false),
                seq![Action::Report(RunError::PtyAllocation(m))],
            ),
            _ => (c, seq![]),
        },
        Phase::Allocated => match e {
            Event::ChildStarted => (
                at(Phase::Spawned, false, true),
                seq![Action::ReleaseSubordinate, Action::StartDrain],
            ),
            Event::SpawnRefused(m) => (
                at(Phase::Failed, false, false),
                seq![
                    Action::ReleaseSubordinate,
                    Action::ReleaseControlling,
                    Action::Report(RunError::Spawn(m)),
                ],
            ),
            _ => (c, seq![]),
        },
        Phase::Spawned => match e {
            Event::DrainLaunched => (at(Phase::Draining, false, true), seq![Action::WaitChild]),
            Event::DrainRefused(m) => (
                at(Phase::Failed, false, false),
                seq![Action::ReleaseControlling, Action::Report(RunError::Drain(m))],
            ),
            _ => (c, seq![]),
        },
        Phase::Draining => match e {
            Event::ChildExited(code) => (
                at(Phase::TornDown { code }, false, false),
                seq![Action::ReleaseControlling, Action::CollectDrain],
            ),
            Event::WaitRefused(m) => (
                at(Phase::Failed, false, false),
                seq![Action::ReleaseControlling, Action::Report(RunError::Wait(m))],
            ),
            _ => (c, seq![]),
        },
        Phase::TornDown { code } => match e {
            Event::DrainFinished(output) => (
                at(Phase::Done, false, false),
                seq![Action::Emit { output, code }],
            ),
            Event::DrainBroke(m) => (
                at(Phase::Failed, false, false),
                seq![Action::Report(RunError::Drain(m))],
            ),
            _ => (c, seq![]),
        },
        _ => (c, seq![]),
    }
}

/// The state reached, and every action asked for, when `events` come in turn;
/// the run stops at the first event that does not fit its phase.
pub open spec fn run(c: Coordinator, events: Seq<Event>) -> (Coordinator, Seq<Action>)
    decreases events.len(),
{
    if events.len() == 0 || !accepts(c.phase, events[0]) {
        (c, seq![])
    } else {
        let (next, first) = transition(c, events[0]);
        let (last, rest) = run(next, events.drop_first());
        (last, first + rest)
    }
}

impl Coordinator {
    /// A run that is about to open a pseudo-terminal of `size`, and that action.
    pub fn new(size: TerminalSize) -> (r: (Coordinator, Action))
        ensures
            r.0 == initial(),
            r.1 == Action::OpenPty(size),
    {
        (Coordinator { phase: Phase::Idle, subordinate_held: false, controlling_held: false }, Action::OpenPty(size))
    }

    /// Whether `e` is an outcome of the work this run waits for.
    pub fn accepts(&self, e: &Event) -> (r: bool)
        ensures
            r == accepts(self.phase, *e),
    {
        match self.phase {
            Phase::Idle => matches!(e, Event::PtyOpened | Event::PtyRefused(_)),
            Phase::Allocated => matches!(e, Event::ChildStarted | Event::SpawnRefused(_)),
            Phase::Spawned => matches!(e, Event::DrainLaunched | Event::DrainRefused(_)),
            Phase::Draining => matches!(e, Event::ChildExited(_) | Event::WaitRefused(_)),
            Phase::TornDown { .. } => matches!(e, Event::DrainFinished(_) | Event::DrainBroke(_)),
            _ => false,
        }
    }

    /// Takes the outcome of the last piece of work; gives the next state and
    /// the actions to perform, in order.
    pub fn step(self, e: Event) -> (r: (Coordinator, Vec<Action>))
        requires
            accepts(self.phase, e),
        ensures
            (r.0, r.1@) == transition(self, e),
    {
        match self.phase {
            Phase::Idle => match e {
                Event::PtyOpened => (
                    Coordinator { phase: Phase::Allocated, subordinate_held: true, controlling_held: true },
                    vec![Action::SpawnChild],
                ),
                Event::PtyRefused(m) => (
                    Coordinator { phase: Phase::Failed, subordinate_held: false, controlling_held: false },
                    vec![Action::Report(RunError::PtyAllocation(m))],
                ),
                _ => (self, vec![]),
            },
            Phase::Allocated => match e {
                Event::ChildStarted => (
                    Coordinator { phase: Phase::Spawned, subordinate_held: false, controlling_held: true },
                    vec![Action::ReleaseSubordinate, Action::StartDrain],
                ),
                Event::SpawnRefused(m) => (
                    Coordinator { phase: Phase::Failed, subordinate_held: false, controlling_held: false },
                    vec![
                        Action::ReleaseSubordinate,
                        Action::ReleaseControlling,
                        Action::Report(RunError::Spawn(m)),
                    ],
                ),
                _ => (self, vec![]),
            },
            Phase::Spawned => match e {
                Event::DrainLaunched => (
                    Coordinator { phase: Phase::Draining, subordinate_held: false, controlling_held: true },
                    vec![Action::WaitChild],
                ),
                Event::DrainRefused(m) => (
                    Coordinator { phase: Phase::Failed, subordinate_held: false, controlling_held: false },
                    vec![Action::ReleaseControlling, Action::Report(RunError::Drain(m))],
                ),
                _ => (self, vec![]),
            },
            Phase::Draining => match e {
                Event::ChildExited(code) => (
                    Coordinator { phase: Phase::TornDown { code }, subordinate_held: false, controlling_held: false },
                    vec![Action::ReleaseControlling, Action::CollectDrain],
                ),
                Event::WaitRefused(m) => (
                    Coordinator { phase: Phase::Failed, subordinate_held: false, controlling_held: false },
                    vec![Action::ReleaseControlling, Action::Report(RunError::Wait(m))],
                ),
                _ => (self, vec![]),
            },
            Phase::TornDown { code } => match e {
                Event::DrainFinished(output) => (
                    Coordinator { phase: Phase::Done, subordinate_held: false, controlling_held: false },
                    vec![Action::Emit { output, code }],
                ),
                Event::DrainBroke(m) => (
                    Coordinator { phase: Phase::Failed, subordinate_held: false, controlling_held: false },
                    vec![Action::Report(RunError::Drain(m))],
                ),
                _ => (self, vec![]),
            },
            _ => (self, vec![]),
        }
    }
}

/// Whether every `later` in `acts` has an `earlier` somewhere before it.
pub open spec fn comes_after(acts: Seq<Action>, earlier: Action, later: Action) -> bool {
    forall|i: int| 0 <= i < acts.len() && #[trigger] acts[i] == later
        ==> exists|j: int| 0 <= j < i && acts[j] == earlier
}

/// The events of a run in which every piece of work succeeds.
pub open spec fn clean_events(code: u32, output: Vec<u8>) -> Seq<Event> {
    seq![
        Event::PtyOpened,
        Event::ChildStarted,
        Event::DrainLaunched,
        Event::ChildExited(code),
        Event::DrainFinished(output),
    ]
}

/// A child that exits with `code` after writing `output` ends the run with
/// exactly that output and that exit code, after the handles were released
/// in order: subordinate first, controlling once the child has exited.
pub proof fn lemma_clean_run(code: u32, output: Vec<u8>)
    ensures
        run(initial(), clean_events(code, output)) == (
            at(Phase::Done, false, false),
            seq![
                Action::SpawnChild,
                Action::ReleaseSubordinate,
                Action::StartDrain,
                Action::WaitChild,
                Action::ReleaseControlling,
                Action::CollectDrain,
                Action::Emit { output, code },
            ],
        ),
{
    let ev = clean_events(code, output);
    let s1 = at(Phase::Allocated, true, true);
    let s2 = at(Phase::Spawned, false, true);
    let s3 = at(Phase::Draining, false, true);
    let s4 = at(Phase::TornDown { code }, false, false);
    let s5 = at(Phase::Done, false, false);
    assert(ev.drop_first().drop_first().drop_first().drop_first().drop_first() =~= seq![]);
    assert(run(s5, seq![]) == (s5, Seq::<Action>::empty()));
    assert(ev.drop_first().drop_first().drop_first().drop_first() =~= seq![Event::DrainFinished(output)]);
    assert(run(s4, seq![Event::DrainFinished(output)]).1 =~= seq![Action::Emit { output, code }]);
    assert(ev.drop_first().drop_first().drop_first() =~= seq![Event::ChildExited(code), Event::DrainFinished(output)]);
    assert(ev.drop_first().drop_first() =~= seq![Event::DrainLaunched, Event::ChildExited(code), Event::DrainFinished(output)]);
    assert(ev.drop_first() =~= seq![Event::ChildStarted, Event::DrainLaunched, Event::ChildExited(code), Event::DrainFinished(output)]);
    assert(run(s3, ev.drop_first().drop_first().drop_first()).1 =~= seq![
        Action::ReleaseControlling,
        Action::CollectDrain,
        Action::Emit { output, code },
    ]);
    assert(run(s2, ev.drop_first().drop_first()).1 =~= seq![
        Action::WaitChild,
        Action::ReleaseControlling,
        Action::CollectDrain,
        Action::Emit { output, code },
    ]);
    assert(run(s1, ev.drop_first()).1 =~= seq![
        Action::ReleaseSubordinate,
        Action::StartDrain,
        Action::WaitChild,
        Action::ReleaseControlling,
        Action::CollectDrain,
        Action::Emit { output, code },
    ]);
    assert(run(initial(), ev).1 =~= seq![
        Action::SpawnChild,
        Action::ReleaseSubordinate,
        Action::StartDrain,
        Action::WaitChild,
        Action::ReleaseControlling,
        Action::CollectDrain,
        Action::Emit { output, code },
    ]);
}

/// Whether the parent gave up its subordinate handle on reaching phase `p`.
pub open spec fn past_spawn(p: Phase) -> bool {
    p is Spawned || p is Draining || p is TornDown || p is Done || p is Failed
}

proof fn lemma_release_precedes(c: Coordinator, events: Seq<Event>, later: Action)
    requires
        later == Action::StartDrain || later == Action::WaitChild,
    ensures
        past_spawn(c.phase) || comes_after(run(c, events).1, Action::ReleaseSubordinate, later),
        past_spawn(c.phase) && (c.phase is Failed || c.phase is Done) ==> run(c, events).1.len() == 0,
    decreases events.len(),
{
    if events.len() == 0 || !accepts(c.phase, events[0]) {
        return;
    }
    let (next, first) = transition(c, events[0]);
    let rest = run(next, events.drop_first()).1;
    let acts = run(c, events).1;
    lemma_release_precedes(next, events.drop_first(), later);
    assert(acts == first + rest);
    if !past_spawn(c.phase) {
        assert forall|i: int| 0 <= i < acts.len() && #[trigger] acts[i] == later
            implies exists|j: int| 0 <= j < i && acts[j] == Action::ReleaseSubordinate by {
            if c.phase is Idle {
                assert(first[0] != later);
                if next.phase is Allocated {
                    let k = i - first.len();
                    assert(rest[k] == later);
                    let j = choose|j: int| 0 <= j < k && rest[j] == Action::ReleaseSubordinate;
                    assert(acts[j + first.len()] == Action::ReleaseSubordinate);
                }
            } else {
                assert(acts[0] == Action::ReleaseSubordinate);
                if i < first.len() {
                    assert(i != 0);
                }
            }
        }
    }
}

/// In every run, the parent releases its subordinate handle before it starts
/// draining the output and before it waits for the child: otherwise the drain
/// would never see end-of-stream.
pub proof fn lemma_subordinate_released_first(events: Seq<Event>)
    ensures
        comes_after(run(initial(), events).1, Action::ReleaseSubordinate, Action::StartDrain),
        comes_after(run(initial(), events).1, Action::ReleaseSubordinate, Action::WaitChild),
{
    lemma_release_precedes(initial(), events, Action::StartDrain);
    lemma_release_precedes(initial(), events, Action::WaitChild);
}

/// In every run, from any state, the drained output is collected only after
/// the parent released its controlling handle, once the child had exited.
pub proof fn lemma_controlling_released_before_collect(c: Coordinator, events: Seq<Event>)
    ensures
        comes_after(run(c, events).1, Action::ReleaseControlling, Action::CollectDrain),
    decreases events.len(),
{
    if events.len() == 0 || !accepts(c.phase, events[0]) {
        return;
    }
    let (next, first) = transition(c, events[0]);
    let rest = run(next, events.drop_first()).1;
    let acts = run(c, events).1;
    lemma_controlling_released_before_collect(next, events.drop_first());
    assert(acts == first + rest);
    assert forall|i: int| 0 <= i < acts.len() && #[trigger] acts[i] == Action::CollectDrain
        implies exists|j: int| 0 <= j < i && acts[j] == Action::ReleaseControlling by {
        if i < first.len() {
            assert(c.phase is Draining && i == 1);
            assert(acts[0] == Action::ReleaseControlling);
        } else {
            let k = i - first.len();
            assert(rest[k] == Action::CollectDrain);
            let j = choose|j: int| 0 <= j < k && rest[j] == Action::ReleaseControlling;
            assert(acts[j + first.len()] == Action::ReleaseControlling);
        }
    }
}

proof fn lemma_emit_source(c: Coordinator, events: Seq<Event>, output: Vec<u8>, code: u32)
    requires
        run(c, events).1.contains(Action::Emit { output, code }),
    ensures
        events.contains(Event::DrainFinished(output)),
        events.contains(Event::ChildExited(code)) || c.phase == (Phase::TornDown { code }),
    decreases events.len(),
{
    let (next, first) = transition(c, events[0]);
    let rest = run(next, events.drop_first()).1;
    let acts = run(c, events).1;
    assert(acts == first + rest);
    let i = choose|i: int| 0 <= i < acts.len() && acts[i] == Action::Emit { output, code };
    if i < first.len() {
        assert(events[0] == Event::DrainFinished(output));
        assert(c.phase == (Phase::TornDown { code }));
    } else {
        assert(rest[i - first.len()] == Action::Emit { output, code });
        lemma_emit_source(next, events.drop_first(), output, code);
        let t = events.drop_first();
        let a = choose|a: int| 0 <= a < t.len() && t[a] == Event::DrainFinished(output);
        assert(events[a + 1] == Event::DrainFinished(output));
        if t.contains(Event::ChildExited(code)) {
            let b = choose|b: int| 0 <= b < t.len() && t[b] == Event::ChildExited(code);
            assert(events[b + 1] == Event::ChildExited(code));
        } else {
            assert(next.phase == (Phase::TornDown { code }));
            assert(events[0] == Event::ChildExited(code));
        }
    }
}

/// Whatever happens in a run, output reaches standard output only as the
/// bytes the drain read, with the exit code the child exited with: a run that
/// emits `output` with `code` was told of both.
pub proof fn lemma_emit_is_child_outcome(events: Seq<Event>, output: Vec<u8>, code: u32)
    requires
        run(initial(), events).1.contains(Action::Emit { output, code }),
    ensures
        events.contains(Event::DrainFinished(output)),
        events.contains(Event::ChildExited(code)),
{
    lemma_emit_source(initial(), events, output, code);
}

/// Whether `a` reports a failure that came after the pseudo-terminal was opened.
pub open spec fn reports_late_failure(a: Action) -> bool {
    a matches Action::Report(e) && !(e is PtyAllocation)
}

proof fn lemma_release_before_late_report(c: Coordinator, events: Seq<Event>)
    ensures
        forall|i: int| 0 <= i < run(c, events).1.len() && reports_late_failure(#[trigger] run(c, events).1[i])
            ==> c.phase is TornDown || exists|j: int| 0 <= j < i && run(c, events).1[j] == Action::ReleaseControlling,
    decreases events.len(),
{
    if events.len() == 0 || !accepts(c.phase, events[0]) {
        return;
    }
    let (next, first) = transition(c, events[0]);
    let rest = run(next, events.drop_first()).1;
    let acts = run(c, events).1;
    lemma_release_before_late_report(next, events.drop_first());
    assert(acts == first + rest);
    assert forall|i: int| 0 <= i < acts.len() && reports_late_failure(#[trigger] acts[i])
        implies c.phase is TornDown || exists|j: int| 0 <= j < i && acts[j] == Action::ReleaseControlling by {
        if i < first.len() {
            if c.phase is Allocated {
                assert(i == 2 && acts[1] == Action::ReleaseControlling);
            } else if c.phase is Spawned || c.phase is Draining {
                assert(i == 1 && acts[0] == Action::ReleaseControlling);
            }
        } else {
            let k = i - first.len();
            assert(rest[k] == acts[i]);
            if next.phase is TornDown {
                assert(acts[0] == Action::ReleaseControlling);
            } else {
                let j = choose|j: int| 0 <= j < k && rest[j] == Action::ReleaseControlling;
                assert(acts[j + first.len()] == Action::ReleaseControlling);
            }
        }
    }
}

/// In every run, a failure that comes after the pseudo-terminal was opened
/// is reported only once the parent released its controlling handle: an
/// early exit leaks no handle.
pub proof fn lemma_failures_reported_after_release(events: Seq<Event>)
    ensures
        forall|i: int| 0 <= i < run(initial(), events).1.len()
            && reports_late_failure(#[trigger] run(initial(), events).1[i])
            ==> exists|j: int| 0 <= j < i && run(initial(), events).1[j] == Action::ReleaseControlling,
{
    lemma_release_before_late_report(initial(), events);
}

} // verus!
