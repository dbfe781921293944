//! The session's decisions, as a state machine from phase and event to next
//! phase and command. The driver performs each command (resolve the symbol,
//! attach the probe, wait, report) and hands back what happened as an event.
use vstd::prelude::*;
use crate::config::{Action, Config};

verus! {

/// Why a session ended without measuring.
#[derive(Clone, Copy, Debug, PartialEq, Eq, Structural)]
pub enum SessionError {
    /// The configuration payload did not decode.
    ConfigInvalid,
    /// The target function is not among the process's symbols.
    SymbolNotFound,
    /// The substrate refused to install the probe.
    AttachFailed,
}

/// Where a session stands.
#[derive(Clone, Copy, Debug, PartialEq, Eq, Structural)]
pub enum Phase {
    /// Waiting for the configuration payload to be decoded.
    AwaitConfig,
    /// The named function is being resolved; the action is kept for later.
    AwaitSymbol(Action),
    /// The probe for the action's listener is being attached.
    AwaitAttach(Action),
    /// Measuring and reporting under the action, until the process exits.
    Reporting(Action),
    /// The session ended on an error; nothing more happens.
    Ended(SessionError),
}

/// What the driver observed.
#[derive(Debug)]
pub enum Event {
    ConfigDecoded(Config),
    ConfigRejected,
    SymbolFound,
    SymbolMissing,
    ProbeAttached,
    ProbeRejected,
    /// One reporting interval went by.
    Tick,
}

/// What the driver is to do next.
#[derive(Debug)]
pub enum Command {
    /// Look the function up by this exact name.
    Resolve(String),
    /// Attach the listener of this action to the resolved function.
    Attach(Action),
    /// Wait one interval, then read the gauge and emit it.
    ReportAfterInterval,
    /// Wait one interval; the listener reports by itself.
    IdleInterval,
    /// Report the error once and stop the session.
    Abort(SessionError),
    /// Do nothing.
    Nothing,
}

/// The command that each reporting interval runs under an action.
pub open spec fn interval_command(a: Action) -> Command {
    match a {
        Action::MeasureStack => Command::ReportAfterInterval,
        Action::DoMoreStuff => Command::IdleInterval,
    }
}

/// One step of the session: an event that the phase does not await leaves
/// the phase as it is and asks for nothing.
pub open spec fn step_spec(p: Phase, e: Event) -> (Phase, Command) {
    match (p, e) {
        (Phase::AwaitConfig, Event::ConfigDecoded(c)) =>
            (Phase::AwaitSymbol(c.action), Command::Resolve(c.target_function)),
        (Phase::AwaitConfig, Event::ConfigRejected) =>
            (Phase::Ended(SessionError::ConfigInvalid), Command::Abort(SessionError::ConfigInvalid)),
        (Phase::AwaitSymbol(a), Event::SymbolFound) => (Phase::AwaitAttach(a), Command::Attach(a)),
        (Phase::AwaitSymbol(a), Event::SymbolMissing) =>
            (Phase::Ended(SessionError::SymbolNotFound), Command::Abort(SessionError::SymbolNotFound)),
        (Phase::AwaitAttach(a), Event::ProbeAttached) => (Phase::Reporting(a), interval_command(a)),
        (Phase::AwaitAttach(a), Event::ProbeRejected) =>
            (Phase::Ended(SessionError::AttachFailed), Command::Abort(SessionError::AttachFailed)),
        (Phase::Reporting(a), Event::Tick) => (Phase::Reporting(a), interval_command(a)),
        _ => (p, Command::Nothing),
    }
}

/// The phase reached from `p` through the events in order.
pub open spec fn run(p: Phase, events: Seq<Event>) -> Phase
    decreases events.len(),
{
    if events.len() == 0 {
        p
    } else {
        run(step_spec(p, events[0]).0, events.drop_first())
    }
}

/// The commands issued from `p` through the events in order, one per event.
pub open spec fn commands(p: Phase, events: Seq<Event>) -> Seq<Command>
    decreases events.len(),
{
    if events.len() == 0 {
        Seq::empty()
    } else {
        let (q, c) = step_spec(p, events[0]);
        seq![c] + commands(q, events.drop_first())
    }
}

/// A session: the phase it stands in.
pub struct Session {
    pub phase: Phase,
}

impl Session {
    /// A session awaiting its configuration.
    pub fn new() -> (r: Session)
        ensures
            r.phase == Phase::AwaitConfig,
    {
        Session { phase: Phase::AwaitConfig }
    }

    /// Handles one event: moves to the next phase and returns the command.
    pub fn handle(&mut self, event: Event) -> (r: Command)
        ensures
            (final(self).phase, r) == step_spec(old(self).phase, event),
    {
        let p = self.phase;
        let (next, cmd) = match (p, event) {
            (Phase::AwaitConfig, Event::ConfigDecoded(c)) =>
                (Phase::AwaitSymbol(c.action), Command::Resolve(c.target_function)),
            (Phase::AwaitConfig, Event::ConfigRejected) =>
                (Phase::Ended(SessionError::ConfigInvalid), Command::Abort(SessionError::ConfigInvalid)),
            (Phase::AwaitSymbol(a), Event::SymbolFound) => (Phase::AwaitAttach(a), Command::Attach(a)),
            (Phase::AwaitSymbol(a), Event::SymbolMissing) =>
                (Phase::Ended(SessionError::SymbolNotFound), Command::Abort(SessionError::SymbolNotFound)),
            (Phase::AwaitAttach(a), Event::ProbeAttached) => (Phase::Reporting(a), Command::each_interval(a)),
            (Phase::AwaitAttach(a), Event::ProbeRejected) =>
                (Phase::Ended(SessionError::AttachFailed), Command::Abort(SessionError::AttachFailed)),
            (Phase::Reporting(a), Event::Tick) => (Phase::Reporting(a), Command::each_interval(a)),
            _ => (p, Command::Nothing),
        };
        self.phase = next;
        cmd
    }
}

impl Command {
    /// The command that each reporting interval runs under an action.
    pub fn each_interval(a: Action) -> (r: Command)
        ensures
            r == interval_command(a),
    {
        match a {
            Action::MeasureStack => Command::ReportAfterInterval,
            Action::DoMoreStuff => Command::IdleInterval,
        }
    }
}

/// Running through two event sequences one after the other is running
/// through their concatenation.
pub proof fn lemma_run_append(p: Phase, s1: Seq<Event>, s2: Seq<Event>)
    ensures
        run(p, s1 + s2) == run(run(p, s1), s2),
    decreases s1.len(),
{
    if s1.len() > 0 {
        let q = step_spec(p, s1[0]).0;
        assert((s1 + s2).drop_first() =~= s1.drop_first() + s2);
        lemma_run_append(q, s1.drop_first(), s2);
    } else {
        assert(s1 + s2 =~= s2);
    }
}

/// An ended session stays ended and asks for nothing, whatever happens.
pub proof fn lemma_ended_is_inert(e: SessionError, events: Seq<Event>)
    ensures
        run(Phase::Ended(e), events) == Phase::Ended(e),
        commands(Phase::Ended(e), events).len() == events.len(),
        forall|k: int| 0 <= k < events.len() ==> commands(Phase::Ended(e), events)[k] is Nothing,
    decreases events.len(),
{
    if events.len() > 0 {
        lemma_ended_is_inert(e, events.drop_first());
    }
}

/// A reporting session keeps its action for good, and asks each time for
/// that action's interval command or for nothing.
pub proof fn lemma_reporting_is_final(a: Action, events: Seq<Event>)
    ensures
        run(Phase::Reporting(a), events) == Phase::Reporting(a),
        commands(Phase::Reporting(a), events).len() == events.len(),
        forall|k: int|
            0 <= k < events.len() ==> {
                let c = #[trigger] commands(Phase::Reporting(a), events)[k];
                c == interval_command(a) || c is Nothing
            },
    decreases events.len(),
{
    if events.len() > 0 {
        lemma_reporting_is_final(a, events.drop_first());
    }
}

/// A session enters at most one of the two reporting states: two moments of
/// one session that both report report under the same action.
pub proof fn lemma_one_reporting_state(events: Seq<Event>, i: int, j: int, a: Action, b: Action)
    requires
        0 <= i <= j <= events.len(),
        run(Phase::AwaitConfig, events.take(i)) == Phase::Reporting(a),
        run(Phase::AwaitConfig, events.take(j)) == Phase::Reporting(b),
    ensures
        a == b,
{
    assert(events.take(j) =~= events.take(i) + events.subrange(i, j));
    lemma_run_append(Phase::AwaitConfig, events.take(i), events.subrange(i, j));
    lemma_reporting_is_final(a, events.subrange(i, j));
}

/// A decoded configuration whose function resolves and whose probe attaches
/// enters the reporting state of its own action.
pub proof fn lemma_resolvable_config_reports(c: Config)
    ensures
        ({
            let events = seq![Event::ConfigDecoded(c), Event::SymbolFound, Event::ProbeAttached];
            &&& run(Phase::AwaitConfig, events) == Phase::Reporting(c.action)
            &&& commands(Phase::AwaitConfig, events) == seq![
                Command::Resolve(c.target_function),
                Command::Attach(c.action),
                interval_command(c.action),
            ]
        }),
{
    let a = c.action;
    let e3 = seq![Event::ProbeAttached];
    let e2 = seq![Event::SymbolFound, Event::ProbeAttached];
    let events = seq![Event::ConfigDecoded(c), Event::SymbolFound, Event::ProbeAttached];
    assert(e3.drop_first() =~= Seq::<Event>::empty());
    assert(step_spec(Phase::AwaitAttach(a), Event::ProbeAttached) == (Phase::Reporting(a), interval_command(a)));
    assert(commands(Phase::Reporting(a), e3.drop_first()) =~= Seq::<Command>::empty());
    assert(run(Phase::Reporting(a), e3.drop_first()) == Phase::Reporting(a));
    assert(e2.drop_first() =~= e3);
    assert(events.drop_first() =~= e2);
    assert(commands(Phase::AwaitAttach(a), e3) =~= seq![interval_command(a)]);
    assert(commands(Phase::AwaitSymbol(a), e2) =~= seq![Command::Attach(a), interval_command(a)]);
    assert(run(Phase::AwaitAttach(a), e3) == Phase::Reporting(a));
    assert(run(Phase::AwaitSymbol(a), e2) == Phase::Reporting(a));
    assert(commands(Phase::AwaitConfig, events) =~= seq![
        Command::Resolve(c.target_function),
        Command::Attach(a),
        interval_command(a),
    ]);
}

/// A configuration that does not decode ends the session at once: one
/// abort, then nothing, so no probe is attached and nothing is reported.
pub proof fn lemma_malformed_config_never_measures(events: Seq<Event>)
    ensures
        ({
            let all = seq![Event::ConfigRejected] + events;
            let cmds = commands(Phase::AwaitConfig, all);
            &&& run(Phase::AwaitConfig, all) == Phase::Ended(SessionError::ConfigInvalid)
            &&& cmds.len() == all.len()
            &&& cmds[0] == Command::Abort(SessionError::ConfigInvalid)
            &&& forall|k: int| 1 <= k < cmds.len() ==> cmds[k] is Nothing
        }),
{
    let all = seq![Event::ConfigRejected] + events;
    assert(all.drop_first() =~= events);
    lemma_ended_is_inert(SessionError::ConfigInvalid, events);
    let cmds = commands(Phase::AwaitConfig, all);
    assert forall|k: int| 1 <= k < cmds.len() implies cmds[k] is Nothing by {
        assert(cmds[k] == commands(Phase::Ended(SessionError::ConfigInvalid), events)[k - 1]);
    }
}

/// A function name that does not resolve ends the session after the lookup:
/// one abort, then nothing, so no attachment is ever asked for.
pub proof fn lemma_missing_symbol_never_attaches(c: Config, events: Seq<Event>)
    ensures
        ({
            let all = seq![Event::ConfigDecoded(c), Event::SymbolMissing] + events;
            let cmds = commands(Phase::AwaitConfig, all);
            &&& run(Phase::AwaitConfig, all) == Phase::Ended(SessionError::SymbolNotFound)
            &&& cmds.len() == all.len()
            &&& cmds[0] == Command::Resolve(c.target_function)
            &&& cmds[1] == Command::Abort(SessionError::SymbolNotFound)
            &&& forall|k: int| 2 <= k < cmds.len() ==> cmds[k] is Nothing
        }),
{
    let all = seq![Event::ConfigDecoded(c), Event::SymbolMissing] + events;
    let tail = seq![Event::SymbolMissing] + events;
    assert(all.drop_first() =~= tail);
    assert(tail.drop_first() =~= events);
    lemma_ended_is_inert(SessionError::SymbolNotFound, events);
    let cmds = commands(Phase::AwaitConfig, all);
    let rest = commands(Phase::AwaitSymbol(c.action), tail);
    let ended = commands(Phase::Ended(SessionError::SymbolNotFound), events);
    assert(rest == seq![Command::Abort(SessionError::SymbolNotFound)] + ended);
    assert(cmds == seq![Command::Resolve(c.target_function)] + rest);
    assert(run(Phase::AwaitConfig, all) == run(Phase::AwaitSymbol(c.action), tail));
    assert forall|k: int| 2 <= k < cmds.len() implies cmds[k] is Nothing by {
        assert(cmds[k] == rest[k - 1]);
        assert(rest[k - 1] == commands(Phase::Ended(SessionError::SymbolNotFound), events)[k - 2]);
    }
}

} // verus!
