//! Whole runs of the transfer machine: what it asks for over a sequence of
//! events, and what holds of every such run.

use crate::config::TransportConfig;
use crate::settings::LineSettings;
use crate::transfer::{
    failed, Action, EngineError, Event, FailureKind, Mode, Orchestrator, Phase, Progress, Stage,
    TransferOutcome, TransferRequest,
};
use vstd::prelude::*;

verus! {

/// The machine after `events` were reported to `machine` one after the other,
/// and the action asked for after each of them.
pub open spec fn run(machine: Orchestrator, events: Seq<Event>) -> (Orchestrator, Seq<Action>)
    decreases events.len(),
{
    if events.len() == 0 {
        (machine, Seq::empty())
    } else {
        let first = machine.next(events[0]);
        let rest = run(first.0, events.drop_first());
        (rest.0, seq![first.1] + rest.1)
    }
}

/// A run answers every event with exactly one action, and leaves the
/// configuration and the request as they were.
pub proof fn lemma_run_keeps_request(machine: Orchestrator, events: Seq<Event>)
    ensures
        run(machine, events).1.len() == events.len(),
        run(machine, events).0.config == machine.config,
        run(machine, events).0.request == machine.request,
    decreases events.len(),
{
    if events.len() > 0 {
        lemma_run_keeps_request(machine.next(events[0]).0, events.drop_first());
    }
}

/// Reporting `events` and then `more` is one run over both.
pub proof fn lemma_run_concat(machine: Orchestrator, events: Seq<Event>, more: Seq<Event>)
    ensures
        run(machine, events + more).0 == run(run(machine, events).0, more).0,
        run(machine, events + more).1 == run(machine, events).1 + run(
            run(machine, events).0,
            more,
        ).1,
    decreases events.len(),
{
    if events.len() == 0 {
        assert(events + more =~= more);
        assert(run(machine, events).1 + run(machine, more).1 =~= run(machine, more).1);
    } else {
        let first = machine.next(events[0]);
        assert((events + more)[0] == events[0]);
        assert((events + more).drop_first() =~= events.drop_first() + more);
        lemma_run_concat(first.0, events.drop_first(), more);
        let tail = run(first.0, events.drop_first());
        let last = run(tail.0, more);
        assert(seq![first.1] + (tail.1 + last.1) =~= (seq![first.1] + tail.1) + last.1);
    }
}

/// Once a run has ended nothing moves it: every later event is ignored.
pub proof fn lemma_done_is_final(machine: Orchestrator, events: Seq<Event>)
    requires
        machine.done(),
    ensures
        run(machine, events).0 == machine,
        run(machine, events).1.len() == events.len(),
        forall|i: int| 0 <= i < events.len() ==> run(machine, events).1[i] == Action::Ignore,
    decreases events.len(),
{
    if events.len() > 0 {
        assert(machine.next(events[0]).0 == machine);
        lemma_done_is_final(machine, events.drop_first());
    }
}

/// A run ends once and says so once: among the actions of a run that had not
/// ended before, at most one asks to finish; the run has ended exactly if one
/// does; and the outcome it names is the outcome that the machine holds.
pub proof fn lemma_finish_is_asked_once(machine: Orchestrator, events: Seq<Event>)
    requires
        !machine.done(),
    ensures
        run(machine, events).1.len() == events.len(),
        forall|i: int|
            0 <= i < events.len() ==> (#[trigger] run(machine, events).1[i] matches Action::Finish(
                outcome,
            ) ==> run(machine, events).0.phase == Phase::Done(outcome)),
        forall|i: int, j: int|
            0 <= i < j < events.len() ==> !(#[trigger] run(machine, events).1[i] is Finish
                && #[trigger] run(machine, events).1[j] is Finish),
        run(machine, events).0.done() <==> exists|i: int|
            0 <= i < events.len() && #[trigger] run(machine, events).1[i] is Finish,
    decreases events.len(),
{
    if events.len() > 0 {
        let first = machine.next(events[0]);
        let tail = events.drop_first();
        let rest = run(first.0, tail);
        let actions = run(machine, events).1;
        lemma_run_keeps_request(first.0, tail);
        assert(actions[0] == first.1);
        if first.0.done() {
            lemma_done_is_final(first.0, tail);
            assert(first.1 is Finish);
            assert forall|k: int| 0 < k < events.len() implies !(#[trigger] actions[k]
                is Finish) by {
                assert(actions[k] == rest.1[k - 1]);
            }
        } else {
            lemma_finish_is_asked_once(first.0, tail);
            assert(!(first.1 is Finish));
            assert forall|i: int| 0 <= i < events.len() implies (#[trigger] actions[i] matches Action::Finish(
                outcome,
            ) ==> rest.0.phase == Phase::Done(outcome)) by {
                if i > 0 {
                    assert(actions[i] == rest.1[i - 1]);
                }
            }
            assert forall|i: int, j: int| 0 <= i < j < events.len() implies !(#[trigger] actions[i]
                is Finish && #[trigger] actions[j] is Finish) by {
                assert(actions[j] == rest.1[j - 1]);
                if i > 0 {
                    assert(actions[i] == rest.1[i - 1]);
                }
            }
            if rest.0.done() {
                let k = choose|k: int| 0 <= k < tail.len() && #[trigger] rest.1[k] is Finish;
                assert(actions[k + 1] == rest.1[k]);
            }
            if exists|i: int| 0 <= i < events.len() && #[trigger] actions[i] is Finish {
                let i = choose|i: int| 0 <= i < events.len() && #[trigger] actions[i] is Finish;
                assert(i > 0);
                assert(actions[i] == rest.1[i - 1]);
            }
        }
    }
}

/// Where opening the device fails, the run ends there with
/// `DeviceUnavailable`: the caller is asked to finish and for nothing else,
/// so no settings are read or written.
pub proof fn lemma_open_failure_ends_run(
    config: TransportConfig,
    request: TransferRequest,
    events: Seq<Event>,
)
    requires
        events.len() > 0,
        events[0] == Event::DeviceOpenFailed,
    ensures
        run(Orchestrator::initial(config, request), events).0.phase == Phase::Done(
            failed(FailureKind::DeviceUnavailable, Stage::OpenDevice),
        ),
        run(Orchestrator::initial(config, request), events).1.len() == events.len(),
        run(Orchestrator::initial(config, request), events).1[0] == Action::Finish(
            failed(FailureKind::DeviceUnavailable, Stage::OpenDevice),
        ),
        forall|i: int|
            0 < i < events.len() ==> run(Orchestrator::initial(config, request), events).1[i]
                == Action::Ignore,
{
    let machine = Orchestrator::initial(config, request);
    let first = machine.next(events[0]);
    lemma_done_is_final(first.0, events.drop_first());
    let rest = run(first.0, events.drop_first());
    assert forall|i: int| 0 < i < events.len() implies run(machine, events).1[i]
        == Action::Ignore by {
        assert(run(machine, events).1[i] == rest.1[i - 1]);
    }
}

/// Settings are touched only after the device was opened: in a run in which
/// no event reports the device as opened, the machine never asks to read or
/// to write settings, whatever else is reported to it.
pub proof fn lemma_no_settings_before_device(
    config: TransportConfig,
    request: TransferRequest,
    events: Seq<Event>,
)
    requires
        forall|i: int| 0 <= i < events.len() ==> events[i] != Event::DeviceOpened,
    ensures
        run(Orchestrator::initial(config, request), events).1.len() == events.len(),
        forall|i: int|
            0 <= i < events.len() ==> {
                let action = #[trigger] run(Orchestrator::initial(config, request), events).1[i];
                !(action is ReadSettings) && !(action is WriteSettings)
            },
{
    lemma_unopened_stays_unopened(Orchestrator::initial(config, request), events);
}

/// The induction behind `lemma_no_settings_before_device`, from any state in
/// which the device is not open.
proof fn lemma_unopened_stays_unopened(machine: Orchestrator, events: Seq<Event>)
    requires
        machine.phase == Phase::Opening || machine.done(),
        forall|i: int| 0 <= i < events.len() ==> events[i] != Event::DeviceOpened,
    ensures
        run(machine, events).1.len() == events.len(),
        forall|i: int|
            0 <= i < events.len() ==> {
                let action = #[trigger] run(machine, events).1[i];
                !(action is ReadSettings) && !(action is WriteSettings)
            },
    decreases events.len(),
{
    if events.len() > 0 {
        let first = machine.next(events[0]);
        assert(events[0] != Event::DeviceOpened);
        let tail = events.drop_first();
        assert forall|i: int| 0 <= i < tail.len() implies tail[i] != Event::DeviceOpened by {
            assert(tail[i] == events[i + 1]);
        }
        lemma_unopened_stays_unopened(first.0, tail);
        let rest = run(first.0, tail);
        assert forall|i: int| 0 <= i < events.len() implies {
            let action = #[trigger] run(machine, events).1[i];
            !(action is ReadSettings) && !(action is WriteSettings)
        } by {
            if i > 0 {
                assert(run(machine, events).1[i] == rest.1[i - 1]);
            }
        }
    }
}

/// A run over `event` followed by `rest` is one step and then a run over `rest`.
pub proof fn lemma_run_step(machine: Orchestrator, event: Event, rest: Seq<Event>)
    ensures
        run(machine, seq![event] + rest).0 == run(machine.next(event).0, rest).0,
        run(machine, seq![event] + rest).1 == seq![machine.next(event).1] + run(
            machine.next(event).0,
            rest,
        ).1,
{
    let events = seq![event] + rest;
    assert(events[0] == event);
    assert(events.drop_first() =~= rest);
}

/// Whether every one of `events`, reported in turn, is one that the machine
/// can take.
pub open spec fn run_accepts(machine: Orchestrator, events: Seq<Event>) -> bool
    decreases events.len(),
{
    events.len() > 0 ==> machine.accepts(events[0]) && run_accepts(
        machine.next(events[0]).0,
        events.drop_first(),
    )
}

/// The bytes of `reads`, one read after the other.
pub open spec fn payload(reads: Seq<Vec<u8>>) -> Seq<u8>
    decreases reads.len(),
{
    if reads.len() == 0 {
        Seq::empty()
    } else {
        reads[0]@ + payload(reads.drop_first())
    }
}

/// The bytes that `actions` ask to have written to the device, in order.
pub open spec fn written(actions: Seq<Action>) -> Seq<u8>
    decreases actions.len(),
{
    if actions.len() == 0 {
        Seq::empty()
    } else {
        let head = match actions[0] {
            Action::WriteDevice(bytes) => bytes@,
            _ => Seq::empty(),
        };
        head + written(actions.drop_first())
    }
}

/// What a caller reports during a raw copy that meets no error: each read of
/// the source, each followed by the device taking the bytes, and at last the
/// read that finds the source at its end.
pub open spec fn copy_events(reads: Seq<Vec<u8>>, end: Vec<u8>) -> Seq<Event>
    decreases reads.len(),
{
    if reads.len() == 0 {
        seq![Event::SourceRead(end)]
    } else {
        seq![Event::SourceRead(reads[0])] + (seq![Event::DeviceWritten] + copy_events(
            reads.drop_first(),
            end,
        ))
    }
}

/// The bytes asked for by two runs of actions are those of the first and then
/// those of the second.
pub proof fn lemma_written_concat(actions: Seq<Action>, more: Seq<Action>)
    ensures
        written(actions + more) == written(actions) + written(more),
    decreases actions.len(),
{
    if actions.len() == 0 {
        assert(actions + more =~= more);
    } else {
        assert((actions + more)[0] == actions[0]);
        assert((actions + more).drop_first() =~= actions.drop_first() + more);
        lemma_written_concat(actions.drop_first(), more);
    }
}

/// The bytes asked for by a single action.
proof fn lemma_written_single(action: Action)
    ensures
        written(seq![action]) == match action {
            Action::WriteDevice(bytes) => bytes@,
            _ => Seq::<u8>::empty(),
        },
{
    reveal_with_fuel(written, 2);
    let actions = seq![action];
    assert(actions.drop_first() =~= Seq::<Action>::empty());
    assert(written(actions) =~= match action {
        Action::WriteDevice(bytes) => bytes@,
        _ => Seq::<u8>::empty(),
    });
}

/// A raw copy is byte for byte. Whatever the source holds and however its
/// reads cut it up, the bytes that the machine asks to have written are
/// exactly the bytes read, in order and with nothing added; the copy ends by
/// itself at the first empty read, and the count reported is the number of
/// bytes read.
pub proof fn lemma_raw_copy_is_verbatim(
    machine: Orchestrator,
    sent: u64,
    reads: Seq<Vec<u8>>,
    end: Vec<u8>,
)
    requires
        machine.phase == (Phase::Reading { sent }),
        forall|i: int| 0 <= i < reads.len() ==> reads[i]@.len() > 0,
        end@.len() == 0,
        sent + payload(reads).len() <= u64::MAX,
    ensures
        run_accepts(machine, copy_events(reads, end)),
        run(machine, copy_events(reads, end)).0.phase == Phase::Done(
            TransferOutcome::Transferred((sent + payload(reads).len()) as u64),
        ),
        written(run(machine, copy_events(reads, end)).1) == payload(reads),
        run(machine, copy_events(reads, end)).1.last() == Action::Finish(
            TransferOutcome::Transferred((sent + payload(reads).len()) as u64),
        ),
    decreases reads.len(),
{
    let events = copy_events(reads, end);
    reveal_with_fuel(run_accepts, 3);
    if reads.len() == 0 {
        let first = machine.next(events[0]);
        assert(events.drop_first() =~= Seq::<Event>::empty());
        assert(run(first.0, events.drop_first()).1 =~= Seq::<Action>::empty());
        let actions = run(machine, events).1;
        assert(actions =~= seq![first.1]);
        lemma_written_single(first.1);
    } else {
        let tail = reads.drop_first();
        let rest = copy_events(tail, end);
        let read = Event::SourceRead(reads[0]);
        let after_read = machine.next(read);
        let after_write = after_read.0.next(Event::DeviceWritten);
        let total = (sent + reads[0]@.len()) as u64;
        assert(payload(reads).len() == reads[0]@.len() + payload(tail).len());
        assert(after_write.0.phase == (Phase::Reading { sent: total }));
        assert forall|i: int| 0 <= i < tail.len() implies tail[i]@.len() > 0 by {
            assert(tail[i] == reads[i + 1]);
        }
        lemma_raw_copy_is_verbatim(after_write.0, total, tail, end);
        lemma_run_step(machine, read, seq![Event::DeviceWritten] + rest);
        lemma_run_step(after_read.0, Event::DeviceWritten, rest);
        let inner = run(after_write.0, rest);
        let actions = run(machine, events).1;
        assert(actions == seq![after_read.1] + (seq![after_write.1] + inner.1));
        lemma_written_concat(seq![after_read.1], seq![after_write.1] + inner.1);
        lemma_written_concat(seq![after_write.1], inner.1);
        lemma_written_single(after_read.1);
        lemma_written_single(after_write.1);
        assert(written(actions) =~= payload(reads));
        lemma_run_keeps_request(after_write.0, rest);
        assert(inner.1.len() > 0);
        assert(actions.last() == inner.1.last());
        assert(events[0] == read);
        assert(events.drop_first() =~= seq![Event::DeviceWritten] + rest);
        assert(events.drop_first()[0] == Event::DeviceWritten);
        assert(events.drop_first().drop_first() =~= rest);
    }
}

/// What a caller reports when the device opens, its settings are read as
/// `baseline` and written back, the timeout is taken and the source opens;
/// then `rest`.
pub open spec fn after_setup(baseline: LineSettings, rest: Seq<Event>) -> Seq<Event> {
    seq![Event::DeviceOpened] + (seq![Event::SettingsRead(baseline)] + (seq![
        Event::SettingsWritten,
    ] + (seq![Event::TimeoutSet] + (seq![Event::SourceOpened] + rest))))
}

/// The machine once device and source are ready: copying in raw mode, with
/// nothing sent yet, or waiting for the engine in protocol mode.
pub open spec fn ready(config: TransportConfig, request: TransferRequest) -> Orchestrator {
    Orchestrator {
        config,
        request,
        phase: match request.mode {
            Mode::Raw => Phase::Reading { sent: 0 },
            Mode::Protocol => Phase::Transmitting,
        },
    }
}

/// What the machine asks for while device and source are made ready.
pub open spec fn setup_actions(
    config: TransportConfig,
    request: TransferRequest,
    baseline: LineSettings,
) -> Seq<Action> {
    seq![
        Action::ReadSettings,
        Action::WriteSettings(baseline.overlay_spec(config)),
        Action::SetTimeout(config.timeout),
        Action::OpenSource(request.source),
        match request.mode {
            Mode::Raw => Action::ReadSource,
            Mode::Protocol => Action::Transmit,
        },
    ]
}

/// While nothing fails, a run asks for the device's settings, writes them
/// back with the configuration laid over what was read, sets the configured
/// timeout, opens the requested source and then starts the transfer that the
/// request's mode names: one after the other, in this order.
pub proof fn lemma_setup_in_order(
    config: TransportConfig,
    request: TransferRequest,
    baseline: LineSettings,
    rest: Seq<Event>,
)
    ensures
        run(Orchestrator::initial(config, request), after_setup(baseline, rest)).0 == run(
            ready(config, request),
            rest,
        ).0,
        run(Orchestrator::initial(config, request), after_setup(baseline, rest)).1
            == setup_actions(config, request, baseline) + run(ready(config, request), rest).1,
        ready(config, request).wf(),
{
    let m0 = Orchestrator::initial(config, request);
    let e1 = Event::SettingsRead(baseline);
    let r4 = seq![Event::SourceOpened] + rest;
    let r3 = seq![Event::TimeoutSet] + r4;
    let r2 = seq![Event::SettingsWritten] + r3;
    let r1 = seq![e1] + r2;
    let m1 = m0.next(Event::DeviceOpened);
    let m2 = m1.0.next(e1);
    let m3 = m2.0.next(Event::SettingsWritten);
    let m4 = m3.0.next(Event::TimeoutSet);
    let m5 = m4.0.next(Event::SourceOpened);
    lemma_run_step(m0, Event::DeviceOpened, r1);
    lemma_run_step(m1.0, e1, r2);
    lemma_run_step(m2.0, Event::SettingsWritten, r3);
    lemma_run_step(m3.0, Event::TimeoutSet, r4);
    lemma_run_step(m4.0, Event::SourceOpened, rest);
    assert(m5.0 == ready(config, request));
    let tail = run(m5.0, rest).1;
    assert(seq![m1.1] + (seq![m2.1] + (seq![m3.1] + (seq![m4.1] + (seq![m5.1] + tail))))
        =~= setup_actions(config, request, baseline) + tail);
}

/// A whole raw run that meets no error delivers the source as it is: the
/// bytes asked to be written are the bytes read, nothing more and nothing
/// less, and the outcome counts them. This holds of a file and of standard
/// input alike, and the length need not be known beforehand.
pub proof fn lemma_raw_run_delivers_source(
    config: TransportConfig,
    request: TransferRequest,
    baseline: LineSettings,
    reads: Seq<Vec<u8>>,
    end: Vec<u8>,
)
    requires
        request.mode == Mode::Raw,
        forall|i: int| 0 <= i < reads.len() ==> reads[i]@.len() > 0,
        end@.len() == 0,
        payload(reads).len() <= u64::MAX,
    ensures
        run(
            Orchestrator::initial(config, request),
            after_setup(baseline, copy_events(reads, end)),
        ).0.phase == Phase::Done(TransferOutcome::Transferred(payload(reads).len() as u64)),
        written(
            run(
                Orchestrator::initial(config, request),
                after_setup(baseline, copy_events(reads, end)),
            ).1,
        ) == payload(reads),
{
    let copying = copy_events(reads, end);
    lemma_setup_in_order(config, request, baseline, copying);
    lemma_raw_copy_is_verbatim(ready(config, request), 0, reads, end);
    let setup = setup_actions(config, request, baseline);
    lemma_written_concat(setup, run(ready(config, request), copying).1);
    assert(written(setup) =~= Seq::<u8>::empty()) by {
        reveal_with_fuel(written, 6);
        assert(setup.drop_first().drop_first().drop_first().drop_first().drop_first()
            =~= Seq::<Action>::empty());
    }
}

/// What a caller reports when the engine sends these notifications.
pub open spec fn progress_events(notes: Seq<Progress>) -> Seq<Event> {
    Seq::new(notes.len(), |i: int| Event::Progressed(notes[i]))
}

/// Progress is relayed as it comes: while the engine runs, each notification
/// is answered by the request to pass on that same notification, none is held
/// back, merged or changed, and the run stays where it is.
pub proof fn lemma_progress_is_relayed(machine: Orchestrator, notes: Seq<Progress>)
    requires
        machine.phase == Phase::Transmitting,
    ensures
        run(machine, progress_events(notes)).0 == machine,
        run(machine, progress_events(notes)).1.len() == notes.len(),
        forall|i: int|
            0 <= i < notes.len() ==> #[trigger] run(machine, progress_events(notes)).1[i]
                == Action::Relay(notes[i]),
    decreases notes.len(),
{
    let events = progress_events(notes);
    if notes.len() > 0 {
        let tail = notes.drop_first();
        assert(events.drop_first() =~= progress_events(tail));
        assert(machine.next(events[0]).0 == machine);
        lemma_progress_is_relayed(machine, tail);
        let rest = run(machine, progress_events(tail)).1;
        assert forall|i: int| 0 <= i < notes.len() implies #[trigger] run(machine, events).1[i]
            == Action::Relay(notes[i]) by {
            if i > 0 {
                assert(run(machine, events).1[i] == rest[i - 1]);
                assert(tail[i - 1] == notes[i]);
            }
        }
    }
}

/// The engine's result is the run's result. In protocol mode, after any
/// notifications, the count that the engine reports is the count of the
/// outcome, and a failure of the engine is the failure of the outcome, of the
/// same kind and with no count.
pub proof fn lemma_engine_result_is_outcome(
    config: TransportConfig,
    request: TransferRequest,
    baseline: LineSettings,
    notes: Seq<Progress>,
    bytes: u64,
    error: EngineError,
)
    requires
        request.mode == Mode::Protocol,
    ensures
        run(
            Orchestrator::initial(config, request),
            after_setup(baseline, progress_events(notes) + seq![Event::EngineFinished(bytes)]),
        ).0.phase == Phase::Done(TransferOutcome::Transferred(bytes)),
        run(
            Orchestrator::initial(config, request),
            after_setup(baseline, progress_events(notes) + seq![Event::EngineFailed(error)]),
        ).0.phase == Phase::Done(failed(FailureKind::Engine(error), Stage::Transfer)),
{
    let engine = ready(config, request);
    let finished = seq![Event::EngineFinished(bytes)];
    let gave_up = seq![Event::EngineFailed(error)];
    lemma_setup_in_order(config, request, baseline, progress_events(notes) + finished);
    lemma_setup_in_order(config, request, baseline, progress_events(notes) + gave_up);
    lemma_progress_is_relayed(engine, notes);
    lemma_run_concat(engine, progress_events(notes), finished);
    lemma_run_concat(engine, progress_events(notes), gave_up);
    reveal_with_fuel(run, 2);
    assert(finished.drop_first() =~= Seq::<Event>::empty());
    assert(gave_up.drop_first() =~= Seq::<Event>::empty());
}

/// The place of an operation in the order of a run.
pub open spec fn stage_rank(stage: Stage) -> int {
    match stage {
        Stage::OpenDevice => 0,
        Stage::ReadSettings => 1,
        Stage::WriteSettings => 2,
        Stage::SetTimeout => 3,
        Stage::OpenSource => 4,
        Stage::Transfer => 5,
    }
}

/// The operation that `action` has the caller perform, if it is one.
pub open spec fn stage_begun(action: Action) -> Option<Stage> {
    match action {
        Action::OpenDevice(_) => Some(Stage::OpenDevice),
        Action::ReadSettings => Some(Stage::ReadSettings),
        Action::WriteSettings(_) => Some(Stage::WriteSettings),
        Action::SetTimeout(_) => Some(Stage::SetTimeout),
        Action::OpenSource(_) => Some(Stage::OpenSource),
        Action::ReadSource | Action::WriteDevice(_) | Action::Transmit | Action::Relay(_) => Some(
            Stage::Transfer,
        ),
        Action::Finish(_) | Action::Ignore => None,
    }
}

/// How far a run has come: the place of the operation under way, and one more
/// once the run has ended.
pub open spec fn phase_rank(phase: Phase) -> int {
    match phase {
        Phase::Opening => 0,
        Phase::ReadingSettings => 1,
        Phase::WritingSettings => 2,
        Phase::SettingTimeout => 3,
        Phase::OpeningSource => 4,
        Phase::Reading { .. } | Phase::Writing { .. } | Phase::Transmitting => 5,
        Phase::Done(_) => 6,
    }
}

/// Whether `later` may be asked for after `earlier`: never an operation that
/// comes before it in the order of a run, and none but the transfer twice.
pub open spec fn in_order(earlier: Action, later: Action) -> bool {
    match (stage_begun(earlier), stage_begun(later)) {
        (Some(first), Some(second)) => stage_rank(first) <= stage_rank(second) && (first
            != Stage::Transfer ==> stage_rank(first) < stage_rank(second)),
        _ => true,
    }
}

/// The induction behind `lemma_stages_in_order`: from any state, what is
/// asked for lies at or after the state's own place, and in order.
proof fn lemma_in_order_from(machine: Orchestrator, events: Seq<Event>)
    ensures
        run(machine, events).1.len() == events.len(),
        forall|k: int|
            0 <= k < events.len() ==> match stage_begun(#[trigger] run(machine, events).1[k]) {
                Some(stage) => phase_rank(machine.phase) <= stage_rank(stage) && (stage
                    != Stage::Transfer ==> phase_rank(machine.phase) < stage_rank(stage)),
                None => true,
            },
        forall|i: int, j: int|
            0 <= i < j < events.len() ==> in_order(
                #[trigger] run(machine, events).1[i],
                #[trigger] run(machine, events).1[j],
            ),
    decreases events.len(),
{
    if events.len() > 0 {
        let first = machine.next(events[0]);
        let tail = events.drop_first();
        lemma_in_order_from(first.0, tail);
        let rest = run(first.0, tail).1;
        let actions = run(machine, events).1;
        assert(actions[0] == first.1);
        assert forall|k: int| 0 < k < events.len() implies actions[k] == rest[k - 1] by {}
        assert forall|k: int| 0 <= k < events.len() implies match stage_begun(
            #[trigger] actions[k],
        ) {
            Some(stage) => phase_rank(machine.phase) <= stage_rank(stage) && (stage
                != Stage::Transfer ==> phase_rank(machine.phase) < stage_rank(stage)),
            None => true,
        } by {
            if k > 0 {
                assert(actions[k] == rest[k - 1]);
            }
        }
        assert forall|i: int, j: int| 0 <= i < j < events.len() implies in_order(
            #[trigger] actions[i],
            #[trigger] actions[j],
        ) by {
            assert(actions[j] == rest[j - 1]);
            if i > 0 {
                assert(actions[i] == rest[i - 1]);
            }
        }
    }
}

/// The operations of a run come strictly one after the other: the device,
/// reading its settings, writing them, the timeout, the source, the transfer.
/// Whatever is reported, the machine never asks for an operation that comes
/// before one it has asked for, and for none but the transfer a second time.
pub proof fn lemma_stages_in_order(
    config: TransportConfig,
    request: TransferRequest,
    events: Seq<Event>,
)
    ensures
        run(Orchestrator::initial(config, request), events).1.len() == events.len(),
        forall|i: int, j: int|
            0 <= i < j < events.len() ==> in_order(
                #[trigger] run(Orchestrator::initial(config, request), events).1[i],
                #[trigger] run(Orchestrator::initial(config, request), events).1[j],
            ),
{
    lemma_in_order_from(Orchestrator::initial(config, request), events);
}

} // verus!
