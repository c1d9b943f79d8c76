//! What holds of every run: the actions that a sequence of events draws from
//! [`begin`](crate::runner::begin) and [`step`](crate::runner::step), and the
//! laws of those actions.

use vstd::prelude::*;
use crate::outcome::{result_of_exit, ExecutionResultView, RunError};
use crate::runner::{
    begin_spec, process_script, step_spec, ActionView, Backend, ConfigView, EventView, PhaseView,
    SourceView,
};
use crate::search_path::setup_text;

verus! {

/// The phase of a run that began under `config` and has taken in `events`.
pub open spec fn phase_after(config: ConfigView, events: Seq<EventView>) -> PhaseView
    decreases events.len(),
{
    if events.len() == 0 {
        begin_spec(config).0
    } else {
        step_spec(config, phase_after(config, events.drop_last()), events.last()).0
    }
}

/// The actions that a run under `config` has given out by the time it has
/// taken in `events`: the first action, then one for each event.
pub open spec fn actions_after(config: ConfigView, events: Seq<EventView>) -> Seq<ActionView>
    decreases events.len(),
{
    if events.len() == 0 {
        seq![begin_spec(config).1]
    } else {
        actions_after(config, events.drop_last()).push(
            step_spec(config, phase_after(config, events.drop_last()), events.last()).1,
        )
    }
}

/// What an action asks for, whatever it carries.
pub enum ActionKind {
    ReadFile,
    Initialize,
    RunScript,
    Spawn,
    Finalize,
    Report,
    Ignore,
}

/// What `action` asks for.
pub open spec fn kind_of(action: ActionView) -> ActionKind {
    match action {
        ActionView::ReadFile(_) => ActionKind::ReadFile,
        ActionView::Initialize => ActionKind::Initialize,
        ActionView::RunScript(_) => ActionKind::RunScript,
        ActionView::Spawn(_) => ActionKind::Spawn,
        ActionView::Finalize => ActionKind::Finalize,
        ActionView::Report(_) => ActionKind::Report,
        ActionView::Ignore => ActionKind::Ignore,
    }
}

/// Whether an action starts an interpreter or hands it something to run.
pub open spec fn launches(action: ActionView) -> bool {
    action is Initialize || action is RunScript || action is Spawn
}

/// How many of `actions` ask for `kind`.
pub open spec fn occurrences(actions: Seq<ActionView>, kind: ActionKind) -> nat
    decreases actions.len(),
{
    if actions.len() == 0 {
        0
    } else {
        occurrences(actions.drop_last(), kind) + if kind_of(actions.last()) == kind {
            1nat
        } else {
            0nat
        }
    }
}

/// How many scripts a run hands to the embedded interpreter: the payload,
/// and before it the setup script if search-path entries are listed.
pub open spec fn scripts_to_run(config: ConfigView) -> nat {
    if config.search_paths.len() == 0 {
        1
    } else {
        2
    }
}

/// The events of a run in which every action is carried out: the file, if
/// there is one, is read and holds `text`; the setup script, if there is one,
/// ends with `setup`; the payload ends with `result`.
pub open spec fn served(
    config: ConfigView,
    text: Seq<char>,
    setup: ExecutionResultView,
    result: ExecutionResultView,
) -> Seq<EventView> {
    let read = match config.source {
        SourceView::Literal(_) => Seq::<EventView>::empty(),
        SourceView::File(_) => seq![EventView::SourceRead(text)],
    };
    let prepared = if config.search_paths.len() == 0 {
        Seq::<EventView>::empty()
    } else {
        seq![EventView::Completed(setup)]
    };
    match config.backend {
        Backend::Embedded => read + seq![EventView::Initialized] + prepared + seq![
            EventView::Completed(result),
            EventView::Finalized,
        ],
        Backend::Process => read + seq![EventView::Completed(result)],
    }
}

/// One more event draws one more action, from the phase that the earlier
/// events led to.
pub proof fn lemma_one_more_event(config: ConfigView, events: Seq<EventView>, event: EventView)
    ensures
        phase_after(config, events.push(event)) == step_spec(
            config,
            phase_after(config, events),
            event,
        ).0,
        actions_after(config, events.push(event)) == actions_after(config, events).push(
            step_spec(config, phase_after(config, events), event).1,
        ),
        actions_after(config, events).len() == events.len() + 1,
    decreases events.len(),
{
    assert(events.push(event).drop_last() =~= events);
    if events.len() > 0 {
        lemma_one_more_event(config, events.drop_last(), events.last());
    }
}

/// A run that has reported does nothing more: whatever events follow, it
/// stays finished and answers each of them with `Ignore`.
pub proof fn lemma_finished_run_is_over(
    config: ConfigView,
    events: Seq<EventView>,
    later: Seq<EventView>,
)
    requires
        phase_after(config, events) is Finished,
    ensures
        phase_after(config, events + later) is Finished,
        actions_after(config, events + later).len() == events.len() + 1 + later.len(),
        actions_after(config, events + later).take(events.len() as int + 1) == actions_after(
            config,
            events,
        ),
        forall|i: int|
            events.len() < i <= events.len() + later.len() ==> #[trigger] actions_after(
                config,
                events + later,
            )[i] == ActionView::Ignore,
    decreases later.len(),
{
    if later.len() == 0 {
        if events.len() > 0 {
            lemma_one_more_event(config, events.drop_last(), events.last());
        }
        assert(actions_after(config, events).take(events.len() as int + 1) =~= actions_after(
            config,
            events,
        ));
    } else {
        let before = events + later.drop_last();
        lemma_finished_run_is_over(config, events, later.drop_last());
        lemma_one_more_event(config, before, later.last());
        assert(before.push(later.last()) =~= events + later);
        assert(actions_after(config, events + later).take(events.len() as int + 1) =~= actions_after(
            config,
            before,
        ).take(events.len() as int + 1));
    }
}

/// When the script file is missing or cannot be read, the run reports the I/O
/// error at once and launches nothing, then or later: no interpreter is
/// initialised, no script is run and no process is spawned.
pub proof fn lemma_unreadable_source_launches_nothing(
    config: ConfigView,
    path: Seq<char>,
    later: Seq<EventView>,
)
    requires
        config.source == SourceView::File(path),
    ensures
        ({
            let actions = actions_after(config, seq![EventView::SourceUnreadable] + later);
            &&& phase_after(config, seq![EventView::SourceUnreadable] + later) is Finished
            &&& actions.len() == later.len() + 2
            &&& actions[0] == ActionView::ReadFile(path)
            &&& actions[1] == ActionView::Report(Err(RunError::IOError))
            &&& forall|i: int| 0 <= i < actions.len() ==> !launches(#[trigger] actions[i])
        }),
{
    let failed = seq![EventView::SourceUnreadable];
    lemma_one_more_event(config, Seq::empty(), EventView::SourceUnreadable);
    lemma_finished_run_is_over(config, failed, later);
    let actions = actions_after(config, failed + later);
    assert(actions[0] == actions.take(2)[0]);
    assert(actions[1] == actions.take(2)[1]);
}

/// The actions of a run in which every action is carried out, from the
/// first to the report of the payload's `result`.
pub open spec fn served_actions(
    config: ConfigView,
    text: Seq<char>,
    result: ExecutionResultView,
) -> Seq<ActionView> {
    let (read, payload) = match config.source {
        SourceView::Literal(literal) => (Seq::<ActionView>::empty(), literal),
        SourceView::File(path) => (seq![ActionView::ReadFile(path)], text),
    };
    let prepared = if config.search_paths.len() == 0 {
        Seq::<ActionView>::empty()
    } else {
        seq![ActionView::RunScript(setup_text(config.search_paths, config.policy))]
    };
    match config.backend {
        Backend::Embedded => read + seq![ActionView::Initialize] + prepared + seq![
            ActionView::RunScript(payload),
            ActionView::Finalize,
            ActionView::Report(Ok(result)),
        ],
        Backend::Process => read + seq![
            ActionView::Spawn(process_script(config, payload)),
            ActionView::Report(Ok(result)),
        ],
    }
}

/// Whether the actions given out so far are those that `phase` stands for,
/// kind by kind.
pub open spec fn ledger_balanced(config: ConfigView, phase: PhaseView, actions: Seq<ActionView>) -> bool {
    let reads = occurrences(actions, ActionKind::ReadFile);
    let initialized = occurrences(actions, ActionKind::Initialize);
    let runs = occurrences(actions, ActionKind::RunScript);
    let spawns = occurrences(actions, ActionKind::Spawn);
    let finalized = occurrences(actions, ActionKind::Finalize);
    let reports = occurrences(actions, ActionKind::Report);
    let embedded = config.backend is Embedded;
    let from_file = if config.source is File {
        1nat
    } else {
        0nat
    };
    match phase {
        PhaseView::Reading => {
            &&& config.source is File
            &&& reads == 1
            &&& initialized == 0 && runs == 0 && spawns == 0 && finalized == 0 && reports == 0
        },
        PhaseView::Starting { .. } => {
            &&& embedded
            &&& reads == from_file
            &&& initialized == 1
            &&& runs == 0 && spawns == 0 && finalized == 0 && reports == 0
        },
        PhaseView::Preparing { .. } => {
            &&& embedded
            &&& config.search_paths.len() > 0
            &&& reads == from_file
            &&& initialized == 1
            &&& runs == 1
            &&& spawns == 0 && finalized == 0 && reports == 0
        },
        PhaseView::Running => {
            &&& reads == from_file
            &&& finalized == 0 && reports == 0
            &&& if embedded {
                initialized == 1 && runs == scripts_to_run(config) && spawns == 0
            } else {
                initialized == 0 && runs == 0 && spawns == 1
            }
        },
        PhaseView::Closing { .. } => {
            &&& embedded
            &&& reads == from_file
            &&& initialized == 1
            &&& runs == scripts_to_run(config)
            &&& finalized == 1
            &&& spawns == 0 && reports == 0
        },
        PhaseView::Finished => {
            &&& reports == 1
            &&& reads <= 1
            &&& initialized <= 1
            &&& finalized == initialized
            &&& runs <= scripts_to_run(config)
            &&& spawns <= 1
        },
    }
}

/// In every phase of every run the actions given out so far are those that
/// the phase stands for, kind by kind.
pub proof fn lemma_ledger_balanced(config: ConfigView, events: Seq<EventView>)
    ensures
        ledger_balanced(config, phase_after(config, events), actions_after(config, events)),
    decreases events.len(),
{
    if events.len() == 0 {
        let first = seq![begin_spec(config).1];
        reveal_with_fuel(occurrences, 2);
    } else {
        let before = events.drop_last();
        lemma_ledger_balanced(config, before);
        let earlier = actions_after(config, before);
        let action = step_spec(config, phase_after(config, before), events.last()).1;
        assert(earlier.push(action).drop_last() =~= earlier);
    }
}

/// Nothing is retried: however a run goes, the file is read at most once, the
/// embedded interpreter is initialised at most once and handed no more than
/// the setup script and the payload, an external interpreter is spawned at
/// most once, and the run reports at most once.
pub proof fn lemma_nothing_is_retried(config: ConfigView, events: Seq<EventView>)
    ensures
        occurrences(actions_after(config, events), ActionKind::ReadFile) <= 1,
        occurrences(actions_after(config, events), ActionKind::Initialize) <= 1,
        occurrences(actions_after(config, events), ActionKind::RunScript) <= scripts_to_run(
            config,
        ),
        occurrences(actions_after(config, events), ActionKind::Spawn) <= 1,
        occurrences(actions_after(config, events), ActionKind::Report) <= 1,
        phase_after(config, events) is Finished <==> occurrences(
            actions_after(config, events),
            ActionKind::Report,
        ) == 1,
{
    lemma_ledger_balanced(config, events);
}

/// However a run goes, the embedded interpreter is never finalised more often
/// than it was initialised, which is at most once; and once the run has
/// reported, it has been finalised exactly as often as it was initialised,
/// whatever the payload's result was.
pub proof fn lemma_finalized_as_often_as_initialized(config: ConfigView, events: Seq<EventView>)
    ensures
        occurrences(actions_after(config, events), ActionKind::Initialize) <= 1,
        occurrences(actions_after(config, events), ActionKind::Finalize) <= occurrences(
            actions_after(config, events),
            ActionKind::Initialize,
        ),
        phase_after(config, events) is Finished ==> occurrences(
            actions_after(config, events),
            ActionKind::Finalize,
        ) == occurrences(actions_after(config, events), ActionKind::Initialize),
{
    lemma_ledger_balanced(config, events);
}

/// A run in which every action is carried out gives out exactly the actions
/// of [`served_actions`], and has then finished.
pub proof fn lemma_served_run(
    config: ConfigView,
    text: Seq<char>,
    setup: ExecutionResultView,
    result: ExecutionResultView,
)
    ensures
        phase_after(config, served(config, text, setup, result)) is Finished,
        actions_after(config, served(config, text, setup, result)) == served_actions(
            config,
            text,
            result,
        ),
{
    let none = Seq::<EventView>::empty();
    let read = match config.source {
        SourceView::Literal(_) => none,
        SourceView::File(_) => none.push(EventView::SourceRead(text)),
    };
    if config.source is File {
        lemma_one_more_event(config, none, EventView::SourceRead(text));
    }
    match config.backend {
        Backend::Embedded => {
            let started = read.push(EventView::Initialized);
            lemma_one_more_event(config, read, EventView::Initialized);
            let prepared = if config.search_paths.len() == 0 {
                started
            } else {
                started.push(EventView::Completed(setup))
            };
            if config.search_paths.len() != 0 {
                lemma_one_more_event(config, started, EventView::Completed(setup));
            }
            let ran = prepared.push(EventView::Completed(result));
            lemma_one_more_event(config, prepared, EventView::Completed(result));
            let closed = ran.push(EventView::Finalized);
            lemma_one_more_event(config, ran, EventView::Finalized);
            assert(closed =~= served(config, text, setup, result));
        },
        Backend::Process => {
            let ran = read.push(EventView::Completed(result));
            lemma_one_more_event(config, read, EventView::Completed(result));
            assert(ran =~= served(config, text, setup, result));
        },
    }
}

/// For every script that can be read, a run in which every action is carried
/// out reports success exactly when the payload's exit status is zero, and on
/// another status reports the captured text.
pub proof fn lemma_success_iff_exit_status_zero(
    config: ConfigView,
    text: Seq<char>,
    setup: ExecutionResultView,
    code: int,
    captured: Seq<char>,
)
    ensures
        ({
            let events = served(config, text, setup, result_of_exit(code, captured));
            &&& phase_after(config, events) is Finished
            &&& actions_after(config, events).last() matches ActionView::Report(Ok(result))
            &&& (result.success <==> code == 0)
            &&& (code != 0 ==> result.stderr == Some(captured))
            &&& (code == 0 ==> result.stderr is None)
        }),
{
    lemma_served_run(config, text, setup, result_of_exit(code, captured));
}

/// A run in the embedded interpreter in which every action is carried out
/// initialises the interpreter exactly once and finalises it exactly once,
/// whether the payload ended in success or in failure.
pub proof fn lemma_embedded_run_finalizes_once(
    config: ConfigView,
    text: Seq<char>,
    setup: ExecutionResultView,
    result: ExecutionResultView,
)
    requires
        config.backend is Embedded,
    ensures
        occurrences(
            actions_after(config, served(config, text, setup, result)),
            ActionKind::Initialize,
        ) == 1,
        occurrences(
            actions_after(config, served(config, text, setup, result)),
            ActionKind::Finalize,
        ) == 1,
{
    let events = served(config, text, setup, result);
    lemma_served_run(config, text, setup, result);
    lemma_ledger_balanced(config, events);
    let actions = served_actions(config, text, result);
    assert(occurrences(actions, ActionKind::Finalize) >= 1) by {
        reveal_with_fuel(occurrences, 3);
    }
}

} // verus!
