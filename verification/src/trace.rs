//! Whole runs: where the driver stands after a sequence of events, and what
//! holds of every such sequence.

use vstd::prelude::*;
use crate::driver::{
    is_terminal, next_progress, pending_action, stage_of, ActionView, EventView, ProgressView,
    Stage, EXIT_FAILURE,
};
use crate::error::RunErrorView;

verus! {

/// Where a run that stood at `start` stands after the host has reported
/// `events`, one after the other.
pub open spec fn run(start: ProgressView, events: Seq<EventView>) -> ProgressView
    decreases events.len(),
{
    if events.len() == 0 {
        start
    } else {
        next_progress(run(start, events.drop_last()), events.last())
    }
}

/// How far a stage lies from the start of a run. Both ends of a run lie
/// farthest.
pub open spec fn rank(stage: Stage) -> nat {
    match stage {
        Stage::Init => 0,
        Stage::Bootstrap => 1,
        Stage::Load => 2,
        Stage::Evaluate => 3,
        Stage::Drain => 4,
        Stage::Finish => 5,
        Stage::Completed => 6,
        Stage::Aborted => 6,
    }
}

/// The stage whose rank is `i`, for the six stages in which work is done.
pub open spec fn working_stage(i: int) -> Stage {
    if i == 0 {
        Stage::Init
    } else if i == 1 {
        Stage::Bootstrap
    } else if i == 2 {
        Stage::Load
    } else if i == 3 {
        Stage::Evaluate
    } else if i == 4 {
        Stage::Drain
    } else {
        Stage::Finish
    }
}

/// Whether `event` reports that the action of `stage` was performed well.
pub open spec fn answers(stage: Stage, event: EventView) -> bool {
    match stage {
        Stage::Init => event is EngineCreated,
        Stage::Bootstrap => event is BootstrapEvaluated,
        Stage::Load => event is ModuleLoaded,
        Stage::Evaluate => event is EvaluationScheduled,
        Stage::Drain => event is LoopDrained,
        Stage::Finish => event is EvaluationSucceeded,
        Stage::Completed => false,
        Stage::Aborted => false,
    }
}

/// Whether each of the first `n` events answers the stage of its turn.
pub open spec fn all_answered(events: Seq<EventView>, n: int) -> bool {
    forall|i: int| 0 <= i < n ==> answers(working_stage(i), #[trigger] events[i])
}

/// A run is linear. A finished run stays as it is, whatever is reported.
/// In any other stage the one event that answers the stage moves the run
/// one stage on, and every other event aborts it.
pub proof fn lemma_step_is_linear(p: ProgressView, event: EventView)
    ensures
        is_terminal(stage_of(p)) ==> next_progress(p, event) == p,
        !is_terminal(stage_of(p)) && answers(stage_of(p), event) ==> rank(
            stage_of(next_progress(p, event)),
        ) == rank(stage_of(p)) + 1 && stage_of(next_progress(p, event)) != Stage::Aborted,
        !is_terminal(stage_of(p)) && !answers(stage_of(p), event) ==> stage_of(
            next_progress(p, event),
        ) == Stage::Aborted,
{
}

/// Every failure is terminal. A failure that is reported before the run is
/// over aborts the run, whatever its stage; the driver then asks for one
/// line to be written, which holds the failure's description unchanged,
/// and for an exit status that is not zero; and nothing that is reported
/// afterwards changes that: nothing is tried again.
pub proof fn lemma_failure_is_reported(
    entry: Seq<char>,
    p: ProgressView,
    failure: RunErrorView,
    later: Seq<EventView>,
)
    requires
        !is_terminal(stage_of(p)),
    ensures
        next_progress(p, EventView::Failed(failure)) == ProgressView::Aborted(failure),
        run(ProgressView::Aborted(failure), later) == ProgressView::Aborted(failure),
        pending_action(entry, ProgressView::Aborted(failure)) == (ActionView::Report {
            line: "error: "@ + failure.message,
            status: EXIT_FAILURE,
        }),
        EXIT_FAILURE != 0,
    decreases later.len(),
{
    if later.len() > 0 {
        lemma_failure_is_reported(entry, p, failure, later.drop_last());
    }
}

/// A run never goes back. Of two moments of a run, the later one stands at
/// least as far; and a run that was over at the earlier one stands at the
/// later one exactly as it stood.
pub proof fn lemma_run_never_goes_back(
    start: ProgressView,
    events: Seq<EventView>,
    earlier: int,
    later: int,
)
    requires
        0 <= earlier <= later <= events.len(),
    ensures
        rank(stage_of(run(start, events.take(earlier)))) <= rank(
            stage_of(run(start, events.take(later))),
        ),
        is_terminal(stage_of(run(start, events.take(earlier)))) ==> run(
            start,
            events.take(later),
        ) == run(start, events.take(earlier)),
    decreases later - earlier,
{
    if earlier < later {
        lemma_run_never_goes_back(start, events, earlier, later - 1);
        assert(events.take(later).drop_last() =~= events.take(later - 1));
        lemma_step_is_linear(run(start, events.take(later - 1)), events[later - 1]);
    }
}

/// No run hangs in the driver: each event that is reported before the run
/// is over moves it on, so a run that began at `Init` is over once six
/// events were reported, and one that began later, sooner.
pub proof fn lemma_run_ends(start: ProgressView, events: Seq<EventView>)
    ensures
        rank(stage_of(run(start, events))) >= rank(stage_of(start)),
        rank(stage_of(run(start, events))) >= rank(stage_of(start)) + events.len() || is_terminal(
            stage_of(run(start, events)),
        ),
        rank(stage_of(start)) + events.len() >= 6 ==> is_terminal(stage_of(run(start, events))),
    decreases events.len(),
{
    if events.len() > 0 {
        lemma_run_ends(start, events.drop_last());
        lemma_step_is_linear(run(start, events.drop_last()), events.last());
    }
}

/// The bootstrap script comes before any load. If what the host reports
/// while the run stands at `Bootstrap` is anything but the script's
/// success, then at no moment of the run, before or after, does the driver
/// ask for a module to be loaded.
pub proof fn lemma_bootstrap_failure_blocks_load(
    entry: Seq<char>,
    events: Seq<EventView>,
    k: int,
    n: int,
)
    requires
        0 <= k < events.len(),
        stage_of(run(ProgressView::Init, events.take(k))) == Stage::Bootstrap,
        !(events[k] is BootstrapEvaluated),
        0 <= n <= events.len(),
    ensures
        stage_of(run(ProgressView::Init, events.take(n))) != Stage::Load,
        !(pending_action(entry, run(ProgressView::Init, events.take(n))) is LoadModule),
{
    let start = ProgressView::Init;
    if n <= k {
        lemma_run_never_goes_back(start, events, n, k);
    } else {
        assert(events.take(k + 1).drop_last() =~= events.take(k));
        lemma_step_is_linear(run(start, events.take(k)), events[k]);
        assert(stage_of(run(start, events.take(k + 1))) == Stage::Aborted);
        lemma_run_never_goes_back(start, events, k + 1, n);
    }
}

/// A module is loaded only after the engine was created and the bootstrap
/// script ran to its end: the driver asks for the load at one moment only,
/// after exactly these two reports.
pub proof fn lemma_load_follows_bootstrap(entry: Seq<char>, events: Seq<EventView>, n: int)
    requires
        0 <= n <= events.len(),
        pending_action(entry, run(ProgressView::Init, events.take(n))) is LoadModule,
    ensures
        n == 2,
        events[0] is EngineCreated,
        events[1] is BootstrapEvaluated,
{
    lemma_follows_answers(events, n);
}

/// There is no partial success. After `n` events, six at most, a run from
/// `Init` stands at the stage of rank `n` if each event answered the stage
/// of its turn, and is aborted if one did not.
pub proof fn lemma_follows_answers(events: Seq<EventView>, n: int)
    requires
        0 <= n <= events.len(),
    ensures
        n <= 6 && all_answered(events, n) ==> rank(
            stage_of(run(ProgressView::Init, events.take(n))),
        ) == n && stage_of(run(ProgressView::Init, events.take(n))) != Stage::Aborted,
        !all_answered(events, if n <= 6 { n } else { 6 }) ==> stage_of(
            run(ProgressView::Init, events.take(n)),
        ) == Stage::Aborted,
        n > 6 ==> is_terminal(stage_of(run(ProgressView::Init, events.take(n)))),
    decreases n,
{
    let start = ProgressView::Init;
    if n > 0 {
        lemma_follows_answers(events, n - 1);
        assert(events.take(n).drop_last() =~= events.take(n - 1));
        let before = run(start, events.take(n - 1));
        lemma_step_is_linear(before, events[n - 1]);
        if n <= 6 {
            if all_answered(events, n) {
                assert(all_answered(events, n - 1));
                assert(answers(working_stage(n - 1), events[n - 1]));
            } else if all_answered(events, n - 1) {
                assert(!answers(working_stage(n - 1), events[n - 1]));
            }
        } else {
            lemma_run_ends(start, events.take(n));
        }
    }
}

/// A run completes exactly when the host reports six successes in the
/// order of the stages; whatever it reports after them changes nothing.
/// The module that the run then holds is the one that was loaded.
pub proof fn lemma_completed_iff_all_answered(events: Seq<EventView>)
    ensures
        stage_of(run(ProgressView::Init, events)) == Stage::Completed <==> events.len() >= 6
            && all_answered(events, 6),
        events.len() >= 6 && all_answered(events, 6) ==> run(ProgressView::Init, events)
            == ProgressView::Completed(events[2]->ModuleLoaded_0),
{
    let start = ProgressView::Init;
    assert(events.take(events.len() as int) =~= events);
    if events.len() >= 6 {
        lemma_follows_answers(events, 6);
        lemma_run_never_goes_back(start, events, 6, events.len() as int);
        if all_answered(events, 6) {
            lemma_six_answers(events);
        }
    } else {
        lemma_follows_answers(events, events.len() as int);
    }
}

/// Six successes in the order of the stages carry the loaded module
/// through to the end of the run.
proof fn lemma_six_answers(events: Seq<EventView>)
    requires
        events.len() >= 6,
        all_answered(events, 6),
    ensures
        run(ProgressView::Init, events.take(6)) == ProgressView::Completed(
            events[2]->ModuleLoaded_0,
        ),
{
    let start = ProgressView::Init;
    assert(answers(working_stage(0), events[0]));
    assert(answers(working_stage(1), events[1]));
    assert(answers(working_stage(2), events[2]));
    assert(answers(working_stage(3), events[3]));
    assert(answers(working_stage(4), events[4]));
    assert(answers(working_stage(5), events[5]));
    assert(events.take(1).drop_last() =~= events.take(0));
    assert(events.take(2).drop_last() =~= events.take(1));
    assert(events.take(3).drop_last() =~= events.take(2));
    assert(events.take(4).drop_last() =~= events.take(3));
    assert(events.take(5).drop_last() =~= events.take(4));
    assert(events.take(6).drop_last() =~= events.take(5));
    assert(run(start, events.take(0)) == start);
    assert(run(start, events.take(1)) == ProgressView::Bootstrap);
    assert(run(start, events.take(2)) == ProgressView::Load);
    let m = events[2]->ModuleLoaded_0;
    assert(run(start, events.take(3)) == ProgressView::Evaluate(m));
    assert(run(start, events.take(4)) == ProgressView::Drain(m));
    assert(run(start, events.take(5)) == ProgressView::Finish(m));
}

} // verus!
