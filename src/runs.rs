use vstd::prelude::*;
use crate::environment::{backend_env_spec, env_view};
use crate::paths::ResolvedPaths;
use crate::relay::{relay_spec, StreamSource};
use crate::setup::{is_line, step_ok, Action, Event, RunMode, SetupError, Stage};

verus! {

/// `stages` and `acts` record the launch sequence driven from `start` by
/// `events`: step `i` goes from `stages[i]` to `stages[i + 1]` and asks for
/// `acts[i]`.
pub open spec fn is_run(start: Stage, events: Seq<Event>, stages: Seq<Stage>, acts: Seq<Seq<Action>>) -> bool {
    &&& stages.len() == events.len() + 1
    &&& acts.len() == events.len()
    &&& stages[0] == start
    &&& forall|i: int| 0 <= i < events.len() ==> #[trigger] step_at(events, stages, acts, i)
}

pub open spec fn step_at(events: Seq<Event>, stages: Seq<Stage>, acts: Seq<Seq<Action>>, i: int) -> bool {
    step_ok(stages[i], events[i], stages[i + 1], acts[i])
}

/// No step of the run asks for `a` with `bad(a)`.
pub open spec fn never(acts: Seq<Seq<Action>>, bad: spec_fn(Action) -> bool) -> bool {
    forall|i: int, j: int| 0 <= i < acts.len() && 0 <= j < acts[i].len() ==> !bad(#[trigger] acts[i][j])
}

proof fn lemma_dev_stages(events: Seq<Event>, stages: Seq<Stage>, acts: Seq<Seq<Action>>, k: int)
    requires
        is_run(Stage::Idle, events, stages, acts),
        forall|i: int| 0 <= i < events.len() ==> events[i] != Event::Start(RunMode::Production),
        0 <= k <= events.len(),
    ensures
        stages[k] is Idle || stages[k] is Finished,
    decreases k,
{
    if k > 0 {
        lemma_dev_stages(events, stages, acts, k - 1);
        assert(step_at(events, stages, acts, k - 1));
    }
}

/// A development build creates no directory and launches no backend,
/// whatever the host reports.
pub proof fn lemma_development_touches_nothing(events: Seq<Event>, stages: Seq<Stage>, acts: Seq<Seq<Action>>)
    requires
        is_run(Stage::Idle, events, stages, acts),
        forall|i: int| 0 <= i < events.len() ==> events[i] != Event::Start(RunMode::Production),
    ensures
        never(acts, |a: Action| a is CreateDir || a is Launch),
{
    assert forall|i: int, j: int| 0 <= i < acts.len() && 0 <= j < acts[i].len()
        implies !(acts[i][j] is CreateDir || acts[i][j] is Launch) by {
        lemma_dev_stages(events, stages, acts, i);
        assert(step_at(events, stages, acts, i));
    }
}

proof fn lemma_no_resource_stages(events: Seq<Event>, stages: Seq<Stage>, acts: Seq<Seq<Action>>, k: int)
    requires
        is_run(Stage::Idle, events, stages, acts),
        forall|i: int| 0 <= i < events.len() ==> !(#[trigger] events[i] matches Event::ResourceDir(Some(_))),
        0 <= k <= events.len(),
    ensures
        stages[k] is Idle || stages[k] is AwaitResourceDir || stages[k] is Aborted || stages[k] is Finished,
    decreases k,
{
    if k > 0 {
        lemma_no_resource_stages(events, stages, acts, k - 1);
        assert(step_at(events, stages, acts, k - 1));
    }
}

/// Until the resource directory is found, no directory is created and no
/// backend launched; a failed lookup aborts setup.
pub proof fn lemma_resource_failure_creates_nothing(events: Seq<Event>, stages: Seq<Stage>, acts: Seq<Seq<Action>>)
    requires
        is_run(Stage::Idle, events, stages, acts),
        forall|i: int| 0 <= i < events.len() ==> !(#[trigger] events[i] matches Event::ResourceDir(Some(_))),
    ensures
        never(acts, |a: Action| a is CreateDir || a is Launch),
        forall|i: int| 0 <= i < events.len() && stages[i] is AwaitResourceDir && events[i] == Event::ResourceDir(None)
            ==> stages[i + 1] is Aborted && acts[i] == seq![Action::Abort(SetupError::ResourceDirUnavailable)],
{
    assert forall|i: int, j: int| 0 <= i < acts.len() && 0 <= j < acts[i].len()
        implies !(acts[i][j] is CreateDir || acts[i][j] is Launch) by {
        lemma_no_resource_stages(events, stages, acts, i);
        assert(step_at(events, stages, acts, i));
    }
    assert forall|i: int| 0 <= i < events.len() && stages[i] is AwaitResourceDir && events[i] == Event::ResourceDir(None)
        implies stages[i + 1] is Aborted && acts[i] == seq![Action::Abort(SetupError::ResourceDirUnavailable)] by {
        assert(step_at(events, stages, acts, i));
        assert(acts[i] =~= seq![Action::Abort(SetupError::ResourceDirUnavailable)]);
    }
}

/// `acts` is what relaying the output event `e` asks for: its line, if it
/// carries one.
pub open spec fn relayed(e: Event, acts: Seq<Action>) -> bool {
    match relay_spec(e->Output_0) {
        Some((src, text)) => acts.len() == 1 && is_line(acts[0], src, text),
        None => acts.len() == 0,
    }
}

/// While the backend runs, each output event gives exactly its relayed
/// line, tagged with its stream, at its own step: lines of either stream
/// keep the order in which the backend wrote them.
pub proof fn lemma_relay_follows_output(events: Seq<Event>, stages: Seq<Stage>, acts: Seq<Seq<Action>>)
    requires
        is_run(Stage::Relaying, events, stages, acts),
        forall|i: int| 0 <= i < events.len() ==> #[trigger] events[i] is Output,
    ensures
        forall|i: int| 0 <= i <= events.len() ==> #[trigger] stages[i] is Relaying,
        forall|i: int| 0 <= i < events.len() ==> #[trigger] relayed(events[i], acts[i]),
{
    assert forall|i: int| 0 <= i <= events.len() implies #[trigger] stages[i] is Relaying by {
        lemma_relaying_stays(events, stages, acts, i);
    }
    assert forall|i: int| 0 <= i < events.len() implies #[trigger] relayed(events[i], acts[i]) by {
        lemma_relaying_stays(events, stages, acts, i);
        assert(step_at(events, stages, acts, i));
    }
}

proof fn lemma_relaying_stays(events: Seq<Event>, stages: Seq<Stage>, acts: Seq<Seq<Action>>, k: int)
    requires
        is_run(Stage::Relaying, events, stages, acts),
        forall|i: int| 0 <= i < events.len() ==> #[trigger] events[i] is Output,
        0 <= k <= events.len(),
    ensures
        stages[k] is Relaying,
    decreases k,
{
    if k > 0 {
        lemma_relaying_stays(events, stages, acts, k - 1);
        assert(step_at(events, stages, acts, k - 1));
        assert(events[k - 1] is Output);
    }
}

/// A line written to the error stream.
pub open spec fn is_error_line(a: Action) -> bool {
    a matches Action::Log(l) && l.source == StreamSource::Stderr
}

/// The backend has not been handed off yet.
pub open spec fn before_handoff(s: Stage) -> bool {
    !(s is Relaying || s is Finished || s is Aborted)
}

proof fn lemma_before_handoff(events: Seq<Event>, stages: Seq<Stage>, acts: Seq<Seq<Action>>, k: int)
    requires
        is_run(Stage::Idle, events, stages, acts),
        0 <= k <= events.len(),
        before_handoff(stages[k]),
    ensures
        forall|j: int, m: int| 0 <= j < k && 0 <= m < acts[j].len()
            ==> !is_error_line(#[trigger] acts[j][m]) && !(acts[j][m] is Abort),
        stages[k] is AwaitLaunch ==> exists|j: int, m: int| 0 <= j < k && 0 <= m < acts[j].len() && #[trigger] acts[j][m] is Complete,
    decreases k,
{
    if k > 0 {
        assert(step_at(events, stages, acts, k - 1));
        lemma_before_handoff(events, stages, acts, k - 1);
        if stages[k] is AwaitLaunch && !(stages[k - 1] is AwaitLaunch) {
            assert(acts[k - 1][1] is Complete);
        }
    }
}

proof fn lemma_finished_stays(events: Seq<Event>, stages: Seq<Stage>, acts: Seq<Seq<Action>>, i: int, k: int)
    requires
        is_run(Stage::Idle, events, stages, acts),
        0 <= i <= k <= events.len(),
        stages[i] is Finished,
    ensures
        stages[k] is Finished,
        forall|j: int| i <= j < k ==> #[trigger] acts[j].len() == 0,
    decreases k,
{
    if k > i {
        lemma_finished_stays(events, stages, acts, i, k - 1);
        assert(step_at(events, stages, acts, k - 1));
    }
}

/// A failed backend launch degrades instead of failing startup: the setup
/// hook had already reported success, nothing aborts, and exactly one error
/// line is logged over the whole run.
pub proof fn lemma_launch_failure_degrades(events: Seq<Event>, stages: Seq<Stage>, acts: Seq<Seq<Action>>, i: int)
    requires
        is_run(Stage::Idle, events, stages, acts),
        0 <= i < events.len(),
        stages[i] is AwaitLaunch,
        events[i] is LaunchFailed,
    ensures
        stages[i + 1] is Finished,
        acts[i].len() == 1,
        is_error_line(acts[i][0]),
        exists|j: int, m: int| 0 <= j < i && 0 <= m < acts[j].len() && #[trigger] acts[j][m] is Complete,
        forall|j: int, m: int| 0 <= j < acts.len() && 0 <= m < acts[j].len() && (j != i || m != 0)
            ==> !is_error_line(#[trigger] acts[j][m]) && !(acts[j][m] is Abort),
{
    assert(step_at(events, stages, acts, i));
    lemma_before_handoff(events, stages, acts, i);
    lemma_finished_stays(events, stages, acts, i + 1, events.len() as int);
}

/// At step `j` the host confirmed that the data directory of `paths` exists.
pub open spec fn data_dir_confirmed(events: Seq<Event>, stages: Seq<Stage>, paths: ResolvedPaths, j: int) -> bool {
    &&& stages[j] == (Stage::AwaitDataDir { paths })
    &&& events[j] == Event::DirReady(true)
}

/// At step `j` the host confirmed that the uploads directory of `paths` exists.
pub open spec fn uploads_dir_confirmed(events: Seq<Event>, stages: Seq<Stage>, paths: ResolvedPaths, j: int) -> bool {
    &&& stages[j] == (Stage::AwaitUploadsDir { paths })
    &&& events[j] == Event::DirReady(true)
}

/// Both directories of `paths` were confirmed, in that order, before step `k`.
pub open spec fn provisioned_before(events: Seq<Event>, stages: Seq<Stage>, paths: ResolvedPaths, k: int) -> bool {
    exists|j1: int, j2: int|
        #![trigger data_dir_confirmed(events, stages, paths, j1), uploads_dir_confirmed(events, stages, paths, j2)]
        0 <= j1 < j2 < k && data_dir_confirmed(events, stages, paths, j1) && uploads_dir_confirmed(events, stages, paths, j2)
}

/// What a stage waiting for the uploads directory or the runtime owes to
/// the steps before step `k`.
pub open spec fn provisioning_recorded(events: Seq<Event>, stages: Seq<Stage>, k: int) -> bool {
    match stages[k] {
        Stage::AwaitUploadsDir { paths } => exists|j1: int|
            0 <= j1 < k && #[trigger] data_dir_confirmed(events, stages, paths, j1),
        Stage::AwaitRuntime { paths } => provisioned_before(events, stages, paths, k),
        _ => true,
    }
}

proof fn lemma_provisioned(events: Seq<Event>, stages: Seq<Stage>, acts: Seq<Seq<Action>>, k: int)
    requires
        is_run(Stage::Idle, events, stages, acts),
        0 <= k <= events.len(),
    ensures
        provisioning_recorded(events, stages, k),
    decreases k,
{
    if k > 0 {
        assert(step_at(events, stages, acts, k - 1));
        lemma_provisioned(events, stages, acts, k - 1);
        match stages[k] {
            Stage::AwaitUploadsDir { paths } => {
                if !(stages[k - 1] is AwaitUploadsDir) {
                    assert(data_dir_confirmed(events, stages, paths, k - 1));
                }
            },
            Stage::AwaitRuntime { paths } => {
                if !(stages[k - 1] is AwaitRuntime) {
                    assert(uploads_dir_confirmed(events, stages, paths, k - 1));
                }
            },
            _ => {},
        }
    }
}

/// The backend is launched only after both of its directories were
/// reported created, and its environment names exactly those directories.
pub proof fn lemma_launch_after_provisioning(events: Seq<Event>, stages: Seq<Stage>, acts: Seq<Seq<Action>>, i: int, m: int)
    requires
        is_run(Stage::Idle, events, stages, acts),
        0 <= i < events.len(),
        0 <= m < acts[i].len(),
        acts[i][m] is Launch,
    ensures
        stages[i] is AwaitRuntime,
        provisioned_before(events, stages, stages[i]->AwaitRuntime_paths, i),
        env_view(acts[i][m]->Launch_0.env@) == backend_env_spec(
            stages[i]->AwaitRuntime_paths.data_dir@,
            stages[i]->AwaitRuntime_paths.uploads_dir@,
        ),
{
    assert(step_at(events, stages, acts, i));
    lemma_provisioned(events, stages, acts, i);
}

} // verus!
