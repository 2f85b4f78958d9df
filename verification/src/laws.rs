//! The library's stated laws: proof functions that pin down the plan's
//! shape, the location-resolution rule, the limit-key translation, and
//! the fail-fast behaviour of the orchestrator.

use vstd::prelude::*;
use crate::manifest::BuildManifestView;
use crate::orchestrator::{
    spec_bare_start_cmd, spec_bare_stop_cmd, spec_dst_parts, spec_entry_content, spec_entry_path,
    spec_init, spec_issue, spec_limit_cmd, spec_next, spec_plan, spec_plan_create_cmd,
    spec_step_error_kind, spec_steps_copies, spec_steps_final_restart, spec_steps_head,
    spec_steps_limits, spec_steps_mid_restart, spec_steps_mounts, spec_steps_runs, ActionView,
    BuildError, BuildStatus, BuildView, EventView, PhaseView, StepErrorKind, StepView,
};
use crate::resolver::{spec_decompose, LocationView, RootfsResultView};
use crate::strutil::{spec_contains_char, spec_find, spec_replace_char, lemma_find_characterizes};

verus! {

/// A manifest with no copies, no shared mounts, no run commands, no
/// limits and no entrypoint plans exactly four steps: create, start,
/// stop, start.
pub proof fn lemma_minimal_plan(m: BuildManifestView)
    requires
        m.copies.len() == 0,
        m.shared.len() == 0,
        m.runs.len() == 0,
        m.limits.len() == 0,
        m.entrypoint is None,
    ensures
        spec_plan(m) =~= seq![
            StepView::CreateStep { cmd: spec_plan_create_cmd(m) },
            StepView::StartStep { cmd: spec_bare_start_cmd(m.name) },
            StepView::StopStep { cmd: spec_bare_stop_cmd(m.name) },
            StepView::StartStep { cmd: spec_bare_start_cmd(m.name) },
        ],
{
    assert(spec_steps_copies(m) =~= Seq::<StepView>::empty());
    assert(spec_steps_mounts(m) =~= Seq::<StepView>::empty());
    assert(spec_steps_runs(m) =~= Seq::<StepView>::empty());
    assert(spec_steps_limits(m) =~= Seq::<StepView>::empty());
    assert(spec_steps_head(m) =~= seq![
        StepView::CreateStep { cmd: spec_plan_create_cmd(m) },
        StepView::StartStep { cmd: spec_bare_start_cmd(m.name) },
    ]);
}

/// Where the copy phase begins in the plan.
pub open spec fn spec_copy_phase_start(m: BuildManifestView) -> int {
    spec_steps_head(m).len() as int
}

/// The i-th copy step of the plan is exactly the i-th declared copy
/// entry, at the i-th position of the copy phase: copies are planned in
/// declared order, destinations rooted in the instance being built.
pub proof fn lemma_copy_steps_in_order(m: BuildManifestView, i: int)
    requires
        0 <= i < m.copies.len(),
    ensures
        spec_plan(m)[spec_copy_phase_start(m) + i] == (StepView::CopyStep {
            source: m.copies[i].host,
            destination: m.name + ":"@ + m.copies[i].container,
            archive: m.copies[i].archive,
            follow_link: m.copies[i].follow_link,
        }),
{
    let head = spec_steps_head(m);
    let copies = spec_steps_copies(m);
    let k = head.len() + i;
    assert((head + copies)[k] == copies[i]);
    assert((head + copies + spec_steps_mounts(m))[k] == (head + copies)[k]);
    assert((head + copies + spec_steps_mounts(m) + spec_steps_mid_restart(m))[k] == (head + copies
        + spec_steps_mounts(m))[k]);
    assert((head + copies + spec_steps_mounts(m) + spec_steps_mid_restart(m) + spec_steps_runs(
        m,
    ))[k] == (head + copies + spec_steps_mounts(m) + spec_steps_mid_restart(m))[k]);
    assert((head + copies + spec_steps_mounts(m) + spec_steps_mid_restart(m) + spec_steps_runs(m)
        + spec_steps_limits(m))[k] == (head + copies + spec_steps_mounts(m)
        + spec_steps_mid_restart(m) + spec_steps_runs(m))[k]);
    assert(spec_plan(m)[k] == (head + copies + spec_steps_mounts(m) + spec_steps_mid_restart(m)
        + spec_steps_runs(m) + spec_steps_limits(m))[k]);
}

/// How many copy steps a step sequence holds.
pub open spec fn spec_count_copy_steps(steps: Seq<StepView>) -> int
    decreases steps.len(),
{
    if steps.len() == 0 {
        0
    } else {
        spec_count_copy_steps(steps.drop_last()) + if steps.last() is CopyStep {
            1int
        } else {
            0int
        }
    }
}

proof fn lemma_count_concat(a: Seq<StepView>, b: Seq<StepView>)
    ensures
        spec_count_copy_steps(a + b) == spec_count_copy_steps(a) + spec_count_copy_steps(b),
    decreases b.len(),
{
    if b.len() == 0 {
        assert(a + b =~= a);
    } else {
        assert((a + b).drop_last() =~= a + b.drop_last());
        assert((a + b).last() == b.last());
        lemma_count_concat(a, b.drop_last());
    }
}

proof fn lemma_count_all_copy(s: Seq<StepView>)
    requires
        forall|i: int| 0 <= i < s.len() ==> s[i] is CopyStep,
    ensures
        spec_count_copy_steps(s) == s.len(),
    decreases s.len(),
{
    if s.len() > 0 {
        lemma_count_all_copy(s.drop_last());
    }
}

proof fn lemma_count_no_copy(s: Seq<StepView>)
    requires
        forall|i: int| 0 <= i < s.len() ==> !(s[i] is CopyStep),
    ensures
        spec_count_copy_steps(s) == 0,
    decreases s.len(),
{
    if s.len() > 0 {
        lemma_count_no_copy(s.drop_last());
    }
}

/// For N declared copy entries the plan holds exactly N copy steps: one
/// copy command is issued per entry, no more and no fewer.
pub proof fn lemma_copy_step_count(m: BuildManifestView)
    ensures
        spec_count_copy_steps(spec_plan(m)) == m.copies.len(),
{
    let head = spec_steps_head(m);
    let copies = spec_steps_copies(m);
    let mounts = spec_steps_mounts(m);
    let mid = spec_steps_mid_restart(m);
    let runs = spec_steps_runs(m);
    let limits = spec_steps_limits(m);
    let fin = spec_steps_final_restart(m);
    lemma_count_no_copy(head);
    lemma_count_all_copy(copies);
    lemma_count_no_copy(mounts);
    lemma_count_no_copy(mid);
    lemma_count_no_copy(runs);
    lemma_count_no_copy(limits);
    lemma_count_no_copy(fin);
    lemma_count_concat(head, copies);
    lemma_count_concat(head + copies, mounts);
    lemma_count_concat(head + copies + mounts, mid);
    lemma_count_concat(head + copies + mounts + mid, runs);
    lemma_count_concat(head + copies + mounts + mid + runs, limits);
    lemma_count_concat(head + copies + mounts + mid + runs + limits, fin);
}

/// Location decomposition is exact: a bare location is the whole string,
/// colon-free; an `instance:path` location reassembles to the whole
/// location, with a colon-free name.
pub proof fn lemma_decompose_exact(loc: Seq<char>)
    ensures
        match spec_decompose(loc) {
            LocationView::Bare(p) => p == loc && !spec_contains_char(loc, ':'),
            LocationView::Instance { name, rel } => loc =~= name + ":"@ + rel
                && !spec_contains_char(name, ':'),
        },
{
    lemma_find_characterizes(loc, ':');
    let i = spec_find(loc, ':');
    if i != -1 {
        reveal_strlit(":");
        assert(":"@ =~= seq![':']);
        assert(loc =~= loc.take(i) + ":"@ + loc.skip(i + 1));
        assert forall|j: int| 0 <= j < loc.take(i).len() implies loc.take(i)[j] != ':' by {
            assert(loc.take(i)[j] == loc[j]);
        }
    }
}

/// Resolving a copy step's source: a source naming an instance is
/// completed with that instance's rootfs followed by the relative path,
/// and the destination is then taken up with that resolved source.
pub proof fn lemma_resolved_source_uses_rootfs(s: BuildView, p: Seq<char>)
    requires
        s.status is Running,
        s.phase is AwaitSrc,
        s.pos < s.steps.len(),
    ensures
        ({
            match s.steps[s.pos as int] {
                StepView::CopyStep { source, destination, archive, follow_link } => {
                    match spec_decompose(source) {
                        LocationView::Instance { name, rel } => {
                            let (ph, a) = spec_dst_parts(destination, p + rel, archive,
                                follow_link);
                            spec_next(s, EventView::Resolved(RootfsResultView::Path(p))) == (
                                BuildView { phase: ph, ..s },
                                a,
                            )
                        },
                        LocationView::Bare(_) => true,
                    }
                },
                _ => true,
            }
        }),
{
}

/// Resolving a copy step's destination: a destination naming an instance
/// is completed with that instance's rootfs followed by the relative
/// path; a bare destination is used unchanged; either way the emitted
/// copy command carries exactly the resolved source and destination.
pub proof fn lemma_copy_command_uses_resolved_paths(s: BuildView, p: Seq<char>)
    requires
        s.status is Running,
        s.phase matches PhaseView::AwaitDst { .. },
        s.pos < s.steps.len(),
        s.steps[s.pos as int] is CopyStep,
    ensures
        ({
            let src = match s.phase {
                PhaseView::AwaitDst { source } => source,
                _ => Seq::empty(),
            };
            match s.steps[s.pos as int] {
                StepView::CopyStep { destination, archive, follow_link, .. } => {
                    match spec_decompose(destination) {
                        LocationView::Instance { name, rel } => spec_next(
                            s,
                            EventView::Resolved(RootfsResultView::Path(p)),
                        ).1 == ActionView::Exec(
                            crate::manage::spec_copy_cmd(
                                crate::args::CopyArgsView {
                                    source: src,
                                    destination: p + rel,
                                    archive,
                                    follow_link,
                                },
                            ),
                        ),
                        LocationView::Bare(_) => true,
                    }
                },
                _ => true,
            }
        }),
{
}

/// The entrypoint step stands second in the plan exactly when the
/// manifest declares an entrypoint, carrying the script path, the
/// shebang-prefixed content, and the all-read-and-execute mode.
pub proof fn lemma_entrypoint_planned(m: BuildManifestView)
    ensures
        match m.entrypoint {
            Some(body) => spec_plan(m)[1] == (StepView::EntrypointStep {
                path: spec_entry_path(m),
                content: spec_entry_content(body),
                mode: 0o555,
            }),
            None => true,
        },
{
    match m.entrypoint {
        Some(body) => {
            let head = spec_steps_head(m);
            assert(head[1] == StepView::EntrypointStep {
                path: spec_entry_path(m),
                content: spec_entry_content(body),
                mode: 0o555,
            });
            assert(spec_plan(m)[1] == head[1]);
        },
        None => {},
    }
}

/// Issuing an entrypoint step demands an exclusive create: the action
/// carries the step's path, content and mode, and its contract is to
/// fail without overwriting when the file already exists.
pub proof fn lemma_entrypoint_action(s: BuildView)
    requires
        s.pos < s.steps.len(),
    ensures
        ({
            match s.steps[s.pos as int] {
                StepView::EntrypointStep { path, content, mode } => spec_issue(s)
                    == (
                    BuildView { phase: PhaseView::AwaitStep, ..s },
                    ActionView::CreateExclusive { path, content, mode },
                ),
                _ => true,
            }
        }),
{
}

/// The limit phase translates each key exactly: every underscore becomes
/// a dot, and nothing else changes.
pub proof fn lemma_limit_key_dotted(k: Seq<char>)
    ensures
        spec_replace_char(k, '_', '.').len() == k.len(),
        forall|i: int|
            0 <= i < k.len() ==> spec_replace_char(k, '_', '.')[i] == (if k[i] == '_' {
                '.'
            } else {
                k[i]
            }),
{
}

/// Where the limit phase begins in the plan.
pub open spec fn spec_limit_phase_start(m: BuildManifestView) -> int {
    spec_steps_head(m).len() + spec_steps_copies(m).len() + spec_steps_mounts(m).len()
        + spec_steps_mid_restart(m).len() + spec_steps_runs(m).len() as int
}

/// The i-th limit step applies the i-th declared limit entry, its key
/// translated to dotted form, through the configure verb.
pub proof fn lemma_limit_steps_in_order(m: BuildManifestView, i: int)
    requires
        0 <= i < m.limits.len(),
    ensures
        spec_plan(m)[spec_limit_phase_start(m) + i] == (StepView::LimitStep {
            cmd: spec_limit_cmd(m.name, m.limits[i]),
        }),
{
    let head = spec_steps_head(m);
    let copies = spec_steps_copies(m);
    let mounts = spec_steps_mounts(m);
    let mid = spec_steps_mid_restart(m);
    let runs = spec_steps_runs(m);
    let limits = spec_steps_limits(m);
    let k = spec_limit_phase_start(m) + i;
    assert(spec_steps_limits(m)[i] == StepView::LimitStep {
        cmd: spec_limit_cmd(m.name, m.limits[i]),
    });
    assert((head + copies + mounts + mid + runs + limits)[k] == limits[i]);
    assert(spec_plan(m)[k] == (head + copies + mounts + mid + runs + limits)[k]);
}

/// The error a failed status carries.
pub open spec fn spec_status_error(st: BuildStatus) -> BuildError {
    match st {
        BuildStatus::Failed(e) => e,
        _ => BuildError { step: 0, kind: StepErrorKind::Execution },
    }
}

/// A failed build is terminal: whatever event arrives, the state does
/// not change and the same failure is reported again.
pub proof fn lemma_failed_is_terminal(s: BuildView, e: EventView)
    requires
        s.status is Failed,
    ensures
        spec_next(s, e).0 == s,
        spec_next(s, e).1 == ActionView::Failed(spec_status_error(s.status)),
{
}

/// A step failure aborts the build at once: the machine's status turns
/// to a failure naming the current step, the reported cause matches the
/// failing step's kind, and the returned action is that failure.
pub proof fn lemma_failure_aborts(s: BuildView, e: EventView)
    requires
        s.status is Running,
        e is Failed,
        s.phase is AwaitStep || s.phase is AwaitMountDir,
    ensures
        ({
            let (s2, a) = spec_next(s, e);
            let kind = if s.phase is AwaitStep {
                spec_step_error_kind(s.steps[s.pos as int])
            } else {
                StepErrorKind::FileSystem
            };
            let err = BuildError { step: s.pos, kind };
            &&& s2.status == BuildStatus::Failed(err)
            &&& a == ActionView::Failed(err)
        }),
{
}

/// The actions a build emits for a sequence of events, in order.
pub open spec fn spec_run_events(s: BuildView, events: Seq<EventView>) -> Seq<ActionView>
    decreases events.len(),
{
    if events.len() == 0 {
        Seq::empty()
    } else {
        seq![spec_next(s, events[0]).1] + spec_run_events(
            spec_next(s, events[0]).0,
            events.skip(1),
        )
    }
}

/// On an all-success trace a manifest with empty sections and no
/// entrypoint executes exactly create, start, stop, start, and the
/// build then reports itself done.
pub proof fn lemma_minimal_build_trace(m: BuildManifestView)
    requires
        m.copies.len() == 0,
        m.shared.len() == 0,
        m.runs.len() == 0,
        m.limits.len() == 0,
        m.entrypoint is None,
    ensures
        spec_run_events(
            spec_init(spec_plan(m)),
            seq![
                EventView::Begin,
                EventView::Succeeded,
                EventView::Succeeded,
                EventView::Succeeded,
                EventView::Succeeded,
            ],
        ) =~= seq![
            ActionView::Exec(spec_plan_create_cmd(m)),
            ActionView::Exec(spec_bare_start_cmd(m.name)),
            ActionView::Exec(spec_bare_stop_cmd(m.name)),
            ActionView::Exec(spec_bare_start_cmd(m.name)),
            ActionView::Done,
        ],
{
    lemma_minimal_plan(m);
    let evs = seq![
        EventView::Begin,
        EventView::Succeeded,
        EventView::Succeeded,
        EventView::Succeeded,
        EventView::Succeeded,
    ];
    let s0 = spec_init(spec_plan(m));
    let r0 = spec_next(s0, evs[0]);
    let e1 = evs.skip(1);
    let r1 = spec_next(r0.0, e1[0]);
    let e2 = e1.skip(1);
    let r2 = spec_next(r1.0, e2[0]);
    let e3 = e2.skip(1);
    let r3 = spec_next(r2.0, e3[0]);
    let e4 = e3.skip(1);
    let r4 = spec_next(r3.0, e4[0]);
    let e5 = e4.skip(1);
    assert(e1 =~= seq![
        EventView::Succeeded,
        EventView::Succeeded,
        EventView::Succeeded,
        EventView::Succeeded,
    ]);
    assert(e2 =~= seq![EventView::Succeeded, EventView::Succeeded, EventView::Succeeded]);
    assert(e3 =~= seq![EventView::Succeeded, EventView::Succeeded]);
    assert(e4 =~= seq![EventView::Succeeded]);
    assert(e5 =~= Seq::<EventView>::empty());
    assert(r0.1 == ActionView::Exec(spec_plan_create_cmd(m)));
    assert(r1.1 == ActionView::Exec(spec_bare_start_cmd(m.name)));
    assert(r2.1 == ActionView::Exec(spec_bare_stop_cmd(m.name)));
    assert(r3.1 == ActionView::Exec(spec_bare_start_cmd(m.name)));
    assert(r4.1 == ActionView::Done);
    assert(spec_run_events(s0, evs) =~= seq![r0.1] + spec_run_events(r0.0, e1));
    assert(spec_run_events(r0.0, e1) =~= seq![r1.1] + spec_run_events(r1.0, e2));
    assert(spec_run_events(r1.0, e2) =~= seq![r2.1] + spec_run_events(r2.0, e3));
    assert(spec_run_events(r2.0, e3) =~= seq![r3.1] + spec_run_events(r3.0, e4));
    assert(spec_run_events(r3.0, e4) =~= seq![r4.1] + spec_run_events(r4.0, e5));
    assert(spec_run_events(r4.0, e5) =~= Seq::<ActionView>::empty());
}

/// After a failure no later phase executes: from a failed state, every
/// event of every further sequence is answered with the same failure,
/// and never with a command, file write, or query.
pub proof fn lemma_no_actions_after_failure(s: BuildView, events: Seq<EventView>)
    requires
        s.status is Failed,
    ensures
        spec_run_events(s, events).len() == events.len(),
        forall|k: int|
            0 <= k < events.len() ==> spec_run_events(s, events)[k] == ActionView::Failed(
                spec_status_error(s.status),
            ),
    decreases events.len(),
{
    if events.len() > 0 {
        lemma_failed_is_terminal(s, events[0]);
        lemma_no_actions_after_failure(s, events.skip(1));
        assert forall|k: int| 0 <= k < events.len() implies spec_run_events(s, events)[k]
            == ActionView::Failed(spec_status_error(s.status)) by {
            if k > 0 {
                assert(spec_run_events(s, events)[k] == spec_run_events(s, events.skip(1))[k - 1]);
            }
        }
    }
}

} // verus!
