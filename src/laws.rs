//! What holds of whole runs of the status probe and of operation plans.
use vstd::prelude::*;
use crate::app::{is_collision_check, is_command, is_copy, is_removal, App};
use crate::error::AppError;
use crate::manager::Batch;
use crate::plan::{OnFailure, Op, Plan, RunState, Runner};
use crate::probe::{Stage, StatusProbe};
use crate::status::{status_of, AppStatus};

verus! {

/// Once the status is known, further answers change nothing.
pub proof fn lemma_probe_known_stays(p: StatusProbe, answers: Seq<bool>)
    requires
        p.stage is Known,
    ensures
        p.run(answers) == p,
    decreases answers.len(),
{
    if answers.len() > 0 {
        lemma_probe_known_stays(p.after(answers[0]), answers.drop_first());
    }
}

/// A probe of a non-empty manifest whose first file is missing (as it is
/// when none of the files is installed) reports "not installed", whatever
/// the service manager would have answered.
pub proof fn lemma_absent_files_not_installed(p: StatusProbe, answers: Seq<bool>)
    requires
        p.wf(),
        p.stage == Stage::Files,
        answers.len() > 0,
        !answers[0],
    ensures
        p.run(answers).stage == Stage::Known(AppStatus::NotInstalled),
{
    lemma_probe_known_stays(p.after(answers[0]), answers.drop_first());
}

/// When every remaining file is present, the probe reports what the two
/// service queries decide: running when active (enabled or not), stopped
/// when only enabled, installed when neither.
pub proof fn lemma_present_files_status(
    p: StatusProbe,
    answers: Seq<bool>,
    active: bool,
    enabled: bool,
)
    requires
        p.wf(),
        p.stage == Stage::Files || (p.stage == Stage::Active && p.checked == p.targets@.len()),
        answers.len() >= p.targets@.len() - p.checked + 2,
        forall|i: int| 0 <= i < p.targets@.len() - p.checked ==> answers[i],
        answers[p.targets@.len() - p.checked] == active,
        answers[p.targets@.len() - p.checked + 1] == enabled,
    ensures
        p.run(answers).stage == Stage::Known(status_of(true, active, enabled)),
    decreases answers.len(),
{
    let q = p.after(answers[0]);
    let rest = answers.drop_first();
    if p.stage == Stage::Files {
        assert(answers[0]);
        assert forall|i: int| 0 <= i < q.targets@.len() - q.checked implies rest[i] by {
            assert(rest[i] == answers[i + 1]);
        }
        assert(rest[q.targets@.len() - q.checked] == answers[p.targets@.len() - p.checked]);
        assert(rest[q.targets@.len() - q.checked + 1] == answers[p.targets@.len() - p.checked + 1]);
        lemma_present_files_status(q, rest, active, enabled);
    } else if active {
        assert(answers[0] == active);
        lemma_probe_known_stays(q, rest);
    } else {
        assert(answers[0] == active);
        assert(rest[0] == enabled);
        assert(q.run(rest) == q.after(rest[0]).run(rest.drop_first()));
        lemma_probe_known_stays(q.after(rest[0]), rest.drop_first());
    }
}

/// A run that has stopped stays where it is.
pub proof fn lemma_run_stopped_stays(r: Runner, outcomes: Seq<bool>)
    requires
        r.state != RunState::Running,
    ensures
        r.run(outcomes) == r,
    decreases outcomes.len(),
{
    if outcomes.len() > 0 {
        lemma_run_stopped_stays(r.after(outcomes[0]), outcomes.drop_first());
    }
}

/// Steps that succeed, or whose failure is swallowed, move the run forward
/// one step each.
pub proof fn lemma_run_advances(r: Runner, outcomes: Seq<bool>)
    requires
        r.wf(),
        r.state == RunState::Running,
        r.pos + outcomes.len() <= r.plan.steps@.len(),
        forall|i: int|
            0 <= i < outcomes.len() ==> outcomes[i] || r.plan.steps@[r.pos + i].on_failure is Ignore,
    ensures
        r.run(outcomes).pos == r.pos + outcomes.len(),
        r.run(outcomes).plan == r.plan,
        r.run(outcomes).state == (if r.pos + outcomes.len() == r.plan.steps@.len() {
            RunState::Done
        } else {
            RunState::Running
        }),
    decreases outcomes.len(),
{
    if outcomes.len() > 0 {
        let q = r.after(outcomes[0]);
        let rest = outcomes.drop_first();
        assert(outcomes[0] || r.plan.steps@[r.pos + 0].on_failure is Ignore);
        if q.state == RunState::Running {
            assert forall|i: int|
                0 <= i < rest.len() implies rest[i] || q.plan.steps@[q.pos + i].on_failure is Ignore by {
                assert(rest[i] == outcomes[i + 1]);
                assert(outcomes[i + 1] || r.plan.steps@[r.pos + (i + 1)].on_failure is Ignore);
            }
            lemma_run_advances(q, rest);
        } else {
            lemma_run_stopped_stays(q, rest);
        }
    }
}

/// A dry run performs no step, whatever outcomes would be reported.
pub proof fn lemma_dry_run_performs_nothing(plan: Plan, outcomes: Seq<bool>)
    requires
        plan.dry_run,
    ensures
        Runner::start(plan).state == RunState::Done,
        Runner::start(plan).run(outcomes) == Runner::start(plan),
{
    lemma_run_stopped_stays(Runner::start(plan), outcomes);
}

/// Without overwriting, an install whose collision check finds the target
/// of entry `k` present fails with a collision on that path, and every step
/// performed up to then was a collision check: no file was copied.
pub proof fn lemma_collision_copies_nothing(
    app: App,
    m: Seq<Seq<char>>,
    plan: Plan,
    outcomes: Seq<bool>,
    k: int,
)
    requires
        app.install_steps(m, false, plan.steps@),
        !plan.dry_run,
        plan.steps@.len() <= usize::MAX,
        0 <= k < m.len(),
        outcomes.len() > k,
        forall|i: int| 0 <= i < k ==> outcomes[i],
        !outcomes[k],
    ensures
        ({
            let end = Runner::start(plan).run(outcomes);
            &&& end.state == RunState::Failed(k as usize)
            &&& forall|i: int| 0 <= i <= k ==> (#[trigger] plan.steps@[i]).op is Absent
            &&& match end.plan.steps@[k].on_failure {
                OnFailure::Abort(AppError::Collision { path }) => path@ == app.target_of(m[k]),
                _ => false,
            }
        }),
{
    let r = Runner::start(plan);
    let pre = outcomes.take(k);
    let post = outcomes.skip(k);
    assert(outcomes == pre + post);
    lemma_run_concat(r, pre, post);
    lemma_run_advances(r, pre);
    let mid = r.run(pre);
    assert(is_collision_check(plan.steps@[k], app.target_of(m[k])));
    assert(post[0] == outcomes[k]);
    lemma_run_stopped_stays(mid.after(post[0]), post.drop_first());
    assert forall|i: int| 0 <= i <= k implies (#[trigger] plan.steps@[i]).op is Absent by {
        assert(is_collision_check(plan.steps@[i], app.target_of(m[i])));
    }
}

/// Running outcomes `a` then `b` is running `a + b`.
pub proof fn lemma_run_concat(r: Runner, a: Seq<bool>, b: Seq<bool>)
    ensures
        r.run(a + b) == r.run(a).run(b),
    decreases a.len(),
{
    if a.len() > 0 {
        assert((a + b).drop_first() == a.drop_first() + b);
        lemma_run_concat(r.after(a[0]), a.drop_first(), b);
    } else {
        assert(a + b == b);
    }
}

/// A forced install checks for no collision: every file is copied over
/// whatever is there, and when every step succeeds the run ends after the
/// unit's start.
pub proof fn lemma_forced_install_starts(
    app: App,
    m: Seq<Seq<char>>,
    plan: Plan,
    outcomes: Seq<bool>,
)
    requires
        app.install_steps(m, true, plan.steps@),
        !plan.dry_run,
        plan.steps@.len() <= usize::MAX,
        outcomes.len() == plan.steps@.len(),
        forall|i: int| 0 <= i < outcomes.len() ==> outcomes[i],
    ensures
        forall|i: int| 0 <= i < plan.steps@.len() ==> !((#[trigger] plan.steps@[i]).op is Absent),
        Runner::start(plan).run(outcomes).state == RunState::Done,
        Runner::start(plan).run(outcomes).pos == plan.steps@.len(),
{
    assert forall|i: int| 0 <= i < plan.steps@.len() implies !((#[trigger] plan.steps@[i]).op is Absent) by {
        if i < m.len() {
            assert(is_copy(plan.steps@[i], app.source_of(m[i]), app.target_of(m[i])));
        } else if i == m.len() {
            assert(is_command(plan.steps@[i], app.reload_args(), false));
        } else {
            assert(is_command(plan.steps@[i], app.start_args(), false));
        }
    }
    lemma_run_advances(Runner::start(plan), outcomes);
}

/// An uninstall whose confirmation is refused stops, successfully, before
/// any other step.
pub proof fn lemma_refused_uninstall_does_nothing(
    app: App,
    m: Seq<Seq<char>>,
    plan: Plan,
    outcomes: Seq<bool>,
)
    requires
        app.uninstall_steps(m, false, plan.steps@),
        !plan.dry_run,
        plan.steps@.len() <= usize::MAX,
        outcomes.len() > 0,
        !outcomes[0],
    ensures
        Runner::start(plan).run(outcomes).state == RunState::Cancelled,
        Runner::start(plan).run(outcomes).pos == 0,
{
    let r = Runner::start(plan);
    lemma_run_stopped_stays(r.after(outcomes[0]), outcomes.drop_first());
}

/// Once confirmed (or forced), an uninstall performs its stop and every
/// removal whatever they report, and then the reload is due.
pub proof fn lemma_uninstall_reaches_reload(
    app: App,
    m: Seq<Seq<char>>,
    force: bool,
    plan: Plan,
    outcomes: Seq<bool>,
)
    requires
        app.uninstall_steps(m, force, plan.steps@),
        !plan.dry_run,
        plan.steps@.len() <= usize::MAX,
        outcomes.len() == plan.steps@.len() - 1,
        !force ==> outcomes[0],
    ensures
        Runner::start(plan).run(outcomes).state == RunState::Running,
        Runner::start(plan).run(outcomes).pos == plan.steps@.len() - 1,
        match Runner::start(plan).run(outcomes).plan.steps@[plan.steps@.len() - 1].op {
            Op::Systemctl { args } => true,
            _ => false,
        },
{
    let k: int = if force { 0 } else { 1 };
    assert forall|i: int|
        0 <= i < outcomes.len() implies outcomes[i] || plan.steps@[i].on_failure is Ignore by {
        if i >= k + 1 {
            assert(is_removal(plan.steps@[i], app.target_of(m[i - k - 1])));
        } else if i == k {
            assert(is_command(plan.steps@[k], app.stop_args(), true));
        }
    }
    lemma_run_advances(Runner::start(plan), outcomes);
}

/// In a batch, the first application whose operation fails ends the run:
/// no later application is operated on.
pub proof fn lemma_batch_stops_at_failure(b: Batch, outcomes: Seq<bool>, k: int)
    requires
        b.wf(),
        !b.failed,
        b.loaded == b.names@.len(),
        b.names@.len() <= usize::MAX,
        0 <= k < outcomes.len(),
        b.pos + k < b.names@.len(),
        forall|i: int| 0 <= i < k ==> outcomes[i],
        !outcomes[k],
    ensures
        b.run(outcomes).failed,
        b.run(outcomes).pos == b.pos + k,
        !b.run(outcomes).is_due(),
    decreases k,
{
    let q = b.after(outcomes[0]);
    let rest = outcomes.drop_first();
    if k == 0 {
        lemma_batch_stopped_stays(q, rest);
    } else {
        assert(outcomes[0]);
        assert forall|i: int| 0 <= i < k - 1 implies rest[i] by {
            assert(rest[i] == outcomes[i + 1]);
        }
        assert(rest[k - 1] == outcomes[k]);
        lemma_batch_stops_at_failure(q, rest, k - 1);
    }
}

/// A failed batch stays as it is.
pub proof fn lemma_batch_stopped_stays(b: Batch, outcomes: Seq<bool>)
    requires
        b.failed,
    ensures
        b.run(outcomes) == b,
    decreases outcomes.len(),
{
    if outcomes.len() > 0 {
        lemma_batch_stopped_stays(b.after(outcomes[0]), outcomes.drop_first());
    }
}

/// An application that fails to load ends the batch before any
/// application is operated on, whatever the later outcomes.
pub proof fn lemma_failed_load_operates_on_nothing(b: Batch, outcomes: Seq<bool>)
    requires
        b.wf(),
        b.is_loading(),
    ensures
        b.after_load(false).failed,
        b.after_load(false).run(outcomes).pos == 0,
        !b.after_load(false).run(outcomes).is_due(),
{
    lemma_batch_stopped_stays(b.after_load(false), outcomes);
}

} // verus!
