use vstd::prelude::*;
use crate::error::AppError;
use crate::paths::{concat, join_path, joined, owned, views};
use crate::plan::{OnFailure, Op, Plan, Step};

verus! {

/// The two settings an application's configuration file provides.
pub struct AppConfig {
    /// Directory where the service manager expects the unit files.
    pub install_location: String,
    /// Whether the per-user service-manager instance is meant.
    pub use_user: bool,
}

/// One entry found under an application's source directory, by its path
/// relative to that directory.
pub struct SourceEntry {
    pub rel: String,
    pub is_dir: bool,
}

/// One application: its name, where its files come from and where they go.
pub struct App {
    pub name: String,
    /// The application's own file tree.
    pub app_dir: String,
    /// Where its files are installed.
    pub systemd_dir: String,
    /// Per-user rather than system-wide service manager.
    pub use_user: bool,
}

/// Name of the configuration file at the top of an application's tree.
pub open spec fn config_file_name() -> Seq<char> {
    "config.toml"@
}

/// Whether a walked entry belongs to the manifest: a file, and not the
/// configuration file.
pub open spec fn in_manifest(e: SourceEntry) -> bool {
    !e.is_dir && e.rel@ != config_file_name()
}

/// The manifest of a walk: the relative paths of its manifest entries, in
/// walk order.
pub open spec fn manifest_of(entries: Seq<SourceEntry>) -> Seq<Seq<char>>
    decreases entries.len(),
{
    if entries.len() == 0 {
        Seq::empty()
    } else {
        let rest = manifest_of(entries.drop_last());
        if in_manifest(entries.last()) {
            rest.push(entries.last().rel@)
        } else {
            rest
        }
    }
}

/// Arguments to the service manager, with per-user scoping put first.
pub open spec fn scoped(use_user: bool, args: Seq<Seq<char>>) -> Seq<Seq<char>> {
    if use_user {
        seq!["--user"@] + args
    } else {
        args
    }
}

/// A step that fails the operation with a collision when `path` exists.
pub open spec fn is_collision_check(s: Step, path: Seq<char>) -> bool {
    match (s.op, s.on_failure) {
        (Op::Absent { path: p }, OnFailure::Abort(AppError::Collision { path: q })) => p@ == path
            && q@ == path,
        _ => false,
    }
}

/// A step that copies `from` to `to` and fails the operation if it cannot.
pub open spec fn is_copy(s: Step, from: Seq<char>, to: Seq<char>) -> bool {
    match (s.op, s.on_failure) {
        (Op::Copy { from: f, to: t }, OnFailure::Abort(AppError::Copy { from: f2, to: t2 })) => f@
            == from && t@ == to && f2@ == from && t2@ == to,
        _ => false,
    }
}

/// A step that removes `path`, with its failure swallowed.
pub open spec fn is_removal(s: Step, path: Seq<char>) -> bool {
    match (s.op, s.on_failure) {
        (Op::Remove { path: p }, OnFailure::Ignore) => p@ == path,
        _ => false,
    }
}

/// A service-manager step with `args`, and what its failure does.
pub open spec fn is_command(s: Step, args: Seq<Seq<char>>, swallowed: bool) -> bool {
    match s.op {
        Op::Systemctl { args: a } => views(a@) == args && if swallowed {
            s.on_failure is Ignore
        } else {
            match s.on_failure {
                OnFailure::Abort(AppError::ServiceCommand { command }) => command@ == args.last(),
                _ => false,
            }
        },
        _ => false,
    }
}

/// A step that asks the operator to confirm, and cancels when refused.
pub open spec fn is_confirmation(s: Step, app: Seq<char>) -> bool {
    match (s.op, s.on_failure) {
        (Op::Confirm { prompt }, OnFailure::Cancel) => prompt@ == "Are you sure you want to uninstall "@
            + app + "?"@,
        _ => false,
    }
}

/// The error an operation gets for an application with no files.
pub open spec fn is_empty_manifest(e: AppError, app: Seq<char>) -> bool {
    match e {
        AppError::EmptyManifest { app: a } => a@ == app,
        _ => false,
    }
}

/// A service-manager step whose failure is swallowed or is an error naming
/// the subcommand's last argument.
fn command_step(args: Vec<String>, swallowed: bool) -> (r: Step)
    requires
        args@.len() > 0,
    ensures
        is_command(r, views(args@), swallowed),
{
    let n = args.len();
    let last = args[n - 1].clone();
    let on_failure = if swallowed {
        OnFailure::Ignore
    } else {
        OnFailure::Abort(AppError::ServiceCommand { command: last })
    };
    Step { op: Op::Systemctl { args }, on_failure }
}

impl App {
    /// Where the manifest entry `rel` is read from.
    pub open spec fn source_of(&self, rel: Seq<char>) -> Seq<char> {
        joined(self.app_dir@, rel)
    }

    /// Where the manifest entry `rel` is installed.
    pub open spec fn target_of(&self, rel: Seq<char>) -> Seq<char> {
        joined(self.systemd_dir@, rel)
    }

    /// The application's primary unit.
    pub open spec fn unit(&self) -> Seq<char> {
        self.name@ + ".service"@
    }

    pub open spec fn reload_args(&self) -> Seq<Seq<char>> {
        scoped(self.use_user, seq!["daemon-reload"@])
    }

    pub open spec fn start_args(&self) -> Seq<Seq<char>> {
        scoped(self.use_user, seq!["start"@, self.unit()])
    }

    pub open spec fn stop_args(&self) -> Seq<Seq<char>> {
        scoped(self.use_user, seq!["stop"@, self.unit()])
    }

    /// The steps of a real install of manifest `m`: when overwriting is not
    /// permitted, a collision check of every target before anything else;
    /// then a copy of every file; then a reload and a start of the unit.
    pub open spec fn install_steps(&self, m: Seq<Seq<char>>, force: bool, steps: Seq<Step>) -> bool {
        let k: int = if force { 0 } else { m.len() as int };
        &&& steps.len() == k + m.len() + 2
        &&& forall|i: int| 0 <= i < k ==> is_collision_check(#[trigger] steps[i], self.target_of(m[i]))
        &&& forall|i: int|
            k <= i < k + m.len() ==> is_copy(
                #[trigger] steps[i],
                self.source_of(m[i - k]),
                self.target_of(m[i - k]),
            )
        &&& is_command(steps[k + m.len()], self.reload_args(), false)
        &&& is_command(steps[k + m.len() + 1], self.start_args(), false)
    }

    /// The steps of a real uninstall of manifest `m`: a confirmation unless
    /// forced; a best-effort stop; a best-effort removal of every target;
    /// then a reload, whose failure is an error.
    pub open spec fn uninstall_steps(&self, m: Seq<Seq<char>>, force: bool, steps: Seq<Step>) -> bool {
        let k = if force { 0int } else { 1int };
        &&& steps.len() == k + m.len() + 2
        &&& !force ==> is_confirmation(steps[0], self.name@)
        &&& is_command(steps[k], self.stop_args(), true)
        &&& forall|i: int|
            k + 1 <= i < k + 1 + m.len() ==> is_removal(#[trigger] steps[i], self.target_of(m[i - k - 1]))
        &&& is_command(steps[k + m.len() + 1], self.reload_args(), false)
    }

    /// Builds an application from its name, the fleet root and its
    /// configuration.
    pub fn new(name: &str, repo_dir: &String, config: AppConfig) -> (r: App)
        ensures
            r.name@ == name@,
            r.app_dir@ == joined(repo_dir@, name@),
            r.systemd_dir@ == config.install_location@,
            r.use_user == config.use_user,
    {
        let name = owned(name);
        let app_dir = join_path(repo_dir, &name);
        App { name, app_dir, systemd_dir: config.install_location, use_user: config.use_user }
    }

    /// The manifest of a walk of the source directory.
    pub fn get_app_files(entries: &Vec<SourceEntry>) -> (r: Vec<String>)
        ensures
            views(r@) == manifest_of(entries@),
    {
        let config = owned("config.toml");
        let mut files: Vec<String> = Vec::new();
        let mut i: usize = 0;
        while i < entries.len()
            invariant
                i <= entries@.len(),
                config@ == config_file_name(),
                views(files@) == manifest_of(entries@.take(i as int)),
            decreases entries@.len() - i,
        {
            let e = &entries[i];
            assert(entries@.take(i + 1).drop_last() == entries@.take(i as int));
            if !e.is_dir && e.rel != config {
                files.push(e.rel.clone());
            }
            proof {
                assert(views(files@) =~= manifest_of(entries@.take(i + 1)));
            }
            i += 1;
        }
        assert(entries@.take(entries@.len() as int) == entries@);
        files
    }

    /// Puts per-user scoping in front of service-manager arguments.
    pub fn prepare_systemctl_args(&self, args: Vec<String>) -> (r: Vec<String>)
        ensures
            views(r@) == scoped(self.use_user, views(args@)),
    {
        let mut args = args;
        if self.use_user {
            let ghost before = args@;
            args.insert(0, owned("--user"));
            assert(views(args@) =~= seq!["--user"@] + views(before));
        }
        args
    }

    /// The application's primary unit name.
    pub fn service_name(&self) -> (r: String)
        ensures
            r@ == self.unit(),
    {
        concat(&self.name, ".service")
    }

    /// Service-manager arguments: `first`, then the unit when `with_unit`.
    fn unit_args(&self, first: &str, with_unit: bool) -> (r: Vec<String>)
        ensures
            views(r@) == scoped(
                self.use_user,
                if with_unit {
                    seq![first@, self.unit()]
                } else {
                    seq![first@]
                },
            ),
            r@.len() > 0,
    {
        let mut a: Vec<String> = Vec::new();
        a.push(owned(first));
        if with_unit {
            a.push(self.service_name());
        }
        let ghost plain = a@;
        let r = self.prepare_systemctl_args(a);
        assert(views(plain) =~= if with_unit {
            seq![first@, self.unit()]
        } else {
            seq![first@]
        });
        assert(views(r@).len() == r@.len());
        r
    }

    fn empty_manifest_error(&self) -> (e: AppError)
        ensures
            is_empty_manifest(e, self.name@),
    {
        AppError::EmptyManifest { app: self.name.clone() }
    }

    /// Plans an install of `manifest`. An empty manifest is refused; a dry
    /// run carries the steps that a real run would perform.
    pub fn install(&self, manifest: &Vec<String>, dry_run: bool, force: bool) -> (r: Result<
        Plan,
        AppError,
    >)
        ensures
            r is Err <==> manifest@.len() == 0,
            r is Err ==> is_empty_manifest(r->Err_0, self.name@),
            r is Ok ==> r->Ok_0.dry_run == dry_run && self.install_steps(
                views(manifest@),
                force,
                r->Ok_0.steps@,
            ),
    {
        let n = manifest.len();
        if n == 0 {
            return Err(self.empty_manifest_error());
        }
        let ghost m = views(manifest@);
        let mut steps: Vec<Step> = Vec::new();
        if !force {
            let mut i: usize = 0;
            while i < n
                invariant
                    n == manifest@.len(),
                    m == views(manifest@),
                    i <= n,
                    steps@.len() == i,
                    forall|j: int| 0 <= j < i ==> is_collision_check(#[trigger] steps@[j], self.target_of(m[j])),
                decreases n - i,
            {
                let t = self.target_path(&manifest[i]);
                let e = AppError::Collision { path: t.clone() };
                steps.push(Step { op: Op::Absent { path: t }, on_failure: OnFailure::Abort(e) });
                i += 1;
            }
        }
        let k = steps.len();
        let mut i: usize = 0;
        while i < n
            invariant
                n == manifest@.len(),
                m == views(manifest@),
                k == (if force { 0 } else { n }),
                i <= n,
                steps@.len() == k + i,
                forall|j: int| 0 <= j < k ==> is_collision_check(#[trigger] steps@[j], self.target_of(m[j])),
                forall|j: int|
                    k <= j < k + i ==> is_copy(
                        #[trigger] steps@[j],
                        self.source_of(m[j - k]),
                        self.target_of(m[j - k]),
                    ),
            decreases n - i,
        {
            let from = self.source_path(&manifest[i]);
            let to = self.target_path(&manifest[i]);
            let e = AppError::Copy { from: from.clone(), to: to.clone() };
            steps.push(Step { op: Op::Copy { from, to }, on_failure: OnFailure::Abort(e) });
            i += 1;
        }
        steps.push(command_step(self.unit_args("daemon-reload", false), false));
        steps.push(command_step(self.unit_args("start", true), false));
        Ok(Plan { dry_run, steps })
    }

    /// Plans an uninstall of `manifest`. An empty manifest is refused; a
    /// dry run carries the steps that a real run would perform.
    pub fn uninstall(&self, manifest: &Vec<String>, dry_run: bool, force: bool) -> (r: Result<
        Plan,
        AppError,
    >)
        ensures
            r is Err <==> manifest@.len() == 0,
            r is Err ==> is_empty_manifest(r->Err_0, self.name@),
            r is Ok ==> r->Ok_0.dry_run == dry_run && self.uninstall_steps(
                views(manifest@),
                force,
                r->Ok_0.steps@,
            ),
    {
        let n = manifest.len();
        if n == 0 {
            return Err(self.empty_manifest_error());
        }
        let ghost m = views(manifest@);
        let mut steps: Vec<Step> = Vec::new();
        if !force {
            let mut prompt = owned("Are you sure you want to uninstall ");
            prompt.append(self.name.as_str());
            prompt.append("?");
            steps.push(Step { op: Op::Confirm { prompt }, on_failure: OnFailure::Cancel });
        }
        steps.push(command_step(self.unit_args("stop", true), true));
        let k = steps.len();
        let mut i: usize = 0;
        while i < n
            invariant
                n == manifest@.len(),
                m == views(manifest@),
                k == (if force { 1int } else { 2int }),
                i <= n,
                steps@.len() == k + i,
                !force ==> is_confirmation(steps@[0], self.name@),
                is_command(steps@[k - 1], self.stop_args(), true),
                forall|j: int| k <= j < k + i ==> is_removal(#[trigger] steps@[j], self.target_of(m[j - k])),
            decreases n - i,
        {
            let t = self.target_path(&manifest[i]);
            steps.push(Step { op: Op::Remove { path: t }, on_failure: OnFailure::Ignore });
            i += 1;
        }
        steps.push(command_step(self.unit_args("daemon-reload", false), false));
        Ok(Plan { dry_run, steps })
    }

    /// Arguments to the log-follow facility for the primary unit, scoped
    /// like every other service-manager call.
    pub fn logs(&self) -> (r: Vec<String>)
        ensures
            views(r@) == scoped(self.use_user, seq!["-u"@, self.unit(), "-f"@]),
    {
        let mut a: Vec<String> = Vec::new();
        a.push(owned("-u"));
        a.push(self.service_name());
        a.push(owned("-f"));
        assert(views(a@) =~= seq!["-u"@, self.unit(), "-f"@]);
        self.prepare_systemctl_args(a)
    }

    /// The outcome of following the logs, from whether the facility exited
    /// successfully.
    pub fn logs_outcome(&self, exited_ok: bool) -> (r: Result<(), AppError>)
        ensures
            r is Ok <==> exited_ok,
            r is Err ==> (match r->Err_0 {
                AppError::Logs { app } => app@ == self.name@,
                _ => false,
            }),
    {
        if exited_ok {
            Ok(())
        } else {
            Err(AppError::Logs { app: self.name.clone() })
        }
    }

    /// Where the manifest entry `rel` is read from.
    pub fn source_path(&self, rel: &String) -> (r: String)
        ensures
            r@ == self.source_of(rel@),
    {
        join_path(&self.app_dir, rel)
    }

    /// Where the manifest entry `rel` is installed.
    pub fn target_path(&self, rel: &String) -> (r: String)
        ensures
            r@ == self.target_of(rel@),
    {
        join_path(&self.systemd_dir, rel)
    }
}

} // verus!
