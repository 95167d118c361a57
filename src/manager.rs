use vstd::prelude::*;
use crate::error::AppError;
use crate::paths::views;

verus! {

/// One immediate entry of the fleet root.
pub struct DirEntry {
    pub name: String,
    pub is_dir: bool,
}

/// The per-application operation a batch applies.
#[derive(Clone, Copy, Debug, PartialEq, Eq, Structural)]
pub enum BatchOp {
    Status,
    Install,
    Uninstall,
    Logs,
}

/// Fleet-wide settings and the entry to every batch.
pub struct Manager {
    /// The fleet root.
    pub repo_dir: String,
    pub force: bool,
    pub dry_run: bool,
}

/// One operation over one or more applications. Every application is
/// loaded first, and one that fails to load ends the batch before any is
/// operated on; then they are operated on in order, and the first failure
/// ends the batch.
pub struct Batch {
    pub op: BatchOp,
    pub names: Vec<String>,
    /// Whether the whole fleet was asked for rather than one application.
    pub fleet_wide: bool,
    pub force: bool,
    pub dry_run: bool,
    /// How many applications have been loaded.
    pub loaded: usize,
    /// The application whose turn it is.
    pub pos: usize,
    pub failed: bool,
}

/// Whether a fleet-root entry names an application: a directory whose name
/// does not start with a dot.
pub open spec fn is_candidate(e: DirEntry) -> bool {
    e.is_dir && !(e.name@.len() > 0 && e.name@[0] == '.')
}

/// The application names of a fleet-root listing, in listing order.
pub open spec fn candidates_of(entries: Seq<DirEntry>) -> Seq<Seq<char>>
    decreases entries.len(),
{
    if entries.len() == 0 {
        Seq::empty()
    } else {
        let rest = candidates_of(entries.drop_last());
        if is_candidate(entries.last()) {
            rest.push(entries.last().name@)
        } else {
            rest
        }
    }
}

/// The applications a batch covers: the named one, or every candidate of
/// the listing.
pub open spec fn selection(app_name: Option<String>, entries: Seq<DirEntry>) -> Seq<Seq<char>> {
    match app_name {
        Some(n) => seq![n@],
        None => candidates_of(entries),
    }
}

impl Batch {
    pub open spec fn wf(&self) -> bool {
        &&& self.pos <= self.names@.len()
        &&& self.loaded <= self.names@.len()
        &&& (self.pos > 0 ==> self.loaded == self.names@.len())
    }

    /// Whether the batch has an application left to load.
    pub open spec fn is_loading(&self) -> bool {
        !self.failed && self.loaded < self.names@.len()
    }

    /// The batch after loading the due application reported `ok`.
    pub open spec fn after_load(self, ok: bool) -> Batch {
        if !self.is_loading() {
            self
        } else if ok {
            Batch { loaded: (self.loaded + 1) as usize, ..self }
        } else {
            Batch { failed: true, ..self }
        }
    }

    /// Whether the batch has an application left to operate on.
    pub open spec fn is_due(&self) -> bool {
        !self.failed && self.loaded == self.names@.len() && self.pos < self.names@.len()
    }

    /// The batch after the due application's operation reported `ok`.
    pub open spec fn after(self, ok: bool) -> Batch {
        if !self.is_due() {
            self
        } else if ok {
            Batch { pos: (self.pos + 1) as usize, ..self }
        } else {
            Batch { failed: true, ..self }
        }
    }

    /// The batch after the due applications reported `outcomes`, in order.
    pub open spec fn run(self, outcomes: Seq<bool>) -> Batch
        decreases outcomes.len(),
    {
        if outcomes.len() == 0 {
            self
        } else {
            self.after(outcomes[0]).run(outcomes.drop_first())
        }
    }

    /// The index of the application to operate on next.
    pub fn next_app(&self) -> (r: Option<usize>)
        requires
            self.wf(),
        ensures
            r == (if self.is_due() {
                Some(self.pos)
            } else {
                None::<usize>
            }),
    {
        if !self.failed && self.loaded == self.names.len() && self.pos < self.names.len() {
            Some(self.pos)
        } else {
            None
        }
    }

    /// Records the outcome of the due application's operation.
    pub fn record(&mut self, ok: bool)
        requires
            old(self).wf(),
        ensures
            *final(self) == old(self).after(ok),
            final(self).wf(),
    {
        if !self.failed && self.loaded == self.names.len() && self.pos < self.names.len() {
            if ok {
                self.pos = self.pos + 1;
            } else {
                self.failed = true;
            }
        }
    }

    /// The index of the application to load next.
    pub fn next_load(&self) -> (r: Option<usize>)
        requires
            self.wf(),
        ensures
            r == (if self.is_loading() {
                Some(self.loaded)
            } else {
                None::<usize>
            }),
    {
        if !self.failed && self.loaded < self.names.len() {
            Some(self.loaded)
        } else {
            None
        }
    }

    /// Records whether the due application loaded.
    pub fn record_load(&mut self, ok: bool)
        requires
            old(self).wf(),
        ensures
            *final(self) == old(self).after_load(ok),
            final(self).wf(),
    {
        if !self.failed && self.loaded < self.names.len() {
            if ok {
                self.loaded = self.loaded + 1;
            } else {
                self.failed = true;
            }
        }
    }

    /// Whether the fleet was asked for and no application was found.
    pub fn nothing_found(&self) -> (r: bool)
        ensures
            r == (self.fleet_wide && self.names@.len() == 0),
    {
        self.fleet_wide && self.names.len() == 0
    }
}

impl Manager {
    /// Creates the manager, refusing to run without administrative
    /// privilege (effective user id 0).
    pub fn new(force: bool, dry_run: bool, repo_dir: String, uid: u32) -> (r: Result<
        Manager,
        AppError,
    >)
        ensures
            r is Ok <==> uid == 0,
            r is Err ==> r->Err_0 is Privilege,
            r is Ok ==> r->Ok_0.force == force && r->Ok_0.dry_run == dry_run && r->Ok_0.repo_dir
                == repo_dir,
    {
        if uid != 0 {
            return Err(AppError::Privilege);
        }
        Ok(Manager { repo_dir, force, dry_run })
    }

    /// The application names of a fleet-root listing, in listing order.
    pub fn discover_apps(entries: &Vec<DirEntry>) -> (r: Vec<String>)
        ensures
            views(r@) == candidates_of(entries@),
    {
        let mut names: Vec<String> = Vec::new();
        let mut i: usize = 0;
        while i < entries.len()
            invariant
                i <= entries@.len(),
                views(names@) == candidates_of(entries@.take(i as int)),
            decreases entries@.len() - i,
        {
            let e = &entries[i];
            assert(entries@.take(i + 1).drop_last() == entries@.take(i as int));
            let hidden = e.name.as_str().unicode_len() > 0 && e.name.as_str().get_char(0) == '.';
            if e.is_dir && !hidden {
                names.push(e.name.clone());
            }
            proof {
                assert(views(names@) =~= candidates_of(entries@.take(i + 1)));
            }
            i += 1;
        }
        assert(entries@.take(entries@.len() as int) == entries@);
        names
    }

    /// A batch of `op` over the selected applications, carrying this
    /// manager's settings.
    fn batch(&self, op: BatchOp, app_name: Option<String>, entries: &Vec<DirEntry>) -> (r: Batch)
        ensures
            r.op == op,
            views(r.names@) == selection(app_name, entries@),
            r.fleet_wide == (app_name is None),
            r.force == self.force,
            r.dry_run == self.dry_run,
            r.pos == 0,
            r.loaded == 0,
            !r.failed,
            r.wf(),
    {
        let fleet_wide = app_name.is_none();
        let names = match app_name {
            Some(n) => {
                let mut v: Vec<String> = Vec::new();
                v.push(n);
                proof {
                    assert(views(v@) =~= seq![n@]);
                }
                v
            },
            None => Manager::discover_apps(entries),
        };
        Batch {
            op,
            names,
            fleet_wide,
            force: self.force,
            dry_run: self.dry_run,
            loaded: 0,
            pos: 0,
            failed: false,
        }
    }

    /// The status batch: the named application, or every application of
    /// the listing (which is read only when no name is given).
    pub fn status(&self, app_name: Option<String>, entries: &Vec<DirEntry>) -> (r: Batch)
        ensures
            r.op == BatchOp::Status,
            views(r.names@) == selection(app_name, entries@),
            r.fleet_wide == (app_name is None),
            r.force == self.force && r.dry_run == self.dry_run,
            r.pos == 0 && r.loaded == 0 && !r.failed && r.wf(),
    {
        self.batch(BatchOp::Status, app_name, entries)
    }

    /// The install batch, as for `status`.
    pub fn install_apps(&self, app_name: Option<String>, entries: &Vec<DirEntry>) -> (r: Batch)
        ensures
            r.op == BatchOp::Install,
            views(r.names@) == selection(app_name, entries@),
            r.fleet_wide == (app_name is None),
            r.force == self.force && r.dry_run == self.dry_run,
            r.pos == 0 && r.loaded == 0 && !r.failed && r.wf(),
    {
        self.batch(BatchOp::Install, app_name, entries)
    }

    /// The uninstall batch, as for `status`.
    pub fn uninstall_apps(&self, app_name: Option<String>, entries: &Vec<DirEntry>) -> (r: Batch)
        ensures
            r.op == BatchOp::Uninstall,
            views(r.names@) == selection(app_name, entries@),
            r.fleet_wide == (app_name is None),
            r.force == self.force && r.dry_run == self.dry_run,
            r.pos == 0 && r.loaded == 0 && !r.failed && r.wf(),
    {
        self.batch(BatchOp::Uninstall, app_name, entries)
    }

    /// The log-following batch of the one named application.
    pub fn show_logs(&self, app_name: String) -> (r: Batch)
        ensures
            r.op == BatchOp::Logs,
            views(r.names@) == seq![app_name@],
            !r.fleet_wide,
            r.force == self.force && r.dry_run == self.dry_run,
            r.pos == 0 && r.loaded == 0 && !r.failed && r.wf(),
    {
        let none: Vec<DirEntry> = Vec::new();
        self.batch(BatchOp::Logs, Some(app_name), &none)
    }
}

} // verus!
