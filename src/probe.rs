use vstd::prelude::*;
use crate::app::{scoped, App};
use crate::paths::{owned, views};
use crate::status::{status_of, AppStatus};

verus! {

/// A question the status probe needs answered.
pub enum Query {
    /// Does anything exist at this path?
    Exists(String),
    /// Does the service manager, run with these arguments, succeed?
    Service(Vec<String>),
}

/// Which question is due.
#[derive(Clone, Copy, Debug, PartialEq, Eq, Structural)]
pub enum Stage {
    /// The installed file at index `checked` is being looked for.
    Files,
    /// The unit is being asked whether it is active.
    Active,
    /// The unit is being asked whether it is enabled.
    Enabled,
    /// The status is known.
    Known(AppStatus),
}

/// Determines an application's status from answers to one question at a
/// time: first whether each installed file exists, stopping at the first
/// missing one; then whether the unit is active; then whether it is enabled.
pub struct StatusProbe {
    pub targets: Vec<String>,
    pub active_args: Vec<String>,
    pub enabled_args: Vec<String>,
    pub checked: usize,
    pub stage: Stage,
}

impl StatusProbe {
    pub open spec fn wf(&self) -> bool {
        &&& self.targets@.len() <= usize::MAX
        &&& self.checked <= self.targets@.len()
        &&& (self.stage == Stage::Files ==> self.checked < self.targets@.len())
    }

    /// The probe after the due question was answered `yes`.
    pub open spec fn after(self, yes: bool) -> StatusProbe {
        match self.stage {
            Stage::Files => if !yes {
                StatusProbe { stage: Stage::Known(AppStatus::NotInstalled), ..self }
            } else if self.checked + 1 == self.targets@.len() {
                StatusProbe { checked: (self.checked + 1) as usize, stage: Stage::Active, ..self }
            } else {
                StatusProbe { checked: (self.checked + 1) as usize, ..self }
            },
            Stage::Active => if yes {
                StatusProbe { stage: Stage::Known(AppStatus::Running), ..self }
            } else {
                StatusProbe { stage: Stage::Enabled, ..self }
            },
            Stage::Enabled => StatusProbe {
                stage: Stage::Known(if yes {
                    AppStatus::Stopped
                } else {
                    AppStatus::Installed
                }),
                ..self
            },
            Stage::Known(_) => self,
        }
    }

    /// The probe after the due questions were answered `answers`, in order.
    pub open spec fn run(self, answers: Seq<bool>) -> StatusProbe
        decreases answers.len(),
    {
        if answers.len() == 0 {
            self
        } else {
            self.after(answers[0]).run(answers.drop_first())
        }
    }

    /// The next question, or `None` once the status is known.
    pub fn query(&self) -> (r: Option<Query>)
        requires
            self.wf(),
        ensures
            r is None <==> self.stage is Known,
            self.stage == Stage::Files ==> (match r {
                Some(Query::Exists(p)) => p@ == self.targets@[self.checked as int]@,
                _ => false,
            }),
            self.stage == Stage::Active ==> (match r {
                Some(Query::Service(a)) => views(a@) == views(self.active_args@),
                _ => false,
            }),
            self.stage == Stage::Enabled ==> (match r {
                Some(Query::Service(a)) => views(a@) == views(self.enabled_args@),
                _ => false,
            }),
    {
        match self.stage {
            Stage::Files => Some(Query::Exists(self.targets[self.checked].clone())),
            Stage::Active => Some(Query::Service(copy_strings(&self.active_args))),
            Stage::Enabled => Some(Query::Service(copy_strings(&self.enabled_args))),
            Stage::Known(_) => None,
        }
    }

    /// Records the answer to the due question.
    pub fn answer(&mut self, yes: bool)
        requires
            old(self).wf(),
        ensures
            *final(self) == old(self).after(yes),
            final(self).wf(),
    {
        match self.stage {
            Stage::Files => {
                if !yes {
                    self.stage = Stage::Known(AppStatus::NotInstalled);
                } else {
                    let n = self.targets.len();
                    self.checked = self.checked + 1;
                    if self.checked == n {
                        self.stage = Stage::Active;
                    }
                }
            },
            Stage::Active => {
                self.stage = if yes {
                    Stage::Known(AppStatus::Running)
                } else {
                    Stage::Enabled
                };
            },
            Stage::Enabled => {
                self.stage = Stage::Known(
                    if yes {
                        AppStatus::Stopped
                    } else {
                        AppStatus::Installed
                    },
                );
            },
            Stage::Known(_) => {},
        }
    }

    /// The status, once known.
    pub fn status(&self) -> (r: Option<AppStatus>)
        ensures
            r == (match self.stage {
                Stage::Known(s) => Some(s),
                _ => None::<AppStatus>,
            }),
    {
        match self.stage {
            Stage::Known(s) => Some(s),
            _ => None,
        }
    }
}

impl App {
    /// Where every manifest entry is installed, in manifest order.
    pub open spec fn targets_of(&self, m: Seq<Seq<char>>) -> Seq<Seq<char>> {
        m.map_values(|rel: Seq<char>| self.target_of(rel))
    }

    /// Service-manager arguments of the quiet query `query` on the unit.
    pub open spec fn query_args(&self, query: Seq<char>) -> Seq<Seq<char>> {
        scoped(self.use_user, seq![query, "--quiet"@, self.unit()])
    }

    /// A fresh probe of this application's status for its manifest. An
    /// empty manifest needs no file to be present.
    pub fn get_status(&self, manifest: &Vec<String>) -> (r: StatusProbe)
        ensures
            r.wf(),
            r.checked == 0,
            views(r.targets@) == self.targets_of(views(manifest@)),
            views(r.active_args@) == self.query_args("is-active"@),
            views(r.enabled_args@) == self.query_args("is-enabled"@),
            r.stage == (if manifest@.len() == 0 {
                Stage::Active
            } else {
                Stage::Files
            }),
    {
        let mut targets: Vec<String> = Vec::new();
        let mut i: usize = 0;
        while i < manifest.len()
            invariant
                i <= manifest@.len(),
                targets@.len() == i,
                forall|j: int| 0 <= j < i ==> (#[trigger] targets@[j])@ == self.target_of(manifest@[j]@),
            decreases manifest@.len() - i,
        {
            targets.push(self.target_path(&manifest[i]));
            i += 1;
        }
        assert(views(targets@) =~= self.targets_of(views(manifest@)));
        assert(views(targets@).len() == targets@.len());
        let active_args = self.quiet_query("is-active");
        let enabled_args = self.quiet_query("is-enabled");
        let stage = if manifest.len() == 0 {
            Stage::Active
        } else {
            Stage::Files
        };
        StatusProbe { targets, active_args, enabled_args, checked: 0, stage }
    }

    fn quiet_query(&self, query: &str) -> (r: Vec<String>)
        ensures
            views(r@) == self.query_args(query@),
    {
        let mut a: Vec<String> = Vec::new();
        a.push(owned(query));
        a.push(owned("--quiet"));
        a.push(self.service_name());
        let ghost plain = a@;
        let r = self.prepare_systemctl_args(a);
        assert(views(plain) =~= seq![query@, "--quiet"@, self.unit()]);
        r
    }
}

/// A copy of a list of strings.
fn copy_strings(v: &Vec<String>) -> (r: Vec<String>)
    ensures
        r@ == v@,
{
    let mut r: Vec<String> = Vec::new();
    let mut i: usize = 0;
    while i < v.len()
        invariant
            i <= v@.len(),
            r@ == v@.take(i as int),
        decreases v@.len() - i,
    {
        r.push(v[i].clone());
        assert(r@ =~= v@.take(i + 1));
        i += 1;
    }
    assert(v@.take(v@.len() as int) =~= v@);
    r
}

} // verus!
