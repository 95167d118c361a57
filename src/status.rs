use vstd::prelude::*;
use crate::paths::owned;

verus! {

/// Installation state of an application, derived on demand.
#[derive(Clone, Copy, Debug, PartialEq, Eq, Structural)]
pub enum AppStatus {
    NotInstalled,
    Installed,
    Stopped,
    Running,
}

/// The status that the file check and the two service queries determine.
/// An active unit counts as running whether or not it is enabled.
pub open spec fn status_of(files_present: bool, active: bool, enabled: bool) -> AppStatus {
    if !files_present {
        AppStatus::NotInstalled
    } else if active {
        AppStatus::Running
    } else if enabled {
        AppStatus::Stopped
    } else {
        AppStatus::Installed
    }
}

/// How a status is shown to the operator.
pub open spec fn label_of(s: AppStatus) -> Seq<char> {
    match s {
        AppStatus::NotInstalled => "Not Installed"@,
        AppStatus::Installed => "Installed"@,
        AppStatus::Stopped => "Stopped"@,
        AppStatus::Running => "Running"@,
    }
}

impl AppStatus {
    /// Decides the status from the file check and the two service queries.
    pub fn from_observations(files_present: bool, active: bool, enabled: bool) -> (r: AppStatus)
        ensures
            r == status_of(files_present, active, enabled),
    {
        if !files_present {
            AppStatus::NotInstalled
        } else if active {
            AppStatus::Running
        } else if enabled {
            AppStatus::Stopped
        } else {
            AppStatus::Installed
        }
    }

    /// The human-readable name of the status.
    pub fn label(&self) -> (r: String)
        ensures
            r@ == label_of(*self),
    {
        match self {
            AppStatus::NotInstalled => owned("Not Installed"),
            AppStatus::Installed => owned("Installed"),
            AppStatus::Stopped => owned("Stopped"),
            AppStatus::Running => owned("Running"),
        }
    }
}

} // verus!
