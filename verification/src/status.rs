//! The status of the supervised worker.

use vstd::prelude::*;
use vstd::string::*;

verus! {

/// Where the supervised worker stands. Exactly one value is current at any time.
#[derive(Clone, Copy, Debug, PartialEq, Eq, Structural)]
pub enum DaemonStatus {
    Offline,
    Starting,
    Online,
    Stopping,
    Error,
}

impl DaemonStatus {
    /// The lower-case name under which the status is shown.
    pub open spec fn name(self) -> Seq<char> {
        match self {
            DaemonStatus::Offline => "offline"@,
            DaemonStatus::Starting => "starting"@,
            DaemonStatus::Online => "online"@,
            DaemonStatus::Stopping => "stopping"@,
            DaemonStatus::Error => "error"@,
        }
    }

    /// A start request in this status changes nothing.
    pub open spec fn blocks_start(self) -> bool {
        self == DaemonStatus::Starting || self == DaemonStatus::Online
    }

    /// A stop request in this status changes nothing.
    pub open spec fn blocks_stop(self) -> bool {
        self == DaemonStatus::Offline || self == DaemonStatus::Stopping
    }

    pub fn as_str(&self) -> (text: &'static str)
        ensures
            text@ == self.name(),
    {
        match self {
            DaemonStatus::Offline => "offline",
            DaemonStatus::Starting => "starting",
            DaemonStatus::Online => "online",
            DaemonStatus::Stopping => "stopping",
            DaemonStatus::Error => "error",
        }
    }
}

/// No two statuses share a name, so a shown name stands for one status only.
pub proof fn lemma_status_names_distinct(a: DaemonStatus, b: DaemonStatus)
    ensures
        a.name() == b.name() <==> a == b,
{
    reveal_strlit("offline");
    reveal_strlit("starting");
    reveal_strlit("online");
    reveal_strlit("stopping");
    reveal_strlit("error");
    if a != b {
        assert(a.name().len() != b.name().len() || a.name()[2] != b.name()[2]);
    }
}

} // verus!
