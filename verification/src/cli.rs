//! The command surface: one subcommand with one flag, and what a run does
//! once every dependency has been checked.

use vstd::prelude::*;
use crate::types::Crate;

verus! {

/// The parsed command line.
#[derive(Debug)]
pub struct Cli {
    pub cmd: Commands,
}

/// The subcommands.
#[derive(Debug)]
pub enum Commands {
    /// Check the dependencies, and with `update` write the updates into the
    /// manifest.
    Cratesup { update: bool },
}

/// What is left to do after the dependencies have been checked.
#[derive(Clone, Copy, Debug, PartialEq, Eq, Structural)]
pub enum NextStep {
    /// Nothing has an update: say so and stop.
    ReportUpToDate,
    /// There are updates and they were asked for: write them.
    WriteManifest,
    /// There are updates, which have been reported: stop.
    LeaveManifest,
}

/// Whether some crate of `crates` has an update.
pub open spec fn some_update(crates: Seq<Crate>) -> bool {
    exists|i: int| 0 <= i < crates.len() && #[trigger] crates[i].update_available
}

/// What is left to do for these crates, with or without the request to write
/// updates.
pub open spec fn step_after(update_requested: bool, crates: Seq<Crate>) -> NextStep {
    if !some_update(crates) {
        NextStep::ReportUpToDate
    } else if update_requested {
        NextStep::WriteManifest
    } else {
        NextStep::LeaveManifest
    }
}

impl Cli {
    /// The flag of the subcommand.
    pub open spec fn update_flag(&self) -> bool {
        match self.cmd {
            Commands::Cratesup { update } => update,
        }
    }

    /// Whether the updates that are found are to be written into the
    /// manifest. Without the flag the run only reports.
    pub fn update_requested(&self) -> (requested: bool)
        ensures
            requested == self.update_flag(),
    {
        match self.cmd {
            Commands::Cratesup { update } => update,
        }
    }

    /// What is left to do once `crates` holds every dependency that could be
    /// checked.
    pub fn next_step(&self, crates: &[Crate]) -> (step: NextStep)
        ensures
            step == step_after(self.update_flag(), crates@),
    {
        if !any_update_available(crates) {
            NextStep::ReportUpToDate
        } else if self.update_requested() {
            NextStep::WriteManifest
        } else {
            NextStep::LeaveManifest
        }
    }
}

/// Whether some crate of `crates` has an update.
pub fn any_update_available(crates: &[Crate]) -> (found: bool)
    ensures
        found == some_update(crates@),
{
    let mut i: usize = 0;
    while i < crates.len()
        invariant
            i <= crates.len(),
            forall|j: int| 0 <= j < i ==> !(#[trigger] crates@[j]).update_available,
        decreases crates.len() - i,
    {
        if crates[i].update_available {
            return true;
        }
        i += 1;
    }
    false
}

} // verus!
