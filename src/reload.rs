//! The reload step: a freshly loaded snapshot either replaces the routing
//! table whole, leaves it as it is, or is dropped with its error.
use vstd::prelude::*;
use crate::error::Error;
use crate::table::RoutingTable;

verus! {

/// What one reload did to the routing table.
#[derive(Debug)]
pub enum ReloadOutcome {
    /// The table now holds the new snapshot, which differed from the old one.
    Reloaded,
    /// The new snapshot held the same entries; nothing changed.
    Unchanged,
    /// Loading failed; the table kept its entries.
    Failed(Error),
}

/// Applies one reload to `table`. A failed load leaves the table untouched;
/// a snapshot with the same entries is reported as no change; any other
/// snapshot replaces the table whole.
pub fn apply_reload(table: &mut RoutingTable, loaded: Result<RoutingTable, Error>) -> (r:
    ReloadOutcome)
    requires
        old(table).wf(),
        loaded matches Ok(t) ==> t.wf(),
    ensures
        final(table).wf(),
        final(table)@ == old(table)@ || (loaded matches Ok(t) && final(table)@ == t@),
        match loaded {
            Ok(t) => final(table)@ == t@ && if old(table)@ == t@ {
                r is Unchanged
            } else {
                r is Reloaded
            },
            Err(e) => final(table)@ == old(table)@ && r == ReloadOutcome::Failed(e),
        },
{
    match loaded {
        Ok(t) => {
            if table.replace(t) {
                ReloadOutcome::Reloaded
            } else {
                ReloadOutcome::Unchanged
            }
        },
        Err(e) => ReloadOutcome::Failed(e),
    }
}

} // verus!
