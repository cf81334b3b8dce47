use vstd::prelude::*;
use crate::wire::{WireQueryResults, WireQueryRow};

verus! {

/// Shapes the reply of the client-facing `execute` operation. The engine's
/// query path hands back either result rows or an error message; the rows are
/// returned to the client exactly as the engine produced them, and an engine
/// failure becomes an explicit failure status carrying the engine's message —
/// never a crash of the call.
pub fn execute_reply(outcome: Result<Vec<WireQueryRow>, String>) -> (r: Result<
    WireQueryResults,
    String,
>)
    ensures
        outcome matches Ok(rows) ==> r matches Ok(res) && res.deep_view() == rows.deep_view(),
        outcome matches Err(m) ==> r matches Err(m2) && m2@ == m@,
{
    match outcome {
        Ok(rows) => Ok(WireQueryResults { rows }),
        Err(m) => Err(m),
    }
}

} // verus!
