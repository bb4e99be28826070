//! Matching bank statements and payment-gateway reports against the
//! ledger. The engine holds no state and offers no matching operations.

use vstd::prelude::*;

verus! {

/// The reconciliation engine.
#[derive(Debug)]
pub struct ReconciliationEngine;

impl ReconciliationEngine {
    pub fn new() -> (r: ReconciliationEngine)
        ensures
            r == ReconciliationEngine,
    {
        ReconciliationEngine
    }
}

impl Default for ReconciliationEngine {
    fn default() -> (r: ReconciliationEngine)
        ensures
            r == ReconciliationEngine,
    {
        ReconciliationEngine::new()
    }
}

} // verus!
