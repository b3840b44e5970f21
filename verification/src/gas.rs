//! The gas model: a fixed cost table set once at engine construction and a
//! closed-form estimator — base call cost plus a per-argument surcharge of 10.
//! No bytecode is inspected; the estimate is a formula, not a measurement.

use vstd::prelude::*;

verus! {

/// Cost table mapping the abstract operation classes to integer costs.
/// It is initialized once when an engine is constructed and is read-only
/// thereafter; changing a cost requires constructing a new engine.
#[derive(Debug, Clone, Copy, PartialEq, Eq)]
pub struct GasTable {
    pub call: u64,
    pub memory_grow: u64,
    pub local_get: u64,
    pub local_set: u64,
}

impl GasTable {
    /// The canonical default entries:
    /// `call = 100`, `memory_grow = 1000`, `local_get = 1`, `local_set = 1`.
    pub open spec fn spec_defaults() -> GasTable {
        GasTable { call: 100, memory_grow: 1000, local_get: 1, local_set: 1 }
    }

    /// Builds the canonical default cost table.
    pub fn defaults() -> (r: GasTable)
        ensures
            r == GasTable::spec_defaults(),
    {
        GasTable { call: 100, memory_grow: 1000, local_get: 1, local_set: 1 }
    }

    /// Estimated gas of one invocation with `argc` arguments: the base call
    /// cost plus 10 per argument, saturating at `u64::MAX` where the sum does
    /// not fit (it fits for every argument vector that fits in memory).
    pub open spec fn spec_estimate(self, argc: nat) -> u64 {
        if self.call + argc * 10 <= u64::MAX {
            (self.call + argc * 10) as u64
        } else {
            u64::MAX
        }
    }

    /// Estimates the gas one invocation with `arg_count` arguments will use.
    pub fn estimate(&self, arg_count: usize) -> (r: u64)
        ensures
            r == self.spec_estimate(arg_count as nat),
    {
        let surcharge: u64 = match (arg_count as u64).checked_mul(10) {
            Some(s) => s,
            None => u64::MAX,
        };
        proof {
            if arg_count as nat * 10 <= u64::MAX {
                assert(surcharge == arg_count as nat * 10);
            } else {
                assert(self.call + arg_count as nat * 10 > u64::MAX);
            }
        }
        self.call.saturating_add(surcharge)
    }
}

/// Law: for a fixed cost table the gas estimate is monotonically
/// non-decreasing in the argument count.
pub proof fn lemma_estimate_monotone(t: GasTable, c1: nat, c2: nat)
    requires
        c1 <= c2,
    ensures
        t.spec_estimate(c1) <= t.spec_estimate(c2),
{
    assert(c1 * 10 <= c2 * 10) by (nonlinear_arith)
        requires
            c1 <= c2,
    ;
}

} // verus!
