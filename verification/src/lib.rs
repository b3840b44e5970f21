//! A development harness for executing sandboxed WASM modules: an execution
//! engine that invokes exported functions, a closed-form gas model, a stateful
//! test runner that records assertion outcomes, and a suite aggregator that
//! produces a serializable pass/fail report.

use vstd::prelude::*;

mod codec;
mod decimal;
mod engine;
mod gas;
mod results;
mod runner;

pub use codec::deserialize_suite;
pub use codec::serialize_suite;
pub use engine::coerce_return;
pub use engine::EngineError;
pub use engine::RawReturn;
pub use engine::StylusRuntime;
pub use gas::GasTable;
pub use results::ExecutionResult;
pub use results::GasProfile;
pub use results::TestResult;
pub use results::TestSuite;
pub use runner::StylusRunner;

verus! {

/// Whether a file name names a WASM artifact: discovery considers exactly the
/// names ending in `.wasm` and ignores every other name.
pub open spec fn spec_is_wasm_artifact(name: Seq<char>) -> bool {
    name.len() >= 5 && name.skip(name.len() - 5) == ".wasm"@
}

/// Decides whether `name` names a WASM artifact (ends in `.wasm`).
pub fn is_wasm_artifact(name: &str) -> (r: bool)
    ensures
        r == spec_is_wasm_artifact(name@),
{
    proof {
        reveal_strlit(".wasm");
    }
    let chars = decimal::str_to_chars(name);
    let len = chars.len();
    if len < 5 {
        return false;
    }
    let r = chars[len - 5] == '.' && chars[len - 4] == 'w' && chars[len - 3] == 'a' && chars[len
        - 2] == 's' && chars[len - 1] == 'm';
    proof {
        let tail = name@.skip(name@.len() - 5);
        assert(tail.len() == 5);
        assert(tail[0] == name@[name@.len() - 5]);
        assert(tail[1] == name@[name@.len() - 4]);
        assert(tail[2] == name@[name@.len() - 3]);
        assert(tail[3] == name@[name@.len() - 2]);
        assert(tail[4] == name@[name@.len() - 1]);
        if r {
            assert(tail =~= ".wasm"@);
        } else {
            assert(tail != ".wasm"@);
        }
    }
    r
}

} // verus!
