//! The test runner: owns exactly one engine, exposes the assertion
//! primitives, accumulates recorded outcomes strictly in call order, and
//! reduces them into a finalized suite.

use crate::decimal::push_dec;
use crate::decimal::spec_dec;
use crate::engine::spec_has_prefix;
use crate::engine::spec_is_trap_msg;
use crate::engine::spec_not_found_msg;
use crate::engine::EngineError;
use crate::engine::StylusRuntime;
use crate::gas::GasTable;
use crate::results::clone_test_results;
use crate::results::count_passed;
use crate::results::sum_gas;
use crate::results::TestResult;
use crate::results::TestResultView;
use crate::results::TestSuite;
use vstd::prelude::*;
use vstd::string::StringExecFns;

verus! {

/// The failure description of a gas-limit assertion, naming the measured and
/// the limit value.
pub open spec fn spec_gas_limit_msg(used: u64, max_gas: u64) -> Seq<char> {
    "Gas limit exceeded: "@ + spec_dec(used as nat) + " > "@ + spec_dec(max_gas as nat)
}

fn gas_limit_msg(used: u64, max_gas: u64) -> (r: String)
    ensures
        r@ == spec_gas_limit_msg(used, max_gas),
        r@.len() > 0,
{
    proof {
        reveal_strlit("Gas limit exceeded: ");
        reveal_strlit(" > ");
    }
    let mut r = String::from_str("Gas limit exceeded: ");
    push_dec(&mut r, used);
    r.append(" > ");
    push_dec(&mut r, max_gas);
    proof {
        assert(r@ =~= spec_gas_limit_msg(used, max_gas));
    }
    r
}

/// The recorded name of a gas-limit assertion: the test name with a suffix
/// indicating the nature of the check.
pub open spec fn spec_gas_limit_name(name: Seq<char>) -> Seq<char> {
    name + " (gas limit)"@
}

fn gas_limit_name(name: &str) -> (r: String)
    ensures
        r@ == spec_gas_limit_name(name@),
{
    String::from_str(name).concat(" (gas limit)")
}

/// What a value-equality check records, as a relation between the inputs and
/// the produced outcome: on an engine success, the outcome holds the
/// execution result, passes exactly when the returned value equals the
/// expectation, and carries no error; on an engine failure, the outcome holds
/// no execution result, fails, and carries a non-empty description.  Either
/// way the estimated gas is determined by the argument count and the profile,
/// when present, is the fixed derivation from the same invocation.
pub open spec fn check_outcome(
    table: GasTable,
    test_name: Seq<char>,
    fn_name: Seq<char>,
    args: Seq<i64>,
    expected: i64,
    t: TestResultView,
) -> bool {
    &&& t.name == test_name
    &&& match t.execution_result {
        Some(er) => {
            &&& t.passed == (er.return_value == expected)
            &&& er.gas_used == table.spec_estimate(args.len())
            &&& er.memory_usage == 1024
            &&& t.error is None
            &&& match t.gas_profile {
                Some(p) => p.function_name == fn_name && p.gas_used == table.spec_estimate(
                    args.len(),
                ) && p.instruction_count == p.gas_used / 10 && p.call_depth == 1,
                None => true,
            }
        },
        None => {
            &&& !t.passed
            &&& t.error is Some
            &&& t.error->0.len() > 0
            &&& (t.error->0 == spec_not_found_msg(fn_name) || spec_is_trap_msg(t.error->0))
            &&& t.gas_profile is None
        },
    }
}

/// What a gas-limit assertion records.  A passing outcome keeps its
/// execution result, whose measured gas (the estimate for this argument
/// count) is within the limit, and carries no error.  A failing outcome
/// carries a non-empty error and no execution result — on a gas overrun the
/// exact description naming the measured and the limit value, on an engine
/// failure the engine's own description.  A limit below the estimate can
/// never pass.
pub open spec fn gas_limit_outcome(
    table: GasTable,
    test_name: Seq<char>,
    fn_name: Seq<char>,
    args: Seq<i64>,
    max_gas: u64,
    t: TestResultView,
) -> bool {
    &&& t.name == spec_gas_limit_name(test_name)
    &&& t.wf()
    &&& (table.spec_estimate(args.len()) > max_gas ==> !t.passed)
    &&& (t.passed ==> {
        &&& t.execution_result is Some
        &&& t.execution_result->0.gas_used == table.spec_estimate(args.len())
        &&& t.execution_result->0.gas_used <= max_gas
        &&& t.error is None
        &&& match t.gas_profile {
            Some(p) => p.function_name == fn_name && p.gas_used == table.spec_estimate(args.len())
                && p.instruction_count == p.gas_used / 10 && p.call_depth == 1,
            None => true,
        }
    })
    &&& (!t.passed ==> {
        &&& t.execution_result is None
        &&& t.error is Some
        &&& t.error->0.len() > 0
        &&& (t.error->0 == spec_gas_limit_msg(table.spec_estimate(args.len()), max_gas)
            || t.error->0 == spec_not_found_msg(fn_name) || spec_is_trap_msg(t.error->0))
        &&& t.gas_profile is None
    })
}

/// Law: every well-formed failed outcome is exactly one of a pure assertion
/// failure — execution result present, no error — and an error outcome —
/// non-empty error present, execution result absent; never both, never
/// neither.  Every outcome the runner records is well-formed.
pub proof fn lemma_failure_shape(t: TestResultView)
    requires
        t.wf(),
        !t.passed,
    ensures
        (t.execution_result is Some && t.error is None) || (t.execution_result is None
            && t.error is Some),
        !(t.execution_result is Some && t.error is Some),
{
}

/// Law: a failed value-equality check refines the failure shapes — when the
/// execution result is present its returned value mismatched the
/// expectation, and when it is absent the recorded error is non-empty.
pub proof fn lemma_check_failure_shape(
    table: GasTable,
    test_name: Seq<char>,
    fn_name: Seq<char>,
    args: Seq<i64>,
    expected: i64,
    t: TestResultView,
)
    requires
        check_outcome(table, test_name, fn_name, args, expected, t),
        !t.passed,
    ensures
        (t.execution_result is Some && t.error is None) || (t.execution_result is None
            && t.error is Some),
        !((t.execution_result is Some && t.error is None) && (t.execution_result is None
            && t.error is Some)),
        t.execution_result is Some ==> t.execution_result->0.return_value != expected,
{
}

/// The runner: exactly one engine and the ordered list of recorded outcomes.
pub struct StylusRunner {
    runtime: StylusRuntime,
    test_results: Vec<TestResult>,
}

impl StylusRunner {
    /// The outcomes recorded so far, in call order.
    pub closed spec fn spec_results(self) -> Seq<TestResultView> {
        self.test_results@.map_values(|t: TestResult| t@)
    }

    /// The engine's cost table.
    pub closed spec fn spec_gas_table(self) -> GasTable {
        self.runtime.spec_gas_table()
    }

    /// Whether the engine records call traces.
    pub closed spec fn spec_instrumentation(self) -> bool {
        self.runtime.spec_instrumentation()
    }

    /// Every recorded outcome is well-formed.
    pub open spec fn wf(self) -> bool {
        forall|i: int|
            0 <= i < self.spec_results().len() ==> (#[trigger] self.spec_results()[i]).wf()
    }

    /// Builds a runner over a fresh engine for the given module bytes.
    pub fn new(wasm_bytes: &[u8]) -> (r: Result<StylusRunner, EngineError>)
        ensures
            match r {
                Ok(runner) => {
                    &&& runner.spec_results() == Seq::<TestResultView>::empty()
                    &&& runner.spec_gas_table() == GasTable::spec_defaults()
                    &&& runner.spec_instrumentation()
                    &&& runner.wf()
                },
                Err(e) => {
                    &&& e is ModuleLoad
                    &&& e.spec_message().len() > 0
                    &&& spec_has_prefix(e.spec_message(), "Failed to create module: "@)
                },
            },
    {
        let runtime = match StylusRuntime::new(wasm_bytes) {
            Ok(rt) => rt,
            Err(e) => {
                return Err(e);
            },
        };
        let runner = StylusRunner { runtime, test_results: Vec::new() };
        proof {
            assert(runner.spec_results() =~= Seq::<TestResultView>::empty());
        }
        Ok(runner)
    }

    /// Invokes the named export directly, without recording an outcome, and
    /// returns its coerced 64-bit value; engine failures propagate.
    pub fn call(&mut self, fn_name: &str, args: &[i64]) -> (r: Result<i64, EngineError>)
        ensures
            final(self).spec_results() == old(self).spec_results(),
            final(self).spec_gas_table() == old(self).spec_gas_table(),
            final(self).spec_instrumentation() == old(self).spec_instrumentation(),
            r is Err ==> {
                &&& (r->Err_0 is FunctionNotFound || r->Err_0 is ExecutionTrap)
                &&& r->Err_0.spec_message().len() > 0
                &&& (r->Err_0 is FunctionNotFound ==> r->Err_0.spec_message()
                    == spec_not_found_msg(fn_name@))
                &&& (r->Err_0 is ExecutionTrap ==> spec_is_trap_msg(r->Err_0.spec_message()))
            },
    {
        match self.runtime.execute_function(fn_name, args) {
            Ok(result) => Ok(result.return_value),
            Err(e) => Err(e),
        }
    }

    /// Runs one value-equality check and returns its outcome without
    /// recording it.  The recorded outcome list is unchanged; an engine
    /// failure is captured in the outcome, never propagated; a profiling
    /// failure leaves the profile absent and never fails the check.
    pub fn test(&mut self, test_name: &str, fn_name: &str, args: &[i64], expected: i64) -> (r:
        TestResult)
        ensures
            final(self).spec_results() == old(self).spec_results(),
            final(self).spec_gas_table() == old(self).spec_gas_table(),
            final(self).spec_instrumentation() == old(self).spec_instrumentation(),
            check_outcome(
                old(self).spec_gas_table(),
                test_name@,
                fn_name@,
                args@,
                expected,
                r@,
            ),
            r@.wf(),
    {
        match self.runtime.execute_function(fn_name, args) {
            Ok(result) => {
                let passed = result.return_value == expected;
                let gas_profile = match self.runtime.profile_function(fn_name, args) {
                    Ok(p) => Some(p),
                    Err(_) => None,
                };
                TestResult {
                    name: String::from_str(test_name),
                    passed,
                    execution_result: Some(result),
                    error: None,
                    gas_profile,
                }
            },
            Err(e) => TestResult {
                name: String::from_str(test_name),
                passed: false,
                execution_result: None,
                error: Some(e.into_message()),
                gas_profile: None,
            },
        }
    }

    /// Runs one value-equality check and appends its outcome to the recorded
    /// list; outcomes accumulate strictly in call order.
    pub fn assert_eq(&mut self, test_name: &str, fn_name: &str, args: &[i64], expected: i64)
        requires
            old(self).wf(),
        ensures
            final(self).wf(),
            final(self).spec_gas_table() == old(self).spec_gas_table(),
            final(self).spec_instrumentation() == old(self).spec_instrumentation(),
            final(self).spec_results().len() == old(self).spec_results().len() + 1,
            final(self).spec_results() == old(self).spec_results().push(
                final(self).spec_results().last(),
            ),
            check_outcome(
                old(self).spec_gas_table(),
                test_name@,
                fn_name@,
                args@,
                expected,
                final(self).spec_results().last(),
            ),
    {
        let result = self.test(test_name, fn_name, args, expected);
        self.test_results.push(result);
        proof {
            assert(self.spec_results() =~= old(self).spec_results().push(
                self.spec_results().last(),
            ));
        }
    }

    /// Runs one gas-limit assertion and appends its outcome: the invocation
    /// passes when its measured gas is within `max_gas`.  A failed outcome is
    /// an error outcome — execution result absent, error present — whether
    /// the gas exceeded the limit (the description names the measured and
    /// the limit value) or the engine failed (its description is recorded).
    pub fn assert_gas_limit(&mut self, test_name: &str, fn_name: &str, args: &[i64], max_gas: u64)
        requires
            old(self).wf(),
        ensures
            final(self).wf(),
            final(self).spec_gas_table() == old(self).spec_gas_table(),
            final(self).spec_instrumentation() == old(self).spec_instrumentation(),
            final(self).spec_results().len() == old(self).spec_results().len() + 1,
            final(self).spec_results() == old(self).spec_results().push(
                final(self).spec_results().last(),
            ),
            gas_limit_outcome(
                old(self).spec_gas_table(),
                test_name@,
                fn_name@,
                args@,
                max_gas,
                final(self).spec_results().last(),
            ),
    {
        let name = gas_limit_name(test_name);
        match self.runtime.execute_function(fn_name, args) {
            Ok(result) => {
                if result.gas_used <= max_gas {
                    let gas_profile = match self.runtime.profile_function(fn_name, args) {
                        Ok(p) => Some(p),
                        Err(_) => None,
                    };
                    let tr = TestResult {
                        name,
                        passed: true,
                        execution_result: Some(result),
                        error: None,
                        gas_profile,
                    };
                    self.test_results.push(tr);
                } else {
                    let tr = TestResult {
                        name,
                        passed: false,
                        execution_result: None,
                        error: Some(gas_limit_msg(result.gas_used, max_gas)),
                        gas_profile: None,
                    };
                    self.test_results.push(tr);
                }
            },
            Err(e) => {
                let tr = TestResult {
                    name,
                    passed: false,
                    execution_result: None,
                    error: Some(e.into_message()),
                    gas_profile: None,
                };
                self.test_results.push(tr);
            },
        }
        proof {
            assert(self.spec_results() =~= old(self).spec_results().push(
                self.spec_results().last(),
            ));
        }
    }

    /// Profiles one invocation through the engine; the recorded outcome list
    /// is unchanged.
    pub fn profile_function(&mut self, fn_name: &str, args: &[i64]) -> (r: Result<
        crate::results::GasProfile,
        EngineError,
    >)
        ensures
            final(self).spec_results() == old(self).spec_results(),
            final(self).spec_gas_table() == old(self).spec_gas_table(),
            final(self).spec_instrumentation() == old(self).spec_instrumentation(),
            match r {
                Ok(p) => {
                    &&& p@.function_name == fn_name@
                    &&& p@.gas_used == old(self).spec_gas_table().spec_estimate(args@.len())
                    &&& p@.instruction_count == p@.gas_used / 10
                    &&& p@.call_depth == 1
                },
                Err(e) => {
                    &&& (e is FunctionNotFound || e is ExecutionTrap)
                    &&& e.spec_message().len() > 0
                    &&& (e is FunctionNotFound ==> e.spec_message() == spec_not_found_msg(fn_name@))
                    &&& (e is ExecutionTrap ==> spec_is_trap_msg(e.spec_message()))
                },
            },
    {
        self.runtime.profile_function(fn_name, args)
    }

    /// Reduces the recorded outcomes into a finalized suite without clearing
    /// them: repeated calls before further assertions yield identical
    /// results.  The suite holds a deep copy of the outcomes in order, the
    /// pass count, the fail count as the remainder — so the two counts
    /// partition the tests — and the total gas, which is the sum of
    /// `gas_used` over the outcomes with an execution result (outcomes
    /// without one contribute zero), saturating at `u64::MAX` where that sum
    /// does not fit.
    pub fn finalize_suite(&self, suite_name: &str) -> (r: TestSuite)
        ensures
            r@.name == suite_name@,
            r@.tests == self.spec_results(),
            r@.passed == count_passed(self.spec_results()),
            r@.passed + r@.failed == r@.tests.len(),
            sum_gas(r@.tests) <= u64::MAX ==> r@.total_gas == sum_gas(r@.tests),
            r@.total_gas == (if sum_gas(self.spec_results()) <= u64::MAX {
                sum_gas(self.spec_results()) as u64
            } else {
                u64::MAX
            }),
    {
        let passed = count_passed_exec(&self.test_results);
        let failed = self.test_results.len() - passed;
        let total_gas = total_gas_exec(&self.test_results);
        let r = TestSuite {
            name: String::from_str(suite_name),
            tests: clone_test_results(&self.test_results),
            total_gas,
            passed,
            failed,
        };
        r
    }
}

/// Counts the outcomes in `v` that passed.
fn count_passed_exec(v: &Vec<TestResult>) -> (r: usize)
    ensures
        r == count_passed(v@.map_values(|t: TestResult| t@)),
        r <= v@.len(),
{
    let ghost m = v@.map_values(|t: TestResult| t@);
    let mut r: usize = 0;
    let mut i: usize = 0;
    while i < v.len()
        invariant
            i <= v.len(),
            m == v@.map_values(|t: TestResult| t@),
            r == count_passed(m.take(i as int)),
            r <= i,
        decreases v.len() - i,
    {
        proof {
            assert(m.take(i as int + 1).drop_last() =~= m.take(i as int));
            assert(m.take(i as int + 1).last() == m[i as int]);
        }
        if v[i].passed {
            r = r + 1;
        }
        i = i + 1;
    }
    proof {
        assert(m.take(v@.len() as int) =~= m);
    }
    r
}

/// Total gas over the outcomes in `v`, saturating at `u64::MAX`.
fn total_gas_exec(v: &Vec<TestResult>) -> (r: u64)
    ensures
        r == (if sum_gas(v@.map_values(|t: TestResult| t@)) <= u64::MAX {
            sum_gas(v@.map_values(|t: TestResult| t@)) as u64
        } else {
            u64::MAX
        }),
{
    let ghost m = v@.map_values(|t: TestResult| t@);
    let mut r: u64 = 0;
    let mut i: usize = 0;
    while i < v.len()
        invariant
            i <= v.len(),
            m == v@.map_values(|t: TestResult| t@),
            r == (if sum_gas(m.take(i as int)) <= u64::MAX {
                sum_gas(m.take(i as int)) as u64
            } else {
                u64::MAX
            }),
        decreases v.len() - i,
    {
        proof {
            assert(m.take(i as int + 1).drop_last() =~= m.take(i as int));
            assert(m.take(i as int + 1).last() == m[i as int]);
        }
        match &v[i].execution_result {
            Some(er) => {
                r = r.saturating_add(er.gas_used);
            },
            None => {},
        }
        i = i + 1;
    }
    proof {
        assert(m.take(v@.len() as int) =~= m);
    }
    r
}

} // verus!
