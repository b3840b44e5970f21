//! The data model of the harness: per-invocation execution results, derived
//! gas profiles, recorded test outcomes, and aggregated suites.

use vstd::prelude::*;

verus! {

/// Outcome of one successful invocation of an exported function.
///
/// Immutable after creation.  `memory_usage` is a constant placeholder, not a
/// measurement; callers must not treat it as accurate.
#[derive(Debug, Clone, PartialEq, Eq)]
pub struct ExecutionResult {
    pub return_value: i64,
    pub gas_used: u64,
    pub call_trace: Vec<String>,
    pub memory_usage: u64,
}

/// Mathematical image of an [`ExecutionResult`].
pub ghost struct ExecutionResultView {
    pub return_value: i64,
    pub gas_used: u64,
    pub call_trace: Seq<Seq<char>>,
    pub memory_usage: u64,
}

impl View for ExecutionResult {
    type V = ExecutionResultView;

    open spec fn view(&self) -> ExecutionResultView {
        ExecutionResultView {
            return_value: self.return_value,
            gas_used: self.gas_used,
            call_trace: self.call_trace@.map_values(|s: String| s@),
            memory_usage: self.memory_usage,
        }
    }
}

/// Gas profile of one invocation, derived purely from an [`ExecutionResult`]:
/// `instruction_count` is `gas_used / 10` by a fixed ratio, never measured,
/// and `call_depth` is always 1 (nested calls are not tracked).
#[derive(Debug, Clone, PartialEq, Eq)]
pub struct GasProfile {
    pub function_name: String,
    pub gas_used: u64,
    pub instruction_count: u64,
    pub call_depth: u32,
}

/// Mathematical image of a [`GasProfile`].
pub ghost struct GasProfileView {
    pub function_name: Seq<char>,
    pub gas_used: u64,
    pub instruction_count: u64,
    pub call_depth: u32,
}

impl View for GasProfile {
    type V = GasProfileView;

    open spec fn view(&self) -> GasProfileView {
        GasProfileView {
            function_name: self.function_name@,
            gas_used: self.gas_used,
            instruction_count: self.instruction_count,
            call_depth: self.call_depth,
        }
    }
}

/// One recorded test outcome.
#[derive(Debug, Clone, PartialEq, Eq)]
pub struct TestResult {
    pub name: String,
    pub passed: bool,
    pub execution_result: Option<ExecutionResult>,
    pub error: Option<String>,
    pub gas_profile: Option<GasProfile>,
}

/// Mathematical image of a [`TestResult`].
pub ghost struct TestResultView {
    pub name: Seq<char>,
    pub passed: bool,
    pub execution_result: Option<ExecutionResultView>,
    pub error: Option<Seq<char>>,
    pub gas_profile: Option<GasProfileView>,
}

impl View for TestResult {
    type V = TestResultView;

    open spec fn view(&self) -> TestResultView {
        TestResultView {
            name: self.name@,
            passed: self.passed,
            execution_result: match self.execution_result {
                Some(e) => Some(e@),
                None => None,
            },
            error: match self.error {
                Some(s) => Some(s@),
                None => None,
            },
            gas_profile: match self.gas_profile {
                Some(p) => Some(p@),
                None => None,
            },
        }
    }
}

impl TestResultView {
    /// Well-formedness of a recorded outcome: a failed outcome is exactly one
    /// of a pure assertion failure — an execution result is present and no
    /// error is recorded — and an error outcome — a non-empty failure
    /// description is recorded and the execution result is absent.  Never
    /// both, never neither.
    pub open spec fn wf(self) -> bool {
        !self.passed ==> {
            ||| (self.execution_result is Some && self.error is None)
            ||| (self.execution_result is None && self.error is Some
                && self.error->0.len() > 0)
        }
    }
}

/// A named, ordered collection of recorded test outcomes with aggregate
/// pass/fail counts and total gas.
#[derive(Debug, Clone, PartialEq, Eq)]
pub struct TestSuite {
    pub name: String,
    pub tests: Vec<TestResult>,
    pub total_gas: u64,
    pub passed: usize,
    pub failed: usize,
}

/// Mathematical image of a [`TestSuite`].
pub ghost struct TestSuiteView {
    pub name: Seq<char>,
    pub tests: Seq<TestResultView>,
    pub total_gas: u64,
    pub passed: usize,
    pub failed: usize,
}

impl View for TestSuite {
    type V = TestSuiteView;

    open spec fn view(&self) -> TestSuiteView {
        TestSuiteView {
            name: self.name@,
            tests: self.tests@.map_values(|t: TestResult| t@),
            total_gas: self.total_gas,
            passed: self.passed,
            failed: self.failed,
        }
    }
}

/// How many of the outcomes in `s` passed.
pub open spec fn count_passed(s: Seq<TestResultView>) -> nat
    decreases s.len(),
{
    if s.len() == 0 {
        0
    } else {
        count_passed(s.drop_last()) + (if s.last().passed {
            1nat
        } else {
            0nat
        })
    }
}

/// Total gas over the outcomes in `s`: each outcome with an execution result
/// contributes its `gas_used`; an outcome without one contributes zero.
pub open spec fn sum_gas(s: Seq<TestResultView>) -> nat
    decreases s.len(),
{
    if s.len() == 0 {
        0
    } else {
        sum_gas(s.drop_last()) + (match s.last().execution_result {
            Some(e) => e.gas_used as nat,
            None => 0nat,
        })
    }
}

/// Deep copy of a vector of strings, preserving the view of every element.
pub fn clone_strings(v: &Vec<String>) -> (r: Vec<String>)
    ensures
        r@.map_values(|s: String| s@) == v@.map_values(|s: String| s@),
{
    let mut r: Vec<String> = Vec::new();
    let mut i: usize = 0;
    while i < v.len()
        invariant
            i <= v.len(),
            r@.len() == i,
            forall|j: int| 0 <= j < i ==> r@[j]@ == v@[j]@,
        decreases v.len() - i,
    {
        r.push(v[i].clone());
        i = i + 1;
    }
    proof {
        assert(r@.map_values(|s: String| s@) =~= v@.map_values(|s: String| s@));
    }
    r
}

/// Deep copy of an execution result, preserving its view.
pub fn clone_execution_result(e: &ExecutionResult) -> (r: ExecutionResult)
    ensures
        r@ == e@,
{
    ExecutionResult {
        return_value: e.return_value,
        gas_used: e.gas_used,
        call_trace: clone_strings(&e.call_trace),
        memory_usage: e.memory_usage,
    }
}

/// Deep copy of a gas profile, preserving its view.
pub fn clone_gas_profile(p: &GasProfile) -> (r: GasProfile)
    ensures
        r@ == p@,
{
    GasProfile {
        function_name: p.function_name.clone(),
        gas_used: p.gas_used,
        instruction_count: p.instruction_count,
        call_depth: p.call_depth,
    }
}

/// Deep copy of a test result, preserving its view.
pub fn clone_test_result(t: &TestResult) -> (r: TestResult)
    ensures
        r@ == t@,
{
    TestResult {
        name: t.name.clone(),
        passed: t.passed,
        execution_result: match &t.execution_result {
            Some(e) => Some(clone_execution_result(e)),
            None => None,
        },
        error: match &t.error {
            Some(s) => Some(s.clone()),
            None => None,
        },
        gas_profile: match &t.gas_profile {
            Some(p) => Some(clone_gas_profile(p)),
            None => None,
        },
    }
}

/// Deep copy of a vector of test results, preserving the view of every element.
pub fn clone_test_results(v: &Vec<TestResult>) -> (r: Vec<TestResult>)
    ensures
        r@.map_values(|t: TestResult| t@) == v@.map_values(|t: TestResult| t@),
{
    let mut r: Vec<TestResult> = Vec::new();
    let mut i: usize = 0;
    while i < v.len()
        invariant
            i <= v.len(),
            r@.len() == i,
            forall|j: int| 0 <= j < i ==> r@[j]@ == v@[j]@,
        decreases v.len() - i,
    {
        r.push(clone_test_result(&v[i]));
        i = i + 1;
    }
    proof {
        assert(r@.map_values(|t: TestResult| t@) =~= v@.map_values(|t: TestResult| t@));
    }
    r
}

} // verus!
