use stylus_harness::EngineError;
use stylus_harness::GasTable;
use stylus_harness::StylusRunner;
use stylus_harness::StylusRuntime;

fn add_module() -> Vec<u8> {
    wat::parse_str(
        r#"
        (module
            (func (export "add") (param i64 i64) (result i64)
                local.get 0
                local.get 1
                i64.add)
        )
    "#,
    )
    .unwrap()
}

#[test]
fn suite_counts_partition_tests() {
    let wasm = add_module();
    let mut runner = StylusRunner::new(&wasm).unwrap();
    runner.assert_eq("passes", "add", &[2, 2], 4);
    runner.assert_eq("fails_value", "add", &[2, 2], 5);
    runner.assert_eq("fails_missing", "missing", &[], 0);
    let suite = runner.finalize_suite("counts");
    assert_eq!(suite.tests.len(), 3);
    assert_eq!(suite.passed, 1);
    assert_eq!(suite.failed, 2);
    assert_eq!(suite.passed + suite.failed, suite.tests.len());
}

#[test]
fn total_gas_sums_present_results_only() {
    let wasm = add_module();
    let mut runner = StylusRunner::new(&wasm).unwrap();
    // two-argument calls cost 100 + 2 * 10 each, recorded whether or not the
    // expectation matches; a missing export records no execution result
    runner.assert_eq("a", "add", &[1, 2], 3);
    runner.assert_eq("b", "add", &[1, 2], 99);
    runner.assert_eq("c", "missing", &[], 0);
    let suite = runner.finalize_suite("gas");
    assert_eq!(suite.total_gas, 240);
}

#[test]
fn failed_results_have_exactly_one_failure_shape() {
    let wasm = add_module();
    let mut runner = StylusRunner::new(&wasm).unwrap();
    let mismatch = runner.test("mismatch", "add", &[2, 2], 5);
    assert!(!mismatch.passed);
    assert!(mismatch.execution_result.is_some());
    assert!(mismatch.error.is_none());

    let engine_failure = runner.test("missing", "missing", &[], 0);
    assert!(!engine_failure.passed);
    assert!(engine_failure.execution_result.is_none());
    assert!(engine_failure.error.is_some());
}

#[test]
fn gas_limit_within_limit_passes() {
    let wasm = add_module();
    let mut runner = StylusRunner::new(&wasm).unwrap();
    // measured gas is 100 + 2 * 10 = 120
    runner.assert_gas_limit("cheap", "add", &[1, 2], 120);
    let suite = runner.finalize_suite("limits");
    assert_eq!(suite.passed, 1);
    assert_eq!(suite.failed, 0);
    let result = &suite.tests[0];
    assert_eq!(result.name, "cheap (gas limit)");
    assert!(result.passed);
    assert!(result.error.is_none());
}

#[test]
fn gas_limit_exceeded_names_both_values() {
    let wasm = add_module();
    let mut runner = StylusRunner::new(&wasm).unwrap();
    // measured gas is 100 + 2 * 10 = 120, which exceeds a limit of zero
    runner.assert_gas_limit("expensive", "add", &[1, 2], 0);
    let suite = runner.finalize_suite("limits");
    assert_eq!(suite.failed, 1);
    let result = &suite.tests[0];
    assert!(!result.passed);
    assert!(result.execution_result.is_none());
    assert_eq!(result.error.as_deref(), Some("Gas limit exceeded: 120 > 0"));
}

#[test]
fn gas_estimate_monotone_in_argument_count() {
    let table = GasTable::defaults();
    assert_eq!(table.estimate(0), 100);
    assert_eq!(table.estimate(1), 110);
    assert_eq!(table.estimate(2), 120);
    assert_eq!(table.estimate(3), 130);
    let mut previous: u64 = 0;
    for argc in 0..10 {
        let estimate = table.estimate(argc);
        assert!(estimate >= previous);
        previous = estimate;
    }
}

#[test]
fn two_argument_add_returns_sum() {
    let wasm = add_module();
    let mut runner = StylusRunner::new(&wasm).unwrap();
    assert_eq!(runner.call("add", &[5, 3]).unwrap(), 8);
}

#[test]
fn missing_export_records_error_result() {
    let wasm = add_module();
    let mut runner = StylusRunner::new(&wasm).unwrap();
    let result = runner.test("absent", "missing", &[], 0);
    assert!(!result.passed);
    assert!(result.execution_result.is_none());
    let error = result.error.unwrap();
    assert!(!error.is_empty());
    assert_eq!(error, "Function 'missing' not found");
}

#[test]
fn mismatched_expectation_keeps_execution_result() {
    let wasm = add_module();
    let mut runner = StylusRunner::new(&wasm).unwrap();
    let result = runner.test("wrong", "add", &[5, 3], 10);
    assert!(!result.passed);
    let execution = result.execution_result.unwrap();
    assert_eq!(execution.return_value, 8);
    assert!(result.error.is_none());
}

#[test]
fn load_failure_is_module_load_error() {
    let not_wasm: Vec<u8> = vec![0xde, 0xad, 0xbe, 0xef];
    match StylusRuntime::new(&not_wasm) {
        Err(EngineError::ModuleLoad(message)) => assert!(!message.is_empty()),
        _ => panic!("expected a module load failure"),
    }
}

#[test]
fn bare_call_propagates_function_not_found() {
    let wasm = add_module();
    let mut runner = StylusRunner::new(&wasm).unwrap();
    match runner.call("missing", &[]) {
        Err(EngineError::FunctionNotFound(message)) => {
            assert_eq!(message, "Function 'missing' not found");
        },
        _ => panic!("expected a function-not-found failure"),
    }
}

#[test]
fn trap_is_execution_trap_error() {
    let wasm = wat::parse_str(
        r#"
        (module
            (func (export "boom") (result i64)
                unreachable)
        )
    "#,
    )
    .unwrap();
    let mut runner = StylusRunner::new(&wasm).unwrap();
    match runner.call("boom", &[]) {
        Err(EngineError::ExecutionTrap(message)) => assert!(!message.is_empty()),
        other => panic!("expected an execution trap, got {:?}", other),
    }
}

#[test]
fn instrumentation_records_one_trace_line() {
    let wasm = add_module();
    let mut runtime = StylusRuntime::new(&wasm).unwrap();
    let traced = runtime.execute_function("add", &[1, 2]).unwrap();
    assert_eq!(traced.call_trace, vec!["Calling function: add".to_string()]);
    assert_eq!(traced.memory_usage, 1024);

    runtime.enable_instrumentation(false);
    let quiet = runtime.execute_function("add", &[1, 2]).unwrap();
    assert!(quiet.call_trace.is_empty());
}

#[test]
fn profile_derives_fixed_ratio_and_depth() {
    let wasm = add_module();
    let mut runtime = StylusRuntime::new(&wasm).unwrap();
    let profile = runtime.profile_function("add", &[1, 2]).unwrap();
    assert_eq!(profile.gas_used, 120);
    assert_eq!(profile.instruction_count, 12);
    assert_eq!(profile.call_depth, 1);
    assert_eq!(profile.function_name, "add");
}

#[test]
fn thirty_two_bit_results_sign_extend() {
    let wasm = wat::parse_str(
        r#"
        (module
            (func (export "minus_one") (result i32)
                i32.const -1)
        )
    "#,
    )
    .unwrap();
    let mut runner = StylusRunner::new(&wasm).unwrap();
    assert_eq!(runner.call("minus_one", &[]).unwrap(), -1);
}

#[test]
fn absent_return_value_yields_zero() {
    let wasm = wat::parse_str(
        r#"
        (module
            (func (export "nothing"))
        )
    "#,
    )
    .unwrap();
    let mut runner = StylusRunner::new(&wasm).unwrap();
    assert_eq!(runner.call("nothing", &[]).unwrap(), 0);
}

#[test]
fn each_invocation_starts_from_a_fresh_instance() {
    // the engine instantiates the module afresh on every invocation, so
    // mutable module state does not persist across calls
    let wasm = wat::parse_str(
        r#"
        (module
            (global $count (mut i64) (i64.const 0))
            (func (export "bump") (result i64)
                global.get $count
                i64.const 1
                i64.add
                global.set $count
                global.get $count)
        )
    "#,
    )
    .unwrap();
    let mut runner = StylusRunner::new(&wasm).unwrap();
    assert_eq!(runner.call("bump", &[]).unwrap(), 1);
    assert_eq!(runner.call("bump", &[]).unwrap(), 1);
}

#[test]
fn module_needing_host_imports_fails_as_trap() {
    // the minimal host environment resolves no imports, so instantiation of
    // an importing module fails and is reported as a trap
    let wasm = wat::parse_str(
        r#"
        (module
            (import "env" "hook" (func $hook))
            (func (export "go") (result i64)
                call $hook
                i64.const 1)
        )
    "#,
    )
    .unwrap();
    let mut runner = StylusRunner::new(&wasm).unwrap();
    match runner.call("go", &[]) {
        Err(EngineError::ExecutionTrap(message)) => assert!(!message.is_empty()),
        other => panic!("expected an execution trap, got {:?}", other),
    }
}
