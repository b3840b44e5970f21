use stylus_harness::StylusRunner;
use stylus_harness::StylusRuntime;

fn add_module() -> Vec<u8> {
    wat::parse_str(
        r#"
        (module
            (func (export "add") (param i64 i64) (result i64)
                local.get 0
                local.get 1
                i64.add)
        )
    "#,
    )
    .unwrap()
}

#[test]
fn test_runtime_creation() {
    let wasm = add_module();
    let runtime = StylusRuntime::new(&wasm);
    assert!(runtime.is_ok());
}

#[test]
fn test_runner_basic() {
    let wasm = add_module();
    let mut runner = StylusRunner::new(&wasm).unwrap();
    let result = runner.call("add", &[5, 3]).unwrap();
    assert_eq!(result, 8);
}

#[test]
fn test_simple_add() {
    let wasm = add_module();
    let mut runner = StylusRunner::new(&wasm).unwrap();
    runner.assert_eq("add_test", "add", &[5, 3], 8);

    let suite = runner.finalize_suite("basic_tests");
    assert_eq!(suite.passed, 1);
    assert_eq!(suite.failed, 0);
}

#[test]
fn test_gas_profiling() {
    let wasm = wat::parse_str(
        r#"
        (module
            (func (export "multiply") (param i64 i64) (result i64)
                local.get 0
                local.get 1
                i64.mul)
        )
    "#,
    )
    .unwrap();

    let mut runner = StylusRunner::new(&wasm).unwrap();
    let profile = runner.profile_function("multiply", &[4, 5]).unwrap();

    assert_eq!(profile.function_name, "multiply");
    assert!(profile.gas_used > 0);
}
