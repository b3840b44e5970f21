use stylus_harness::deserialize_suite;
use stylus_harness::is_wasm_artifact;
use stylus_harness::serialize_suite;
use stylus_harness::RawReturn;
use stylus_harness::StylusRunner;
use stylus_harness::TestSuite;

fn add_module() -> Vec<u8> {
    wat::parse_str(
        r#"
        (module
            (func (export "add") (param i64 i64) (result i64)
                local.get 0
                local.get 1
                i64.add)
        )
    "#,
    )
    .unwrap()
}

#[test]
fn serialize_empty_suite_exact_form() {
    let suite = TestSuite {
        name: "s".to_string(),
        tests: Vec::new(),
        total_gas: 0,
        passed: 0,
        failed: 0,
    };
    let text = serialize_suite(&suite);
    assert_eq!(text, "S{name=1:stests=0;total_gas=0;passed=0;failed=0;}");
}

#[test]
fn roundtrip_populated_suite() {
    let wasm = add_module();
    let mut runner = StylusRunner::new(&wasm).unwrap();
    runner.assert_eq("passes", "add", &[5, 3], 8);
    runner.assert_eq("fails_value", "add", &[5, 3], 9);
    runner.assert_eq("fails_missing", "missing", &[1], 0);
    runner.assert_gas_limit("limit", "add", &[5, 3], 0);
    let suite = runner.finalize_suite("roundtrip");

    let text = serialize_suite(&suite);
    let back = deserialize_suite(&text).unwrap();
    assert_eq!(back, suite);
}

#[test]
fn roundtrip_keeps_awkward_characters() {
    let suite = TestSuite {
        name: "na;me=with{delimiters}:and spaces".to_string(),
        tests: Vec::new(),
        total_gas: 7,
        passed: 0,
        failed: 0,
    };
    let text = serialize_suite(&suite);
    let back = deserialize_suite(&text).unwrap();
    assert_eq!(back, suite);
}

#[test]
fn deserialize_rejects_garbage() {
    assert!(deserialize_suite("").is_none());
    assert!(deserialize_suite("not a suite").is_none());
    assert!(deserialize_suite("S{name=1:s").is_none());
}

#[test]
fn deserialize_rejects_trailing_input() {
    let suite = TestSuite {
        name: "s".to_string(),
        tests: Vec::new(),
        total_gas: 0,
        passed: 0,
        failed: 0,
    };
    let mut text = serialize_suite(&suite);
    text.push('x');
    assert!(deserialize_suite(&text).is_none());
}

#[test]
fn coerce_return_cases() {
    assert_eq!(stylus_harness::coerce_return(RawReturn::I64(42)), 42);
    assert_eq!(stylus_harness::coerce_return(RawReturn::I32(-1)), -1);
    assert_eq!(stylus_harness::coerce_return(RawReturn::Absent), 0);
}

#[test]
fn wasm_artifact_names() {
    assert!(is_wasm_artifact("contract.wasm"));
    assert!(is_wasm_artifact(".wasm"));
    assert!(!is_wasm_artifact("contract.wat"));
    assert!(!is_wasm_artifact("wasm"));
    assert!(!is_wasm_artifact("contract.wasm.txt"));
}
