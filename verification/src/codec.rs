//! A structured, nested, field-named text serialization of finalized suites,
//! with a verified parser and a proof that parsing inverts serialization.
//!
//! Strings are length-prefixed (so any character content round-trips),
//! numbers are decimal with a terminator, options are tagged `S`/`N`, and
//! every record carries its field names.

use crate::decimal::lemma_roundtrip_i64;
use crate::decimal::lemma_roundtrip_num;
use crate::decimal::parse_num;
use crate::decimal::push_i64;
use crate::decimal::push_num;
use crate::decimal::spec_i64;
use crate::decimal::spec_num;
use crate::decimal::spec_parse_i64;
use crate::decimal::spec_parse_num;
use crate::decimal::str_to_chars;
use crate::results::ExecutionResult;
use crate::results::ExecutionResultView;
use crate::results::GasProfile;
use crate::results::GasProfileView;
use crate::results::TestResult;
use crate::results::TestResultView;
use crate::results::TestSuite;
use crate::results::TestSuiteView;
use vstd::prelude::*;
use vstd::string::StrSliceExecFns;
use vstd::string::StringExecFns;

verus! {

/// A serialized string: its character count, a colon, then its characters.
pub open spec fn spec_str(s: Seq<char>) -> Seq<char> {
    spec_num(s.len(), ':') + s
}

/// Parses a length-prefixed string.
pub open spec fn spec_parse_str(input: Seq<char>) -> Option<(Seq<char>, Seq<char>)> {
    match spec_parse_num(input, ':', 0, false) {
        Some((n, rest)) => if n <= rest.len() {
            Some((rest.take(n as int), rest.skip(n as int)))
        } else {
            None
        },
        None => None,
    }
}

proof fn lemma_rt_str(s: Seq<char>, rest: Seq<char>)
    requires
        s.len() <= u64::MAX,
    ensures
        spec_parse_str(spec_str(s) + rest) == Some((s, rest)),
{
    assert(spec_str(s) + rest =~= spec_num(s.len(), ':') + (s + rest));
    lemma_roundtrip_num(s.len() as u64, ':', s + rest);
    assert((s + rest).take(s.len() as int) =~= s);
    assert((s + rest).skip(s.len() as int) =~= rest);
}

/// A serialized boolean: `T` or `F`.
pub open spec fn spec_bool(b: bool) -> Seq<char> {
    if b {
        seq!['T']
    } else {
        seq!['F']
    }
}

/// Parses a serialized boolean.
pub open spec fn spec_parse_bool(input: Seq<char>) -> Option<(bool, Seq<char>)> {
    if input.len() == 0 {
        None
    } else if input[0] == 'T' {
        Some((true, input.drop_first()))
    } else if input[0] == 'F' {
        Some((false, input.drop_first()))
    } else {
        None
    }
}

proof fn lemma_rt_bool(b: bool, rest: Seq<char>)
    ensures
        spec_parse_bool(spec_bool(b) + rest) == Some((b, rest)),
{
    assert((spec_bool(b) + rest).drop_first() =~= rest);
}

/// Consumes the exact literal `lit` from the head of `input`.
pub open spec fn spec_expect(input: Seq<char>, lit: Seq<char>) -> Option<Seq<char>> {
    if lit.len() <= input.len() && input.take(lit.len() as int) == lit {
        Some(input.skip(lit.len() as int))
    } else {
        None
    }
}

proof fn lemma_expect(lit: Seq<char>, rest: Seq<char>)
    ensures
        spec_expect(lit + rest, lit) == Some(rest),
{
    assert((lit + rest).take(lit.len() as int) =~= lit);
    assert((lit + rest).skip(lit.len() as int) =~= rest);
}

/// A serialized execution result, with its four named fields.
pub open spec fn spec_ser_exec(e: ExecutionResultView) -> Seq<char> {
    "E{rv="@ + spec_i64(e.return_value, ';') + "gas="@ + spec_num(e.gas_used as nat, ';')
        + "trace="@ + spec_ser_trace(e.call_trace) + "mem="@ + spec_num(e.memory_usage as nat, ';')
        + "}"@
}

/// A serialized call trace: its length, then its lines in order.
pub open spec fn spec_ser_trace(lines: Seq<Seq<char>>) -> Seq<char> {
    spec_num(lines.len(), ';') + spec_ser_trace_items(lines)
}

/// The lines of a call trace, serialized in order.
pub open spec fn spec_ser_trace_items(lines: Seq<Seq<char>>) -> Seq<char>
    decreases lines.len(),
{
    if lines.len() == 0 {
        Seq::<char>::empty()
    } else {
        spec_str(lines.first()) + spec_ser_trace_items(lines.drop_first())
    }
}

/// Parses `count` consecutive length-prefixed strings.
pub open spec fn spec_parse_trace_items(input: Seq<char>, count: u64) -> Option<
    (Seq<Seq<char>>, Seq<char>),
>
    decreases count,
{
    if count == 0 {
        Some((Seq::<Seq<char>>::empty(), input))
    } else {
        match spec_parse_str(input) {
            Some((s, rest)) => match spec_parse_trace_items(rest, (count - 1) as u64) {
                Some((ss, rest2)) => Some((seq![s] + ss, rest2)),
                None => None,
            },
            None => None,
        }
    }
}

/// Parses a serialized call trace.
pub open spec fn spec_parse_trace(input: Seq<char>) -> Option<(Seq<Seq<char>>, Seq<char>)> {
    match spec_parse_num(input, ';', 0, false) {
        Some((n, rest)) => spec_parse_trace_items(rest, n),
        None => None,
    }
}

/// Parses a serialized execution result.
pub open spec fn spec_parse_exec(input: Seq<char>) -> Option<(ExecutionResultView, Seq<char>)> {
    match spec_expect(input, "E{rv="@) {
        Some(r1) => match spec_parse_i64(r1, ';') {
            Some((rv, r2)) => match spec_expect(r2, "gas="@) {
                Some(r3) => match spec_parse_num(r3, ';', 0, false) {
                    Some((gas, r4)) => match spec_expect(r4, "trace="@) {
                        Some(r5) => match spec_parse_trace(r5) {
                            Some((trace, r6)) => match spec_expect(r6, "mem="@) {
                                Some(r7) => match spec_parse_num(r7, ';', 0, false) {
                                    Some((mem, r8)) => match spec_expect(r8, "}"@) {
                                        Some(r9) => Some(
                                            (
                                                ExecutionResultView {
                                                    return_value: rv,
                                                    gas_used: gas,
                                                    call_trace: trace,
                                                    memory_usage: mem,
                                                },
                                                r9,
                                            ),
                                        ),
                                        None => None,
                                    },
                                    None => None,
                                },
                                None => None,
                            },
                            None => None,
                        },
                        None => None,
                    },
                    None => None,
                },
                None => None,
            },
            None => None,
        },
        None => None,
    }
}

/// Whether every string in the trace, and the trace itself, fits the length
/// prefix.
pub open spec fn bounded_trace(lines: Seq<Seq<char>>) -> bool {
    &&& lines.len() <= u64::MAX
    &&& forall|i: int| 0 <= i < lines.len() ==> (#[trigger] lines[i]).len() <= u64::MAX
}

proof fn lemma_rt_trace_items(lines: Seq<Seq<char>>, rest: Seq<char>)
    requires
        bounded_trace(lines),
    ensures
        spec_parse_trace_items(spec_ser_trace_items(lines) + rest, lines.len() as u64) == Some(
            (lines, rest),
        ),
    decreases lines.len(),
{
    if lines.len() == 0 {
        assert(spec_ser_trace_items(lines) + rest =~= rest);
        assert(seq![] + Seq::<Seq<char>>::empty() =~= Seq::<Seq<char>>::empty());
    } else {
        let tail = lines.drop_first();
        assert(bounded_trace(tail)) by {
            assert(forall|i: int|
                0 <= i < tail.len() ==> (#[trigger] tail[i]).len() == lines[i + 1].len());
        }
        assert(spec_ser_trace_items(lines) + rest =~= spec_str(lines.first()) + (
        spec_ser_trace_items(tail) + rest));
        assert(lines.first().len() <= u64::MAX);
        lemma_rt_str(lines.first(), spec_ser_trace_items(tail) + rest);
        lemma_rt_trace_items(tail, rest);
        assert(seq![lines.first()] + tail =~= lines);
    }
}

proof fn lemma_rt_trace(lines: Seq<Seq<char>>, rest: Seq<char>)
    requires
        bounded_trace(lines),
    ensures
        spec_parse_trace(spec_ser_trace(lines) + rest) == Some((lines, rest)),
{
    assert(spec_ser_trace(lines) + rest =~= spec_num(lines.len(), ';') + (spec_ser_trace_items(
        lines,
    ) + rest));
    lemma_roundtrip_num(lines.len() as u64, ';', spec_ser_trace_items(lines) + rest);
    lemma_rt_trace_items(lines, rest);
}

/// Whether an execution result fits the serialization's length prefixes.
pub open spec fn bounded_exec(e: ExecutionResultView) -> bool {
    bounded_trace(e.call_trace)
}

proof fn lemma_rt_exec(e: ExecutionResultView, rest: Seq<char>)
    requires
        bounded_exec(e),
    ensures
        spec_parse_exec(spec_ser_exec(e) + rest) == Some((e, rest)),
{
    let l1 = "E{rv="@;
    let l2 = "gas="@;
    let l3 = "trace="@;
    let l4 = "mem="@;
    let l5 = "}"@;
    let p1 = spec_i64(e.return_value, ';');
    let p2 = spec_num(e.gas_used as nat, ';');
    let p3 = spec_ser_trace(e.call_trace);
    let p4 = spec_num(e.memory_usage as nat, ';');
    let s4 = l5 + rest;
    let s3 = l4 + (p4 + s4);
    let s2 = l3 + (p3 + s3);
    let s1 = l2 + (p2 + s2);
    let s0 = l1 + (p1 + s1);
    assert(spec_ser_exec(e) + rest =~= s0);
    lemma_expect(l1, p1 + s1);
    lemma_roundtrip_i64(e.return_value, ';', s1);
    lemma_expect(l2, p2 + s2);
    lemma_roundtrip_num(e.gas_used, ';', s2);
    lemma_expect(l3, p3 + s3);
    lemma_rt_trace(e.call_trace, s3);
    lemma_expect(l4, p4 + s4);
    lemma_roundtrip_num(e.memory_usage, ';', s4);
    lemma_expect(l5, rest);
    assert(spec_parse_exec(s0) == Some((e, rest)));
}

/// A serialized gas profile, with its four named fields.
pub open spec fn spec_ser_profile(p: GasProfileView) -> Seq<char> {
    "P{fn="@ + spec_str(p.function_name) + "gas="@ + spec_num(p.gas_used as nat, ';') + "ic="@
        + spec_num(p.instruction_count as nat, ';') + "depth="@ + spec_num(
        p.call_depth as nat,
        ';',
    ) + "}"@
}

/// Parses a serialized gas profile.
pub open spec fn spec_parse_profile(input: Seq<char>) -> Option<(GasProfileView, Seq<char>)> {
    match spec_expect(input, "P{fn="@) {
        Some(r1) => match spec_parse_str(r1) {
            Some((name, r2)) => match spec_expect(r2, "gas="@) {
                Some(r3) => match spec_parse_num(r3, ';', 0, false) {
                    Some((gas, r4)) => match spec_expect(r4, "ic="@) {
                        Some(r5) => match spec_parse_num(r5, ';', 0, false) {
                            Some((ic, r6)) => match spec_expect(r6, "depth="@) {
                                Some(r7) => match spec_parse_num(r7, ';', 0, false) {
                                    Some((depth, r8)) => if depth <= u32::MAX {
                                        match spec_expect(r8, "}"@) {
                                            Some(r9) => Some(
                                                (
                                                    GasProfileView {
                                                        function_name: name,
                                                        gas_used: gas,
                                                        instruction_count: ic,
                                                        call_depth: depth as u32,
                                                    },
                                                    r9,
                                                ),
                                            ),
                                            None => None,
                                        }
                                    } else {
                                        None
                                    },
                                    None => None,
                                },
                                None => None,
                            },
                            None => None,
                        },
                        None => None,
                    },
                    None => None,
                },
                None => None,
            },
            None => None,
        },
        None => None,
    }
}

/// Whether a gas profile fits the serialization's length prefixes.
pub open spec fn bounded_profile(p: GasProfileView) -> bool {
    p.function_name.len() <= u64::MAX
}

proof fn lemma_rt_profile(p: GasProfileView, rest: Seq<char>)
    requires
        bounded_profile(p),
    ensures
        spec_parse_profile(spec_ser_profile(p) + rest) == Some((p, rest)),
{
    let l1 = "P{fn="@;
    let l2 = "gas="@;
    let l3 = "ic="@;
    let l4 = "depth="@;
    let l5 = "}"@;
    let p1 = spec_str(p.function_name);
    let p2 = spec_num(p.gas_used as nat, ';');
    let p3 = spec_num(p.instruction_count as nat, ';');
    let p4 = spec_num(p.call_depth as nat, ';');
    let s4 = l5 + rest;
    let s3 = l4 + (p4 + s4);
    let s2 = l3 + (p3 + s3);
    let s1 = l2 + (p2 + s2);
    let s0 = l1 + (p1 + s1);
    assert(spec_ser_profile(p) + rest =~= s0);
    lemma_expect(l1, p1 + s1);
    lemma_rt_str(p.function_name, s1);
    lemma_expect(l2, p2 + s2);
    lemma_roundtrip_num(p.gas_used, ';', s2);
    lemma_expect(l3, p3 + s3);
    lemma_roundtrip_num(p.instruction_count, ';', s3);
    lemma_expect(l4, p4 + s4);
    lemma_roundtrip_num(p.call_depth as u64, ';', s4);
    lemma_expect(l5, rest);
    assert(spec_parse_profile(s0) == Some((p, rest)));
}

/// A serialized optional execution result: `N`, or `S` and the payload.
pub open spec fn spec_ser_opt_exec(o: Option<ExecutionResultView>) -> Seq<char> {
    match o {
        None => seq!['N'],
        Some(e) => seq!['S'] + spec_ser_exec(e),
    }
}

/// Parses a serialized optional execution result.
pub open spec fn spec_parse_opt_exec(input: Seq<char>) -> Option<
    (Option<ExecutionResultView>, Seq<char>),
> {
    if input.len() == 0 {
        None
    } else if input[0] == 'N' {
        Some((None, input.drop_first()))
    } else if input[0] == 'S' {
        match spec_parse_exec(input.drop_first()) {
            Some((e, rest)) => Some((Some(e), rest)),
            None => None,
        }
    } else {
        None
    }
}

/// A serialized optional string: `N`, or `S` and the payload.
pub open spec fn spec_ser_opt_str(o: Option<Seq<char>>) -> Seq<char> {
    match o {
        None => seq!['N'],
        Some(s) => seq!['S'] + spec_str(s),
    }
}

/// Parses a serialized optional string.
pub open spec fn spec_parse_opt_str(input: Seq<char>) -> Option<(Option<Seq<char>>, Seq<char>)> {
    if input.len() == 0 {
        None
    } else if input[0] == 'N' {
        Some((None, input.drop_first()))
    } else if input[0] == 'S' {
        match spec_parse_str(input.drop_first()) {
            Some((s, rest)) => Some((Some(s), rest)),
            None => None,
        }
    } else {
        None
    }
}

/// A serialized optional gas profile: `N`, or `S` and the payload.
pub open spec fn spec_ser_opt_profile(o: Option<GasProfileView>) -> Seq<char> {
    match o {
        None => seq!['N'],
        Some(p) => seq!['S'] + spec_ser_profile(p),
    }
}

/// Parses a serialized optional gas profile.
pub open spec fn spec_parse_opt_profile(input: Seq<char>) -> Option<
    (Option<GasProfileView>, Seq<char>),
> {
    if input.len() == 0 {
        None
    } else if input[0] == 'N' {
        Some((None, input.drop_first()))
    } else if input[0] == 'S' {
        match spec_parse_profile(input.drop_first()) {
            Some((p, rest)) => Some((Some(p), rest)),
            None => None,
        }
    } else {
        None
    }
}

proof fn lemma_rt_opt_exec(o: Option<ExecutionResultView>, rest: Seq<char>)
    requires
        o is Some ==> bounded_exec(o->0),
    ensures
        spec_parse_opt_exec(spec_ser_opt_exec(o) + rest) == Some((o, rest)),
{
    match o {
        None => {
            assert((seq!['N'] + rest).drop_first() =~= rest);
        },
        Some(e) => {
            let s = spec_ser_opt_exec(o) + rest;
            assert(s[0] == 'S');
            assert(s.drop_first() =~= spec_ser_exec(e) + rest);
            lemma_rt_exec(e, rest);
        },
    }
}

proof fn lemma_rt_opt_str(o: Option<Seq<char>>, rest: Seq<char>)
    requires
        o is Some ==> o->0.len() <= u64::MAX,
    ensures
        spec_parse_opt_str(spec_ser_opt_str(o) + rest) == Some((o, rest)),
{
    match o {
        None => {
            assert((seq!['N'] + rest).drop_first() =~= rest);
        },
        Some(s) => {
            let whole = spec_ser_opt_str(o) + rest;
            assert(whole[0] == 'S');
            assert(whole.drop_first() =~= spec_str(s) + rest);
            lemma_rt_str(s, rest);
        },
    }
}

proof fn lemma_rt_opt_profile(o: Option<GasProfileView>, rest: Seq<char>)
    requires
        o is Some ==> bounded_profile(o->0),
    ensures
        spec_parse_opt_profile(spec_ser_opt_profile(o) + rest) == Some((o, rest)),
{
    match o {
        None => {
            assert((seq!['N'] + rest).drop_first() =~= rest);
        },
        Some(p) => {
            let whole = spec_ser_opt_profile(o) + rest;
            assert(whole[0] == 'S');
            assert(whole.drop_first() =~= spec_ser_profile(p) + rest);
            lemma_rt_profile(p, rest);
        },
    }
}

/// A serialized test result, with its five named fields.
pub open spec fn spec_ser_result(t: TestResultView) -> Seq<char> {
    "T{name="@ + spec_str(t.name) + "passed="@ + spec_bool(t.passed) + "exec="@
        + spec_ser_opt_exec(t.execution_result) + "error="@ + spec_ser_opt_str(t.error)
        + "profile="@ + spec_ser_opt_profile(t.gas_profile) + "}"@
}

/// Parses a serialized test result.
pub open spec fn spec_parse_result(input: Seq<char>) -> Option<(TestResultView, Seq<char>)> {
    match spec_expect(input, "T{name="@) {
        Some(r1) => match spec_parse_str(r1) {
            Some((name, r2)) => match spec_expect(r2, "passed="@) {
                Some(r3) => match spec_parse_bool(r3) {
                    Some((passed, r4)) => match spec_expect(r4, "exec="@) {
                        Some(r5) => match spec_parse_opt_exec(r5) {
                            Some((execution_result, r6)) => match spec_expect(r6, "error="@) {
                                Some(r7) => match spec_parse_opt_str(r7) {
                                    Some((error, r8)) => match spec_expect(r8, "profile="@) {
                                        Some(r9) => match spec_parse_opt_profile(r9) {
                                            Some((gas_profile, r10)) => match spec_expect(
                                                r10,
                                                "}"@,
                                            ) {
                                                Some(r11) => Some(
                                                    (
                                                        TestResultView {
                                                            name,
                                                            passed,
                                                            execution_result,
                                                            error,
                                                            gas_profile,
                                                        },
                                                        r11,
                                                    ),
                                                ),
                                                None => None,
                                            },
                                            None => None,
                                        },
                                        None => None,
                                    },
                                    None => None,
                                },
                                None => None,
                            },
                            None => None,
                        },
                        None => None,
                    },
                    None => None,
                },
                None => None,
            },
            None => None,
        },
        None => None,
    }
}

/// Whether a test result fits the serialization's length prefixes.
pub open spec fn bounded_result(t: TestResultView) -> bool {
    &&& t.name.len() <= u64::MAX
    &&& (t.execution_result is Some ==> bounded_exec(t.execution_result->0))
    &&& (t.error is Some ==> t.error->0.len() <= u64::MAX)
    &&& (t.gas_profile is Some ==> bounded_profile(t.gas_profile->0))
}

#[verifier::rlimit(100)]
proof fn lemma_rt_result(t: TestResultView, rest: Seq<char>)
    requires
        bounded_result(t),
    ensures
        spec_parse_result(spec_ser_result(t) + rest) == Some((t, rest)),
{
    let l1 = "T{name="@;
    let l2 = "passed="@;
    let l3 = "exec="@;
    let l4 = "error="@;
    let l5 = "profile="@;
    let l6 = "}"@;
    let p1 = spec_str(t.name);
    let p2 = spec_bool(t.passed);
    let p3 = spec_ser_opt_exec(t.execution_result);
    let p4 = spec_ser_opt_str(t.error);
    let p5 = spec_ser_opt_profile(t.gas_profile);
    let s5 = l6 + rest;
    let s4 = l5 + (p5 + s5);
    let s3 = l4 + (p4 + s4);
    let s2 = l3 + (p3 + s3);
    let s1 = l2 + (p2 + s2);
    let s0 = l1 + (p1 + s1);
    assert(spec_ser_result(t) + rest =~= s0) by {
        assert(spec_ser_result(t) + rest =~= l1 + (p1 + (l2 + (p2 + (l3 + (p3 + (l4 + (p4 + (l5 + (
        p5 + (l6 + rest)))))))))));
    }
    assert(spec_expect(s0, l1) == Some(p1 + s1)) by {
        lemma_expect(l1, p1 + s1);
    }
    assert(spec_parse_str(p1 + s1) == Some((t.name, s1))) by {
        lemma_rt_str(t.name, s1);
    }
    assert(spec_expect(s1, l2) == Some(p2 + s2)) by {
        lemma_expect(l2, p2 + s2);
    }
    assert(spec_parse_bool(p2 + s2) == Some((t.passed, s2))) by {
        lemma_rt_bool(t.passed, s2);
    }
    assert(spec_expect(s2, l3) == Some(p3 + s3)) by {
        lemma_expect(l3, p3 + s3);
    }
    assert(spec_parse_opt_exec(p3 + s3) == Some((t.execution_result, s3))) by {
        lemma_rt_opt_exec(t.execution_result, s3);
    }
    assert(spec_expect(s3, l4) == Some(p4 + s4)) by {
        lemma_expect(l4, p4 + s4);
    }
    assert(spec_parse_opt_str(p4 + s4) == Some((t.error, s4))) by {
        lemma_rt_opt_str(t.error, s4);
    }
    assert(spec_expect(s4, l5) == Some(p5 + s5)) by {
        lemma_expect(l5, p5 + s5);
    }
    assert(spec_parse_opt_profile(p5 + s5) == Some((t.gas_profile, s5))) by {
        lemma_rt_opt_profile(t.gas_profile, s5);
    }
    assert(spec_expect(s5, l6) == Some(rest)) by {
        lemma_expect(l6, rest);
    }
    assert(spec_parse_result(s0) == Some((t, rest)));
}

/// The outcomes of a suite, serialized in order.
pub open spec fn spec_ser_result_items(ts: Seq<TestResultView>) -> Seq<char>
    decreases ts.len(),
{
    if ts.len() == 0 {
        Seq::<char>::empty()
    } else {
        spec_ser_result(ts.first()) + spec_ser_result_items(ts.drop_first())
    }
}

/// Parses `count` consecutive serialized test results.
pub open spec fn spec_parse_result_items(input: Seq<char>, count: u64) -> Option<
    (Seq<TestResultView>, Seq<char>),
>
    decreases count,
{
    if count == 0 {
        Some((Seq::<TestResultView>::empty(), input))
    } else {
        match spec_parse_result(input) {
            Some((t, rest)) => match spec_parse_result_items(rest, (count - 1) as u64) {
                Some((ts, rest2)) => Some((seq![t] + ts, rest2)),
                None => None,
            },
            None => None,
        }
    }
}

#[verifier::rlimit(80)]
proof fn lemma_rt_result_items(ts: Seq<TestResultView>, rest: Seq<char>)
    requires
        ts.len() <= u64::MAX,
        forall|i: int| 0 <= i < ts.len() ==> bounded_result(#[trigger] ts[i]),
    ensures
        spec_parse_result_items(spec_ser_result_items(ts) + rest, ts.len() as u64) == Some(
            (ts, rest),
        ),
    decreases ts.len(),
{
    if ts.len() == 0 {
        assert(spec_ser_result_items(ts) + rest =~= rest);
        assert(Seq::<TestResultView>::empty() =~= ts);
    } else {
        let tail = ts.drop_first();
        assert(forall|i: int|
            0 <= i < tail.len() ==> bounded_result(#[trigger] tail[i]) && tail[i] == ts[i + 1]);
        assert(spec_ser_result_items(ts) + rest =~= spec_ser_result(ts.first()) + (
        spec_ser_result_items(tail) + rest));
        lemma_rt_result(ts.first(), spec_ser_result_items(tail) + rest);
        lemma_rt_result_items(tail, rest);
        assert(seq![ts.first()] + tail =~= ts);
    }
}

/// A serialized suite, with its five named fields.
pub open spec fn spec_ser_suite(s: TestSuiteView) -> Seq<char> {
    "S{name="@ + spec_str(s.name) + "tests="@ + spec_num(s.tests.len(), ';')
        + spec_ser_result_items(s.tests) + "total_gas="@ + spec_num(s.total_gas as nat, ';')
        + "passed="@ + spec_num(s.passed as nat, ';') + "failed="@ + spec_num(
        s.failed as nat,
        ';',
    ) + "}"@
}

/// Parses a serialized suite from the head of `input`.
pub open spec fn spec_parse_suite_prefix(input: Seq<char>) -> Option<(TestSuiteView, Seq<char>)> {
    match spec_expect(input, "S{name="@) {
        Some(r1) => match spec_parse_str(r1) {
            Some((name, r2)) => match spec_expect(r2, "tests="@) {
                Some(r3) => match spec_parse_num(r3, ';', 0, false) {
                    Some((count, r4)) => match spec_parse_result_items(r4, count) {
                        Some((tests, r5)) => match spec_expect(r5, "total_gas="@) {
                            Some(r6) => match spec_parse_num(r6, ';', 0, false) {
                                Some((total_gas, r7)) => match spec_expect(r7, "passed="@) {
                                    Some(r8) => match spec_parse_num(r8, ';', 0, false) {
                                        Some((passed, r9)) => if passed <= usize::MAX {
                                            match spec_expect(r9, "failed="@) {
                                                Some(r10) => match spec_parse_num(
                                                    r10,
                                                    ';',
                                                    0,
                                                    false,
                                                ) {
                                                    Some((failed, r11)) => if failed
                                                        <= usize::MAX {
                                                        match spec_expect(r11, "}"@) {
                                                            Some(r12) => Some(
                                                                (
                                                                    TestSuiteView {
                                                                        name,
                                                                        tests,
                                                                        total_gas,
                                                                        passed: passed as usize,
                                                                        failed: failed as usize,
                                                                    },
                                                                    r12,
                                                                ),
                                                            ),
                                                            None => None,
                                                        }
                                                    } else {
                                                        None
                                                    },
                                                    None => None,
                                                },
                                                None => None,
                                            }
                                        } else {
                                            None
                                        },
                                        None => None,
                                    },
                                    None => None,
                                },
                                None => None,
                            },
                            None => None,
                        },
                        None => None,
                    },
                    None => None,
                },
                None => None,
            },
            None => None,
        },
        None => None,
    }
}

/// Parses a serialized suite, requiring the whole input to be consumed.
pub open spec fn spec_parse_suite(input: Seq<char>) -> Option<TestSuiteView> {
    match spec_parse_suite_prefix(input) {
        Some((s, rest)) => if rest.len() == 0 {
            Some(s)
        } else {
            None
        },
        None => None,
    }
}

/// Whether a suite fits the serialization's length prefixes.  Every suite
/// held in memory does: each count is bounded by the address space.
pub open spec fn bounded_suite(s: TestSuiteView) -> bool {
    &&& s.name.len() <= u64::MAX
    &&& s.tests.len() <= u64::MAX
    &&& forall|i: int| 0 <= i < s.tests.len() ==> bounded_result(#[trigger] s.tests[i])
}

/// Law: deserialization inverts serialization — parsing the serialized form
/// of any suite that fits the length prefixes yields that suite exactly.
#[verifier::rlimit(80)]
pub proof fn lemma_suite_roundtrip(s: TestSuiteView)
    requires
        bounded_suite(s),
    ensures
        spec_parse_suite(spec_ser_suite(s)) == Some(s),
{
    let l1 = "S{name="@;
    let l2 = "tests="@;
    let l3 = "total_gas="@;
    let l4 = "passed="@;
    let l5 = "failed="@;
    let l6 = "}"@;
    let rest = Seq::<char>::empty();
    let p1 = spec_str(s.name);
    let p2 = spec_num(s.tests.len(), ';');
    let p3 = spec_ser_result_items(s.tests);
    let p4 = spec_num(s.total_gas as nat, ';');
    let p5 = spec_num(s.passed as nat, ';');
    let p6 = spec_num(s.failed as nat, ';');
    let s6 = l6 + rest;
    let s5 = l5 + (p6 + s6);
    let s4 = l4 + (p5 + s5);
    let s3 = l3 + (p4 + s4);
    let s2 = p3 + s3;
    let s1p = l2 + (p2 + s2);
    let s0 = l1 + (p1 + s1p);
    assert(spec_ser_suite(s) =~= s0) by {
        assert(spec_ser_suite(s) =~= l1 + (p1 + (l2 + (p2 + (p3 + (l3 + (p4 + (l4 + (p5 + (l5 + (
        p6 + (l6 + rest))))))))))));
    }
    assert(spec_expect(s0, l1) == Some(p1 + s1p)) by {
        lemma_expect(l1, p1 + s1p);
    }
    assert(spec_parse_str(p1 + s1p) == Some((s.name, s1p))) by {
        lemma_rt_str(s.name, s1p);
    }
    assert(spec_expect(s1p, l2) == Some(p2 + s2)) by {
        lemma_expect(l2, p2 + s2);
    }
    assert(spec_parse_num(p2 + s2, ';', 0, false) == Some((s.tests.len() as u64, s2))) by {
        lemma_roundtrip_num(s.tests.len() as u64, ';', s2);
    }
    assert(spec_parse_result_items(s2, s.tests.len() as u64) == Some((s.tests, s3))) by {
        lemma_rt_result_items(s.tests, s3);
    }
    assert(spec_expect(s3, l3) == Some(p4 + s4)) by {
        lemma_expect(l3, p4 + s4);
    }
    assert(spec_parse_num(p4 + s4, ';', 0, false) == Some((s.total_gas, s4))) by {
        lemma_roundtrip_num(s.total_gas, ';', s4);
    }
    assert(spec_expect(s4, l4) == Some(p5 + s5)) by {
        lemma_expect(l4, p5 + s5);
    }
    assert(spec_parse_num(p5 + s5, ';', 0, false) == Some((s.passed as u64, s5))) by {
        lemma_roundtrip_num(s.passed as u64, ';', s5);
    }
    assert(spec_expect(s5, l5) == Some(p6 + s6)) by {
        lemma_expect(l5, p6 + s6);
    }
    assert(spec_parse_num(p6 + s6, ';', 0, false) == Some((s.failed as u64, s6))) by {
        lemma_roundtrip_num(s.failed as u64, ';', s6);
    }
    assert(spec_expect(s6, l6) == Some(rest)) by {
        lemma_expect(l6, rest);
    }
    assert(spec_parse_suite_prefix(s0) == Some((s, rest)));
}

/// The view of an optional execution result.
pub open spec fn view_opt_exec(o: Option<ExecutionResult>) -> Option<ExecutionResultView> {
    match o {
        Some(e) => Some(e@),
        None => None,
    }
}

/// The view of an optional string.
pub open spec fn view_opt_str(o: Option<String>) -> Option<Seq<char>> {
    match o {
        Some(s) => Some(s@),
        None => None,
    }
}

/// The view of an optional gas profile.
pub open spec fn view_opt_profile(o: Option<GasProfile>) -> Option<GasProfileView> {
    match o {
        Some(p) => Some(p@),
        None => None,
    }
}

proof fn lemma_trace_items_snoc(s: Seq<Seq<char>>, x: Seq<char>)
    ensures
        spec_ser_trace_items(s.push(x)) == spec_ser_trace_items(s) + spec_str(x),
    decreases s.len(),
{
    reveal_with_fuel(spec_ser_trace_items, 3);
    if s.len() == 0 {
        assert(s.push(x).drop_first() =~= Seq::<Seq<char>>::empty());
        assert(s.push(x).first() == x);
        assert(spec_ser_trace_items(s.push(x)) == spec_str(x) + spec_ser_trace_items(
            Seq::<Seq<char>>::empty(),
        ));
        assert(spec_ser_trace_items(s.push(x)) =~= spec_ser_trace_items(s) + spec_str(x));
    } else {
        assert(s.push(x).drop_first() =~= s.drop_first().push(x));
        assert(s.push(x).first() == s.first());
        lemma_trace_items_snoc(s.drop_first(), x);
        assert(spec_ser_trace_items(s.push(x)) =~= spec_ser_trace_items(s) + spec_str(x));
    }
}

proof fn lemma_result_items_snoc(s: Seq<TestResultView>, x: TestResultView)
    ensures
        spec_ser_result_items(s.push(x)) == spec_ser_result_items(s) + spec_ser_result(x),
    decreases s.len(),
{
    reveal_with_fuel(spec_ser_result_items, 3);
    if s.len() == 0 {
        assert(s.push(x).drop_first() =~= Seq::<TestResultView>::empty());
        assert(s.push(x).first() == x);
        assert(spec_ser_result_items(s.push(x)) == spec_ser_result(x) + spec_ser_result_items(
            Seq::<TestResultView>::empty(),
        ));
        assert(spec_ser_result_items(s.push(x)) =~= spec_ser_result_items(s) + spec_ser_result(
            x,
        ));
    } else {
        assert(s.push(x).drop_first() =~= s.drop_first().push(x));
        assert(s.push(x).first() == s.first());
        lemma_result_items_snoc(s.drop_first(), x);
        assert(spec_ser_result_items(s.push(x)) =~= spec_ser_result_items(s) + spec_ser_result(
            x,
        ));
    }
}

fn push_str_field(out: &mut String, s: &str)
    ensures
        final(out)@ == old(out)@ + spec_str(s@),
{
    let n: usize = s.unicode_len();
    push_num(out, n as u64, ':');
    out.append(s);
    assert(out@ =~= old(out)@ + spec_str(s@));
}

fn push_bool(out: &mut String, b: bool)
    ensures
        final(out)@ == old(out)@ + spec_bool(b),
{
    if b {
        out.push('T');
    } else {
        out.push('F');
    }
    assert(out@ =~= old(out)@ + spec_bool(b));
}

fn push_trace(out: &mut String, lines: &Vec<String>)
    ensures
        final(out)@ == old(out)@ + spec_ser_trace(lines@.map_values(|s: String| s@)),
{
    let ghost m = lines@.map_values(|s: String| s@);
    push_num(out, lines.len() as u64, ';');
    let mut i: usize = 0;
    while i < lines.len()
        invariant
            i <= lines.len(),
            m == lines@.map_values(|s: String| s@),
            out@ == old(out)@ + spec_num(m.len(), ';') + spec_ser_trace_items(m.take(i as int)),
        decreases lines.len() - i,
    {
        push_str_field(out, lines[i].as_str());
        proof {
            assert(m.take(i as int + 1) =~= m.take(i as int).push(m[i as int]));
            lemma_trace_items_snoc(m.take(i as int), m[i as int]);
            assert(out@ =~= old(out)@ + spec_num(m.len(), ';') + spec_ser_trace_items(
                m.take(i as int + 1),
            ));
        }
        i = i + 1;
    }
    proof {
        assert(m.take(lines@.len() as int) =~= m);
        assert(out@ =~= old(out)@ + spec_ser_trace(m));
    }
}

fn push_exec_result(out: &mut String, e: &ExecutionResult)
    ensures
        final(out)@ == old(out)@ + spec_ser_exec(e@),
{
    out.append("E{rv=");
    push_i64(out, e.return_value, ';');
    out.append("gas=");
    push_num(out, e.gas_used, ';');
    out.append("trace=");
    push_trace(out, &e.call_trace);
    out.append("mem=");
    push_num(out, e.memory_usage, ';');
    out.append("}");
    assert(out@ =~= old(out)@ + spec_ser_exec(e@));
}

fn push_profile(out: &mut String, p: &GasProfile)
    ensures
        final(out)@ == old(out)@ + spec_ser_profile(p@),
{
    out.append("P{fn=");
    push_str_field(out, p.function_name.as_str());
    out.append("gas=");
    push_num(out, p.gas_used, ';');
    out.append("ic=");
    push_num(out, p.instruction_count, ';');
    out.append("depth=");
    push_num(out, p.call_depth as u64, ';');
    out.append("}");
    assert(out@ =~= old(out)@ + spec_ser_profile(p@));
}

fn push_opt_exec(out: &mut String, o: &Option<ExecutionResult>)
    ensures
        final(out)@ == old(out)@ + spec_ser_opt_exec(view_opt_exec(*o)),
{
    match o {
        None => {
            out.push('N');
        },
        Some(e) => {
            out.push('S');
            push_exec_result(out, e);
        },
    }
    assert(out@ =~= old(out)@ + spec_ser_opt_exec(view_opt_exec(*o)));
}

fn push_opt_str(out: &mut String, o: &Option<String>)
    ensures
        final(out)@ == old(out)@ + spec_ser_opt_str(view_opt_str(*o)),
{
    match o {
        None => {
            out.push('N');
        },
        Some(s) => {
            out.push('S');
            push_str_field(out, s.as_str());
        },
    }
    assert(out@ =~= old(out)@ + spec_ser_opt_str(view_opt_str(*o)));
}

fn push_opt_profile(out: &mut String, o: &Option<GasProfile>)
    ensures
        final(out)@ == old(out)@ + spec_ser_opt_profile(view_opt_profile(*o)),
{
    match o {
        None => {
            out.push('N');
        },
        Some(p) => {
            out.push('S');
            push_profile(out, p);
        },
    }
    assert(out@ =~= old(out)@ + spec_ser_opt_profile(view_opt_profile(*o)));
}

#[verifier::rlimit(80)]
fn push_test_result(out: &mut String, t: &TestResult)
    ensures
        final(out)@ == old(out)@ + spec_ser_result(t@),
{
    out.append("T{name=");
    push_str_field(out, t.name.as_str());
    out.append("passed=");
    push_bool(out, t.passed);
    out.append("exec=");
    push_opt_exec(out, &t.execution_result);
    out.append("error=");
    push_opt_str(out, &t.error);
    out.append("profile=");
    push_opt_profile(out, &t.gas_profile);
    out.append("}");
    assert(out@ =~= old(out)@ + spec_ser_result(t@));
}

/// Serializes a suite into the structured, field-named text form.
#[verifier::rlimit(80)]
pub fn serialize_suite(suite: &TestSuite) -> (r: String)
    ensures
        r@ == spec_ser_suite(suite@),
{
    let ghost m = suite.tests@.map_values(|t: TestResult| t@);
    let mut out = String::new();
    out.append("S{name=");
    push_str_field(&mut out, suite.name.as_str());
    out.append("tests=");
    push_num(&mut out, suite.tests.len() as u64, ';');
    let ghost head = out@;
    let mut i: usize = 0;
    while i < suite.tests.len()
        invariant
            i <= suite.tests.len(),
            m == suite.tests@.map_values(|t: TestResult| t@),
            out@ == head + spec_ser_result_items(m.take(i as int)),
        decreases suite.tests.len() - i,
    {
        push_test_result(&mut out, &suite.tests[i]);
        proof {
            assert(m.take(i as int + 1) =~= m.take(i as int).push(m[i as int]));
            lemma_result_items_snoc(m.take(i as int), m[i as int]);
            assert(out@ =~= head + spec_ser_result_items(m.take(i as int + 1)));
        }
        i = i + 1;
    }
    proof {
        assert(m.take(suite.tests@.len() as int) =~= m);
    }
    out.append("total_gas=");
    push_num(&mut out, suite.total_gas, ';');
    out.append("passed=");
    push_num(&mut out, suite.passed as u64, ';');
    out.append("failed=");
    push_num(&mut out, suite.failed as u64, ';');
    out.append("}");
    proof {
        assert(out@ =~= spec_ser_suite(suite@));
    }
    out
}

#[verifier::loop_isolation(false)]
fn p_lit(v: &Vec<char>, i: usize, lit: &str) -> (r: Option<usize>)
    requires
        i <= v@.len(),
    ensures
        match r {
            Some(j) => i <= j <= v@.len() && spec_expect(v@.skip(i as int), lit@) == Some(
                v@.skip(j as int),
            ),
            None => spec_expect(v@.skip(i as int), lit@) is None,
        },
{
    let n: usize = lit.unicode_len();
    if n > v.len() - i {
        return None;
    }
    let mut k: usize = 0;
    while k < n
        invariant
            i + n <= v@.len(),
            k <= n,
            n == lit@.len(),
            forall|q: int| 0 <= q < k ==> v@[i + q] == lit@[q],
        decreases n - k,
    {
        if v[i + k] != lit.get_char(k) {
            proof {
                assert(v@.skip(i as int).take(n as int)[k as int] == v@[i + k]);
                assert(v@.skip(i as int).take(n as int) != lit@);
            }
            return None;
        }
        k = k + 1;
    }
    proof {
        assert(v@.skip(i as int).take(n as int) =~= lit@);
        assert(v@.skip(i as int).skip(n as int) =~= v@.skip(i as int + n as int));
    }
    Some(i + n)
}

fn p_bool(v: &Vec<char>, i: usize) -> (r: Option<(bool, usize)>)
    requires
        i <= v@.len(),
    ensures
        match r {
            Some((b, j)) => i <= j <= v@.len() && spec_parse_bool(v@.skip(i as int)) == Some(
                (b, v@.skip(j as int)),
            ),
            None => spec_parse_bool(v@.skip(i as int)) is None,
        },
{
    if i == v.len() {
        return None;
    }
    let c: char = v[i];
    proof {
        assert(v@.skip(i as int)[0] == c);
        assert(v@.skip(i as int).drop_first() =~= v@.skip(i as int + 1));
    }
    if c == 'T' {
        Some((true, i + 1))
    } else if c == 'F' {
        Some((false, i + 1))
    } else {
        None
    }
}

fn p_i64(v: &Vec<char>, i: usize, term: char) -> (r: Option<(i64, usize)>)
    requires
        i <= v@.len(),
    ensures
        match r {
            Some((value, j)) => i <= j <= v@.len() && spec_parse_i64(v@.skip(i as int), term)
                == Some((value, v@.skip(j as int))),
            None => spec_parse_i64(v@.skip(i as int), term) is None,
        },
{
    if i < v.len() && v[i] == '-' {
        proof {
            assert(v@.skip(i as int)[0] == '-');
            assert(v@.skip(i as int).drop_first() =~= v@.skip(i as int + 1));
        }
        match parse_num(v, i + 1, term) {
            Some((m, j)) => {
                if 1 <= m && m <= 9223372036854775808u64 {
                    let value: i64 = if m == 9223372036854775808u64 {
                        i64::MIN
                    } else {
                        -(m as i64)
                    };
                    proof {
                        assert(value == (-(m as int)) as i64);
                    }
                    Some((value, j))
                } else {
                    None
                }
            },
            None => None,
        }
    } else {
        proof {
            if i < v@.len() {
                assert(v@.skip(i as int)[0] == v@[i as int]);
            } else {
                assert(v@.skip(i as int).len() == 0);
            }
        }
        match parse_num(v, i, term) {
            Some((m, j)) => {
                if m <= 9223372036854775807u64 {
                    Some((m as i64, j))
                } else {
                    None
                }
            },
            None => None,
        }
    }
}

#[verifier::loop_isolation(false)]
fn p_str(v: &Vec<char>, i: usize) -> (r: Option<(String, usize)>)
    requires
        i <= v@.len(),
    ensures
        match r {
            Some((s, j)) => i <= j <= v@.len() && spec_parse_str(v@.skip(i as int)) == Some(
                (s@, v@.skip(j as int)),
            ),
            None => spec_parse_str(v@.skip(i as int)) is None,
        },
{
    match parse_num(v, i, ':') {
        Some((n, j)) => {
            if n <= (v.len() - j) as u64 {
                let n_us: usize = n as usize;
                let mut s = String::new();
                let mut k: usize = 0;
                while k < n_us
                    invariant
                        j + n_us <= v@.len(),
                        k <= n_us,
                        s@ =~= v@.subrange(j as int, j as int + k as int),
                    decreases n_us - k,
                {
                    s.push(v[j + k]);
                    proof {
                        assert(s@ =~= v@.subrange(j as int, j as int + k as int + 1));
                    }
                    k = k + 1;
                }
                proof {
                    assert(v@.skip(j as int).take(n as int) =~= v@.subrange(
                        j as int,
                        j as int + n as int,
                    ));
                    assert(s@ =~= v@.skip(j as int).take(n as int));
                    assert(v@.skip(j as int).skip(n as int) =~= v@.skip(j as int + n as int));
                }
                Some((s, j + n_us))
            } else {
                None
            }
        },
        None => None,
    }
}

#[verifier::loop_isolation(false)]
fn p_trace(v: &Vec<char>, i: usize) -> (r: Option<(Vec<String>, usize)>)
    requires
        i <= v@.len(),
    ensures
        match r {
            Some((lines, j)) => i <= j <= v@.len() && spec_parse_trace(v@.skip(i as int)) == Some(
                (lines@.map_values(|s: String| s@), v@.skip(j as int)),
            ),
            None => spec_parse_trace(v@.skip(i as int)) is None,
        },
{
    match parse_num(v, i, ';') {
        Some((count, j0)) => {
            let mut lines: Vec<String> = Vec::new();
            let mut j: usize = j0;
            let mut remaining: u64 = count;
            proof {
                assert(lines@.map_values(|s: String| s@) =~= Seq::<Seq<char>>::empty());
            }
            loop
                invariant
                    i <= j <= v@.len(),
                    match spec_parse_trace_items(v@.skip(j as int), remaining) {
                        Some((ss, rest)) => spec_parse_trace_items(v@.skip(j0 as int), count)
                            == Some((lines@.map_values(|s: String| s@) + ss, rest)),
                        None => spec_parse_trace_items(v@.skip(j0 as int), count) is None,
                    },
                decreases remaining,
            {
                if remaining == 0 {
                    proof {
                        assert(lines@.map_values(|s: String| s@) + Seq::<Seq<char>>::empty()
                            =~= lines@.map_values(|s: String| s@));
                    }
                    return Some((lines, j));
                }
                match p_str(v, j) {
                    Some((s, j2)) => {
                        let ghost prev = lines@.map_values(|sx: String| sx@);
                        lines.push(s);
                        proof {
                            assert(lines@.map_values(|sx: String| sx@) =~= prev.push(s@));
                            assert(prev.push(s@) =~= prev + seq![s@]);
                        }
                        j = j2;
                        remaining = remaining - 1;
                        proof {
                            assert(forall|ss2: Seq<Seq<char>>|
                                (prev + seq![s@]) + ss2 =~= prev + (seq![s@] + ss2));
                        }
                    },
                    None => {
                        return None;
                    },
                }
            }
        },
        None => None,
    }
}

#[verifier::rlimit(100)]
fn p_exec(v: &Vec<char>, i: usize) -> (r: Option<(ExecutionResult, usize)>)
    requires
        i <= v@.len(),
    ensures
        match r {
            Some((e, j)) => i <= j <= v@.len() && spec_parse_exec(v@.skip(i as int)) == Some(
                (e@, v@.skip(j as int)),
            ),
            None => spec_parse_exec(v@.skip(i as int)) is None,
        },
{
    let j1 = match p_lit(v, i, "E{rv=") {
        Some(j) => j,
        None => {
            return None;
        },
    };
    let (rv, j2) = match p_i64(v, j1, ';') {
        Some(x) => x,
        None => {
            return None;
        },
    };
    let j3 = match p_lit(v, j2, "gas=") {
        Some(j) => j,
        None => {
            return None;
        },
    };
    let (gas, j4) = match parse_num(v, j3, ';') {
        Some(x) => x,
        None => {
            return None;
        },
    };
    let j5 = match p_lit(v, j4, "trace=") {
        Some(j) => j,
        None => {
            return None;
        },
    };
    let (trace, j6) = match p_trace(v, j5) {
        Some(x) => x,
        None => {
            return None;
        },
    };
    let j7 = match p_lit(v, j6, "mem=") {
        Some(j) => j,
        None => {
            return None;
        },
    };
    let (mem, j8) = match parse_num(v, j7, ';') {
        Some(x) => x,
        None => {
            return None;
        },
    };
    let j9 = match p_lit(v, j8, "}") {
        Some(j) => j,
        None => {
            return None;
        },
    };
    let e = ExecutionResult {
        return_value: rv,
        gas_used: gas,
        call_trace: trace,
        memory_usage: mem,
    };
    Some((e, j9))
}

#[verifier::rlimit(100)]
fn p_profile(v: &Vec<char>, i: usize) -> (r: Option<(GasProfile, usize)>)
    requires
        i <= v@.len(),
    ensures
        match r {
            Some((p, j)) => i <= j <= v@.len() && spec_parse_profile(v@.skip(i as int)) == Some(
                (p@, v@.skip(j as int)),
            ),
            None => spec_parse_profile(v@.skip(i as int)) is None,
        },
{
    let j1 = match p_lit(v, i, "P{fn=") {
        Some(j) => j,
        None => {
            return None;
        },
    };
    let (name, j2) = match p_str(v, j1) {
        Some(x) => x,
        None => {
            return None;
        },
    };
    let j3 = match p_lit(v, j2, "gas=") {
        Some(j) => j,
        None => {
            return None;
        },
    };
    let (gas, j4) = match parse_num(v, j3, ';') {
        Some(x) => x,
        None => {
            return None;
        },
    };
    let j5 = match p_lit(v, j4, "ic=") {
        Some(j) => j,
        None => {
            return None;
        },
    };
    let (ic, j6) = match parse_num(v, j5, ';') {
        Some(x) => x,
        None => {
            return None;
        },
    };
    let j7 = match p_lit(v, j6, "depth=") {
        Some(j) => j,
        None => {
            return None;
        },
    };
    let (depth, j8) = match parse_num(v, j7, ';') {
        Some(x) => x,
        None => {
            return None;
        },
    };
    if depth > 4294967295u64 {
        return None;
    }
    let j9 = match p_lit(v, j8, "}") {
        Some(j) => j,
        None => {
            return None;
        },
    };
    let p = GasProfile {
        function_name: name,
        gas_used: gas,
        instruction_count: ic,
        call_depth: depth as u32,
    };
    Some((p, j9))
}

fn p_opt_exec(v: &Vec<char>, i: usize) -> (r: Option<(Option<ExecutionResult>, usize)>)
    requires
        i <= v@.len(),
    ensures
        match r {
            Some((o, j)) => i <= j <= v@.len() && spec_parse_opt_exec(v@.skip(i as int)) == Some(
                (view_opt_exec(o), v@.skip(j as int)),
            ),
            None => spec_parse_opt_exec(v@.skip(i as int)) is None,
        },
{
    if i == v.len() {
        return None;
    }
    let c: char = v[i];
    proof {
        assert(v@.skip(i as int)[0] == c);
        assert(v@.skip(i as int).drop_first() =~= v@.skip(i as int + 1));
    }
    if c == 'N' {
        Some((None, i + 1))
    } else if c == 'S' {
        match p_exec(v, i + 1) {
            Some((e, j)) => Some((Some(e), j)),
            None => None,
        }
    } else {
        None
    }
}

fn p_opt_str(v: &Vec<char>, i: usize) -> (r: Option<(Option<String>, usize)>)
    requires
        i <= v@.len(),
    ensures
        match r {
            Some((o, j)) => i <= j <= v@.len() && spec_parse_opt_str(v@.skip(i as int)) == Some(
                (view_opt_str(o), v@.skip(j as int)),
            ),
            None => spec_parse_opt_str(v@.skip(i as int)) is None,
        },
{
    if i == v.len() {
        return None;
    }
    let c: char = v[i];
    proof {
        assert(v@.skip(i as int)[0] == c);
        assert(v@.skip(i as int).drop_first() =~= v@.skip(i as int + 1));
    }
    if c == 'N' {
        Some((None, i + 1))
    } else if c == 'S' {
        match p_str(v, i + 1) {
            Some((s, j)) => Some((Some(s), j)),
            None => None,
        }
    } else {
        None
    }
}

fn p_opt_profile(v: &Vec<char>, i: usize) -> (r: Option<(Option<GasProfile>, usize)>)
    requires
        i <= v@.len(),
    ensures
        match r {
            Some((o, j)) => i <= j <= v@.len() && spec_parse_opt_profile(v@.skip(i as int))
                == Some((view_opt_profile(o), v@.skip(j as int))),
            None => spec_parse_opt_profile(v@.skip(i as int)) is None,
        },
{
    if i == v.len() {
        return None;
    }
    let c: char = v[i];
    proof {
        assert(v@.skip(i as int)[0] == c);
        assert(v@.skip(i as int).drop_first() =~= v@.skip(i as int + 1));
    }
    if c == 'N' {
        Some((None, i + 1))
    } else if c == 'S' {
        match p_profile(v, i + 1) {
            Some((p, j)) => Some((Some(p), j)),
            None => None,
        }
    } else {
        None
    }
}

#[verifier::rlimit(100)]
fn p_result(v: &Vec<char>, i: usize) -> (r: Option<(TestResult, usize)>)
    requires
        i <= v@.len(),
    ensures
        match r {
            Some((t, j)) => i <= j <= v@.len() && spec_parse_result(v@.skip(i as int)) == Some(
                (t@, v@.skip(j as int)),
            ),
            None => spec_parse_result(v@.skip(i as int)) is None,
        },
{
    let j1 = match p_lit(v, i, "T{name=") {
        Some(j) => j,
        None => {
            return None;
        },
    };
    let (name, j2) = match p_str(v, j1) {
        Some(x) => x,
        None => {
            return None;
        },
    };
    let j3 = match p_lit(v, j2, "passed=") {
        Some(j) => j,
        None => {
            return None;
        },
    };
    let (passed, j4) = match p_bool(v, j3) {
        Some(x) => x,
        None => {
            return None;
        },
    };
    let j5 = match p_lit(v, j4, "exec=") {
        Some(j) => j,
        None => {
            return None;
        },
    };
    let (execution_result, j6) = match p_opt_exec(v, j5) {
        Some(x) => x,
        None => {
            return None;
        },
    };
    let j7 = match p_lit(v, j6, "error=") {
        Some(j) => j,
        None => {
            return None;
        },
    };
    let (error, j8) = match p_opt_str(v, j7) {
        Some(x) => x,
        None => {
            return None;
        },
    };
    let j9 = match p_lit(v, j8, "profile=") {
        Some(j) => j,
        None => {
            return None;
        },
    };
    let (gas_profile, j10) = match p_opt_profile(v, j9) {
        Some(x) => x,
        None => {
            return None;
        },
    };
    let j11 = match p_lit(v, j10, "}") {
        Some(j) => j,
        None => {
            return None;
        },
    };
    let t = TestResult { name, passed, execution_result, error, gas_profile };
    Some((t, j11))
}

#[verifier::rlimit(100)]
#[verifier::loop_isolation(false)]
fn p_suite(v: &Vec<char>, i: usize) -> (r: Option<(TestSuite, usize)>)
    requires
        i <= v@.len(),
    ensures
        match r {
            Some((s, j)) => i <= j <= v@.len() && spec_parse_suite_prefix(v@.skip(i as int))
                == Some((s@, v@.skip(j as int))),
            None => spec_parse_suite_prefix(v@.skip(i as int)) is None,
        },
{
    let j1 = match p_lit(v, i, "S{name=") {
        Some(j) => j,
        None => {
            return None;
        },
    };
    let (name, j2) = match p_str(v, j1) {
        Some(x) => x,
        None => {
            return None;
        },
    };
    let j3 = match p_lit(v, j2, "tests=") {
        Some(j) => j,
        None => {
            return None;
        },
    };
    let (count, j4) = match parse_num(v, j3, ';') {
        Some(x) => x,
        None => {
            return None;
        },
    };
    let mut tests: Vec<TestResult> = Vec::new();
    let mut j: usize = j4;
    let mut remaining: u64 = count;
    proof {
        assert(tests@.map_values(|t: TestResult| t@) =~= Seq::<TestResultView>::empty());
    }
    while remaining > 0
        invariant
            j4 <= j <= v@.len(),
            match spec_parse_result_items(v@.skip(j as int), remaining) {
                Some((ts, rest)) => spec_parse_result_items(v@.skip(j4 as int), count) == Some(
                    (tests@.map_values(|t: TestResult| t@) + ts, rest),
                ),
                None => spec_parse_result_items(v@.skip(j4 as int), count) is None,
            },
        decreases remaining,
    {
        match p_result(v, j) {
            Some((t, j2x)) => {
                let ghost prev = tests@.map_values(|tx: TestResult| tx@);
                tests.push(t);
                proof {
                    assert(tests@.map_values(|tx: TestResult| tx@) =~= prev.push(t@));
                    assert(prev.push(t@) =~= prev + seq![t@]);
                }
                j = j2x;
                remaining = remaining - 1;
                proof {
                    assert(forall|ts2: Seq<TestResultView>|
                        (prev + seq![t@]) + ts2 =~= prev + (seq![t@] + ts2));
                }
            },
            None => {
                return None;
            },
        }
    }
    proof {
        assert(tests@.map_values(|t: TestResult| t@) + Seq::<TestResultView>::empty()
            =~= tests@.map_values(|t: TestResult| t@));
    }
    let j5 = match p_lit(v, j, "total_gas=") {
        Some(x) => x,
        None => {
            return None;
        },
    };
    let (total_gas, j6) = match parse_num(v, j5, ';') {
        Some(x) => x,
        None => {
            return None;
        },
    };
    let j7 = match p_lit(v, j6, "passed=") {
        Some(x) => x,
        None => {
            return None;
        },
    };
    let (passed, j8) = match parse_num(v, j7, ';') {
        Some(x) => x,
        None => {
            return None;
        },
    };
    if passed > usize::MAX as u64 {
        return None;
    }
    let j9 = match p_lit(v, j8, "failed=") {
        Some(x) => x,
        None => {
            return None;
        },
    };
    let (failed, j10) = match parse_num(v, j9, ';') {
        Some(x) => x,
        None => {
            return None;
        },
    };
    if failed > usize::MAX as u64 {
        return None;
    }
    let j11 = match p_lit(v, j10, "}") {
        Some(x) => x,
        None => {
            return None;
        },
    };
    let s = TestSuite {
        name,
        tests,
        total_gas,
        passed: passed as usize,
        failed: failed as usize,
    };
    Some((s, j11))
}

/// Parses a serialized suite, accepting exactly the whole input.
pub fn deserialize_suite(input: &str) -> (r: Option<TestSuite>)
    ensures
        match r {
            Some(s) => spec_parse_suite(input@) == Some(s@),
            None => spec_parse_suite(input@) is None,
        },
{
    let v = str_to_chars(input);
    proof {
        assert(v@.skip(0) =~= input@);
    }
    match p_suite(&v, 0) {
        Some((s, j)) => {
            if j == v.len() {
                proof {
                    assert(v@.skip(j as int).len() == 0);
                }
                Some(s)
            } else {
                proof {
                    assert(v@.skip(j as int).len() > 0);
                }
                None
            }
        },
        None => None,
    }
}

} // verus!
