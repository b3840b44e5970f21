//! The execution engine: wraps an external WASM virtual machine, loads a
//! module from bytes, instantiates it with a minimal host environment, and
//! invokes exported functions with signed 64-bit integer arguments.  The
//! host environment is deliberately the empty import object: the engine
//! offers a module no host calls, and one that requires them fails to
//! instantiate and is reported as a trap.
//!
//! Each invocation instantiates the module afresh, so mutable state a module
//! held from a prior call is discarded between invocations; a test sequence
//! that needs cross-call state must encode it in the call's arguments.

use crate::gas::GasTable;
use crate::results::ExecutionResult;
use crate::results::GasProfile;
use vstd::prelude::*;
use vstd::string::StringExecFns;

verus! {

#[verifier::external_type_specification]
#[verifier::external_body]
pub struct ExStore(wasmer::Store);

#[verifier::external_type_specification]
#[verifier::external_body]
pub struct ExModule(wasmer::Module);

#[verifier::external_type_specification]
#[verifier::external_body]
pub struct ExInstance(wasmer::Instance);

#[verifier::external_type_specification]
#[verifier::external_body]
pub struct ExFunction(wasmer::Function);

#[verifier::external_type_specification]
#[verifier::external_body]
pub struct ExImports(wasmer::Imports);

/// The closed failure taxonomy of the engine; callers match on the kind
/// rather than on message text.
#[derive(Debug, Clone, PartialEq, Eq)]
pub enum EngineError {
    /// Malformed or unreadable bytecode; fatal for that module only.
    ModuleLoad(String),
    /// The requested export is absent from the module.
    FunctionNotFound(String),
    /// A runtime fault during invocation, or a failure to set up the host
    /// environment or instance for it.
    ExecutionTrap(String),
    /// A file discovery or read failure, recorded by the calling layer.
    Io(String),
}

impl EngineError {
    /// The human-readable failure description.
    pub open spec fn spec_message(self) -> Seq<char> {
        match self {
            EngineError::ModuleLoad(m) => m@,
            EngineError::FunctionNotFound(m) => m@,
            EngineError::ExecutionTrap(m) => m@,
            EngineError::Io(m) => m@,
        }
    }

    /// Returns the failure description.
    pub fn message(&self) -> (r: &str)
        ensures
            r@ == self.spec_message(),
    {
        match self {
            EngineError::ModuleLoad(m) => m.as_str(),
            EngineError::FunctionNotFound(m) => m.as_str(),
            EngineError::ExecutionTrap(m) => m.as_str(),
            EngineError::Io(m) => m.as_str(),
        }
    }

    /// Consumes the error, returning the failure description.
    pub fn into_message(self) -> (r: String)
        ensures
            r@ == self.spec_message(),
    {
        match self {
            EngineError::ModuleLoad(m) => m,
            EngineError::FunctionNotFound(m) => m,
            EngineError::ExecutionTrap(m) => m,
            EngineError::Io(m) => m,
        }
    }
}

/// The raw outcome of a call as the virtual machine reports it: a 64-bit
/// value, a 32-bit value, or no integer result.
#[derive(Debug, Clone, Copy, PartialEq, Eq)]
pub enum RawReturn {
    I64(i64),
    I32(i32),
    Absent,
}

/// The coercion of a raw outcome to the engine's 64-bit result: a 64-bit
/// value passes through, a 32-bit value is sign-extended, no value yields 0.
pub open spec fn spec_coerce(raw: RawReturn) -> i64 {
    match raw {
        RawReturn::I64(v) => v,
        RawReturn::I32(v) => v as i64,
        RawReturn::Absent => 0,
    }
}

/// Coerces a raw call outcome to the engine's 64-bit result.
pub fn coerce_return(raw: RawReturn) -> (r: i64)
    ensures
        r == spec_coerce(raw),
{
    match raw {
        RawReturn::I64(v) => v,
        RawReturn::I32(v) => v as i64,
        RawReturn::Absent => 0,
    }
}

/// Relies on `wasmer::Store::default`: builds a fresh store with the default
/// engine.
#[verifier::external_body]
fn new_store() -> wasmer::Store {
    wasmer::Store::default()
}

/// Relies on `wasmer::Module::new`: compiles the given bytes, returning the
/// compile error's description on malformed bytecode.
#[verifier::external_body]
fn compile_module(store: &wasmer::Store, bytes: &[u8]) -> Result<wasmer::Module, String> {
    wasmer::Module::new(store, bytes).map_err(|e| e.to_string())
}

/// Relies on `wasmer::Imports::new`: the minimal host environment — an
/// import object resolving nothing.  A module that requires host imports
/// fails to instantiate, and the failure is reported as a trap.
#[verifier::external_body]
fn empty_imports() -> wasmer::Imports {
    wasmer::Imports::new()
}

/// Relies on `wasmer::Instance::new`: instantiates the module against the
/// given imports, running its start function.
#[verifier::external_body]
fn instantiate(
    store: &mut wasmer::Store,
    module: &wasmer::Module,
    imports: &wasmer::Imports,
) -> Result<wasmer::Instance, String> {
    wasmer::Instance::new(store, module, imports).map_err(|e| e.to_string())
}

/// Relies on `wasmer::Exports::get_function`: resolves the named export,
/// failing when it is absent or is not a function.
#[verifier::external_body]
fn get_export(instance: &wasmer::Instance, name: &str) -> Result<wasmer::Function, String> {
    match instance.exports.get_function(name) {
        Ok(f) => Ok(f.clone()),
        Err(e) => Err(e.to_string()),
    }
}

/// Relies on `wasmer::Function::call`: invokes the function on the given
/// 64-bit arguments, reporting the first returned value or the trap's
/// description.  The function must belong to the given store (handing it one
/// from another store would abort); every call site passes the owning store.
#[verifier::external_body]
fn call_export(
    store: &mut wasmer::Store,
    func: &wasmer::Function,
    args: &[i64],
) -> Result<RawReturn, String> {
    let values: Vec<wasmer::Value> = args.iter().map(|&a| wasmer::Value::I64(a)).collect();
    match func.call(store, &values) {
        Ok(results) => Ok(match results.get(0) {
            Some(wasmer::Value::I64(v)) => RawReturn::I64(*v),
            Some(wasmer::Value::I32(v)) => RawReturn::I32(*v),
            Some(_) => RawReturn::Absent,
            None => RawReturn::Absent,
        }),
        Err(e) => Err(e.to_string()),
    }
}

/// Whether `m` begins with the prefix `p`.
pub open spec fn spec_has_prefix(m: Seq<char>, p: Seq<char>) -> bool {
    p.len() <= m.len() && m.take(p.len() as int) == p
}

/// The forms a trap description takes: one of the two fixed prefixes,
/// followed by the virtual machine's own diagnostic, preserved verbatim.
pub open spec fn spec_is_trap_msg(m: Seq<char>) -> bool {
    ||| spec_has_prefix(m, "Failed to instantiate module: "@)
    ||| spec_has_prefix(m, "Function execution failed: "@)
}

/// The call-trace line recorded for an instrumented invocation.
pub open spec fn spec_trace_line(name: Seq<char>) -> Seq<char> {
    "Calling function: "@ + name
}

/// The description recorded when the named export is absent.
pub open spec fn spec_not_found_msg(name: Seq<char>) -> Seq<char> {
    "Function '"@ + name + "' not found"@
}

fn trace_line(name: &str) -> (r: String)
    ensures
        r@ == spec_trace_line(name@),
{
    String::from_str("Calling function: ").concat(name)
}

fn not_found_msg(name: &str) -> (r: String)
    ensures
        r@ == spec_not_found_msg(name@),
        r@.len() > 0,
{
    proof {
        reveal_strlit("Function '");
        reveal_strlit("' not found");
    }
    let r = String::from_str("Function '").concat(name).concat("' not found");
    proof {
        assert(r@ =~= spec_not_found_msg(name@));
    }
    r
}

fn trap_err(prefix: &str, raw: &str) -> (e: EngineError)
    requires
        prefix@.len() > 0,
    ensures
        e is ExecutionTrap,
        e.spec_message() == prefix@ + raw@,
        spec_has_prefix(e.spec_message(), prefix@),
        e.spec_message().len() > 0,
{
    let e = EngineError::ExecutionTrap(String::from_str(prefix).concat(raw));
    proof {
        assert((prefix@ + raw@).take(prefix@.len() as int) =~= prefix@);
    }
    e
}

/// The engine: the loaded module, its fixed gas cost table, and the
/// instrumentation flag.  Owned by exactly one runner; destroyed at process
/// or test exit, with no persistence across runs.
pub struct StylusRuntime {
    store: wasmer::Store,
    module: wasmer::Module,
    gas_table: GasTable,
    instrumentation_enabled: bool,
}

impl StylusRuntime {
    /// The engine's cost table, fixed at construction.
    pub closed spec fn spec_gas_table(self) -> GasTable {
        self.gas_table
    }

    /// Whether invocations record a call trace.
    pub closed spec fn spec_instrumentation(self) -> bool {
        self.instrumentation_enabled
    }

    /// Loads a module from raw bytecode bytes.  On success the engine holds
    /// the canonical default cost table and has instrumentation enabled.
    pub fn new(wasm_bytes: &[u8]) -> (r: Result<StylusRuntime, EngineError>)
        ensures
            match r {
                Ok(rt) => rt.spec_gas_table() == GasTable::spec_defaults()
                    && rt.spec_instrumentation(),
                Err(e) => {
                    &&& e is ModuleLoad
                    &&& e.spec_message().len() > 0
                    &&& spec_has_prefix(e.spec_message(), "Failed to create module: "@)
                },
            },
    {
        let store = new_store();
        match compile_module(&store, wasm_bytes) {
            Ok(module) => Ok(
                StylusRuntime {
                    store,
                    module,
                    gas_table: GasTable::defaults(),
                    instrumentation_enabled: true,
                },
            ),
            Err(raw) => {
                proof {
                    reveal_strlit("Failed to create module: ");
                }
                let msg = String::from_str("Failed to create module: ").concat(raw.as_str());
                proof {
                    assert(msg@.take("Failed to create module: "@.len() as int)
                        =~= "Failed to create module: "@);
                }
                Err(EngineError::ModuleLoad(msg))
            },
        }
    }

    /// Invokes the named export on the given arguments.  The module is
    /// instantiated afresh against the minimal host environment, the export is
    /// resolved (`FunctionNotFound` when absent, with an exact description),
    /// and any runtime fault is reported as `ExecutionTrap` with a non-empty
    /// description.  On success the result carries the estimated gas for this
    /// argument count, a placeholder memory figure, and — when
    /// instrumentation is enabled — a one-line call trace.
    pub fn execute_function(&mut self, fn_name: &str, args: &[i64]) -> (r: Result<
        ExecutionResult,
        EngineError,
    >)
        ensures
            final(self).spec_gas_table() == old(self).spec_gas_table(),
            final(self).spec_instrumentation() == old(self).spec_instrumentation(),
            match r {
                Ok(er) => {
                    &&& er@.gas_used == old(self).spec_gas_table().spec_estimate(args@.len())
                    &&& er@.memory_usage == 1024
                    &&& er@.call_trace == (if old(self).spec_instrumentation() {
                        seq![spec_trace_line(fn_name@)]
                    } else {
                        Seq::<Seq<char>>::empty()
                    })
                },
                Err(e) => {
                    &&& (e is FunctionNotFound || e is ExecutionTrap)
                    &&& e.spec_message().len() > 0
                    &&& (e is FunctionNotFound ==> e.spec_message() == spec_not_found_msg(fn_name@))
                    &&& (e is ExecutionTrap ==> spec_is_trap_msg(e.spec_message()))
                },
            },
    {
        proof {
            reveal_strlit("Failed to instantiate module: ");
            reveal_strlit("Function execution failed: ");
        }
        let imports = empty_imports();
        let instance = match instantiate(&mut self.store, &self.module, &imports) {
            Ok(instance) => instance,
            Err(raw) => {
                return Err(trap_err("Failed to instantiate module: ", raw.as_str()));
            },
        };
        let func = match get_export(&instance, fn_name) {
            Ok(func) => func,
            Err(_) => {
                return Err(EngineError::FunctionNotFound(not_found_msg(fn_name)));
            },
        };
        let mut call_trace: Vec<String> = Vec::new();
        if self.instrumentation_enabled {
            call_trace.push(trace_line(fn_name));
        }
        let raw = match call_export(&mut self.store, &func, args) {
            Ok(raw) => raw,
            Err(raw) => {
                return Err(trap_err("Function execution failed: ", raw.as_str()));
            },
        };
        let return_value = coerce_return(raw);
        let gas_used = self.gas_table.estimate(args.len());
        let er = ExecutionResult { return_value, gas_used, call_trace, memory_usage: 1024 };
        proof {
            if old(self).spec_instrumentation() {
                assert(er@.call_trace =~= seq![spec_trace_line(fn_name@)]);
            } else {
                assert(er@.call_trace =~= Seq::<Seq<char>>::empty());
            }
        }
        Ok(er)
    }

    /// Profiles one invocation: the profile is derived purely from the
    /// invocation's result — `instruction_count` is `gas_used / 10` and
    /// `call_depth` is 1; no independent measurement is performed.
    pub fn profile_function(&mut self, fn_name: &str, args: &[i64]) -> (r: Result<
        GasProfile,
        EngineError,
    >)
        ensures
            final(self).spec_gas_table() == old(self).spec_gas_table(),
            final(self).spec_instrumentation() == old(self).spec_instrumentation(),
            match r {
                Ok(p) => {
                    &&& p@.function_name == fn_name@
                    &&& p@.gas_used == old(self).spec_gas_table().spec_estimate(args@.len())
                    &&& p@.instruction_count == p@.gas_used / 10
                    &&& p@.call_depth == 1
                },
                Err(e) => {
                    &&& (e is FunctionNotFound || e is ExecutionTrap)
                    &&& e.spec_message().len() > 0
                    &&& (e is FunctionNotFound ==> e.spec_message() == spec_not_found_msg(fn_name@))
                    &&& (e is ExecutionTrap ==> spec_is_trap_msg(e.spec_message()))
                },
            },
    {
        let result = match self.execute_function(fn_name, args) {
            Ok(result) => result,
            Err(e) => {
                return Err(e);
            },
        };
        Ok(
            GasProfile {
                function_name: String::from_str(fn_name),
                gas_used: result.gas_used,
                instruction_count: result.gas_used / 10,
                call_depth: 1,
            },
        )
    }

    /// Switches call-trace recording on or off; the cost table is
    /// unaffected.  Construction enables it; callers that want deterministic
    /// traces set it once, before the first invocation.
    pub fn enable_instrumentation(&mut self, enabled: bool)
        ensures
            final(self).spec_instrumentation() == enabled,
            final(self).spec_gas_table() == old(self).spec_gas_table(),
    {
        self.instrumentation_enabled = enabled;
    }
}

} // verus!
