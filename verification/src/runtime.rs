use crate::backend::{copy_bytes, CustomBackend, ExternalBackendHandlers, JsFunctionWrapper};
use crate::interp::{copy_stack, seed_stack, stack_model};
use crate::native::{from_native_all, native_model};
use crate::report::{
    diagnostic_parts, error_parts, is_trace_of, span_model, SimplifiedUiuaError, UiuaDiagnostic,
};
use crate::value::UiuaValue;
use uiua::{Compiler, Diagnostic, Uiua, UiuaError, Value};
use vstd::prelude::*;

verus! {

#[verifier::external_type_specification]
#[verifier::external_body]
pub struct ExCompiler(uiua::Compiler);

/// `uiua::Compiler`'s `Clone`, which is derived: the copy holds, field by
/// field, what the compiler holds.
pub assume_specification[ <uiua::Compiler as Clone>::clone ](c: &uiua::Compiler) -> (r: uiua::Compiler)
    ensures
        r == *c,
;

/// A handle on compiler state, to be used again in a later run.
pub struct CompilerRef {
    pub compiler: Compiler,
}

impl Clone for CompilerRef {
    fn clone(&self) -> (r: Self)
        ensures
            r == *self,
    {
        CompilerRef { compiler: self.compiler.clone() }
    }
}

/// A callable of the host that the interpreter can invoke under a name,
/// taking `signature.0` values from the stack and putting `signature.1`
/// back.
#[derive(Debug)]
pub struct JsBinding {
    pub name: String,
    pub signature: (usize, usize),
    pub callback: JsFunctionWrapper,
}

impl JsBinding {
    pub fn new(name: String, inputs: usize, outputs: usize, callback: JsFunctionWrapper) -> (r:
        JsBinding)
        ensures
            r.name == name,
            r.signature == (inputs, outputs),
            r.callback == callback,
    {
        JsBinding { name, signature: (inputs, outputs), callback }
    }
}

/// What the host configures for one run. The execution limit is a number of
/// seconds, held as the bit pattern of a double.
pub struct UiuaRuntimeInternal {
    pub bindings: Vec<JsBinding>,
    pub compiler: Option<CompilerRef>,
    pub backend: ExternalBackendHandlers,
    pub execution_limit_seconds: Option<u64>,
}

impl UiuaRuntimeInternal {
    /// No bindings, no compiler to use again, no sinks, no limit.
    pub fn new() -> (r: Self)
        ensures
            r.bindings@.len() == 0,
            r.compiler is None,
            r.backend.print_str_stdout_handler is None,
            r.backend.print_str_stderr_handler is None,
            r.execution_limit_seconds is None,
    {
        UiuaRuntimeInternal {
            bindings: Vec::new(),
            compiler: None,
            backend: ExternalBackendHandlers::new(),
            execution_limit_seconds: None,
        }
    }

    /// Adds a binding behind those already there.
    pub fn add_binding(
        &mut self,
        name: String,
        inputs: usize,
        outputs: usize,
        callback: JsFunctionWrapper,
    )
        ensures
            final(self).bindings@.len() == old(self).bindings@.len() + 1,
            final(self).bindings@.drop_last() == old(self).bindings@,
            final(self).bindings@.last().name == name,
            final(self).bindings@.last().signature == (inputs, outputs),
            final(self).bindings@.last().callback == callback,
            final(self).compiler == old(self).compiler,
            final(self).backend == old(self).backend,
            final(self).execution_limit_seconds == old(self).execution_limit_seconds,
    {
        let binding = JsBinding::new(name, inputs, outputs, callback);
        self.bindings.push(binding);
        assert(self.bindings@.drop_last() =~= old(self).bindings@);
    }

    /// Has the run use a copy of the given compiler state.
    pub fn set_compiler(&mut self, compiler: &CompilerRef)
        ensures
            final(self).compiler == Some(*compiler),
            final(self).bindings == old(self).bindings,
            final(self).backend == old(self).backend,
            final(self).execution_limit_seconds == old(self).execution_limit_seconds,
    {
        self.compiler = Some(compiler.clone());
    }

    pub fn get_backend(&self) -> (r: ExternalBackendHandlers)
        ensures
            r == self.backend,
    {
        self.backend
    }

    pub fn set_backend(&mut self, backend: ExternalBackendHandlers)
        ensures
            final(self).backend == backend,
            final(self).bindings == old(self).bindings,
            final(self).compiler == old(self).compiler,
            final(self).execution_limit_seconds == old(self).execution_limit_seconds,
    {
        self.backend = backend;
    }

    /// Sets the execution limit, a number of seconds given as the bit
    /// pattern of a double.
    pub fn set_execution_limit_seconds(&mut self, seconds: u64)
        ensures
            final(self).execution_limit_seconds == Some(seconds),
            final(self).bindings == old(self).bindings,
            final(self).compiler == old(self).compiler,
            final(self).backend == old(self).backend,
    {
        self.execution_limit_seconds = Some(seconds);
    }

    /// A capturing backend with the host's sinks and nothing captured yet.
    pub fn build_uiua_backend(&self) -> (r: CustomBackend)
        ensures
            r.backend == self.backend,
            r.stdout@ == Seq::<u8>::empty(),
            r.stderr@ == Seq::<u8>::empty(),
    {
        let mut backend = CustomBackend::new();
        backend.set_backend(self.backend);
        backend
    }
}

/// What a finished run leaves: the final stack, the compiler state, what
/// was captured on both channels, and the diagnostics.
pub struct UiuaExecutionResultInternal {
    pub stack: Vec<Value>,
    pub compiler: Compiler,
    pub stdout: Vec<u8>,
    pub stderr: Vec<u8>,
    pub diagnostics: Vec<Diagnostic>,
}

/// What a run that did not finish leaves: the error in its flat form, and
/// what was captured up to the failure.
pub struct UiuaExecutionFailure {
    pub error: SimplifiedUiuaError,
    pub stdout: Vec<u8>,
    pub stderr: Vec<u8>,
}

impl UiuaExecutionResultInternal {
    /// Puts the result of a finished run together; the captured output is
    /// copied, the backend keeps it.
    pub fn collect(
        stack: Vec<Value>,
        compiler: Compiler,
        diagnostics: Vec<Diagnostic>,
        backend: &CustomBackend,
    ) -> (r: Self)
        ensures
            r.stack == stack,
            r.compiler == compiler,
            r.diagnostics == diagnostics,
            r.stdout@ == backend.stdout@,
            r.stderr@ == backend.stderr@,
    {
        UiuaExecutionResultInternal {
            stack,
            compiler,
            stdout: backend.stdout(),
            stderr: backend.stderr(),
            diagnostics,
        }
    }

    /// The final stack as tagged array values, in the stack's order.
    pub fn stack(&self) -> (r: Vec<UiuaValue>)
        ensures
            r@.len() == self.stack@.len(),
            forall|i: int| 0 <= i < r@.len() ==> (#[trigger] r@[i])@ == native_model(self.stack@[i]),
    {
        from_native_all(&self.stack)
    }

    /// A handle on a copy of the compiler state as the run left it; the
    /// result keeps its own.
    pub fn compiler(&self) -> (r: CompilerRef)
        ensures
            r.compiler == self.compiler,
    {
        CompilerRef { compiler: self.compiler.clone() }
    }

    /// A copy of what was printed to standard output.
    pub fn stdout(&self) -> (r: Vec<u8>)
        ensures
            r@ == self.stdout@,
    {
        copy_bytes(&self.stdout)
    }

    /// A copy of what was printed to standard error.
    pub fn stderr(&self) -> (r: Vec<u8>)
        ensures
            r@ == self.stderr@,
    {
        copy_bytes(&self.stderr)
    }

    /// The diagnostics in their flat form, in order.
    pub fn diagnostics(&self) -> (r: Vec<UiuaDiagnostic>)
        ensures
            r@.len() == self.diagnostics@.len(),
            forall|i: int|
                0 <= i < r@.len() ==> {
                    let parts = diagnostic_parts(self.diagnostics@[i]);
                    &&& (#[trigger] r@[i]).message == parts.message
                    &&& r@[i].span == span_model(parts.span)
                    &&& r@[i].kind == parts.kind
                },
    {
        let mut out: Vec<UiuaDiagnostic> = Vec::new();
        let mut i: usize = 0;
        while i < self.diagnostics.len()
            invariant
                i <= self.diagnostics@.len(),
                out@.len() == i,
                forall|k: int|
                    0 <= k < i ==> {
                        let parts = diagnostic_parts(self.diagnostics@[k]);
                        &&& (#[trigger] out@[k]).message == parts.message
                        &&& out@[k].span == span_model(parts.span)
                        &&& out@[k].kind == parts.kind
                    },
            decreases self.diagnostics@.len() - i,
        {
            out.push(UiuaDiagnostic::from_diagnostic(&self.diagnostics[i]));
            i += 1;
        }
        out
    }
}

impl UiuaExecutionFailure {
    /// What is handed back when an initial value was turned down: what was
    /// said against it, no trace, and everything that was captured before.
    pub fn reject(message: String, backend: &CustomBackend) -> (r: Self)
        ensures
            r.error.message == message,
            r.error.trace@.len() == 0,
            r.stdout@ == backend.stdout@,
            r.stderr@ == backend.stderr@,
    {
        UiuaExecutionFailure {
            error: SimplifiedUiuaError { message, trace: Vec::new() },
            stdout: backend.stdout(),
            stderr: backend.stderr(),
        }
    }

    /// What is handed back when loading or running failed: the error in its
    /// flat form, together with everything that was captured before it.
    pub fn report(e: &UiuaError, backend: &CustomBackend) -> (r: Self)
        ensures
            r.error.message == error_parts(*e).message,
            is_trace_of(r.error.trace@, error_parts(*e).frames@),
            r.stdout@ == backend.stdout@,
            r.stderr@ == backend.stderr@,
    {
        UiuaExecutionFailure {
            error: SimplifiedUiuaError::from_error(e),
            stdout: backend.stdout(),
            stderr: backend.stderr(),
        }
    }
}

/// How many nodes of top-level code a compiler holds for the next run.
pub uninterp spec fn root_len(c: Compiler) -> nat;

/// Clears what was compiled at the top level before, by
/// `uiua::Node::clear` on the root of `uiua::Compiler::assembly_mut`: the
/// root is the empty node afterwards. Nothing is claimed of the rest of the
/// compiler.
#[verifier::external_body]
fn reset_root(compiler: &mut Compiler)
    ensures
        root_len(*final(compiler)) == 0,
{
    compiler.assembly_mut().root.clear()
}

/// Compiles a source text by `uiua::Compiler::load_str`. Whether it
/// succeeds is the compiler's to say.
#[verifier::external_body]
fn load_source(compiler: &mut Compiler, code: &str) -> (r: Result<(), UiuaError>) {
    compiler.load_str(code).map(|_| ())
}

/// Runs what was compiled by `uiua::Uiua::run_compiler`. Whether it
/// succeeds, and what it leaves on the stack, is the interpreter's to say.
#[verifier::external_body]
fn run_loaded(uiua: &mut Uiua, compiler: &mut Compiler) -> (r: Result<(), UiuaError>) {
    uiua.run_compiler(compiler)
}

/// Takes the diagnostics that the compiler has gathered, by
/// `uiua::Compiler::take_diagnostics`, in the order of that set.
#[verifier::external_body]
fn drain_diagnostics(compiler: &mut Compiler) -> (r: Vec<Diagnostic>) {
    compiler.take_diagnostics().into_iter().collect()
}

/// How the interpreter's part of a run ended.
pub enum RunOutcome {
    /// Loaded and ran: the final stack, the deepest value first, and the
    /// diagnostics.
    Finished { stack: Vec<Value>, diagnostics: Vec<Diagnostic> },
    /// The source did not load; nothing was pushed or run.
    LoadFailed(UiuaError),
    /// The source loaded, but the initial value of this index could not be
    /// made; nothing was pushed or run.
    ValueRejected { index: usize, message: String },
    /// The run failed.
    RunFailed(UiuaError),
}

/// The least index at or after `from` of an initial value that could not be
/// made, or -1.
pub open spec fn rejected_from(values: Seq<Result<Value, String>>, from: int) -> int
    decreases values.len() - from,
{
    if from < 0 || from >= values.len() {
        -1
    } else if values[from] is Err {
        from
    } else {
        rejected_from(values, from + 1)
    }
}

/// An index that is given is that of a value that could not be made, and no
/// value before it is one.
pub proof fn lemma_rejected_index(values: Seq<Result<Value, String>>, from: int)
    requires
        0 <= from,
    ensures
        rejected_from(values, from) == -1 || (from <= rejected_from(values, from) < values.len()
            && values[rejected_from(values, from)] is Err),
        forall|k: int| from <= k < values.len() && values[k] is Err ==> from <= rejected_from(values, from) <= k,
    decreases values.len() - from,
{
    if from < values.len() && !(values[from] is Err) {
        lemma_rejected_index(values, from + 1);
    }
}

/// The index of the first initial value that could not be made, or -1.
pub open spec fn first_rejected(values: Seq<Result<Value, String>>) -> int {
    rejected_from(values, 0)
}

/// The initial values, where all of them could be made.
pub open spec fn accepted(values: Seq<Result<Value, String>>) -> Seq<Value> {
    Seq::new(values.len(), |i: int| values[i]->Ok_0)
}

/// The initial values in their order, or the first that could not be made
/// with what was said against it.
pub fn accept_values(values: Vec<Result<Value, String>>) -> (r: Result<
    Vec<Value>,
    (usize, String),
>)
    ensures
        match r {
            Ok(made) => first_rejected(values@) == -1 && made@ == accepted(values@),
            Err((index, message)) => first_rejected(values@) == index && index < values@.len()
                && values@[index as int] == Err::<Value, String>(message),
        },
{
    let ghost all = values@;
    let count = values.len();
    let mut made: Vec<Value> = Vec::new();
    let mut index: usize = 0;
    for value in it: values.into_iter()
        invariant
            it.seq() == all,
            count == all.len(),
            index == it.index@,
            made@ == accepted(all).take(index as int),
            rejected_from(all, 0) == rejected_from(all, index as int),
    {
        match value {
            Ok(v) => {
                made.push(v);
                assert(accepted(all).take(index + 1) =~= accepted(all).take(index as int).push(v));
            },
            Err(message) => {
                return Err((index, message));
            },
        }
        index += 1;
    }
    assert(accepted(all).take(all.len() as int) =~= accepted(all));
    Ok(made)
}

/// Makes a compiler ready for the load: one that is used again loses the
/// top-level code of earlier runs, so that it is not run again; a fresh one
/// is left as it is.
pub fn reset_if_reused(compiler: &mut Compiler, reuse: bool)
    ensures
        reuse ==> root_len(*final(compiler)) == 0,
        !reuse ==> *final(compiler) == *old(compiler),
{
    if reuse {
        reset_root(compiler);
    }
}

/// What follows the load: a failed load ends the run, and so does an
/// initial value that could not be made, either with the stack as it was;
/// else the initial values are pushed, the first deepest, and the run goes
/// on.
pub fn after_load(
    loaded: Result<(), UiuaError>,
    initial_values: Vec<Result<Value, String>>,
    uiua: &mut Uiua,
) -> (r: Option<RunOutcome>)
    ensures
        match loaded {
            Err(e) => r == Some(RunOutcome::LoadFailed(e)) && stack_model(*final(uiua))
                == stack_model(*old(uiua)),
            Ok(_) => if first_rejected(initial_values@) >= 0 {
                r matches Some(RunOutcome::ValueRejected { index, message }) && index
                    == first_rejected(initial_values@) && index < initial_values@.len()
                    && initial_values@[index as int] == Err::<
                    Value,
                    String,
                >(message) && stack_model(*final(uiua)) == stack_model(*old(uiua))
            } else {
                r is None && stack_model(*final(uiua)) == stack_model(*old(uiua)) + accepted(
                    initial_values@,
                )
            },
        },
{
    match loaded {
        Err(e) => Some(RunOutcome::LoadFailed(e)),
        Ok(_) => match accept_values(initial_values) {
            Err((index, message)) => Some(RunOutcome::ValueRejected { index, message }),
            Ok(made) => {
                seed_stack(uiua, made);
                None
            },
        },
    }
}

/// What follows the run: a failed run is handed back as it is; after a run
/// that went through, the diagnostics are taken and the stack is copied.
pub fn after_run(ran: Result<(), UiuaError>, uiua: &Uiua, compiler: &mut Compiler) -> (r:
    RunOutcome)
    ensures
        match ran {
            Err(e) => r == RunOutcome::RunFailed(e),
            Ok(_) => r matches RunOutcome::Finished { stack, .. } && stack@ == stack_model(*uiua),
        },
{
    match ran {
        Err(e) => RunOutcome::RunFailed(e),
        Ok(_) => {
            let diagnostics = drain_diagnostics(compiler);
            RunOutcome::Finished { stack: copy_stack(uiua), diagnostics }
        },
    }
}

/// The interpreter's part of one run, on an interpreter and a compiler that
/// the host has made ready (backend installed, bindings registered, limit
/// set): where a compiler is used again, clear its root, so that symbols
/// stay and earlier top-level code does not run again; load the source;
/// push the initial values, the first deepest; run; take the diagnostics
/// and the final stack. A failed load ends the run before any value is
/// looked at; a value that could not be made ends it before any value is
/// pushed.
pub fn run_code(
    code: &str,
    initial_values: Vec<Result<Value, String>>,
    uiua: &mut Uiua,
    compiler: &mut Compiler,
    reuse: bool,
) -> (r: RunOutcome)
    ensures
        r is LoadFailed || r is ValueRejected ==> stack_model(*final(uiua)) == stack_model(
            *old(uiua),
        ),
        r matches RunOutcome::ValueRejected { index, message } ==> index == first_rejected(
            initial_values@,
        ) && index < initial_values@.len() && initial_values@[index as int] == Err::<
            Value,
            String,
        >(message),
        r is RunFailed || r is Finished ==> first_rejected(initial_values@) == -1,
        r matches RunOutcome::Finished { stack, .. } ==> stack@ == stack_model(*final(uiua)),
{
    proof {
        lemma_rejected_index(initial_values@, 0);
    }
    reset_if_reused(compiler, reuse);
    let loaded = load_source(compiler, code);
    match after_load(loaded, initial_values, uiua) {
        Some(ended) => {
            return ended;
        },
        None => {},
    }
    let ran = run_loaded(uiua, compiler);
    after_run(ran, uiua, compiler)
}

/// What the host gets for a run: the result of a finished run, or the error
/// of one that did not finish, either with what was captured on both
/// channels.
pub fn conclude(outcome: RunOutcome, compiler: Compiler, backend: &CustomBackend) -> (r: Result<
    UiuaExecutionResultInternal,
    UiuaExecutionFailure,
>)
    ensures
        match outcome {
            RunOutcome::Finished { stack, diagnostics } => r matches Ok(res) && res.stack == stack
                && res.diagnostics == diagnostics && res.compiler == compiler && res.stdout@
                == backend.stdout@ && res.stderr@ == backend.stderr@,
            RunOutcome::LoadFailed(e) => r matches Err(f) && f.error.message == error_parts(
                e,
            ).message && is_trace_of(f.error.trace@, error_parts(e).frames@) && f.stdout@
                == backend.stdout@ && f.stderr@ == backend.stderr@,
            RunOutcome::ValueRejected { index, message } => r matches Err(f) && f.error.message
                == message && f.error.trace@.len() == 0 && f.stdout@ == backend.stdout@
                && f.stderr@ == backend.stderr@,
            RunOutcome::RunFailed(e) => r matches Err(f) && f.error.message == error_parts(
                e,
            ).message && is_trace_of(f.error.trace@, error_parts(e).frames@) && f.stdout@
                == backend.stdout@ && f.stderr@ == backend.stderr@,
        },
{
    match outcome {
        RunOutcome::Finished { stack, diagnostics } => Ok(
            UiuaExecutionResultInternal::collect(stack, compiler, diagnostics, backend),
        ),
        RunOutcome::LoadFailed(e) => Err(UiuaExecutionFailure::report(&e, backend)),
        RunOutcome::ValueRejected { index, message } => Err(
            UiuaExecutionFailure::reject(message, backend),
        ),
        RunOutcome::RunFailed(e) => Err(UiuaExecutionFailure::report(&e, backend)),
    }
}

} // verus!
