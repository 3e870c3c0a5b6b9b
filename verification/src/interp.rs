use crate::native::{from_native, from_native_all, native_model};
use crate::report::{error_parts, is_trace_of, SimplifiedUiuaError};
use crate::value::UiuaValue;
use uiua::{Uiua, UiuaError, Value};
use vstd::prelude::*;

verus! {

#[verifier::external_type_specification]
#[verifier::external_body]
pub struct ExUiua(uiua::Uiua);

/// The values on an interpreter's stack, the deepest first.
pub uninterp spec fn stack_model(u: Uiua) -> Seq<Value>;

/// Pushes a value by `uiua::Uiua::push`: it comes to lie on top of the
/// stack, and what lay there stays below it.
#[verifier::external_body]
fn interp_push(uiua: &mut Uiua, value: Value)
    ensures
        stack_model(*final(uiua)) == stack_model(*old(uiua)).push(value),
{
    uiua.push(value)
}

/// The error with which an interpreter turns down a pop while its stack is
/// empty.
pub uninterp spec fn pop_error(u: Uiua) -> UiuaError;

/// Pops a value by `uiua::Uiua::pop`: the top of the stack comes off and is
/// handed out; on an empty stack nothing changes and the call fails with
/// the interpreter's error, which it makes from its own state.
#[verifier::external_body]
fn interp_pop(uiua: &mut Uiua) -> (r: Result<Value, UiuaError>)
    ensures
        match r {
            Ok(v) => stack_model(*old(uiua)).len() > 0 && v == stack_model(*old(uiua)).last()
                && stack_model(*final(uiua)) == stack_model(*old(uiua)).drop_last(),
            Err(e) => stack_model(*old(uiua)).len() == 0 && stack_model(*final(uiua))
                == stack_model(*old(uiua)) && e == pop_error(*old(uiua)),
        },
{
    uiua.pop(())
}

/// Copies the stack out by `uiua::Uiua::stack`, the deepest value first.
#[verifier::external_body]
pub(crate) fn copy_stack(uiua: &Uiua) -> (r: Vec<Value>)
    ensures
        r@ == stack_model(*uiua),
{
    uiua.stack().to_vec()
}

/// Takes the top value off the stack for a binding's callback, as a tagged
/// array value. On an empty stack the stack stays as it is, and the
/// interpreter's error comes back in its flat form.
pub fn pop_value(uiua: &mut Uiua) -> (r: Result<UiuaValue, SimplifiedUiuaError>)
    ensures
        match r {
            Ok(v) => stack_model(*old(uiua)).len() > 0 && v@ == native_model(
                stack_model(*old(uiua)).last(),
            ) && stack_model(*final(uiua)) == stack_model(*old(uiua)).drop_last(),
            Err(f) => stack_model(*old(uiua)).len() == 0 && stack_model(*final(uiua))
                == stack_model(*old(uiua)) && f.message == error_parts(
                pop_error(*old(uiua)),
            ).message && is_trace_of(f.trace@, error_parts(pop_error(*old(uiua))).frames@),
        },
{
    match interp_pop(uiua) {
        Ok(v) => Ok(from_native(&v)),
        Err(e) => Err(SimplifiedUiuaError::from_error(&e)),
    }
}

/// Pushes a value that was made for the stack, if it could be made: the
/// value comes to lie on top; where making it failed, the stack stays as it
/// is and the failure is handed back.
pub fn push_value<E>(uiua: &mut Uiua, made: Result<Value, E>) -> (r: Result<(), E>)
    ensures
        match made {
            Ok(v) => r is Ok && stack_model(*final(uiua)) == stack_model(*old(uiua)).push(v),
            Err(e) => r == Err::<(), E>(e) && stack_model(*final(uiua)) == stack_model(
                *old(uiua),
            ),
        },
{
    match made {
        Ok(v) => {
            interp_push(uiua, v);
            Ok(())
        },
        Err(e) => Err(e),
    }
}

/// Pushes the given values in the order given: the first comes to lie
/// deepest, the last on top, all above what the stack held before.
pub fn seed_stack(uiua: &mut Uiua, values: Vec<Value>)
    ensures
        stack_model(*final(uiua)) == stack_model(*old(uiua)) + values@,
{
    let ghost all = values@;
    let ghost start = stack_model(*uiua);
    for v in it: values.into_iter()
        invariant
            it.seq() == all,
            stack_model(*uiua) == start + all.take(it.index@),
    {
        interp_push(uiua, v);
        assert(all.take(it.index@ + 1) =~= all.take(it.index@).push(v));
    }
    assert(all.take(all.len() as int) =~= all);
}

/// The values on the stack as tagged array values, the deepest first.
pub fn stack_values(uiua: &Uiua) -> (r: Vec<UiuaValue>)
    ensures
        r@.len() == stack_model(*uiua).len(),
        forall|i: int| 0 <= i < r@.len() ==> (#[trigger] r@[i])@ == native_model(stack_model(*uiua)[i]),
{
    let stack = copy_stack(uiua);
    from_native_all(&stack)
}

} // verus!
