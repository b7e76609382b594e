use vstd::prelude::*;
use crate::environment::Environment;
use crate::error::RuntimeError;
use crate::eval::{builtin_result, fold_add, value_sum};
use crate::number::Number;
use crate::value::{Builtin, Value, ValueList, list_items};

verus! {

/// Adds two values, which must both be numbers; otherwise `TypeError` names
/// the kind of the first that is not.
pub fn add2(acc: Value, v: &Value) -> (r: Result<Value, RuntimeError>)
    ensures
        r == value_sum(acc, *v),
{
    match (&acc, v) {
        (Value::Number(x), Value::Number(y)) => match x.add(*y) {
            Ok(n) => Ok(Value::Number(n)),
            Err(e) => Err(e),
        },
        (Value::Number(_), other) => Err(RuntimeError::TypeError(other.kind())),
        (other, _) => Err(RuntimeError::TypeError(other.kind())),
    }
}

/// Folds addition over `args` from the integer zero, left to right.
pub fn add(args: &ValueList) -> (r: Result<Value, RuntimeError>)
    ensures
        r == fold_add(list_items(*args)),
{
    let vals = args.to_vec();
    let mut acc: Result<Value, RuntimeError> = Ok(Value::Number(Number::Integer(0)));
    let mut i: usize = 0;
    assert(vals@.subrange(0, 0) =~= Seq::<Value>::empty());
    while i < vals.len()
        invariant
            i <= vals@.len(),
            acc == fold_add(vals@.subrange(0, i as int)),
        decreases vals.len() - i,
    {
        assert(vals@.subrange(0, i + 1).drop_last() =~= vals@.subrange(0, i as int));
        acc = match acc {
            Ok(a) => add2(a, &vals[i]),
            Err(e) => Err(e),
        };
        i += 1;
    }
    assert(vals@.subrange(0, vals@.len() as int) =~= vals@);
    acc
}

impl Builtin {
    /// The name under which the standard scope binds this built-in.
    pub fn name(&self) -> (r: String)
        ensures
            *self == Builtin::Add ==> r@ == "add"@,
    {
        match self {
            Builtin::Add => "add".to_string(),
        }
    }

    /// Runs this built-in on `args`.
    pub fn invoke(&self, args: &ValueList) -> (r: Result<Value, RuntimeError>)
        ensures
            r == builtin_result(*self, list_items(*args)),
    {
        match self {
            Builtin::Add => crate::builtins::add(args),
        }
    }
}

/// A root scope that binds each built-in under its name.
pub fn standard_environment() -> (r: Environment)
    ensures
        r.parent is None,
        r.bindings@.len() == 1,
        r.bindings@[0].0@ == "add"@,
        r.bindings@[0].1 == Value::Builtin(Builtin::Add),
{
    let mut bindings: Vec<(String, Value)> = Vec::new();
    bindings.push((Builtin::Add.name(), Value::Builtin(Builtin::Add)));
    Environment::root(bindings)
}

} // verus!
