use vstd::prelude::*;
use std::rc::Rc;
use crate::environment::{Environment, scope_lookup};
use crate::error::RuntimeError;
use crate::number::{Number, number_sum};
use crate::value::{Builtin, Closure, Value, ValueList, list_items};

verus! {

/// An evaluable tree.
#[derive(Debug)]
pub enum Expression {
    /// A literal value.
    Atomic(Value),
    /// A reference resolved in the scope of evaluation.
    Variable(String),
    /// An operator applied to operands.
    Application(Box<Expression>, Vec<Expression>),
}

/// Whether `actual` arguments suit a function with `expected` parameters.
pub open spec fn arity_ok(expected: nat, actual: nat, variadic: bool) -> bool {
    actual == expected || (variadic && actual > expected)
}

/// The frame of a call: each parameter bound to the argument in its position.
pub open spec fn bind_params(params: Seq<String>, args: Seq<Value>) -> Seq<(String, Value)> {
    Seq::new(params.len(), |i: int| (params[i], args[i]))
}

/// The sum of two values, which must both be numbers.
pub open spec fn value_sum(a: Value, b: Value) -> Result<Value, RuntimeError> {
    match (a, b) {
        (Value::Number(x), Value::Number(y)) => match number_sum(x, y) {
            Ok(n) => Ok(Value::Number(n)),
            Err(e) => Err(e),
        },
        (Value::Number(_), other) => Err(RuntimeError::TypeError(other.kind_spec())),
        (other, _) => Err(RuntimeError::TypeError(other.kind_spec())),
    }
}

/// Addition folded over `args` from the integer zero, left to right; the
/// first failure is the result.
pub open spec fn fold_add(args: Seq<Value>) -> Result<Value, RuntimeError>
    decreases args.len(),
{
    if args.len() == 0 {
        Ok(Value::Number(Number::Integer(0)))
    } else {
        match fold_add(args.drop_last()) {
            Ok(acc) => value_sum(acc, args.last()),
            Err(e) => Err(e),
        }
    }
}

/// What a built-in returns for `args`.
pub open spec fn builtin_result(b: Builtin, args: Seq<Value>) -> Result<Value, RuntimeError> {
    match b {
        Builtin::Add => fold_add(args),
    }
}

/// The value of `e` in the scope made of `frame` and then the chain from
/// `parent`, with at most `depth` nested closure calls.
pub open spec fn eval(
    e: Expression,
    frame: Seq<(String, Value)>,
    parent: Option<Rc<Environment>>,
    depth: nat,
) -> Result<Value, RuntimeError>
    decreases depth, 2int, e,
{
    match e {
        Expression::Atomic(v) => Ok(v),
        Expression::Variable(name) => scope_lookup(frame, parent, name),
        Expression::Application(op, operands) => match eval(*op, frame, parent, depth) {
            Err(err) => Err(err),
            Ok(f) => if !f.is_callable_spec() {
                Err(RuntimeError::CannotCallValue(f.kind_spec()))
            } else {
                match eval_args(operands@, frame, parent, depth) {
                    Err(err) => Err(err),
                    Ok(args) => apply(f, args, depth),
                }
            },
        },
    }
}

/// The values of `es`, evaluated left to right; the first failure is the result.
pub open spec fn eval_args(
    es: Seq<Expression>,
    frame: Seq<(String, Value)>,
    parent: Option<Rc<Environment>>,
    depth: nat,
) -> Result<Seq<Value>, RuntimeError>
    decreases depth, 2int, es,
{
    if es.len() == 0 {
        Ok(Seq::empty())
    } else {
        match eval_args(es.subrange(0, es.len() - 1), frame, parent, depth) {
            Err(err) => Err(err),
            Ok(vs) => match eval(es[es.len() - 1], frame, parent, depth) {
                Err(err) => Err(err),
                Ok(v) => Ok(vs.push(v)),
            },
        }
    }
}

/// What applying `f` to `args` gives, with at most `depth` nested closure calls.
pub open spec fn apply(f: Value, args: Seq<Value>, depth: nat) -> Result<Value, RuntimeError>
    decreases depth, 1int,
{
    match f {
        Value::Builtin(b) => builtin_result(b, args),
        Value::Closure(c) => invoke(*c, args, depth),
        _ => Err(RuntimeError::CannotCallValue(f.kind_spec())),
    }
}

/// What calling closure `c` with `args` gives: the arity check, then its body
/// in a new frame over the scope it captured.
pub open spec fn invoke(c: Closure, args: Seq<Value>, depth: nat) -> Result<Value, RuntimeError>
    decreases depth, 0int,
{
    if !arity_ok(c.params@.len(), args.len(), c.variadic) {
        Err(RuntimeError::IncorrectNumberOfArgs(c.params@.len() as usize, args.len() as usize))
    } else if depth == 0 {
        Err(RuntimeError::StackOverflow)
    } else {
        eval(*c.body, bind_params(c.params@, args), Some(c.env), (depth - 1) as nat)
    }
}

} // verus!

verus! {

/// Checks an argument count against a parameter count: equal counts pass, and
/// so do more arguments than parameters when `variadic` holds.
pub fn check_arity(actual: usize, expected: usize, variadic: bool) -> (r: Result<(), RuntimeError>)
    ensures
        r is Ok <==> arity_ok(expected as nat, actual as nat, variadic),
        r is Err ==> r == Err::<(), RuntimeError>(
            RuntimeError::IncorrectNumberOfArgs(expected, actual),
        ),
{
    if actual == expected || (variadic && actual > expected) {
        Ok(())
    } else {
        Err(RuntimeError::IncorrectNumberOfArgs(expected, actual))
    }
}

/// Once a prefix of the operands fails, evaluating all of them fails the same way.
proof fn lemma_args_error_sticks(
    es: Seq<Expression>,
    k: int,
    frame: Seq<(String, Value)>,
    parent: Option<Rc<Environment>>,
    depth: nat,
)
    requires
        0 <= k <= es.len(),
        eval_args(es.subrange(0, k), frame, parent, depth) is Err,
    ensures
        eval_args(es, frame, parent, depth) == eval_args(es.subrange(0, k), frame, parent, depth),
    decreases es.len(),
{
    if es.len() == k {
        assert(es.subrange(0, k) =~= es);
    } else {
        let shorter = es.subrange(0, es.len() - 1);
        assert(shorter.subrange(0, k) =~= es.subrange(0, k));
        lemma_args_error_sticks(shorter, k, frame, parent, depth);
    }
}

impl Environment {
    /// Evaluates `expr` in this scope, allowing at most `depth` nested closure
    /// calls.
    pub fn evaluate(&self, expr: &Expression, depth: u64) -> (r: Result<Value, RuntimeError>)
        ensures
            r == eval(*expr, self.bindings@, self.parent, depth as nat),
        decreases depth, 2int, *expr,
    {
        match expr {
            Expression::Atomic(v) => Ok(v.clone()),
            Expression::Variable(name) => self.lookup(name),
            Expression::Application(op, operands) => {
                let f = match self.evaluate(op, depth) {
                    Ok(f) => f,
                    Err(e) => return Err(e),
                };
                if !f.is_callable() {
                    return Err(RuntimeError::CannotCallValue(f.kind()));
                }
                let mut vals: Vec<Value> = Vec::new();
                let mut i: usize = 0;
                assert(operands@.subrange(0, 0) =~= Seq::<Expression>::empty());
                while i < operands.len()
                    invariant
                        *expr == Expression::Application(*op, *operands),
                        eval(**op, self.bindings@, self.parent, depth as nat) == Ok::<Value, RuntimeError>(f),
                        f.is_callable_spec(),
                        i <= operands@.len(),
                        eval_args(operands@.subrange(0, i as int), self.bindings@, self.parent, depth as nat)
                            == Ok::<Seq<Value>, RuntimeError>(vals@),
                    decreases operands.len() - i,
                {
                    let ghost next = operands@.subrange(0, i + 1);
                    assert(next.subrange(0, i as int) =~= operands@.subrange(0, i as int));
                    assert(next[i as int] == operands@[i as int]);
                    assert(decreases_to!(*expr => operands@[i as int]));
                    let v = match self.evaluate(&operands[i], depth) {
                        Ok(v) => v,
                        Err(e) => {
                            proof {
                                assert(eval_args(next, self.bindings@, self.parent, depth as nat)
                                    == Err::<Seq<Value>, RuntimeError>(e));
                                lemma_args_error_sticks(
                                    operands@,
                                    i + 1,
                                    self.bindings@,
                                    self.parent,
                                    depth as nat,
                                );
                            }
                            return Err(e);
                        },
                    };
                    vals.push(v);
                    i += 1;
                }
                assert(operands@.subrange(0, operands@.len() as int) =~= operands@);
                let args = ValueList::from_vec(vals);
                f.try_call(&args, depth)
            },
        }
    }
}

impl Value {
    /// Applies this value to `args`: a closure or a built-in is called, any
    /// other value gives `CannotCallValue`.
    pub fn try_call(&self, args: &ValueList, depth: u64) -> (r: Result<Value, RuntimeError>)
        ensures
            r == apply(*self, list_items(*args), depth as nat),
        decreases depth, 1int,
    {
        match self {
            Value::Builtin(b) => b.invoke(args),
            Value::Closure(c) => c.call(args, depth),
            _ => Err(RuntimeError::CannotCallValue(self.kind())),
        }
    }
}

impl Closure {
    /// Calls this closure: checks the argument count, binds each parameter to
    /// the argument in its position in a new frame over the captured scope,
    /// and evaluates the body there. Arguments past the parameters of a
    /// variadic closure are accepted and left unbound.
    pub fn call(&self, args: &ValueList, depth: u64) -> (r: Result<Value, RuntimeError>)
        ensures
            r == invoke(*self, list_items(*args), depth as nat),
        decreases depth, 0int,
    {
        let n = args.len();
        if let Err(e) = check_arity(n, self.params.len(), self.variadic) {
            return Err(e);
        }
        if depth == 0 {
            return Err(RuntimeError::StackOverflow);
        }
        let vals = args.to_vec();
        let mut bindings: Vec<(String, Value)> = Vec::new();
        let mut i: usize = 0;
        while i < self.params.len()
            invariant
                i <= self.params@.len() <= vals@.len(),
                bindings@ =~= Seq::new(i as nat, |j: int| (self.params@[j], vals@[j])),
            decreases self.params.len() - i,
        {
            bindings.push((self.params[i].clone(), vals[i].clone()));
            i += 1;
        }
        assert(bindings@ =~= bind_params(self.params@, list_items(*args)));
        let frame = Environment::extend(&self.env, bindings);
        frame.evaluate(&self.body, depth - 1)
    }
}

} // verus!
