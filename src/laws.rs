use vstd::prelude::*;
use std::rc::Rc;
use crate::environment::{Environment, frame_get, scope_get, scope_lookup};
use crate::error::RuntimeError;
use crate::eval::{Expression, apply, bind_params, eval, eval_args, invoke};
use crate::value::{Closure, Value};

verus! {

/// Whether some binding of `frame` has the name `name`.
pub open spec fn frame_binds(frame: Seq<(String, Value)>, name: Seq<char>) -> bool {
    exists|i: int| 0 <= i < frame.len() && (#[trigger] frame[i]).0@ == name
}

/// Whether `frame`, or some frame of the chain from `parent`, binds `name`.
pub open spec fn scope_binds(
    frame: Seq<(String, Value)>,
    parent: Option<Rc<Environment>>,
    name: Seq<char>,
) -> bool
    decreases parent,
{
    frame_binds(frame, name) || match parent {
        Some(p) => scope_binds(p.bindings@, p.parent, name),
        None => false,
    }
}

proof fn lemma_frame_get_unbound(frame: Seq<(String, Value)>, name: Seq<char>)
    requires
        !frame_binds(frame, name),
    ensures
        frame_get(frame, name) is None,
    decreases frame.len(),
{
    if frame.len() > 0 {
        assert(frame.last() == frame[frame.len() - 1]);
        let shorter = frame.drop_last();
        assert forall|i: int| 0 <= i < shorter.len() implies (#[trigger] shorter[i]).0@ != name by {
            assert(shorter[i] == frame[i]);
        }
        lemma_frame_get_unbound(shorter, name);
    }
}

proof fn lemma_scope_get_unbound(
    frame: Seq<(String, Value)>,
    parent: &Option<Rc<Environment>>,
    name: Seq<char>,
)
    requires
        !scope_binds(frame, *parent, name),
    ensures
        scope_get(frame, *parent, name) is None,
    decreases *parent,
{
    lemma_frame_get_unbound(frame, name);
    if let Some(p) = parent {
        lemma_scope_get_unbound(p.bindings@, &p.parent, name);
    }
}

/// A name that no frame of a scope binds is undefined there: looking it up
/// fails with `UndefinedVariable` carrying that name.
pub proof fn law_unbound_name_is_undefined(env: Environment, name: String)
    requires
        !scope_binds(env.bindings@, env.parent, name@),
    ensures
        scope_lookup(env.bindings@, env.parent, name) == Err::<Value, RuntimeError>(
            RuntimeError::UndefinedVariable(name),
        ),
{
    lemma_scope_get_unbound(env.bindings@, &env.parent, name@);
}

/// A frame that binds a name hides every binding of that name further up the
/// chain: a lookup there gives the frame's own value, whatever its parent.
pub proof fn law_frame_binding_shadows(
    frame: Seq<(String, Value)>,
    parent: Option<Rc<Environment>>,
    name: String,
    v: Value,
)
    requires
        frame_get(frame, name@) == Some(v),
    ensures
        scope_lookup(frame, parent, name) == Ok::<Value, RuntimeError>(v),
{
}

/// A closure that is not variadic, called with fewer or more arguments than
/// it has parameters, fails with `IncorrectNumberOfArgs(parameters, arguments)`.
pub proof fn law_wrong_arity_fails(c: Closure, args: Seq<Value>, depth: nat)
    requires
        !c.variadic,
        args.len() != c.params@.len(),
        args.len() <= usize::MAX,
    ensures
        invoke(c, args, depth) == Err::<Value, RuntimeError>(
            RuntimeError::IncorrectNumberOfArgs(c.params@.len() as usize, args.len() as usize),
        ),
{
}

/// A variadic closure accepts any number of arguments from its parameter count
/// up: its body runs in a frame that binds each parameter to the argument in
/// its position, over the scope it captured.
pub proof fn law_variadic_accepts_extra(c: Closure, args: Seq<Value>, depth: nat)
    requires
        c.variadic,
        args.len() >= c.params@.len(),
        depth > 0,
    ensures
        invoke(c, args, depth) == eval(
            *c.body,
            bind_params(c.params@, args),
            Some(c.env),
            (depth - 1) as nat,
        ),
{
}

/// Applying a value that is neither a closure nor a built-in fails with
/// `CannotCallValue`, in every scope and whatever the operands.
pub proof fn law_non_callable_fails(
    e: Expression,
    frame: Seq<(String, Value)>,
    parent: Option<Rc<Environment>>,
    depth: nat,
)
    requires
        e is Application,
        *e->Application_0 matches Expression::Atomic(v) && !v.is_callable_spec(),
    ensures
        eval(e, frame, parent, depth) == Err::<Value, RuntimeError>(
            RuntimeError::CannotCallValue(e->Application_0->Atomic_0.kind_spec()),
        ),
{
    let v = e->Application_0->Atomic_0;
    assert(eval(*e->Application_0, frame, parent, depth) == Ok::<Value, RuntimeError>(v));
}

/// Scoping is lexical: a closure applied in two scopes to operands that
/// evaluate alike there gives the same result in both, the result of its body
/// over the scope it captured; the caller's scope is never consulted.
pub proof fn law_closure_ignores_call_site(
    e: Expression,
    c: Rc<Closure>,
    frame1: Seq<(String, Value)>,
    parent1: Option<Rc<Environment>>,
    frame2: Seq<(String, Value)>,
    parent2: Option<Rc<Environment>>,
    depth: nat,
)
    requires
        e is Application,
        *e->Application_0 == Expression::Atomic(Value::Closure(c)),
        eval_args(e->Application_1@, frame1, parent1, depth) == eval_args(
            e->Application_1@,
            frame2,
            parent2,
            depth,
        ),
    ensures
        eval(e, frame1, parent1, depth) == eval(e, frame2, parent2, depth),
        eval(e, frame1, parent1, depth) == match eval_args(
            e->Application_1@,
            frame1,
            parent1,
            depth,
        ) {
            Ok(args) => invoke(*c, args, depth),
            Err(err) => Err(err),
        },
{
    let f = Value::Closure(c);
    assert(eval(*e->Application_0, frame1, parent1, depth) == Ok::<Value, RuntimeError>(f));
    assert(eval(*e->Application_0, frame2, parent2, depth) == Ok::<Value, RuntimeError>(f));
    if let Ok(args) = eval_args(e->Application_1@, frame1, parent1, depth) {
        assert(apply(f, args, depth) == invoke(*c, args, depth));
    }
}

} // verus!
