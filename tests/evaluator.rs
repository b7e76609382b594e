use lamb_eval::builtins::{add, add2, standard_environment};
use lamb_eval::environment::Environment;
use lamb_eval::error::{RuntimeError, ValueKind};
use lamb_eval::eval::{check_arity, Expression};
use lamb_eval::number::Number;
use lamb_eval::value::{Builtin, Closure, Value, ValueList};
use std::rc::Rc;

const DEPTH: u64 = 64;

fn integer(n: i128) -> Value {
    Value::Number(Number::Integer(n))
}

fn atom(v: Value) -> Expression {
    Expression::Atomic(v)
}

fn var(name: &str) -> Expression {
    Expression::Variable(name.to_string())
}

fn app(op: Expression, operands: Vec<Expression>) -> Expression {
    Expression::Application(Box::new(op), operands)
}

fn bind(name: &str, v: Value) -> (String, Value) {
    (name.to_string(), v)
}

fn closure(env: &Rc<Environment>, params: &[&str], variadic: bool, body: Expression) -> Value {
    Value::Closure(Rc::new(Closure {
        env: Rc::clone(env),
        body: Rc::new(body),
        params: params.iter().map(|p| p.to_string()).collect(),
        variadic,
    }))
}

fn list(values: Vec<Value>) -> ValueList {
    ValueList::from_vec(values)
}

fn as_int(r: Result<Value, RuntimeError>) -> i128 {
    match r {
        Ok(Value::Number(Number::Integer(n))) => n,
        other => panic!("expected an integer, got {:?}", other),
    }
}

#[test]
fn test() {
    let root = Rc::new(standard_environment());
    let first = closure(&root, &["a", "b"], false, var("a"));
    let all = closure(&root, &["a"], true, var("a"));
    let scope = Environment::extend(
        &root,
        vec![bind("foo", first), bind("a", integer(7)), bind("b", integer(3)), bind("c", integer(9)), bind("all", all)],
    );

    let r = scope.evaluate(&app(var("foo"), vec![var("a"), atom(integer(2))]), DEPTH);
    assert_eq!(as_int(r), 7, "foo(a, 2)");

    let r = scope.evaluate(&app(var("add"), vec![var("a"), var("b")]), DEPTH);
    assert_eq!(as_int(r), 10, "a + b");

    let lambda = closure(&root, &["a", "b"], false, var("a"));
    let r = scope.evaluate(&app(atom(lambda), vec![atom(integer(4)), atom(integer(5))]), DEPTH);
    assert_eq!(as_int(r), 4, "(a, b) -> a");

    let r = scope.evaluate(&app(var("all"), vec![var("a"), var("b"), var("c")]), DEPTH);
    assert_eq!(as_int(r), 7, "a,b,c");

    let assigned = Environment::extend(&Rc::new(scope), vec![bind("a", integer(2))]);
    assert_eq!(as_int(assigned.evaluate(&var("a"), DEPTH)), 2, "a = 2");
}

#[test]
fn wrong_arity_fails_for_fixed_closures() {
    let root = Rc::new(Environment::root(vec![]));
    let f = closure(&root, &["x", "y"], false, var("x"));
    match f.try_call(&list(vec![integer(1)]), DEPTH) {
        Err(RuntimeError::IncorrectNumberOfArgs(2, 1)) => {}
        other => panic!("{:?}", other),
    }
    match f.try_call(&list(vec![integer(1), integer(2), integer(3)]), DEPTH) {
        Err(RuntimeError::IncorrectNumberOfArgs(2, 3)) => {}
        other => panic!("{:?}", other),
    }
    assert_eq!(as_int(f.try_call(&list(vec![integer(1), integer(2)]), DEPTH)), 1);
}

#[test]
fn variadic_needs_at_least_its_parameters() {
    let root = Rc::new(Environment::root(vec![]));
    let f = closure(&root, &["a", "b", "rest"], true, var("a"));
    match f.try_call(&list(vec![integer(1), integer(2)]), DEPTH) {
        Err(RuntimeError::IncorrectNumberOfArgs(3, 2)) => {}
        other => panic!("{:?}", other),
    }
}

#[test]
fn variadic_closure_accepts_extra_arguments() {
    let root = Rc::new(Environment::root(vec![bind("f", integer(0))]));
    let f = closure(&root, &["a", "b", "rest"], true, var("a"));
    let scope = Environment::extend(&root, vec![bind("f", f)]);
    let call = app(var("f"), (1..=5).map(|n| atom(integer(n * 11))).collect());
    assert_eq!(as_int(scope.evaluate(&call, DEPTH)), 11);
}

#[test]
fn unbound_name_is_undefined() {
    let root = Rc::new(Environment::root(vec![bind("x", integer(1))]));
    let child = Environment::extend(&root, vec![bind("y", integer(2))]);
    match child.lookup(&"z".to_string()) {
        Err(RuntimeError::UndefinedVariable(name)) => assert_eq!(name, "z"),
        other => panic!("{:?}", other),
    }
    match child.evaluate(&var("z"), DEPTH) {
        Err(RuntimeError::UndefinedVariable(name)) => assert_eq!(name, "z"),
        other => panic!("{:?}", other),
    }
    assert_eq!(as_int(child.lookup(&"x".to_string())), 1);
}

#[test]
fn child_binding_shadows_parent() {
    let root = Rc::new(Environment::root(vec![bind("x", integer(1))]));
    let child = Environment::extend(&root, vec![bind("x", integer(2))]);
    let sibling = Environment::extend(&root, vec![bind("w", integer(3))]);
    assert_eq!(as_int(child.evaluate(&var("x"), DEPTH)), 2);
    assert_eq!(as_int(root.evaluate(&var("x"), DEPTH)), 1);
    assert_eq!(as_int(sibling.evaluate(&var("x"), DEPTH)), 1);
}

#[test]
fn last_binding_in_a_frame_wins() {
    let env = Environment::root(vec![bind("x", integer(1)), bind("x", integer(2))]);
    assert_eq!(as_int(env.lookup(&"x".to_string())), 2);
    assert!(matches!(env.get_local(&"y".to_string()), None));
}

#[test]
fn integer_addition_stays_integer() {
    match Number::Integer(2).add(Number::Integer(3)) {
        Ok(Number::Integer(5)) => {}
        other => panic!("{:?}", other),
    }
}

#[test]
fn integer_addition_overflow_is_reported() {
    assert!(matches!(
        Number::Integer(i128::MAX).add(Number::Integer(1)),
        Err(RuntimeError::IntegerOverflow)
    ));
    assert!(matches!(
        Number::Integer(i128::MIN).add(Number::Integer(-1)),
        Err(RuntimeError::IntegerOverflow)
    ));
}

#[test]
fn float_operand_is_reported() {
    let three_and_a_half = Number::Float(3.5f64.to_bits());
    assert!(matches!(
        Number::Integer(2).add(three_and_a_half),
        Err(RuntimeError::FloatArithmetic)
    ));
}

#[test]
fn closure_sees_its_defining_scope() {
    let root = Rc::new(standard_environment());
    let defining = Rc::new(Environment::extend(&root, vec![bind("y", integer(10))]));
    let get_y = closure(&defining, &[], false, var("y"));
    let sibling = Environment::extend(&root, vec![bind("y", integer(20)), bind("g", get_y.clone())]);
    let inner = Environment::extend(&defining, vec![bind("y", integer(20)), bind("g", get_y)]);
    assert_eq!(as_int(sibling.evaluate(&app(var("g"), vec![]), DEPTH)), 10);
    assert_eq!(as_int(inner.evaluate(&app(var("g"), vec![]), DEPTH)), 10);
}

#[test]
fn applying_a_number_fails() {
    let env = standard_environment();
    match env.evaluate(&app(atom(integer(5)), vec![]), DEPTH) {
        Err(RuntimeError::CannotCallValue(ValueKind::Number)) => {}
        other => panic!("{:?}", other),
    }
    match env.evaluate(&app(atom(Value::Glyph('q')), vec![var("missing")]), DEPTH) {
        Err(RuntimeError::CannotCallValue(ValueKind::Glyph)) => {}
        other => panic!("{:?}", other),
    }
}

#[test]
fn add_program_evaluates_to_five() {
    let env = standard_environment();
    let r = env.evaluate(&app(var("add"), vec![atom(integer(2)), atom(integer(3))]), DEPTH);
    match r {
        Ok(Value::Number(Number::Integer(5))) => {}
        other => panic!("{:?}", other),
    }
}

#[test]
fn add_folds_from_zero() {
    assert_eq!(as_int(add(&list(vec![]))), 0);
    assert_eq!(as_int(add(&list(vec![integer(1), integer(2), integer(3), integer(-10)]))), -4);
    assert_eq!(as_int(Builtin::Add.invoke(&list(vec![integer(40), integer(2)]))), 42);
}

#[test]
fn add_rejects_non_numbers() {
    match add(&list(vec![integer(1), Value::Glyph('x'), integer(2)])) {
        Err(RuntimeError::TypeError(ValueKind::Glyph)) => {}
        other => panic!("{:?}", other),
    }
    let nested = Value::List(Rc::new(list(vec![integer(1)])));
    match add2(nested, &integer(1)) {
        Err(RuntimeError::TypeError(ValueKind::List)) => {}
        other => panic!("{:?}", other),
    }
    assert_eq!(as_int(add2(integer(6), &integer(7))), 13);
}

#[test]
fn first_failing_operand_is_reported() {
    let env = standard_environment();
    let call = app(var("add"), vec![var("first"), atom(Value::Glyph('x')), var("second")]);
    match env.evaluate(&call, DEPTH) {
        Err(RuntimeError::UndefinedVariable(name)) => assert_eq!(name, "first"),
        other => panic!("{:?}", other),
    }
    let call = app(var("add"), vec![atom(integer(1)), var("second"), var("third")]);
    match env.evaluate(&call, DEPTH) {
        Err(RuntimeError::UndefinedVariable(name)) => assert_eq!(name, "second"),
        other => panic!("{:?}", other),
    }
}

#[test]
fn self_application_runs_out_of_depth() {
    let root = Rc::new(Environment::root(vec![]));
    let omega = closure(&root, &["x"], false, app(var("x"), vec![var("x")]));
    let call = app(atom(omega.clone()), vec![atom(omega)]);
    assert!(matches!(root.evaluate(&call, DEPTH), Err(RuntimeError::StackOverflow)));
}

#[test]
fn zero_depth_refuses_closure_calls_but_not_builtins() {
    let root = Rc::new(standard_environment());
    let id = closure(&root, &["x"], false, var("x"));
    assert!(matches!(
        id.try_call(&list(vec![integer(1)]), 0),
        Err(RuntimeError::StackOverflow)
    ));
    assert_eq!(as_int(root.evaluate(&app(var("add"), vec![atom(integer(1))]), 0)), 1);
}

#[test]
fn check_arity_cases() {
    assert!(check_arity(2, 2, false).is_ok());
    assert!(check_arity(3, 2, true).is_ok());
    assert!(matches!(check_arity(3, 2, false), Err(RuntimeError::IncorrectNumberOfArgs(2, 3))));
    assert!(matches!(check_arity(1, 2, true), Err(RuntimeError::IncorrectNumberOfArgs(2, 1))));
}

#[test]
fn list_keeps_order() {
    let l = list(vec![integer(1), integer(2), integer(3)]);
    assert_eq!(l.len(), 3);
    let back: Vec<i128> = l.to_vec().into_iter().map(|v| as_int(Ok(v))).collect();
    assert_eq!(back, vec![1, 2, 3]);
    assert_eq!(list(vec![]).len(), 0);
    assert!(list(vec![]).to_vec().is_empty());
}

#[test]
fn builtin_is_named_add() {
    assert_eq!(Builtin::Add.name(), "add");
    let env = standard_environment();
    assert!(matches!(env.lookup(&"add".to_string()), Ok(Value::Builtin(Builtin::Add))));
    assert!(env.parent.is_none());
}

#[test]
fn value_kinds() {
    assert_eq!(integer(1).kind(), ValueKind::Number);
    assert_eq!(Value::Glyph('a').kind(), ValueKind::Glyph);
    assert_eq!(Value::Builtin(Builtin::Add).kind(), ValueKind::Builtin);
    assert!(Value::Builtin(Builtin::Add).is_callable());
    assert!(!Value::Glyph('a').is_callable());
}
