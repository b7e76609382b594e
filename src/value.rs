use vstd::prelude::*;
use std::rc::Rc;
use crate::environment::Environment;
use crate::error::ValueKind;
use crate::eval::Expression;
use crate::number::Number;

verus! {

/// The native procedures of the language.
#[derive(Clone, Copy, Debug, PartialEq, Eq, Structural)]
pub enum Builtin {
    /// Folds number addition over its arguments, from zero, left to right.
    Add,
}

/// A user-defined function: the scope it was defined in, its body, its
/// parameter names, and whether it accepts more arguments than it names.
#[derive(Debug)]
pub struct Closure {
    pub env: Rc<Environment>,
    pub body: Rc<Expression>,
    pub params: Vec<String>,
    pub variadic: bool,
}

/// A persistent list of values; copies share their structure. It holds an
/// `rpds::List`, which Verus cannot declare with `Value` as its item type, so
/// the list is seen only through `list_items`.
#[verifier::external_body]
#[derive(Debug)]
pub struct ValueList {
    items: rpds::List<Value>,
}

/// A runtime value. Composite values sit behind shared pointers, so a copy is
/// cheap and equal to its source.
#[derive(Debug)]
pub enum Value {
    Number(Number),
    Glyph(char),
    List(Rc<ValueList>),
    Closure(Rc<Closure>),
    Builtin(Builtin),
}

impl Value {
    /// The kind of this value.
    pub open spec fn kind_spec(self) -> ValueKind {
        match self {
            Value::Number(_) => ValueKind::Number,
            Value::Glyph(_) => ValueKind::Glyph,
            Value::List(_) => ValueKind::List,
            Value::Closure(_) => ValueKind::Closure,
            Value::Builtin(_) => ValueKind::Builtin,
        }
    }

    /// Whether the value can be applied to arguments.
    pub open spec fn is_callable_spec(self) -> bool {
        self is Closure || self is Builtin
    }

    /// The kind of this value.
    pub fn kind(&self) -> (r: ValueKind)
        ensures
            r == self.kind_spec(),
    {
        match self {
            Value::Number(_) => ValueKind::Number,
            Value::Glyph(_) => ValueKind::Glyph,
            Value::List(_) => ValueKind::List,
            Value::Closure(_) => ValueKind::Closure,
            Value::Builtin(_) => ValueKind::Builtin,
        }
    }

    /// Whether the value can be applied to arguments.
    pub fn is_callable(&self) -> (r: bool)
        ensures
            r == self.is_callable_spec(),
    {
        match self {
            Value::Closure(_) | Value::Builtin(_) => true,
            _ => false,
        }
    }
}

impl Clone for Value {
    fn clone(&self) -> (r: Value)
        ensures
            r == *self,
    {
        match self {
            Value::Number(n) => Value::Number(*n),
            Value::Glyph(c) => Value::Glyph(*c),
            Value::List(l) => Value::List(Rc::clone(l)),
            Value::Closure(c) => Value::Closure(Rc::clone(c)),
            Value::Builtin(b) => Value::Builtin(*b),
        }
    }
}

/// The values that a list holds, first to last.
pub uninterp spec fn list_items(l: ValueList) -> Seq<Value>;

impl ValueList {
    /// Relies on rpds::List::new: a new list is empty.
    #[verifier::external_body]
    pub(crate) fn empty() -> (r: ValueList)
        ensures
            list_items(r) == Seq::<Value>::empty(),
    {
        ValueList { items: rpds::List::new() }
    }

    /// Relies on rpds::List::push_front: a new list with `v` before the items of `self`.
    #[verifier::external_body]
    pub(crate) fn cons(&self, v: Value) -> (r: ValueList)
        ensures
            list_items(r) == seq![v] + list_items(*self),
    {
        ValueList { items: self.items.push_front(v) }
    }

    /// Relies on rpds::List::first: the first item, if any.
    #[verifier::external_body]
    pub(crate) fn head(&self) -> (r: Option<&Value>)
        ensures
            list_items(*self).len() == 0 ==> r is None,
            list_items(*self).len() > 0 ==> r == Some(&list_items(*self)[0]),
    {
        self.items.first()
    }

    /// Relies on rpds::List::drop_first: the list without its first item, if it has one.
    #[verifier::external_body]
    pub(crate) fn tail(&self) -> (r: Option<ValueList>)
        ensures
            list_items(*self).len() == 0 ==> r is None,
            r is Some ==> list_items(r.unwrap()) == list_items(*self).drop_first(),
            list_items(*self).len() > 0 ==> r is Some,
    {
        match self.items.drop_first() {
            Some(items) => Some(ValueList { items }),
            None => None,
        }
    }

    /// Relies on rpds::List::clone: a list that shares the items of `self`.
    #[verifier::external_body]
    pub(crate) fn duplicate(&self) -> (r: ValueList)
        ensures
            list_items(r) == list_items(*self),
    {
        ValueList { items: self.items.clone() }
    }

    /// Relies on rpds::List::len: the number of items.
    #[verifier::external_body]
    pub(crate) fn count(&self) -> (r: usize)
        ensures
            r == list_items(*self).len(),
    {
        self.items.len()
    }

    /// The list of the given values, in order.
    pub fn from_vec(values: Vec<Value>) -> (r: ValueList)
        ensures
            list_items(r) == values@,
    {
        let mut values = values;
        let ghost all = values@;
        let mut list = ValueList::empty();
        while values.len() > 0
            invariant
                all == values@ + list_items(list),
            decreases values.len(),
        {
            let ghost before = values@;
            let v = values.pop().unwrap();
            list = list.cons(v);
            assert(before == values@.push(v));
            assert(all =~= values@ + list_items(list));
        }
        assert(values@ + list_items(list) =~= list_items(list));
        list
    }

    /// The values of the list, in order.
    pub fn to_vec(&self) -> (r: Vec<Value>)
        ensures
            r@ == list_items(*self),
    {
        let ghost all = list_items(*self);
        let mut out: Vec<Value> = Vec::new();
        let mut rest = self.duplicate();
        while rest.count() > 0
            invariant
                all == out@ + list_items(rest),
            decreases list_items(rest).len(),
        {
            let v = rest.head().unwrap().clone();
            out.push(v);
            rest = rest.tail().unwrap();
            assert(all =~= out@ + list_items(rest));
        }
        assert(all =~= out@);
        out
    }

    /// The number of values in the list.
    pub fn len(&self) -> (r: usize)
        ensures
            r == list_items(*self).len(),
    {
        self.count()
    }
}

} // verus!
