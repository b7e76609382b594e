use vstd::prelude::*;
use std::rc::Rc;
use crate::error::RuntimeError;
use crate::value::Value;

verus! {

/// What a single frame binds `name` to: its last binding of that name wins.
pub open spec fn frame_get(frame: Seq<(String, Value)>, name: Seq<char>) -> Option<Value>
    decreases frame.len(),
{
    if frame.len() == 0 {
        None
    } else if frame.last().0@ == name {
        Some(frame.last().1)
    } else {
        frame_get(frame.drop_last(), name)
    }
}

/// What a frame, and after it the scope chain that `parent` starts, binds
/// `name` to.
pub open spec fn scope_get(
    frame: Seq<(String, Value)>,
    parent: Option<Rc<Environment>>,
    name: Seq<char>,
) -> Option<Value>
    decreases parent,
{
    match frame_get(frame, name) {
        Some(v) => Some(v),
        None => match parent {
            Some(p) => p.lookup_spec(name),
            None => None,
        },
    }
}

/// What a lookup of `name` gives in the scope that `frame` and `parent` make.
pub open spec fn scope_lookup(
    frame: Seq<(String, Value)>,
    parent: Option<Rc<Environment>>,
    name: String,
) -> Result<Value, RuntimeError> {
    match scope_get(frame, parent, name@) {
        Some(v) => Ok(v),
        None => Err(RuntimeError::UndefinedVariable(name)),
    }
}

/// One frame of bindings and the scope it sits in. Frames are written once;
/// children share their parent.
#[derive(Debug)]
pub struct Environment {
    pub bindings: Vec<(String, Value)>,
    pub parent: Option<Rc<Environment>>,
}

impl Environment {
    /// What the scope chain starting at this frame binds `name` to.
    pub open spec fn lookup_spec(self, name: Seq<char>) -> Option<Value>
        decreases self,
    {
        scope_get(self.bindings@, self.parent, name)
    }

    /// A root frame, with no parent, holding `bindings`.
    pub fn root(bindings: Vec<(String, Value)>) -> (r: Environment)
        ensures
            r.bindings@ == bindings@,
            r.parent is None,
    {
        Environment { bindings, parent: None }
    }

    /// A child frame of `parent` holding exactly `bindings`.
    pub fn extend(parent: &Rc<Environment>, bindings: Vec<(String, Value)>) -> (r: Environment)
        ensures
            r.bindings@ == bindings@,
            r.parent == Some(*parent),
    {
        Environment { bindings, parent: Some(Rc::clone(parent)) }
    }

    /// What this frame alone binds `name` to.
    pub fn get_local(&self, name: &String) -> (r: Option<Value>)
        ensures
            r == frame_get(self.bindings@, name@),
    {
        let mut i: usize = self.bindings.len();
        assert(self.bindings@.subrange(0, i as int) =~= self.bindings@);
        while i > 0
            invariant
                i <= self.bindings@.len(),
                frame_get(self.bindings@.subrange(0, i as int), name@) == frame_get(
                    self.bindings@,
                    name@,
                ),
            decreases i,
        {
            let ghost prefix = self.bindings@.subrange(0, i as int);
            assert(prefix.last() == self.bindings@[i - 1]);
            if self.bindings[i - 1].0 == *name {
                return Some(self.bindings[i - 1].1.clone());
            }
            assert(prefix.drop_last() =~= self.bindings@.subrange(0, i - 1));
            i = i - 1;
        }
        None
    }

    /// The value of `name` in the nearest frame that binds it, or
    /// `UndefinedVariable` when no frame of the chain does.
    pub fn lookup(&self, name: &String) -> (r: Result<Value, RuntimeError>)
        ensures
            r == scope_lookup(self.bindings@, self.parent, *name),
        decreases self,
    {
        match self.get_local(name) {
            Some(v) => Ok(v),
            None => match &self.parent {
                Some(p) => p.lookup(name),
                None => Err(RuntimeError::UndefinedVariable(name.clone())),
            },
        }
    }
}

} // verus!
