use vstd::prelude::*;

verus! {

/// The kind of a runtime value, used to describe what went wrong.
#[derive(Clone, Copy, Debug, PartialEq, Eq, Structural)]
pub enum ValueKind {
    Number,
    Glyph,
    List,
    Closure,
    Builtin,
}

/// Everything that can stop an evaluation.
#[derive(Debug)]
pub enum RuntimeError {
    /// A name that no frame of the scope chain binds.
    UndefinedVariable(String),
    /// Expected count, then actual count.
    IncorrectNumberOfArgs(usize, usize),
    /// A value of this kind was applied to arguments.
    CannotCallValue(ValueKind),
    /// An operand of this kind where a number was needed.
    TypeError(ValueKind),
    /// An integer sum left the range of `i128`.
    IntegerOverflow,
    /// Arithmetic on a floating-point operand, which this core does not perform.
    FloatArithmetic,
    /// The budget of nested closure calls ran out.
    StackOverflow,
}

} // verus!
