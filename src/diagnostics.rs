use vstd::prelude::*;
use crate::types::{IntegerType, Span, Symbol, Type, TypeClass};

verus! {

/// What kind of name failed to resolve.
#[derive(Clone, Copy, Debug, PartialEq, Eq, Structural, Hash)]
pub enum SymbolKind {
    Variable,
    Function,
    CircuitOrRecord,
    CircuitMemberVariable,
}

/// A type error. The checker appends these to a sink and carries on.
#[derive(Clone, Debug, PartialEq, Eq)]
pub enum Diagnostic {
    UnknownSymbol { kind: SymbolKind, name: Symbol, span: Span },
    IncorrectNumArgs { expected: usize, actual: usize, span: Span },
    IncorrectNumCircuitMembers { expected: usize, actual: usize, span: Span },
    /// The digits `text`, with a leading `-` when `negated`, are not a value
    /// of type `ty`.
    InvalidIntValue { text: String, negated: bool, ty: IntegerType, span: Span },
    TypeShouldBe { actual: Type, expected: Type, span: Span },
    ExpectedOneTypeOf { class: TypeClass, actual: Type, span: Span },
    /// Argument `position` (1 or 2) of a built-in associated function has a
    /// type that the function does not accept there.
    InvalidCoreArgument { circuit: Symbol, function: Symbol, position: usize, actual: Type, span: Span },
    InvalidAccessExpression { span: Span },
    TypeIsNotNegatable { ty: Type, span: Span },
}

} // verus!
