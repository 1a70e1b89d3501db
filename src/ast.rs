use vstd::prelude::*;
use crate::lookup::Keyed;
use crate::types::{Span, Symbol, Type, IntegerType};

verus! {

/// A name as written in the source.
#[derive(Clone, Copy, Debug, PartialEq, Eq, Structural, Hash)]
pub struct Identifier {
    pub name: Symbol,
    pub span: Span,
}

#[derive(Clone, Debug)]
pub enum LiteralExpression {
    Address(Span),
    Boolean(bool, Span),
    Field(Span),
    Group(Span),
    /// An integer with its declared type and its digits as written.
    Integer(IntegerType, String, Span),
    Scalar(Span),
    String(Span),
}

#[derive(Clone, Copy, Debug, PartialEq, Eq, Structural, Hash)]
pub enum BinaryOperation {
    Add,
    AddWrapped,
    And,
    BitwiseAnd,
    Div,
    DivWrapped,
    Eq,
    Gte,
    Gt,
    Lte,
    Lt,
    Mul,
    MulWrapped,
    Nand,
    Neq,
    Nor,
    Or,
    BitwiseOr,
    Pow,
    PowWrapped,
    Shl,
    ShlWrapped,
    Shr,
    ShrWrapped,
    Sub,
    SubWrapped,
    Xor,
}

#[derive(Clone, Copy, Debug, PartialEq, Eq, Structural, Hash)]
pub enum UnaryOperation {
    Abs,
    AbsWrapped,
    Double,
    Inverse,
    Negate,
    Not,
    Square,
    SquareRoot,
}

#[derive(Debug)]
pub struct BinaryExpression {
    pub left: Box<Expression>,
    pub right: Box<Expression>,
    pub op: BinaryOperation,
    pub span: Span,
}

#[derive(Debug)]
pub struct UnaryExpression {
    pub receiver: Box<Expression>,
    pub op: UnaryOperation,
    pub span: Span,
}

#[derive(Debug)]
pub struct TernaryExpression {
    pub condition: Box<Expression>,
    pub if_true: Box<Expression>,
    pub if_false: Box<Expression>,
    pub span: Span,
}

#[derive(Debug)]
pub struct CallExpression {
    pub function: Box<Expression>,
    pub arguments: Vec<Expression>,
    pub span: Span,
}

/// One `name: value` entry of a circuit initializer; `name` alone when the
/// value is a variable of the same name and is not checked here.
#[derive(Debug)]
pub struct CircuitVariableInitializer {
    pub identifier: Identifier,
    pub expression: Option<Expression>,
}

#[derive(Debug)]
pub struct CircuitInitExpression {
    pub name: Identifier,
    pub members: Vec<CircuitVariableInitializer>,
    pub span: Span,
}

/// `circuit_var.field`.
#[derive(Debug)]
pub struct MemberAccess {
    pub inner: Box<Expression>,
    pub name: Identifier,
    pub span: Span,
}

/// `tuple.1`.
#[derive(Debug)]
pub struct TupleAccess {
    pub tuple: Box<Expression>,
    pub index: usize,
    pub span: Span,
}

/// `Type::function(args)`, a call of a built-in associated function.
#[derive(Debug)]
pub struct AssociatedFunction {
    pub ty: Type,
    pub name: Identifier,
    pub args: Vec<Expression>,
    pub span: Span,
}

/// An access expression, extracting a smaller part out of a whole.
#[derive(Debug)]
pub enum AccessExpression {
    /// An expression accessing a field in a structure, e.g., `circuit_var.field`.
    Member(MemberAccess),
    /// Access to a tuple field using its position, e.g., `tuple.1`.
    Tuple(TupleAccess),
    /// A built-in associated function, e.g., `BHP256::hash(x)`.
    AssociatedFunction(AssociatedFunction),
}

/// A placeholder left by error recovery in an earlier pass.
#[derive(Clone, Copy, Debug, PartialEq, Eq, Structural, Hash)]
pub struct ErrExpression {
    pub span: Span,
}

#[derive(Debug)]
pub enum Expression {
    Access(AccessExpression),
    Identifier(Identifier),
    Literal(LiteralExpression),
    Binary(BinaryExpression),
    Call(CallExpression),
    CircuitInit(CircuitInitExpression),
    Error(ErrExpression),
    Ternary(TernaryExpression),
    Unary(UnaryExpression),
}

impl Keyed<Symbol> for CircuitVariableInitializer {
    open spec fn key(&self) -> Symbol {
        self.identifier.name
    }

    fn has_key(&self, k: &Symbol) -> (r: bool) {
        self.identifier.name == *k
    }
}

impl AccessExpression {
    pub open spec fn span_of(&self) -> Span {
        match self {
            AccessExpression::Member(a) => a.span,
            AccessExpression::Tuple(a) => a.span,
            AccessExpression::AssociatedFunction(a) => a.span,
        }
    }

    pub fn span(&self) -> (r: Span)
        ensures
            r == self.span_of(),
    {
        match self {
            AccessExpression::Member(a) => a.span,
            AccessExpression::Tuple(a) => a.span,
            AccessExpression::AssociatedFunction(a) => a.span,
        }
    }

    /// Replaces the span, leaving the rest of the access unchanged.
    pub fn set_span(&mut self, span: Span)
        ensures
            final(self).span_of() == span,
            match (*old(self), *final(self)) {
                (AccessExpression::Member(a), AccessExpression::Member(b)) =>
                    b == (MemberAccess { span, ..a }),
                (AccessExpression::Tuple(a), AccessExpression::Tuple(b)) =>
                    b == (TupleAccess { span, ..a }),
                (AccessExpression::AssociatedFunction(a), AccessExpression::AssociatedFunction(b)) =>
                    b == (AssociatedFunction { span, ..a }),
                _ => false,
            },
    {
        match self {
            AccessExpression::Member(a) => a.span = span,
            AccessExpression::Tuple(a) => a.span = span,
            AccessExpression::AssociatedFunction(a) => a.span = span,
        }
    }
}

impl LiteralExpression {
    pub open spec fn span_of(&self) -> Span {
        match self {
            LiteralExpression::Address(s) => *s,
            LiteralExpression::Boolean(_, s) => *s,
            LiteralExpression::Field(s) => *s,
            LiteralExpression::Group(s) => *s,
            LiteralExpression::Integer(_, _, s) => *s,
            LiteralExpression::Scalar(s) => *s,
            LiteralExpression::String(s) => *s,
        }
    }
}

impl Expression {
    /// The span of the whole expression.
    pub open spec fn span_of(&self) -> Span {
        match self {
            Expression::Access(a) => a.span_of(),
            Expression::Identifier(i) => i.span,
            Expression::Literal(l) => l.span_of(),
            Expression::Binary(b) => b.span,
            Expression::Call(c) => c.span,
            Expression::CircuitInit(c) => c.span,
            Expression::Error(e) => e.span,
            Expression::Ternary(t) => t.span,
            Expression::Unary(u) => u.span,
        }
    }

    pub fn span(&self) -> (r: Span)
        ensures
            r == self.span_of(),
    {
        match self {
            Expression::Access(a) => a.span(),
            Expression::Identifier(i) => i.span,
            Expression::Literal(l) => match l {
                LiteralExpression::Address(s) => *s,
                LiteralExpression::Boolean(_, s) => *s,
                LiteralExpression::Field(s) => *s,
                LiteralExpression::Group(s) => *s,
                LiteralExpression::Integer(_, _, s) => *s,
                LiteralExpression::Scalar(s) => *s,
                LiteralExpression::String(s) => *s,
            },
            Expression::Binary(b) => b.span,
            Expression::Call(c) => c.span,
            Expression::CircuitInit(c) => c.span,
            Expression::Error(e) => e.span,
            Expression::Ternary(t) => t.span,
            Expression::Unary(u) => u.span,
        }
    }
}

} // verus!
