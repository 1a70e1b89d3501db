//! The typing rules, as spec functions. Each takes the diagnostics emitted so
//! far and returns the synthesized type with the diagnostics after the check,
//! so the order in which diagnostics are appended is part of the statement.
use vstd::prelude::*;
use crate::ast::{
    AccessExpression, AssociatedFunction, BinaryExpression, BinaryOperation, CallExpression, CircuitInitExpression,
    CircuitVariableInitializer, Expression, Identifier, LiteralExpression, TernaryExpression, UnaryExpression,
    UnaryOperation,
};
use crate::diagnostics::{Diagnostic, SymbolKind};
use crate::literal::literal_in_range;
use crate::lookup::{first_with_key, lemma_first_with_key_bound};
use crate::symbols::{find_circuit, find_core, find_function, find_variable, CircuitMember, CoreInstruction, SymbolTable};
use crate::types::{in_class, is_negatable, is_signed, Span, Symbol, Type, TypeClass};

verus! {

/// Reconciles what was found with what was required: when both are known and
/// differ, a mismatch is reported and the requirement wins; otherwise the
/// known one is returned.
pub open spec fn reconcile(ds: Seq<Diagnostic>, actual: Option<Type>, expected: Option<Type>, span: Span) -> (
    Option<Type>,
    Seq<Diagnostic>,
) {
    match (actual, expected) {
        (Some(a), Some(e)) => if a != e {
            (Some(e), ds.push(Diagnostic::TypeShouldBe { actual: a, expected: e, span }))
        } else {
            (Some(a), ds)
        },
        (Some(a), None) => (Some(a), ds),
        (None, e) => (e, ds),
    }
}

/// Reports a known type outside the class `c`.
pub open spec fn constrain(ds: Seq<Diagnostic>, t: Option<Type>, c: TypeClass, span: Span) -> Seq<Diagnostic> {
    match t {
        Some(t) => if in_class(t, c) {
            ds
        } else {
            ds.push(Diagnostic::ExpectedOneTypeOf { class: c, actual: t, span })
        },
        None => ds,
    }
}

/// Picks the result of two subexpressions that should agree. On disagreement
/// the first is returned, unless it is the expected type; a failed side makes
/// the whole fail. Nothing is reported here.
pub open spec fn reconcile_pair(t1: Option<Type>, t2: Option<Type>, expected: Option<Type>) -> Option<Type> {
    match (t1, t2) {
        (Some(a), Some(b)) => if a == b {
            Some(a)
        } else if expected == Some(a) {
            Some(b)
        } else {
            Some(a)
        },
        _ => None,
    }
}

/// Reports two known types that differ.
pub open spec fn same_types(ds: Seq<Diagnostic>, t1: Option<Type>, t2: Option<Type>, span: Span) -> Seq<Diagnostic> {
    match (t1, t2) {
        (Some(a), Some(b)) => if a != b {
            ds.push(Diagnostic::TypeShouldBe { actual: a, expected: b, span })
        } else {
            ds
        },
        _ => ds,
    }
}

/// The filter: whether the checker descends into `e` at all. Placeholders
/// left by earlier error recovery are skipped.
pub open spec fn visits(e: Expression) -> bool {
    !(e is Error)
}

/// Type of `e` against the optional `expected` type. `negate` holds while the
/// operand of a negation is checked, so that the most negative value of a
/// signed type can be written.
pub open spec fn check(
    tab: SymbolTable,
    e: Expression,
    expected: Option<Type>,
    negate: bool,
    ds: Seq<Diagnostic>,
) -> (Option<Type>, Seq<Diagnostic>)
    decreases e, 0int,
{
    if !visits(e) {
        (None, ds)
    } else {
        match e {
            Expression::Access(a) => check_access(tab, a, expected, negate, ds),
            Expression::Identifier(i) => check_identifier(tab, i, expected, ds),
            Expression::Literal(l) => check_literal(l, expected, negate, ds),
            Expression::Binary(b) => check_binary(tab, b, expected, negate, ds),
            Expression::Call(c) => check_call(tab, c, expected, negate, ds),
            Expression::CircuitInit(c) => check_circuit_init(tab, c, expected, negate, ds),
            Expression::Error(_) => (None, ds),
            Expression::Ternary(t) => check_ternary(tab, t, expected, negate, ds),
            Expression::Unary(u) => check_unary(tab, u, expected, negate, ds),
        }
    }
}

/// A name resolves first to a circuit or record, then to a variable.
pub open spec fn check_identifier(tab: SymbolTable, i: Identifier, expected: Option<Type>, ds: Seq<Diagnostic>) -> (
    Option<Type>,
    Seq<Diagnostic>,
) {
    match find_circuit(tab.circuits@, i.name) {
        Some(k) => reconcile(
            ds,
            Some(Type::Identifier(tab.circuits@[k].identifier)),
            expected,
            tab.circuits@[k].span,
        ),
        None => match find_variable(tab.variables@, i.name) {
            Some(k) => reconcile(ds, Some(tab.variables@[k].type_), expected, tab.variables@[k].span),
            None => (
                None,
                ds.push(Diagnostic::UnknownSymbol { kind: SymbolKind::Variable, name: i.name, span: i.span }),
            ),
        },
    }
}

pub open spec fn literal_type(l: LiteralExpression) -> Type {
    match l {
        LiteralExpression::Address(_) => Type::Address,
        LiteralExpression::Boolean(_, _) => Type::Boolean,
        LiteralExpression::Field(_) => Type::Field,
        LiteralExpression::Group(_) => Type::Group,
        LiteralExpression::Integer(t, _, _) => Type::IntegerType(t),
        LiteralExpression::Scalar(_) => Type::Scalar,
        LiteralExpression::String(_) => Type::String,
    }
}

/// A literal has its intrinsic type; an integer literal must also denote a
/// value of its type, which does not change the type returned.
pub open spec fn check_literal(l: LiteralExpression, expected: Option<Type>, negate: bool, ds: Seq<Diagnostic>) -> (
    Option<Type>,
    Seq<Diagnostic>,
) {
    let ds1 = match l {
        LiteralExpression::Integer(t, text, span) => if literal_in_range(t, text@, negate) {
            ds
        } else {
            ds.push(Diagnostic::InvalidIntValue { text, negated: negate && is_signed(t), ty: t, span })
        },
        _ => ds,
    };
    reconcile(ds1, Some(literal_type(l)), expected, l.span_of())
}

/// The core instruction that an associated function names, if any.
pub open spec fn core_of(tab: SymbolTable, f: AssociatedFunction) -> Option<int> {
    match f.ty {
        Type::Identifier(c) => find_core(tab.core_instructions@, c, f.name.name),
        _ => None,
    }
}

/// Reports argument `position` of a core instruction whose type is not
/// among `allowed`.
pub open spec fn core_argument(
    ds: Seq<Diagnostic>,
    ins: CoreInstruction,
    t: Option<Type>,
    allowed: Seq<Type>,
    position: usize,
    span: Span,
) -> Seq<Diagnostic> {
    match t {
        Some(t) => if allowed.contains(t) {
            ds
        } else {
            ds.push(
                Diagnostic::InvalidCoreArgument {
                    circuit: ins.circuit,
                    function: ins.function,
                    position,
                    actual: t,
                    span,
                },
            )
        },
        None => ds,
    }
}

/// Only calls of built-in associated functions are checked; member and tuple
/// accesses are not supported yet and yield no type, without a diagnostic.
pub open spec fn check_access(
    tab: SymbolTable,
    a: AccessExpression,
    expected: Option<Type>,
    negate: bool,
    ds: Seq<Diagnostic>,
) -> (Option<Type>, Seq<Diagnostic>)
    decreases a, 0int,
{
    match a {
        AccessExpression::AssociatedFunction(f) => match core_of(tab, f) {
            Some(k) => {
                let ins = tab.core_instructions@[k];
                let ds1 = if ins.num_args != f.args.len() {
                    ds.push(Diagnostic::IncorrectNumArgs { expected: ins.num_args, actual: f.args.len(), span: f.span })
                } else {
                    ds
                };
                let ds2 = if f.args.len() > 0 {
                    let (t, d) = check(tab, f.args@[0], None, negate, ds1);
                    core_argument(d, ins, t, ins.first_arg_types@, 1, f.span)
                } else {
                    ds1
                };
                let ds3 = if f.args.len() > 1 {
                    let (t, d) = check(tab, f.args@[1], None, negate, ds2);
                    core_argument(d, ins, t, ins.second_arg_types@, 2, f.span)
                } else {
                    ds2
                };
                reconcile(ds3, Some(ins.return_type), expected, f.span)
            },
            None => (None, ds.push(Diagnostic::InvalidAccessExpression { span: f.span })),
        },
        _ => (None, ds),
    }
}

/// Both operands checked against the destination, in order, and their
/// results reconciled; two known types that still differ draw one mismatch.
pub open spec fn check_operands(
    tab: SymbolTable,
    b: BinaryExpression,
    dest: Option<Type>,
    negate: bool,
    ds: Seq<Diagnostic>,
) -> (Option<Type>, Seq<Diagnostic>)
    decreases b, 0int,
{
    let (t1, ds1) = check(tab, *b.left, dest, negate, ds);
    let (t2, ds2) = check(tab, *b.right, dest, negate, ds1);
    (reconcile_pair(t1, t2, dest), same_types(ds2, t2, t1, b.span))
}

/// `*`: a group times a scalar, in either order, is a group. Otherwise two
/// operands of one type give that type, reconciled with the destination;
/// operands of different types draw one mismatch for the pair.
pub open spec fn check_mul(tab: SymbolTable, b: BinaryExpression, dest: Option<Type>, negate: bool, ds: Seq<Diagnostic>) -> (
    Option<Type>,
    Seq<Diagnostic>,
)
    decreases b, 0int,
{
    let ds1 = constrain(ds, dest, TypeClass::FieldGroupOrInteger, b.span);
    let (t1, ds2) = check(tab, *b.left, None, negate, ds1);
    let (t2, ds3) = check(tab, *b.right, None, negate, ds2);
    if t1 == Some(Type::Group) {
        let ds4 = reconcile(ds3, t2, Some(Type::Scalar), b.right.span_of()).1;
        reconcile(ds4, dest, Some(Type::Group), b.span)
    } else if t2 == Some(Type::Group) {
        let ds4 = reconcile(ds3, t1, Some(Type::Scalar), b.left.span_of()).1;
        reconcile(ds4, dest, Some(Type::Group), b.span)
    } else {
        let ds4 = constrain(ds3, dest, TypeClass::FieldOrInteger, b.span);
        if t1 is Some && t1 == t2 {
            reconcile(ds4, t1, dest, b.span)
        } else {
            (reconcile_pair(t1, t2, dest), same_types(ds4, t2, t1, b.span))
        }
    }
}

/// `**`: a field to a field is a field; otherwise the exponent must be a
/// magnitude and the base has the destination's type.
pub open spec fn check_pow(tab: SymbolTable, b: BinaryExpression, dest: Option<Type>, negate: bool, ds: Seq<Diagnostic>) -> (
    Option<Type>,
    Seq<Diagnostic>,
)
    decreases b, 0int,
{
    let ds1 = constrain(ds, dest, TypeClass::FieldOrInteger, b.span);
    let (t1, ds2) = check(tab, *b.left, None, negate, ds1);
    let (t2, ds3) = check(tab, *b.right, None, negate, ds2);
    if t1 == Some(Type::Field) {
        let ds4 = reconcile(ds3, t2, Some(Type::Field), b.right.span_of()).1;
        reconcile(ds4, dest, Some(Type::Field), b.span)
    } else if t2 == Some(Type::Field) {
        let ds4 = reconcile(ds3, t1, Some(Type::Field), b.left.span_of()).1;
        reconcile(ds4, dest, Some(Type::Field), b.span)
    } else {
        let ds4 = constrain(ds3, t2, TypeClass::Magnitude, b.right.span_of());
        match t1 {
            Some(t) => reconcile(ds4, dest, Some(t), b.span),
            None => (dest, ds4),
        }
    }
}

/// `==` and `!=`: integers compare with any integer; other operands must
/// have one type. The result is a boolean.
pub open spec fn check_equality(
    tab: SymbolTable,
    b: BinaryExpression,
    dest: Option<Type>,
    negate: bool,
    ds: Seq<Diagnostic>,
) -> (Option<Type>, Seq<Diagnostic>)
    decreases b, 0int,
{
    let (t1, ds1) = check(tab, *b.left, None, negate, ds);
    let (t2, ds2) = check(tab, *b.right, None, negate, ds1);
    let ds3 = if t1 matches Some(Type::IntegerType(_)) {
        constrain(ds2, t2, TypeClass::Integer, b.left.span_of())
    } else if t2 matches Some(Type::IntegerType(_)) {
        constrain(ds2, t1, TypeClass::Integer, b.right.span_of())
    } else {
        same_types(ds2, t1, t2, b.span)
    };
    reconcile(ds3, dest, Some(Type::Boolean), b.span)
}

/// Orderings: the first operand found to be an address, field, scalar or
/// integer decides what the other must be. The result is a boolean.
pub open spec fn check_ordering(
    tab: SymbolTable,
    b: BinaryExpression,
    dest: Option<Type>,
    negate: bool,
    ds: Seq<Diagnostic>,
) -> (Option<Type>, Seq<Diagnostic>)
    decreases b, 0int,
{
    let (t1, ds1) = check(tab, *b.left, None, negate, ds);
    let (t2, ds2) = check(tab, *b.right, None, negate, ds1);
    let ls = b.left.span_of();
    let rs = b.right.span_of();
    let ds3 = if t1 == Some(Type::Address) {
        reconcile(ds2, t2, Some(Type::Address), ls).1
    } else if t2 == Some(Type::Address) {
        reconcile(ds2, t1, Some(Type::Address), rs).1
    } else if t1 == Some(Type::Field) {
        reconcile(ds2, t2, Some(Type::Field), ls).1
    } else if t2 == Some(Type::Field) {
        reconcile(ds2, t1, Some(Type::Field), rs).1
    } else if t1 == Some(Type::Scalar) {
        reconcile(ds2, t2, Some(Type::Scalar), ls).1
    } else if t2 == Some(Type::Scalar) {
        reconcile(ds2, t1, Some(Type::Scalar), rs).1
    } else if t1 matches Some(Type::IntegerType(_)) {
        constrain(ds2, t2, TypeClass::Integer, ls)
    } else if t2 matches Some(Type::IntegerType(_)) {
        constrain(ds2, t1, TypeClass::Integer, rs)
    } else {
        ds2
    };
    reconcile(ds3, dest, Some(Type::Boolean), b.span)
}

/// Shifts and wrapped powers: the left operand has the destination's integer
/// type, the right one is a magnitude; the result is the destination's type.
pub open spec fn check_shift(tab: SymbolTable, b: BinaryExpression, dest: Option<Type>, negate: bool, ds: Seq<Diagnostic>) -> (
    Option<Type>,
    Seq<Diagnostic>,
)
    decreases b, 0int,
{
    let ds1 = constrain(ds, dest, TypeClass::Integer, b.span);
    let (t1, ds2) = check(tab, *b.left, dest, negate, ds1);
    let (t2, ds3) = check(tab, *b.right, None, negate, ds2);
    let ds4 = constrain(ds3, t2, TypeClass::Magnitude, b.right.span_of());
    (if dest is Some { dest } else { t1 }, ds4)
}

pub open spec fn check_binary(tab: SymbolTable, b: BinaryExpression, dest: Option<Type>, negate: bool, ds: Seq<Diagnostic>) -> (
    Option<Type>,
    Seq<Diagnostic>,
)
    decreases b, 1int,
{
    match b.op {
        BinaryOperation::And | BinaryOperation::Or | BinaryOperation::Nand | BinaryOperation::Nor => {
            let ds1 = reconcile(ds, Some(Type::Boolean), dest, b.span).1;
            check_operands(tab, b, dest, negate, ds1)
        },
        BinaryOperation::BitwiseAnd | BinaryOperation::BitwiseOr | BinaryOperation::Xor => check_operands(
            tab,
            b,
            dest,
            negate,
            constrain(ds, dest, TypeClass::BooleanOrInteger, b.span),
        ),
        BinaryOperation::Add => check_operands(
            tab,
            b,
            dest,
            negate,
            constrain(ds, dest, TypeClass::FieldGroupScalarOrInteger, b.span),
        ),
        BinaryOperation::Sub => check_operands(
            tab,
            b,
            dest,
            negate,
            constrain(ds, dest, TypeClass::FieldGroupOrInteger, b.span),
        ),
        BinaryOperation::Mul => check_mul(tab, b, dest, negate, ds),
        BinaryOperation::Div => check_operands(
            tab,
            b,
            dest,
            negate,
            constrain(ds, dest, TypeClass::FieldOrInteger, b.span),
        ),
        BinaryOperation::Pow => check_pow(tab, b, dest, negate, ds),
        BinaryOperation::Eq | BinaryOperation::Neq => check_equality(tab, b, dest, negate, ds),
        BinaryOperation::Lt | BinaryOperation::Gt | BinaryOperation::Lte | BinaryOperation::Gte => check_ordering(
            tab,
            b,
            dest,
            negate,
            ds,
        ),
        BinaryOperation::AddWrapped | BinaryOperation::SubWrapped | BinaryOperation::DivWrapped
        | BinaryOperation::MulWrapped => check_operands(
            tab,
            b,
            dest,
            negate,
            constrain(ds, dest, TypeClass::Integer, b.span),
        ),
        BinaryOperation::Shl | BinaryOperation::ShlWrapped | BinaryOperation::Shr | BinaryOperation::ShrWrapped
        | BinaryOperation::PowWrapped => check_shift(tab, b, dest, negate, ds),
    }
}

pub open spec fn check_unary(tab: SymbolTable, u: UnaryExpression, dest: Option<Type>, negate: bool, ds: Seq<Diagnostic>) -> (
    Option<Type>,
    Seq<Diagnostic>,
)
    decreases u, 0int,
{
    match u.op {
        UnaryOperation::Abs | UnaryOperation::AbsWrapped => check(
            tab,
            *u.receiver,
            dest,
            negate,
            constrain(ds, dest, TypeClass::SignedInteger, u.span),
        ),
        UnaryOperation::Double => check(
            tab,
            *u.receiver,
            dest,
            negate,
            constrain(ds, dest, TypeClass::FieldOrGroup, u.span),
        ),
        UnaryOperation::Inverse | UnaryOperation::Square => check(
            tab,
            *u.receiver,
            Some(Type::Field),
            negate,
            reconcile(ds, dest, Some(Type::Field), u.span).1,
        ),
        UnaryOperation::SquareRoot => check(
            tab,
            *u.receiver,
            dest,
            negate,
            constrain(ds, dest, TypeClass::FieldOrScalar, u.span),
        ),
        UnaryOperation::Not => check(
            tab,
            *u.receiver,
            dest,
            negate,
            constrain(ds, dest, TypeClass::BooleanOrInteger, u.span),
        ),
        UnaryOperation::Negate => {
            let (t, ds1) = check(tab, *u.receiver, dest, true, ds);
            match t {
                Some(t) => if is_negatable(t) {
                    (Some(t), ds1)
                } else {
                    (Some(t), ds1.push(Diagnostic::TypeIsNotNegatable { ty: t, span: u.receiver.span_of() }))
                },
                None => (None, ds1),
            }
        },
    }
}

/// The condition must be a boolean whatever is expected of the whole; both
/// branches are checked against the expected type, and two known branch
/// types that still differ draw one mismatch at the second branch.
pub open spec fn check_ternary(
    tab: SymbolTable,
    t: TernaryExpression,
    expected: Option<Type>,
    negate: bool,
    ds: Seq<Diagnostic>,
) -> (Option<Type>, Seq<Diagnostic>)
    decreases t, 0int,
{
    let ds1 = check(tab, *t.condition, Some(Type::Boolean), negate, ds).1;
    let (t1, ds2) = check(tab, *t.if_true, expected, negate, ds1);
    let (t2, ds3) = check(tab, *t.if_false, expected, negate, ds2);
    (reconcile_pair(t1, t2, expected), same_types(ds3, t2, t1, t.if_false.span_of()))
}

/// Arguments from position `i` on, each against the parameter type at its
/// position, as far as both lists go.
pub open spec fn check_arguments(
    tab: SymbolTable,
    args: Seq<Expression>,
    params: Seq<Type>,
    i: int,
    negate: bool,
    ds: Seq<Diagnostic>,
) -> Seq<Diagnostic>
    decreases args, args.len() - i,
{
    if 0 <= i < args.len() && i < params.len() {
        let ds1 = check(tab, args[i], Some(params[i]), negate, ds).1;
        check_arguments(tab, args, params, i + 1, negate, ds1)
    } else {
        ds
    }
}

/// A call through a name resolves a function signature; any other callee is
/// checked in place of the call.
pub open spec fn check_call(tab: SymbolTable, c: CallExpression, expected: Option<Type>, negate: bool, ds: Seq<Diagnostic>) -> (
    Option<Type>,
    Seq<Diagnostic>,
)
    decreases c, 0int,
{
    match *c.function {
        Expression::Identifier(id) => match find_function(tab.functions@, id.name) {
            Some(k) => {
                let f = tab.functions@[k];
                let (ret, ds1) = reconcile(ds, Some(f.output), expected, f.span);
                let ds2 = if f.input.len() != c.arguments.len() {
                    ds1.push(
                        Diagnostic::IncorrectNumArgs {
                            expected: f.input.len(),
                            actual: c.arguments.len(),
                            span: c.span,
                        },
                    )
                } else {
                    ds1
                };
                (ret, check_arguments(tab, c.arguments@, f.input@, 0, negate, ds2))
            },
            None => (
                None,
                ds.push(Diagnostic::UnknownSymbol { kind: SymbolKind::Function, name: id.name, span: id.span }),
            ),
        },
        _ => check(tab, *c.function, expected, negate, ds),
    }
}

/// Index of the first initializer named `name`.
pub open spec fn find_initializer(inits: Seq<CircuitVariableInitializer>, name: Symbol) -> Option<int> {
    first_with_key(inits, name)
}

/// Declared members from position `i` on, in declaration order: the value
/// given for each is checked against the member's type, and a member given
/// no value is reported.
pub open spec fn check_members(
    tab: SymbolTable,
    decl: Seq<CircuitMember>,
    inits: Seq<CircuitVariableInitializer>,
    i: int,
    negate: bool,
    ds: Seq<Diagnostic>,
) -> Seq<Diagnostic>
    decreases inits, decl.len() - i,
{
    if 0 <= i < decl.len() {
        let m = decl[i];
        proof {
            lemma_first_with_key_bound(inits, m.name);
        }
        let ds1 = match find_initializer(inits, m.name) {
            Some(k) => match inits[k].expression {
                Some(v) => check(tab, v, Some(m.type_), negate, ds).1,
                None => ds,
            },
            None => ds.push(
                Diagnostic::UnknownSymbol { kind: SymbolKind::CircuitMemberVariable, name: m.name, span: m.span },
            ),
        };
        check_members(tab, decl, inits, i + 1, negate, ds1)
    } else {
        ds
    }
}

/// A circuit or record initializer: the nominal type is reconciled with the
/// expected one, a count of members other than the declared one is reported,
/// then each declared member is checked. An initializer whose name matches no
/// declared member is not reported on its own: the count covers it.
pub open spec fn check_circuit_init(
    tab: SymbolTable,
    c: CircuitInitExpression,
    expected: Option<Type>,
    negate: bool,
    ds: Seq<Diagnostic>,
) -> (Option<Type>, Seq<Diagnostic>)
    decreases c, 0int,
{
    match find_circuit(tab.circuits@, c.name.name) {
        Some(k) => {
            let circ = tab.circuits@[k];
            let (ret, ds1) = reconcile(ds, Some(Type::Identifier(circ.identifier)), expected, c.name.span);
            let ds2 = if circ.members.len() != c.members.len() {
                ds1.push(
                    Diagnostic::IncorrectNumCircuitMembers {
                        expected: circ.members.len(),
                        actual: c.members.len(),
                        span: c.span,
                    },
                )
            } else {
                ds1
            };
            (ret, check_members(tab, circ.members@, c.members@, 0, negate, ds2))
        },
        None => (
            None,
            ds.push(
                Diagnostic::UnknownSymbol { kind: SymbolKind::CircuitOrRecord, name: c.name.name, span: c.name.span },
            ),
        ),
    }
}

} // verus!
