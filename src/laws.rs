//! Properties of the checker that relate several rules, proved from the
//! rules in `semantics`.
use vstd::prelude::*;
use crate::ast::{
    BinaryExpression, BinaryOperation, CallExpression, Expression, LiteralExpression, TernaryExpression,
};
use crate::diagnostics::Diagnostic;
use crate::literal::literal_in_range;
use crate::semantics::{check, check_arguments, check_mul, check_operands, constrain, reconcile, reconcile_pair};
use crate::symbols::{find_function, SymbolTable};
use crate::types::{IntegerType, Span, Type, TypeClass};

verus! {

/// Operators whose two operands are both checked against the destination.
pub open spec fn is_uniform(op: BinaryOperation) -> bool {
    matches!(op,
        BinaryOperation::And | BinaryOperation::Or | BinaryOperation::Nand | BinaryOperation::Nor
        | BinaryOperation::BitwiseAnd | BinaryOperation::BitwiseOr | BinaryOperation::Xor
        | BinaryOperation::Add | BinaryOperation::Sub | BinaryOperation::Div
        | BinaryOperation::AddWrapped | BinaryOperation::SubWrapped | BinaryOperation::DivWrapped
        | BinaryOperation::MulWrapped)
}

/// What such an operator reports of the destination before its operands.
pub open spec fn destination_check(ds: Seq<Diagnostic>, op: BinaryOperation, dest: Option<Type>, span: Span) -> Seq<
    Diagnostic,
> {
    match op {
        BinaryOperation::And | BinaryOperation::Or | BinaryOperation::Nand | BinaryOperation::Nor => reconcile(
            ds,
            Some(Type::Boolean),
            dest,
            span,
        ).1,
        BinaryOperation::BitwiseAnd | BinaryOperation::BitwiseOr | BinaryOperation::Xor => constrain(
            ds,
            dest,
            TypeClass::BooleanOrInteger,
            span,
        ),
        BinaryOperation::Add => constrain(ds, dest, TypeClass::FieldGroupScalarOrInteger, span),
        BinaryOperation::Sub => constrain(ds, dest, TypeClass::FieldGroupOrInteger, span),
        BinaryOperation::Div => constrain(ds, dest, TypeClass::FieldOrInteger, span),
        _ => constrain(ds, dest, TypeClass::Integer, span),
    }
}

/// An integer literal draws an invalid-value diagnostic exactly when its
/// text, with a `-` in front under a negation of a signed type, is not a value
/// of its declared type; either way its declared type is what is reconciled
/// with the expected one.
pub proof fn integer_literal_diagnosed_iff_out_of_range(
    tab: SymbolTable,
    t: IntegerType,
    text: String,
    span: Span,
    expected: Option<Type>,
    negate: bool,
    ds: Seq<Diagnostic>,
)
    ensures
        ({
            let (r, ds2) = check(tab, Expression::Literal(LiteralExpression::Integer(t, text, span)), expected, negate, ds);
            let invalid = Diagnostic::InvalidIntValue { text, negated: negate && crate::types::is_signed(t), ty: t, span };
            let ds1 = if literal_in_range(t, text@, negate) { ds } else { ds.push(invalid) };
            (r, ds2) == reconcile(ds1, Some(Type::IntegerType(t)), expected, span)
                && r is Some
                && (literal_in_range(t, text@, negate) <==> !ds2.subrange(ds.len() as int, ds2.len() as int).contains(invalid))
        }),
{
    let (r, ds2) = check(tab, Expression::Literal(LiteralExpression::Integer(t, text, span)), expected, negate, ds);
    let invalid = Diagnostic::InvalidIntValue { text, negated: negate && crate::types::is_signed(t), ty: t, span };
    let new = ds2.subrange(ds.len() as int, ds2.len() as int);
    if literal_in_range(t, text@, negate) {
        assert forall|i: int| 0 <= i < new.len() implies new[i] != invalid by {
            assert(new[i] == ds2[ds.len() + i]);
        }
    } else {
        assert(new[0] == invalid);
    }
}

/// For an operator whose operands are both checked against the destination:
/// when the operands' types differ, exactly one mismatch for the pair is
/// added after the operands' own diagnostics, and the first type is returned
/// unless it is the expected type, in which case the second is. Otherwise the
/// node adds nothing after its operands.
pub proof fn binary_operands_disagree(
    tab: SymbolTable,
    b: BinaryExpression,
    dest: Option<Type>,
    negate: bool,
    ds: Seq<Diagnostic>,
)
    requires
        is_uniform(b.op),
    ensures
        ({
            let ds1 = destination_check(ds, b.op, dest, b.span);
            let (t1, ds2) = check(tab, *b.left, dest, negate, ds1);
            let (t2, ds3) = check(tab, *b.right, dest, negate, ds2);
            let (r, ds4) = check(tab, Expression::Binary(b), dest, negate, ds);
            &&& r == reconcile_pair(t1, t2, dest)
            &&& (t1 is Some && t2 is Some && t1 != t2) ==> {
                &&& r == if dest == t1 { t2 } else { t1 }
                &&& ds4 == ds3.push(
                    Diagnostic::TypeShouldBe { actual: t2->Some_0, expected: t1->Some_0, span: b.span },
                )
            }
            &&& !(t1 is Some && t2 is Some && t1 != t2) ==> ds4 == ds3
        }),
{
    let ds1 = destination_check(ds, b.op, dest, b.span);
    assert(check(tab, Expression::Binary(b), dest, negate, ds) == check_operands(tab, b, dest, negate, ds1));
}

/// The condition of a ternary is checked against the boolean type whatever is
/// expected of the whole, and first; the branches are checked against the
/// expected type. When their types differ, exactly one mismatch is added, at
/// the second branch, and the first branch's type is returned unless it is
/// the expected one; otherwise nothing is added after the branches.
pub proof fn ternary_condition_is_boolean(
    tab: SymbolTable,
    t: TernaryExpression,
    expected: Option<Type>,
    negate: bool,
    ds: Seq<Diagnostic>,
)
    ensures
        ({
            let ds1 = check(tab, *t.condition, Some(Type::Boolean), negate, ds).1;
            let (t1, ds2) = check(tab, *t.if_true, expected, negate, ds1);
            let (t2, ds3) = check(tab, *t.if_false, expected, negate, ds2);
            let (r, ds4) = check(tab, Expression::Ternary(t), expected, negate, ds);
            &&& r == reconcile_pair(t1, t2, expected)
            &&& (t1 is Some && t2 is Some && t1 != t2) ==> {
                &&& expected != t1 ==> r == t1
                &&& ds4 == ds3.push(
                    Diagnostic::TypeShouldBe {
                        actual: t2->Some_0,
                        expected: t1->Some_0,
                        span: t.if_false.span_of(),
                    },
                )
            }
            &&& !(t1 is Some && t2 is Some && t1 != t2) ==> ds4 == ds3
        }),
{
}

/// A product where neither operand is a group: when the operands' types
/// differ, exactly one mismatch for the pair is added after the destination
/// check, and the first type is returned unless it is the expected type, in
/// which case the second is. Operands of one type give that type reconciled
/// with the destination.
pub proof fn product_operands_disagree(
    tab: SymbolTable,
    b: BinaryExpression,
    dest: Option<Type>,
    negate: bool,
    ds: Seq<Diagnostic>,
)
    requires
        b.op == BinaryOperation::Mul,
        check(tab, *b.left, None, negate, constrain(ds, dest, TypeClass::FieldGroupOrInteger, b.span)).0
            != Some(Type::Group),
        check(
            tab,
            *b.right,
            None,
            negate,
            check(tab, *b.left, None, negate, constrain(ds, dest, TypeClass::FieldGroupOrInteger, b.span)).1,
        ).0 != Some(Type::Group),
    ensures
        ({
            let ds1 = constrain(ds, dest, TypeClass::FieldGroupOrInteger, b.span);
            let (t1, ds2) = check(tab, *b.left, None, negate, ds1);
            let (t2, ds3) = check(tab, *b.right, None, negate, ds2);
            let ds4 = constrain(ds3, dest, TypeClass::FieldOrInteger, b.span);
            let (r, ds5) = check(tab, Expression::Binary(b), dest, negate, ds);
            &&& (t1 is Some && t2 is Some && t1 != t2) ==> {
                &&& r == if dest == t1 { t2 } else { t1 }
                &&& ds5 == ds4.push(
                    Diagnostic::TypeShouldBe { actual: t2->Some_0, expected: t1->Some_0, span: b.span },
                )
            }
            &&& (t1 is Some && t1 == t2) ==> (r, ds5) == reconcile(ds4, t1, dest, b.span)
            &&& (t1 is None || t2 is None) ==> r is None && ds5 == ds4
        }),
{
    assert(check(tab, Expression::Binary(b), dest, negate, ds) == check_mul(tab, b, dest, negate, ds));
}

/// Arguments are paired with parameters by position as far as both lists
/// go; those past the shorter list are not checked.
pub proof fn arguments_paired_by_position(
    tab: SymbolTable,
    args: Seq<Expression>,
    params: Seq<Type>,
    i: int,
    negate: bool,
    ds: Seq<Diagnostic>,
)
    requires
        0 <= i,
    ensures
        i >= args.len() || i >= params.len() ==> check_arguments(tab, args, params, i, negate, ds) == ds,
        i < args.len() && i < params.len() ==> check_arguments(tab, args, params, i, negate, ds)
            == check_arguments(tab, args, params, i + 1, negate, check(tab, args[i], Some(params[i]), negate, ds).1),
{
}

/// A call of a declared function with a number of arguments other than its
/// number of parameters: after reconciling the return type, exactly one
/// argument-count diagnostic is added, and then the arguments are checked
/// against the parameter types at their positions. The declared return type
/// is still the result.
pub proof fn call_arity_mismatch(
    tab: SymbolTable,
    c: CallExpression,
    expected: Option<Type>,
    negate: bool,
    ds: Seq<Diagnostic>,
)
    requires
        *c.function matches Expression::Identifier(id) && find_function(tab.functions@, id.name) is Some,
        tab.functions@[find_function(tab.functions@, (*c.function)->Identifier_0.name)->Some_0].input.len()
            != c.arguments.len(),
    ensures
        ({
            let f = tab.functions@[find_function(tab.functions@, (*c.function)->Identifier_0.name)->Some_0];
            let (ret, ds1) = reconcile(ds, Some(f.output), expected, f.span);
            let count = Diagnostic::IncorrectNumArgs {
                expected: f.input.len(),
                actual: c.arguments.len(),
                span: c.span,
            };
            &&& check(tab, Expression::Call(c), expected, negate, ds) == (
                ret,
                check_arguments(tab, c.arguments@, f.input@, 0, negate, ds1.push(count)),
            )
            &&& ret == Some(if expected is Some { expected->Some_0 } else { f.output })
        }),
{
}

} // verus!
