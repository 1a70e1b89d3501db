//! The executable checker. Each `visit_*` function appends its diagnostics to
//! the sink and is proved to return and append exactly what the matching
//! `check_*` rule in `semantics` states.
use vstd::prelude::*;
use crate::ast::{
    AccessExpression, BinaryExpression, BinaryOperation, CallExpression, CircuitInitExpression,
    Expression, Identifier, LiteralExpression, TernaryExpression, UnaryExpression,
    UnaryOperation,
};
use crate::diagnostics::{Diagnostic, SymbolKind};
use crate::literal::literal_fits;
use crate::lookup::{first_index, lemma_first_with_key_bound};
use crate::semantics::{
    check, check_access, check_arguments, check_binary, check_call, check_circuit_init, check_equality,
    check_identifier, check_literal, check_members, check_mul, check_operands, check_ordering, check_pow,
    check_shift, check_ternary, check_unary, constrain, core_argument, reconcile, reconcile_pair, same_types, visits,
};
use crate::symbols::{CoreInstruction, SymbolTable};
use crate::types::{Span, Type, TypeClass};

verus! {

/// A checking pass: the declarations it reads, and the diagnostics it has
/// reported so far, in the order they were found.
pub struct TypeChecker {
    pub symbol_table: SymbolTable,
    pub handler: Vec<Diagnostic>,
}

impl TypeChecker {
    pub fn new(symbol_table: SymbolTable) -> (r: TypeChecker)
        ensures
            r.symbol_table == symbol_table,
            r.handler@ == Seq::<Diagnostic>::empty(),
    {
        TypeChecker { symbol_table, handler: Vec::new() }
    }

    /// Checks `e` against `expected`, appending what is wrong with it to the
    /// handler. Returns the type of `e`, or `None` where none can be given.
    pub fn check_expression(&mut self, e: &Expression, expected: Option<Type>) -> (r: Option<Type>)
        ensures
            final(self).symbol_table == old(self).symbol_table,
            (r, final(self).handler@) == check(old(self).symbol_table, *e, expected, false, old(self).handler@),
    {
        visit_expression(&self.symbol_table, &mut self.handler, e, expected, false)
    }
}

/// Reconciles a found type with a required one (see `semantics::reconcile`).
pub fn reconcile_types(sink: &mut Vec<Diagnostic>, actual: Option<Type>, expected: Option<Type>, span: Span) -> (r:
    Option<Type>)
    ensures
        (r, final(sink)@) == reconcile(old(sink)@, actual, expected, span),
{
    match (actual, expected) {
        (Some(a), Some(e)) => {
            if a != e {
                sink.push(Diagnostic::TypeShouldBe { actual: a, expected: e, span });
                Some(e)
            } else {
                Some(a)
            }
        },
        (Some(a), None) => Some(a),
        (None, e) => e,
    }
}

/// Reports a known type outside a class.
pub fn constrain_type(sink: &mut Vec<Diagnostic>, t: Option<Type>, c: TypeClass, span: Span)
    ensures
        final(sink)@ == constrain(old(sink)@, t, c, span),
{
    if let Some(t) = t {
        if !t.is_in(c) {
            sink.push(Diagnostic::ExpectedOneTypeOf { class: c, actual: t, span });
        }
    }
}

fn assert_same_types(sink: &mut Vec<Diagnostic>, t1: Option<Type>, t2: Option<Type>, span: Span)
    ensures
        final(sink)@ == same_types(old(sink)@, t1, t2, span),
{
    if let (Some(a), Some(b)) = (t1, t2) {
        if a != b {
            sink.push(Diagnostic::TypeShouldBe { actual: a, expected: b, span });
        }
    }
}

/// The result of two subexpressions that should agree (see
/// `semantics::reconcile_pair`).
pub fn return_incorrect_type(t1: Option<Type>, t2: Option<Type>, expected: Option<Type>) -> (r: Option<Type>)
    ensures
        r == reconcile_pair(t1, t2, expected),
{
    match (t1, t2) {
        (Some(a), Some(b)) => {
            if a == b {
                Some(a)
            } else {
                match expected {
                    Some(e) => if a != e {
                        Some(a)
                    } else {
                        Some(b)
                    },
                    None => Some(a),
                }
            }
        },
        _ => None,
    }
}

/// The filter hook: whether to descend into `e`.
pub fn should_visit(e: &Expression) -> (r: bool)
    ensures
        r == visits(*e),
{
    match e {
        Expression::Error(_) => false,
        _ => true,
    }
}

fn contains_type(v: &Vec<Type>, t: Type) -> (r: bool)
    ensures
        r == v@.contains(t),
{
    let mut i: usize = 0;
    while i < v.len()
        invariant
            i <= v.len(),
            forall|j: int| 0 <= j < i ==> v@[j] != t,
        decreases v.len() - i,
    {
        if v[i] == t {
            return true;
        }
        i += 1;
    }
    false
}

fn check_core_argument(
    sink: &mut Vec<Diagnostic>,
    ins: &CoreInstruction,
    t: Option<Type>,
    allowed: &Vec<Type>,
    position: usize,
    span: Span,
)
    ensures
        final(sink)@ == core_argument(old(sink)@, *ins, t, allowed@, position, span),
{
    if let Some(t) = t {
        if !contains_type(allowed, t) {
            sink.push(
                Diagnostic::InvalidCoreArgument {
                    circuit: ins.circuit,
                    function: ins.function,
                    position,
                    actual: t,
                    span,
                },
            );
        }
    }
}

/// Type of an expression against an optional expected type; see
/// `semantics::check`.
pub fn visit_expression(
    tab: &SymbolTable,
    sink: &mut Vec<Diagnostic>,
    e: &Expression,
    expected: Option<Type>,
    negate: bool,
) -> (r: Option<Type>)
    ensures
        (r, final(sink)@) == check(*tab, *e, expected, negate, old(sink)@),
    decreases e, 0int,
{
    if !should_visit(e) {
        return None;
    }
    match e {
        Expression::Access(a) => visit_access(tab, sink, a, expected, negate),
        Expression::Identifier(i) => visit_identifier(tab, sink, i, expected),
        Expression::Literal(l) => visit_literal(sink, l, expected, negate),
        Expression::Binary(b) => visit_binary(tab, sink, b, expected, negate),
        Expression::Call(c) => visit_call(tab, sink, c, expected, negate),
        Expression::CircuitInit(c) => visit_circuit_init(tab, sink, c, expected, negate),
        Expression::Error(_) => None,
        Expression::Ternary(t) => visit_ternary(tab, sink, t, expected, negate),
        Expression::Unary(u) => visit_unary(tab, sink, u, expected, negate),
    }
}

pub fn visit_identifier(tab: &SymbolTable, sink: &mut Vec<Diagnostic>, var: &Identifier, expected: Option<Type>) -> (r:
    Option<Type>)
    ensures
        (r, final(sink)@) == check_identifier(*tab, *var, expected, old(sink)@),
{
    if let Some(k) = tab.lookup_circuit(var.name) {
        let circuit = &tab.circuits[k];
        reconcile_types(sink, Some(Type::Identifier(circuit.identifier)), expected, circuit.span)
    } else if let Some(k) = tab.lookup_variable(var.name) {
        let v = &tab.variables[k];
        reconcile_types(sink, Some(v.type_), expected, v.span)
    } else {
        sink.push(Diagnostic::UnknownSymbol { kind: SymbolKind::Variable, name: var.name, span: var.span });
        None
    }
}

pub fn visit_literal(sink: &mut Vec<Diagnostic>, input: &LiteralExpression, expected: Option<Type>, negate: bool) -> (r:
    Option<Type>)
    ensures
        (r, final(sink)@) == check_literal(*input, expected, negate, old(sink)@),
{
    match input {
        LiteralExpression::Address(span) => reconcile_types(sink, Some(Type::Address), expected, *span),
        LiteralExpression::Boolean(_, span) => reconcile_types(sink, Some(Type::Boolean), expected, *span),
        LiteralExpression::Field(span) => reconcile_types(sink, Some(Type::Field), expected, *span),
        LiteralExpression::Group(span) => reconcile_types(sink, Some(Type::Group), expected, *span),
        LiteralExpression::Integer(t, text, span) => {
            if !literal_fits(*t, text.as_str(), negate) {
                let negated = negate && t.is_signed();
                sink.push(Diagnostic::InvalidIntValue { text: text.clone(), negated, ty: *t, span: *span });
            }
            reconcile_types(sink, Some(Type::IntegerType(*t)), expected, *span)
        },
        LiteralExpression::Scalar(span) => reconcile_types(sink, Some(Type::Scalar), expected, *span),
        LiteralExpression::String(span) => reconcile_types(sink, Some(Type::String), expected, *span),
    }
}

pub fn visit_access(
    tab: &SymbolTable,
    sink: &mut Vec<Diagnostic>,
    input: &AccessExpression,
    expected: Option<Type>,
    negate: bool,
) -> (r: Option<Type>)
    ensures
        (r, final(sink)@) == check_access(*tab, *input, expected, negate, old(sink)@),
    decreases input, 0int,
{
    match input {
        AccessExpression::AssociatedFunction(access) => {
            let found = match access.ty {
                Type::Identifier(c) => tab.lookup_core_instruction(c, access.name.name),
                _ => None,
            };
            match found {
                Some(k) => {
                    let ins = &tab.core_instructions[k];
                    if ins.num_args != access.args.len() {
                        sink.push(
                            Diagnostic::IncorrectNumArgs {
                                expected: ins.num_args,
                                actual: access.args.len(),
                                span: access.span,
                            },
                        );
                    }
                    if access.args.len() > 0 {
                        let t = visit_expression(tab, sink, &access.args[0], None, negate);
                        check_core_argument(sink, ins, t, &ins.first_arg_types, 1, access.span);
                    }
                    if access.args.len() > 1 {
                        let t = visit_expression(tab, sink, &access.args[1], None, negate);
                        check_core_argument(sink, ins, t, &ins.second_arg_types, 2, access.span);
                    }
                    reconcile_types(sink, Some(ins.return_type), expected, access.span)
                },
                None => {
                    sink.push(Diagnostic::InvalidAccessExpression { span: access.span });
                    None
                },
            }
        },
        _ => None,
    }
}

fn visit_operands(
    tab: &SymbolTable,
    sink: &mut Vec<Diagnostic>,
    input: &BinaryExpression,
    destination: Option<Type>,
    negate: bool,
) -> (r: Option<Type>)
    ensures
        (r, final(sink)@) == check_operands(*tab, *input, destination, negate, old(sink)@),
    decreases input, 0int,
{
    let t1 = visit_expression(tab, sink, &input.left, destination, negate);
    let t2 = visit_expression(tab, sink, &input.right, destination, negate);
    assert_same_types(sink, t2, t1, input.span);
    return_incorrect_type(t1, t2, destination)
}

fn visit_mul(
    tab: &SymbolTable,
    sink: &mut Vec<Diagnostic>,
    input: &BinaryExpression,
    destination: Option<Type>,
    negate: bool,
) -> (r: Option<Type>)
    ensures
        (r, final(sink)@) == check_mul(*tab, *input, destination, negate, old(sink)@),
    decreases input, 0int,
{
    constrain_type(sink, destination, TypeClass::FieldGroupOrInteger, input.span);
    let t1 = visit_expression(tab, sink, &input.left, None, negate);
    let t2 = visit_expression(tab, sink, &input.right, None, negate);
    if t1 == Some(Type::Group) {
        reconcile_types(sink, t2, Some(Type::Scalar), input.right.span());
        reconcile_types(sink, destination, Some(Type::Group), input.span)
    } else if t2 == Some(Type::Group) {
        reconcile_types(sink, t1, Some(Type::Scalar), input.left.span());
        reconcile_types(sink, destination, Some(Type::Group), input.span)
    } else {
        constrain_type(sink, destination, TypeClass::FieldOrInteger, input.span);
        if t1.is_some() && t1 == t2 {
            reconcile_types(sink, t1, destination, input.span)
        } else {
            assert_same_types(sink, t2, t1, input.span);
            return_incorrect_type(t1, t2, destination)
        }
    }
}

fn visit_pow(
    tab: &SymbolTable,
    sink: &mut Vec<Diagnostic>,
    input: &BinaryExpression,
    destination: Option<Type>,
    negate: bool,
) -> (r: Option<Type>)
    ensures
        (r, final(sink)@) == check_pow(*tab, *input, destination, negate, old(sink)@),
    decreases input, 0int,
{
    constrain_type(sink, destination, TypeClass::FieldOrInteger, input.span);
    let t1 = visit_expression(tab, sink, &input.left, None, negate);
    let t2 = visit_expression(tab, sink, &input.right, None, negate);
    if t1 == Some(Type::Field) {
        reconcile_types(sink, t2, Some(Type::Field), input.right.span());
        reconcile_types(sink, destination, Some(Type::Field), input.span)
    } else if t2 == Some(Type::Field) {
        reconcile_types(sink, t1, Some(Type::Field), input.left.span());
        reconcile_types(sink, destination, Some(Type::Field), input.span)
    } else {
        constrain_type(sink, t2, TypeClass::Magnitude, input.right.span());
        match t1 {
            Some(t) => reconcile_types(sink, destination, Some(t), input.span),
            None => destination,
        }
    }
}

fn visit_equality(
    tab: &SymbolTable,
    sink: &mut Vec<Diagnostic>,
    input: &BinaryExpression,
    destination: Option<Type>,
    negate: bool,
) -> (r: Option<Type>)
    ensures
        (r, final(sink)@) == check_equality(*tab, *input, destination, negate, old(sink)@),
    decreases input, 0int,
{
    let t1 = visit_expression(tab, sink, &input.left, None, negate);
    let t2 = visit_expression(tab, sink, &input.right, None, negate);
    if matches!(t1, Some(Type::IntegerType(_))) {
        constrain_type(sink, t2, TypeClass::Integer, input.left.span());
    } else if matches!(t2, Some(Type::IntegerType(_))) {
        constrain_type(sink, t1, TypeClass::Integer, input.right.span());
    } else {
        assert_same_types(sink, t1, t2, input.span);
    }
    reconcile_types(sink, destination, Some(Type::Boolean), input.span)
}

fn visit_ordering(
    tab: &SymbolTable,
    sink: &mut Vec<Diagnostic>,
    input: &BinaryExpression,
    destination: Option<Type>,
    negate: bool,
) -> (r: Option<Type>)
    ensures
        (r, final(sink)@) == check_ordering(*tab, *input, destination, negate, old(sink)@),
    decreases input, 0int,
{
    let t1 = visit_expression(tab, sink, &input.left, None, negate);
    let t2 = visit_expression(tab, sink, &input.right, None, negate);
    let ls = input.left.span();
    let rs = input.right.span();
    if t1 == Some(Type::Address) {
        reconcile_types(sink, t2, Some(Type::Address), ls);
    } else if t2 == Some(Type::Address) {
        reconcile_types(sink, t1, Some(Type::Address), rs);
    } else if t1 == Some(Type::Field) {
        reconcile_types(sink, t2, Some(Type::Field), ls);
    } else if t2 == Some(Type::Field) {
        reconcile_types(sink, t1, Some(Type::Field), rs);
    } else if t1 == Some(Type::Scalar) {
        reconcile_types(sink, t2, Some(Type::Scalar), ls);
    } else if t2 == Some(Type::Scalar) {
        reconcile_types(sink, t1, Some(Type::Scalar), rs);
    } else if matches!(t1, Some(Type::IntegerType(_))) {
        constrain_type(sink, t2, TypeClass::Integer, ls);
    } else if matches!(t2, Some(Type::IntegerType(_))) {
        constrain_type(sink, t1, TypeClass::Integer, rs);
    }
    reconcile_types(sink, destination, Some(Type::Boolean), input.span)
}

fn visit_shift(
    tab: &SymbolTable,
    sink: &mut Vec<Diagnostic>,
    input: &BinaryExpression,
    destination: Option<Type>,
    negate: bool,
) -> (r: Option<Type>)
    ensures
        (r, final(sink)@) == check_shift(*tab, *input, destination, negate, old(sink)@),
    decreases input, 0int,
{
    constrain_type(sink, destination, TypeClass::Integer, input.span);
    let t1 = visit_expression(tab, sink, &input.left, destination, negate);
    let t2 = visit_expression(tab, sink, &input.right, None, negate);
    constrain_type(sink, t2, TypeClass::Magnitude, input.right.span());
    if destination.is_some() {
        destination
    } else {
        t1
    }
}

pub fn visit_binary(
    tab: &SymbolTable,
    sink: &mut Vec<Diagnostic>,
    input: &BinaryExpression,
    destination: Option<Type>,
    negate: bool,
) -> (r: Option<Type>)
    ensures
        (r, final(sink)@) == check_binary(*tab, *input, destination, negate, old(sink)@),
    decreases input, 1int,
{
    match input.op {
        BinaryOperation::And | BinaryOperation::Or | BinaryOperation::Nand | BinaryOperation::Nor => {
            reconcile_types(sink, Some(Type::Boolean), destination, input.span);
            visit_operands(tab, sink, input, destination, negate)
        },
        BinaryOperation::BitwiseAnd | BinaryOperation::BitwiseOr | BinaryOperation::Xor => {
            constrain_type(sink, destination, TypeClass::BooleanOrInteger, input.span);
            visit_operands(tab, sink, input, destination, negate)
        },
        BinaryOperation::Add => {
            constrain_type(sink, destination, TypeClass::FieldGroupScalarOrInteger, input.span);
            visit_operands(tab, sink, input, destination, negate)
        },
        BinaryOperation::Sub => {
            constrain_type(sink, destination, TypeClass::FieldGroupOrInteger, input.span);
            visit_operands(tab, sink, input, destination, negate)
        },
        BinaryOperation::Mul => visit_mul(tab, sink, input, destination, negate),
        BinaryOperation::Div => {
            constrain_type(sink, destination, TypeClass::FieldOrInteger, input.span);
            visit_operands(tab, sink, input, destination, negate)
        },
        BinaryOperation::Pow => visit_pow(tab, sink, input, destination, negate),
        BinaryOperation::Eq | BinaryOperation::Neq => visit_equality(tab, sink, input, destination, negate),
        BinaryOperation::Lt | BinaryOperation::Gt | BinaryOperation::Lte | BinaryOperation::Gte => visit_ordering(
            tab,
            sink,
            input,
            destination,
            negate,
        ),
        BinaryOperation::AddWrapped | BinaryOperation::SubWrapped | BinaryOperation::DivWrapped
        | BinaryOperation::MulWrapped => {
            constrain_type(sink, destination, TypeClass::Integer, input.span);
            visit_operands(tab, sink, input, destination, negate)
        },
        BinaryOperation::Shl | BinaryOperation::ShlWrapped | BinaryOperation::Shr | BinaryOperation::ShrWrapped
        | BinaryOperation::PowWrapped => visit_shift(tab, sink, input, destination, negate),
    }
}

pub fn visit_unary(
    tab: &SymbolTable,
    sink: &mut Vec<Diagnostic>,
    input: &UnaryExpression,
    destination: Option<Type>,
    negate: bool,
) -> (r: Option<Type>)
    ensures
        (r, final(sink)@) == check_unary(*tab, *input, destination, negate, old(sink)@),
    decreases input, 0int,
{
    match input.op {
        UnaryOperation::Abs | UnaryOperation::AbsWrapped => {
            constrain_type(sink, destination, TypeClass::SignedInteger, input.span);
            visit_expression(tab, sink, &input.receiver, destination, negate)
        },
        UnaryOperation::Double => {
            constrain_type(sink, destination, TypeClass::FieldOrGroup, input.span);
            visit_expression(tab, sink, &input.receiver, destination, negate)
        },
        UnaryOperation::Inverse | UnaryOperation::Square => {
            reconcile_types(sink, destination, Some(Type::Field), input.span);
            visit_expression(tab, sink, &input.receiver, Some(Type::Field), negate)
        },
        UnaryOperation::SquareRoot => {
            constrain_type(sink, destination, TypeClass::FieldOrScalar, input.span);
            visit_expression(tab, sink, &input.receiver, destination, negate)
        },
        UnaryOperation::Not => {
            constrain_type(sink, destination, TypeClass::BooleanOrInteger, input.span);
            visit_expression(tab, sink, &input.receiver, destination, negate)
        },
        UnaryOperation::Negate => {
            let t = visit_expression(tab, sink, &input.receiver, destination, true);
            if let Some(ty) = t {
                if !ty.is_negatable() {
                    sink.push(Diagnostic::TypeIsNotNegatable { ty, span: input.receiver.span() });
                }
            }
            t
        },
    }
}

pub fn visit_ternary(
    tab: &SymbolTable,
    sink: &mut Vec<Diagnostic>,
    input: &TernaryExpression,
    expected: Option<Type>,
    negate: bool,
) -> (r: Option<Type>)
    ensures
        (r, final(sink)@) == check_ternary(*tab, *input, expected, negate, old(sink)@),
    decreases input, 0int,
{
    visit_expression(tab, sink, &input.condition, Some(Type::Boolean), negate);
    let t1 = visit_expression(tab, sink, &input.if_true, expected, negate);
    let t2 = visit_expression(tab, sink, &input.if_false, expected, negate);
    assert_same_types(sink, t2, t1, input.if_false.span());
    return_incorrect_type(t1, t2, expected)
}

pub fn visit_call(
    tab: &SymbolTable,
    sink: &mut Vec<Diagnostic>,
    input: &CallExpression,
    expected: Option<Type>,
    negate: bool,
) -> (r: Option<Type>)
    ensures
        (r, final(sink)@) == check_call(*tab, *input, expected, negate, old(sink)@),
    decreases input, 0int,
{
    match &*input.function {
        Expression::Identifier(ident) => {
            match tab.lookup_function(ident.name) {
                Some(k) => {
                    let func = &tab.functions[k];
                    let ret = reconcile_types(sink, Some(func.output), expected, func.span);
                    if func.input.len() != input.arguments.len() {
                        sink.push(
                            Diagnostic::IncorrectNumArgs {
                                expected: func.input.len(),
                                actual: input.arguments.len(),
                                span: input.span,
                            },
                        );
                    }
                    let ghost start = sink@;
                    let mut i: usize = 0;
                    while i < func.input.len() && i < input.arguments.len()
                        invariant
                            i <= input.arguments.len(),
                            check_arguments(*tab, input.arguments@, func.input@, 0, negate, start)
                                == check_arguments(*tab, input.arguments@, func.input@, i as int, negate, sink@),
                        decreases input.arguments.len() - i,
                    {
                        visit_expression(tab, sink, &input.arguments[i], Some(func.input[i]), negate);
                        i += 1;
                    }
                    ret
                },
                None => {
                    sink.push(
                        Diagnostic::UnknownSymbol { kind: SymbolKind::Function, name: ident.name, span: ident.span },
                    );
                    None
                },
            }
        },
        expr => visit_expression(tab, sink, expr, expected, negate),
    }
}

pub fn visit_circuit_init(
    tab: &SymbolTable,
    sink: &mut Vec<Diagnostic>,
    input: &CircuitInitExpression,
    additional: Option<Type>,
    negate: bool,
) -> (r: Option<Type>)
    ensures
        (r, final(sink)@) == check_circuit_init(*tab, *input, additional, negate, old(sink)@),
    decreases input, 0int,
{
    match tab.lookup_circuit(input.name.name) {
        Some(k) => {
            let circ = &tab.circuits[k];
            let ret = reconcile_types(sink, Some(Type::Identifier(circ.identifier)), additional, input.name.span);
            if circ.members.len() != input.members.len() {
                sink.push(
                    Diagnostic::IncorrectNumCircuitMembers {
                        expected: circ.members.len(),
                        actual: input.members.len(),
                        span: input.span,
                    },
                );
            }
            let ghost start = sink@;
            let mut i: usize = 0;
            while i < circ.members.len()
                invariant
                    i <= circ.members.len(),
                    check_members(*tab, circ.members@, input.members@, 0, negate, start)
                        == check_members(*tab, circ.members@, input.members@, i as int, negate, sink@),
                decreases circ.members.len() - i,
            {
                let member = circ.members[i];
                proof { lemma_first_with_key_bound(input.members@, member.name); }
                match first_index(&input.members, &member.name) {
                    Some(j) => {
                        if let Some(expr) = &input.members[j].expression {
                            visit_expression(tab, sink, expr, Some(member.type_), negate);
                        }
                    },
                    None => {
                        sink.push(
                            Diagnostic::UnknownSymbol {
                                kind: SymbolKind::CircuitMemberVariable,
                                name: member.name,
                                span: member.span,
                            },
                        );
                    },
                }
                i += 1;
            }
            ret
        },
        None => {
            sink.push(
                Diagnostic::UnknownSymbol {
                    kind: SymbolKind::CircuitOrRecord,
                    name: input.name.name,
                    span: input.name.span,
                },
            );
            None
        },
    }
}

} // verus!
