use leo_passes::ast::{
    AccessExpression, AssociatedFunction, BinaryExpression, BinaryOperation, CallExpression, CircuitInitExpression,
    CircuitVariableInitializer, ErrExpression, Expression, Identifier, LiteralExpression, MemberAccess,
    TernaryExpression, UnaryExpression, UnaryOperation,
};
use leo_passes::checker::{return_incorrect_type, TypeChecker};
use leo_passes::diagnostics::{Diagnostic, SymbolKind};
use leo_passes::literal::literal_fits;
use leo_passes::symbols::{CircuitMember, CircuitSymbol, CoreInstruction, FunctionSymbol, SymbolTable, VariableSymbol};
use leo_passes::types::{IntegerType, Span, Symbol, Type, TypeClass};

fn sp(lo: u32) -> Span {
    Span { lo, hi: lo + 1 }
}

fn sym(id: u32) -> Symbol {
    Symbol { id }
}

fn ident(id: u32, lo: u32) -> Expression {
    Expression::Identifier(Identifier { name: sym(id), span: sp(lo) })
}

fn int_lit(t: IntegerType, text: &str, lo: u32) -> Expression {
    Expression::Literal(LiteralExpression::Integer(t, text.to_string(), sp(lo)))
}

fn boolean(lo: u32) -> Expression {
    Expression::Literal(LiteralExpression::Boolean(true, sp(lo)))
}

fn field(lo: u32) -> Expression {
    Expression::Literal(LiteralExpression::Field(sp(lo)))
}

fn binary(op: BinaryOperation, left: Expression, right: Expression, lo: u32) -> Expression {
    Expression::Binary(BinaryExpression { left: Box::new(left), right: Box::new(right), op, span: sp(lo) })
}

fn unary(op: UnaryOperation, receiver: Expression, lo: u32) -> Expression {
    Expression::Unary(UnaryExpression { receiver: Box::new(receiver), op, span: sp(lo) })
}

fn var(id: u32, ty: Type, lo: u32) -> VariableSymbol {
    VariableSymbol { name: sym(id), type_: ty, span: sp(lo) }
}

const G: u32 = 1;
const S: u32 = 2;
const A8: u32 = 3;
const B8: u32 = 4;
const C16: u32 = 5;
const FLAG: u32 = 6;
const F: u32 = 10;
const POINT: u32 = 20;
const MEMBER_A: u32 = 21;
const MEMBER_B: u32 = 22;
const HASHER: u32 = 30;
const HASH: u32 = 31;

fn table() -> SymbolTable {
    SymbolTable {
        variables: vec![
            var(G, Type::Group, 100),
            var(S, Type::Scalar, 101),
            var(A8, Type::IntegerType(IntegerType::U8), 102),
            var(B8, Type::IntegerType(IntegerType::U8), 103),
            var(C16, Type::IntegerType(IntegerType::U16), 104),
            var(FLAG, Type::Boolean, 105),
        ],
        functions: vec![FunctionSymbol {
            name: sym(F),
            input: vec![Type::Field, Type::Boolean],
            output: Type::Field,
            span: sp(200),
        }],
        circuits: vec![CircuitSymbol {
            identifier: sym(POINT),
            members: vec![
                CircuitMember { name: sym(MEMBER_A), type_: Type::Field, span: sp(301) },
                CircuitMember { name: sym(MEMBER_B), type_: Type::Boolean, span: sp(302) },
            ],
            span: sp(300),
        }],
        core_instructions: vec![CoreInstruction {
            circuit: sym(HASHER),
            function: sym(HASH),
            num_args: 1,
            first_arg_types: vec![Type::Field, Type::Boolean],
            second_arg_types: vec![],
            return_type: Type::Field,
        }],
    }
}

fn run(e: &Expression, expected: Option<Type>) -> (Option<Type>, Vec<Diagnostic>) {
    let mut checker = TypeChecker::new(table());
    let r = checker.check_expression(e, expected);
    (r, checker.handler)
}

const U8: Type = Type::IntegerType(IntegerType::U8);
const U16: Type = Type::IntegerType(IntegerType::U16);
const I8: Type = Type::IntegerType(IntegerType::I8);

#[test]
fn unsigned_literal_out_of_range() {
    let (r, ds) = run(&int_lit(IntegerType::U8, "128", 1), None);
    assert_eq!(r, Some(U8));
    assert!(ds.is_empty());
    let (r, ds) = run(&int_lit(IntegerType::U8, "256", 1), None);
    assert_eq!(r, Some(U8));
    assert_eq!(
        ds,
        vec![Diagnostic::InvalidIntValue { text: "256".to_string(), negated: false, ty: IntegerType::U8, span: sp(1) }]
    );
}

#[test]
fn literal_128_does_not_fit_i8_or_fit_u8_range_edges() {
    let (_, ds) = run(&int_lit(IntegerType::I8, "128", 1), None);
    assert_eq!(
        ds,
        vec![Diagnostic::InvalidIntValue { text: "128".to_string(), negated: false, ty: IntegerType::I8, span: sp(1) }]
    );
    assert!(literal_fits(IntegerType::U8, "255", false));
    assert!(!literal_fits(IntegerType::U8, "256", false));
}

#[test]
fn negated_most_negative_i8_is_valid() {
    let e = unary(UnaryOperation::Negate, int_lit(IntegerType::I8, "128", 1), 0);
    let (r, ds) = run(&e, None);
    assert_eq!(r, Some(I8));
    assert!(ds.is_empty());
    let e = unary(UnaryOperation::Negate, int_lit(IntegerType::I8, "129", 1), 0);
    let (r, ds) = run(&e, None);
    assert_eq!(r, Some(I8));
    assert_eq!(
        ds,
        vec![Diagnostic::InvalidIntValue { text: "129".to_string(), negated: true, ty: IntegerType::I8, span: sp(1) }]
    );
}

#[test]
fn wide_literal_boundaries() {
    assert!(literal_fits(IntegerType::U128, "340282366920938463463374607431768211455", false));
    assert!(!literal_fits(IntegerType::U128, "340282366920938463463374607431768211456", false));
    assert!(literal_fits(IntegerType::I128, "170141183460469231731687303715884105728", true));
    assert!(!literal_fits(IntegerType::I128, "170141183460469231731687303715884105728", false));
    assert!(literal_fits(IntegerType::I64, "9223372036854775807", false));
    assert!(!literal_fits(IntegerType::I64, "9223372036854775808", false));
}

#[test]
fn literal_text_shapes() {
    assert!(literal_fits(IntegerType::U8, "+5", false));
    assert!(literal_fits(IntegerType::U8, "007", false));
    assert!(!literal_fits(IntegerType::U8, "", false));
    assert!(!literal_fits(IntegerType::U8, "+", false));
    assert!(!literal_fits(IntegerType::U8, "-0", false));
    assert!(literal_fits(IntegerType::I8, "-5", false));
    assert!(!literal_fits(IntegerType::I8, "-5", true));
    assert!(!literal_fits(IntegerType::I8, "1_0", false));
    assert!(!literal_fits(IntegerType::U32, "12a", false));
}

#[test]
fn negating_unsigned_is_not_negatable() {
    let e = unary(UnaryOperation::Negate, int_lit(IntegerType::U8, "5", 1), 0);
    let (r, ds) = run(&e, None);
    assert_eq!(r, Some(U8));
    assert_eq!(ds, vec![Diagnostic::TypeIsNotNegatable { ty: U8, span: sp(1) }]);
}

#[test]
fn literal_checked_against_other_type() {
    let (r, ds) = run(&boolean(1), Some(Type::Field));
    assert_eq!(r, Some(Type::Field));
    assert_eq!(ds, vec![Diagnostic::TypeShouldBe { actual: Type::Boolean, expected: Type::Field, span: sp(1) }]);
}

#[test]
fn disagreeing_operands_first_returned() {
    // No expected type: the first operand's type, nothing reported here.
    let e = binary(BinaryOperation::Add, int_lit(IntegerType::U8, "1", 1), int_lit(IntegerType::U16, "1", 2), 0);
    let (r, ds) = run(&e, None);
    assert_eq!(r, Some(U8));
    assert_eq!(ds, vec![Diagnostic::TypeShouldBe { actual: U16, expected: U8, span: sp(0) }]);
    let e = binary(BinaryOperation::Add, field(1), boolean(2), 0);
    let (r, ds) = run(&e, None);
    assert_eq!(r, Some(Type::Field));
    assert_eq!(ds, vec![Diagnostic::TypeShouldBe { actual: Type::Boolean, expected: Type::Field, span: sp(0) }]);
}

#[test]
fn disagreeing_operands_expected_type_decides() {
    // A group product is a group whatever is expected of it; a field literal
    // is the expected field.
    let product = binary(BinaryOperation::Mul, ident(G, 1), ident(S, 2), 3);
    let e = binary(BinaryOperation::Add, product, field(4), 0);
    let (r, ds) = run(&e, Some(Type::Field));
    // The first operand is not the expected type: it is returned.
    assert_eq!(r, Some(Type::Group));
    assert_eq!(
        ds,
        vec![
            Diagnostic::TypeShouldBe { actual: Type::Field, expected: Type::Group, span: sp(3) },
            Diagnostic::TypeShouldBe { actual: Type::Field, expected: Type::Group, span: sp(0) },
        ]
    );
    let product = binary(BinaryOperation::Mul, ident(G, 1), ident(S, 2), 3);
    let e = binary(BinaryOperation::Add, field(4), product, 0);
    let (r, ds) = run(&e, Some(Type::Field));
    // The first operand is the expected type: the second is returned.
    assert_eq!(r, Some(Type::Group));
    assert_eq!(
        ds,
        vec![
            Diagnostic::TypeShouldBe { actual: Type::Field, expected: Type::Group, span: sp(3) },
            Diagnostic::TypeShouldBe { actual: Type::Group, expected: Type::Field, span: sp(0) },
        ]
    );
    assert_eq!(return_incorrect_type(Some(Type::Group), Some(Type::Field), Some(Type::Field)), Some(Type::Group));
    assert_eq!(return_incorrect_type(Some(Type::Field), Some(Type::Group), Some(Type::Field)), Some(Type::Group));
    assert_eq!(return_incorrect_type(Some(Type::Field), Some(Type::Group), None), Some(Type::Field));
    assert_eq!(return_incorrect_type(Some(Type::Field), Some(Type::Field), None), Some(Type::Field));
    assert_eq!(return_incorrect_type(None, Some(Type::Group), None), None);
}

#[test]
fn operand_mismatch_against_destination() {
    let e = binary(BinaryOperation::Add, int_lit(IntegerType::U8, "1", 1), boolean(2), 0);
    let (r, ds) = run(&e, Some(U8));
    assert_eq!(r, Some(U8));
    assert_eq!(ds, vec![Diagnostic::TypeShouldBe { actual: Type::Boolean, expected: U8, span: sp(2) }]);
}

#[test]
fn record_initializer_complete() {
    let e = Expression::CircuitInit(CircuitInitExpression {
        name: Identifier { name: sym(POINT), span: sp(1) },
        members: vec![
            CircuitVariableInitializer { identifier: Identifier { name: sym(MEMBER_A), span: sp(2) }, expression: Some(field(3)) },
            CircuitVariableInitializer { identifier: Identifier { name: sym(MEMBER_B), span: sp(4) }, expression: Some(boolean(5)) },
        ],
        span: sp(0),
    });
    let (r, ds) = run(&e, None);
    assert_eq!(r, Some(Type::Identifier(sym(POINT))));
    assert!(ds.is_empty());
}

#[test]
fn record_initializer_missing_member() {
    let e = Expression::CircuitInit(CircuitInitExpression {
        name: Identifier { name: sym(POINT), span: sp(1) },
        members: vec![CircuitVariableInitializer {
            identifier: Identifier { name: sym(MEMBER_A), span: sp(2) },
            expression: Some(field(3)),
        }],
        span: sp(0),
    });
    let (r, ds) = run(&e, None);
    assert_eq!(r, Some(Type::Identifier(sym(POINT))));
    let unknown: Vec<&Diagnostic> = ds.iter().filter(|d| matches!(d, Diagnostic::UnknownSymbol { .. })).collect();
    assert_eq!(
        unknown,
        vec![&Diagnostic::UnknownSymbol { kind: SymbolKind::CircuitMemberVariable, name: sym(MEMBER_B), span: sp(302) }]
    );
    assert_eq!(
        ds,
        vec![
            Diagnostic::IncorrectNumCircuitMembers { expected: 2, actual: 1, span: sp(0) },
            Diagnostic::UnknownSymbol { kind: SymbolKind::CircuitMemberVariable, name: sym(MEMBER_B), span: sp(302) },
        ]
    );
}

#[test]
fn record_member_of_wrong_type_and_unknown_record() {
    let e = Expression::CircuitInit(CircuitInitExpression {
        name: Identifier { name: sym(POINT), span: sp(1) },
        members: vec![
            CircuitVariableInitializer { identifier: Identifier { name: sym(MEMBER_B), span: sp(4) }, expression: Some(field(5)) },
            CircuitVariableInitializer { identifier: Identifier { name: sym(MEMBER_A), span: sp(2) }, expression: None },
        ],
        span: sp(0),
    });
    let (_, ds) = run(&e, None);
    assert_eq!(ds, vec![Diagnostic::TypeShouldBe { actual: Type::Field, expected: Type::Boolean, span: sp(5) }]);
    let e = Expression::CircuitInit(CircuitInitExpression {
        name: Identifier { name: sym(99), span: sp(1) },
        members: vec![],
        span: sp(0),
    });
    let (r, ds) = run(&e, None);
    assert_eq!(r, None);
    assert_eq!(ds, vec![Diagnostic::UnknownSymbol { kind: SymbolKind::CircuitOrRecord, name: sym(99), span: sp(1) }]);
}

#[test]
fn group_times_scalar_either_order() {
    let (r, ds) = run(&binary(BinaryOperation::Mul, ident(G, 1), ident(S, 2), 0), None);
    assert_eq!(r, Some(Type::Group));
    assert!(ds.is_empty());
    let (r, ds) = run(&binary(BinaryOperation::Mul, ident(S, 1), ident(G, 2), 0), None);
    assert_eq!(r, Some(Type::Group));
    assert!(ds.is_empty());
}

#[test]
fn same_width_product_and_mixed_width_product() {
    let (r, ds) = run(&binary(BinaryOperation::Mul, ident(A8, 1), ident(B8, 2), 0), None);
    assert_eq!(r, Some(U8));
    assert!(ds.is_empty());
    let (r, ds) = run(&binary(BinaryOperation::Mul, ident(A8, 1), ident(C16, 2), 0), None);
    assert_eq!(r, Some(U8));
    assert_eq!(ds, vec![Diagnostic::TypeShouldBe { actual: U16, expected: U8, span: sp(0) }]);
}

#[test]
fn product_held_to_destination() {
    let e = binary(BinaryOperation::Mul, int_lit(IntegerType::U16, "2", 1), int_lit(IntegerType::U16, "3", 2), 0);
    let (r, ds) = run(&e, Some(U8));
    assert_eq!(r, Some(U8));
    assert_eq!(ds, vec![Diagnostic::TypeShouldBe { actual: U16, expected: U8, span: sp(0) }]);
}

#[test]
fn mixed_width_product_with_destination() {
    let e = binary(BinaryOperation::Mul, ident(A8, 1), ident(C16, 2), 0);
    // The first operand is the expected type: the second is returned.
    let (r, ds) = run(&e, Some(U8));
    assert_eq!(r, Some(U16));
    assert_eq!(ds, vec![Diagnostic::TypeShouldBe { actual: U16, expected: U8, span: sp(0) }]);
    // Neither is the expected type: the first is returned, one mismatch.
    let u32_type = Type::IntegerType(IntegerType::U32);
    let (r, ds) = run(&e, Some(u32_type));
    assert_eq!(r, Some(U8));
    assert_eq!(ds, vec![Diagnostic::TypeShouldBe { actual: U16, expected: U8, span: sp(0) }]);
}

#[test]
fn ternary_literal_branches_disagree() {
    let e = Expression::Ternary(TernaryExpression {
        condition: Box::new(boolean(1)),
        if_true: Box::new(field(2)),
        if_false: Box::new(Expression::Literal(LiteralExpression::Boolean(false, sp(3)))),
        span: sp(0),
    });
    let (r, ds) = run(&e, None);
    assert_eq!(r, Some(Type::Field));
    assert_eq!(ds, vec![Diagnostic::TypeShouldBe { actual: Type::Boolean, expected: Type::Field, span: sp(3) }]);
}

#[test]
fn group_times_non_scalar() {
    let (r, ds) = run(&binary(BinaryOperation::Mul, ident(G, 1), ident(A8, 2), 0), None);
    assert_eq!(r, Some(Type::Group));
    assert_eq!(ds, vec![Diagnostic::TypeShouldBe { actual: U8, expected: Type::Scalar, span: sp(2) }]);
}

#[test]
fn ternary_condition_must_be_boolean() {
    let e = Expression::Ternary(TernaryExpression {
        condition: Box::new(int_lit(IntegerType::U8, "1", 1)),
        if_true: Box::new(ident(A8, 2)),
        if_false: Box::new(ident(B8, 3)),
        span: sp(0),
    });
    let (r, ds) = run(&e, Some(U8));
    assert_eq!(r, Some(U8));
    assert_eq!(ds, vec![Diagnostic::TypeShouldBe { actual: U8, expected: Type::Boolean, span: sp(1) }]);
}

#[test]
fn ternary_branches_disagree() {
    let e = Expression::Ternary(TernaryExpression {
        condition: Box::new(ident(FLAG, 1)),
        if_true: Box::new(ident(A8, 2)),
        if_false: Box::new(ident(C16, 3)),
        span: sp(0),
    });
    let (r, ds) = run(&e, None);
    assert_eq!(r, Some(U8));
    assert_eq!(ds, vec![Diagnostic::TypeShouldBe { actual: U16, expected: U8, span: sp(3) }]);
    let (r, ds) = run(&e, Some(U8));
    assert_eq!(r, Some(U8));
    // The mismatch is placed at the declaration of the second branch's variable.
    assert_eq!(ds, vec![Diagnostic::TypeShouldBe { actual: U16, expected: U8, span: sp(104) }]);
}

fn call(args: Vec<Expression>) -> Expression {
    Expression::Call(CallExpression { function: Box::new(ident(F, 1)), arguments: args, span: sp(0) })
}

#[test]
fn call_with_one_argument_too_many() {
    let e = call(vec![boolean(2), boolean(3), field(4)]);
    let (r, ds) = run(&e, None);
    assert_eq!(r, Some(Type::Field));
    assert_eq!(
        ds,
        vec![
            Diagnostic::IncorrectNumArgs { expected: 2, actual: 3, span: sp(0) },
            Diagnostic::TypeShouldBe { actual: Type::Boolean, expected: Type::Field, span: sp(2) },
        ]
    );
    let counts = ds.iter().filter(|d| matches!(d, Diagnostic::IncorrectNumArgs { .. })).count();
    assert_eq!(counts, 1);
}

#[test]
fn call_well_typed_and_unknown_function() {
    let (r, ds) = run(&call(vec![field(2), boolean(3)]), Some(Type::Field));
    assert_eq!(r, Some(Type::Field));
    assert!(ds.is_empty());
    let e = Expression::Call(CallExpression { function: Box::new(ident(77, 1)), arguments: vec![], span: sp(0) });
    let (r, ds) = run(&e, None);
    assert_eq!(r, None);
    assert_eq!(ds, vec![Diagnostic::UnknownSymbol { kind: SymbolKind::Function, name: sym(77), span: sp(1) }]);
}

#[test]
fn unknown_variable_and_circuit_name() {
    let (r, ds) = run(&ident(55, 9), None);
    assert_eq!(r, None);
    assert_eq!(ds, vec![Diagnostic::UnknownSymbol { kind: SymbolKind::Variable, name: sym(55), span: sp(9) }]);
    let (r, ds) = run(&ident(POINT, 9), None);
    assert_eq!(r, Some(Type::Identifier(sym(POINT))));
    assert!(ds.is_empty());
}

fn core_call(ty: Type, name: u32, args: Vec<Expression>) -> Expression {
    Expression::Access(AccessExpression::AssociatedFunction(AssociatedFunction {
        ty,
        name: Identifier { name: sym(name), span: sp(1) },
        args,
        span: sp(0),
    }))
}

#[test]
fn core_instruction_calls() {
    let (r, ds) = run(&core_call(Type::Identifier(sym(HASHER)), HASH, vec![field(2)]), None);
    assert_eq!(r, Some(Type::Field));
    assert!(ds.is_empty());
    let (r, ds) = run(&core_call(Type::Identifier(sym(HASHER)), HASH, vec![ident(A8, 2), boolean(3)]), None);
    assert_eq!(r, Some(Type::Field));
    assert_eq!(
        ds,
        vec![
            Diagnostic::IncorrectNumArgs { expected: 1, actual: 2, span: sp(0) },
            Diagnostic::InvalidCoreArgument { circuit: sym(HASHER), function: sym(HASH), position: 1, actual: U8, span: sp(0) },
            Diagnostic::InvalidCoreArgument { circuit: sym(HASHER), function: sym(HASH), position: 2, actual: Type::Boolean, span: sp(0) },
        ]
    );
    let (r, ds) = run(&core_call(Type::Field, HASH, vec![]), None);
    assert_eq!(r, None);
    assert_eq!(ds, vec![Diagnostic::InvalidAccessExpression { span: sp(0) }]);
}

#[test]
fn member_access_is_not_checked() {
    let mut e = AccessExpression::Member(MemberAccess {
        inner: Box::new(ident(POINT, 1)),
        name: Identifier { name: sym(MEMBER_A), span: sp(2) },
        span: sp(0),
    });
    assert_eq!(e.span(), sp(0));
    e.set_span(sp(7));
    assert_eq!(e.span(), sp(7));
    let (r, ds) = run(&Expression::Access(e), Some(Type::Field));
    assert_eq!(r, None);
    assert!(ds.is_empty());
}

#[test]
fn error_placeholder_is_skipped() {
    let (r, ds) = run(&Expression::Error(ErrExpression { span: sp(0) }), Some(Type::Field));
    assert_eq!(r, None);
    assert!(ds.is_empty());
}

#[test]
fn destination_outside_operator_domain() {
    let e = binary(BinaryOperation::Div, field(1), field(2), 0);
    let (r, ds) = run(&e, Some(Type::Group));
    assert_eq!(r, Some(Type::Group));
    assert_eq!(
        ds,
        vec![
            Diagnostic::ExpectedOneTypeOf { class: TypeClass::FieldOrInteger, actual: Type::Group, span: sp(0) },
            Diagnostic::TypeShouldBe { actual: Type::Field, expected: Type::Group, span: sp(1) },
            Diagnostic::TypeShouldBe { actual: Type::Field, expected: Type::Group, span: sp(2) },
        ]
    );
}

#[test]
fn shift_amount_must_be_magnitude() {
    let e = binary(BinaryOperation::Shl, ident(C16, 1), ident(A8, 2), 0);
    let (r, ds) = run(&e, Some(U16));
    assert_eq!(r, Some(U16));
    assert!(ds.is_empty());
    let e = binary(BinaryOperation::Shr, ident(A8, 1), ident(G, 2), 0);
    let (r, ds) = run(&e, None);
    assert_eq!(r, Some(U8));
    assert_eq!(ds, vec![Diagnostic::ExpectedOneTypeOf { class: TypeClass::Magnitude, actual: Type::Group, span: sp(2) }]);
}

#[test]
fn comparisons_yield_boolean() {
    let e = binary(BinaryOperation::Eq, ident(A8, 1), ident(C16, 2), 0);
    let (r, ds) = run(&e, None);
    assert_eq!(r, Some(Type::Boolean));
    assert!(ds.is_empty());
    let e = binary(BinaryOperation::Eq, ident(FLAG, 1), field(2), 0);
    let (r, ds) = run(&e, Some(Type::Boolean));
    assert_eq!(r, Some(Type::Boolean));
    assert_eq!(ds, vec![Diagnostic::TypeShouldBe { actual: Type::Boolean, expected: Type::Field, span: sp(0) }]);
    let e = binary(BinaryOperation::Lt, field(1), ident(A8, 2), 0);
    let (r, ds) = run(&e, Some(Type::Field));
    assert_eq!(r, Some(Type::Boolean));
    assert_eq!(
        ds,
        vec![
            Diagnostic::TypeShouldBe { actual: U8, expected: Type::Field, span: sp(1) },
            Diagnostic::TypeShouldBe { actual: Type::Field, expected: Type::Boolean, span: sp(0) },
        ]
    );
}

#[test]
fn power_rules() {
    let e = binary(BinaryOperation::Pow, field(1), field(2), 0);
    let (r, ds) = run(&e, None);
    assert_eq!(r, Some(Type::Field));
    assert!(ds.is_empty());
    let e = binary(BinaryOperation::Pow, ident(C16, 1), ident(A8, 2), 0);
    let (r, ds) = run(&e, None);
    assert_eq!(r, Some(U16));
    assert!(ds.is_empty());
}

#[test]
fn unary_domains() {
    let (r, ds) = run(&unary(UnaryOperation::Abs, ident(A8, 1), 0), Some(U8));
    assert_eq!(r, Some(U8));
    assert_eq!(ds, vec![Diagnostic::ExpectedOneTypeOf { class: TypeClass::SignedInteger, actual: U8, span: sp(0) }]);
    let (r, ds) = run(&unary(UnaryOperation::Inverse, field(1), 0), None);
    assert_eq!(r, Some(Type::Field));
    assert!(ds.is_empty());
    let (r, ds) = run(&unary(UnaryOperation::Not, ident(FLAG, 1), 0), Some(Type::Boolean));
    assert_eq!(r, Some(Type::Boolean));
    assert!(ds.is_empty());
}
