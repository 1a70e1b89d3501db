use vstd::prelude::*;

verus! {

/// An interned name: identifiers are compared by their index alone.
#[derive(Clone, Copy, Debug, PartialEq, Eq, Structural, Hash)]
pub struct Symbol {
    pub id: u32,
}

/// A source range, used only to place diagnostics.
#[derive(Clone, Copy, Debug, PartialEq, Eq, Structural, Hash)]
pub struct Span {
    pub lo: u32,
    pub hi: u32,
}

/// Width and signedness of an integer type.
#[derive(Clone, Copy, Debug, PartialEq, Eq, Structural, Hash)]
pub enum IntegerType {
    I8,
    I16,
    I32,
    I64,
    I128,
    U8,
    U16,
    U32,
    U64,
    U128,
}

/// The semantic types of the language. Equality is structural: there is no
/// subtyping and no implicit widening.
#[derive(Clone, Copy, Debug, PartialEq, Eq, Structural, Hash)]
pub enum Type {
    Address,
    Boolean,
    Field,
    Group,
    Scalar,
    String,
    IntegerType(IntegerType),
    /// A user-declared circuit or record, by name.
    Identifier(Symbol),
}

/// The fixed groups of types that operators accept.
#[derive(Clone, Copy, Debug, PartialEq, Eq, Structural, Hash)]
pub enum TypeClass {
    BooleanOrInteger,
    FieldGroupScalarOrInteger,
    FieldGroupOrInteger,
    FieldOrInteger,
    SignedInteger,
    Integer,
    /// 8, 16 or 32-bit unsigned integers: shift amounts and exponents.
    Magnitude,
    FieldOrGroup,
    FieldOrScalar,
}

pub open spec fn is_signed(i: IntegerType) -> bool {
    matches!(i, IntegerType::I8 | IntegerType::I16 | IntegerType::I32 | IntegerType::I64 | IntegerType::I128)
}

pub open spec fn is_magnitude(i: IntegerType) -> bool {
    matches!(i, IntegerType::U8 | IntegerType::U16 | IntegerType::U32)
}

/// Membership of a type in a class.
pub open spec fn in_class(t: Type, c: TypeClass) -> bool {
    let is_int = t is IntegerType;
    match c {
        TypeClass::BooleanOrInteger => t == Type::Boolean || is_int,
        TypeClass::FieldGroupScalarOrInteger => t == Type::Field || t == Type::Group || t == Type::Scalar || is_int,
        TypeClass::FieldGroupOrInteger => t == Type::Field || t == Type::Group || is_int,
        TypeClass::FieldOrInteger => t == Type::Field || is_int,
        TypeClass::SignedInteger => is_int && is_signed(t->IntegerType_0),
        TypeClass::Integer => is_int,
        TypeClass::Magnitude => is_int && is_magnitude(t->IntegerType_0),
        TypeClass::FieldOrGroup => t == Type::Field || t == Type::Group,
        TypeClass::FieldOrScalar => t == Type::Field || t == Type::Scalar,
    }
}

/// Types that the negation operator accepts.
pub open spec fn is_negatable(t: Type) -> bool {
    t == Type::Field || t == Type::Group || (t is IntegerType && is_signed(t->IntegerType_0))
}

impl IntegerType {
    pub fn is_signed(&self) -> (r: bool)
        ensures
            r == is_signed(*self),
    {
        match self {
            IntegerType::I8 | IntegerType::I16 | IntegerType::I32 | IntegerType::I64 | IntegerType::I128 => true,
            _ => false,
        }
    }

    pub fn is_magnitude(&self) -> (r: bool)
        ensures
            r == is_magnitude(*self),
    {
        match self {
            IntegerType::U8 | IntegerType::U16 | IntegerType::U32 => true,
            _ => false,
        }
    }
}

impl Type {
    pub fn is_integer(&self) -> (r: bool)
        ensures
            r == (*self is IntegerType),
    {
        match self {
            Type::IntegerType(_) => true,
            _ => false,
        }
    }

    /// Whether this type belongs to the class `c`.
    pub fn is_in(&self, c: TypeClass) -> (r: bool)
        ensures
            r == in_class(*self, c),
    {
        let t = *self;
        match c {
            TypeClass::BooleanOrInteger => t == Type::Boolean || t.is_integer(),
            TypeClass::FieldGroupScalarOrInteger => t == Type::Field || t == Type::Group || t == Type::Scalar
                || t.is_integer(),
            TypeClass::FieldGroupOrInteger => t == Type::Field || t == Type::Group || t.is_integer(),
            TypeClass::FieldOrInteger => t == Type::Field || t.is_integer(),
            TypeClass::SignedInteger => match t {
                Type::IntegerType(i) => i.is_signed(),
                _ => false,
            },
            TypeClass::Integer => t.is_integer(),
            TypeClass::Magnitude => match t {
                Type::IntegerType(i) => i.is_magnitude(),
                _ => false,
            },
            TypeClass::FieldOrGroup => t == Type::Field || t == Type::Group,
            TypeClass::FieldOrScalar => t == Type::Field || t == Type::Scalar,
        }
    }

    pub fn is_negatable(&self) -> (r: bool)
        ensures
            r == is_negatable(*self),
    {
        match self {
            Type::Field | Type::Group => true,
            Type::IntegerType(i) => i.is_signed(),
            _ => false,
        }
    }
}

} // verus!
