use vstd::prelude::*;
use crate::lookup::{first_index, first_with_key, Keyed};
use crate::types::{Span, Symbol, Type};

verus! {

/// A variable in scope, with its declared type.
#[derive(Clone, Copy, Debug, PartialEq, Eq, Structural)]
pub struct VariableSymbol {
    pub name: Symbol,
    pub type_: Type,
    pub span: Span,
}

/// A function signature: parameter types in order, and the return type.
#[derive(Debug)]
pub struct FunctionSymbol {
    pub name: Symbol,
    pub input: Vec<Type>,
    pub output: Type,
    pub span: Span,
}

/// A named, typed member of a circuit or record.
#[derive(Clone, Copy, Debug, PartialEq, Eq, Structural)]
pub struct CircuitMember {
    pub name: Symbol,
    pub type_: Type,
    pub span: Span,
}

/// A circuit or record declaration, its members in declaration order.
#[derive(Debug)]
pub struct CircuitSymbol {
    pub identifier: Symbol,
    pub members: Vec<CircuitMember>,
    pub span: Span,
}

/// A built-in associated function of a primitive type: its arity, the types
/// allowed for its first and second arguments, and its return type.
#[derive(Debug)]
pub struct CoreInstruction {
    pub circuit: Symbol,
    pub function: Symbol,
    pub num_args: usize,
    pub first_arg_types: Vec<Type>,
    pub second_arg_types: Vec<Type>,
    pub return_type: Type,
}

/// The declarations visible to the checker. Lookups return the first entry
/// with the name asked for.
#[derive(Debug)]
pub struct SymbolTable {
    pub variables: Vec<VariableSymbol>,
    pub functions: Vec<FunctionSymbol>,
    pub circuits: Vec<CircuitSymbol>,
    pub core_instructions: Vec<CoreInstruction>,
}

impl Keyed<Symbol> for VariableSymbol {
    open spec fn key(&self) -> Symbol {
        self.name
    }

    fn has_key(&self, k: &Symbol) -> (r: bool) {
        self.name == *k
    }
}

impl Keyed<Symbol> for FunctionSymbol {
    open spec fn key(&self) -> Symbol {
        self.name
    }

    fn has_key(&self, k: &Symbol) -> (r: bool) {
        self.name == *k
    }
}

impl Keyed<Symbol> for CircuitSymbol {
    open spec fn key(&self) -> Symbol {
        self.identifier
    }

    fn has_key(&self, k: &Symbol) -> (r: bool) {
        self.identifier == *k
    }
}

/// A core instruction is keyed by its circuit and its function name.
impl Keyed<(Symbol, Symbol)> for CoreInstruction {
    open spec fn key(&self) -> (Symbol, Symbol) {
        (self.circuit, self.function)
    }

    fn has_key(&self, k: &(Symbol, Symbol)) -> (r: bool) {
        self.circuit == k.0 && self.function == k.1
    }
}

/// Index of the first variable named `name`.
pub open spec fn find_variable(vs: Seq<VariableSymbol>, name: Symbol) -> Option<int> {
    first_with_key(vs, name)
}

/// Index of the first function named `name`.
pub open spec fn find_function(fs: Seq<FunctionSymbol>, name: Symbol) -> Option<int> {
    first_with_key(fs, name)
}

/// Index of the first circuit or record named `name`.
pub open spec fn find_circuit(cs: Seq<CircuitSymbol>, name: Symbol) -> Option<int> {
    first_with_key(cs, name)
}

/// Index of the first core instruction of circuit `c` named `f`.
pub open spec fn find_core(is: Seq<CoreInstruction>, c: Symbol, f: Symbol) -> Option<int> {
    first_with_key(is, (c, f))
}

impl SymbolTable {
    pub fn lookup_variable(&self, name: Symbol) -> (r: Option<usize>)
        ensures
            match r {
                Some(i) => find_variable(self.variables@, name) == Some(i as int) && i < self.variables.len(),
                None => find_variable(self.variables@, name) is None,
            },
    {
        first_index(&self.variables, &name)
    }

    pub fn lookup_function(&self, name: Symbol) -> (r: Option<usize>)
        ensures
            match r {
                Some(i) => find_function(self.functions@, name) == Some(i as int) && i < self.functions.len(),
                None => find_function(self.functions@, name) is None,
            },
    {
        first_index(&self.functions, &name)
    }

    pub fn lookup_circuit(&self, name: Symbol) -> (r: Option<usize>)
        ensures
            match r {
                Some(i) => find_circuit(self.circuits@, name) == Some(i as int) && i < self.circuits.len(),
                None => find_circuit(self.circuits@, name) is None,
            },
    {
        first_index(&self.circuits, &name)
    }

    pub fn lookup_core_instruction(&self, circuit: Symbol, function: Symbol) -> (r: Option<usize>)
        ensures
            match r {
                Some(i) => find_core(self.core_instructions@, circuit, function) == Some(i as int)
                    && i < self.core_instructions.len(),
                None => find_core(self.core_instructions@, circuit, function) is None,
            },
    {
        first_index(&self.core_instructions, &(circuit, function))
    }
}

} // verus!
