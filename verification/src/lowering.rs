use vstd::prelude::*;
use crate::parser::visitors::{ArithOp, Binary, BinaryLogic, Expression, FunctionStatement, LogicOp, SExpr, Statement, expr_view};
use crate::value_type::{StaticArray, ValueType, type_size};

verus! {

/// The LLVM types that the code generator builds for Light values.
#[derive(Debug)]
pub enum LlvmType {
    Int64,
    Float64,
    /// `i1`.
    Bool,
    Int8,
    Void,
    Pointer(Box<LlvmType>),
    /// An array of `size` elements.
    Array(Box<LlvmType>, usize),
    /// A named struct type, declared by a `struct` statement.
    Struct(String),
}

/// How a Light string is held: a pointer to `i8`.
pub open spec fn string_type() -> LlvmType {
    LlvmType::Pointer(Box::new(LlvmType::Int8))
}

/// A pointer to `t`. LLVM has no pointer to `void`: an `i64` pointer stands
/// for one.
pub open spec fn pointer_to(t: LlvmType) -> LlvmType {
    match t {
        LlvmType::Void => LlvmType::Pointer(Box::new(LlvmType::Int64)),
        _ => LlvmType::Pointer(Box::new(t)),
    }
}

/// The LLVM array type of a Light array. An array of arrays takes the type
/// of its innermost array.
pub open spec fn array_lowering(a: StaticArray) -> Option<LlvmType>
    decreases type_size(*a.array_type),
{
    match *a.array_type {
        ValueType::Array(inner) => array_lowering(inner),
        ValueType::Number => Some(LlvmType::Array(Box::new(LlvmType::Int64), a.size)),
        ValueType::Real => Some(LlvmType::Array(Box::new(LlvmType::Float64), a.size)),
        ValueType::Bool => Some(LlvmType::Array(Box::new(LlvmType::Bool), a.size)),
        ValueType::Char => Some(LlvmType::Array(Box::new(LlvmType::Int8), a.size)),
        ValueType::String => Some(LlvmType::Array(Box::new(string_type()), a.size)),
        _ => None,
    }
}

/// How an array is passed around: a pointer to its elements (the innermost
/// ones for an array of arrays).
pub open spec fn concrete_array_lowering(a: StaticArray) -> Option<LlvmType>
    decreases type_size(*a.array_type),
{
    match *a.array_type {
        ValueType::Array(inner) => concrete_array_lowering(inner),
        ValueType::Number => Some(pointer_to(LlvmType::Int64)),
        ValueType::Real => Some(pointer_to(LlvmType::Float64)),
        ValueType::Bool => Some(pointer_to(LlvmType::Bool)),
        ValueType::Char => Some(pointer_to(LlvmType::Int8)),
        ValueType::String => Some(pointer_to(string_type())),
        _ => None,
    }
}

/// The LLVM type of a Light type; `None` for the types that the generator
/// does not lower (functions and structs).
pub open spec fn type_lowering(t: ValueType) -> Option<LlvmType>
    decreases t,
{
    match t {
        ValueType::Array(a) => array_lowering(a),
        ValueType::Number => Some(LlvmType::Int64),
        ValueType::Real => Some(LlvmType::Float64),
        ValueType::Bool => Some(LlvmType::Bool),
        ValueType::Char => Some(LlvmType::Int8),
        ValueType::String => Some(string_type()),
        ValueType::Function => None,
        ValueType::Pointer(p) => match type_lowering(*p) {
            Some(x) => Some(pointer_to(x)),
            None => None,
        },
        ValueType::Void => Some(LlvmType::Void),
        ValueType::Null => Some(pointer_to(LlvmType::Int64)),
        ValueType::Struct(_) => None,
    }
}

/// The type of a struct field: a lowered type that can hold a value.
pub open spec fn basic_lowering(t: ValueType) -> Option<LlvmType> {
    match t {
        ValueType::Function | ValueType::Void | ValueType::Null => None,
        _ => type_lowering(t),
    }
}

/// The type of the stack slot of a variable: arrays are held through a
/// pointer to their elements, structs by their declared type.
pub open spec fn alloca_lowering(t: ValueType) -> Option<LlvmType> {
    match t {
        ValueType::Array(a) => match *a.array_type {
            ValueType::Number => Some(pointer_to(LlvmType::Int64)),
            ValueType::Real => Some(pointer_to(LlvmType::Float64)),
            ValueType::Bool => Some(pointer_to(LlvmType::Bool)),
            ValueType::Char | ValueType::String => Some(pointer_to(LlvmType::Int8)),
            _ => None,
        },
        ValueType::Struct(s) => Some(LlvmType::Struct(s)),
        ValueType::Function | ValueType::Void | ValueType::Null => None,
        _ => type_lowering(t),
    }
}

/// The element type of the stack allocation of a declared array.
pub open spec fn array_alloca_lowering(a: StaticArray) -> Option<LlvmType> {
    match *a.array_type {
        ValueType::Number => Some(LlvmType::Array(Box::new(LlvmType::Int64), a.size)),
        ValueType::Real => Some(LlvmType::Float64),
        ValueType::Bool => Some(LlvmType::Bool),
        ValueType::Char => Some(LlvmType::Int8),
        _ => None,
    }
}

/// The type of a function parameter.
pub open spec fn parameter_lowering(t: ValueType) -> Option<LlvmType> {
    match t {
        ValueType::Array(a) => concrete_array_lowering(a),
        ValueType::Struct(s) => Some(LlvmType::Struct(s)),
        ValueType::Function | ValueType::Void | ValueType::Null => None,
        _ => type_lowering(t),
    }
}

/// The return type of a function.
pub open spec fn return_lowering(t: ValueType) -> Option<LlvmType> {
    match t {
        ValueType::Number | ValueType::Real | ValueType::Bool | ValueType::Char | ValueType::Void
        | ValueType::Pointer(_) => type_lowering(t),
        _ => None,
    }
}

/// A lowered type that LLVM accepts: no pointer to `void`, no array of
/// `void`, no `void` inside a pointer or an array.
pub open spec fn valid_llvm_type(t: LlvmType) -> bool
    decreases t,
{
    match t {
        LlvmType::Pointer(x) => !(*x is Void) && valid_llvm_type(*x),
        LlvmType::Array(x, _) => !(*x is Void) && valid_llvm_type(*x),
        _ => true,
    }
}

/// Every lowered array type is valid.
proof fn lemma_array_lowering_valid(a: StaticArray)
    ensures
        array_lowering(a) matches Some(x) ==> valid_llvm_type(x) && x is Array,
        concrete_array_lowering(a) matches Some(x) ==> valid_llvm_type(x) && x is Pointer,
    decreases type_size(*a.array_type),
{
    reveal_with_fuel(valid_llvm_type, 3);
    match *a.array_type {
        ValueType::Array(inner) => lemma_array_lowering_valid(inner),
        _ => {},
    }
}

/// The generator never asks LLVM for a pointer to `void` or an array of
/// `void`: every type it lowers a Light type to, for a value, a slot, a
/// parameter or a return value, is valid.
pub proof fn law_lowered_types_are_valid(t: ValueType)
    ensures
        type_lowering(t) matches Some(x) ==> valid_llvm_type(x),
        basic_lowering(t) matches Some(x) ==> valid_llvm_type(x) && !(x is Void),
        alloca_lowering(t) matches Some(x) ==> valid_llvm_type(x) && !(x is Void),
        parameter_lowering(t) matches Some(x) ==> valid_llvm_type(x) && !(x is Void),
        return_lowering(t) matches Some(x) ==> valid_llvm_type(x),
    decreases t,
{
    reveal_with_fuel(valid_llvm_type, 3);
    match t {
        ValueType::Array(a) => {
            lemma_array_lowering_valid(a);
        },
        ValueType::Pointer(p) => {
            law_lowered_types_are_valid(*p);
        },
        _ => {},
    }
}

/// Numbers are 64-bit integers, reals 64-bit floats, booleans `i1`, chars
/// 8-bit integers and strings pointers to them; a pointer lowers to a pointer
/// to what its target lowers to, an `i64` standing for `void`; functions and
/// structs are not lowered as values.
pub proof fn law_value_lowering(t: ValueType)
    ensures
        t is Number ==> type_lowering(t) == Some(LlvmType::Int64),
        t is Real ==> type_lowering(t) == Some(LlvmType::Float64),
        t is Bool ==> type_lowering(t) == Some(LlvmType::Bool),
        t is Char ==> type_lowering(t) == Some(LlvmType::Int8),
        t is String ==> type_lowering(t) == Some(LlvmType::Pointer(Box::new(LlvmType::Int8))),
        t is Void ==> type_lowering(t) == Some(LlvmType::Void),
        t is Function || t is Struct ==> type_lowering(t) is None,
        t matches ValueType::Pointer(p) ==> type_lowering(t) == match type_lowering(*p) {
            Some(LlvmType::Void) => Some(LlvmType::Pointer(Box::new(LlvmType::Int64))),
            Some(x) => Some(LlvmType::Pointer(Box::new(x))),
            None => None,
        },
{
}

/// A value type is held in a field as it is anywhere else.
pub proof fn law_basic_lowering_agrees(t: ValueType)
    ensures
        basic_lowering(t) matches Some(x) ==> type_lowering(t) == Some(x),
{
}

/// A Light string.
fn string_llvm() -> (r: LlvmType)
    ensures
        r == string_type(),
{
    LlvmType::Pointer(Box::new(LlvmType::Int8))
}

/// A pointer to `t`, `i64*` in place of `void*`.
pub fn pointer_type(t: LlvmType) -> (r: LlvmType)
    ensures
        r == pointer_to(t),
{
    match t {
        LlvmType::Void => LlvmType::Pointer(Box::new(LlvmType::Int64)),
        _ => LlvmType::Pointer(Box::new(t)),
    }
}

/// The LLVM array type of a Light array.
pub fn llvm_array_type(a: &StaticArray) -> (r: Option<LlvmType>)
    ensures
        r == array_lowering(*a),
    decreases type_size(*a.array_type),
{
    match &*a.array_type {
        ValueType::Array(inner) => llvm_array_type(inner),
        ValueType::Number => Some(LlvmType::Array(Box::new(LlvmType::Int64), a.size)),
        ValueType::Real => Some(LlvmType::Array(Box::new(LlvmType::Float64), a.size)),
        ValueType::Bool => Some(LlvmType::Array(Box::new(LlvmType::Bool), a.size)),
        ValueType::Char => Some(LlvmType::Array(Box::new(LlvmType::Int8), a.size)),
        ValueType::String => Some(LlvmType::Array(Box::new(string_llvm()), a.size)),
        _ => None,
    }
}

/// The pointer type through which an array is passed.
pub fn concrete_array_type(a: &StaticArray) -> (r: Option<LlvmType>)
    ensures
        r == concrete_array_lowering(*a),
    decreases type_size(*a.array_type),
{
    match &*a.array_type {
        ValueType::Array(inner) => concrete_array_type(inner),
        ValueType::Number => Some(pointer_type(LlvmType::Int64)),
        ValueType::Real => Some(pointer_type(LlvmType::Float64)),
        ValueType::Bool => Some(pointer_type(LlvmType::Bool)),
        ValueType::Char => Some(pointer_type(LlvmType::Int8)),
        ValueType::String => Some(pointer_type(string_llvm())),
        _ => None,
    }
}

/// The LLVM type of a Light type.
pub fn llvm_type(t: &ValueType) -> (r: Option<LlvmType>)
    ensures
        r == type_lowering(*t),
    decreases *t,
{
    match t {
        ValueType::Array(a) => llvm_array_type(a),
        ValueType::Number => Some(LlvmType::Int64),
        ValueType::Real => Some(LlvmType::Float64),
        ValueType::Bool => Some(LlvmType::Bool),
        ValueType::Char => Some(LlvmType::Int8),
        ValueType::String => Some(string_llvm()),
        ValueType::Function => None,
        ValueType::Pointer(p) => match llvm_type(p) {
            Some(x) => Some(pointer_type(x)),
            None => None,
        },
        ValueType::Void => Some(LlvmType::Void),
        ValueType::Null => Some(pointer_type(LlvmType::Int64)),
        ValueType::Struct(_) => None,
    }
}

/// The type of a struct field.
pub fn llvm_basic_type(t: &ValueType) -> (r: Option<LlvmType>)
    ensures
        r == basic_lowering(*t),
{
    match t {
        ValueType::Function | ValueType::Void | ValueType::Null => None,
        _ => llvm_type(t),
    }
}

/// The type of the stack slot of a variable.
pub fn alloca_type(t: &ValueType) -> (r: Option<LlvmType>)
    ensures
        r == alloca_lowering(*t),
{
    match t {
        ValueType::Array(a) => match &*a.array_type {
            ValueType::Number => Some(pointer_type(LlvmType::Int64)),
            ValueType::Real => Some(pointer_type(LlvmType::Float64)),
            ValueType::Bool => Some(pointer_type(LlvmType::Bool)),
            ValueType::Char | ValueType::String => Some(pointer_type(LlvmType::Int8)),
            _ => None,
        },
        ValueType::Struct(s) => Some(LlvmType::Struct(s.clone())),
        ValueType::Function | ValueType::Void | ValueType::Null => None,
        _ => llvm_type(t),
    }
}

/// The element type of the stack allocation of a declared array.
pub fn array_alloca_type(a: &StaticArray) -> (r: Option<LlvmType>)
    ensures
        r == array_alloca_lowering(*a),
{
    match &*a.array_type {
        ValueType::Number => Some(LlvmType::Array(Box::new(LlvmType::Int64), a.size)),
        ValueType::Real => Some(LlvmType::Float64),
        ValueType::Bool => Some(LlvmType::Bool),
        ValueType::Char => Some(LlvmType::Int8),
        _ => None,
    }
}

/// The type of a function parameter.
pub fn parameter_type(t: &ValueType) -> (r: Option<LlvmType>)
    ensures
        r == parameter_lowering(*t),
{
    match t {
        ValueType::Array(a) => concrete_array_type(a),
        ValueType::Struct(s) => Some(LlvmType::Struct(s.clone())),
        ValueType::Function | ValueType::Void | ValueType::Null => None,
        _ => llvm_type(t),
    }
}

/// The return type of a function.
pub fn return_type(t: &ValueType) -> (r: Option<LlvmType>)
    ensures
        r == return_lowering(*t),
{
    match t {
        ValueType::Number | ValueType::Real | ValueType::Bool | ValueType::Char | ValueType::Void
        | ValueType::Pointer(_) => llvm_type(t),
        _ => None,
    }
}

/// A function is visible outside its module when it is exported; `main` is
/// always visible.
pub fn is_externally_linked(f: &FunctionStatement) -> (r: bool)
    ensures
        r == (f.is_exported || f.callee@ == "main"@),
{
    f.is_exported || crate::text::str_eq(f.callee.as_str(), "main")
}

/// The kind of value the left operand of an operation lowers to: numbers,
/// booleans and characters are integers, reals are floating point.
#[derive(Debug)]
pub enum OperandKind {
    Int,
    Float,
}

/// Integer comparisons. Light numbers are signed 64-bit integers, so the
/// orderings compare signed.
#[derive(Debug)]
pub enum IntPredicate {
    Eq,
    Ne,
    SignedGreater,
    SignedLess,
    SignedGreaterEqual,
    SignedLessEqual,
}

/// Floating-point comparisons, all ordered (false when an operand is NaN).
#[derive(Debug)]
pub enum FloatPredicate {
    OrderedEq,
    OrderedNe,
    OrderedGreater,
    OrderedLess,
    OrderedGreaterEqual,
    OrderedLessEqual,
}

/// The instruction for a logical operation.
#[derive(Debug)]
pub enum LogicInstruction {
    And,
    Or,
    IntCompare(IntPredicate),
    FloatCompare(FloatPredicate),
}

/// The instruction for a logical operation whose left operand is of kind
/// `left`: `and` and `or` work on integers; a comparison compares integers
/// signed and reals ordered.
pub open spec fn logic_instruction_of(op: BinaryLogic, left: OperandKind) -> LogicInstruction {
    match op {
        BinaryLogic::And(..) => LogicInstruction::And,
        BinaryLogic::Or(..) => LogicInstruction::Or,
        BinaryLogic::Equal(..) => match left {
            OperandKind::Int => LogicInstruction::IntCompare(IntPredicate::Eq),
            OperandKind::Float => LogicInstruction::FloatCompare(FloatPredicate::OrderedEq),
        },
        BinaryLogic::NotEqual(..) => match left {
            OperandKind::Int => LogicInstruction::IntCompare(IntPredicate::Ne),
            OperandKind::Float => LogicInstruction::FloatCompare(FloatPredicate::OrderedNe),
        },
        BinaryLogic::More(..) => match left {
            OperandKind::Int => LogicInstruction::IntCompare(IntPredicate::SignedGreater),
            OperandKind::Float => LogicInstruction::FloatCompare(FloatPredicate::OrderedGreater),
        },
        BinaryLogic::Less(..) => match left {
            OperandKind::Int => LogicInstruction::IntCompare(IntPredicate::SignedLess),
            OperandKind::Float => LogicInstruction::FloatCompare(FloatPredicate::OrderedLess),
        },
        BinaryLogic::MoreEqual(..) => match left {
            OperandKind::Int => LogicInstruction::IntCompare(IntPredicate::SignedGreaterEqual),
            OperandKind::Float => LogicInstruction::FloatCompare(FloatPredicate::OrderedGreaterEqual),
        },
        BinaryLogic::LessEqual(..) => match left {
            OperandKind::Int => LogicInstruction::IntCompare(IntPredicate::SignedLessEqual),
            OperandKind::Float => LogicInstruction::FloatCompare(FloatPredicate::OrderedLessEqual),
        },
    }
}

/// The instruction for a logical operation.
pub fn logic_instruction(op: &BinaryLogic, left: OperandKind) -> (r: LogicInstruction)
    ensures
        r == logic_instruction_of(*op, left),
{
    let is_int: bool = match left {
        OperandKind::Int => true,
        OperandKind::Float => false,
    };
    match op {
        BinaryLogic::And(..) => LogicInstruction::And,
        BinaryLogic::Or(..) => LogicInstruction::Or,
        BinaryLogic::Equal(..) => if is_int {
            LogicInstruction::IntCompare(IntPredicate::Eq)
        } else {
            LogicInstruction::FloatCompare(FloatPredicate::OrderedEq)
        },
        BinaryLogic::NotEqual(..) => if is_int {
            LogicInstruction::IntCompare(IntPredicate::Ne)
        } else {
            LogicInstruction::FloatCompare(FloatPredicate::OrderedNe)
        },
        BinaryLogic::More(..) => if is_int {
            LogicInstruction::IntCompare(IntPredicate::SignedGreater)
        } else {
            LogicInstruction::FloatCompare(FloatPredicate::OrderedGreater)
        },
        BinaryLogic::Less(..) => if is_int {
            LogicInstruction::IntCompare(IntPredicate::SignedLess)
        } else {
            LogicInstruction::FloatCompare(FloatPredicate::OrderedLess)
        },
        BinaryLogic::MoreEqual(..) => if is_int {
            LogicInstruction::IntCompare(IntPredicate::SignedGreaterEqual)
        } else {
            LogicInstruction::FloatCompare(FloatPredicate::OrderedGreaterEqual)
        },
        BinaryLogic::LessEqual(..) => if is_int {
            LogicInstruction::IntCompare(IntPredicate::SignedLessEqual)
        } else {
            LogicInstruction::FloatCompare(FloatPredicate::OrderedLessEqual)
        },
    }
}

/// The instruction for an arithmetic operation.
#[derive(Debug)]
pub enum ArithInstruction {
    IntAdd,
    IntSub,
    IntMul,
    IntSignedDiv,
    IntSignedRem,
    FloatAdd,
    FloatSub,
    FloatMul,
    FloatDiv,
    FloatRem,
}

/// The instruction for an arithmetic operation whose left operand is of kind
/// `left`: numbers divide and take remainders signed.
pub open spec fn arith_instruction_of(op: Binary, left: OperandKind) -> ArithInstruction {
    match (op, left) {
        (Binary::Plus(..), OperandKind::Int) => ArithInstruction::IntAdd,
        (Binary::Minus(..), OperandKind::Int) => ArithInstruction::IntSub,
        (Binary::Multiply(..), OperandKind::Int) => ArithInstruction::IntMul,
        (Binary::Divide(..), OperandKind::Int) => ArithInstruction::IntSignedDiv,
        (Binary::Modulo(..), OperandKind::Int) => ArithInstruction::IntSignedRem,
        (Binary::Plus(..), OperandKind::Float) => ArithInstruction::FloatAdd,
        (Binary::Minus(..), OperandKind::Float) => ArithInstruction::FloatSub,
        (Binary::Multiply(..), OperandKind::Float) => ArithInstruction::FloatMul,
        (Binary::Divide(..), OperandKind::Float) => ArithInstruction::FloatDiv,
        (Binary::Modulo(..), OperandKind::Float) => ArithInstruction::FloatRem,
    }
}

/// The instruction for an arithmetic operation.
pub fn arith_instruction(op: &Binary, left: OperandKind) -> (r: ArithInstruction)
    ensures
        r == arith_instruction_of(*op, left),
{
    match left {
        OperandKind::Int => match op {
            Binary::Plus(..) => ArithInstruction::IntAdd,
            Binary::Minus(..) => ArithInstruction::IntSub,
            Binary::Multiply(..) => ArithInstruction::IntMul,
            Binary::Divide(..) => ArithInstruction::IntSignedDiv,
            Binary::Modulo(..) => ArithInstruction::IntSignedRem,
        },
        OperandKind::Float => match op {
            Binary::Plus(..) => ArithInstruction::FloatAdd,
            Binary::Minus(..) => ArithInstruction::FloatSub,
            Binary::Multiply(..) => ArithInstruction::FloatMul,
            Binary::Divide(..) => ArithInstruction::FloatDiv,
            Binary::Modulo(..) => ArithInstruction::FloatRem,
        },
    }
}

/// What an arithmetic instruction computes: the operation, and whether it
/// works on floating point.
pub open spec fn arith_instruction_meaning(i: ArithInstruction) -> (ArithOp, bool) {
    match i {
        ArithInstruction::IntAdd => (ArithOp::Plus, false),
        ArithInstruction::IntSub => (ArithOp::Minus, false),
        ArithInstruction::IntMul => (ArithOp::Multiply, false),
        ArithInstruction::IntSignedDiv => (ArithOp::Divide, false),
        ArithInstruction::IntSignedRem => (ArithOp::Modulo, false),
        ArithInstruction::FloatAdd => (ArithOp::Plus, true),
        ArithInstruction::FloatSub => (ArithOp::Minus, true),
        ArithInstruction::FloatMul => (ArithOp::Multiply, true),
        ArithInstruction::FloatDiv => (ArithOp::Divide, true),
        ArithInstruction::FloatRem => (ArithOp::Modulo, true),
    }
}

/// Whether an integer comparison holds of two signed numbers.
pub open spec fn int_predicate_holds(p: IntPredicate, a: int, b: int) -> bool {
    match p {
        IntPredicate::Eq => a == b,
        IntPredicate::Ne => a != b,
        IntPredicate::SignedGreater => a > b,
        IntPredicate::SignedLess => a < b,
        IntPredicate::SignedGreaterEqual => a >= b,
        IntPredicate::SignedLessEqual => a <= b,
    }
}

/// Whether an ordered floating-point comparison holds of two values that are
/// not NaN, taken in their order.
pub open spec fn float_predicate_holds(p: FloatPredicate, a: int, b: int) -> bool {
    match p {
        FloatPredicate::OrderedEq => a == b,
        FloatPredicate::OrderedNe => a != b,
        FloatPredicate::OrderedGreater => a > b,
        FloatPredicate::OrderedLess => a < b,
        FloatPredicate::OrderedGreaterEqual => a >= b,
        FloatPredicate::OrderedLessEqual => a <= b,
    }
}

/// The relation that a comparison operator of Light names.
pub open spec fn comparison_holds(op: LogicOp, a: int, b: int) -> bool {
    match op {
        LogicOp::Equal => a == b,
        LogicOp::NotEqual => a != b,
        LogicOp::More => a > b,
        LogicOp::Less => a < b,
        LogicOp::MoreEqual => a >= b,
        LogicOp::LessEqual => a <= b,
        _ => false,
    }
}

/// The instruction chosen for an arithmetic operator performs that operator,
/// on floating point exactly when the left operand is a real.
pub proof fn law_arith_instruction_performs_operator(op: Binary, left: OperandKind)
    ensures
        expr_view(Expression::Binary(op)) matches SExpr::Arith(a, _, _) && arith_instruction_meaning(
            arith_instruction_of(op, left),
        ) == (a, left is Float),
{
    reveal_with_fuel(expr_view, 1);
}

/// The instruction chosen for a logical operator: `and` and `or` are
/// themselves; a comparison compares integers or ordered reals, as the left
/// operand is, by the relation that the operator names.
pub proof fn law_logic_instruction_compares_by_operator(op: BinaryLogic, left: OperandKind)
    ensures
        expr_view(Expression::BinaryLogic(op)) matches SExpr::Logic(o, _, _) && {
            let ins = logic_instruction_of(op, left);
            &&& o == LogicOp::And ==> ins == LogicInstruction::And
            &&& o == LogicOp::Or ==> ins == LogicInstruction::Or
            &&& !(o == LogicOp::And || o == LogicOp::Or) && left is Int ==> (ins matches LogicInstruction::IntCompare(
                p,
            ) && forall|a: int, b: int| #[trigger] int_predicate_holds(p, a, b) == comparison_holds(o, a, b))
            &&& !(o == LogicOp::And || o == LogicOp::Or) && left is Float ==> (ins matches LogicInstruction::FloatCompare(
                p,
            ) && forall|a: int, b: int| #[trigger] float_predicate_holds(p, a, b) == comparison_holds(o, a, b))
        },
{
    reveal_with_fuel(expr_view, 1);
}

/// Statements that only declare: functions and structs.
pub open spec fn declares(s: Statement) -> bool {
    s is Function || s is Struct
}

/// Where the code at the top of a program starts: the first statement that
/// is not a function or a struct; the generator compiles it as the body of
/// an anonymous function and stops there.
pub fn first_anonymous_statement(stmts: &Vec<Statement>) -> (r: Option<usize>)
    ensures
        match r {
            Some(i) => i < stmts@.len() && !declares(stmts@[i as int]) && forall|j: int|
                0 <= j < i ==> declares(#[trigger] stmts@[j]),
            None => forall|j: int| 0 <= j < stmts@.len() ==> declares(#[trigger] stmts@[j]),
        },
{
    let mut i: usize = 0;
    while i < stmts.len()
        invariant
            i <= stmts@.len(),
            forall|j: int| 0 <= j < i ==> declares(#[trigger] stmts@[j]),
        decreases stmts@.len() - i,
    {
        match &stmts[i] {
            Statement::Function(_) | Statement::Struct(_) => {},
            _ => {
                return Some(i);
            },
        }
        i = i + 1;
    }
    None
}

} // verus!
