use compiler::lexer::Token;
use compiler::lowering::{
    alloca_type, arith_instruction, array_alloca_type, concrete_array_type, first_anonymous_statement,
    is_externally_linked, llvm_basic_type, llvm_type, logic_instruction, parameter_type, return_type,
    ArithInstruction, FloatPredicate, IntPredicate, LlvmType, LogicInstruction, OperandKind,
};
use compiler::parser::parser::Parser;
use compiler::parser::visitors::{Binary, BinaryLogic, Expression, Statement};
use compiler::value_type::{StaticArray, ValueType};

fn parse(source: &str) -> Vec<Statement> {
    let tokens = Token::lex_string(source);
    let mut parser = Parser::new(tokens, "");
    match parser.parse() {
        Some(stmts) => stmts,
        None => panic!("Parser failed!"),
    }
}

fn array_of(size: usize, element: ValueType) -> StaticArray {
    StaticArray {
        size,
        array_type: Box::new(element),
    }
}

fn is_pointer_to_int64(t: &LlvmType) -> bool {
    match t {
        LlvmType::Pointer(x) => matches!(**x, LlvmType::Int64),
        _ => false,
    }
}

#[test]
fn scalar_types_lower_directly() {
    assert!(matches!(llvm_type(&ValueType::Number), Some(LlvmType::Int64)));
    assert!(matches!(llvm_type(&ValueType::Real), Some(LlvmType::Float64)));
    assert!(matches!(llvm_type(&ValueType::Bool), Some(LlvmType::Bool)));
    assert!(matches!(llvm_type(&ValueType::Char), Some(LlvmType::Int8)));
    assert!(matches!(llvm_type(&ValueType::Void), Some(LlvmType::Void)));
    assert!(llvm_type(&ValueType::Function).is_none());
    assert!(llvm_type(&ValueType::Struct("S".to_string())).is_none());
}

#[test]
fn strings_and_null_are_pointers() {
    match llvm_type(&ValueType::String) {
        Some(LlvmType::Pointer(x)) => assert!(matches!(*x, LlvmType::Int8)),
        other => panic!("unexpected {:?}", other),
    }
    assert!(is_pointer_to_int64(&llvm_type(&ValueType::Null).unwrap()));
}

#[test]
fn void_pointer_becomes_int64_pointer() {
    let t = llvm_type(&ValueType::Pointer(Box::new(ValueType::Void))).unwrap();
    assert!(is_pointer_to_int64(&t));
    let t = llvm_type(&ValueType::Pointer(Box::new(ValueType::Real))).unwrap();
    match t {
        LlvmType::Pointer(x) => assert!(matches!(*x, LlvmType::Float64)),
        other => panic!("unexpected {:?}", other),
    }
}

#[test]
fn nested_arrays_take_the_innermost_array_type() {
    let t = ValueType::Array(array_of(3, ValueType::Array(array_of(2, ValueType::Real))));
    match llvm_type(&t) {
        Some(LlvmType::Array(x, 2)) => assert!(matches!(*x, LlvmType::Float64)),
        other => panic!("unexpected {:?}", other),
    }
    let a = array_of(5, ValueType::Number);
    assert!(is_pointer_to_int64(&concrete_array_type(&a).unwrap()));
    assert!(concrete_array_type(&array_of(5, ValueType::Void)).is_none());
}

#[test]
fn field_types_exclude_void_and_null() {
    assert!(llvm_basic_type(&ValueType::Void).is_none());
    assert!(llvm_basic_type(&ValueType::Null).is_none());
    assert!(llvm_basic_type(&ValueType::Function).is_none());
    assert!(matches!(llvm_basic_type(&ValueType::Number), Some(LlvmType::Int64)));
}

#[test]
fn variable_slots() {
    let numbers = ValueType::Array(array_of(4, ValueType::Number));
    assert!(is_pointer_to_int64(&alloca_type(&numbers).unwrap()));
    match alloca_type(&ValueType::Struct("Point".to_string())) {
        Some(LlvmType::Struct(name)) => assert_eq!(name, "Point"),
        other => panic!("unexpected {:?}", other),
    }
    assert!(alloca_type(&ValueType::Void).is_none());
    match array_alloca_type(&array_of(4, ValueType::Number)) {
        Some(LlvmType::Array(x, 4)) => assert!(matches!(*x, LlvmType::Int64)),
        other => panic!("unexpected {:?}", other),
    }
    assert!(matches!(array_alloca_type(&array_of(4, ValueType::Real)), Some(LlvmType::Float64)));
    assert!(array_alloca_type(&array_of(4, ValueType::String)).is_none());
}

#[test]
fn function_signatures() {
    let numbers = ValueType::Array(array_of(4, ValueType::Number));
    assert!(is_pointer_to_int64(&parameter_type(&numbers).unwrap()));
    assert!(parameter_type(&ValueType::Void).is_none());
    assert!(matches!(return_type(&ValueType::Void), Some(LlvmType::Void)));
    assert!(return_type(&ValueType::String).is_none());
    assert!(return_type(&numbers).is_none());
}

#[test]
fn linkage_of_functions() {
    let stmts = parse("fn main(): void {} export fn f(): void {} fn g(): void {}");
    let linked: Vec<bool> = stmts
        .iter()
        .map(|s| match s {
            Statement::Function(f) => is_externally_linked(f),
            _ => panic!("expected functions"),
        })
        .collect();
    assert_eq!(linked, vec![true, true, false]);
}

fn logic_ops(source: &str) -> Vec<BinaryLogic> {
    parse(source)
        .into_iter()
        .map(|s| match s {
            Statement::Expression(Expression::BinaryLogic(op)) => op,
            _ => panic!("expected a logical operation"),
        })
        .collect()
}

fn arith_ops(source: &str) -> Vec<Binary> {
    parse(source)
        .into_iter()
        .map(|s| match s {
            Statement::Expression(Expression::Binary(op)) => op,
            _ => panic!("expected an arithmetic operation"),
        })
        .collect()
}

#[test]
fn numbers_compare_signed_and_reals_ordered() {
    let ops = logic_ops("1 < 2; 1 == 2; 1 >= 2; 1 != 2; 1 > 2; 1 <= 2; true and false; true or false;");
    assert!(matches!(logic_instruction(&ops[0], OperandKind::Int), LogicInstruction::IntCompare(IntPredicate::SignedLess)));
    assert!(matches!(logic_instruction(&ops[1], OperandKind::Int), LogicInstruction::IntCompare(IntPredicate::Eq)));
    assert!(matches!(logic_instruction(&ops[2], OperandKind::Int), LogicInstruction::IntCompare(IntPredicate::SignedGreaterEqual)));
    assert!(matches!(logic_instruction(&ops[3], OperandKind::Int), LogicInstruction::IntCompare(IntPredicate::Ne)));
    assert!(matches!(logic_instruction(&ops[4], OperandKind::Int), LogicInstruction::IntCompare(IntPredicate::SignedGreater)));
    assert!(matches!(logic_instruction(&ops[5], OperandKind::Int), LogicInstruction::IntCompare(IntPredicate::SignedLessEqual)));
    assert!(matches!(logic_instruction(&ops[0], OperandKind::Float), LogicInstruction::FloatCompare(FloatPredicate::OrderedLess)));
    assert!(matches!(logic_instruction(&ops[3], OperandKind::Float), LogicInstruction::FloatCompare(FloatPredicate::OrderedNe)));
    assert!(matches!(logic_instruction(&ops[6], OperandKind::Int), LogicInstruction::And));
    assert!(matches!(logic_instruction(&ops[7], OperandKind::Float), LogicInstruction::Or));
}

#[test]
fn numbers_divide_signed() {
    let ops = arith_ops("1 + 2; 1 - 2; 1 * 2; 1 / 2; 1 % 2;");
    assert!(matches!(arith_instruction(&ops[0], OperandKind::Int), ArithInstruction::IntAdd));
    assert!(matches!(arith_instruction(&ops[1], OperandKind::Int), ArithInstruction::IntSub));
    assert!(matches!(arith_instruction(&ops[2], OperandKind::Int), ArithInstruction::IntMul));
    assert!(matches!(arith_instruction(&ops[3], OperandKind::Int), ArithInstruction::IntSignedDiv));
    assert!(matches!(arith_instruction(&ops[4], OperandKind::Int), ArithInstruction::IntSignedRem));
    assert!(matches!(arith_instruction(&ops[3], OperandKind::Float), ArithInstruction::FloatDiv));
    assert!(matches!(arith_instruction(&ops[4], OperandKind::Float), ArithInstruction::FloatRem));
}

#[test]
fn anonymous_code_starts_after_declarations() {
    let stmts = parse("struct S { x: number; } fn f(): void {} let a: number = 1; fn g(): void {}");
    assert_eq!(first_anonymous_statement(&stmts), Some(2));
    let stmts = parse("fn f(): void {}");
    assert_eq!(first_anonymous_statement(&stmts), None);
    assert_eq!(first_anonymous_statement(&Vec::new()), None);
}
