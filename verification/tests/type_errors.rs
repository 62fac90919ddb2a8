use compiler::lexer::Token;
use compiler::parser::parser::Parser;
use compiler::type_system::type_check::TypeChecker;

fn error_of(source: &str) -> String {
    let tokens = Token::lex_string(source);
    let mut parser = Parser::new(tokens, "");
    let mut ast = match parser.parse() {
        Some(ast) => ast,
        None => panic!("Parser failed!"),
    };
    let mut type_check = TypeChecker::new();
    match type_check.check_ast_type(&mut ast) {
        Ok(_) => panic!("the program was accepted"),
        Err(msg) => msg,
    }
}

#[test]
fn undeclared_function_call() {
    assert_eq!(error_of("f();"), "Function 'f' is not declared in this module.");
}

#[test]
fn call_with_too_many_arguments() {
    assert_eq!(
        error_of("fn f(a: number): number { return a; } f(1, 2);"),
        "Expected 1 arguments for function 'f' call but got 2 arguments."
    );
}

#[test]
fn call_with_wrong_argument_type() {
    assert_eq!(
        error_of("fn f(a: number): number { return a; } f(true);"),
        "Expression of type 'Bool' cannot be applied to function argument of type 'Number' in the call to 'f'"
    );
}

#[test]
fn subscript_of_a_number() {
    assert_eq!(
        error_of("let a: number = 1; a[0];"),
        "'Number' is not a subscriptable type."
    );
}

#[test]
fn dereference_of_a_number() {
    assert_eq!(
        error_of("let a: number = 1; deref a;"),
        "'Number' Cannot be dereferenced as it's not a pointer type."
    );
}

#[test]
fn member_of_a_number() {
    assert_eq!(
        error_of("let a: number = 1; a.x;"),
        "Member access on a non-struct type"
    );
}

#[test]
fn missing_struct_field() {
    assert_eq!(
        error_of("struct S { count: number; } let s: S = struct S { 0 }; s.x;"),
        "Type 'S' has no field 'x'"
    );
}

#[test]
fn literal_of_an_undeclared_struct() {
    assert_eq!(
        error_of("let s: number = struct T { 0 };"),
        "Undeclared struct 'T'"
    );
}

#[test]
fn struct_literal_with_too_many_values() {
    assert_eq!(
        error_of("struct S { count: number; } let s: S = struct S { 0, 1 };"),
        "Incorrect number of expressions to init struct 'S', got 2 expressions but 1 are required."
    );
}

#[test]
fn struct_literal_with_a_wrong_value() {
    assert_eq!(
        error_of("struct S { count: number; } let s: S = struct S { true };"),
        "In struct 'S' literal, can't init type Number with type Bool at position 1"
    );
}

#[test]
fn declaration_with_a_wrong_initial_value() {
    assert_eq!(
        error_of("let a: bool = 22;"),
        "variable 'a' is declared as 'Bool' but init expression has type 'Number'"
    );
}

#[test]
fn if_condition_not_bool() {
    assert_eq!(
        error_of("if 1 { }"),
        "If condition has type 'Number' but the type bool is needed."
    );
}

#[test]
fn while_condition_not_bool() {
    assert_eq!(
        error_of("while 3.14 {}"),
        "While condition has type 'Real' but the type bool is needed."
    );
}

#[test]
fn for_counter_not_numeric() {
    assert_eq!(
        error_of("for let i: bool = true; i; i = false; {}"),
        "For init declaration has type 'Bool' but type 'number' or 'real' is required."
    );
}

#[test]
fn for_condition_not_bool() {
    assert_eq!(
        error_of("for let i: number = 0; i; i = 1; {}"),
        "For loop expression has type 'Number' but type 'bool' is required."
    );
}

#[test]
fn function_without_return() {
    assert_eq!(
        error_of("fn f(): number { }"),
        "Function 'f' returns no values"
    );
}

#[test]
fn incompatible_operands() {
    assert_eq!(
        error_of("let b: number = true + 1;"),
        "Type Bool is not compatible with type Number. Consider casting."
    );
}

#[test]
fn address_of_null() {
    assert_eq!(error_of("addrof null;"), "Addrof 'null' is forbidden.");
}

#[test]
fn array_element_of_a_wrong_type() {
    assert_eq!(
        error_of("let a: [number; 3] = 0; a[0] = true;"),
        "Can't assign expression of type 'Bool' to array element of type 'Number'"
    );
}

#[test]
fn string_element_not_a_char() {
    assert_eq!(
        error_of("let s: string = \"ab\"; s[0] = 1;"),
        "Can't assign expression of type 'Number' to string element. Expression must be a 'char'"
    );
}

#[test]
fn subscript_assignment_to_a_number() {
    assert_eq!(
        error_of("let a: number = 1; a[0] = 1;"),
        "Array is not declared."
    );
}

#[test]
fn assignment_of_a_wrong_type() {
    assert_eq!(
        error_of("let a: number = 1; a = true;"),
        "Cannot assign expression of type 'Bool' of type 'Number'."
    );
}

#[test]
fn member_assignment_of_a_wrong_type() {
    assert_eq!(
        error_of("struct S { count: number; } let s: S = struct S { 0 }; s.count = true;"),
        "Cannot assign on member 'count' of type 'Number' with type 'Bool'"
    );
}

#[test]
fn dereferenced_assignment_of_a_wrong_type() {
    assert_eq!(
        error_of("let a: number = 1; let p: ptr number = addrof a; deref p = true;"),
        "Cannot assign type 'Bool' with a dereferenced pointer of type 'Number'"
    );
}

fn accepted(source: &str) -> bool {
    let tokens = Token::lex_string(source);
    let mut parser = Parser::new(tokens, "");
    let mut ast = match parser.parse() {
        Some(ast) => ast,
        None => panic!("Parser failed!"),
    };
    let mut type_check = TypeChecker::new();
    type_check.check_ast_type(&mut ast).is_ok()
}

#[test]
fn call_without_arguments_is_not_counted() {
    assert!(accepted("fn f(a: number): number { return a; } f();"));
}

#[test]
fn arguments_of_a_declaration_stay_in_scope() {
    assert!(accepted("fn puts(message: string): number; message;"));
}
