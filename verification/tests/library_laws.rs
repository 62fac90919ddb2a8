use compiler::desugar::desugar_ast;
use compiler::desugar::import_resolver::ImportResolver;
use compiler::lexer::{LogosToken, Token};
use compiler::parser::ast_printer::ast_text;
use compiler::parser::parser::Parser;
use compiler::parser::visitors::{Expression, Literal, Number, Statement};
use compiler::type_system::type_check::TypeChecker;
use compiler::value_type::{StaticArray, ValueType};

fn parse_in(source: &str, module: &str) -> Vec<Statement> {
    let tokens = Token::lex_string(source);
    let mut parser = Parser::new(tokens, module);
    match parser.parse() {
        Some(stmts) => stmts,
        None => panic!("Parser failed!"),
    }
}

fn parse(source: &str) -> Vec<Statement> {
    parse_in(source, "")
}

fn check(source: &str) -> Result<ValueType, String> {
    let mut ast = parse(source);
    let mut type_check = TypeChecker::new();
    type_check.check_ast_type(&mut ast)
}

fn error_of(source: &str) -> String {
    match check(source) {
        Ok(_) => panic!("the program was accepted"),
        Err(msg) => msg,
    }
}

fn number_array(size: usize) -> ValueType {
    ValueType::Array(StaticArray {
        size,
        array_type: Box::new(ValueType::Number),
    })
}

#[test]
fn type_equality_is_reflexive_without_null() {
    let types = vec![
        ValueType::Number,
        ValueType::Real,
        ValueType::Bool,
        ValueType::Char,
        ValueType::String,
        ValueType::Function,
        ValueType::Void,
        ValueType::Struct("Point".to_string()),
        ValueType::Pointer(Box::new(ValueType::Number)),
        ValueType::Pointer(Box::new(ValueType::Pointer(Box::new(ValueType::Real)))),
        number_array(3),
    ];
    for t in &types {
        assert!(*t == t.clone());
    }
}

#[test]
fn null_is_not_equal_to_null() {
    assert!(!(ValueType::Null == ValueType::Null));
    assert!(ValueType::Pointer(Box::new(ValueType::Number)) == ValueType::Null);
    assert!(ValueType::Null == ValueType::Pointer(Box::new(ValueType::Bool)));
}

#[test]
fn type_equality_edge_cases() {
    assert!(ValueType::Pointer(Box::new(ValueType::Void)) == ValueType::String);
    assert!(!(ValueType::String == ValueType::Pointer(Box::new(ValueType::Void))));
    assert!(ValueType::Pointer(Box::new(ValueType::Void)) == ValueType::Pointer(Box::new(ValueType::Real)));
    assert!(!(number_array(3) == number_array(4)));
    assert!(!(ValueType::Struct("A".to_string()) == ValueType::Struct("B".to_string())));
    assert!(!(ValueType::Number == ValueType::Real));
}

#[test]
fn type_display_text() {
    assert_eq!(number_array(3).display_text(), "Array of Number size: 3");
    assert_eq!(
        ValueType::Pointer(Box::new(ValueType::Struct("S".to_string()))).display_text(),
        "Pointer of Struct S"
    );
    assert_eq!(ValueType::Char.display_text(), "Char");
}

#[test]
fn type_from_keyword() {
    assert!(matches!(ValueType::from_name("number"), Ok(ValueType::Number)));
    assert!(matches!(ValueType::from_name("real"), Ok(ValueType::Real)));
    assert!(matches!(ValueType::from_name("bool"), Ok(ValueType::Bool)));
    assert!(matches!(ValueType::from_name("char"), Ok(ValueType::Char)));
    assert!(matches!(ValueType::from_name("string"), Ok(ValueType::String)));
    assert!(matches!(ValueType::from_name("void"), Ok(ValueType::Void)));
    assert!(ValueType::from_name("Number").is_err());
    assert!(ValueType::from_name("").is_err());
}

#[test]
fn declared_variable_is_found() {
    assert!(matches!(check("let a: number = 1; a;"), Ok(_)));
}

#[test]
fn undeclared_variable_is_reported() {
    assert_eq!(
        error_of("a;"),
        "'a' is not declared. Declare it 'let a: <typename> = <init_expr>;'"
    );
}

#[test]
fn redeclared_variable_is_rejected() {
    assert_eq!(
        error_of("let a: number = 1; let a: number = 2;"),
        "Redifinition of variable 'a'."
    );
}

#[test]
fn redefined_struct_is_rejected() {
    assert_eq!(
        error_of("struct S { count: number; } struct S { count: number; }"),
        "Redefinition of struct 'S'"
    );
}

#[test]
fn break_outside_loop_is_rejected() {
    assert_eq!(error_of("break;"), "Break statement outside a loop.");
    assert!(matches!(check("loop { break; }"), Ok(_)));
}

#[test]
fn return_outside_function_is_rejected() {
    assert_eq!(
        error_of("return 1;"),
        "Return statement is valid only in a function."
    );
}

#[test]
fn exported_declaration_without_body_is_rejected() {
    assert_eq!(
        error_of("export fn f(): number;"),
        "Exported function 'f' has no body."
    );
}

#[test]
fn printed_declaration() {
    let ast = parse("let a: number = 1 + 2;");
    assert_eq!(
        ast_text(&ast),
        "Declaration: [identifier: a, typename: Number, init_expr: Plus: [ Literal: Number 1, Literal: Number 2, ] ] \n"
    );
}

#[test]
fn printed_function_and_struct() {
    let ast = parse("struct S { count: number; } fn f(a: number): void {} break;");
    assert_eq!(
        ast_text(&ast),
        "Struct S [\n\tcount: Number;\nFunction f((\"a\", Number), )\nBlock: []Break\n"
    );
}

#[test]
fn desugared_for_loop_is_a_while_loop() {
    let mut ast = parse("for let i: number = 0; i < 10; i = i + 1; {}");
    desugar_ast(&mut ast);
    assert_eq!(ast.len(), 1);
    assert!(matches!(ast[0], Statement::Block(_)));
    assert_eq!(
        ast_text(&ast),
        "Block: [Declaration: [identifier: i, typename: Number, init_expr: Literal: Number 0] \n \
         while Less: [ Literal: Identifier i, Literal: Number 10, ]  block: \
         Block: [Literal: Identifier iPlus: [ Literal: Identifier i, Literal: Number 1, ] ] \n] endwhile\n]"
    );
}

#[test]
fn desugared_nested_for_loop_leaves_no_for() {
    let mut ast = parse("fn f(): void { for let i: number = 0; i < 3; i = i + 1; { i; } }");
    desugar_ast(&mut ast);
    let text = ast_text(&ast);
    assert!(!text.contains("For ("));
    assert!(text.contains(" while "));
}

#[test]
fn desugar_keeps_programs_without_for() {
    let source = "let a: number = 0; while a < 3 { a = a + 1; } if a == 3 { a; } else { a; }";
    let mut ast = parse(source);
    let before = ast_text(&ast);
    desugar_ast(&mut ast);
    assert_eq!(ast_text(&ast), before);
}

#[test]
fn imported_functions_become_declarations() {
    let module = parse_in(
        "export fn add(a: number, b: number): number { return a + b; } \
         fn hidden(): void {} \
         export struct P { x: number; }",
        "./lib",
    );
    let mut resolver = ImportResolver::new();
    resolver.resolve_module(module, "./main.lht");

    let program = parse_in("import \"lib\"; add(1, 2);", "./main.lht");
    assert_eq!(program.len(), 2);
    let mut resolved = resolver.resolved(&program);

    assert_eq!(resolved.len(), 3);
    match &resolved[0] {
        Statement::Function(f) => {
            assert_eq!(f.callee, "add");
            assert!(f.block.is_none());
            assert!(!f.is_exported);
            assert_eq!(f.filename, "./main.lht");
            assert_eq!(f.args.as_ref().map(|a| a.len()), Some(2));
        }
        _ => panic!("expected the declaration of 'add'"),
    }
    match &resolved[1] {
        Statement::Struct(s) => assert_eq!(s.struct_name, "P"),
        _ => panic!("expected the struct 'P'"),
    }
    assert!(matches!(resolved[2], Statement::Expression(_)));
    assert!(!resolved.iter().any(|s| matches!(s, Statement::Import(_))));

    let mut type_check = TypeChecker::new();
    assert!(type_check.check_ast_type(&mut resolved).is_ok());
}

#[test]
fn resolver_without_imports_keeps_the_program() {
    let resolver = ImportResolver::new();
    let program = parse("let a: number = 1;");
    let resolved = resolver.resolved(&program);
    assert_eq!(ast_text(&resolved), ast_text(&program));
}

#[test]
fn parser_reports_a_located_error() {
    let tokens = Token::lex_string("import module;");
    let mut parser = Parser::new(tokens, "./module.lht");
    assert!(parser.parse().is_none());
    assert_eq!(
        parser.diagnostics[0],
        "./module.lht:1:7 Error: Expected a string literal after 'import' keyword."
    );
}

#[test]
fn error_message_is_located() {
    let n = Number {
        value: 1,
        line: 3,
        column: 4,
        filename: "m.lht".to_string(),
    };
    assert_eq!(
        TypeChecker::build_error_message("oops", &n),
        "m.lht:3:4 Error: oops"
    );
}

#[test]
fn lexer_reports_unclosed_strings() {
    let (tokens, errors) = Token::lex_string_with_errors("let s: string = \"abc");
    assert!(tokens.len() >= 5);
    assert_eq!(errors.len(), 1);
    assert_eq!(errors[0], "Error: Unclosed string literal.");
}

#[test]
fn void_pointer_cannot_be_dereferenced() {
    assert_eq!(
        error_of("let a: number = 1; let p: ptr void = addrof a; deref p;"),
        "A void ptr cannot be dereferenced!"
    );
    assert!(matches!(
        check("let a: number = 1; let p: ptr number = addrof a; deref p;"),
        Ok(_)
    ));
}

#[test]
fn loop_is_a_while_true_loop() {
    let ast = parse("loop { break; }");
    assert_eq!(ast.len(), 1);
    match &ast[0] {
        Statement::WhileStatement(w) => {
            assert!(matches!(
                &w.condition,
                Expression::Literal(Literal::Bool(b)) if b.value
            ));
            assert_eq!(w.loop_block.statements.len(), 1);
        }
        _ => panic!("expected a while loop"),
    }
}

#[test]
fn desugaring_twice_changes_nothing() {
    let mut ast = parse("fn f(): void { for let i: number = 0; i < 3; i = i + 1; { i; } }");
    desugar_ast(&mut ast);
    let once = ast_text(&ast);
    desugar_ast(&mut ast);
    assert_eq!(ast_text(&ast), once);
}

#[test]
fn nested_for_loops_are_desugared() {
    let mut ast = parse(
        "for let i: number = 0; i < 2; i = i + 1; { for let j: number = 0; j < 2; j = j + 1; {} }",
    );
    desugar_ast(&mut ast);
    let text = ast_text(&ast);
    assert!(!text.contains("For ("));
    assert_eq!(text.matches(" while ").count(), 2);
}

#[test]
fn string_literal_with_multibyte_characters_is_one_token() {
    let tokens = Token::lex_string("\"é\" ;");
    assert_eq!(tokens.len(), 2);
    match &tokens[0].logos_tk {
        compiler::lexer::LogosToken::Quote(s) => assert_eq!(s, "é"),
        other => panic!("unexpected {:?}", other),
    }
    assert!(matches!(tokens[1].logos_tk, compiler::lexer::LogosToken::Semicolon));
    assert_eq!(tokens[1].column_number, 5);
}

#[test]
fn char_literal_with_a_multibyte_character() {
    let tokens = Token::lex_string("'é';");
    assert_eq!(tokens.len(), 2);
    assert!(matches!(tokens[0].logos_tk, compiler::lexer::LogosToken::CharLiteral('é')));
    assert!(matches!(tokens[1].logos_tk, compiler::lexer::LogosToken::Semicolon));
}

#[test]
fn comments_are_skipped_with_their_newline() {
    let tokens = Token::lex_string("// é comment\nlet // trailing comment with no newline");
    assert_eq!(tokens.len(), 1);
    assert!(matches!(tokens[0].logos_tk, compiler::lexer::LogosToken::Let));
    assert_eq!(tokens[0].line_number, 1);
    assert_eq!(tokens[0].column_number, 14);
}

#[test]
fn arguments_are_found_in_their_scope() {
    let mut type_check = TypeChecker::new();
    let args = vec![
        ("a".to_string(), ValueType::Number),
        ("b".to_string(), ValueType::Bool),
        ("a".to_string(), ValueType::Real),
    ];
    type_check.add_variables_in_scope(&args);
    assert!(matches!(type_check.find_variable(&"a".to_string()), Some(ValueType::Real)));
    assert!(matches!(type_check.find_variable(&"b".to_string()), Some(ValueType::Bool)));
    assert!(type_check.find_variable(&"c".to_string()).is_none());
    assert!(matches!(type_check.get_type_table().find_variable_type("a"), Some(ValueType::Real)));
}

#[test]
fn newlines_inside_a_string_literal_are_not_counted() {
    let tokens = Token::lex_string("\"a\nb\" let");
    assert_eq!(tokens.len(), 2);
    assert_eq!(tokens[0].line_number, 1);
    assert_eq!(tokens[0].column_number, 0);
    assert!(matches!(tokens[1].logos_tk, compiler::lexer::LogosToken::Let));
    assert_eq!(tokens[1].line_number, 1);
    assert_eq!(tokens[1].column_number, 6);
}

#[test]
fn tokens_compare_by_variant() {
    assert!(!(LogosToken::Null == LogosToken::Null));
    assert!(LogosToken::Identifier("a".to_string()) == LogosToken::Identifier("b".to_string()));
    assert!(!(LogosToken::Plus == LogosToken::Minus));
}

#[test]
fn lone_parenthesis_is_one_token() {
    let tokens = Token::lex_string("(");
    assert_eq!(tokens.len(), 1);
    assert!(matches!(tokens[0].logos_tk, LogosToken::LeftParenthesis));
}
