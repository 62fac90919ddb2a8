use compiler::lexer::LogosToken;
use compiler::value_type::ValueType;
#[test]
fn lexer_if_test() {
    let mut lexer = LogosToken::lexer("if () {}");

    assert_eq!(lexer.next(), Some(LogosToken::If));
    assert_eq!(lexer.next(), Some(LogosToken::LeftParenthesis));
    assert_eq!(lexer.next(), Some(LogosToken::RightParenthesis));
    assert_eq!(lexer.next(), Some(LogosToken::LeftBrace));
    assert_eq!(lexer.next(), Some(LogosToken::RightBrace));
}

#[test]
fn lexer_for_test() {
    let mut lexer = LogosToken::lexer("for (;;) {}");

    assert_eq!(lexer.next(), Some(LogosToken::For));
    assert_eq!(lexer.next(), Some(LogosToken::LeftParenthesis));
    assert_eq!(lexer.next(), Some(LogosToken::Semicolon));
    assert_eq!(lexer.next(), Some(LogosToken::Semicolon));
    assert_eq!(lexer.next(), Some(LogosToken::RightParenthesis));
    assert_eq!(lexer.next(), Some(LogosToken::LeftBrace));
    assert_eq!(lexer.next(), Some(LogosToken::RightBrace));
}

#[test]
fn lexer_while_test() {
    let mut lexer = LogosToken::lexer("while () {}");

    assert_eq!(lexer.next(), Some(LogosToken::While));
    assert_eq!(lexer.next(), Some(LogosToken::LeftParenthesis));
    assert_eq!(lexer.next(), Some(LogosToken::RightParenthesis));
    assert_eq!(lexer.next(), Some(LogosToken::LeftBrace));
    assert_eq!(lexer.next(), Some(LogosToken::RightBrace));
}

#[test]
fn lexer_loop_test() {
    let mut lexer = LogosToken::lexer("loop {}");

    assert_eq!(lexer.next(), Some(LogosToken::Loop));
    assert_eq!(lexer.next(), Some(LogosToken::LeftBrace));
    assert_eq!(lexer.next(), Some(LogosToken::RightBrace));
}

#[test]
fn lexer_let_test() {
    let mut lexer = LogosToken::lexer("let i = 5;");

    assert_eq!(lexer.next(), Some(LogosToken::Let));
    assert_eq!(lexer.next(), Some(LogosToken::Identifier("i".to_string())));
    assert_eq!(lexer.slice(), "i");
    assert_eq!(lexer.next(), Some(LogosToken::Equal));
    assert_eq!(lexer.next(), Some(LogosToken::Number(5)));
    assert_eq!(lexer.next(), Some(LogosToken::Semicolon));
}

#[test]
fn lexer_break_test() {
    let mut lexer = LogosToken::lexer("break;");

    assert_eq!(lexer.next(), Some(LogosToken::Break));
    assert_eq!(lexer.next(), Some(LogosToken::Semicolon));
}

#[test]
fn lexer_continue_test() {
    let mut lexer = LogosToken::lexer("continue;");

    assert_eq!(lexer.next(), Some(LogosToken::Continue));
    assert_eq!(lexer.next(), Some(LogosToken::Semicolon));
}

#[test]
fn lexer_function_test() {
    let mut lexer = LogosToken::lexer("fn hello() {}");

    assert_eq!(lexer.next(), Some(LogosToken::Function));
    assert_eq!(
        lexer.next(),
        Some(LogosToken::Identifier("hello".to_string()))
    );
    assert_eq!(lexer.next(), Some(LogosToken::LeftParenthesis));
    assert_eq!(lexer.next(), Some(LogosToken::RightParenthesis));
    assert_eq!(lexer.next(), Some(LogosToken::LeftBrace));
    assert_eq!(lexer.next(), Some(LogosToken::RightBrace));
}

#[test]
fn lexer_return_test() {
    let mut lexer = LogosToken::lexer("fn hello() { return 5; }");

    assert_eq!(lexer.next(), Some(LogosToken::Function));
    assert_eq!(
        lexer.next(),
        Some(LogosToken::Identifier("hello".to_string()))
    );
    assert_eq!(lexer.next(), Some(LogosToken::LeftParenthesis));
    assert_eq!(lexer.next(), Some(LogosToken::RightParenthesis));
    assert_eq!(lexer.next(), Some(LogosToken::LeftBrace));
    assert_eq!(lexer.next(), Some(LogosToken::Return));
    assert_eq!(lexer.next(), Some(LogosToken::Number(5)));
    assert_eq!(lexer.next(), Some(LogosToken::Semicolon));
    assert_eq!(lexer.next(), Some(LogosToken::RightBrace));
}

#[test]
fn lexer_import_test() {
    let mut lexer = LogosToken::lexer("import my_module;");

    assert_eq!(lexer.next(), Some(LogosToken::Import));
    assert_eq!(
        lexer.next(),
        Some(LogosToken::Identifier("my_module".to_string()))
    );
    assert_eq!(lexer.next(), Some(LogosToken::Semicolon));
}

#[test]
fn lexer_left_bracket_test() {
    let mut lexer = LogosToken::lexer("{{ {    {\t{");

    assert_eq!(lexer.next(), Some(LogosToken::LeftBrace));
    assert_eq!(lexer.next(), Some(LogosToken::LeftBrace));
    assert_eq!(lexer.next(), Some(LogosToken::LeftBrace));
    assert_eq!(lexer.next(), Some(LogosToken::LeftBrace));
    assert_eq!(lexer.next(), Some(LogosToken::LeftBrace));
}

#[test]
fn lexer_right_bracket_test() {
    let mut lexer = LogosToken::lexer("}}\t\t}   }\n");

    assert_eq!(lexer.next(), Some(LogosToken::RightBrace));
    assert_eq!(lexer.next(), Some(LogosToken::RightBrace));
    assert_eq!(lexer.next(), Some(LogosToken::RightBrace));
    assert_eq!(lexer.next(), Some(LogosToken::RightBrace));
}

#[test]
fn lexer_left_parenthesis_test() {
    let mut lexer = LogosToken::lexer("(( (    (\t(");

    assert_eq!(lexer.next(), Some(LogosToken::LeftParenthesis));
    assert_eq!(lexer.next(), Some(LogosToken::LeftParenthesis));
    assert_eq!(lexer.next(), Some(LogosToken::LeftParenthesis));
    assert_eq!(lexer.next(), Some(LogosToken::LeftParenthesis));
    assert_eq!(lexer.next(), Some(LogosToken::LeftParenthesis));
}

#[test]
fn lexer_right_parenthesis_test() {
    let mut lexer = LogosToken::lexer("))\t\t)   )\n");

    assert_eq!(lexer.next(), Some(LogosToken::RightParenthesis));
    assert_eq!(lexer.next(), Some(LogosToken::RightParenthesis));
    assert_eq!(lexer.next(), Some(LogosToken::RightParenthesis));
    assert_eq!(lexer.next(), Some(LogosToken::RightParenthesis));
}

#[test]
fn lexer_true_test() {
    let mut lexer = LogosToken::lexer("true true\ntrue");

    assert_eq!(lexer.next(), Some(LogosToken::True));
    assert_eq!(lexer.next(), Some(LogosToken::True));
    assert_eq!(lexer.next(), Some(LogosToken::True));
}

#[test]
fn lexer_false_test() {
    let mut lexer = LogosToken::lexer("false false\nfalse");

    assert_eq!(lexer.next(), Some(LogosToken::False));
    assert_eq!(lexer.next(), Some(LogosToken::False));
    assert_eq!(lexer.next(), Some(LogosToken::False));
}

#[test]
fn lexer_plus_test() {
    let mut lexer = LogosToken::lexer("1 + 3 + 42");

    assert_eq!(lexer.next(), Some(LogosToken::Number(1)));
    assert_eq!(lexer.next(), Some(LogosToken::Plus));
    assert_eq!(lexer.next(), Some(LogosToken::Number(3)));
    assert_eq!(lexer.next(), Some(LogosToken::Plus));
    assert_eq!(lexer.next(), Some(LogosToken::Number(42)));
}

#[test]
fn lexer_minus_test() {
    let mut lexer = LogosToken::lexer("1 - 3-42");

    assert_eq!(lexer.next(), Some(LogosToken::Number(1)));
    assert_eq!(lexer.next(), Some(LogosToken::Minus));
    assert_eq!(lexer.next(), Some(LogosToken::Number(3)));
    assert_eq!(lexer.next(), Some(LogosToken::Minus));
    assert_eq!(lexer.next(), Some(LogosToken::Number(42)));
}

#[test]
fn lexer_multiply_test() {
    let mut lexer = LogosToken::lexer("1 * 3*42");

    assert_eq!(lexer.next(), Some(LogosToken::Number(1)));
    assert_eq!(lexer.next(), Some(LogosToken::Multiply));
    assert_eq!(lexer.next(), Some(LogosToken::Number(3)));
    assert_eq!(lexer.next(), Some(LogosToken::Multiply));
    assert_eq!(lexer.next(), Some(LogosToken::Number(42)));
}

#[test]
fn lexer_divide_test() {
    let mut lexer = LogosToken::lexer("1 / 3/42");

    assert_eq!(lexer.next(), Some(LogosToken::Number(1)));
    assert_eq!(lexer.next(), Some(LogosToken::Divide));
    assert_eq!(lexer.next(), Some(LogosToken::Number(3)));
    assert_eq!(lexer.next(), Some(LogosToken::Divide));
    assert_eq!(lexer.next(), Some(LogosToken::Number(42)));
}

#[test]
fn lexer_modulo_test() {
    let mut lexer = LogosToken::lexer("1 % 3%42");

    assert_eq!(lexer.next(), Some(LogosToken::Number(1)));
    assert_eq!(lexer.next(), Some(LogosToken::Modulo));
    assert_eq!(lexer.next(), Some(LogosToken::Number(3)));
    assert_eq!(lexer.next(), Some(LogosToken::Modulo));
    assert_eq!(lexer.next(), Some(LogosToken::Number(42)));
}

#[test]
fn lexer_and_test() {
    let mut lexer = LogosToken::lexer("true and false");

    assert_eq!(lexer.next(), Some(LogosToken::True));
    assert_eq!(lexer.next(), Some(LogosToken::And));
    assert_eq!(lexer.next(), Some(LogosToken::False));
}

#[test]
fn lexer_or_test() {
    let mut lexer = LogosToken::lexer("true or false");

    assert_eq!(lexer.next(), Some(LogosToken::True));
    assert_eq!(lexer.next(), Some(LogosToken::Or));
    assert_eq!(lexer.next(), Some(LogosToken::False));
}

#[test]
fn lexer_not_test() {
    let mut lexer = LogosToken::lexer("not (true or not false)");

    assert_eq!(lexer.next(), Some(LogosToken::Not));
    assert_eq!(lexer.next(), Some(LogosToken::LeftParenthesis));
    assert_eq!(lexer.next(), Some(LogosToken::True));
    assert_eq!(lexer.next(), Some(LogosToken::Or));
    assert_eq!(lexer.next(), Some(LogosToken::Not));
    assert_eq!(lexer.next(), Some(LogosToken::False));
    assert_eq!(lexer.next(), Some(LogosToken::RightParenthesis));
}

#[test]
fn lexer_identifier_test() {
    let mut lexer = LogosToken::lexer("let my_super_variable");

    assert_eq!(lexer.next(), Some(LogosToken::Let));
    assert_eq!(
        lexer.next(),
        Some(LogosToken::Identifier("my_super_variable".to_string()))
    );
}

#[test]
fn lexer_number_test() {
    let mut lexer = LogosToken::lexer("1442");

    assert_eq!(lexer.next(), Some(LogosToken::Number(1442)));
}

#[test]
fn lexer_real_test() {
    let mut lexer = LogosToken::lexer("3.14");

    assert_eq!(lexer.next(), Some(LogosToken::Real("3.14".to_string())));
}

#[test]
fn lexer_colon_test() {
    let mut lexer = LogosToken::lexer("let my_var: number = 4;");
    assert_eq!(lexer.next(), Some(LogosToken::Let));
    assert_eq!(
        lexer.next(),
        Some(LogosToken::Identifier("my_var".to_string()))
    );
    assert_eq!(lexer.next(), Some(LogosToken::Colon));
    assert_eq!(lexer.next(), Some(LogosToken::Type(ValueType::Number)));
    assert_eq!(lexer.next(), Some(LogosToken::Equal));
    assert_eq!(lexer.next(), Some(LogosToken::Number(4)));
    assert_eq!(lexer.next(), Some(LogosToken::Semicolon));
}

#[test]
fn lexer_float_test() {
    let mut lexer = LogosToken::lexer("let pi: real = 3.14;");
    assert_eq!(lexer.next(), Some(LogosToken::Let));
    assert_eq!(lexer.next(), Some(LogosToken::Identifier("pi".to_string())));
    assert_eq!(lexer.next(), Some(LogosToken::Colon));
    assert_eq!(lexer.next(), Some(LogosToken::Type(ValueType::Real)));
    assert_eq!(lexer.next(), Some(LogosToken::Equal));
    assert_eq!(lexer.next(), Some(LogosToken::Real("3.14".to_string())));
    assert_eq!(lexer.next(), Some(LogosToken::Semicolon));
}

#[test]
fn lexer_bool_test() {
    let mut lexer = LogosToken::lexer("let truth: bool = true;");
    assert_eq!(lexer.next(), Some(LogosToken::Let));
    assert_eq!(
        lexer.next(),
        Some(LogosToken::Identifier("truth".to_string()))
    );
    assert_eq!(lexer.next(), Some(LogosToken::Colon));
    assert_eq!(lexer.next(), Some(LogosToken::Type(ValueType::Bool)));
    assert_eq!(lexer.next(), Some(LogosToken::Equal));
    assert_eq!(lexer.next(), Some(LogosToken::True));
    assert_eq!(lexer.next(), Some(LogosToken::Semicolon));
}

#[test]
fn fn_test() {
    let mut lexer = LogosToken::lexer("fn hey(mom: string): void {}");
    assert_eq!(lexer.next(), Some(LogosToken::Function));
    assert_eq!(
        lexer.next(),
        Some(LogosToken::Identifier("hey".to_string()))
    );
    assert_eq!(lexer.next(), Some(LogosToken::LeftParenthesis));
    assert_eq!(
        lexer.next(),
        Some(LogosToken::Identifier("mom".to_string()))
    );
    assert_eq!(lexer.next(), Some(LogosToken::Colon));
    assert_eq!(lexer.next(), Some(LogosToken::Type(ValueType::String)));
    assert_eq!(lexer.next(), Some(LogosToken::RightParenthesis));
    assert_eq!(lexer.next(), Some(LogosToken::Colon));
    assert_eq!(lexer.next(), Some(LogosToken::Type(ValueType::Void)));
    assert_eq!(lexer.next(), Some(LogosToken::LeftBrace));
    assert_eq!(lexer.next(), Some(LogosToken::RightBrace));
}

#[test]
fn quote_test() {
    let mut lexer = LogosToken::lexer("\"\"");
    assert_eq!(lexer.next(), Some(LogosToken::Quote(String::new())));
    assert_eq!(lexer.next(), None);
}

#[test]
fn quote_test_statement() {
    let mut lexer = LogosToken::lexer("\"word!\";");
    let quote_tk = lexer.next();
    assert_eq!(quote_tk, Some(LogosToken::Quote(String::new())));
    assert_eq!(
        if let LogosToken::Quote(s) = quote_tk.unwrap() {
            s
        } else {
            unreachable!()
        },
        "word!"
    );

    assert_eq!(lexer.next(), Some(LogosToken::Semicolon));
}

#[test]
fn quote_with_content_test() {
    let mut lexer = LogosToken::lexer("\"hey mom *&*(^)\"");
    let tk = lexer.next();

    assert!(tk.is_some());
    assert_eq!(
        if let LogosToken::Quote(s) = tk.unwrap() {
            s
        } else {
            unreachable!()
        },
        "hey mom *&*(^)"
    );
}

#[test]
fn unclosed_quote_with_content_test() {
    let mut lexer = LogosToken::lexer("\"hey mom *&*(^)");
    assert_eq!(lexer.next().unwrap(), LogosToken::Error);
}

#[test]
fn ptr_keyword_test() {
    let mut lexer = LogosToken::lexer("let my_ptr: ptr");
    assert_eq!(lexer.next().unwrap(), LogosToken::Let);
    assert_eq!(
        lexer.next().unwrap(),
        LogosToken::Identifier(String::from("my_ptr"))
    );
    assert_eq!(lexer.next().unwrap(), LogosToken::Colon);
    assert_eq!(lexer.next().unwrap(), LogosToken::Pointer);
}

#[test]
fn deref_keyword_test() {
    let mut lexer = LogosToken::lexer("deref my_ptr");
    assert_eq!(lexer.next().unwrap(), LogosToken::Dereference);
    assert_eq!(
        lexer.next().unwrap(),
        LogosToken::Identifier(String::from("my_ptr"))
    );
}

#[test]
fn addrof_keyword_test() {
    let mut lexer = LogosToken::lexer("addrof my_ptr");
    assert_eq!(lexer.next().unwrap(), LogosToken::AddressOf);
    assert_eq!(
        lexer.next().unwrap(),
        LogosToken::Identifier(String::from("my_ptr"))
    );
}

#[test]
fn struct_keyword_test() {
    let mut lexer = LogosToken::lexer("struct MyStruct");
    assert_eq!(lexer.next().unwrap(), LogosToken::Struct);
    assert_eq!(
        lexer.next().unwrap(),
        LogosToken::Identifier(String::from("MyStruct"))
    );
}

#[test]
fn dot_keyword_test() {
    let mut lexer = LogosToken::lexer("obj.member");
    assert_eq!(
        lexer.next().unwrap(),
        LogosToken::Identifier(String::from("obj"))
    );
    assert_eq!(lexer.next().unwrap(), LogosToken::Dot);
    assert_eq!(
        lexer.next().unwrap(),
        LogosToken::Identifier(String::from("member"))
    );
}

#[test]
fn import_module_test() {
    let mut lexer = LogosToken::lexer("import \"module\";");
    assert_eq!(lexer.next().unwrap(), LogosToken::Import);
    let str_literal = lexer.next().unwrap();
    assert_eq!(str_literal, LogosToken::Quote(String::new()));

    assert!(if let LogosToken::Quote(content) = str_literal {
        content == "module"
    } else {
        false
    });

    assert_eq!(lexer.next().unwrap(), LogosToken::Semicolon);
}

#[test]
fn double_colon_test() {
    let mut lexer = LogosToken::lexer("module::function()");

    assert!(if let LogosToken::Identifier(id) = lexer.next().unwrap() {
        id == "module"
    } else {
        false
    });
    assert_eq!(lexer.next().unwrap(), LogosToken::DoubleColon);
    assert!(if let LogosToken::Identifier(id) = lexer.next().unwrap() {
        id == "function"
    } else {
        false
    });
    assert_eq!(lexer.next().unwrap(), LogosToken::LeftParenthesis);
    assert_eq!(lexer.next().unwrap(), LogosToken::RightParenthesis);
}

#[test]
fn char_type_test() {
    let mut lexer = LogosToken::lexer("var: char");

    assert!(if let LogosToken::Identifier(id) = lexer.next().unwrap() {
        id == "var"
    } else {
        false
    });
    assert_eq!(lexer.next().unwrap(), LogosToken::Colon);
    assert!(
        if let LogosToken::Type(ValueType::Char) = lexer.next().unwrap() {
            true
        } else {
            false
        }
    );
}

#[test]
fn char_literal_test() {
    let mut lexer = LogosToken::lexer("'a'");

    let tk = lexer.next().unwrap();
    assert!(
        if let LogosToken::CharLiteral(id) = tk {
            id == 'a'
        } else {
            false
        },
        "Got {:?}",
        tk
    );
}

#[test]
fn unclosed_char_literal_test() {
    let mut lexer = LogosToken::lexer("'a");

    let tk = lexer.next().unwrap();
    assert_eq!(tk, LogosToken::Error);
}

#[test]
fn too_much_char_literal_test() {
    let mut lexer = LogosToken::lexer("'abc'");

    let tk = lexer.next().unwrap();
    assert_eq!(tk, LogosToken::Error);
}
