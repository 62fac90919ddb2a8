pub mod visitors;
pub mod grammar;
pub mod parser;
pub mod expression_parser;
pub mod statement_grammar;
pub mod type_parser;
pub mod statement_parser;
pub mod ast_clone;
pub mod ast_printer;
pub mod parse_laws;
