pub mod value_type;
pub mod text;
pub mod lexer;
pub mod lexer_laws;
pub mod parser;
pub mod type_system;
pub mod desugar;
pub mod lowering;
