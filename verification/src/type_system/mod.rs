pub mod names;
pub mod typing;
pub mod types_table;
pub mod messages;
pub mod type_check;
pub mod type_check_expressions;
pub mod type_check_statement;
pub mod typed;
pub mod expression_laws;
pub mod statement_laws;
