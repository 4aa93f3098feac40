pub mod evaluator;
pub mod expr_ast;
pub mod printer;
