pub mod expr;
pub mod math_fs;
