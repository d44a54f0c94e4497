pub mod errorsystem;
pub mod lang;
pub mod text;
