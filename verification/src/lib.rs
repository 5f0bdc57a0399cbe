pub mod error;
pub mod row;
pub mod transfer;
pub mod validator;
