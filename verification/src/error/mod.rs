pub mod diag;
pub mod msg;
