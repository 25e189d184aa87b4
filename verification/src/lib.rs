pub mod api;
pub mod builder;
pub mod body;
pub mod codegen;
pub mod dispatch;
pub mod error;
pub mod extract;
pub mod handler;
pub mod method;
pub mod outcome;
pub mod phase;
pub mod routes;
pub mod sequence;
pub mod tera;
