//! The rules of the `queries` attribute and the `FromRow` derive of
//! `queries-rusqlite`, stated over a plain model of the declarations they
//! read, and the expansion plans they produce.

pub mod syntax;
pub mod error;
pub mod krate;
pub mod search;
pub mod queries;
pub mod from_row;
pub mod laws;
pub mod source;
