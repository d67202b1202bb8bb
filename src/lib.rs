//! Composable SQL statement values (select, insert, update, delete) that
//! render deterministically to literal SQL text, with every rendering proved
//! against a mathematical description of the text it produces.
pub mod text;
pub mod schema;
pub mod literal;
pub mod predicate;
pub mod select;
pub mod insert;
pub mod update;
pub mod delete;
pub mod query;
pub mod laws;

pub use schema::{Field, QueryError, Table};
pub use literal::Literal;
pub use predicate::{Assignment, Assignments, CmpOp, Predicate};
pub use select::{Direction, OrderTerm, Projection, SelectStatement};
pub use insert::{InsertStatement, Row};
pub use update::UpdateStatement;
pub use delete::DeleteStatement;
pub use query::Query;
