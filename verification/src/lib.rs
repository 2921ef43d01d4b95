//! A builder for SQL `SELECT` statements.
//!
//! A query is assembled step by step (sources and joins, a filter, the
//! selected columns, grouping, ordering, a limit and a lock mode) and is then
//! rendered into SQL text with `?` placeholders and the list of values bound to
//! them. Which expressions may be combined is decided by the types; what the
//! rendered text and parameters are is stated in the contracts and proved.
//!
//! ```
//! use aqueryon::query_builder::{CompareBinaryOperatorMethod, SelectBuilder, SqlString, Value};
//!
//! let (builder, user) = SelectBuilder::new().source("user");
//! let query = builder
//!     .filter(user.column("User").eq(SqlString::new("root")))
//!     .select((user.column("Host"), user.column("User")))
//!     .build()
//!     .unwrap();
//! assert_eq!(query.sql(), "SELECT t1.Host, t1.User FROM user as t1 WHERE t1.User = ?;");
//! assert_eq!(query.params(), &[Value::String("root".to_string())]);
//! ```

pub mod query_builder;
