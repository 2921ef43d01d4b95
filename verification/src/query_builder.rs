//! The query builder.
//!
//! - `value`: the values bound to placeholders, and the typed literals.
//! - `types`: the tags of expressions, and which may be combined.
//! - `operators`, `subquery`, `logic`, `functions`: the expressions.
//! - `columns`, `tuples`, `limit`, `clauses`: what the clauses hold.
//! - `source`, `alias`: tables, joins, and how sources are named.
//! - `builder`, `synonym`: the builder of a statement.
//! - `render`, `text`: how every part renders itself.
//! - `query`: the finished query.
//! - `rules`: how each form of expression is tagged.
//! - `laws`: what holds of every query.

pub mod alias;
pub mod builder;
pub mod clauses;
pub mod columns;
pub mod functions;
pub mod laws;
pub mod limit;
pub mod logic;
pub mod operators;
pub mod query;
pub mod render;
pub mod rules;
pub mod source;
pub mod subquery;
pub mod synonym;
pub mod text;
pub mod tuples;
pub mod types;
pub mod value;

pub use alias::{AliasPrefixes, Prefixes, SourceAlias, SourceAliasName};
pub use builder::SelectBuilder;
pub use clauses::{
    EmptyFromClause, EmptyGroupByClause, EmptyHavingClause, EmptyLimitClause,
    EmptyOrderByClause, EmptyWhereClause, ForUpdate, FromClause, GroupByClause, HavingClause,
    LimitClause, LockInShareMode, LockModeDefaultBehavior, OrderByClause, WhereClause,
};
pub use columns::{
    list_names, list_params, list_text, ColumnAlias, ColumnList, Distinct, Order, Record, Row,
};
pub use functions::{count, date, left, sum, Count, Date, Left, Sum};
pub use limit::Limit;
pub use logic::{not, And, AndOperatorMethod, Not, NotOperatorMethod, Or, OrOperatorMethod};
pub use operators::{
    Any, AsList, Between, BetweenOperatorMethod, CompareBinaryOperatorMethod, Comparison, Ge,
    Gt, InList, InOperatorMethod, IsNotNull, IsNull, Le, Like, Lt, NotAny, NotEq, NotLike,
    NullCheck, NullCheckOperatorMethod,
};
pub use query::{Query, QueryBuildError};
pub use render::{BuildSql, BuildSqlError};
pub use source::{
    AnyDatabase, AsColumnName, BlankBoolExpression, Column, Dual, IntoQuerySource, Join,
    Joinable, QuerySource, QuerySourceRef, SourceTree, TableName,
};
pub use subquery::{
    EqAll, EqAny, GeAll, GeAny, GtAll, GtAny, LeAll, LeAny, LtAll, LtAny, NotEqAll, NotEqAny,
    Quantified, SubQueryCompareBinaryOperatorMethod,
};
pub use synonym::EmptySelectBuilder;
pub use types::{
    Aggregate, Aggregation, AggregationClass, BoolAnd, BoolKind, BoolMono, BoolOr, BoolShape,
    BoolTag, Columns, Comparable, Expression, Monomial, NonAggregate, NonBool, Orders,
    Polynomial, SqlTypeAny, SqlTypeBool, SqlTypeInt, SqlTypeList, SqlTypeString, SqlTypeTag,
    SqlTypeUint, Tags, TermShape, TypeTag,
};
pub use value::{Literal, SqlInt, SqlString, SqlUint, Value, ValueView};
