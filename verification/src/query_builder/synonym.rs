//! Short names for the types that the builder's methods take and return.

use super::builder::SelectBuilder;
use super::clauses::{
    EmptyFromClause, EmptyGroupByClause, EmptyHavingClause, EmptyLimitClause, EmptyOrderByClause,
    EmptyWhereClause, FromClause, LockModeDefaultBehavior,
};
use super::source::{BlankBoolExpression, QuerySourceRef};
use vstd::prelude::*;

verus! {

/// A builder to which nothing has been attached.
pub type EmptySelectBuilder = SelectBuilder<
    EmptyFromClause,
    EmptyWhereClause,
    (),
    EmptyGroupByClause,
    EmptyHavingClause,
    EmptyOrderByClause,
    EmptyLimitClause,
    LockModeDefaultBehavior,
>;

/// A builder with the sources `QS` and nothing else.
pub type SourceUpdatedBuilder<QS> = SelectBuilder<
    FromClause<QS>,
    EmptyWhereClause,
    (),
    EmptyGroupByClause,
    EmptyHavingClause,
    EmptyOrderByClause,
    EmptyLimitClause,
    LockModeDefaultBehavior,
>;

/// The sources `L` joined with the new source `R` on `EXP`.
pub type Join<L, R, EXP> = super::source::Join<L, IntoQuerySourceRef<R>, EXP>;

/// The sources `L` left outer joined with the new source `R` on `EXP`.
pub type LeftOuterJoin<L, R, EXP> = super::source::Join<L, IntoNullableQuerySourceRef<R>, EXP>;

/// The sources `L` right outer joined with the new source `R` on `EXP`.
pub type RightOuterJoin<L, R, EXP> = super::source::Join<
    <L as super::source::QuerySource>::NullableSelf,
    IntoQuerySourceRef<R>,
    EXP,
>;

/// The sources `L` cross joined with the new source `R`.
pub type CrossJoin<L, R> = super::source::Join<L, IntoQuerySourceRef<R>, BlankBoolExpression>;

/// The source that `QS` stands for.
pub type IntoQuerySource<QS> = <QS as super::source::IntoQuerySource>::QuerySource;

/// The source that `QS` stands for, with columns that may be NULL.
pub type IntoNullableQuerySource<QS> = <IntoQuerySource<
    QS,
> as super::source::QuerySource>::NullableSelf;

/// The handle of the source that `QS` stands for.
pub type IntoQuerySourceRef<QS> = QuerySourceRef<IntoQuerySource<QS>>;

/// The handle of the source that `QS` stands for, with columns that may be
/// NULL.
pub type IntoNullableQuerySourceRef<QS> = QuerySourceRef<IntoNullableQuerySource<QS>>;

} // verus!
