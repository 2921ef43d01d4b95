//! The builder of a `SELECT` statement.
//!
//! A builder starts empty. Sources are attached, then a filter may be set, the
//! columns are selected, and grouping, a condition on the groups, an
//! ordering, a limit and a lock mode may follow, each once and in this order.
//! The type of the builder records which clauses are set, so a step out of
//! order does not compile.

use vstd::prelude::*;
use vstd::std_specs::convert::IntoSpec;
use vstd::utf8::*;
use super::alias::{
    covers, extends, plain_prefixes, AliasPrefixes, Prefixes, SourceAlias, SourceAliasName,
};
use super::clauses::{
    EmptyFromClause, EmptyGroupByClause, EmptyHavingClause, EmptyLimitClause, EmptyOrderByClause,
    EmptyWhereClause, ForUpdate, FromClause, GroupByClause, HavingClause, LimitClause,
    LockInShareMode, LockModeDefaultBehavior, OrderByClause, WhereClause,
};
use super::limit::Limit;
use super::query::{Query, QueryBuildError};
use super::render::{build_part, note_part, renders_like, BuildSql, BuildSqlError, Rendered};
use super::source::{
    AnyDatabase, IntoQuerySource, Join, Joinable, QuerySource, QuerySourceRef, SourceTree,
};
use super::synonym;
use super::text::{
    lemma_encode_utf8_concat, lemma_marks_concat, lemma_plain_marks, lemma_text_of_encoding,
    marks, write_str,
};
use super::types::{Columns, Expression, Monomial, NonAggregate, NonBool, Orders, SqlTypeBool};
use super::value::{Value, ValueView};

verus! {

/// A `SELECT` statement in the making. The type parameters are the clauses:
/// sources, filter, columns, grouping, condition on the groups, ordering,
/// limit and lock mode.
#[derive(Debug, Clone)]
pub struct SelectBuilder<QS, W, C, G, H, O, L, LM> {
    sources: QS,
    sources_num: u8,
    sources_alias_name: SourceAliasName,
    filter: W,
    columns: C,
    group_by: G,
    having: H,
    order_by: O,
    limit: L,
    lock_mode: LM,
}

impl<QS, W, C, G, H, O, L, LM> SelectBuilder<QS, W, C, G, H, O, L, LM> {
    /// The sources.
    pub closed spec fn from_clause(&self) -> QS {
        self.sources
    }

    /// How many sources have been attached.
    pub closed spec fn source_count(&self) -> u8 {
        self.sources_num
    }

    /// The name that the aliases of the sources are made from.
    pub closed spec fn alias_name(&self) -> SourceAliasName {
        self.sources_alias_name
    }

    /// The filter.
    pub closed spec fn where_clause(&self) -> W {
        self.filter
    }

    /// The selected columns.
    pub closed spec fn selected(&self) -> C {
        self.columns
    }

    /// The grouping.
    pub closed spec fn group_by_clause(&self) -> G {
        self.group_by
    }

    /// The condition on the groups.
    pub closed spec fn having_clause(&self) -> H {
        self.having
    }

    /// The ordering.
    pub closed spec fn order_by_clause(&self) -> O {
        self.order_by
    }

    /// The limit.
    pub closed spec fn limit_clause(&self) -> L {
        self.limit
    }

    /// The lock mode.
    pub closed spec fn lock_clause(&self) -> LM {
        self.lock_mode
    }

    /// Whether `alias` is the alias of the source that is attached next: the
    /// builder's name, and the number after that of the last source.
    pub open spec fn is_next_alias(&self, alias: SourceAlias) -> bool {
        alias.alias_name() == self.alias_name() && alias.suffix() == self.source_count() + 1
    }

    /// Whether `handle` is a handle of `source` attached next.
    pub open spec fn attaches<S: Clone>(&self, source: S, handle: QuerySourceRef<S>) -> bool {
        self.is_next_alias(handle.source_alias()) && cloned(source, handle.source())
    }

    /// Replaces the prefix in the cell of the builder's name. Every source
    /// attached through this builder, before or after, shares the name, and so
    /// shows the new prefix from now on: in the handles, and wherever a column
    /// of the source is rendered. The builder keeps its name, its sources with
    /// their numbers, and its clauses.
    pub fn change_sources_alias_name(&mut self, new_name: &'static str)
        ensures
            final(self).alias_name() == old(self).alias_name(),
            final(self).from_clause() == old(self).from_clause(),
            final(self).source_count() == old(self).source_count(),
            final(self).where_clause() == old(self).where_clause(),
            final(self).selected() == old(self).selected(),
            final(self).group_by_clause() == old(self).group_by_clause(),
            final(self).having_clause() == old(self).having_clause(),
            final(self).order_by_clause() == old(self).order_by_clause(),
            final(self).limit_clause() == old(self).limit_clause(),
            final(self).lock_clause() == old(self).lock_clause(),
    {
        self.sources_alias_name.set(new_name)
    }
}

impl<W, C, G, H, O, L, LM> SelectBuilder<EmptyFromClause, W, C, G, H, O, L, LM> {
    /// A builder without sources has attached none.
    pub open spec fn well_formed(&self) -> bool {
        self.source_count() == 0
    }
}

impl<QS, W, C, G, H, O, L, LM> SelectBuilder<FromClause<QS>, W, C, G, H, O, L, LM> where
    QS: SourceTree,
 {
    /// The sources attached are as many as the builder has counted, they share
    /// the builder's name, and they are numbered from 1 in the order in which
    /// they were attached.
    pub open spec fn well_formed(&self) -> bool {
        let aliases = self.from_clause().inner().aliases();
        &&& aliases.len() == self.source_count()
        &&& forall|i: int|
            0 <= i < aliases.len() ==> (#[trigger] aliases[i]).alias_name() == self.alias_name()
                && aliases[i].suffix() == i + 1
    }
}

impl Default for synonym::EmptySelectBuilder {
    /// The empty builder, with a name of its own whose cell holds the
    /// prefix `t`.
    fn default() -> (r: Self)
        ensures
            r.well_formed(),
    {
        SelectBuilder {
            sources: EmptyFromClause,
            sources_num: 0,
            sources_alias_name: SourceAliasName::default(),
            filter: EmptyWhereClause,
            columns: (),
            group_by: EmptyGroupByClause,
            having: EmptyHavingClause,
            order_by: EmptyOrderByClause,
            limit: EmptyLimitClause,
            lock_mode: LockModeDefaultBehavior,
        }
    }
}

impl synonym::EmptySelectBuilder {
    /// The empty builder, with a name of its own whose cell holds the
    /// prefix `t`.
    pub fn new() -> (r: synonym::EmptySelectBuilder)
        ensures
            r.well_formed(),
    {
        Default::default()
    }

    /// Attaches the first source. Returns the builder and the handle of the
    /// source.
    pub fn source<QS>(self, source: QS) -> (r: (
        synonym::SourceUpdatedBuilder<synonym::IntoQuerySourceRef<QS>>,
        synonym::IntoQuerySourceRef<QS>,
    )) where QS: IntoQuerySource, QS::QuerySource: QuerySource + Clone
        requires
            self.well_formed(),
        ensures
            r.0.well_formed(),
            r.0.source_count() == 1,
            r.0.alias_name() == self.alias_name(),
            r.0.from_clause().inner().source() == source.query_source(),
            self.is_next_alias(r.0.from_clause().inner().source_alias()),
            self.attaches(source.query_source(), r.1),
    {
        let sources_num = self.sources_num + 1;
        let src_ref = QuerySourceRef::new(
            source.into_query_source(),
            SourceAlias::new(self.sources_alias_name.clone(), sources_num),
        );
        let ret_src_ref = src_ref.clone();
        let new_builder = SelectBuilder {
            sources: FromClause::new(src_ref),
            sources_num,
            sources_alias_name: self.sources_alias_name,
            filter: self.filter,
            columns: (),
            group_by: self.group_by,
            having: self.having,
            order_by: self.order_by,
            limit: self.limit,
            lock_mode: self.lock_mode,
        };
        (new_builder, ret_src_ref)
    }
}

impl<QS, W> SelectBuilder<
    QS,
    W,
    (),
    EmptyGroupByClause,
    EmptyHavingClause,
    EmptyOrderByClause,
    EmptyLimitClause,
    LockModeDefaultBehavior,
> {
    /// Sets the selected columns: an expression, a list of columns, or distinct
    /// columns.
    pub fn select<C>(self, columns: C) -> (r: SelectBuilder<
        QS,
        W,
        C,
        EmptyGroupByClause,
        EmptyHavingClause,
        EmptyOrderByClause,
        EmptyLimitClause,
        LockModeDefaultBehavior,
    >) where C: Columns
        ensures
            r.selected() == columns,
            r.from_clause() == self.from_clause(),
            r.source_count() == self.source_count(),
            r.alias_name() == self.alias_name(),
            r.where_clause() == self.where_clause(),
    {
        SelectBuilder {
            sources: self.sources,
            sources_num: self.sources_num,
            sources_alias_name: self.sources_alias_name,
            filter: self.filter,
            columns,
            group_by: self.group_by,
            having: self.having,
            order_by: self.order_by,
            limit: self.limit,
            lock_mode: self.lock_mode,
        }
    }
}

impl<QS> SelectBuilder<
    FromClause<QS>,
    EmptyWhereClause,
    (),
    EmptyGroupByClause,
    EmptyHavingClause,
    EmptyOrderByClause,
    EmptyLimitClause,
    LockModeDefaultBehavior,
> where QS: QuerySource {
    /// Joins a new source to the sources so far. `on` makes the condition of
    /// the join from the handle of the new source. Returns the builder and the
    /// handle.
    pub fn inner_join<QS2, ON, EXP>(self, source: QS2, mut on: ON) -> (r: (
        synonym::SourceUpdatedBuilder<synonym::Join<QS, QS2, EXP>>,
        synonym::IntoQuerySourceRef<QS2>,
    )) where
        QS2: IntoQuerySource,
        QS2::Database: Joinable<QS::Database>,
        QS2::QuerySource: QuerySource + Clone,
        ON: FnMut(QuerySourceRef<QS2::QuerySource>) -> EXP,
        EXP: Expression<SqlType = SqlTypeBool>,

        requires
            self.well_formed(),
            self.source_count() < u8::MAX,
            forall|handle: QuerySourceRef<QS2::QuerySource>|
                self.is_next_alias(handle.source_alias()) ==> call_requires(on, (handle,)),
        ensures
            r.0.well_formed(),
            r.0.source_count() == self.source_count() + 1,
            r.0.alias_name() == self.alias_name(),
            r.0.from_clause().inner() matches Join::Inner(left, right, condition)
                && left == self.from_clause().inner()
                && right.source() == source.query_source()
                && self.is_next_alias(right.source_alias())
                && exists|handle: QuerySourceRef<QS2::QuerySource>|
                    self.attaches(source.query_source(), handle) && call_ensures(
                        on,
                        (handle,),
                        condition,
                    ),
            self.attaches(source.query_source(), r.1),
    {
        let sources_num = self.sources_num + 1;
        let src_ref = QuerySourceRef::new(
            source.into_query_source(),
            SourceAlias::new(self.sources_alias_name.clone(), sources_num),
        );
        let ret_src_ref = src_ref.clone();
        let handle = src_ref.clone();
        assert(self.attaches(source.query_source(), handle));
        let on_expr = on(handle);
        let new_builder = SelectBuilder {
            sources: FromClause::new(Join::Inner(self.sources.unwrap(), src_ref, on_expr)),
            sources_num,
            sources_alias_name: self.sources_alias_name,
            filter: self.filter,
            columns: (),
            group_by: self.group_by,
            having: self.having,
            order_by: self.order_by,
            limit: self.limit,
            lock_mode: self.lock_mode,
        };
        (new_builder, ret_src_ref)
    }

    /// Left outer joins a new source to the sources so far: every row of the
    /// sources so far is kept, and the columns of the new source may be NULL, so
    /// the new source is attached as its nullable form. `on` makes the condition
    /// of the join from the handle of the new source. Returns the builder and the
    /// handle.
    pub fn left_outer_join<QS2, ON, EXP>(self, source: QS2, mut on: ON) -> (r: (
        synonym::SourceUpdatedBuilder<synonym::LeftOuterJoin<QS, QS2, EXP>>,
        synonym::IntoNullableQuerySourceRef<QS2>,
    )) where
        QS2: IntoQuerySource,
        QS2::Database: Joinable<QS::Database>,
        QS2::QuerySource: QuerySource + Clone,
        <QS2::QuerySource as QuerySource>::NullableSelf: Clone,
        ON: FnMut(QuerySourceRef<<QS2::QuerySource as QuerySource>::NullableSelf>) -> EXP,
        EXP: Expression<SqlType = SqlTypeBool>,

        requires
            self.well_formed(),
            self.source_count() < u8::MAX,
            forall|handle: QuerySourceRef<<QS2::QuerySource as QuerySource>::NullableSelf>|
                self.is_next_alias(handle.source_alias()) ==> call_requires(on, (handle,)),
        ensures
            r.0.well_formed(),
            r.0.source_count() == self.source_count() + 1,
            r.0.alias_name() == self.alias_name(),
            r.0.from_clause().inner() matches Join::LeftOuter(left, right, condition)
                && left == self.from_clause().inner()
                && renders_like(right.source(), source.query_source())
                && self.is_next_alias(right.source_alias())
                && self.attaches(right.source(), r.1)
                && exists|handle: QuerySourceRef<<QS2::QuerySource as QuerySource>::NullableSelf>|
                    self.attaches(right.source(), handle) && call_ensures(
                        on,
                        (handle,),
                        condition,
                    ),
    {
        let sources_num = self.sources_num + 1;
        let src_ref = QuerySourceRef::new(
            source.into_query_source().nullable(),
            SourceAlias::new(self.sources_alias_name.clone(), sources_num),
        );
        let ret_src_ref = src_ref.clone();
        let handle = src_ref.clone();
        assert(self.attaches(src_ref.source(), handle));
        let on_expr = on(handle);
        let new_builder = SelectBuilder {
            sources: FromClause::new(Join::LeftOuter(self.sources.unwrap(), src_ref, on_expr)),
            sources_num,
            sources_alias_name: self.sources_alias_name,
            filter: self.filter,
            columns: (),
            group_by: self.group_by,
            having: self.having,
            order_by: self.order_by,
            limit: self.limit,
            lock_mode: self.lock_mode,
        };
        (new_builder, ret_src_ref)
    }

    /// Right outer joins a new source to the sources so far: every row of the
    /// new source is kept, and the columns of the sources so far may be NULL, so
    /// the sources so far are replaced by their nullable form. `on` makes the
    /// condition of the join from the handle of the new source. Returns the
    /// builder and the handle.
    pub fn right_outer_join<QS2, ON, EXP>(self, source: QS2, mut on: ON) -> (r: (
        synonym::SourceUpdatedBuilder<synonym::RightOuterJoin<QS, QS2, EXP>>,
        synonym::IntoQuerySourceRef<QS2>,
    )) where
        QS2: IntoQuerySource,
        QS2::Database: Joinable<QS::Database>,
        QS2::QuerySource: QuerySource + Clone,
        ON: FnMut(QuerySourceRef<QS2::QuerySource>) -> EXP,
        EXP: Expression<SqlType = SqlTypeBool>,

        requires
            self.well_formed(),
            self.source_count() < u8::MAX,
            forall|handle: QuerySourceRef<QS2::QuerySource>|
                self.is_next_alias(handle.source_alias()) ==> call_requires(on, (handle,)),
        ensures
            r.0.well_formed(),
            r.0.source_count() == self.source_count() + 1,
            r.0.alias_name() == self.alias_name(),
            r.0.from_clause().inner() matches Join::RightOuter(left, right, condition)
                && renders_like(left, self.from_clause().inner())
                && right.source() == source.query_source()
                && self.is_next_alias(right.source_alias())
                && exists|handle: QuerySourceRef<QS2::QuerySource>|
                    self.attaches(source.query_source(), handle) && call_ensures(
                        on,
                        (handle,),
                        condition,
                    ),
            self.attaches(source.query_source(), r.1),
    {
        let sources_num = self.sources_num + 1;
        let src_ref = QuerySourceRef::new(
            source.into_query_source(),
            SourceAlias::new(self.sources_alias_name.clone(), sources_num),
        );
        let ret_src_ref = src_ref.clone();
        let handle = src_ref.clone();
        assert(self.attaches(source.query_source(), handle));
        let on_expr = on(handle);
        let new_builder = SelectBuilder {
            sources: FromClause::new(
                Join::RightOuter(self.sources.unwrap().nullable(), src_ref, on_expr),
            ),
            sources_num,
            sources_alias_name: self.sources_alias_name,
            filter: self.filter,
            columns: (),
            group_by: self.group_by,
            having: self.having,
            order_by: self.order_by,
            limit: self.limit,
            lock_mode: self.lock_mode,
        };
        (new_builder, ret_src_ref)
    }

    /// Cross joins a new source to the sources so far. Returns the builder and
    /// the handle of the new source.
    pub fn cross_join<QS2>(self, source: QS2) -> (r: (
        synonym::SourceUpdatedBuilder<synonym::CrossJoin<QS, QS2>>,
        synonym::IntoQuerySourceRef<QS2>,
    )) where
        QS2: IntoQuerySource,
        QS2::Database: Joinable<QS::Database>,
        QS2::QuerySource: QuerySource + Clone,

        requires
            self.well_formed(),
            self.source_count() < u8::MAX,
        ensures
            r.0.well_formed(),
            r.0.source_count() == self.source_count() + 1,
            r.0.alias_name() == self.alias_name(),
            r.0.from_clause().inner() matches Join::Cross(left, right)
                && left == self.from_clause().inner()
                && right.source() == source.query_source()
                && self.is_next_alias(right.source_alias()),
            self.attaches(source.query_source(), r.1),
    {
        let sources_num = self.sources_num + 1;
        let src_ref = QuerySourceRef::new(
            source.into_query_source(),
            SourceAlias::new(self.sources_alias_name.clone(), sources_num),
        );
        let ret_src_ref = src_ref.clone();
        let new_builder = SelectBuilder {
            sources: FromClause::new(Join::Cross(self.sources.unwrap(), src_ref)),
            sources_num,
            sources_alias_name: self.sources_alias_name,
            filter: self.filter,
            columns: (),
            group_by: self.group_by,
            having: self.having,
            order_by: self.order_by,
            limit: self.limit,
            lock_mode: self.lock_mode,
        };
        (new_builder, ret_src_ref)
    }

    /// Sets the filter.
    pub fn filter<W>(self, expr: W) -> (r: SelectBuilder<
        FromClause<QS>,
        WhereClause<W>,
        (),
        EmptyGroupByClause,
        EmptyHavingClause,
        EmptyOrderByClause,
        EmptyLimitClause,
        LockModeDefaultBehavior,
    >) where W: Expression<SqlType = SqlTypeBool, Aggregation = NonAggregate>
        ensures
            r.where_clause().inner() == expr,
            r.from_clause() == self.from_clause(),
            r.source_count() == self.source_count(),
            r.alias_name() == self.alias_name(),
    {
        SelectBuilder {
            sources: self.sources,
            sources_num: self.sources_num,
            sources_alias_name: self.sources_alias_name,
            filter: WhereClause::new(expr),
            columns: (),
            group_by: self.group_by,
            having: self.having,
            order_by: self.order_by,
            limit: self.limit,
            lock_mode: self.lock_mode,
        }
    }
}

impl<QS, W, C> SelectBuilder<
    FromClause<QS>,
    W,
    C,
    EmptyGroupByClause,
    EmptyHavingClause,
    EmptyOrderByClause,
    EmptyLimitClause,
    LockModeDefaultBehavior,
> where QS: QuerySource, C: Columns {
    /// Sets the columns that the rows are grouped by.
    pub fn group_by<G>(self, group: G) -> (r: SelectBuilder<
        FromClause<QS>,
        W,
        C,
        GroupByClause<G>,
        EmptyHavingClause,
        EmptyOrderByClause,
        EmptyLimitClause,
        LockModeDefaultBehavior,
    >) where G: Columns<Aggregation = NonAggregate>
        ensures
            r.group_by_clause().inner() == group,
            r.from_clause() == self.from_clause(),
            r.source_count() == self.source_count(),
            r.alias_name() == self.alias_name(),
            r.where_clause() == self.where_clause(),
            r.selected() == self.selected(),
    {
        SelectBuilder {
            sources: self.sources,
            sources_num: self.sources_num,
            sources_alias_name: self.sources_alias_name,
            filter: self.filter,
            columns: self.columns,
            group_by: GroupByClause::new(group),
            having: self.having,
            order_by: self.order_by,
            limit: self.limit,
            lock_mode: self.lock_mode,
        }
    }
}

impl<QS, W, C, G> SelectBuilder<
    FromClause<QS>,
    W,
    C,
    GroupByClause<G>,
    EmptyHavingClause,
    EmptyOrderByClause,
    EmptyLimitClause,
    LockModeDefaultBehavior,
> where QS: QuerySource, C: Columns, G: Columns {
    /// Sets the condition on the groups.
    pub fn having<H>(self, having: H) -> (r: SelectBuilder<
        FromClause<QS>,
        W,
        C,
        GroupByClause<G>,
        HavingClause<H>,
        EmptyOrderByClause,
        EmptyLimitClause,
        LockModeDefaultBehavior,
    >) where H: Expression<SqlType = SqlTypeBool>
        ensures
            r.having_clause().inner() == having,
            r.from_clause() == self.from_clause(),
            r.source_count() == self.source_count(),
            r.alias_name() == self.alias_name(),
            r.where_clause() == self.where_clause(),
            r.selected() == self.selected(),
            r.group_by_clause() == self.group_by_clause(),
    {
        SelectBuilder {
            sources: self.sources,
            sources_num: self.sources_num,
            sources_alias_name: self.sources_alias_name,
            filter: self.filter,
            columns: self.columns,
            group_by: self.group_by,
            having: HavingClause::new(having),
            order_by: self.order_by,
            limit: self.limit,
            lock_mode: self.lock_mode,
        }
    }
}

impl<QS, W, C, G, H> SelectBuilder<
    FromClause<QS>,
    W,
    C,
    G,
    H,
    EmptyOrderByClause,
    EmptyLimitClause,
    LockModeDefaultBehavior,
> where QS: QuerySource, C: Columns {
    /// Sets the ordering.
    pub fn order_by<O>(self, order: O) -> (r: SelectBuilder<
        FromClause<QS>,
        W,
        C,
        G,
        H,
        OrderByClause<O>,
        EmptyLimitClause,
        LockModeDefaultBehavior,
    >) where O: Orders
        ensures
            r.order_by_clause().inner() == order,
            r.from_clause() == self.from_clause(),
            r.source_count() == self.source_count(),
            r.alias_name() == self.alias_name(),
            r.where_clause() == self.where_clause(),
            r.selected() == self.selected(),
            r.group_by_clause() == self.group_by_clause(),
            r.having_clause() == self.having_clause(),
    {
        SelectBuilder {
            sources: self.sources,
            sources_num: self.sources_num,
            sources_alias_name: self.sources_alias_name,
            filter: self.filter,
            columns: self.columns,
            group_by: self.group_by,
            having: self.having,
            order_by: OrderByClause::new(order),
            limit: self.limit,
            lock_mode: self.lock_mode,
        }
    }
}

impl<QS, W, C, G, H, O> SelectBuilder<
    FromClause<QS>,
    W,
    C,
    G,
    H,
    O,
    EmptyLimitClause,
    LockModeDefaultBehavior,
> where QS: QuerySource, C: Columns {
    /// Sets the limit: a number of rows, or a pair of the number of rows to skip
    /// and the number of rows.
    pub fn limit<L>(self, limit: L) -> (r: SelectBuilder<
        FromClause<QS>,
        W,
        C,
        G,
        H,
        O,
        LimitClause<Limit>,
        LockModeDefaultBehavior,
    >) where L: Into<Limit>
        ensures
            call_ensures(L::into, (limit,), r.limit_clause().inner()),
            L::obeys_into_spec() ==> r.limit_clause().inner() == limit.into_spec(),
            r.from_clause() == self.from_clause(),
            r.source_count() == self.source_count(),
            r.alias_name() == self.alias_name(),
            r.where_clause() == self.where_clause(),
            r.selected() == self.selected(),
            r.group_by_clause() == self.group_by_clause(),
            r.having_clause() == self.having_clause(),
            r.order_by_clause() == self.order_by_clause(),
    {
        SelectBuilder {
            sources: self.sources,
            sources_num: self.sources_num,
            sources_alias_name: self.sources_alias_name,
            filter: self.filter,
            columns: self.columns,
            group_by: self.group_by,
            having: self.having,
            order_by: self.order_by,
            limit: LimitClause::new(limit.into()),
            lock_mode: self.lock_mode,
        }
    }
}

impl<QS, W, C, G, H, O, L> SelectBuilder<
    FromClause<QS>,
    W,
    C,
    G,
    H,
    O,
    L,
    LockModeDefaultBehavior,
> where QS: QuerySource, C: Columns {
    /// Locks the rows read for writing.
    pub fn for_update(self) -> (r: SelectBuilder<FromClause<QS>, W, C, G, H, O, L, ForUpdate>)
        ensures
            r.from_clause() == self.from_clause(),
            r.source_count() == self.source_count(),
            r.alias_name() == self.alias_name(),
            r.where_clause() == self.where_clause(),
            r.selected() == self.selected(),
            r.group_by_clause() == self.group_by_clause(),
            r.having_clause() == self.having_clause(),
            r.order_by_clause() == self.order_by_clause(),
            r.limit_clause() == self.limit_clause(),
    {
        self.set_lock_mode(ForUpdate)
    }

    /// Locks the rows read against writing.
    pub fn lock_in_share_mode(self) -> (r: SelectBuilder<
        FromClause<QS>,
        W,
        C,
        G,
        H,
        O,
        L,
        LockInShareMode,
    >)
        ensures
            r.from_clause() == self.from_clause(),
            r.source_count() == self.source_count(),
            r.alias_name() == self.alias_name(),
            r.where_clause() == self.where_clause(),
            r.selected() == self.selected(),
            r.group_by_clause() == self.group_by_clause(),
            r.having_clause() == self.having_clause(),
            r.order_by_clause() == self.order_by_clause(),
            r.limit_clause() == self.limit_clause(),
    {
        self.set_lock_mode(LockInShareMode)
    }

    fn set_lock_mode<LM>(self, lock_mode: LM) -> (r: SelectBuilder<
        FromClause<QS>,
        W,
        C,
        G,
        H,
        O,
        L,
        LM,
    >)
        ensures
            r.lock_clause() == lock_mode,
            r.from_clause() == self.from_clause(),
            r.source_count() == self.source_count(),
            r.alias_name() == self.alias_name(),
            r.where_clause() == self.where_clause(),
            r.selected() == self.selected(),
            r.group_by_clause() == self.group_by_clause(),
            r.having_clause() == self.having_clause(),
            r.order_by_clause() == self.order_by_clause(),
            r.limit_clause() == self.limit_clause(),
    {
        SelectBuilder {
            sources: self.sources,
            sources_num: self.sources_num,
            sources_alias_name: self.sources_alias_name,
            filter: self.filter,
            columns: self.columns,
            group_by: self.group_by,
            having: self.having,
            order_by: self.order_by,
            limit: self.limit,
            lock_mode,
        }
    }
}

impl<QS, W, C, G, H, O, L, LM> SelectBuilder<QS, W, C, G, H, O, L, LM> where
    QS: BuildSql,
    C: BuildSql,
    W: BuildSql,
    G: BuildSql,
    H: BuildSql,
    O: BuildSql,
    L: BuildSql,
    LM: BuildSql,
 {
    /// The statement from `SELECT` to the lock mode, with the given prefixes.
    pub open spec fn select_text(&self, prefixes: Prefixes) -> Seq<char> {
        "SELECT "@ + self.selected().sql_text(prefixes) + self.from_clause().sql_text(prefixes)
            + self.where_clause().sql_text(prefixes) + self.group_by_clause().sql_text(prefixes)
            + self.having_clause().sql_text(prefixes) + self.order_by_clause().sql_text(prefixes)
            + self.limit_clause().sql_text(prefixes) + self.lock_clause().sql_text(prefixes)
    }

    /// The names of which the statement shows the prefix, from left to right.
    pub open spec fn select_names(&self) -> Seq<SourceAliasName> {
        self.selected().alias_names() + self.from_clause().alias_names()
            + self.where_clause().alias_names() + self.group_by_clause().alias_names()
            + self.having_clause().alias_names() + self.order_by_clause().alias_names()
            + self.limit_clause().alias_names() + self.lock_clause().alias_names()
    }

    /// The values of the placeholders of the statement, from left to right.
    pub open spec fn select_params(&self) -> Seq<ValueView> {
        self.selected().sql_params() + self.from_clause().sql_params()
            + self.where_clause().sql_params() + self.group_by_clause().sql_params()
            + self.having_clause().sql_params() + self.order_by_clause().sql_params()
            + self.limit_clause().sql_params() + self.lock_clause().sql_params()
    }

    /// Whether no name of a table or of a column in the statement holds a `?`
    /// or a `;`.
    pub open spec fn select_plain_names(&self) -> bool {
        &&& self.selected().plain_names()
        &&& self.from_clause().plain_names()
        &&& self.where_clause().plain_names()
        &&& self.group_by_clause().plain_names()
        &&& self.having_clause().plain_names()
        &&& self.order_by_clause().plain_names()
        &&& self.limit_clause().plain_names()
        &&& self.lock_clause().plain_names()
    }

    /// Where neither the names of the statement nor the prefixes read hold a
    /// `?` or a `;`, the statement from `SELECT` to the lock mode has one `?`
    /// for each of its values, and no `;`.
    pub proof fn lemma_select_marks(&self, prefixes: Prefixes)
        requires
            self.select_plain_names(),
            plain_prefixes(prefixes),
        ensures
            marks(self.select_text(prefixes), self.select_params().len() as int),
    {
        let t0 = "SELECT "@;
        reveal_strlit("SELECT ");
        lemma_plain_marks("SELECT "@);
        let t1 = self.selected().sql_text(prefixes);
        self.selected().lemma_marks(prefixes);
        lemma_marks_concat(t0, 0, t1, self.selected().sql_params().len() as int);
        let a1 = t0 + t1;
        let n1: int = 0int + self.selected().sql_params().len() as int;
        let t2 = self.from_clause().sql_text(prefixes);
        self.from_clause().lemma_marks(prefixes);
        lemma_marks_concat(a1, n1, t2, self.from_clause().sql_params().len() as int);
        let a2 = a1 + t2;
        let n2: int = n1 + self.from_clause().sql_params().len() as int;
        let t3 = self.where_clause().sql_text(prefixes);
        self.where_clause().lemma_marks(prefixes);
        lemma_marks_concat(a2, n2, t3, self.where_clause().sql_params().len() as int);
        let a3 = a2 + t3;
        let n3: int = n2 + self.where_clause().sql_params().len() as int;
        let t4 = self.group_by_clause().sql_text(prefixes);
        self.group_by_clause().lemma_marks(prefixes);
        lemma_marks_concat(a3, n3, t4, self.group_by_clause().sql_params().len() as int);
        let a4 = a3 + t4;
        let n4: int = n3 + self.group_by_clause().sql_params().len() as int;
        let t5 = self.having_clause().sql_text(prefixes);
        self.having_clause().lemma_marks(prefixes);
        lemma_marks_concat(a4, n4, t5, self.having_clause().sql_params().len() as int);
        let a5 = a4 + t5;
        let n5: int = n4 + self.having_clause().sql_params().len() as int;
        let t6 = self.order_by_clause().sql_text(prefixes);
        self.order_by_clause().lemma_marks(prefixes);
        lemma_marks_concat(a5, n5, t6, self.order_by_clause().sql_params().len() as int);
        let a6 = a5 + t6;
        let n6: int = n5 + self.order_by_clause().sql_params().len() as int;
        let t7 = self.limit_clause().sql_text(prefixes);
        self.limit_clause().lemma_marks(prefixes);
        lemma_marks_concat(a6, n6, t7, self.limit_clause().sql_params().len() as int);
        let a7 = a6 + t7;
        let n7: int = n6 + self.limit_clause().sql_params().len() as int;
        let t8 = self.lock_clause().sql_text(prefixes);
        self.lock_clause().lemma_marks(prefixes);
        lemma_marks_concat(a7, n7, t8, self.lock_clause().sql_params().len() as int);
    }

    /// Whether rendering the statement always succeeds: whether rendering each
    /// of its parts does.
    pub open spec fn select_infallible(&self) -> bool {
        &&& self.selected().infallible()
        &&& self.from_clause().infallible()
        &&& self.where_clause().infallible()
        &&& self.group_by_clause().infallible()
        &&& self.having_clause().infallible()
        &&& self.order_by_clause().infallible()
        &&& self.limit_clause().infallible()
        &&& self.lock_clause().infallible()
    }

    /// The text of the finished statement.
    pub open spec fn statement_text(&self, prefixes: Prefixes) -> Seq<char> {
        self.select_text(prefixes) + ";"@
    }

    /// Reads the prefix of each name of the statement that was not read
    /// before.
    pub fn note_select_names(&self, prefixes: &mut AliasPrefixes)
        ensures
            extends(old(prefixes)@, final(prefixes)@),
            covers(final(prefixes)@, self.select_names()),
    {
        let ghost start = prefixes@;
        self.columns.note_names(prefixes);
        let ghost mut done = self.columns.alias_names();
        note_part(&self.sources, prefixes, Ghost(start), Ghost(done));
        proof {
            done = done + self.sources.alias_names();
        }
        note_part(&self.filter, prefixes, Ghost(start), Ghost(done));
        proof {
            done = done + self.filter.alias_names();
        }
        note_part(&self.group_by, prefixes, Ghost(start), Ghost(done));
        proof {
            done = done + self.group_by.alias_names();
        }
        note_part(&self.having, prefixes, Ghost(start), Ghost(done));
        proof {
            done = done + self.having.alias_names();
        }
        note_part(&self.order_by, prefixes, Ghost(start), Ghost(done));
        proof {
            done = done + self.order_by.alias_names();
        }
        note_part(&self.limit, prefixes, Ghost(start), Ghost(done));
        proof {
            done = done + self.limit.alias_names();
        }
        note_part(&self.lock_mode, prefixes, Ghost(start), Ghost(done));
    }

    /// Renders the finished statement, ended by `;`, with the given prefixes.
    pub fn build_statement(
        &self,
        prefixes: &AliasPrefixes,
        buf: &mut Vec<u8>,
        params: &mut Vec<Value>,
    ) -> (r: Result<(), BuildSqlError>)
        ensures
            self.select_infallible() ==> r is Ok,
            r is Ok ==> final(buf)@ == old(buf)@ + encode_utf8(self.statement_text(prefixes@)),
            r is Ok ==> final(params).deep_view() == old(params).deep_view()
                + self.select_params(),
    {
        self.build_select(prefixes, buf, params)?;
        write_str(buf, ";");
        proof {
            broadcast use lemma_encode_utf8_concat;

            assert(buf@ =~= old(buf)@ + encode_utf8(self.statement_text(prefixes@)));
        }
        Ok(())
    }

    /// Renders the statement from `SELECT` to the lock mode.
    fn build_select(&self, prefixes: &AliasPrefixes, buf: &mut Vec<u8>, params: &mut Vec<Value>) -> (r:
        Result<(), BuildSqlError>)
        ensures
            self.select_infallible() ==> r is Ok,
            r is Ok ==> final(buf)@ == old(buf)@ + encode_utf8(self.select_text(prefixes@)),
            r is Ok ==> final(params).deep_view() == old(params).deep_view()
                + self.select_params(),
    {
        let ghost base = buf@;
        let ghost bound = params.deep_view();
        write_str(buf, "SELECT ");
        let ghost mut text = "SELECT "@;
        let ghost mut values = Seq::<ValueView>::empty();
        assert(params.deep_view() =~= bound + values);
        let run = Ghost(Rendered { base, text, bound, values });
        build_part(&self.columns, prefixes, buf, params, run)?;
        proof {
            text = text + self.columns.sql_text(prefixes@);
            assert(values + self.columns.sql_params() =~= self.columns.sql_params());
            values = self.columns.sql_params();
        }
        let run = Ghost(Rendered { base, text, bound, values });
        build_part(&self.sources, prefixes, buf, params, run)?;
        proof {
            text = text + self.sources.sql_text(prefixes@);
            values = values + self.sources.sql_params();
        }
        let run = Ghost(Rendered { base, text, bound, values });
        build_part(&self.filter, prefixes, buf, params, run)?;
        proof {
            text = text + self.filter.sql_text(prefixes@);
            values = values + self.filter.sql_params();
        }
        let run = Ghost(Rendered { base, text, bound, values });
        build_part(&self.group_by, prefixes, buf, params, run)?;
        proof {
            text = text + self.group_by.sql_text(prefixes@);
            values = values + self.group_by.sql_params();
        }
        let run = Ghost(Rendered { base, text, bound, values });
        build_part(&self.having, prefixes, buf, params, run)?;
        proof {
            text = text + self.having.sql_text(prefixes@);
            values = values + self.having.sql_params();
        }
        let run = Ghost(Rendered { base, text, bound, values });
        build_part(&self.order_by, prefixes, buf, params, run)?;
        proof {
            text = text + self.order_by.sql_text(prefixes@);
            values = values + self.order_by.sql_params();
        }
        let run = Ghost(Rendered { base, text, bound, values });
        build_part(&self.limit, prefixes, buf, params, run)?;
        proof {
            text = text + self.limit.sql_text(prefixes@);
            values = values + self.limit.sql_params();
        }
        let run = Ghost(Rendered { base, text, bound, values });
        build_part(&self.lock_mode, prefixes, buf, params, run)
    }

    /// Reads the prefixes of the names of the statement, each from its cell
    /// and each once, renders the statement with them, ended by `;`, and
    /// returns it as a query. A failure of a part is handed on as it came.
    pub fn build(self) -> (r: Result<Query, QueryBuildError>)
        ensures
            self.select_infallible() ==> r is Ok,
            r matches Ok(q) ==> q.values() == self.select_params() && exists|prefixes: Prefixes|
                covers(prefixes, self.select_names()) && q.text() == #[trigger] self.statement_text(
                    prefixes,
                ),
            r matches Err(e) ==> e is BuildSqlError,
    {
        let mut buf: Vec<u8> = Vec::with_capacity(128);
        let mut params: Vec<Value> = Vec::with_capacity(32);
        let mut prefixes = AliasPrefixes::new();
        self.note_select_names(&mut prefixes);
        let result = self.build_statement(&prefixes, &mut buf, &mut params);
        proof {
            if result is Ok {
                lemma_text_of_encoding(self.statement_text(prefixes@));
                assert(buf@ =~= encode_utf8(self.statement_text(prefixes@)));
                assert(params.deep_view() =~= self.select_params());
            }
        }
        Query::of_rendering(result, buf, params)
    }
}

impl<QS, W, C, G, H, O, L, LM> BuildSql for SelectBuilder<QS, W, C, G, H, O, L, LM> where
    QS: BuildSql,
    C: BuildSql,
    W: BuildSql,
    G: BuildSql,
    H: BuildSql,
    O: BuildSql,
    L: BuildSql,
    LM: BuildSql,
 {
    /// As a part of another query the statement stands in parentheses, without
    /// the `;`.
    open spec fn sql_text(&self, prefixes: Prefixes) -> Seq<char> {
        "("@ + self.select_text(prefixes) + ")"@
    }

    open spec fn sql_params(&self) -> Seq<ValueView> {
        self.select_params()
    }

    open spec fn alias_names(&self) -> Seq<SourceAliasName> {
        self.select_names()
    }

    open spec fn plain_names(&self) -> bool {
        self.select_plain_names()
    }

    open spec fn infallible(&self) -> bool {
        self.select_infallible()
    }

    proof fn lemma_marks(&self, prefixes: Prefixes) {
        let t0 = "("@;
        reveal_strlit("(");
        lemma_plain_marks("("@);
        let t1 = self.select_text(prefixes);
        self.lemma_select_marks(prefixes);
        lemma_marks_concat(t0, 0, t1, self.select_params().len() as int);
        let a1 = t0 + t1;
        let n1: int = 0int + self.select_params().len() as int;
        let t2 = ")"@;
        reveal_strlit(")");
        lemma_plain_marks(")"@);
        lemma_marks_concat(a1, n1, t2, 0);
    }

    fn note_names(&self, prefixes: &mut AliasPrefixes) {
        self.note_select_names(prefixes);
    }

    fn build_sql_in(
        &self,
        prefixes: &AliasPrefixes,
        buf: &mut Vec<u8>,
        params: &mut Vec<Value>,
    ) -> (r: Result<(), BuildSqlError>) {
        write_str(buf, "(");
        self.build_select(prefixes, buf, params)?;
        write_str(buf, ")");
        proof {
            broadcast use lemma_encode_utf8_concat;

            assert(buf@ =~= old(buf)@ + encode_utf8(self.sql_text(prefixes@)));
        }
        Ok(())
    }
}

/// A statement used as a value: the value of its selected columns in its one
/// row.
impl<QS, W, C, G, H, O, L, LM> Expression for SelectBuilder<QS, W, C, G, H, O, L, LM> where
    C: Columns,
 {
    type SqlType = C::SqlType;

    type Term = Monomial;

    type BoolOperation = NonBool;

    type Aggregation = NonAggregate;
}

impl<QS, W, C, G, H, O, L, LM> SourceTree for SelectBuilder<QS, W, C, G, H, O, L, LM> {
    /// A nested statement attaches nothing to the statement around it: its
    /// sources are its own.
    open spec fn aliases(&self) -> Seq<SourceAlias> {
        Seq::empty()
    }
}

/// A statement used as a source of rows.
impl<QS, W, C, G, H, O, L, LM> QuerySource for SelectBuilder<QS, W, C, G, H, O, L, LM> where
    QS: BuildSql,
    C: BuildSql + Columns,
    W: BuildSql,
    G: BuildSql,
    H: BuildSql,
    O: BuildSql,
    L: BuildSql,
    LM: BuildSql,
 {
    type Database = AnyDatabase;

    type NullableSelf = Self;

    fn nullable(self) -> (r: Self::NullableSelf)
        ensures
            r == self,
    {
        self
    }
}

impl<QS, W, C, G, H, O, L, LM> IntoQuerySource for SelectBuilder<QS, W, C, G, H, O, L, LM> where
    QS: BuildSql,
    C: BuildSql + Columns,
    W: BuildSql,
    G: BuildSql,
    H: BuildSql,
    O: BuildSql,
    L: BuildSql,
    LM: BuildSql,
 {
    type Database = AnyDatabase;

    type QuerySource = Self;

    open spec fn query_source(self) -> Self::QuerySource {
        self
    }

    fn into_query_source(self) -> (r: Self::QuerySource) {
        self
    }
}

} // verus!
