//! What holds of every query, stated over the rendered text and parameters.

use vstd::prelude::*;
use vstd::utf8::*;
use super::alias::{
    covered, lemma_extends_keeps, plain_prefixes, prefix_in, Prefixes, SourceAlias,
    SourceAliasName,
};
use super::builder::SelectBuilder;
use super::clauses::{
    EmptyFromClause, EmptyGroupByClause, EmptyHavingClause, EmptyLimitClause, EmptyOrderByClause,
    EmptyWhereClause, FromClause, LockModeDefaultBehavior, WhereClause,
};
use super::logic::{And, Or};
use super::operators::{placeholders, AsList, Comparison, Equal, InList, InfixOperator};
use super::render::{renders_like, BuildSql};
use super::source::{Join, QuerySourceRef, SourceTree, TableName};
use super::text::{count_of, decimal, lemma_count_concat};
use super::types::{
    Aggregation, BoolAnd, BoolKind, BoolMono, BoolOr, BoolShape, Comparable, Expression,
    SqlTypeBool,
};
use super::value::Literal;

verus! {

/// Selecting one literal and nothing else gives the statement `SELECT ?;` with
/// the literal's value as its one parameter.
pub proof fn law_select_literal<V: Literal>(
    builder: SelectBuilder<
        EmptyFromClause,
        EmptyWhereClause,
        V,
        EmptyGroupByClause,
        EmptyHavingClause,
        EmptyOrderByClause,
        EmptyLimitClause,
        LockModeDefaultBehavior,
    >,
    prefixes: Prefixes,
)
    ensures
        builder.statement_text(prefixes) == "SELECT ?;"@,
        builder.select_params() == seq![builder.selected().value()],
        builder.select_names() == Seq::<SourceAliasName>::empty(),
        builder.select_infallible(),
{
    reveal_strlit("SELECT ");
    reveal_strlit("?");
    reveal_strlit(";");
    reveal_strlit("SELECT ?;");
    assert(builder.statement_text(prefixes) =~= "SELECT ?;"@);
    assert(builder.select_names() =~= Seq::<SourceAliasName>::empty());
    assert(builder.select_params() =~= seq![builder.selected().value()]);
}

/// An alias shows the prefix that was read for its name, and its number. So
/// all aliases of one name show one prefix, whichever of them the prefix was
/// last replaced through, and aliases of another name do not change with it.
pub proof fn law_aliases_of_a_name_share_its_prefix(
    prefixes: Prefixes,
    first: SourceAlias,
    second: SourceAlias,
)
    requires
        first.alias_name() == second.alias_name(),
    ensures
        first.rendered(prefixes) == prefix_in(prefixes, first.alias_name()) + decimal(
            first.suffix() as nat,
        ),
        second.rendered(prefixes) == prefix_in(prefixes, first.alias_name()) + decimal(
            second.suffix() as nat,
        ),
{
}

/// How an alias is rendered depends on what was read for its own name alone:
/// what was read for other names, before or after, does not show in it.
pub proof fn law_alias_shows_its_own_name_alone(
    prefixes: Prefixes,
    others: Prefixes,
    alias: SourceAlias,
)
    requires
        forall|j: int| 0 <= j < others.len() ==> (#[trigger] others[j]).0 != alias.alias_name(),
    ensures
        alias.rendered(others + prefixes) == alias.rendered(prefixes),
        covered(prefixes, alias.alias_name()) ==> alias.rendered(prefixes + others)
            == alias.rendered(prefixes),
    decreases others.len(),
{
    if others.len() > 0 {
        assert(others[0].0 != alias.alias_name());
        assert((others + prefixes).drop_first() =~= others.drop_first() + prefixes);
        law_alias_shows_its_own_name_alone(prefixes, others.drop_first(), alias);
    } else {
        assert(others + prefixes =~= prefixes);
    }
    if covered(prefixes, alias.alias_name()) {
        let longer = prefixes + others;
        assert forall|j: int| 0 <= j < prefixes.len() implies #[trigger] longer[j]
            == prefixes[j] by {}
        lemma_extends_keeps(prefixes, longer, alias.alias_name());
    }
}

/// The sources attached to a builder show the prefix read for the builder's
/// name and the numbers 1, 2 and so on, in the order in which they were
/// attached, whatever the prefix was when each was attached.
pub proof fn law_sources_are_numbered<QS, W, C, G, H, O, L, LM>(
    builder: SelectBuilder<FromClause<QS>, W, C, G, H, O, L, LM>,
    prefixes: Prefixes,
    i: int,
) where QS: SourceTree
    requires
        builder.well_formed(),
        0 <= i < builder.source_count(),
    ensures
        builder.from_clause().inner().aliases().len() == builder.source_count(),
        builder.from_clause().inner().aliases()[i].rendered(prefixes) == prefix_in(
            prefixes,
            builder.alias_name(),
        ) + decimal((i + 1) as nat),
{
}

/// The first source of a name whose prefix was read as `t` has the alias `t1`,
/// and the second the alias `t2`; with another prefix the numbers stay.
pub proof fn law_aliases_are_numbered(prefixes: Prefixes, first: SourceAlias, second: SourceAlias)
    requires
        first.alias_name() == second.alias_name(),
        first.suffix() == 1,
        second.suffix() == 2,
    ensures
        first.rendered(prefixes) == prefix_in(prefixes, first.alias_name()) + "1"@,
        second.rendered(prefixes) == prefix_in(prefixes, first.alias_name()) + "2"@,
        prefix_in(prefixes, first.alias_name()) == "t"@ ==> first.rendered(prefixes) == "t1"@
            && second.rendered(prefixes) == "t2"@,
{
    reveal_strlit("1");
    reveal_strlit("2");
    reveal_strlit("t");
    reveal_strlit("t1");
    reveal_strlit("t2");
    assert(decimal(1) =~= "1"@);
    assert(decimal(2) =~= "2"@);
    let prefix = prefix_in(prefixes, first.alias_name());
    if prefix == "t"@ {
        assert(prefix + "1"@ =~= "t1"@);
        assert(prefix + "2"@ =~= "t2"@);
    }
}

/// Selecting one literal from one table gives `SELECT ? FROM`, the table's
/// name, ` as `, the prefix read for the builder's name and the number of the
/// source, and `;`.
pub proof fn law_select_literal_from_table<'a, DB, V: Literal>(
    builder: SelectBuilder<
        FromClause<QuerySourceRef<TableName<'a, DB>>>,
        EmptyWhereClause,
        V,
        EmptyGroupByClause,
        EmptyHavingClause,
        EmptyOrderByClause,
        EmptyLimitClause,
        LockModeDefaultBehavior,
    >,
    prefixes: Prefixes,
)
    requires
        builder.from_clause().inner().source_alias().alias_name() == builder.alias_name(),
    ensures
        builder.statement_text(prefixes) == "SELECT ? FROM "@
            + builder.from_clause().inner().source().name@ + " as "@ + prefix_in(
            prefixes,
            builder.alias_name(),
        ) + decimal(builder.from_clause().inner().source_alias().suffix() as nat) + ";"@,
        builder.select_params() == seq![builder.selected().value()],
        builder.select_names() == seq![builder.alias_name()],
        builder.select_infallible(),
{
    reveal_strlit("SELECT ");
    reveal_strlit("?");
    reveal_strlit(" FROM ");
    reveal_strlit("SELECT ? FROM ");
    let handle = builder.from_clause().inner();
    assert("SELECT "@ + "?"@ + " FROM "@ =~= "SELECT ? FROM "@);
    assert(builder.statement_text(prefixes) =~= "SELECT ? FROM "@ + handle.source().name@ + " as "@
        + prefix_in(prefixes, builder.alias_name()) + decimal(
        handle.source_alias().suffix() as nat,
    ) + ";"@);
    assert(builder.select_params() =~= seq![builder.selected().value()]);
    assert(builder.select_names() =~= seq![builder.alias_name()]);
}

/// The filter is rendered as ` WHERE ` and the condition, after the sources and
/// before the grouping, the condition on the groups, the ordering, the limit
/// and the lock mode; and an equality is rendered as its two sides with ` = `
/// between them.
pub proof fn law_filter_follows_sources<QS, A, B, C, G, H, O, L, LM>(
    builder: SelectBuilder<FromClause<QS>, WhereClause<Comparison<Equal, A, B>>, C, G, H, O, L, LM>,
    prefixes: Prefixes,
) where
    QS: BuildSql,
    A: Expression + BuildSql,
    B: Expression + BuildSql,
    A::SqlType: Comparable<B::SqlType>,
    C: BuildSql,
    G: BuildSql,
    H: BuildSql,
    O: BuildSql,
    L: BuildSql,
    LM: BuildSql,

    ensures
        ({
            let condition = builder.where_clause().inner();
            builder.select_text(prefixes) == "SELECT "@ + builder.selected().sql_text(prefixes)
                + " FROM "@ + builder.from_clause().inner().sql_text(prefixes) + " WHERE "@
                + condition.lhs().sql_text(prefixes) + " = "@ + condition.rhs().sql_text(prefixes)
                + builder.group_by_clause().sql_text(prefixes) + builder.having_clause().sql_text(
                prefixes,
            ) + builder.order_by_clause().sql_text(prefixes) + builder.limit_clause().sql_text(prefixes)
                + builder.lock_clause().sql_text(prefixes)
        }),
{
    let condition = builder.where_clause().inner();
    assert(builder.select_text(prefixes) =~= "SELECT "@ + builder.selected().sql_text(prefixes)
        + " FROM "@ + builder.from_clause().inner().sql_text(prefixes) + " WHERE "@
        + condition.lhs().sql_text(prefixes) + " = "@ + condition.rhs().sql_text(prefixes)
        + builder.group_by_clause().sql_text(prefixes) + builder.having_clause().sql_text(prefixes)
        + builder.order_by_clause().sql_text(prefixes) + builder.limit_clause().sql_text(prefixes)
        + builder.lock_clause().sql_text(prefixes));
}

/// A list of `n` placeholders has a `?` for each, and a comma and a blank
/// between two of them.
pub proof fn law_placeholders(n: nat)
    ensures
        n == 0 ==> placeholders(n).len() == 0,
        n > 0 ==> placeholders(n).len() == 3 * n - 2,
        forall|i: int| 0 <= i < n ==> #[trigger] placeholders(n)[3 * i] == '?',
        forall|i: int|
            0 <= i < n - 1 ==> #[trigger] placeholders(n)[3 * i + 1] == ',' && placeholders(n)[3
                * i + 2] == ' ',
    decreases n,
{
    reveal_strlit("?");
    reveal_strlit(", ?");
    if n >= 2 {
        law_placeholders((n - 1) as nat);
        let shorter = placeholders((n - 1) as nat);
        assert(placeholders(n) == shorter + ", ?"@);
        assert forall|i: int| 0 <= i < n implies #[trigger] placeholders(n)[3 * i] == '?' by {
            if i < n - 1 {
                assert(placeholders(n)[3 * i] == shorter[3 * i]);
            }
        }
        assert forall|i: int| 0 <= i < n - 1 implies #[trigger] placeholders(n)[3 * i + 1] == ','
            && placeholders(n)[3 * i + 2] == ' ' by {
            if i < n - 2 {
                assert(placeholders(n)[3 * i + 1] == shorter[3 * i + 1]);
                assert(placeholders(n)[3 * i + 2] == shorter[3 * i + 2]);
            }
        }
    }
}

/// `IN` and `NOT IN` over a list of literals render the left side, the
/// operator and, in parentheses, one placeholder for each literal; and they
/// bind, after the values of the left side, the value of each literal, in the
/// order of the list.
pub proof fn law_in_list<OP, L, R, ARR>(
    list: InList<OP, L, R, ARR>,
    prefixes: Prefixes,
) where
    OP: InfixOperator,
    L: Expression + BuildSql,
    R: Expression + Literal,
    R::SqlType: Comparable<L::SqlType>,
    ARR: AsList<R>,

    ensures
        list.sql_text(prefixes) == list.lhs().sql_text(prefixes) + OP::symbol() + "("@ + placeholders(
            list.rhs().len(),
        ) + ")"@,
        list.sql_params().len() == list.lhs().sql_params().len() + list.rhs().len(),
        forall|i: int|
            0 <= i < list.lhs().sql_params().len() ==> list.sql_params()[i]
                == list.lhs().sql_params()[i],
        forall|i: int|
            0 <= i < list.rhs().len() ==> #[trigger] list.sql_params()[list.lhs().sql_params().len()
                + i] == list.rhs()[i].value(),
{
}

/// What a part appends to the text and to the parameters depends on the part
/// and on the prefixes read alone: rendered twice with them, it appends the same
/// both times.
pub proof fn law_rendering_is_repeatable<T: BuildSql>(
    part: T,
    prefixes: Prefixes,
    first_before: Seq<u8>,
    first_after: Seq<u8>,
    second_before: Seq<u8>,
    second_after: Seq<u8>,
)
    requires
        first_after == first_before + encode_utf8(part.sql_text(prefixes)),
        second_after == second_before + encode_utf8(part.sql_text(prefixes)),
    ensures
        first_after.skip(first_before.len() as int) == second_after.skip(
            second_before.len() as int,
        ),
{
    assert(first_after.skip(first_before.len() as int) =~= encode_utf8(part.sql_text(prefixes)));
    assert(second_after.skip(second_before.len() as int) =~= encode_utf8(part.sql_text(prefixes)));
}

/// Under `AND` an operand stands in parentheses exactly when it is a
/// disjunction.
pub proof fn law_and_wraps_disjunctions<L, LK, R, RK>(
    conjunction: And<L, LK, R, RK>,
    prefixes: Prefixes,
) where
    L: Expression<BoolOperation = LK> + BuildSql,
    R: Expression<BoolOperation = RK> + BuildSql,
    LK: BoolKind,
    RK: BoolKind,
    L::SqlType: Comparable<SqlTypeBool>,
    R::SqlType: Comparable<SqlTypeBool>,

    ensures
        ({
            let left = conjunction.lhs().sql_text(prefixes);
            let right = conjunction.rhs().sql_text(prefixes);
            let text = conjunction.sql_text(prefixes);
            &&& LK::shape() != BoolShape::Disjunction && RK::shape() != BoolShape::Disjunction
                ==> text == left + " AND "@ + right
            &&& LK::shape() == BoolShape::Disjunction && RK::shape() != BoolShape::Disjunction
                ==> text == "("@ + left + ")"@ + " AND "@ + right
            &&& LK::shape() != BoolShape::Disjunction && RK::shape() == BoolShape::Disjunction
                ==> text == left + " AND "@ + ("("@ + right + ")"@)
            &&& LK::shape() == BoolShape::Disjunction && RK::shape() == BoolShape::Disjunction
                ==> text == "("@ + left + ")"@ + " AND "@ + ("("@ + right + ")"@)
        }),
{
}

/// Under `OR` an operand stands in parentheses exactly when it is a
/// conjunction.
pub proof fn law_or_wraps_conjunctions<L, LK, R, RK>(
    disjunction: Or<L, LK, R, RK>,
    prefixes: Prefixes,
) where
    L: Expression<BoolOperation = LK> + BuildSql,
    R: Expression<BoolOperation = RK> + BuildSql,
    LK: BoolKind,
    RK: BoolKind,
    L::SqlType: Comparable<SqlTypeBool>,
    R::SqlType: Comparable<SqlTypeBool>,

    ensures
        ({
            let left = disjunction.lhs().sql_text(prefixes);
            let right = disjunction.rhs().sql_text(prefixes);
            let text = disjunction.sql_text(prefixes);
            &&& LK::shape() != BoolShape::Conjunction && RK::shape() != BoolShape::Conjunction
                ==> text == left + " OR "@ + right
            &&& LK::shape() == BoolShape::Conjunction && RK::shape() != BoolShape::Conjunction
                ==> text == "("@ + left + ")"@ + " OR "@ + right
            &&& LK::shape() != BoolShape::Conjunction && RK::shape() == BoolShape::Conjunction
                ==> text == left + " OR "@ + ("("@ + right + ")"@)
            &&& LK::shape() == BoolShape::Conjunction && RK::shape() == BoolShape::Conjunction
                ==> text == "("@ + left + ")"@ + " OR "@ + ("("@ + right + ")"@)
        }),
{
}

/// A disjunction of single predicates under `AND` with a single predicate:
/// `(a OR b) AND c`.
pub proof fn law_disjunction_under_and<A, B, C>(
    conjunction: And<Or<A, BoolMono, B, BoolMono>, BoolOr, C, BoolMono>,
    prefixes: Prefixes,
) where
    A: Expression<BoolOperation = BoolMono> + BuildSql,
    B: Expression<BoolOperation = BoolMono> + BuildSql,
    C: Expression<BoolOperation = BoolMono> + BuildSql,
    A::SqlType: Comparable<SqlTypeBool>,
    B::SqlType: Comparable<SqlTypeBool>,
    B::SqlType: Comparable<A::SqlType>,
    A::Aggregation: Aggregation<B::Aggregation>,
    C::SqlType: Comparable<SqlTypeBool>,

    ensures
        conjunction.sql_text(prefixes) == "("@ + conjunction.lhs().lhs().sql_text(prefixes) + " OR "@
            + conjunction.lhs().rhs().sql_text(prefixes) + ") AND "@ + conjunction.rhs().sql_text(
            prefixes,
        ),
{
    reveal_strlit(")");
    reveal_strlit(" AND ");
    reveal_strlit(") AND ");
    assert(")"@ + " AND "@ =~= ") AND "@);
    assert(conjunction.sql_text(prefixes) =~= "("@ + conjunction.lhs().lhs().sql_text(prefixes)
        + " OR "@ + conjunction.lhs().rhs().sql_text(prefixes) + ") AND "@
        + conjunction.rhs().sql_text(prefixes));
}

/// A conjunction of single predicates under `OR` with a single predicate:
/// `(a AND b) OR c`.
pub proof fn law_conjunction_under_or<A, B, C>(
    disjunction: Or<And<A, BoolMono, B, BoolMono>, BoolAnd, C, BoolMono>,
    prefixes: Prefixes,
) where
    A: Expression<BoolOperation = BoolMono> + BuildSql,
    B: Expression<BoolOperation = BoolMono> + BuildSql,
    C: Expression<BoolOperation = BoolMono> + BuildSql,
    A::SqlType: Comparable<SqlTypeBool>,
    B::SqlType: Comparable<SqlTypeBool>,
    B::SqlType: Comparable<A::SqlType>,
    A::Aggregation: Aggregation<B::Aggregation>,
    C::SqlType: Comparable<SqlTypeBool>,

    ensures
        disjunction.sql_text(prefixes) == "("@ + disjunction.lhs().lhs().sql_text(prefixes) + " AND "@
            + disjunction.lhs().rhs().sql_text(prefixes) + ") OR "@ + disjunction.rhs().sql_text(
            prefixes,
        ),
{
    reveal_strlit(")");
    reveal_strlit(" OR ");
    reveal_strlit(") OR ");
    assert(")"@ + " OR "@ =~= ") OR "@);
    assert(disjunction.sql_text(prefixes) =~= "("@ + disjunction.lhs().lhs().sql_text(prefixes)
        + " AND "@ + disjunction.lhs().rhs().sql_text(prefixes) + ") OR "@
        + disjunction.rhs().sql_text(prefixes));
}

/// A left outer join renders as its left side, `LEFT OUTER JOIN`, the
/// attached source with its alias, ` ON ` and the condition: the nullable form
/// in which the source is attached shows nowhere in the text, in the
/// parameters or in the names.
pub proof fn law_nullable_source_renders_alike<L, S, N, E>(
    left: L,
    source: QuerySourceRef<S>,
    attached: QuerySourceRef<N>,
    condition: E,
    prefixes: Prefixes,
) where
    L: BuildSql,
    S: BuildSql,
    N: BuildSql,
    E: Expression<SqlType = SqlTypeBool> + BuildSql,

    requires
        renders_like(attached.source(), source.source()),
        attached.source_alias() == source.source_alias(),
    ensures
        ({
            let join = Join::LeftOuter(left, attached, condition);
            &&& join.sql_text(prefixes) == left.sql_text(prefixes) + " LEFT OUTER JOIN "@
                + source.sql_text(prefixes) + " ON "@ + condition.sql_text(prefixes)
            &&& join.sql_params() == left.sql_params() + source.sql_params()
                + condition.sql_params()
            &&& join.infallible() == (left.infallible() && source.infallible()
                && condition.infallible())
        }),
{
    assert(attached.source().sql_text(prefixes) == source.source().sql_text(prefixes));
}

/// A statement with a left outer join and the statement with the inner join
/// of the same parts differ in the keyword of that join alone: the texts are
/// one head and one tail with ` LEFT OUTER JOIN ` or ` JOIN ` between them,
/// and the parameters and the names are the same.
pub proof fn law_left_outer_join_differs_in_keyword<L, R, N, E1, E2, W, C, G, H, O, LI, LM>(
    inner: SelectBuilder<FromClause<Join<L, QuerySourceRef<R>, E1>>, W, C, G, H, O, LI, LM>,
    outer: SelectBuilder<FromClause<Join<L, QuerySourceRef<N>, E2>>, W, C, G, H, O, LI, LM>,
    prefixes: Prefixes,
) where
    L: BuildSql,
    R: BuildSql,
    N: BuildSql,
    E1: Expression<SqlType = SqlTypeBool> + BuildSql,
    E2: Expression<SqlType = SqlTypeBool> + BuildSql,
    W: BuildSql,
    C: BuildSql,
    G: BuildSql,
    H: BuildSql,
    O: BuildSql,
    LI: BuildSql,
    LM: BuildSql,

    requires
        inner.from_clause().inner() is Inner,
        outer.from_clause().inner() is LeftOuter,
        outer.from_clause().inner()->LeftOuter_0 == inner.from_clause().inner()->Inner_0,
        renders_like(
            outer.from_clause().inner()->LeftOuter_1.source(),
            inner.from_clause().inner()->Inner_1.source(),
        ),
        outer.from_clause().inner()->LeftOuter_1.source_alias()
            == inner.from_clause().inner()->Inner_1.source_alias(),
        renders_like(outer.from_clause().inner()->LeftOuter_2, inner.from_clause().inner()->Inner_2),
        outer.selected() == inner.selected(),
        outer.where_clause() == inner.where_clause(),
        outer.group_by_clause() == inner.group_by_clause(),
        outer.having_clause() == inner.having_clause(),
        outer.order_by_clause() == inner.order_by_clause(),
        outer.limit_clause() == inner.limit_clause(),
        outer.lock_clause() == inner.lock_clause(),
    ensures
        ({
            let joined = inner.from_clause().inner();
            let head = "SELECT "@ + inner.selected().sql_text(prefixes) + " FROM "@
                + joined->Inner_0.sql_text(prefixes);
            let tail = joined->Inner_1.sql_text(prefixes) + " ON "@ + joined->Inner_2.sql_text(
                prefixes,
            ) + inner.where_clause().sql_text(prefixes) + inner.group_by_clause().sql_text(
                prefixes,
            ) + inner.having_clause().sql_text(prefixes) + inner.order_by_clause().sql_text(
                prefixes,
            ) + inner.limit_clause().sql_text(prefixes) + inner.lock_clause().sql_text(prefixes)
                + ";"@;
            &&& inner.statement_text(prefixes) == head + " JOIN "@ + tail
            &&& outer.statement_text(prefixes) == head + " LEFT OUTER JOIN "@ + tail
        }),
        outer.select_params() == inner.select_params(),
        outer.select_names() == inner.select_names(),
        outer.select_infallible() == inner.select_infallible(),
{
    let joined = inner.from_clause().inner();
    let other = outer.from_clause().inner();
    let head = "SELECT "@ + inner.selected().sql_text(prefixes) + " FROM "@
        + joined->Inner_0.sql_text(prefixes);
    let tail = joined->Inner_1.sql_text(prefixes) + " ON "@ + joined->Inner_2.sql_text(prefixes)
        + inner.where_clause().sql_text(prefixes) + inner.group_by_clause().sql_text(prefixes)
        + inner.having_clause().sql_text(prefixes) + inner.order_by_clause().sql_text(prefixes)
        + inner.limit_clause().sql_text(prefixes) + inner.lock_clause().sql_text(prefixes) + ";"@;
    assert(other->LeftOuter_1.source().sql_text(prefixes) == joined->Inner_1.source().sql_text(
        prefixes,
    ));
    assert(other->LeftOuter_2.sql_text(prefixes) == joined->Inner_2.sql_text(prefixes));
    assert(inner.statement_text(prefixes) =~= head + " JOIN "@ + tail);
    assert(outer.statement_text(prefixes) =~= head + " LEFT OUTER JOIN "@ + tail);
}

/// In a statement whose names of tables and columns, and whose prefixes,
/// hold neither `?` nor `;`, there is one `?` for each parameter, and the one
/// `;` is the last character.
pub proof fn law_placeholders_match_parameters<QS, W, C, G, H, O, L, LM>(
    builder: SelectBuilder<QS, W, C, G, H, O, L, LM>,
    prefixes: Prefixes,
) where
    QS: BuildSql,
    W: BuildSql,
    C: BuildSql,
    G: BuildSql,
    H: BuildSql,
    O: BuildSql,
    L: BuildSql,
    LM: BuildSql,

    requires
        builder.select_plain_names(),
        plain_prefixes(prefixes),
    ensures
        count_of(builder.statement_text(prefixes), '?') == builder.select_params().len(),
        count_of(builder.statement_text(prefixes), ';') == 1,
        builder.statement_text(prefixes).last() == ';',
        count_of(builder.statement_text(prefixes).drop_last(), ';') == 0,
{
    reveal_strlit(";");
    builder.lemma_select_marks(prefixes);
    let body = builder.select_text(prefixes);
    let end = ";"@;
    assert(end.drop_last() =~= Seq::<char>::empty());
    assert(count_of(end.drop_last(), '?') == 0);
    assert(count_of(end.drop_last(), ';') == 0);
    assert(end.last() == ';');
    lemma_count_concat(body, end, '?');
    lemma_count_concat(body, end, ';');
    assert((body + end).drop_last() =~= body);
}

} // verus!
