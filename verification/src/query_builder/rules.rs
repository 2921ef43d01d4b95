//! The rules by which expressions are tagged: for each form of expression,
//! the type of its value, whether it is made of several terms, what it is as a
//! boolean operand, and whether it summarises a group of rows; and which types
//! its operands have.

use vstd::prelude::*;
use super::builder::SelectBuilder;
use super::columns::Record;
use super::functions::{Count, Date, Left, Sum};
use super::logic::{And, Not, Or};
use super::operators::{AsList, Between, Comparison, InList, NullCheck};
use super::source::Column;
use super::subquery::Quantified;
use super::types::{
    comparable, tags_of, Aggregation, AggregationClass, BoolShape, Columns, Comparable,
    Expression, NonAggregate, SqlTypeAny, SqlTypeBool, SqlTypeInt, SqlTypeString, SqlTypeTag,
    Tags, TermShape, TypeTag,
};
use super::value::{SqlInt, SqlString, SqlUint, Value};

verus! {

/// The tags of a predicate over operands of which `aggregate` says whether one
/// summarises a group of rows: a boolean made of several terms.
pub open spec fn predicate_tags(aggregate: bool) -> Tags {
    Tags {
        sql_type: SqlTypeTag::Bool,
        composite: true,
        bool_shape: BoolShape::Single,
        aggregate,
    }
}

/// The tags of a single value of the given type that is no predicate and
/// summarises no group.
pub open spec fn value_tags(sql_type: SqlTypeTag) -> Tags {
    Tags { sql_type, composite: false, bool_shape: BoolShape::NotBoolean, aggregate: false }
}

/// A bare value is of a type not known before the query runs and may stand as
/// a predicate; a typed literal has its type.
pub proof fn rule_literals()
    ensures
        tags_of::<Value>() == (Tags {
            sql_type: SqlTypeTag::Any,
            composite: false,
            bool_shape: BoolShape::Single,
            aggregate: false,
        }),
        tags_of::<SqlString>() == value_tags(SqlTypeTag::String),
        tags_of::<SqlInt>() == value_tags(SqlTypeTag::Int),
        tags_of::<SqlUint>() == value_tags(SqlTypeTag::Uint),
{
}

/// A column is a single value of the type that it was made with.
pub proof fn rule_column<ST: TypeTag>()
    ensures
        tags_of::<Column<ST>>() == value_tags(ST::type_tag()),
{
}

/// A nested statement is a single value of the type of its selected columns,
/// and summarises no group of the statement around it.
pub proof fn rule_nested_statement<QS, W, C: Columns, G, H, O, L, LM>()
    ensures
        tags_of::<SelectBuilder<QS, W, C, G, H, O, L, LM>>() == value_tags(C::SqlType::type_tag()),
{
}

/// A comparison compares operands of comparable types. It is a predicate, and
/// summarises a group of rows if one of its operands does.
pub proof fn rule_comparison<OP, L, R>() where
    L: Expression,
    R: Expression,
    L::SqlType: Comparable<R::SqlType>,
    L::Aggregation: Aggregation<R::Aggregation>,

    ensures
        comparable(L::SqlType::type_tag(), R::SqlType::type_tag()),
        tags_of::<Comparison<OP, L, R>>() == predicate_tags(
            L::Aggregation::aggregates() || R::Aggregation::aggregates(),
        ),
{
    <L::SqlType as Comparable<R::SqlType>>::comparable_types();
    <L::Aggregation as Aggregation<R::Aggregation>>::combined();
}

/// A comparison with the rows of a nested statement compares an operand with
/// columns of a comparable type. It is a predicate, and summarises no group.
pub proof fn rule_quantified_comparison<OP, Q, Lhs, QS, W, C, G, H, O, L, LM>() where
    C: Columns,
    Lhs: Expression,
    Lhs::SqlType: Comparable<C::SqlType>,

    ensures
        comparable(Lhs::SqlType::type_tag(), C::SqlType::type_tag()),
        tags_of::<Quantified<OP, Q, Lhs, QS, W, C, G, H, O, L, LM>>() == predicate_tags(false),
{
    <Lhs::SqlType as Comparable<C::SqlType>>::comparable_types();
}

/// `BETWEEN` takes a target and two bounds whose types are comparable with
/// one another. It is a predicate, and summarises a group of rows if the
/// target or one of the bounds does.
pub proof fn rule_between<T, L, U>() where
    T: Expression,
    L: Expression,
    U: Expression,
    L::SqlType: Comparable<T::SqlType>,
    U::SqlType: Comparable<T::SqlType>,
    L::SqlType: Comparable<U::SqlType>,
    T::Aggregation: Aggregation<(L::Aggregation, (U::Aggregation, ()))>,

    ensures
        comparable(L::SqlType::type_tag(), T::SqlType::type_tag()),
        comparable(U::SqlType::type_tag(), T::SqlType::type_tag()),
        comparable(L::SqlType::type_tag(), U::SqlType::type_tag()),
        tags_of::<Between<T, L, U>>() == predicate_tags(
            T::Aggregation::aggregates() || L::Aggregation::aggregates()
                || U::Aggregation::aggregates(),
        ),
{
    <L::SqlType as Comparable<T::SqlType>>::comparable_types();
    <U::SqlType as Comparable<T::SqlType>>::comparable_types();
    <L::SqlType as Comparable<U::SqlType>>::comparable_types();
    <T::Aggregation as Aggregation<(L::Aggregation, (U::Aggregation, ()))>>::combined();
}

/// `IN` and `NOT IN` take an operand and literals of one type that is
/// comparable with the operand's. They are predicates, and summarise a group
/// of rows if the operand or the literals do.
pub proof fn rule_in_list<OP, L, R, ARR>() where
    L: Expression,
    R: Expression,
    R::SqlType: Comparable<L::SqlType>,
    ARR: AsList<R>,
    R::Aggregation: Aggregation<L::Aggregation>,

    ensures
        comparable(R::SqlType::type_tag(), L::SqlType::type_tag()),
        tags_of::<InList<OP, L, R, ARR>>() == predicate_tags(
            R::Aggregation::aggregates() || L::Aggregation::aggregates(),
        ),
{
    <R::SqlType as Comparable<L::SqlType>>::comparable_types();
    <R::Aggregation as Aggregation<L::Aggregation>>::combined();
}

/// `IS NULL` and `IS NOT NULL` are predicates of a single term, and summarise a
/// group of rows if their operand does.
pub proof fn rule_null_check<OP, T: Expression>()
    ensures
        tags_of::<NullCheck<OP, T>>() == (Tags {
            sql_type: SqlTypeTag::Bool,
            composite: false,
            bool_shape: BoolShape::Single,
            aggregate: T::Aggregation::aggregates(),
        }),
{
}

/// `AND` takes a left operand that may be a boolean and a right operand of a
/// type comparable with the left one's. It is a conjunction made of several
/// terms, and summarises a group of rows if one of its operands does.
pub proof fn rule_and<L, R>() where
    L: Expression,
    R: Expression,
    L::SqlType: Comparable<SqlTypeBool>,
    R::SqlType: Comparable<L::SqlType>,
    L::Aggregation: Aggregation<R::Aggregation>,

    ensures
        comparable(L::SqlType::type_tag(), SqlTypeTag::Bool),
        comparable(R::SqlType::type_tag(), L::SqlType::type_tag()),
        tags_of::<And<L, L::BoolOperation, R, R::BoolOperation>>() == (Tags {
            sql_type: SqlTypeTag::Bool,
            composite: true,
            bool_shape: BoolShape::Conjunction,
            aggregate: L::Aggregation::aggregates() || R::Aggregation::aggregates(),
        }),
{
    <L::SqlType as Comparable<SqlTypeBool>>::comparable_types();
    <R::SqlType as Comparable<L::SqlType>>::comparable_types();
    <L::Aggregation as Aggregation<R::Aggregation>>::combined();
}

/// `OR` takes a left operand that may be a boolean and a right operand of a
/// type comparable with the left one's. It is a disjunction made of several
/// terms, and summarises a group of rows if one of its operands does.
pub proof fn rule_or<L, R>() where
    L: Expression,
    R: Expression,
    L::SqlType: Comparable<SqlTypeBool>,
    R::SqlType: Comparable<L::SqlType>,
    L::Aggregation: Aggregation<R::Aggregation>,

    ensures
        comparable(L::SqlType::type_tag(), SqlTypeTag::Bool),
        comparable(R::SqlType::type_tag(), L::SqlType::type_tag()),
        tags_of::<Or<L, L::BoolOperation, R, R::BoolOperation>>() == (Tags {
            sql_type: SqlTypeTag::Bool,
            composite: true,
            bool_shape: BoolShape::Disjunction,
            aggregate: L::Aggregation::aggregates() || R::Aggregation::aggregates(),
        }),
{
    <L::SqlType as Comparable<SqlTypeBool>>::comparable_types();
    <R::SqlType as Comparable<L::SqlType>>::comparable_types();
    <L::Aggregation as Aggregation<R::Aggregation>>::combined();
}

/// `NOT` takes an operand that may be a boolean. It is a predicate of a single
/// term, and summarises a group of rows if its operand does.
pub proof fn rule_not<T>() where T: Expression, T::SqlType: Comparable<SqlTypeBool>
    ensures
        comparable(T::SqlType::type_tag(), SqlTypeTag::Bool),
        tags_of::<Not<T, T::Term>>() == (Tags {
            sql_type: SqlTypeTag::Bool,
            composite: false,
            bool_shape: BoolShape::Single,
            aggregate: T::Aggregation::aggregates(),
        }),
{
    <T::SqlType as Comparable<SqlTypeBool>>::comparable_types();
}

/// `sum` takes what may be an integer and `count` takes any single value;
/// both are integers that summarise a group of rows, whatever their argument
/// does.
pub proof fn rule_aggregate_functions<T, U>() where
    T: Expression,
    T::SqlType: Comparable<SqlTypeInt>,
    U: Expression,
    U::SqlType: Comparable<SqlTypeAny>,

    ensures
        comparable(T::SqlType::type_tag(), SqlTypeTag::Int),
        comparable(U::SqlType::type_tag(), SqlTypeTag::Any),
        tags_of::<Sum<T>>() == (Tags { aggregate: true, ..value_tags(SqlTypeTag::Int) }),
        tags_of::<Count<U>>() == (Tags { aggregate: true, ..value_tags(SqlTypeTag::Int) }),
{
    <T::SqlType as Comparable<SqlTypeInt>>::comparable_types();
    <U::SqlType as Comparable<SqlTypeAny>>::comparable_types();
}

/// `date` takes what may be a string, and `left` what may be a string and
/// what may be an integer; both are strings that summarise no group, whatever
/// their arguments do.
pub proof fn rule_plain_functions<T, N>() where
    T: Expression,
    T::SqlType: Comparable<SqlTypeString>,
    N: Expression,
    N::SqlType: Comparable<SqlTypeInt>,

    ensures
        comparable(T::SqlType::type_tag(), SqlTypeTag::String),
        comparable(N::SqlType::type_tag(), SqlTypeTag::Int),
        tags_of::<Date<T>>() == value_tags(SqlTypeTag::String),
        tags_of::<Left<T, N>>() == value_tags(SqlTypeTag::String),
{
    <T::SqlType as Comparable<SqlTypeString>>::comparable_types();
    <N::SqlType as Comparable<SqlTypeInt>>::comparable_types();
}

/// A row of two expressions has the row of their types as its type. It is
/// made of several terms, and summarises a group of rows if one of its members
/// does.
pub proof fn rule_row<A, B>() where
    A: Expression,
    B: Expression,
    A::Aggregation: Aggregation<(B::Aggregation, ())>,

    ensures
        tags_of::<Record<(A, B)>>() == (Tags {
            sql_type: SqlTypeTag::Row(seq![A::SqlType::type_tag(), B::SqlType::type_tag()]),
            composite: true,
            bool_shape: BoolShape::Single,
            aggregate: A::Aggregation::aggregates() || B::Aggregation::aggregates(),
        }),
{
    <A::Aggregation as Aggregation<(B::Aggregation, ())>>::combined();
}

/// A list of any length of columns of one kind is a row of any length of
/// values of their type, and summarises a group of rows if its members do.
pub proof fn rule_list<E: Expression>()
    ensures
        <<Vec<E> as Columns>::SqlType as TypeTag>::type_tag() == SqlTypeTag::List(
            Box::new(E::SqlType::type_tag()),
        ),
        <<Vec<E> as Columns>::Aggregation as AggregationClass>::aggregates()
            == E::Aggregation::aggregates(),
{
}

/// What the clauses of a statement take: the filter a boolean that summarises
/// no group of rows, the grouping columns that summarise none, and the
/// condition on the groups a boolean.
pub proof fn rule_clauses<W, G, H>() where
    W: Expression<SqlType = SqlTypeBool, Aggregation = NonAggregate>,
    G: Columns<Aggregation = NonAggregate>,
    H: Expression<SqlType = SqlTypeBool>,

    ensures
        tags_of::<W>().sql_type == SqlTypeTag::Bool,
        !tags_of::<W>().aggregate,
        !G::Aggregation::aggregates(),
        tags_of::<H>().sql_type == SqlTypeTag::Bool,
{
}

} // verus!
