//! The tags of an expression: the type of its value, its shape as a term, its
//! kind as a boolean operand and whether it aggregates. The tags are types, so
//! an expression that breaks a rule does not compile. What each tag stands for
//! is a value, in which the rules are stated.

use std::marker::PhantomData;
use vstd::prelude::*;

verus! {

/// The type of a value, as a value: what a type tag stands for.
pub enum SqlTypeTag {
    /// Not known before the query runs.
    Any,
    String,
    Int,
    Uint,
    Bool,
    /// A row of values of the given types.
    Row(Seq<SqlTypeTag>),
    /// A row of any length of values of the given type.
    List(Box<SqlTypeTag>),
}

impl SqlTypeTag {
    /// Whether the type is that of a single value.
    pub open spec fn single(self) -> bool {
        !(self is Row) && !(self is List)
    }
}

/// A type that tags expressions with the type of their values.
pub trait TypeTag {
    /// What the tag stands for.
    spec fn type_tag() -> SqlTypeTag;
}

/// Whether values of two types may be compared: those of a type with one
/// another, those of a type not known before the query runs with any single
/// value, and signed with unsigned integers.
pub open spec fn comparable(a: SqlTypeTag, b: SqlTypeTag) -> bool {
    ||| a == b
    ||| a is Any && b.single()
    ||| b is Any && a.single()
    ||| a is Int && b is Uint
    ||| a is Uint && b is Int
}

/// The type of a value that is not known before the query runs.
#[derive(Debug, Clone, Copy, Eq, PartialEq, Hash, Default)]
pub struct SqlTypeAny;

/// The type of strings.
#[derive(Debug, Clone, Copy, Eq, PartialEq, Hash, Default)]
pub struct SqlTypeString;

/// The type of signed integers.
#[derive(Debug, Clone, Copy, Eq, PartialEq, Hash, Default)]
pub struct SqlTypeInt;

/// The type of unsigned integers.
#[derive(Debug, Clone, Copy, Eq, PartialEq, Hash, Default)]
pub struct SqlTypeUint;

/// The type of truth values.
#[derive(Debug, Clone, Copy, Eq, PartialEq, Hash, Default)]
pub struct SqlTypeBool;

impl TypeTag for SqlTypeAny {
    open spec fn type_tag() -> SqlTypeTag {
        SqlTypeTag::Any
    }
}

impl TypeTag for SqlTypeString {
    open spec fn type_tag() -> SqlTypeTag {
        SqlTypeTag::String
    }
}

impl TypeTag for SqlTypeInt {
    open spec fn type_tag() -> SqlTypeTag {
        SqlTypeTag::Int
    }
}

impl TypeTag for SqlTypeUint {
    open spec fn type_tag() -> SqlTypeTag {
        SqlTypeTag::Uint
    }
}

impl TypeTag for SqlTypeBool {
    open spec fn type_tag() -> SqlTypeTag {
        SqlTypeTag::Bool
    }
}

/// The type of a row of any length of values of the type `T`.
#[derive(Debug, Eq, PartialEq, Hash, Default)]
pub struct SqlTypeList<T>(pub PhantomData<T>);

impl<T> Clone for SqlTypeList<T> {
    fn clone(&self) -> (r: Self) {
        SqlTypeList(PhantomData)
    }
}

impl<T> Copy for SqlTypeList<T> {
}

impl<T: TypeTag> TypeTag for SqlTypeList<T> {
    open spec fn type_tag() -> SqlTypeTag {
        SqlTypeTag::List(Box::new(T::type_tag()))
    }
}

/// `Self` may be compared with `T`.
pub trait Comparable<T: TypeTag>: TypeTag {
    /// The two types are among those that may be compared.
    proof fn comparable_types()
        ensures
            comparable(Self::type_tag(), T::type_tag()),
    ;
}

impl Comparable<SqlTypeString> for SqlTypeAny {
    proof fn comparable_types() {
    }
}

impl Comparable<SqlTypeInt> for SqlTypeAny {
    proof fn comparable_types() {
    }
}

impl Comparable<SqlTypeUint> for SqlTypeAny {
    proof fn comparable_types() {
    }
}

impl Comparable<SqlTypeBool> for SqlTypeAny {
    proof fn comparable_types() {
    }
}

impl Comparable<SqlTypeAny> for SqlTypeString {
    proof fn comparable_types() {
    }
}

impl Comparable<SqlTypeAny> for SqlTypeInt {
    proof fn comparable_types() {
    }
}

impl Comparable<SqlTypeAny> for SqlTypeUint {
    proof fn comparable_types() {
    }
}

impl Comparable<SqlTypeAny> for SqlTypeBool {
    proof fn comparable_types() {
    }
}

impl Comparable<SqlTypeInt> for SqlTypeUint {
    proof fn comparable_types() {
    }
}

impl Comparable<SqlTypeUint> for SqlTypeInt {
    proof fn comparable_types() {
    }
}

impl<T: TypeTag> Comparable<T> for T {
    proof fn comparable_types() {
    }
}

/// Whether an expression stands alone or is made of several terms.
pub trait TermShape {
    /// Whether the expression needs parentheses where a single term is expected.
    spec fn composite() -> bool;

    fn is_composite() -> (b: bool)
        ensures
            b == Self::composite(),
    ;
}

/// A single term.
#[derive(Debug, Clone, Copy, Eq, PartialEq, Hash)]
pub struct Monomial;

/// Several terms joined by operators.
#[derive(Debug, Clone, Copy, Eq, PartialEq, Hash)]
pub struct Polynomial;

impl TermShape for Monomial {
    open spec fn composite() -> bool {
        false
    }

    fn is_composite() -> (b: bool) {
        false
    }
}

impl TermShape for Polynomial {
    open spec fn composite() -> bool {
        true
    }

    fn is_composite() -> (b: bool) {
        true
    }
}

/// What an expression is as an operand of `AND` and `OR`.
#[derive(Debug, Clone, Copy, PartialEq, Eq, Structural)]
pub enum BoolShape {
    /// No predicate.
    NotBoolean,
    /// One predicate.
    Single,
    /// Operands joined by `AND`.
    Conjunction,
    /// Operands joined by `OR`.
    Disjunction,
}

/// A type that tags expressions with what they are as boolean operands.
pub trait BoolTag {
    /// What the tag stands for.
    spec fn shape() -> BoolShape;
}

/// The kinds of expression that can stand under `AND` and `OR`.
pub trait BoolKind: BoolTag {
    fn shape_of() -> (s: BoolShape)
        ensures
            s == Self::shape(),
    ;
}

/// The kind of a conjunction.
#[derive(Debug, Clone, Copy, Eq, PartialEq, Default, Hash)]
pub struct BoolAnd;

/// The kind of a disjunction.
#[derive(Debug, Clone, Copy, Eq, PartialEq, Default, Hash)]
pub struct BoolOr;

/// The kind of a single predicate.
#[derive(Debug, Clone, Copy, Eq, PartialEq, Default, Hash)]
pub struct BoolMono;

/// The kind of an expression that is no predicate.
#[derive(Debug, Clone, Copy, Eq, PartialEq, Default, Hash)]
pub struct NonBool;

impl BoolTag for BoolAnd {
    open spec fn shape() -> BoolShape {
        BoolShape::Conjunction
    }
}

impl BoolTag for BoolOr {
    open spec fn shape() -> BoolShape {
        BoolShape::Disjunction
    }
}

impl BoolTag for BoolMono {
    open spec fn shape() -> BoolShape {
        BoolShape::Single
    }
}

impl BoolTag for NonBool {
    open spec fn shape() -> BoolShape {
        BoolShape::NotBoolean
    }
}

/// The kind of a condition that is left out.
impl BoolTag for () {
    open spec fn shape() -> BoolShape {
        BoolShape::NotBoolean
    }
}

impl BoolKind for BoolAnd {
    fn shape_of() -> (s: BoolShape) {
        BoolShape::Conjunction
    }
}

impl BoolKind for BoolOr {
    fn shape_of() -> (s: BoolShape) {
        BoolShape::Disjunction
    }
}

impl BoolKind for BoolMono {
    fn shape_of() -> (s: BoolShape) {
        BoolShape::Single
    }
}

/// A class of expressions by what they say of a group of rows, or a list of
/// such classes.
pub trait AggregationClass {
    /// Whether an expression of the class, or of one of the classes of the
    /// list, summarises a group of rows.
    spec fn aggregates() -> bool;
}

/// The class of an expression that summarises a group of rows.
#[derive(Debug, Clone, Copy, Eq, PartialEq, Default, Hash)]
pub struct Aggregate;

/// The class of an expression with one value for each row.
#[derive(Debug, Clone, Copy, Eq, PartialEq, Default, Hash)]
pub struct NonAggregate;

impl AggregationClass for Aggregate {
    open spec fn aggregates() -> bool {
        true
    }
}

impl AggregationClass for NonAggregate {
    open spec fn aggregates() -> bool {
        false
    }
}

/// The empty list of classes.
impl AggregationClass for () {
    open spec fn aggregates() -> bool {
        false
    }
}

/// A class and a list of classes.
impl<B: AggregationClass, C: AggregationClass> AggregationClass for (B, C) {
    open spec fn aggregates() -> bool {
        B::aggregates() || C::aggregates()
    }
}

/// The class of an expression made of one of class `Self` and one of class
/// `T`: `Aggregate` if either is, else `NonAggregate`. `T` may also be a list
/// of classes, written as nested pairs that end in `()`.
pub trait Aggregation<T: AggregationClass>: AggregationClass {
    type Output: AggregationClass;

    /// The combined class aggregates exactly when one of the two does.
    proof fn combined()
        ensures
            Self::Output::aggregates() == (Self::aggregates() || T::aggregates()),
    ;
}

impl Aggregation<Aggregate> for NonAggregate {
    type Output = Aggregate;

    proof fn combined() {
    }
}

impl Aggregation<NonAggregate> for Aggregate {
    type Output = Aggregate;

    proof fn combined() {
    }
}

impl Aggregation<Aggregate> for Aggregate {
    type Output = Aggregate;

    proof fn combined() {
    }
}

impl Aggregation<NonAggregate> for NonAggregate {
    type Output = NonAggregate;

    proof fn combined() {
    }
}

impl Aggregation<()> for Aggregate {
    type Output = Aggregate;

    proof fn combined() {
    }
}

impl Aggregation<()> for NonAggregate {
    type Output = NonAggregate;

    proof fn combined() {
    }
}

impl<A, B, C> Aggregation<(B, C)> for A where
    A: Aggregation<B>,
    A::Output: Aggregation<C>,
    B: AggregationClass,
    C: AggregationClass,
 {
    type Output = <A::Output as Aggregation<C>>::Output;

    proof fn combined() {
        <A as Aggregation<B>>::combined();
        <A::Output as Aggregation<C>>::combined();
    }
}

/// An expression, with its four tags.
pub trait Expression {
    /// The type of the value.
    type SqlType: TypeTag;

    /// Whether the expression is a single term or made of several.
    type Term: TermShape;

    /// What the expression is as an operand of `AND` and `OR`.
    type BoolOperation: BoolTag;

    /// Whether the expression summarises a group of rows.
    type Aggregation: AggregationClass;
}

/// The four tags of an expression, as values.
pub struct Tags {
    pub sql_type: SqlTypeTag,
    pub composite: bool,
    pub bool_shape: BoolShape,
    pub aggregate: bool,
}

/// The tags of the expressions of type `E`.
pub open spec fn tags_of<E: Expression>() -> Tags {
    Tags {
        sql_type: E::SqlType::type_tag(),
        composite: E::Term::composite(),
        bool_shape: E::BoolOperation::shape(),
        aggregate: E::Aggregation::aggregates(),
    }
}

/// What can be selected or grouped by: an expression or a list of them. A
/// list is a tuple of up to twelve members, a tuple of such tuples, or a
/// vector.
pub trait Columns {
    /// The type of the value, or the types of the values of a list.
    type SqlType: TypeTag;

    /// Whether one of the columns summarises a group of rows.
    type Aggregation: AggregationClass;
}

impl<E: Expression> Columns for E {
    type SqlType = E::SqlType;

    type Aggregation = E::Aggregation;
}

/// What can be ordered by: an `Order` or a list of them.
pub trait Orders {
}

} // verus!
