//! Predicates: comparisons, `BETWEEN`, `IN` over a list of literals, and the
//! tests for NULL. Each is an expression of type boolean.

use std::marker::PhantomData;
use vstd::prelude::*;
use vstd::utf8::*;
use super::alias::{AliasPrefixes, Prefixes, SourceAliasName};
use super::logic::{AndOperatorMethod, NotOperatorMethod, OrOperatorMethod};
use super::render::{note_part, BuildSql, BuildSqlError};
use super::text::{
    count_of, lemma_encode_utf8_concat, lemma_marks_concat, lemma_plain_marks, marks, plain,
    write_str,
};
use super::types::{
    Aggregation, BoolMono, Comparable, Expression, Monomial, Polynomial, SqlTypeBool,
};
use super::value::{Literal, Value, ValueView};

verus! {

/// An operator that stands between two operands.
pub trait InfixOperator {
    /// The operator as it is written, with the blanks around it.
    spec fn symbol() -> Seq<char>;

    /// The operator is written without `?` and `;`.
    proof fn symbol_is_plain()
        ensures
            plain(Self::symbol()),
    ;

    fn symbol_str() -> (s: &'static str)
        ensures
            s@ == Self::symbol(),
    ;
}

/// `=`
#[derive(Debug, Clone, Copy)]
pub struct Equal;

/// `!=`
#[derive(Debug, Clone, Copy)]
pub struct NotEqual;

/// `>`
#[derive(Debug, Clone, Copy)]
pub struct Greater;

/// `>=`
#[derive(Debug, Clone, Copy)]
pub struct GreaterOrEqual;

/// `<`
#[derive(Debug, Clone, Copy)]
pub struct Less;

/// `<=`
#[derive(Debug, Clone, Copy)]
pub struct LessOrEqual;

/// `LIKE`
#[derive(Debug, Clone, Copy)]
pub struct Matching;

/// `NOT LIKE`
#[derive(Debug, Clone, Copy)]
pub struct NotMatching;

/// `IN`
#[derive(Debug, Clone, Copy)]
pub struct Within;

/// `NOT IN`
#[derive(Debug, Clone, Copy)]
pub struct NotWithin;

impl InfixOperator for Equal {
    open spec fn symbol() -> Seq<char> {
        " = "@
    }

    proof fn symbol_is_plain() {
        reveal_strlit(" = ");
    }

    fn symbol_str() -> (s: &'static str) {
        " = "
    }
}

impl InfixOperator for NotEqual {
    open spec fn symbol() -> Seq<char> {
        " != "@
    }

    proof fn symbol_is_plain() {
        reveal_strlit(" != ");
    }

    fn symbol_str() -> (s: &'static str) {
        " != "
    }
}

impl InfixOperator for Greater {
    open spec fn symbol() -> Seq<char> {
        " > "@
    }

    proof fn symbol_is_plain() {
        reveal_strlit(" > ");
    }

    fn symbol_str() -> (s: &'static str) {
        " > "
    }
}

impl InfixOperator for GreaterOrEqual {
    open spec fn symbol() -> Seq<char> {
        " >= "@
    }

    proof fn symbol_is_plain() {
        reveal_strlit(" >= ");
    }

    fn symbol_str() -> (s: &'static str) {
        " >= "
    }
}

impl InfixOperator for Less {
    open spec fn symbol() -> Seq<char> {
        " < "@
    }

    proof fn symbol_is_plain() {
        reveal_strlit(" < ");
    }

    fn symbol_str() -> (s: &'static str) {
        " < "
    }
}

impl InfixOperator for LessOrEqual {
    open spec fn symbol() -> Seq<char> {
        " <= "@
    }

    proof fn symbol_is_plain() {
        reveal_strlit(" <= ");
    }

    fn symbol_str() -> (s: &'static str) {
        " <= "
    }
}

impl InfixOperator for Matching {
    open spec fn symbol() -> Seq<char> {
        " LIKE "@
    }

    proof fn symbol_is_plain() {
        reveal_strlit(" LIKE ");
    }

    fn symbol_str() -> (s: &'static str) {
        " LIKE "
    }
}

impl InfixOperator for NotMatching {
    open spec fn symbol() -> Seq<char> {
        " NOT LIKE "@
    }

    proof fn symbol_is_plain() {
        reveal_strlit(" NOT LIKE ");
    }

    fn symbol_str() -> (s: &'static str) {
        " NOT LIKE "
    }
}

impl InfixOperator for Within {
    open spec fn symbol() -> Seq<char> {
        " IN "@
    }

    proof fn symbol_is_plain() {
        reveal_strlit(" IN ");
    }

    fn symbol_str() -> (s: &'static str) {
        " IN "
    }
}

impl InfixOperator for NotWithin {
    open spec fn symbol() -> Seq<char> {
        " NOT IN "@
    }

    proof fn symbol_is_plain() {
        reveal_strlit(" NOT IN ");
    }

    fn symbol_str() -> (s: &'static str) {
        " NOT IN "
    }
}

/// Two expressions of comparable types with the operator `OP` between them.
#[derive(Debug)]
pub struct Comparison<OP, L, R> where
    L: Expression,
    R: Expression,
    L::SqlType: Comparable<R::SqlType>,
 {
    lhs: L,
    rhs: R,
    operator: PhantomData<OP>,
}

/// `lhs = rhs`
pub type Eq<L, R> = Comparison<Equal, L, R>;

/// `lhs != rhs`
pub type NotEq<L, R> = Comparison<NotEqual, L, R>;

/// `lhs > rhs`
pub type Gt<L, R> = Comparison<Greater, L, R>;

/// `lhs >= rhs`
pub type Ge<L, R> = Comparison<GreaterOrEqual, L, R>;

/// `lhs < rhs`
pub type Lt<L, R> = Comparison<Less, L, R>;

/// `lhs <= rhs`
pub type Le<L, R> = Comparison<LessOrEqual, L, R>;

/// `lhs LIKE rhs`
pub type Like<L, R> = Comparison<Matching, L, R>;

/// `lhs NOT LIKE rhs`
pub type NotLike<L, R> = Comparison<NotMatching, L, R>;

impl<OP, L, R> Comparison<OP, L, R> where
    L: Expression,
    R: Expression,
    L::SqlType: Comparable<R::SqlType>,
 {
    /// The left operand.
    pub closed spec fn lhs(&self) -> L {
        self.lhs
    }

    /// The right operand.
    pub closed spec fn rhs(&self) -> R {
        self.rhs
    }

    fn new(lhs: L, rhs: R) -> (r: Self)
        ensures
            r.lhs() == lhs,
            r.rhs() == rhs,
    {
        Comparison { lhs, rhs, operator: PhantomData }
    }
}

impl<OP, L, R> Clone for Comparison<OP, L, R> where
    L: Expression + Clone,
    R: Expression + Clone,
    L::SqlType: Comparable<R::SqlType>,
 {
    fn clone(&self) -> (r: Self)
        ensures
            cloned(self.lhs(), r.lhs()),
            cloned(self.rhs(), r.rhs()),
    {
        Comparison { lhs: self.lhs.clone(), rhs: self.rhs.clone(), operator: PhantomData }
    }
}

impl<OP, L, R> Expression for Comparison<OP, L, R> where
    L: Expression,
    R: Expression,
    L::SqlType: Comparable<R::SqlType>,
    L::Aggregation: Aggregation<R::Aggregation>,
 {
    type SqlType = SqlTypeBool;

    type Term = Polynomial;

    type BoolOperation = BoolMono;

    type Aggregation = <L::Aggregation as Aggregation<R::Aggregation>>::Output;
}

impl<OP, L, R> AndOperatorMethod for Comparison<OP, L, R> where
    L: Expression,
    R: Expression,
    L::SqlType: Comparable<R::SqlType>,
    Self: Expression<SqlType = SqlTypeBool>,
 {
}

impl<OP, L, R> OrOperatorMethod for Comparison<OP, L, R> where
    L: Expression,
    R: Expression,
    L::SqlType: Comparable<R::SqlType>,
    Self: Expression<SqlType = SqlTypeBool>,
 {
}

impl<OP, L, R> NotOperatorMethod for Comparison<OP, L, R> where
    L: Expression,
    R: Expression,
    L::SqlType: Comparable<R::SqlType>,
    Self: Expression<SqlType = SqlTypeBool>,
 {
}

impl<OP, L, R> BuildSql for Comparison<OP, L, R> where
    OP: InfixOperator,
    L: Expression + BuildSql,
    R: Expression + BuildSql,
    L::SqlType: Comparable<R::SqlType>,
 {
    open spec fn sql_text(&self, prefixes: Prefixes) -> Seq<char> {
        self.lhs().sql_text(prefixes) + OP::symbol() + self.rhs().sql_text(prefixes)
    }

    open spec fn sql_params(&self) -> Seq<ValueView> {
        self.lhs().sql_params() + self.rhs().sql_params()
    }

    open spec fn alias_names(&self) -> Seq<SourceAliasName> {
        self.lhs().alias_names() + self.rhs().alias_names()
    }

    open spec fn plain_names(&self) -> bool {
        self.lhs().plain_names() && self.rhs().plain_names()
    }

    open spec fn infallible(&self) -> bool {
        self.lhs().infallible() && self.rhs().infallible()
    }

    proof fn lemma_marks(&self, prefixes: Prefixes) {
        let t0 = self.lhs().sql_text(prefixes);
        self.lhs().lemma_marks(prefixes);
        let t1 = OP::symbol();
        OP::symbol_is_plain();
        lemma_plain_marks(OP::symbol());
        lemma_marks_concat(t0, self.lhs().sql_params().len() as int, t1, 0);
        let a1 = t0 + t1;
        let n1: int = self.lhs().sql_params().len() as int + 0;
        let t2 = self.rhs().sql_text(prefixes);
        self.rhs().lemma_marks(prefixes);
        lemma_marks_concat(a1, n1, t2, self.rhs().sql_params().len() as int);
    }

    fn note_names(&self, prefixes: &mut AliasPrefixes) {
        let ghost start = prefixes@;
        self.lhs.note_names(prefixes);
        let ghost mut done = self.lhs().alias_names();
        note_part(&self.rhs, prefixes, Ghost(start), Ghost(done));
    }

    fn build_sql_in(
        &self,
        prefixes: &AliasPrefixes,
        buf: &mut Vec<u8>,
        params: &mut Vec<Value>,
    ) -> (r: Result<(), BuildSqlError>) {
        self.lhs.build_sql_in(prefixes, buf, params)?;
        write_str(buf, OP::symbol_str());
        self.rhs.build_sql_in(prefixes, buf, params)?;
        proof {
            broadcast use lemma_encode_utf8_concat;

            assert(buf@ =~= old(buf)@ + encode_utf8(self.sql_text(prefixes@)));
            assert(params.deep_view() =~= old(params).deep_view() + self.sql_params());
        }
        Ok(())
    }
}

/// The comparisons of an expression with another of a comparable type.
pub trait CompareBinaryOperatorMethod<R>: Expression + Sized where
    R: Expression,
    Self::SqlType: Comparable<R::SqlType>,
 {
    /// SQL `=`.
    fn eq(self, rhs: R) -> (r: Eq<Self, R>)
        ensures
            r.lhs() == self,
            r.rhs() == rhs,
    {
        Comparison::new(self, rhs)
    }

    /// SQL `!=`.
    fn not_eq(self, rhs: R) -> (r: NotEq<Self, R>)
        ensures
            r.lhs() == self,
            r.rhs() == rhs,
    {
        Comparison::new(self, rhs)
    }

    /// SQL `>`.
    fn gt(self, rhs: R) -> (r: Gt<Self, R>)
        ensures
            r.lhs() == self,
            r.rhs() == rhs,
    {
        Comparison::new(self, rhs)
    }

    /// SQL `>=`.
    fn ge(self, rhs: R) -> (r: Ge<Self, R>)
        ensures
            r.lhs() == self,
            r.rhs() == rhs,
    {
        Comparison::new(self, rhs)
    }

    /// SQL `<`.
    fn lt(self, rhs: R) -> (r: Lt<Self, R>)
        ensures
            r.lhs() == self,
            r.rhs() == rhs,
    {
        Comparison::new(self, rhs)
    }

    /// SQL `<=`.
    fn le(self, rhs: R) -> (r: Le<Self, R>)
        ensures
            r.lhs() == self,
            r.rhs() == rhs,
    {
        Comparison::new(self, rhs)
    }

    /// SQL `LIKE`.
    fn like(self, rhs: R) -> (r: Like<Self, R>)
        ensures
            r.lhs() == self,
            r.rhs() == rhs,
    {
        Comparison::new(self, rhs)
    }

    /// SQL `NOT LIKE`.
    fn not_like(self, rhs: R) -> (r: NotLike<Self, R>)
        ensures
            r.lhs() == self,
            r.rhs() == rhs,
    {
        Comparison::new(self, rhs)
    }
}

impl<L, R> CompareBinaryOperatorMethod<R> for L where
    L: Expression,
    R: Expression,
    L::SqlType: Comparable<R::SqlType>,
 {
}

/// `target BETWEEN lower_bound AND upper_bound`. The types of the three are
/// comparable with one another, and the test summarises a group of rows if one
/// of the three does.
#[derive(Debug, Clone)]
pub struct Between<T, L, U> where
    T: Expression,
    L: Expression,
    U: Expression,
    L::SqlType: Comparable<T::SqlType>,
    U::SqlType: Comparable<T::SqlType>,
    L::SqlType: Comparable<U::SqlType>,
 {
    target: T,
    lower_bound: L,
    upper_bound: U,
}

impl<T, L, U> Between<T, L, U> where
    T: Expression,
    L: Expression,
    U: Expression,
    L::SqlType: Comparable<T::SqlType>,
    U::SqlType: Comparable<T::SqlType>,
    L::SqlType: Comparable<U::SqlType>,
 {
    /// The expression that is tested.
    pub closed spec fn target(&self) -> T {
        self.target
    }

    /// The bound from below.
    pub closed spec fn lower_bound(&self) -> L {
        self.lower_bound
    }

    /// The bound from above.
    pub closed spec fn upper_bound(&self) -> U {
        self.upper_bound
    }
}

impl<T, L, U> Expression for Between<T, L, U> where
    T: Expression,
    L: Expression,
    U: Expression,
    L::SqlType: Comparable<T::SqlType>,
    U::SqlType: Comparable<T::SqlType>,
    L::SqlType: Comparable<U::SqlType>,
    T::Aggregation: Aggregation<(L::Aggregation, (U::Aggregation, ()))>,
 {
    type SqlType = SqlTypeBool;

    type Term = Polynomial;

    type BoolOperation = BoolMono;

    type Aggregation = <T::Aggregation as Aggregation<
        (L::Aggregation, (U::Aggregation, ())),
    >>::Output;
}

impl<T, L, U> AndOperatorMethod for Between<T, L, U> where
    T: Expression,
    L: Expression,
    U: Expression,
    L::SqlType: Comparable<T::SqlType>,
    U::SqlType: Comparable<T::SqlType>,
    L::SqlType: Comparable<U::SqlType>,
    Self: Expression<SqlType = SqlTypeBool>,
 {
}

impl<T, L, U> OrOperatorMethod for Between<T, L, U> where
    T: Expression,
    L: Expression,
    U: Expression,
    L::SqlType: Comparable<T::SqlType>,
    U::SqlType: Comparable<T::SqlType>,
    L::SqlType: Comparable<U::SqlType>,
    Self: Expression<SqlType = SqlTypeBool>,
 {
}

impl<T, L, U> NotOperatorMethod for Between<T, L, U> where
    T: Expression,
    L: Expression,
    U: Expression,
    L::SqlType: Comparable<T::SqlType>,
    U::SqlType: Comparable<T::SqlType>,
    L::SqlType: Comparable<U::SqlType>,
    Self: Expression<SqlType = SqlTypeBool>,
 {
}

impl<T, L, U> BuildSql for Between<T, L, U> where
    T: Expression + BuildSql,
    L: Expression + BuildSql,
    U: Expression + BuildSql,
    L::SqlType: Comparable<T::SqlType>,
    U::SqlType: Comparable<T::SqlType>,
    L::SqlType: Comparable<U::SqlType>,
 {
    open spec fn sql_text(&self, prefixes: Prefixes) -> Seq<char> {
        self.target().sql_text(prefixes) + " BETWEEN "@ + self.lower_bound().sql_text(prefixes)
            + " AND "@ + self.upper_bound().sql_text(prefixes)
    }

    open spec fn sql_params(&self) -> Seq<ValueView> {
        self.target().sql_params() + self.lower_bound().sql_params()
            + self.upper_bound().sql_params()
    }

    open spec fn alias_names(&self) -> Seq<SourceAliasName> {
        self.target().alias_names()
            + self.lower_bound().alias_names()
            + self.upper_bound().alias_names()
    }

    open spec fn plain_names(&self) -> bool {
        self.target().plain_names()
            && self.lower_bound().plain_names()
            && self.upper_bound().plain_names()
    }

    open spec fn infallible(&self) -> bool {
        self.target().infallible() && self.lower_bound().infallible()
            && self.upper_bound().infallible()
    }

    proof fn lemma_marks(&self, prefixes: Prefixes) {
        let t0 = self.target().sql_text(prefixes);
        self.target().lemma_marks(prefixes);
        let t1 = " BETWEEN "@;
        reveal_strlit(" BETWEEN ");
        lemma_plain_marks(" BETWEEN "@);
        lemma_marks_concat(t0, self.target().sql_params().len() as int, t1, 0);
        let a1 = t0 + t1;
        let n1: int = self.target().sql_params().len() as int + 0;
        let t2 = self.lower_bound().sql_text(prefixes);
        self.lower_bound().lemma_marks(prefixes);
        lemma_marks_concat(a1, n1, t2, self.lower_bound().sql_params().len() as int);
        let a2 = a1 + t2;
        let n2: int = n1 + self.lower_bound().sql_params().len() as int;
        let t3 = " AND "@;
        reveal_strlit(" AND ");
        lemma_plain_marks(" AND "@);
        lemma_marks_concat(a2, n2, t3, 0);
        let a3 = a2 + t3;
        let n3: int = n2 + 0;
        let t4 = self.upper_bound().sql_text(prefixes);
        self.upper_bound().lemma_marks(prefixes);
        lemma_marks_concat(a3, n3, t4, self.upper_bound().sql_params().len() as int);
    }

    fn note_names(&self, prefixes: &mut AliasPrefixes) {
        let ghost start = prefixes@;
        self.target.note_names(prefixes);
        let ghost mut done = self.target().alias_names();
        note_part(&self.lower_bound, prefixes, Ghost(start), Ghost(done));
        proof {
            done = done + self.lower_bound().alias_names();
        }
        note_part(&self.upper_bound, prefixes, Ghost(start), Ghost(done));
    }

    fn build_sql_in(
        &self,
        prefixes: &AliasPrefixes,
        buf: &mut Vec<u8>,
        params: &mut Vec<Value>,
    ) -> (r: Result<(), BuildSqlError>) {
        self.target.build_sql_in(prefixes, buf, params)?;
        write_str(buf, " BETWEEN ");
        self.lower_bound.build_sql_in(prefixes, buf, params)?;
        write_str(buf, " AND ");
        self.upper_bound.build_sql_in(prefixes, buf, params)?;
        proof {
            broadcast use lemma_encode_utf8_concat;

            assert(buf@ =~= old(buf)@ + encode_utf8(self.sql_text(prefixes@)));
            assert(params.deep_view() =~= old(params).deep_view() + self.sql_params());
        }
        Ok(())
    }
}

/// The test of an expression against two bounds of comparable types.
pub trait BetweenOperatorMethod<L, U>: Expression + Sized where
    L: Expression,
    U: Expression,
    L::SqlType: Comparable<Self::SqlType>,
    U::SqlType: Comparable<Self::SqlType>,
    L::SqlType: Comparable<U::SqlType>,
 {
    /// SQL `BETWEEN`.
    fn between(self, lower_bound: L, upper_bound: U) -> (r: Between<Self, L, U>)
        ensures
            r.target() == self,
            r.lower_bound() == lower_bound,
            r.upper_bound() == upper_bound,
    {
        Between { target: self, lower_bound, upper_bound }
    }
}

impl<T, L, U> BetweenOperatorMethod<L, U> for T where
    T: Expression,
    L: Expression,
    U: Expression,
    L::SqlType: Comparable<T::SqlType>,
    U::SqlType: Comparable<T::SqlType>,
    L::SqlType: Comparable<U::SqlType>,
 {
}

/// `n` placeholders, separated by a comma and a blank.
pub open spec fn placeholders(n: nat) -> Seq<char>
    decreases n,
{
    if n == 0 {
        Seq::empty()
    } else if n == 1 {
        "?"@
    } else {
        placeholders((n - 1) as nat) + ", ?"@
    }
}

/// A list of `n` placeholders holds `n` times `?`, and no `;`.
pub proof fn lemma_placeholders_marks(n: nat)
    ensures
        marks(placeholders(n), n as int),
    decreases n,
{
    reveal_strlit("?");
    reveal_strlit(", ");
    reveal_strlit(", ?");
    let one = "?"@;
    assert(one.drop_last() =~= Seq::<char>::empty());
    assert(count_of(one.drop_last(), '?') == 0);
    assert(count_of(one.drop_last(), ';') == 0);
    assert(one.last() == '?');
    assert(marks(one, 1));
    if n >= 2 {
        lemma_placeholders_marks((n - 1) as nat);
        lemma_plain_marks(", "@);
        lemma_marks_concat(", "@, 0, one, 1);
        assert(", "@ + one =~= ", ?"@);
        lemma_marks_concat(placeholders((n - 1) as nat), n - 1, ", ?"@, 1);
    }
}

/// The values of a list of literals.
pub open spec fn literal_values<R: Literal>(literals: Seq<R>) -> Seq<ValueView> {
    Seq::new(literals.len(), |i: int| literals[i].value())
}

/// What holds a list of items of type `R`: a vector, an array or a slice.
pub trait AsList<R> {
    /// The items of the list, in order.
    spec fn items(&self) -> Seq<R>;

    fn as_list(&self) -> (list: &[R])
        ensures
            list@ == self.items(),
    ;
}

impl<R> AsList<R> for Vec<R> {
    open spec fn items(&self) -> Seq<R> {
        self@
    }

    fn as_list(&self) -> (list: &[R]) {
        self.as_slice()
    }
}

impl<R, const N: usize> AsList<R> for [R; N] {
    open spec fn items(&self) -> Seq<R> {
        self@
    }

    fn as_list(&self) -> (list: &[R]) {
        self.as_slice()
    }
}

impl<'a, R> AsList<R> for &'a [R] {
    open spec fn items(&self) -> Seq<R> {
        self@
    }

    fn as_list(&self) -> (list: &[R]) {
        self
    }
}

impl<'a, R, T> AsList<R> for &'a T where T: AsList<R> {
    open spec fn items(&self) -> Seq<R> {
        (**self).items()
    }

    fn as_list(&self) -> (list: &[R]) {
        (**self).as_list()
    }
}

/// An expression and a list of literals of a comparable type, with `IN` or
/// `NOT IN` between them.
#[derive(Debug)]
pub struct InList<OP, L, R, ARR> where
    L: Expression,
    R: Expression,
    R::SqlType: Comparable<L::SqlType>,
    ARR: AsList<R>,
 {
    lhs: L,
    rhs: ARR,
    rhs_value: PhantomData<R>,
    operator: PhantomData<OP>,
}

/// `lhs IN (...)`
pub type Any<L, R, ARR> = InList<Within, L, R, ARR>;

/// `lhs NOT IN (...)`
pub type NotAny<L, R, ARR> = InList<NotWithin, L, R, ARR>;

impl<OP, L, R, ARR> InList<OP, L, R, ARR> where
    L: Expression,
    R: Expression,
    R::SqlType: Comparable<L::SqlType>,
    ARR: AsList<R>,
 {
    /// The expression that is looked for.
    pub closed spec fn lhs(&self) -> L {
        self.lhs
    }

    /// The literals of the list.
    pub closed spec fn rhs(&self) -> Seq<R> {
        self.rhs.items()
    }

    fn new(lhs: L, rhs: ARR) -> (r: Self)
        ensures
            r.lhs() == lhs,
            r.rhs() == rhs.items(),
    {
        InList { lhs, rhs, rhs_value: PhantomData, operator: PhantomData }
    }
}

impl<OP, L, R, ARR> Clone for InList<OP, L, R, ARR> where
    L: Expression + Clone,
    R: Expression,
    R::SqlType: Comparable<L::SqlType>,
    ARR: AsList<R> + Clone,
 {
    fn clone(&self) -> (r: Self)
        ensures
            cloned(self.lhs(), r.lhs()),
    {
        InList {
            lhs: self.lhs.clone(),
            rhs: self.rhs.clone(),
            rhs_value: PhantomData,
            operator: PhantomData,
        }
    }
}

impl<OP, L, R, ARR> Expression for InList<OP, L, R, ARR> where
    L: Expression,
    R: Expression,
    R::SqlType: Comparable<L::SqlType>,
    ARR: AsList<R>,
    R::Aggregation: Aggregation<L::Aggregation>,
 {
    type SqlType = SqlTypeBool;

    type Term = Polynomial;

    type BoolOperation = BoolMono;

    type Aggregation = <R::Aggregation as Aggregation<L::Aggregation>>::Output;
}

impl<OP, L, R, ARR> AndOperatorMethod for InList<OP, L, R, ARR> where
    L: Expression,
    R: Expression,
    R::SqlType: Comparable<L::SqlType>,
    ARR: AsList<R>,
    Self: Expression<SqlType = SqlTypeBool>,
 {
}

impl<OP, L, R, ARR> OrOperatorMethod for InList<OP, L, R, ARR> where
    L: Expression,
    R: Expression,
    R::SqlType: Comparable<L::SqlType>,
    ARR: AsList<R>,
    Self: Expression<SqlType = SqlTypeBool>,
 {
}

impl<OP, L, R, ARR> NotOperatorMethod for InList<OP, L, R, ARR> where
    L: Expression,
    R: Expression,
    R::SqlType: Comparable<L::SqlType>,
    ARR: AsList<R>,
    Self: Expression<SqlType = SqlTypeBool>,
 {
}

impl<OP, L, R, ARR> BuildSql for InList<OP, L, R, ARR> where
    OP: InfixOperator,
    L: Expression + BuildSql,
    R: Expression + Literal,
    R::SqlType: Comparable<L::SqlType>,
    ARR: AsList<R>,
 {
    open spec fn sql_text(&self, prefixes: Prefixes) -> Seq<char> {
        self.lhs().sql_text(prefixes) + OP::symbol() + "("@ + placeholders(self.rhs().len())
            + ")"@
    }

    open spec fn sql_params(&self) -> Seq<ValueView> {
        self.lhs().sql_params() + literal_values(self.rhs())
    }

    open spec fn alias_names(&self) -> Seq<SourceAliasName> {
        self.lhs().alias_names()
    }

    open spec fn plain_names(&self) -> bool {
        self.lhs().plain_names()
    }

    open spec fn infallible(&self) -> bool {
        self.lhs().infallible()
    }

    proof fn lemma_marks(&self, prefixes: Prefixes) {
        let t0 = self.lhs().sql_text(prefixes);
        self.lhs().lemma_marks(prefixes);
        let t1 = OP::symbol();
        OP::symbol_is_plain();
        lemma_plain_marks(OP::symbol());
        lemma_marks_concat(t0, self.lhs().sql_params().len() as int, t1, 0);
        let a1 = t0 + t1;
        let n1: int = self.lhs().sql_params().len() as int + 0;
        let t2 = "("@;
        reveal_strlit("(");
        lemma_plain_marks("("@);
        lemma_marks_concat(a1, n1, t2, 0);
        let a2 = a1 + t2;
        let n2: int = n1 + 0;
        let t3 = placeholders(self.rhs().len());
        lemma_placeholders_marks(self.rhs().len());
        lemma_marks_concat(a2, n2, t3, self.rhs().len() as int);
        let a3 = a2 + t3;
        let n3: int = n2 + self.rhs().len() as int;
        let t4 = ")"@;
        reveal_strlit(")");
        lemma_plain_marks(")"@);
        lemma_marks_concat(a3, n3, t4, 0);
    }

    fn note_names(&self, prefixes: &mut AliasPrefixes) {
        self.lhs.note_names(prefixes);
    }

    fn build_sql_in(
        &self,
        prefixes: &AliasPrefixes,
        buf: &mut Vec<u8>,
        params: &mut Vec<Value>,
    ) -> (r: Result<(), BuildSqlError>) {
        self.lhs.build_sql_in(prefixes, buf, params)?;
        write_str(buf, OP::symbol_str());
        write_str(buf, "(");
        let list = self.rhs.as_list();
        let ghost head = self.lhs().sql_text(prefixes@) + OP::symbol() + "("@;
        let ghost bound = old(params).deep_view() + self.lhs().sql_params();
        proof {
            broadcast use lemma_encode_utf8_concat;

            assert(buf@ =~= old(buf)@ + encode_utf8(head + placeholders(0)));
            assert(params.deep_view() =~= bound + literal_values(list@.subrange(0, 0)));
        }
        let mut i: usize = 0;
        while i < list.len()
            invariant
                i <= list.len(),
                buf@ == old(buf)@ + encode_utf8(head + placeholders(i as nat)),
                params.deep_view() == bound + literal_values(list@.subrange(0, i as int)),
            decreases list.len() - i,
        {
            let ghost before = params.deep_view();
            if i == 0 {
                write_str(buf, "?");
            } else {
                write_str(buf, ", ?");
            }
            params.push(list[i].to_value());
            proof {
                broadcast use lemma_encode_utf8_concat;

                assert(placeholders((i + 1) as nat) =~= if i == 0 {
                    "?"@
                } else {
                    placeholders(i as nat) + ", ?"@
                });
                assert(buf@ =~= old(buf)@ + encode_utf8(head + placeholders((i + 1) as nat)));
                assert(params.deep_view() =~= before.push(list@[i as int].value()));
                assert(literal_values(list@.subrange(0, i + 1)) =~= literal_values(
                    list@.subrange(0, i as int),
                ).push(list@[i as int].value()));
            }
            i += 1;
        }
        write_str(buf, ")");
        proof {
            broadcast use lemma_encode_utf8_concat;

            assert(list@.subrange(0, i as int) =~= list@);
            assert(buf@ =~= old(buf)@ + encode_utf8(self.sql_text(prefixes@)));
            assert(params.deep_view() =~= old(params).deep_view() + self.sql_params());
        }
        Ok(())
    }
}

/// The test of an expression against a list of literals of a comparable type.
pub trait InOperatorMethod<T>: Expression + Sized where
    T: Expression,
    T::SqlType: Comparable<Self::SqlType>,
 {
    /// SQL `IN`.
    fn any<V: AsList<T>>(self, values: V) -> (r: Any<Self, T, V>)
        ensures
            r.lhs() == self,
            r.rhs() == values.items(),
    {
        InList::new(self, values)
    }

    /// SQL `NOT IN`.
    fn not_any<V: AsList<T>>(self, values: V) -> (r: NotAny<Self, T, V>)
        ensures
            r.lhs() == self,
            r.rhs() == values.items(),
    {
        InList::new(self, values)
    }
}

impl<L, T> InOperatorMethod<T> for L where
    L: Expression,
    T: Expression,
    T::SqlType: Comparable<L::SqlType>,
 {
}

/// A test that follows its operand.
pub trait PostfixOperator {
    /// The test as it is written, with the blank before it.
    spec fn symbol() -> Seq<char>;

    /// The test is written without `?` and `;`.
    proof fn symbol_is_plain()
        ensures
            plain(Self::symbol()),
    ;

    fn symbol_str() -> (s: &'static str)
        ensures
            s@ == Self::symbol(),
    ;
}

/// `IS NULL`
#[derive(Debug, Clone, Copy)]
pub struct Null;

/// `IS NOT NULL`
#[derive(Debug, Clone, Copy)]
pub struct NotNull;

impl PostfixOperator for Null {
    open spec fn symbol() -> Seq<char> {
        " IS NULL"@
    }

    proof fn symbol_is_plain() {
        reveal_strlit(" IS NULL");
    }

    fn symbol_str() -> (s: &'static str) {
        " IS NULL"
    }
}

impl PostfixOperator for NotNull {
    open spec fn symbol() -> Seq<char> {
        " IS NOT NULL"@
    }

    proof fn symbol_is_plain() {
        reveal_strlit(" IS NOT NULL");
    }

    fn symbol_str() -> (s: &'static str) {
        " IS NOT NULL"
    }
}

/// An expression followed by `IS NULL` or `IS NOT NULL`.
#[derive(Debug)]
pub struct NullCheck<OP, T> where T: Expression {
    target: T,
    operator: PhantomData<OP>,
}

/// `target IS NULL`
pub type IsNull<T> = NullCheck<Null, T>;

/// `target IS NOT NULL`
pub type IsNotNull<T> = NullCheck<NotNull, T>;

impl<OP, T> NullCheck<OP, T> where T: Expression {
    /// The expression that is tested.
    pub closed spec fn target(&self) -> T {
        self.target
    }

    fn new(target: T) -> (r: Self)
        ensures
            r.target() == target,
    {
        NullCheck { target, operator: PhantomData }
    }
}

impl<OP, T> Clone for NullCheck<OP, T> where T: Expression + Clone {
    fn clone(&self) -> (r: Self)
        ensures
            cloned(self.target(), r.target()),
    {
        NullCheck { target: self.target.clone(), operator: PhantomData }
    }
}

impl<OP, T> Expression for NullCheck<OP, T> where T: Expression {
    type SqlType = SqlTypeBool;

    type Term = Monomial;

    type BoolOperation = BoolMono;

    type Aggregation = T::Aggregation;
}

impl<OP, T> AndOperatorMethod for NullCheck<OP, T> where
    T: Expression,
    Self: Expression<SqlType = SqlTypeBool>,
 {
}

impl<OP, T> OrOperatorMethod for NullCheck<OP, T> where
    T: Expression,
    Self: Expression<SqlType = SqlTypeBool>,
 {
}

impl<OP, T> NotOperatorMethod for NullCheck<OP, T> where
    T: Expression,
    Self: Expression<SqlType = SqlTypeBool>,
 {
}

impl<OP, T> BuildSql for NullCheck<OP, T> where OP: PostfixOperator, T: Expression + BuildSql {
    open spec fn sql_text(&self, prefixes: Prefixes) -> Seq<char> {
        self.target().sql_text(prefixes) + OP::symbol()
    }

    open spec fn sql_params(&self) -> Seq<ValueView> {
        self.target().sql_params()
    }

    open spec fn alias_names(&self) -> Seq<SourceAliasName> {
        self.target().alias_names()
    }

    open spec fn plain_names(&self) -> bool {
        self.target().plain_names()
    }

    open spec fn infallible(&self) -> bool {
        self.target().infallible()
    }

    proof fn lemma_marks(&self, prefixes: Prefixes) {
        let t0 = self.target().sql_text(prefixes);
        self.target().lemma_marks(prefixes);
        let t1 = OP::symbol();
        OP::symbol_is_plain();
        lemma_plain_marks(OP::symbol());
        lemma_marks_concat(t0, self.target().sql_params().len() as int, t1, 0);
    }

    fn note_names(&self, prefixes: &mut AliasPrefixes) {
        self.target.note_names(prefixes);
    }

    fn build_sql_in(
        &self,
        prefixes: &AliasPrefixes,
        buf: &mut Vec<u8>,
        params: &mut Vec<Value>,
    ) -> (r: Result<(), BuildSqlError>) {
        self.target.build_sql_in(prefixes, buf, params)?;
        write_str(buf, OP::symbol_str());
        proof {
            broadcast use lemma_encode_utf8_concat;

            assert(buf@ =~= old(buf)@ + encode_utf8(self.sql_text(prefixes@)));
        }
        Ok(())
    }
}

/// The tests of an expression for NULL.
pub trait NullCheckOperatorMethod: Expression + Sized {
    /// SQL `IS NULL`.
    fn is_null(self) -> (r: IsNull<Self>)
        ensures
            r.target() == self,
    {
        NullCheck::new(self)
    }

    /// SQL `IS NOT NULL`.
    fn is_not_null(self) -> (r: IsNotNull<Self>)
        ensures
            r.target() == self,
    {
        NullCheck::new(self)
    }
}

impl<T> NullCheckOperatorMethod for T where T: Expression {
}

} // verus!
