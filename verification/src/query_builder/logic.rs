//! `AND`, `OR` and `NOT`, with the parentheses that keep the meaning of the
//! operands: `AND` wraps an operand that is a disjunction, `OR` wraps an operand
//! that is a conjunction, and `NOT` wraps an operand made of several terms.

use std::marker::PhantomData;
use vstd::prelude::*;
use vstd::utf8::*;
use super::alias::{AliasPrefixes, Prefixes, SourceAliasName};
use super::render::{note_part, BuildSql, BuildSqlError};
use super::text::{
    lemma_encode_utf8_concat, lemma_marks_concat, lemma_plain_marks, marks, write_str,
};
use super::types::{
    Aggregation, BoolAnd, BoolKind, BoolMono, BoolOr, BoolShape, Comparable, Expression, Monomial,
    Polynomial, SqlTypeBool, TermShape,
};
use super::value::{Value, ValueView};

verus! {

/// The text of an operand, in parentheses where `wrapped`.
pub open spec fn operand_text(text: Seq<char>, wrapped: bool) -> Seq<char> {
    if wrapped {
        "("@ + text + ")"@
    } else {
        text
    }
}

/// Parentheses around an operand add no `?` and no `;`.
pub proof fn lemma_operand_marks(text: Seq<char>, n: int, wrapped: bool)
    requires
        marks(text, n),
    ensures
        marks(operand_text(text, wrapped), n),
{
    reveal_strlit("(");
    reveal_strlit(")");
    lemma_plain_marks("("@);
    lemma_plain_marks(")"@);
    lemma_marks_concat("("@, 0, text, n);
    lemma_marks_concat("("@ + text, n, ")"@, 0);
}

/// Renders an operand, in parentheses where `wrapped`.
fn build_operand<T: BuildSql>(
    operand: &T,
    wrapped: bool,
    prefixes: &AliasPrefixes,
    buf: &mut Vec<u8>,
    params: &mut Vec<Value>,
) -> (r: Result<(), BuildSqlError>)
    ensures
        operand.infallible() ==> r is Ok,
        r is Ok ==> final(buf)@ == old(buf)@ + encode_utf8(
            operand_text(operand.sql_text(prefixes@), wrapped),
        ),
        r is Ok ==> final(params).deep_view() == old(params).deep_view() + operand.sql_params(),
{
    if wrapped {
        write_str(buf, "(");
        operand.build_sql_in(prefixes, buf, params)?;
        write_str(buf, ")");
    } else {
        operand.build_sql_in(prefixes, buf, params)?;
    }
    proof {
        broadcast use lemma_encode_utf8_concat;

        assert(buf@ =~= old(buf)@ + encode_utf8(
            operand_text(operand.sql_text(prefixes@), wrapped),
        ));
    }
    Ok(())
}

/// Whether an operand of the given shape is wrapped under `AND`.
pub open spec fn wrapped_under_and(shape: BoolShape) -> bool {
    shape == BoolShape::Disjunction
}

/// Whether an operand of the given shape is wrapped under `OR`.
pub open spec fn wrapped_under_or(shape: BoolShape) -> bool {
    shape == BoolShape::Conjunction
}

/// `lhs AND rhs`. `LK` and `RK` are the kinds of the two operands.
#[derive(Debug)]
pub struct And<L, LK, R, RK> {
    lhs: L,
    rhs: R,
    lhs_kind: PhantomData<LK>,
    rhs_kind: PhantomData<RK>,
}

impl<L, LK, R, RK> And<L, LK, R, RK> {
    /// The left operand.
    pub closed spec fn lhs(&self) -> L {
        self.lhs
    }

    /// The right operand.
    pub closed spec fn rhs(&self) -> R {
        self.rhs
    }
}

impl<L: Clone, LK, R: Clone, RK> Clone for And<L, LK, R, RK> {
    fn clone(&self) -> (r: Self)
        ensures
            cloned(self.lhs(), r.lhs()),
            cloned(self.rhs(), r.rhs()),
    {
        And {
            lhs: self.lhs.clone(),
            rhs: self.rhs.clone(),
            lhs_kind: PhantomData,
            rhs_kind: PhantomData,
        }
    }
}

impl<L, R> And<L, L::BoolOperation, R, R::BoolOperation> where L: Expression, R: Expression {
    pub fn new(lhs: L, rhs: R) -> (r: Self)
        ensures
            r.lhs() == lhs,
            r.rhs() == rhs,
    {
        And { lhs, rhs, lhs_kind: PhantomData, rhs_kind: PhantomData }
    }
}

impl<L, R> Expression for And<L, L::BoolOperation, R, R::BoolOperation> where
    L: Expression,
    R: Expression,
    L::SqlType: Comparable<SqlTypeBool>,
    R::SqlType: Comparable<L::SqlType>,
    L::Aggregation: Aggregation<R::Aggregation>,
 {
    type SqlType = SqlTypeBool;

    type Term = Polynomial;

    type BoolOperation = BoolAnd;

    type Aggregation = <L::Aggregation as Aggregation<R::Aggregation>>::Output;
}

impl<L, R> AndOperatorMethod for And<L, L::BoolOperation, R, R::BoolOperation> where
    L: Expression,
    R: Expression,
    L::SqlType: Comparable<SqlTypeBool>,
    R::SqlType: Comparable<L::SqlType>,
    Self: Expression<SqlType = SqlTypeBool>,
 {
}

impl<L, R> OrOperatorMethod for And<L, L::BoolOperation, R, R::BoolOperation> where
    L: Expression,
    R: Expression,
    L::SqlType: Comparable<SqlTypeBool>,
    R::SqlType: Comparable<L::SqlType>,
    Self: Expression<SqlType = SqlTypeBool>,
 {
}

impl<L, R> NotOperatorMethod for And<L, L::BoolOperation, R, R::BoolOperation> where
    L: Expression,
    R: Expression,
    L::SqlType: Comparable<SqlTypeBool>,
    R::SqlType: Comparable<L::SqlType>,
    Self: Expression<SqlType = SqlTypeBool>,
 {
}

impl<L, LK, R, RK> BuildSql for And<L, LK, R, RK> where
    L: Expression<BoolOperation = LK> + BuildSql,
    R: Expression<BoolOperation = RK> + BuildSql,
    LK: BoolKind,
    RK: BoolKind,
    L::SqlType: Comparable<SqlTypeBool>,
    R::SqlType: Comparable<SqlTypeBool>,
 {
    open spec fn sql_text(&self, prefixes: Prefixes) -> Seq<char> {
        operand_text(self.lhs().sql_text(prefixes), wrapped_under_and(LK::shape())) + " AND "@
            + operand_text(self.rhs().sql_text(prefixes), wrapped_under_and(RK::shape()))
    }

    open spec fn sql_params(&self) -> Seq<ValueView> {
        self.lhs().sql_params() + self.rhs().sql_params()
    }

    open spec fn alias_names(&self) -> Seq<SourceAliasName> {
        self.lhs().alias_names() + self.rhs().alias_names()
    }

    open spec fn plain_names(&self) -> bool {
        self.lhs().plain_names() && self.rhs().plain_names()
    }

    open spec fn infallible(&self) -> bool {
        self.lhs().infallible() && self.rhs().infallible()
    }

    proof fn lemma_marks(&self, prefixes: Prefixes) {
        let t0 = operand_text(self.lhs().sql_text(prefixes), wrapped_under_and(LK::shape()));
        self.lhs().lemma_marks(prefixes);
        lemma_operand_marks(
            self.lhs().sql_text(prefixes),
            self.lhs().sql_params().len() as int,
            wrapped_under_and(LK::shape()),
        );
        let t1 = " AND "@;
        reveal_strlit(" AND ");
        lemma_plain_marks(" AND "@);
        lemma_marks_concat(t0, self.lhs().sql_params().len() as int, t1, 0);
        let a1 = t0 + t1;
        let n1: int = self.lhs().sql_params().len() as int + 0;
        let t2 = operand_text(self.rhs().sql_text(prefixes), wrapped_under_and(RK::shape()));
        self.rhs().lemma_marks(prefixes);
        lemma_operand_marks(
            self.rhs().sql_text(prefixes),
            self.rhs().sql_params().len() as int,
            wrapped_under_and(RK::shape()),
        );
        lemma_marks_concat(a1, n1, t2, self.rhs().sql_params().len() as int);
    }

    fn note_names(&self, prefixes: &mut AliasPrefixes) {
        let ghost start = prefixes@;
        self.lhs.note_names(prefixes);
        let ghost mut done = self.lhs().alias_names();
        note_part(&self.rhs, prefixes, Ghost(start), Ghost(done));
    }

    fn build_sql_in(
        &self,
        prefixes: &AliasPrefixes,
        buf: &mut Vec<u8>,
        params: &mut Vec<Value>,
    ) -> (r: Result<(), BuildSqlError>) {
        build_operand(&self.lhs, LK::shape_of() == BoolShape::Disjunction, prefixes, buf, params)?;
        write_str(buf, " AND ");
        build_operand(&self.rhs, RK::shape_of() == BoolShape::Disjunction, prefixes, buf, params)?;
        proof {
            broadcast use lemma_encode_utf8_concat;

            assert(buf@ =~= old(buf)@ + encode_utf8(self.sql_text(prefixes@)));
            assert(params.deep_view() =~= old(params).deep_view() + self.sql_params());
        }
        Ok(())
    }
}

/// `lhs OR rhs`. `LK` and `RK` are the kinds of the two operands.
#[derive(Debug)]
pub struct Or<L, LK, R, RK> {
    lhs: L,
    rhs: R,
    lhs_kind: PhantomData<LK>,
    rhs_kind: PhantomData<RK>,
}

impl<L, LK, R, RK> Or<L, LK, R, RK> {
    /// The left operand.
    pub closed spec fn lhs(&self) -> L {
        self.lhs
    }

    /// The right operand.
    pub closed spec fn rhs(&self) -> R {
        self.rhs
    }
}

impl<L: Clone, LK, R: Clone, RK> Clone for Or<L, LK, R, RK> {
    fn clone(&self) -> (r: Self)
        ensures
            cloned(self.lhs(), r.lhs()),
            cloned(self.rhs(), r.rhs()),
    {
        Or {
            lhs: self.lhs.clone(),
            rhs: self.rhs.clone(),
            lhs_kind: PhantomData,
            rhs_kind: PhantomData,
        }
    }
}

impl<L, R> Or<L, L::BoolOperation, R, R::BoolOperation> where L: Expression, R: Expression {
    pub fn new(lhs: L, rhs: R) -> (r: Self)
        ensures
            r.lhs() == lhs,
            r.rhs() == rhs,
    {
        Or { lhs, rhs, lhs_kind: PhantomData, rhs_kind: PhantomData }
    }
}

impl<L, R> Expression for Or<L, L::BoolOperation, R, R::BoolOperation> where
    L: Expression,
    R: Expression,
    L::SqlType: Comparable<SqlTypeBool>,
    R::SqlType: Comparable<L::SqlType>,
    L::Aggregation: Aggregation<R::Aggregation>,
 {
    type SqlType = SqlTypeBool;

    type Term = Polynomial;

    type BoolOperation = BoolOr;

    type Aggregation = <L::Aggregation as Aggregation<R::Aggregation>>::Output;
}

impl<L, R> AndOperatorMethod for Or<L, L::BoolOperation, R, R::BoolOperation> where
    L: Expression,
    R: Expression,
    L::SqlType: Comparable<SqlTypeBool>,
    R::SqlType: Comparable<L::SqlType>,
    Self: Expression<SqlType = SqlTypeBool>,
 {
}

impl<L, R> OrOperatorMethod for Or<L, L::BoolOperation, R, R::BoolOperation> where
    L: Expression,
    R: Expression,
    L::SqlType: Comparable<SqlTypeBool>,
    R::SqlType: Comparable<L::SqlType>,
    Self: Expression<SqlType = SqlTypeBool>,
 {
}

impl<L, R> NotOperatorMethod for Or<L, L::BoolOperation, R, R::BoolOperation> where
    L: Expression,
    R: Expression,
    L::SqlType: Comparable<SqlTypeBool>,
    R::SqlType: Comparable<L::SqlType>,
    Self: Expression<SqlType = SqlTypeBool>,
 {
}

impl<L, LK, R, RK> BuildSql for Or<L, LK, R, RK> where
    L: Expression<BoolOperation = LK> + BuildSql,
    R: Expression<BoolOperation = RK> + BuildSql,
    LK: BoolKind,
    RK: BoolKind,
    L::SqlType: Comparable<SqlTypeBool>,
    R::SqlType: Comparable<SqlTypeBool>,
 {
    open spec fn sql_text(&self, prefixes: Prefixes) -> Seq<char> {
        operand_text(self.lhs().sql_text(prefixes), wrapped_under_or(LK::shape())) + " OR "@
            + operand_text(self.rhs().sql_text(prefixes), wrapped_under_or(RK::shape()))
    }

    open spec fn sql_params(&self) -> Seq<ValueView> {
        self.lhs().sql_params() + self.rhs().sql_params()
    }

    open spec fn alias_names(&self) -> Seq<SourceAliasName> {
        self.lhs().alias_names() + self.rhs().alias_names()
    }

    open spec fn plain_names(&self) -> bool {
        self.lhs().plain_names() && self.rhs().plain_names()
    }

    open spec fn infallible(&self) -> bool {
        self.lhs().infallible() && self.rhs().infallible()
    }

    proof fn lemma_marks(&self, prefixes: Prefixes) {
        let t0 = operand_text(self.lhs().sql_text(prefixes), wrapped_under_or(LK::shape()));
        self.lhs().lemma_marks(prefixes);
        lemma_operand_marks(
            self.lhs().sql_text(prefixes),
            self.lhs().sql_params().len() as int,
            wrapped_under_or(LK::shape()),
        );
        let t1 = " OR "@;
        reveal_strlit(" OR ");
        lemma_plain_marks(" OR "@);
        lemma_marks_concat(t0, self.lhs().sql_params().len() as int, t1, 0);
        let a1 = t0 + t1;
        let n1: int = self.lhs().sql_params().len() as int + 0;
        let t2 = operand_text(self.rhs().sql_text(prefixes), wrapped_under_or(RK::shape()));
        self.rhs().lemma_marks(prefixes);
        lemma_operand_marks(
            self.rhs().sql_text(prefixes),
            self.rhs().sql_params().len() as int,
            wrapped_under_or(RK::shape()),
        );
        lemma_marks_concat(a1, n1, t2, self.rhs().sql_params().len() as int);
    }

    fn note_names(&self, prefixes: &mut AliasPrefixes) {
        let ghost start = prefixes@;
        self.lhs.note_names(prefixes);
        let ghost mut done = self.lhs().alias_names();
        note_part(&self.rhs, prefixes, Ghost(start), Ghost(done));
    }

    fn build_sql_in(
        &self,
        prefixes: &AliasPrefixes,
        buf: &mut Vec<u8>,
        params: &mut Vec<Value>,
    ) -> (r: Result<(), BuildSqlError>) {
        build_operand(&self.lhs, LK::shape_of() == BoolShape::Conjunction, prefixes, buf, params)?;
        write_str(buf, " OR ");
        build_operand(&self.rhs, RK::shape_of() == BoolShape::Conjunction, prefixes, buf, params)?;
        proof {
            broadcast use lemma_encode_utf8_concat;

            assert(buf@ =~= old(buf)@ + encode_utf8(self.sql_text(prefixes@)));
            assert(params.deep_view() =~= old(params).deep_view() + self.sql_params());
        }
        Ok(())
    }
}

/// `NOT expr`. `S` is the shape of the operand as a term.
#[derive(Debug)]
pub struct Not<T, S> {
    expr: T,
    expr_term: PhantomData<S>,
}

impl<T, S> Not<T, S> {
    /// The operand.
    pub closed spec fn expr(&self) -> T {
        self.expr
    }
}

impl<T: Clone, S> Clone for Not<T, S> {
    fn clone(&self) -> (r: Self)
        ensures
            cloned(self.expr(), r.expr()),
    {
        Not { expr: self.expr.clone(), expr_term: PhantomData }
    }
}

impl<T> Not<T, T::Term> where T: Expression, T::SqlType: Comparable<SqlTypeBool> {
    pub fn new(expr: T) -> (r: Not<T, T::Term>)
        ensures
            r.expr() == expr,
    {
        Not { expr, expr_term: PhantomData }
    }
}

impl<T> Expression for Not<T, T::Term> where T: Expression, T::SqlType: Comparable<SqlTypeBool> {
    type SqlType = SqlTypeBool;

    type Term = Monomial;

    type BoolOperation = BoolMono;

    type Aggregation = T::Aggregation;
}

impl<T> AndOperatorMethod for Not<T, T::Term> where
    T: Expression,
    T::SqlType: Comparable<SqlTypeBool>,
 {
}

impl<T> OrOperatorMethod for Not<T, T::Term> where
    T: Expression,
    T::SqlType: Comparable<SqlTypeBool>,
 {
}

impl<T> NotOperatorMethod for Not<T, T::Term> where
    T: Expression,
    T::SqlType: Comparable<SqlTypeBool>,
 {
}

impl<T, S> BuildSql for Not<T, S> where
    T: Expression<Term = S> + BuildSql,
    S: TermShape,
    T::SqlType: Comparable<SqlTypeBool>,
 {
    open spec fn sql_text(&self, prefixes: Prefixes) -> Seq<char> {
        "NOT "@ + operand_text(self.expr().sql_text(prefixes), S::composite())
    }

    open spec fn sql_params(&self) -> Seq<ValueView> {
        self.expr().sql_params()
    }

    open spec fn alias_names(&self) -> Seq<SourceAliasName> {
        self.expr().alias_names()
    }

    open spec fn plain_names(&self) -> bool {
        self.expr().plain_names()
    }

    open spec fn infallible(&self) -> bool {
        self.expr().infallible()
    }

    proof fn lemma_marks(&self, prefixes: Prefixes) {
        let t0 = "NOT "@;
        reveal_strlit("NOT ");
        lemma_plain_marks("NOT "@);
        let t1 = operand_text(self.expr().sql_text(prefixes), S::composite());
        self.expr().lemma_marks(prefixes);
        lemma_operand_marks(
            self.expr().sql_text(prefixes),
            self.expr().sql_params().len() as int,
            S::composite(),
        );
        lemma_marks_concat(t0, 0, t1, self.expr().sql_params().len() as int);
    }

    fn note_names(&self, prefixes: &mut AliasPrefixes) {
        self.expr.note_names(prefixes);
    }

    fn build_sql_in(
        &self,
        prefixes: &AliasPrefixes,
        buf: &mut Vec<u8>,
        params: &mut Vec<Value>,
    ) -> (r: Result<(), BuildSqlError>) {
        write_str(buf, "NOT ");
        build_operand(&self.expr, S::is_composite(), prefixes, buf, params)?;
        proof {
            broadcast use lemma_encode_utf8_concat;

            assert(buf@ =~= old(buf)@ + encode_utf8(self.sql_text(prefixes@)));
        }
        Ok(())
    }
}

/// `AND` with another boolean expression.
pub trait AndOperatorMethod: Expression + Sized where Self::SqlType: Comparable<SqlTypeBool> {
    fn and<R>(self, rhs: R) -> (r: And<Self, Self::BoolOperation, R, R::BoolOperation>) where
        R: Expression,
        R::SqlType: Comparable<Self::SqlType>,

        ensures
            r.lhs() == self,
            r.rhs() == rhs,
    {
        And::new(self, rhs)
    }
}

/// `OR` with another boolean expression.
pub trait OrOperatorMethod: Expression + Sized where Self::SqlType: Comparable<SqlTypeBool> {
    fn or<R>(self, rhs: R) -> (r: Or<Self, Self::BoolOperation, R, R::BoolOperation>) where
        R: Expression,
        R::SqlType: Comparable<Self::SqlType>,

        ensures
            r.lhs() == self,
            r.rhs() == rhs,
    {
        Or::new(self, rhs)
    }
}

/// `NOT` of a boolean expression.
pub trait NotOperatorMethod: Expression + Sized where Self::SqlType: Comparable<SqlTypeBool> {
    fn not(self) -> (r: Not<Self, Self::Term>)
        ensures
            r.expr() == self,
    {
        Not::new(self)
    }
}

/// `NOT expr`.
pub fn not<T>(expr: T) -> (r: Not<T, T::Term>) where
    T: NotOperatorMethod + Expression,
    T::SqlType: Comparable<SqlTypeBool>,

    ensures
        r.expr() == expr,
{
    expr.not()
}

} // verus!
