//! SQL functions. Each has a fixed number of arguments of given types, a
//! result type, and is either an aggregate or not, whatever its arguments are.

use vstd::prelude::*;
use vstd::utf8::*;
use super::alias::{AliasPrefixes, Prefixes, SourceAliasName};
use super::render::{note_part, BuildSql, BuildSqlError};
use super::text::{lemma_encode_utf8_concat, lemma_marks_concat, lemma_plain_marks, write_str};
use super::types::{
    Aggregate, Comparable, Expression, Monomial, NonAggregate, NonBool, SqlTypeAny, SqlTypeInt,
    SqlTypeString,
};
use super::value::{Value, ValueView};

verus! {

/// The sum of an integer expression over a group of rows.
#[derive(Debug, Clone)]
pub struct Sum<T> {
    t: T,
}

impl<T> Sum<T> {
    /// The first argument.
    pub closed spec fn t(&self) -> T {
        self.t
    }

    pub fn new(t: T) -> (r: Sum<T>)
        ensures
            r.t() == t,
    {
        Sum { t }
    }
}

/// SQL `sum`.
pub fn sum<T>(t: T) -> (r: Sum<T>) where
    T: Expression,
    T::SqlType: Comparable<SqlTypeInt>,

    ensures
            r.t() == t,
{
    Sum::new(t)
}

impl<T> Expression for Sum<T> where
    T: Expression,
    T::SqlType: Comparable<SqlTypeInt>,
 {
    type SqlType = SqlTypeInt;

    type Term = Monomial;

    type BoolOperation = NonBool;

    type Aggregation = Aggregate;
}

impl<T: BuildSql> BuildSql for Sum<T> {
    open spec fn sql_text(&self, prefixes: Prefixes) -> Seq<char> {
        "sum("@ + self.t().sql_text(prefixes) + ")"@
    }

    open spec fn sql_params(&self) -> Seq<ValueView> {
        self.t().sql_params()
    }

    open spec fn alias_names(&self) -> Seq<SourceAliasName> {
        self.t().alias_names()
    }

    open spec fn plain_names(&self) -> bool {
        self.t().plain_names()
    }

    open spec fn infallible(&self) -> bool {
        self.t().infallible()
    }

    proof fn lemma_marks(&self, prefixes: Prefixes) {
        let t0 = "sum("@;
        reveal_strlit("sum(");
        lemma_plain_marks("sum("@);
        let t1 = self.t().sql_text(prefixes);
        self.t().lemma_marks(prefixes);
        lemma_marks_concat(t0, 0, t1, self.t().sql_params().len() as int);
        let a1 = t0 + t1;
        let n1: int = 0int + self.t().sql_params().len() as int;
        let t2 = ")"@;
        reveal_strlit(")");
        lemma_plain_marks(")"@);
        lemma_marks_concat(a1, n1, t2, 0);
    }

    fn note_names(&self, prefixes: &mut AliasPrefixes) {
        self.t.note_names(prefixes);
    }

    fn build_sql_in(
        &self,
        prefixes: &AliasPrefixes,
        buf: &mut Vec<u8>,
        params: &mut Vec<Value>,
    ) -> (r: Result<(), BuildSqlError>) {
        write_str(buf, "sum(");
        self.t.build_sql_in(prefixes, buf, params)?;
        write_str(buf, ")");
        proof {
            broadcast use lemma_encode_utf8_concat;

            assert(buf@ =~= old(buf)@ + encode_utf8(self.sql_text(prefixes@)));
            assert(params.deep_view() =~= old(params).deep_view() + self.sql_params());
        }
        Ok(())
    }
}

/// The number of rows of a group in which an expression is not NULL.
#[derive(Debug, Clone)]
pub struct Count<T> {
    t: T,
}

impl<T> Count<T> {
    /// The first argument.
    pub closed spec fn t(&self) -> T {
        self.t
    }

    pub fn new(t: T) -> (r: Count<T>)
        ensures
            r.t() == t,
    {
        Count { t }
    }
}

/// SQL `count`.
pub fn count<T>(t: T) -> (r: Count<T>) where
    T: Expression,
    T::SqlType: Comparable<SqlTypeAny>,

    ensures
            r.t() == t,
{
    Count::new(t)
}

impl<T> Expression for Count<T> where
    T: Expression,
    T::SqlType: Comparable<SqlTypeAny>,
 {
    type SqlType = SqlTypeInt;

    type Term = Monomial;

    type BoolOperation = NonBool;

    type Aggregation = Aggregate;
}

impl<T: BuildSql> BuildSql for Count<T> {
    open spec fn sql_text(&self, prefixes: Prefixes) -> Seq<char> {
        "count("@ + self.t().sql_text(prefixes) + ")"@
    }

    open spec fn sql_params(&self) -> Seq<ValueView> {
        self.t().sql_params()
    }

    open spec fn alias_names(&self) -> Seq<SourceAliasName> {
        self.t().alias_names()
    }

    open spec fn plain_names(&self) -> bool {
        self.t().plain_names()
    }

    open spec fn infallible(&self) -> bool {
        self.t().infallible()
    }

    proof fn lemma_marks(&self, prefixes: Prefixes) {
        let t0 = "count("@;
        reveal_strlit("count(");
        lemma_plain_marks("count("@);
        let t1 = self.t().sql_text(prefixes);
        self.t().lemma_marks(prefixes);
        lemma_marks_concat(t0, 0, t1, self.t().sql_params().len() as int);
        let a1 = t0 + t1;
        let n1: int = 0int + self.t().sql_params().len() as int;
        let t2 = ")"@;
        reveal_strlit(")");
        lemma_plain_marks(")"@);
        lemma_marks_concat(a1, n1, t2, 0);
    }

    fn note_names(&self, prefixes: &mut AliasPrefixes) {
        self.t.note_names(prefixes);
    }

    fn build_sql_in(
        &self,
        prefixes: &AliasPrefixes,
        buf: &mut Vec<u8>,
        params: &mut Vec<Value>,
    ) -> (r: Result<(), BuildSqlError>) {
        write_str(buf, "count(");
        self.t.build_sql_in(prefixes, buf, params)?;
        write_str(buf, ")");
        proof {
            broadcast use lemma_encode_utf8_concat;

            assert(buf@ =~= old(buf)@ + encode_utf8(self.sql_text(prefixes@)));
            assert(params.deep_view() =~= old(params).deep_view() + self.sql_params());
        }
        Ok(())
    }
}

/// The date of a string expression.
#[derive(Debug, Clone)]
pub struct Date<T> {
    t: T,
}

impl<T> Date<T> {
    /// The first argument.
    pub closed spec fn t(&self) -> T {
        self.t
    }

    pub fn new(t: T) -> (r: Date<T>)
        ensures
            r.t() == t,
    {
        Date { t }
    }
}

/// SQL `date`.
pub fn date<T>(t: T) -> (r: Date<T>) where
    T: Expression,
    T::SqlType: Comparable<SqlTypeString>,

    ensures
            r.t() == t,
{
    Date::new(t)
}

impl<T> Expression for Date<T> where
    T: Expression,
    T::SqlType: Comparable<SqlTypeString>,
 {
    type SqlType = SqlTypeString;

    type Term = Monomial;

    type BoolOperation = NonBool;

    type Aggregation = NonAggregate;
}

impl<T: BuildSql> BuildSql for Date<T> {
    open spec fn sql_text(&self, prefixes: Prefixes) -> Seq<char> {
        "date("@ + self.t().sql_text(prefixes) + ")"@
    }

    open spec fn sql_params(&self) -> Seq<ValueView> {
        self.t().sql_params()
    }

    open spec fn alias_names(&self) -> Seq<SourceAliasName> {
        self.t().alias_names()
    }

    open spec fn plain_names(&self) -> bool {
        self.t().plain_names()
    }

    open spec fn infallible(&self) -> bool {
        self.t().infallible()
    }

    proof fn lemma_marks(&self, prefixes: Prefixes) {
        let t0 = "date("@;
        reveal_strlit("date(");
        lemma_plain_marks("date("@);
        let t1 = self.t().sql_text(prefixes);
        self.t().lemma_marks(prefixes);
        lemma_marks_concat(t0, 0, t1, self.t().sql_params().len() as int);
        let a1 = t0 + t1;
        let n1: int = 0int + self.t().sql_params().len() as int;
        let t2 = ")"@;
        reveal_strlit(")");
        lemma_plain_marks(")"@);
        lemma_marks_concat(a1, n1, t2, 0);
    }

    fn note_names(&self, prefixes: &mut AliasPrefixes) {
        self.t.note_names(prefixes);
    }

    fn build_sql_in(
        &self,
        prefixes: &AliasPrefixes,
        buf: &mut Vec<u8>,
        params: &mut Vec<Value>,
    ) -> (r: Result<(), BuildSqlError>) {
        write_str(buf, "date(");
        self.t.build_sql_in(prefixes, buf, params)?;
        write_str(buf, ")");
        proof {
            broadcast use lemma_encode_utf8_concat;

            assert(buf@ =~= old(buf)@ + encode_utf8(self.sql_text(prefixes@)));
            assert(params.deep_view() =~= old(params).deep_view() + self.sql_params());
        }
        Ok(())
    }
}

/// The first `n` characters of a string expression.
#[derive(Debug, Clone)]
pub struct Left<T, N> {
    t: T,
    n: N,
}

impl<T, N> Left<T, N> {
    /// The first argument.
    pub closed spec fn t(&self) -> T {
        self.t
    }

    /// The second argument.
    pub closed spec fn n(&self) -> N {
        self.n
    }

    pub fn new(t: T, n: N) -> (r: Left<T, N>)
        ensures
            r.t() == t,
            r.n() == n,
    {
        Left { t, n }
    }
}

/// SQL `left`.
pub fn left<T, N>(t: T, n: N) -> (r: Left<T, N>) where
    T: Expression,
    T::SqlType: Comparable<SqlTypeString>,
    N: Expression,
    N::SqlType: Comparable<SqlTypeInt>,

    ensures
            r.t() == t,
            r.n() == n,
{
    Left::new(t, n)
}

impl<T, N> Expression for Left<T, N> where
    T: Expression,
    T::SqlType: Comparable<SqlTypeString>,
    N: Expression,
    N::SqlType: Comparable<SqlTypeInt>,
 {
    type SqlType = SqlTypeString;

    type Term = Monomial;

    type BoolOperation = NonBool;

    type Aggregation = NonAggregate;
}

impl<T: BuildSql, N: BuildSql> BuildSql for Left<T, N> {
    open spec fn sql_text(&self, prefixes: Prefixes) -> Seq<char> {
        "left("@ + self.t().sql_text(prefixes) + ", "@ + self.n().sql_text(prefixes) + ")"@
    }

    open spec fn sql_params(&self) -> Seq<ValueView> {
        self.t().sql_params() + self.n().sql_params()
    }

    open spec fn alias_names(&self) -> Seq<SourceAliasName> {
        self.t().alias_names() + self.n().alias_names()
    }

    open spec fn plain_names(&self) -> bool {
        self.t().plain_names() && self.n().plain_names()
    }

    open spec fn infallible(&self) -> bool {
        self.t().infallible() && self.n().infallible()
    }

    proof fn lemma_marks(&self, prefixes: Prefixes) {
        let t0 = "left("@;
        reveal_strlit("left(");
        lemma_plain_marks("left("@);
        let t1 = self.t().sql_text(prefixes);
        self.t().lemma_marks(prefixes);
        lemma_marks_concat(t0, 0, t1, self.t().sql_params().len() as int);
        let a1 = t0 + t1;
        let n1: int = 0int + self.t().sql_params().len() as int;
        let t2 = ", "@;
        reveal_strlit(", ");
        lemma_plain_marks(", "@);
        lemma_marks_concat(a1, n1, t2, 0);
        let a2 = a1 + t2;
        let n2: int = n1 + 0;
        let t3 = self.n().sql_text(prefixes);
        self.n().lemma_marks(prefixes);
        lemma_marks_concat(a2, n2, t3, self.n().sql_params().len() as int);
        let a3 = a2 + t3;
        let n3: int = n2 + self.n().sql_params().len() as int;
        let t4 = ")"@;
        reveal_strlit(")");
        lemma_plain_marks(")"@);
        lemma_marks_concat(a3, n3, t4, 0);
    }

    fn note_names(&self, prefixes: &mut AliasPrefixes) {
        let ghost start = prefixes@;
        self.t.note_names(prefixes);
        let ghost mut done = self.t().alias_names();
        note_part(&self.n, prefixes, Ghost(start), Ghost(done));
    }

    fn build_sql_in(
        &self,
        prefixes: &AliasPrefixes,
        buf: &mut Vec<u8>,
        params: &mut Vec<Value>,
    ) -> (r: Result<(), BuildSqlError>) {
        write_str(buf, "left(");
        self.t.build_sql_in(prefixes, buf, params)?;
        write_str(buf, ", ");
        self.n.build_sql_in(prefixes, buf, params)?;
        write_str(buf, ")");
        proof {
            broadcast use lemma_encode_utf8_concat;

            assert(buf@ =~= old(buf)@ + encode_utf8(self.sql_text(prefixes@)));
            assert(params.deep_view() =~= old(params).deep_view() + self.sql_params());
        }
        Ok(())
    }
}

} // verus!
