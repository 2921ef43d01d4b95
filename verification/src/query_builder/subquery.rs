//! Comparisons of an expression with the rows of a nested statement: with any
//! of them, or with all of them.

use std::marker::PhantomData;
use vstd::prelude::*;
use vstd::utf8::*;
use super::alias::{AliasPrefixes, Prefixes, SourceAliasName};
use super::builder::SelectBuilder;
use super::logic::{AndOperatorMethod, NotOperatorMethod, OrOperatorMethod};
use super::operators::{Equal, Greater, GreaterOrEqual, InfixOperator, Less, LessOrEqual, NotEqual};
use super::render::{note_part, BuildSql, BuildSqlError};
use super::text::{
    lemma_encode_utf8_concat, lemma_marks_concat, lemma_plain_marks, plain, write_str,
};
use super::types::{
    BoolMono, Columns, Comparable, Expression, NonAggregate, Polynomial, SqlTypeBool,
};
use super::value::{Value, ValueView};

verus! {

/// Which rows of the nested statement a comparison must hold for.
pub trait Quantifier {
    /// The keyword, with the blank after it.
    spec fn keyword() -> Seq<char>;

    /// The keyword is written without `?` and `;`.
    proof fn keyword_is_plain()
        ensures
            plain(Self::keyword()),
    ;

    fn keyword_str() -> (s: &'static str)
        ensures
            s@ == Self::keyword(),
    ;
}

/// `ANY`: the comparison holds for at least one row.
#[derive(Debug, Clone, Copy)]
pub struct AnyRow;

/// `ALL`: the comparison holds for every row.
#[derive(Debug, Clone, Copy)]
pub struct AllRows;

impl Quantifier for AnyRow {
    open spec fn keyword() -> Seq<char> {
        "ANY "@
    }

    proof fn keyword_is_plain() {
        reveal_strlit("ANY ");
    }

    fn keyword_str() -> (s: &'static str) {
        "ANY "
    }
}

impl Quantifier for AllRows {
    open spec fn keyword() -> Seq<char> {
        "ALL "@
    }

    proof fn keyword_is_plain() {
        reveal_strlit("ALL ");
    }

    fn keyword_str() -> (s: &'static str) {
        "ALL "
    }
}

/// An expression compared by `OP` with the rows, as `Q` says, of a nested
/// statement whose columns have a comparable type.
#[derive(Debug)]
pub struct Quantified<OP, Q, Lhs, QS, W, C, G, H, O, L, LM> where
    C: Columns,
    Lhs: Expression,
    Lhs::SqlType: Comparable<C::SqlType>,
 {
    lhs: Lhs,
    rhs: SelectBuilder<QS, W, C, G, H, O, L, LM>,
    operator: PhantomData<(OP, Q)>,
}

/// `lhs = ANY (...)`
pub type EqAny<Lhs, QS, W, C, G, H, O, L, LM> = Quantified<
    Equal,
    AnyRow,
    Lhs,
    QS,
    W,
    C,
    G,
    H,
    O,
    L,
    LM,
>;

/// `lhs != ANY (...)`
pub type NotEqAny<Lhs, QS, W, C, G, H, O, L, LM> = Quantified<
    NotEqual,
    AnyRow,
    Lhs,
    QS,
    W,
    C,
    G,
    H,
    O,
    L,
    LM,
>;

/// `lhs > ANY (...)`
pub type GtAny<Lhs, QS, W, C, G, H, O, L, LM> = Quantified<
    Greater,
    AnyRow,
    Lhs,
    QS,
    W,
    C,
    G,
    H,
    O,
    L,
    LM,
>;

/// `lhs >= ANY (...)`
pub type GeAny<Lhs, QS, W, C, G, H, O, L, LM> = Quantified<
    GreaterOrEqual,
    AnyRow,
    Lhs,
    QS,
    W,
    C,
    G,
    H,
    O,
    L,
    LM,
>;

/// `lhs < ANY (...)`
pub type LtAny<Lhs, QS, W, C, G, H, O, L, LM> = Quantified<
    Less,
    AnyRow,
    Lhs,
    QS,
    W,
    C,
    G,
    H,
    O,
    L,
    LM,
>;

/// `lhs <= ANY (...)`
pub type LeAny<Lhs, QS, W, C, G, H, O, L, LM> = Quantified<
    LessOrEqual,
    AnyRow,
    Lhs,
    QS,
    W,
    C,
    G,
    H,
    O,
    L,
    LM,
>;

/// `lhs = ALL (...)`
pub type EqAll<Lhs, QS, W, C, G, H, O, L, LM> = Quantified<
    Equal,
    AllRows,
    Lhs,
    QS,
    W,
    C,
    G,
    H,
    O,
    L,
    LM,
>;

/// `lhs != ALL (...)`
pub type NotEqAll<Lhs, QS, W, C, G, H, O, L, LM> = Quantified<
    NotEqual,
    AllRows,
    Lhs,
    QS,
    W,
    C,
    G,
    H,
    O,
    L,
    LM,
>;

/// `lhs > ALL (...)`
pub type GtAll<Lhs, QS, W, C, G, H, O, L, LM> = Quantified<
    Greater,
    AllRows,
    Lhs,
    QS,
    W,
    C,
    G,
    H,
    O,
    L,
    LM,
>;

/// `lhs >= ALL (...)`
pub type GeAll<Lhs, QS, W, C, G, H, O, L, LM> = Quantified<
    GreaterOrEqual,
    AllRows,
    Lhs,
    QS,
    W,
    C,
    G,
    H,
    O,
    L,
    LM,
>;

/// `lhs < ALL (...)`
pub type LtAll<Lhs, QS, W, C, G, H, O, L, LM> = Quantified<
    Less,
    AllRows,
    Lhs,
    QS,
    W,
    C,
    G,
    H,
    O,
    L,
    LM,
>;

/// `lhs <= ALL (...)`
pub type LeAll<Lhs, QS, W, C, G, H, O, L, LM> = Quantified<
    LessOrEqual,
    AllRows,
    Lhs,
    QS,
    W,
    C,
    G,
    H,
    O,
    L,
    LM,
>;

impl<OP, Q, Lhs, QS, W, C, G, H, O, L, LM> Quantified<OP, Q, Lhs, QS, W, C, G, H, O, L, LM> where
    C: Columns,
    Lhs: Expression,
    Lhs::SqlType: Comparable<C::SqlType>,
 {
    /// The expression that is compared.
    pub closed spec fn lhs(&self) -> Lhs {
        self.lhs
    }

    /// The nested statement.
    pub closed spec fn rhs(&self) -> SelectBuilder<QS, W, C, G, H, O, L, LM> {
        self.rhs
    }

    fn new(lhs: Lhs, rhs: SelectBuilder<QS, W, C, G, H, O, L, LM>) -> (r: Self)
        ensures
            r.lhs() == lhs,
            r.rhs() == rhs,
    {
        Quantified { lhs, rhs, operator: PhantomData }
    }
}

impl<OP, Q, Lhs, QS, W, C, G, H, O, L, LM> Clone for Quantified<
    OP,
    Q,
    Lhs,
    QS,
    W,
    C,
    G,
    H,
    O,
    L,
    LM,
> where
    C: Columns,
    Lhs: Expression + Clone,
    Lhs::SqlType: Comparable<C::SqlType>,
    SelectBuilder<QS, W, C, G, H, O, L, LM>: Clone,
 {
    fn clone(&self) -> (r: Self)
        ensures
            cloned(self.lhs(), r.lhs()),
            cloned(self.rhs(), r.rhs()),
    {
        Quantified { lhs: self.lhs.clone(), rhs: self.rhs.clone(), operator: PhantomData }
    }
}

impl<OP, Q, Lhs, QS, W, C, G, H, O, L, LM> Expression for Quantified<
    OP,
    Q,
    Lhs,
    QS,
    W,
    C,
    G,
    H,
    O,
    L,
    LM,
> where C: Columns, Lhs: Expression, Lhs::SqlType: Comparable<C::SqlType> {
    type SqlType = SqlTypeBool;

    type Term = Polynomial;

    type BoolOperation = BoolMono;

    type Aggregation = NonAggregate;
}

impl<OP, Q, Lhs, QS, W, C, G, H, O, L, LM> AndOperatorMethod for Quantified<
    OP,
    Q,
    Lhs,
    QS,
    W,
    C,
    G,
    H,
    O,
    L,
    LM,
> where
    C: Columns,
    Lhs: Expression,
    Lhs::SqlType: Comparable<C::SqlType>,
    Self: Expression<SqlType = SqlTypeBool>,
 {
}

impl<OP, Q, Lhs, QS, W, C, G, H, O, L, LM> OrOperatorMethod for Quantified<
    OP,
    Q,
    Lhs,
    QS,
    W,
    C,
    G,
    H,
    O,
    L,
    LM,
> where
    C: Columns,
    Lhs: Expression,
    Lhs::SqlType: Comparable<C::SqlType>,
    Self: Expression<SqlType = SqlTypeBool>,
 {
}

impl<OP, Q, Lhs, QS, W, C, G, H, O, L, LM> NotOperatorMethod for Quantified<
    OP,
    Q,
    Lhs,
    QS,
    W,
    C,
    G,
    H,
    O,
    L,
    LM,
> where
    C: Columns,
    Lhs: Expression,
    Lhs::SqlType: Comparable<C::SqlType>,
    Self: Expression<SqlType = SqlTypeBool>,
 {
}

impl<OP, Q, Lhs, QS, W, C, G, H, O, L, LM> BuildSql for Quantified<
    OP,
    Q,
    Lhs,
    QS,
    W,
    C,
    G,
    H,
    O,
    L,
    LM,
> where
    OP: InfixOperator,
    Q: Quantifier,
    QS: BuildSql,
    C: BuildSql + Columns,
    W: BuildSql,
    G: BuildSql,
    H: BuildSql,
    O: BuildSql,
    L: BuildSql,
    LM: BuildSql,
    Lhs: Expression + BuildSql,
    Lhs::SqlType: Comparable<C::SqlType>,
 {
    open spec fn sql_text(&self, prefixes: Prefixes) -> Seq<char> {
        self.lhs().sql_text(prefixes) + OP::symbol() + Q::keyword() + self.rhs().sql_text(prefixes)
    }

    open spec fn sql_params(&self) -> Seq<ValueView> {
        self.lhs().sql_params() + self.rhs().sql_params()
    }

    open spec fn alias_names(&self) -> Seq<SourceAliasName> {
        self.lhs().alias_names() + self.rhs().alias_names()
    }

    open spec fn plain_names(&self) -> bool {
        self.lhs().plain_names() && self.rhs().plain_names()
    }

    open spec fn infallible(&self) -> bool {
        self.lhs().infallible() && self.rhs().infallible()
    }

    proof fn lemma_marks(&self, prefixes: Prefixes) {
        let t0 = self.lhs().sql_text(prefixes);
        self.lhs().lemma_marks(prefixes);
        let t1 = OP::symbol();
        OP::symbol_is_plain();
        lemma_plain_marks(OP::symbol());
        lemma_marks_concat(t0, self.lhs().sql_params().len() as int, t1, 0);
        let a1 = t0 + t1;
        let n1: int = self.lhs().sql_params().len() as int + 0;
        let t2 = Q::keyword();
        Q::keyword_is_plain();
        lemma_plain_marks(Q::keyword());
        lemma_marks_concat(a1, n1, t2, 0);
        let a2 = a1 + t2;
        let n2: int = n1 + 0;
        let t3 = self.rhs().sql_text(prefixes);
        self.rhs().lemma_marks(prefixes);
        lemma_marks_concat(a2, n2, t3, self.rhs().sql_params().len() as int);
    }

    fn note_names(&self, prefixes: &mut AliasPrefixes) {
        let ghost start = prefixes@;
        self.lhs.note_names(prefixes);
        let ghost mut done = self.lhs().alias_names();
        note_part(&self.rhs, prefixes, Ghost(start), Ghost(done));
    }

    fn build_sql_in(
        &self,
        prefixes: &AliasPrefixes,
        buf: &mut Vec<u8>,
        params: &mut Vec<Value>,
    ) -> (r: Result<(), BuildSqlError>) {
        self.lhs.build_sql_in(prefixes, buf, params)?;
        write_str(buf, OP::symbol_str());
        write_str(buf, Q::keyword_str());
        self.rhs.build_sql_in(prefixes, buf, params)?;
        proof {
            broadcast use lemma_encode_utf8_concat;

            assert(buf@ =~= old(buf)@ + encode_utf8(self.sql_text(prefixes@)));
            assert(params.deep_view() =~= old(params).deep_view() + self.sql_params());
        }
        Ok(())
    }
}

/// The comparisons of an expression with the rows of a nested statement whose
/// columns have a comparable type.
pub trait SubQueryCompareBinaryOperatorMethod<QS, W, C, G, H, O, L, LM>: Expression + Sized where
    C: Columns,
    Self::SqlType: Comparable<C::SqlType>,
 {
    /// SQL `= ANY (...)`.
    fn eq_any(self, rhs: SelectBuilder<QS, W, C, G, H, O, L, LM>) -> (r: EqAny<
        Self,
        QS,
        W,
        C,
        G,
        H,
        O,
        L,
        LM,
    >)
        ensures
            r.lhs() == self,
            r.rhs() == rhs,
    {
        Quantified::new(self, rhs)
    }

    /// SQL `!= ANY (...)`.
    fn not_eq_any(self, rhs: SelectBuilder<QS, W, C, G, H, O, L, LM>) -> (r: NotEqAny<
        Self,
        QS,
        W,
        C,
        G,
        H,
        O,
        L,
        LM,
    >)
        ensures
            r.lhs() == self,
            r.rhs() == rhs,
    {
        Quantified::new(self, rhs)
    }

    /// SQL `> ANY (...)`.
    fn gt_any(self, rhs: SelectBuilder<QS, W, C, G, H, O, L, LM>) -> (r: GtAny<
        Self,
        QS,
        W,
        C,
        G,
        H,
        O,
        L,
        LM,
    >)
        ensures
            r.lhs() == self,
            r.rhs() == rhs,
    {
        Quantified::new(self, rhs)
    }

    /// SQL `>= ANY (...)`.
    fn ge_any(self, rhs: SelectBuilder<QS, W, C, G, H, O, L, LM>) -> (r: GeAny<
        Self,
        QS,
        W,
        C,
        G,
        H,
        O,
        L,
        LM,
    >)
        ensures
            r.lhs() == self,
            r.rhs() == rhs,
    {
        Quantified::new(self, rhs)
    }

    /// SQL `< ANY (...)`.
    fn lt_any(self, rhs: SelectBuilder<QS, W, C, G, H, O, L, LM>) -> (r: LtAny<
        Self,
        QS,
        W,
        C,
        G,
        H,
        O,
        L,
        LM,
    >)
        ensures
            r.lhs() == self,
            r.rhs() == rhs,
    {
        Quantified::new(self, rhs)
    }

    /// SQL `<= ANY (...)`.
    fn le_any(self, rhs: SelectBuilder<QS, W, C, G, H, O, L, LM>) -> (r: LeAny<
        Self,
        QS,
        W,
        C,
        G,
        H,
        O,
        L,
        LM,
    >)
        ensures
            r.lhs() == self,
            r.rhs() == rhs,
    {
        Quantified::new(self, rhs)
    }

    /// SQL `= ALL (...)`.
    fn eq_all(self, rhs: SelectBuilder<QS, W, C, G, H, O, L, LM>) -> (r: EqAll<
        Self,
        QS,
        W,
        C,
        G,
        H,
        O,
        L,
        LM,
    >)
        ensures
            r.lhs() == self,
            r.rhs() == rhs,
    {
        Quantified::new(self, rhs)
    }

    /// SQL `!= ALL (...)`.
    fn not_eq_all(self, rhs: SelectBuilder<QS, W, C, G, H, O, L, LM>) -> (r: NotEqAll<
        Self,
        QS,
        W,
        C,
        G,
        H,
        O,
        L,
        LM,
    >)
        ensures
            r.lhs() == self,
            r.rhs() == rhs,
    {
        Quantified::new(self, rhs)
    }

    /// SQL `> ALL (...)`.
    fn gt_all(self, rhs: SelectBuilder<QS, W, C, G, H, O, L, LM>) -> (r: GtAll<
        Self,
        QS,
        W,
        C,
        G,
        H,
        O,
        L,
        LM,
    >)
        ensures
            r.lhs() == self,
            r.rhs() == rhs,
    {
        Quantified::new(self, rhs)
    }

    /// SQL `>= ALL (...)`.
    fn ge_all(self, rhs: SelectBuilder<QS, W, C, G, H, O, L, LM>) -> (r: GeAll<
        Self,
        QS,
        W,
        C,
        G,
        H,
        O,
        L,
        LM,
    >)
        ensures
            r.lhs() == self,
            r.rhs() == rhs,
    {
        Quantified::new(self, rhs)
    }

    /// SQL `< ALL (...)`.
    fn lt_all(self, rhs: SelectBuilder<QS, W, C, G, H, O, L, LM>) -> (r: LtAll<
        Self,
        QS,
        W,
        C,
        G,
        H,
        O,
        L,
        LM,
    >)
        ensures
            r.lhs() == self,
            r.rhs() == rhs,
    {
        Quantified::new(self, rhs)
    }

    /// SQL `<= ALL (...)`.
    fn le_all(self, rhs: SelectBuilder<QS, W, C, G, H, O, L, LM>) -> (r: LeAll<
        Self,
        QS,
        W,
        C,
        G,
        H,
        O,
        L,
        LM,
    >)
        ensures
            r.lhs() == self,
            r.rhs() == rhs,
    {
        Quantified::new(self, rhs)
    }
}

impl<Lhs, QS, W, C, G, H, O, L, LM> SubQueryCompareBinaryOperatorMethod<
    QS,
    W,
    C,
    G,
    H,
    O,
    L,
    LM,
> for Lhs where C: Columns, Lhs: Expression, Lhs::SqlType: Comparable<C::SqlType> {
}

} // verus!
