//! What is selected, grouped by and ordered by, and the limit.

use vstd::prelude::*;
use vstd::string::*;
use vstd::utf8::*;
use super::alias::{covers, extends, plain_prefixes, AliasPrefixes, Prefixes, SourceAliasName};
use super::render::{build_after, build_part, note_part, BuildSql, BuildSqlError, Rendered};
use super::text::{
    lemma_encode_utf8_concat, lemma_marks_concat, lemma_plain_marks, marks, plain, write_str,
};
use super::types::{Columns, Expression, NonAggregate, Orders, SqlTypeList};
use super::value::{Value, ValueView};

verus! {

/// Columns selected without duplicate rows.
#[derive(Debug, Clone)]
pub struct Distinct<T>(T);

impl<T> Distinct<T> {
    /// The columns.
    pub closed spec fn inner(&self) -> T {
        self.0
    }

    pub fn new(x: T) -> (r: Distinct<T>)
        ensures
            r.inner() == x,
    {
        Distinct(x)
    }
}

impl<T> Columns for Distinct<T> where T: Columns<Aggregation = NonAggregate> {
    type SqlType = T::SqlType;

    type Aggregation = T::Aggregation;
}

impl<T: BuildSql> BuildSql for Distinct<T> {
    open spec fn sql_text(&self, prefixes: Prefixes) -> Seq<char> {
        "DISTINCT "@ + self.inner().sql_text(prefixes)
    }

    open spec fn sql_params(&self) -> Seq<ValueView> {
        self.inner().sql_params()
    }

    open spec fn alias_names(&self) -> Seq<SourceAliasName> {
        self.inner().alias_names()
    }

    open spec fn plain_names(&self) -> bool {
        self.inner().plain_names()
    }

    open spec fn infallible(&self) -> bool {
        self.inner().infallible()
    }

    proof fn lemma_marks(&self, prefixes: Prefixes) {
        let t0 = "DISTINCT "@;
        reveal_strlit("DISTINCT ");
        lemma_plain_marks("DISTINCT "@);
        let t1 = self.inner().sql_text(prefixes);
        self.inner().lemma_marks(prefixes);
        lemma_marks_concat(t0, 0, t1, self.inner().sql_params().len() as int);
    }

    fn note_names(&self, prefixes: &mut AliasPrefixes) {
        self.0.note_names(prefixes);
    }

    fn build_sql_in(
        &self,
        prefixes: &AliasPrefixes,
        buf: &mut Vec<u8>,
        params: &mut Vec<Value>,
    ) -> (r: Result<(), BuildSqlError>) {
        write_str(buf, "DISTINCT ");
        self.0.build_sql_in(prefixes, buf, params)?;
        proof {
            broadcast use lemma_encode_utf8_concat;

            assert(buf@ =~= old(buf)@ + encode_utf8(self.sql_text(prefixes@)));
        }
        Ok(())
    }
}

/// A selected expression under a name of its own.
#[derive(Debug, Clone)]
pub struct ColumnAlias<E> {
    expr: E,
    name: String,
}

impl<E> ColumnAlias<E> {
    /// The expression.
    pub closed spec fn expr(&self) -> E {
        self.expr
    }

    /// The characters of the name.
    pub closed spec fn name(&self) -> Seq<char> {
        self.name@
    }

    pub fn new(expr: E, name: &str) -> (r: ColumnAlias<E>)
        ensures
            r.expr() == expr,
            r.name() == name@,
    {
        ColumnAlias { expr, name: String::from_str(name) }
    }
}

impl<E> Columns for ColumnAlias<E> where E: Expression {
    type SqlType = E::SqlType;

    type Aggregation = E::Aggregation;
}

impl<E: BuildSql> BuildSql for ColumnAlias<E> {
    open spec fn sql_text(&self, prefixes: Prefixes) -> Seq<char> {
        self.expr().sql_text(prefixes) + " as "@ + self.name()
    }

    open spec fn sql_params(&self) -> Seq<ValueView> {
        self.expr().sql_params()
    }

    open spec fn alias_names(&self) -> Seq<SourceAliasName> {
        self.expr().alias_names()
    }

    open spec fn plain_names(&self) -> bool {
        self.expr().plain_names() && plain(self.name())
    }

    open spec fn infallible(&self) -> bool {
        self.expr().infallible()
    }

    proof fn lemma_marks(&self, prefixes: Prefixes) {
        let t0 = self.expr().sql_text(prefixes);
        self.expr().lemma_marks(prefixes);
        let t1 = " as "@;
        reveal_strlit(" as ");
        lemma_plain_marks(" as "@);
        lemma_marks_concat(t0, self.expr().sql_params().len() as int, t1, 0);
        let a1 = t0 + t1;
        let n1: int = self.expr().sql_params().len() as int + 0;
        let t2 = self.name();
        lemma_plain_marks(self.name());
        lemma_marks_concat(a1, n1, t2, 0);
    }

    fn note_names(&self, prefixes: &mut AliasPrefixes) {
        self.expr.note_names(prefixes);
    }

    fn build_sql_in(
        &self,
        prefixes: &AliasPrefixes,
        buf: &mut Vec<u8>,
        params: &mut Vec<Value>,
    ) -> (r: Result<(), BuildSqlError>) {
        self.expr.build_sql_in(prefixes, buf, params)?;
        write_str(buf, " as ");
        write_str(buf, self.name.as_str());
        proof {
            broadcast use lemma_encode_utf8_concat;

            assert(buf@ =~= old(buf)@ + encode_utf8(self.sql_text(prefixes@)));
        }
        Ok(())
    }
}

/// A row of expressions, compared as a whole. It renders in parentheses.
#[derive(Debug, Clone)]
pub struct Record<T> {
    columns: T,
}

impl<T> Record<T> {
    /// The expressions of the row.
    pub closed spec fn columns(&self) -> T {
        self.columns
    }

    pub fn new(columns: T) -> (r: Record<T>)
        ensures
            r.columns() == columns,
    {
        Record { columns }
    }
}

/// A list of two or more columns.
pub trait ColumnList {
}

impl<T> BuildSql for Record<T> where T: BuildSql + ColumnList {
    open spec fn sql_text(&self, prefixes: Prefixes) -> Seq<char> {
        "("@ + self.columns().sql_text(prefixes) + ")"@
    }

    open spec fn sql_params(&self) -> Seq<ValueView> {
        self.columns().sql_params()
    }

    open spec fn alias_names(&self) -> Seq<SourceAliasName> {
        self.columns().alias_names()
    }

    open spec fn plain_names(&self) -> bool {
        self.columns().plain_names()
    }

    open spec fn infallible(&self) -> bool {
        self.columns().infallible()
    }

    proof fn lemma_marks(&self, prefixes: Prefixes) {
        let t0 = "("@;
        reveal_strlit("(");
        lemma_plain_marks("("@);
        let t1 = self.columns().sql_text(prefixes);
        self.columns().lemma_marks(prefixes);
        lemma_marks_concat(t0, 0, t1, self.columns().sql_params().len() as int);
        let a1 = t0 + t1;
        let n1: int = 0int + self.columns().sql_params().len() as int;
        let t2 = ")"@;
        reveal_strlit(")");
        lemma_plain_marks(")"@);
        lemma_marks_concat(a1, n1, t2, 0);
    }

    fn note_names(&self, prefixes: &mut AliasPrefixes) {
        self.columns.note_names(prefixes);
    }

    fn build_sql_in(
        &self,
        prefixes: &AliasPrefixes,
        buf: &mut Vec<u8>,
        params: &mut Vec<Value>,
    ) -> (r: Result<(), BuildSqlError>) {
        write_str(buf, "(");
        self.columns.build_sql_in(prefixes, buf, params)?;
        write_str(buf, ")");
        proof {
            broadcast use lemma_encode_utf8_concat;

            assert(buf@ =~= old(buf)@ + encode_utf8(self.sql_text(prefixes@)));
        }
        Ok(())
    }
}

/// The columns of a row of the result, selected as they are.
#[derive(Debug, Clone)]
pub struct Row<T> {
    columns: T,
}

impl<T: Columns> Row<T> {
    /// The columns.
    pub closed spec fn columns(&self) -> T {
        self.columns
    }

    pub fn new(columns: T) -> (r: Row<T>)
        ensures
            r.columns() == columns,
    {
        Row { columns }
    }
}

impl<T> Columns for Row<T> where T: Columns {
    type SqlType = T::SqlType;

    type Aggregation = T::Aggregation;
}

impl<T> BuildSql for Row<T> where T: Columns + BuildSql {
    open spec fn sql_text(&self, prefixes: Prefixes) -> Seq<char> {
        self.columns().sql_text(prefixes)
    }

    open spec fn sql_params(&self) -> Seq<ValueView> {
        self.columns().sql_params()
    }

    open spec fn alias_names(&self) -> Seq<SourceAliasName> {
        self.columns().alias_names()
    }

    open spec fn plain_names(&self) -> bool {
        self.columns().plain_names()
    }

    open spec fn infallible(&self) -> bool {
        self.columns().infallible()
    }

    proof fn lemma_marks(&self, prefixes: Prefixes) {
        self.columns().lemma_marks(prefixes);
    }

    fn note_names(&self, prefixes: &mut AliasPrefixes) {
        self.columns.note_names(prefixes);
    }

    fn build_sql_in(
        &self,
        prefixes: &AliasPrefixes,
        buf: &mut Vec<u8>,
        params: &mut Vec<Value>,
    ) -> (r: Result<(), BuildSqlError>) {
        self.columns.build_sql_in(prefixes, buf, params)
    }
}

/// The text of a list of parts: the texts of the parts, separated by a comma
/// and a blank.
pub open spec fn list_text<E: BuildSql>(items: Seq<E>, prefixes: Prefixes) -> Seq<char>
    decreases items.len(),
{
    if items.len() == 0 {
        Seq::empty()
    } else if items.len() == 1 {
        items[0].sql_text(prefixes)
    } else {
        list_text(items.drop_last(), prefixes) + ", "@ + items.last().sql_text(prefixes)
    }
}

/// The values of a list of parts: the values of the parts, one part after
/// another.
pub open spec fn list_params<E: BuildSql>(items: Seq<E>) -> Seq<ValueView>
    decreases items.len(),
{
    if items.len() == 0 {
        Seq::empty()
    } else {
        list_params(items.drop_last()) + items.last().sql_params()
    }
}

/// The names of a list of parts: the names of the parts, one part after
/// another.
pub open spec fn list_names<E: BuildSql>(items: Seq<E>) -> Seq<SourceAliasName>
    decreases items.len(),
{
    if items.len() == 0 {
        Seq::empty()
    } else {
        list_names(items.drop_last()) + items.last().alias_names()
    }
}

/// Where neither the names of the parts of a list nor the prefixes read hold
/// a `?` or a `;`, the text of the list has one `?` for each of its values,
/// and no `;`.
pub proof fn lemma_list_marks<E: BuildSql>(items: Seq<E>, prefixes: Prefixes)
    requires
        forall|i: int| 0 <= i < items.len() ==> (#[trigger] items[i]).plain_names(),
        plain_prefixes(prefixes),
    ensures
        marks(list_text(items, prefixes), list_params(items).len() as int),
    decreases items.len(),
{
    if items.len() == 0 {
        lemma_plain_marks(Seq::<char>::empty());
    } else {
        let last = items.last();
        assert(last == items[items.len() - 1]);
        last.lemma_marks(prefixes);
        if items.len() > 1 {
            let before = items.drop_last();
            assert forall|i: int| 0 <= i < before.len() implies (#[trigger] before[i]).plain_names() by {
                assert(before[i] == items[i]);
            }
            lemma_list_marks(before, prefixes);
            reveal_strlit(", ");
            lemma_plain_marks(", "@);
            lemma_marks_concat(
                list_text(before, prefixes),
                list_params(before).len() as int,
                ", "@,
                0,
            );
            lemma_marks_concat(
                list_text(before, prefixes) + ", "@,
                list_params(before).len() as int,
                last.sql_text(prefixes),
                last.sql_params().len() as int,
            );
        } else {
            assert(items.drop_last() =~= Seq::<E>::empty());
            assert(list_params(items.drop_last()) =~= Seq::<ValueView>::empty());
            assert(list_params(items) =~= last.sql_params());
        }
    }
}

/// A list of any length of columns of one kind.
impl<E> Columns for Vec<E> where E: Expression {
    type SqlType = SqlTypeList<E::SqlType>;

    type Aggregation = E::Aggregation;
}

/// A list of any length of orders of one kind.
impl<E> Orders for Vec<E> where E: Orders {
}

impl<E> BuildSql for Vec<E> where E: BuildSql {
    open spec fn sql_text(&self, prefixes: Prefixes) -> Seq<char> {
        list_text(self@, prefixes)
    }

    open spec fn sql_params(&self) -> Seq<ValueView> {
        list_params(self@)
    }

    open spec fn alias_names(&self) -> Seq<SourceAliasName> {
        list_names(self@)
    }

    open spec fn plain_names(&self) -> bool {
        forall|i: int| 0 <= i < self@.len() ==> (#[trigger] self@[i]).plain_names()
    }

    open spec fn infallible(&self) -> bool {
        forall|i: int| 0 <= i < self@.len() ==> (#[trigger] self@[i]).infallible()
    }

    proof fn lemma_marks(&self, prefixes: Prefixes) {
        lemma_list_marks(self@, prefixes);
    }

    fn note_names(&self, prefixes: &mut AliasPrefixes) {
        let ghost start = prefixes@;
        proof {
            assert(self@.subrange(0, 0) =~= Seq::<E>::empty());
        }
        let mut i: usize = 0;
        while i < self.len()
            invariant
                i <= self.len(),
                extends(start, prefixes@),
                covers(prefixes@, list_names(self@.subrange(0, i as int))),
            decreases self.len() - i,
        {
            let ghost done = self@.subrange(0, i as int);
            let ghost next = self@.subrange(0, i + 1);
            proof {
                assert(next.drop_last() =~= done);
                assert(next.last() == self@[i as int]);
            }
            note_part(&self[i], prefixes, Ghost(start), Ghost(list_names(done)));
            i += 1;
        }
        proof {
            assert(self@.subrange(0, i as int) =~= self@);
        }
    }

    fn build_sql_in(
        &self,
        prefixes: &AliasPrefixes,
        buf: &mut Vec<u8>,
        params: &mut Vec<Value>,
    ) -> (r: Result<(), BuildSqlError>) {
        let ghost base = buf@;
        let ghost bound = params.deep_view();
        proof {
            assert(self@.subrange(0, 0) =~= Seq::<E>::empty());
            assert(buf@ =~= base + encode_utf8(list_text(self@.subrange(0, 0), prefixes@)));
            assert(params.deep_view() =~= bound + list_params(self@.subrange(0, 0)));
        }
        let mut i: usize = 0;
        while i < self.len()
            invariant
                i <= self.len(),
                buf@ == base + encode_utf8(list_text(self@.subrange(0, i as int), prefixes@)),
                params.deep_view() == bound + list_params(self@.subrange(0, i as int)),
            decreases self.len() - i,
        {
            let ghost done = self@.subrange(0, i as int);
            let ghost next = self@.subrange(0, i + 1);
            proof {
                assert(next.drop_last() =~= done);
                assert(next.last() == self@[i as int]);
            }
            let run = Ghost(
                Rendered {
                    base,
                    text: list_text(done, prefixes@),
                    bound,
                    values: list_params(done),
                },
            );
            if i == 0 {
                build_part(&self[i], prefixes, buf, params, run)?;
                proof {
                    assert(list_text(done, prefixes@) + self@[0].sql_text(prefixes@) =~= list_text(
                        next,
                        prefixes@,
                    ));
                }
            } else {
                build_after(", ", &self[i], prefixes, buf, params, run)?;
            }
            i += 1;
        }
        proof {
            assert(self@.subrange(0, i as int) =~= self@);
        }
        Ok(())
    }
}

/// An expression to order by, and the direction.
#[derive(Debug, Clone)]
pub enum Order<E> {
    Asc(E),
    Desc(E),
}

impl<E> Orders for Order<E> where E: Expression {
}

impl<E> BuildSql for Order<E> where E: BuildSql {
    open spec fn sql_text(&self, prefixes: Prefixes) -> Seq<char> {
        match self {
            Order::Asc(expr) => expr.sql_text(prefixes) + " ASC"@,
            Order::Desc(expr) => expr.sql_text(prefixes) + " DESC"@,
        }
    }

    open spec fn sql_params(&self) -> Seq<ValueView> {
        match self {
            Order::Asc(expr) => expr.sql_params(),
            Order::Desc(expr) => expr.sql_params(),
        }
    }

    open spec fn alias_names(&self) -> Seq<SourceAliasName> {
        match self {
            Order::Asc(expr) => expr.alias_names(),
            Order::Desc(expr) => expr.alias_names(),
        }
    }

    open spec fn plain_names(&self) -> bool {
        match self {
            Order::Asc(expr) => expr.plain_names(),
            Order::Desc(expr) => expr.plain_names(),
        }
    }

    proof fn lemma_marks(&self, prefixes: Prefixes) {
        reveal_strlit(" ASC");
        reveal_strlit(" DESC");
        lemma_plain_marks(" ASC"@);
        lemma_plain_marks(" DESC"@);
        match self {
            Order::Asc(expr) => {
                expr.lemma_marks(prefixes);
                lemma_marks_concat(
                    expr.sql_text(prefixes),
                    expr.sql_params().len() as int,
                    " ASC"@,
                    0,
                );
            },
            Order::Desc(expr) => {
                expr.lemma_marks(prefixes);
                lemma_marks_concat(
                    expr.sql_text(prefixes),
                    expr.sql_params().len() as int,
                    " DESC"@,
                    0,
                );
            },
        }
    }

    open spec fn infallible(&self) -> bool {
        match self {
            Order::Asc(expr) => expr.infallible(),
            Order::Desc(expr) => expr.infallible(),
        }
    }

    fn note_names(&self, prefixes: &mut AliasPrefixes) {
        match self {
            Order::Asc(expr) => expr.note_names(prefixes),
            Order::Desc(expr) => expr.note_names(prefixes),
        }
    }

    fn build_sql_in(
        &self,
        prefixes: &AliasPrefixes,
        buf: &mut Vec<u8>,
        params: &mut Vec<Value>,
    ) -> (r: Result<(), BuildSqlError>) {
        match self {
            Order::Asc(expr) => {
                expr.build_sql_in(prefixes, buf, params)?;
                write_str(buf, " ASC");
            },
            Order::Desc(expr) => {
                expr.build_sql_in(prefixes, buf, params)?;
                write_str(buf, " DESC");
            },
        }
        proof {
            broadcast use lemma_encode_utf8_concat;

            assert(buf@ =~= old(buf)@ + encode_utf8(self.sql_text(prefixes@)));
        }
        Ok(())
    }
}

} // verus!
