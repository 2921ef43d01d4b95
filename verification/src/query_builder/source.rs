//! Sources of rows: tables, joins of sources, and the handle by which a source
//! attached to a builder is referred to.

use std::marker::PhantomData;
use vstd::prelude::*;
use vstd::string::*;
use vstd::utf8::*;
use super::alias::{
    covered, lemma_covers_both, lemma_extends_covers, lemma_rendered_plain, AliasPrefixes,
    Prefixes, SourceAlias, SourceAliasName,
};
use super::render::{build_after, note_part, renders_like, BuildSql, BuildSqlError, Rendered};
use super::text::{
    lemma_encode_utf8_concat, lemma_marks_concat, lemma_plain_marks, marks, plain, write_str,
};
use super::types::{Expression, Monomial, NonAggregate, NonBool, SqlTypeAny, SqlTypeBool, TypeTag};
use super::value::{Value, ValueView};

verus! {

/// The database of a source that may be joined with a source of any database.
#[derive(Debug, Clone, Copy, Eq, PartialEq, Default, Hash)]
pub struct AnyDatabase;

/// The table of a query that reads no table.
#[derive(Debug, Clone, Copy, Eq, PartialEq, Default, Hash)]
pub struct Dual;

/// A source of database `Self` may be joined with one of database `DB`: two
/// sources of one database, or any source with one of `AnyDatabase`.
pub trait Joinable<DB> {
    /// The database of the join.
    type Database;
}

impl Joinable<AnyDatabase> for AnyDatabase {
    type Database = AnyDatabase;
}

/// A tree of sources as it stands after `FROM`.
pub trait SourceTree {
    /// The aliases of the sources attached in the tree, from left to right.
    spec fn aliases(&self) -> Seq<SourceAlias>;
}

/// What rows can be read from.
pub trait QuerySource: BuildSql + SourceTree + Sized {
    type Database;

    /// The type of this source where its columns may be NULL.
    type NullableSelf: BuildSql + SourceTree;

    /// The same source, typed as one whose columns may be NULL. It renders as
    /// before and attaches the same sources.
    fn nullable(self) -> (r: Self::NullableSelf)
        ensures
            renders_like(r, self),
            r.aliases() == self.aliases(),
    ;
}

/// What can be attached to a builder as a source.
pub trait IntoQuerySource: Sized {
    type Database;

    type QuerySource: QuerySource<Database = Self::Database>;

    /// The source that this stands for.
    spec fn query_source(self) -> Self::QuerySource;

    fn into_query_source(self) -> (r: Self::QuerySource)
        ensures
            r == self.query_source(),
    ;
}

/// A table, by its name, of database `DB`.
#[derive(Debug, Ord, PartialOrd, Eq, PartialEq, Default, Hash)]
pub struct TableName<'a, DB> {
    pub name: &'a str,
    pub db: PhantomData<DB>,
}

impl<'a, DB> TableName<'a, DB> {
    pub fn new(name: &'a str) -> (r: TableName<'a, DB>)
        ensures
            r == (TableName::<'a, DB> { name, db: PhantomData }),
    {
        TableName { name, db: PhantomData }
    }
}

impl<'a, DB> From<&'a str> for TableName<'a, DB> {
    fn from(value: &'a str) -> (r: Self)
        ensures
            r == (TableName::<'a, DB> { name: value, db: PhantomData }),
    {
        TableName::new(value)
    }
}

impl<'a, DB> vstd::std_specs::convert::FromSpecImpl<&'a str> for TableName<'a, DB> {
    open spec fn obeys_from_spec() -> bool {
        true
    }

    open spec fn from_spec(value: &'a str) -> Self {
        TableName { name: value, db: PhantomData }
    }
}

impl<'a, DB> std::ops::Deref for TableName<'a, DB> {
    type Target = str;

    /// The name of the table.
    fn deref(&self) -> (r: &str)
        ensures
            r@ == self.name@,
    {
        self.name
    }
}

impl<'a, DB> Clone for TableName<'a, DB> {
    fn clone(&self) -> (r: Self)
        ensures
            r == *self,
    {
        TableName { name: self.name, db: PhantomData }
    }
}

impl<'a, DB> BuildSql for TableName<'a, DB> {
    open spec fn sql_text(&self, prefixes: Prefixes) -> Seq<char> {
        self.name@
    }

    open spec fn sql_params(&self) -> Seq<ValueView> {
        Seq::empty()
    }

    open spec fn alias_names(&self) -> Seq<SourceAliasName> {
        Seq::empty()
    }

    open spec fn plain_names(&self) -> bool {
        plain(self.name@)
    }

    open spec fn infallible(&self) -> bool {
        true
    }

    proof fn lemma_marks(&self, prefixes: Prefixes) {
        lemma_plain_marks(self.name@);
    }

    fn note_names(&self, prefixes: &mut AliasPrefixes) {
    }

    fn build_sql_in(
        &self,
        prefixes: &AliasPrefixes,
        buf: &mut Vec<u8>,
        params: &mut Vec<Value>,
    ) -> (r: Result<(), BuildSqlError>) {
        write_str(buf, self.name);
        assert(params.deep_view() =~= old(params).deep_view() + self.sql_params());
        Ok(())
    }
}

impl<'a, DB> SourceTree for TableName<'a, DB> {
    /// A table by itself attaches nothing.
    open spec fn aliases(&self) -> Seq<SourceAlias> {
        Seq::empty()
    }
}

impl<'a, DB> QuerySource for TableName<'a, DB> {
    type Database = DB;

    type NullableSelf = Self;

    fn nullable(self) -> (r: Self::NullableSelf)
        ensures
            r == self,
    {
        self
    }
}

impl<'a, DB> IntoQuerySource for TableName<'a, DB> where DB: Clone {
    type Database = DB;

    type QuerySource = Self;

    open spec fn query_source(self) -> Self::QuerySource {
        self
    }

    fn into_query_source(self) -> (r: Self::QuerySource) {
        self
    }
}

impl<'a> IntoQuerySource for &'a str {
    type Database = AnyDatabase;

    type QuerySource = TableName<'a, AnyDatabase>;

    open spec fn query_source(self) -> Self::QuerySource {
        TableName { name: self, db: PhantomData }
    }

    fn into_query_source(self) -> (r: Self::QuerySource) {
        TableName::new(self)
    }
}

/// What names a column.
pub trait AsColumnName {
    /// The characters of the name.
    spec fn column_name(&self) -> Seq<char>;

    fn as_column_name(&self) -> (s: &str)
        ensures
            s@ == self.column_name(),
    ;
}

impl AsColumnName for &str {
    open spec fn column_name(&self) -> Seq<char> {
        self@
    }

    fn as_column_name(&self) -> (s: &str) {
        self
    }
}

impl<T> AsColumnName for &T where T: AsColumnName {
    open spec fn column_name(&self) -> Seq<char> {
        (**self).column_name()
    }

    fn as_column_name(&self) -> (s: &str) {
        (**self).as_column_name()
    }
}

impl<T> AsColumnName for &mut T where T: AsColumnName {
    open spec fn column_name(&self) -> Seq<char> {
        (**self).column_name()
    }

    fn as_column_name(&self) -> (s: &str) {
        (**self).as_column_name()
    }
}

/// A column of a source, with the type `ST` of its values.
#[derive(Debug, Clone)]
pub struct Column<ST = SqlTypeAny> {
    table_name: SourceAlias,
    column_name: String,
    sql_type: ST,
}

impl<ST> Column<ST> {
    /// The alias of the source that the column belongs to.
    pub closed spec fn table(&self) -> SourceAlias {
        self.table_name
    }

    /// The characters of the column's name.
    pub closed spec fn name(&self) -> Seq<char> {
        self.column_name@
    }
}

impl<ST> Column<ST> where ST: Default {
    pub fn new<T>(table_name: SourceAlias, column_name: T) -> (r: Column<ST>) where
        T: AsColumnName + Sized,

        ensures
            r.table() == table_name,
            r.name() == column_name.column_name(),
    {
        Column {
            table_name,
            column_name: String::from_str(column_name.as_column_name()),
            sql_type: Default::default(),
        }
    }
}

impl<ST: TypeTag> Expression for Column<ST> {
    type SqlType = ST;

    type Term = Monomial;

    type BoolOperation = NonBool;

    type Aggregation = NonAggregate;
}

impl<ST> BuildSql for Column<ST> {
    open spec fn sql_text(&self, prefixes: Prefixes) -> Seq<char> {
        self.table().rendered(prefixes) + "."@ + self.name()
    }

    open spec fn sql_params(&self) -> Seq<ValueView> {
        Seq::empty()
    }

    open spec fn alias_names(&self) -> Seq<SourceAliasName> {
        seq![self.table().alias_name()]
    }

    open spec fn plain_names(&self) -> bool {
        plain(self.name())
    }

    open spec fn infallible(&self) -> bool {
        true
    }

    proof fn lemma_marks(&self, prefixes: Prefixes) {
        let t0 = self.table().rendered(prefixes);
        lemma_rendered_plain(prefixes, self.table());
        lemma_plain_marks(self.table().rendered(prefixes));
        let t1 = "."@;
        reveal_strlit(".");
        lemma_plain_marks("."@);
        lemma_marks_concat(t0, 0, t1, 0);
        let a1 = t0 + t1;
        let n1: int = 0int;
        let t2 = self.name();
        lemma_plain_marks(self.name());
        lemma_marks_concat(a1, n1, t2, 0);
    }

    fn note_names(&self, prefixes: &mut AliasPrefixes) {
        self.table_name.note_name(prefixes);
    }

    fn build_sql_in(
        &self,
        prefixes: &AliasPrefixes,
        buf: &mut Vec<u8>,
        params: &mut Vec<Value>,
    ) -> (r: Result<(), BuildSqlError>) {
        let alias = self.table_name.to_string_in(prefixes);
        write_str(buf, alias.as_str());
        write_str(buf, ".");
        write_str(buf, self.column_name.as_str());
        proof {
            broadcast use lemma_encode_utf8_concat;

            assert(buf@ =~= old(buf)@ + encode_utf8(self.sql_text(prefixes@)));
            assert(params.deep_view() =~= old(params).deep_view() + self.sql_params());
        }
        Ok(())
    }
}

/// A source attached to a builder, with its alias: the handle from which the
/// columns of the source are made.
#[derive(Debug)]
pub struct QuerySourceRef<QS> {
    source: QS,
    alias: SourceAlias,
}

impl<QS> QuerySourceRef<QS> {
    /// The source.
    pub closed spec fn source(&self) -> QS {
        self.source
    }

    /// The alias of the source.
    pub closed spec fn source_alias(&self) -> SourceAlias {
        self.alias
    }

    pub fn new(source: QS, alias: SourceAlias) -> (r: QuerySourceRef<QS>)
        ensures
            r.source() == source,
            r.source_alias() == alias,
    {
        QuerySourceRef { source, alias }
    }

    /// The source.
    pub fn inner_ref(&self) -> (r: &QS)
        ensures
            *r == self.source(),
    {
        &self.source
    }
}

impl<QS> QuerySourceRef<QS> where QS: QuerySource {
    /// A column of the source, of a type not known before the query runs.
    pub fn column<T>(&self, column_name: T) -> (r: Column) where T: AsColumnName + Sized
        ensures
            r.table() == self.source_alias(),
            r.name() == column_name.column_name(),
    {
        Column::new(self.alias.clone(), column_name)
    }

    /// A column of the source whose values have the type `T`.
    pub fn typed_column<T: Default>(&self, column_name: impl AsColumnName + Sized) -> (r: Column<T>)
        ensures
            r.table() == self.source_alias(),
            r.name() == column_name.column_name(),
    {
        Column::new(self.alias.clone(), column_name)
    }

    /// The alias with the prefix that the name of the source's builder has
    /// now.
    pub fn alias(&self) -> (s: String)
        ensures
            exists|prefixes: Prefixes|
                covered(prefixes, self.source_alias().alias_name()) && s@
                    == #[trigger] self.source_alias().rendered(prefixes),
    {
        let s = self.alias.to_string();
        proof {
            let read = choose|prefixes: Prefixes|
                covered(prefixes, self.alias.alias_name()) && s@ == #[trigger] self.alias.rendered(
                    prefixes,
                );
            assert(s@ == self.source_alias().rendered(read));
        }
        s
    }
}

impl<QS> std::ops::Deref for QuerySourceRef<QS> {
    type Target = QS;

    /// The source.
    fn deref(&self) -> (r: &QS)
        ensures
            *r == self.source(),
    {
        &self.source
    }
}

impl<QS: Clone> Clone for QuerySourceRef<QS> {
    fn clone(&self) -> (r: Self)
        ensures
            cloned(self.source(), r.source()),
            r.source_alias() == self.source_alias(),
    {
        QuerySourceRef { source: self.source.clone(), alias: self.alias.clone() }
    }
}

impl<QS> BuildSql for QuerySourceRef<QS> where QS: BuildSql {
    open spec fn sql_text(&self, prefixes: Prefixes) -> Seq<char> {
        self.source().sql_text(prefixes) + " as "@ + self.source_alias().rendered(prefixes)
    }

    open spec fn sql_params(&self) -> Seq<ValueView> {
        self.source().sql_params()
    }

    open spec fn alias_names(&self) -> Seq<SourceAliasName> {
        self.source().alias_names() + seq![self.source_alias().alias_name()]
    }

    open spec fn plain_names(&self) -> bool {
        self.source().plain_names()
    }

    open spec fn infallible(&self) -> bool {
        self.source().infallible()
    }

    proof fn lemma_marks(&self, prefixes: Prefixes) {
        let t0 = self.source().sql_text(prefixes);
        self.source().lemma_marks(prefixes);
        let t1 = " as "@;
        reveal_strlit(" as ");
        lemma_plain_marks(" as "@);
        lemma_marks_concat(t0, self.source().sql_params().len() as int, t1, 0);
        let a1 = t0 + t1;
        let n1: int = self.source().sql_params().len() as int + 0;
        let t2 = self.source_alias().rendered(prefixes);
        lemma_rendered_plain(prefixes, self.source_alias());
        lemma_plain_marks(self.source_alias().rendered(prefixes));
        lemma_marks_concat(a1, n1, t2, 0);
    }

    fn note_names(&self, prefixes: &mut AliasPrefixes) {
        self.source.note_names(prefixes);
        let ghost noted = prefixes@;
        self.alias.note_name(prefixes);
        proof {
            lemma_extends_covers(noted, prefixes@, self.source().alias_names());
            lemma_covers_both(
                prefixes@,
                self.source().alias_names(),
                seq![self.source_alias().alias_name()],
            );
        }
    }

    fn build_sql_in(
        &self,
        prefixes: &AliasPrefixes,
        buf: &mut Vec<u8>,
        params: &mut Vec<Value>,
    ) -> (r: Result<(), BuildSqlError>) {
        self.source.build_sql_in(prefixes, buf, params)?;
        write_str(buf, " as ");
        let alias = self.alias.to_string_in(prefixes);
        write_str(buf, alias.as_str());
        proof {
            broadcast use lemma_encode_utf8_concat;

            assert(buf@ =~= old(buf)@ + encode_utf8(self.sql_text(prefixes@)));
        }
        Ok(())
    }
}

impl<QS> SourceTree for QuerySourceRef<QS> {
    /// An attached source, under its alias.
    open spec fn aliases(&self) -> Seq<SourceAlias> {
        seq![self.source_alias()]
    }
}

impl<QS> QuerySource for QuerySourceRef<QS> where QS: QuerySource {
    type Database = QS::Database;

    type NullableSelf = QuerySourceRef<QS::NullableSelf>;

    fn nullable(self) -> (r: Self::NullableSelf)
        ensures
            r.source_alias() == self.source_alias(),
            renders_like(r.source(), self.source()),
    {
        QuerySourceRef { source: self.source.nullable(), alias: self.alias }
    }
}

/// The condition of a join that has none.
#[derive(Debug, Clone, Copy, Eq, PartialEq, Default, Hash)]
pub struct BlankBoolExpression;

impl Expression for BlankBoolExpression {
    type SqlType = SqlTypeBool;

    type Term = Monomial;

    type BoolOperation = ();

    type Aggregation = NonAggregate;
}

impl BuildSql for BlankBoolExpression {
    open spec fn sql_text(&self, prefixes: Prefixes) -> Seq<char> {
        Seq::empty()
    }

    open spec fn sql_params(&self) -> Seq<ValueView> {
        Seq::empty()
    }

    open spec fn alias_names(&self) -> Seq<SourceAliasName> {
        Seq::empty()
    }

    open spec fn plain_names(&self) -> bool {
        true
    }

    open spec fn infallible(&self) -> bool {
        true
    }

    proof fn lemma_marks(&self, prefixes: Prefixes) {
        lemma_plain_marks(Seq::<char>::empty());
    }

    fn note_names(&self, prefixes: &mut AliasPrefixes) {
    }

    fn build_sql_in(
        &self,
        prefixes: &AliasPrefixes,
        buf: &mut Vec<u8>,
        params: &mut Vec<Value>,
    ) -> (r: Result<(), BuildSqlError>) {
        assert(buf@ =~= old(buf)@ + encode_utf8(self.sql_text(prefixes@)));
        assert(params.deep_view() =~= old(params).deep_view() + self.sql_params());
        Ok(())
    }
}

/// Two sources joined: the left one, the right one and, but for a cross join,
/// the condition.
#[derive(Debug, Clone)]
pub enum Join<L, R, ON> {
    Inner(L, R, ON),
    LeftOuter(L, R, ON),
    RightOuter(L, R, ON),
    Cross(L, R),
}

/// A join has the placeholders of its two sides and of its condition, and
/// no `;`, where they and the keyword have none.
pub proof fn lemma_join_marks(
    left: Seq<char>,
    n: int,
    keyword: Seq<char>,
    right: Seq<char>,
    m: int,
    on: Seq<char>,
    k: int,
)
    requires
        marks(left, n),
        plain(keyword),
        marks(right, m),
        marks(on, k),
    ensures
        marks(left + keyword + right, n + m),
        marks(join_text(left, keyword, right, on), n + m + k),
{
    reveal_strlit(" ON ");
    lemma_plain_marks(keyword);
    lemma_plain_marks(" ON "@);
    lemma_marks_concat(left, n, keyword, 0);
    lemma_marks_concat(left + keyword, n, right, m);
    lemma_marks_concat(left + keyword + right, n + m, " ON "@, 0);
    lemma_marks_concat(left + keyword + right + " ON "@, n + m, on, k);
}

/// The text of a join with a condition.
pub open spec fn join_text(
    left: Seq<char>,
    keyword: Seq<char>,
    right: Seq<char>,
    on: Seq<char>,
) -> Seq<char> {
    left + keyword + right + " ON "@ + on
}

impl<L, R, E> BuildSql for Join<L, R, E> where
    L: BuildSql,
    R: BuildSql,
    E: Expression<SqlType = SqlTypeBool> + BuildSql,
 {
    open spec fn sql_text(&self, prefixes: Prefixes) -> Seq<char> {
        match self {
            Join::Inner(l, r, on) => join_text(
                l.sql_text(prefixes),
                " JOIN "@,
                r.sql_text(prefixes),
                on.sql_text(prefixes),
            ),
            Join::LeftOuter(l, r, on) => join_text(
                l.sql_text(prefixes),
                " LEFT OUTER JOIN "@,
                r.sql_text(prefixes),
                on.sql_text(prefixes),
            ),
            Join::RightOuter(l, r, on) => join_text(
                l.sql_text(prefixes),
                " RIGHT OUTER JOIN "@,
                r.sql_text(prefixes),
                on.sql_text(prefixes),
            ),
            Join::Cross(l, r) => l.sql_text(prefixes) + " CROSS JOIN "@ + r.sql_text(prefixes),
        }
    }

    open spec fn sql_params(&self) -> Seq<ValueView> {
        match self {
            Join::Inner(l, r, on) => l.sql_params() + r.sql_params() + on.sql_params(),
            Join::LeftOuter(l, r, on) => l.sql_params() + r.sql_params() + on.sql_params(),
            Join::RightOuter(l, r, on) => l.sql_params() + r.sql_params() + on.sql_params(),
            Join::Cross(l, r) => l.sql_params() + r.sql_params(),
        }
    }

    open spec fn alias_names(&self) -> Seq<SourceAliasName> {
        match self {
            Join::Inner(l, r, on) => l.alias_names() + r.alias_names() + on.alias_names(),
            Join::LeftOuter(l, r, on) => l.alias_names() + r.alias_names() + on.alias_names(),
            Join::RightOuter(l, r, on) => l.alias_names() + r.alias_names() + on.alias_names(),
            Join::Cross(l, r) => l.alias_names() + r.alias_names(),
        }
    }

    open spec fn plain_names(&self) -> bool {
        match self {
            Join::Inner(l, r, on) => l.plain_names() && r.plain_names() && on.plain_names(),
            Join::LeftOuter(l, r, on) => l.plain_names() && r.plain_names() && on.plain_names(),
            Join::RightOuter(l, r, on) => l.plain_names() && r.plain_names() && on.plain_names(),
            Join::Cross(l, r) => l.plain_names() && r.plain_names(),
        }
    }

    proof fn lemma_marks(&self, prefixes: Prefixes) {
        reveal_strlit(" JOIN ");
        reveal_strlit(" LEFT OUTER JOIN ");
        reveal_strlit(" RIGHT OUTER JOIN ");
        reveal_strlit(" CROSS JOIN ");
        let keyword = match self {
            Join::Inner(_, _, _) => " JOIN "@,
            Join::LeftOuter(_, _, _) => " LEFT OUTER JOIN "@,
            Join::RightOuter(_, _, _) => " RIGHT OUTER JOIN "@,
            Join::Cross(_, _) => " CROSS JOIN "@,
        };
        match self {
            Join::Inner(l, r, on) | Join::LeftOuter(l, r, on) | Join::RightOuter(l, r, on) => {
                l.lemma_marks(prefixes);
                r.lemma_marks(prefixes);
                on.lemma_marks(prefixes);
                lemma_join_marks(
                    l.sql_text(prefixes),
                    l.sql_params().len() as int,
                    keyword,
                    r.sql_text(prefixes),
                    r.sql_params().len() as int,
                    on.sql_text(prefixes),
                    on.sql_params().len() as int,
                );
            },
            Join::Cross(l, r) => {
                l.lemma_marks(prefixes);
                r.lemma_marks(prefixes);
                lemma_plain_marks(Seq::<char>::empty());
                lemma_join_marks(
                    l.sql_text(prefixes),
                    l.sql_params().len() as int,
                    keyword,
                    r.sql_text(prefixes),
                    r.sql_params().len() as int,
                    Seq::empty(),
                    0,
                );
            },
        }
    }

    open spec fn infallible(&self) -> bool {
        match self {
            Join::Inner(l, r, on) => l.infallible() && r.infallible() && on.infallible(),
            Join::LeftOuter(l, r, on) => l.infallible() && r.infallible() && on.infallible(),
            Join::RightOuter(l, r, on) => l.infallible() && r.infallible() && on.infallible(),
            Join::Cross(l, r) => l.infallible() && r.infallible(),
        }
    }

    fn note_names(&self, prefixes: &mut AliasPrefixes) {
        let ghost start = prefixes@;
        match self {
            Join::Inner(l, r, on) => {
                l.note_names(prefixes);
                note_part(r, prefixes, Ghost(start), Ghost(l.alias_names()));
                note_part(on, prefixes, Ghost(start), Ghost(l.alias_names() + r.alias_names()));
            },
            Join::LeftOuter(l, r, on) => {
                l.note_names(prefixes);
                note_part(r, prefixes, Ghost(start), Ghost(l.alias_names()));
                note_part(on, prefixes, Ghost(start), Ghost(l.alias_names() + r.alias_names()));
            },
            Join::RightOuter(l, r, on) => {
                l.note_names(prefixes);
                note_part(r, prefixes, Ghost(start), Ghost(l.alias_names()));
                note_part(on, prefixes, Ghost(start), Ghost(l.alias_names() + r.alias_names()));
            },
            Join::Cross(l, r) => {
                l.note_names(prefixes);
                note_part(r, prefixes, Ghost(start), Ghost(l.alias_names()));
            },
        }
    }

    fn build_sql_in(
        &self,
        prefixes: &AliasPrefixes,
        buf: &mut Vec<u8>,
        params: &mut Vec<Value>,
    ) -> (r: Result<(), BuildSqlError>) {
        match self {
            Join::Inner(l, r, on) => {
                build_joined(l, " JOIN ", r, prefixes, buf, params)?;
                build_after(
                    " ON ",
                    on,
                    prefixes,
                    buf,
                    params,
                    Ghost(
                        Rendered {
                            base: old(buf)@,
                            text: l.sql_text(prefixes@) + " JOIN "@ + r.sql_text(prefixes@),
                            bound: old(params).deep_view(),
                            values: l.sql_params() + r.sql_params(),
                        },
                    ),
                )
            },
            Join::LeftOuter(l, r, on) => {
                build_joined(l, " LEFT OUTER JOIN ", r, prefixes, buf, params)?;
                build_after(
                    " ON ",
                    on,
                    prefixes,
                    buf,
                    params,
                    Ghost(
                        Rendered {
                            base: old(buf)@,
                            text: l.sql_text(prefixes@) + " LEFT OUTER JOIN "@ + r.sql_text(prefixes@),
                            bound: old(params).deep_view(),
                            values: l.sql_params() + r.sql_params(),
                        },
                    ),
                )
            },
            Join::RightOuter(l, r, on) => {
                build_joined(l, " RIGHT OUTER JOIN ", r, prefixes, buf, params)?;
                build_after(
                    " ON ",
                    on,
                    prefixes,
                    buf,
                    params,
                    Ghost(
                        Rendered {
                            base: old(buf)@,
                            text: l.sql_text(prefixes@) + " RIGHT OUTER JOIN "@ + r.sql_text(prefixes@),
                            bound: old(params).deep_view(),
                            values: l.sql_params() + r.sql_params(),
                        },
                    ),
                )
            },
            Join::Cross(l, r) => build_joined(l, " CROSS JOIN ", r, prefixes, buf, params),
        }
    }
}

/// Renders two sources with the keyword of their join between them.
fn build_joined<L: BuildSql, R: BuildSql>(
    left: &L,
    keyword: &str,
    right: &R,
    prefixes: &AliasPrefixes,
    buf: &mut Vec<u8>,
    params: &mut Vec<Value>,
) -> (r: Result<(), BuildSqlError>)
    ensures
        left.infallible() && right.infallible() ==> r is Ok,
        r is Ok ==> final(buf)@ == old(buf)@ + encode_utf8(
            left.sql_text(prefixes@) + keyword@ + right.sql_text(prefixes@),
        ),
        r is Ok ==> final(params).deep_view() == old(params).deep_view() + (left.sql_params()
            + right.sql_params()),
{
    left.build_sql_in(prefixes, buf, params)?;
    write_str(buf, keyword);
    right.build_sql_in(prefixes, buf, params)?;
    proof {
        broadcast use lemma_encode_utf8_concat;

        assert(buf@ =~= old(buf)@ + encode_utf8(
            left.sql_text(prefixes@) + keyword@ + right.sql_text(prefixes@),
        ));
        assert(params.deep_view() =~= old(params).deep_view() + (left.sql_params()
            + right.sql_params()));
    }
    Ok(())
}

impl<L, R, E> SourceTree for Join<L, R, E> where L: SourceTree, R: SourceTree {
    /// The sources of the left side, then those of the right side.
    open spec fn aliases(&self) -> Seq<SourceAlias> {
        match self {
            Join::Inner(l, r, _) => l.aliases() + r.aliases(),
            Join::LeftOuter(l, r, _) => l.aliases() + r.aliases(),
            Join::RightOuter(l, r, _) => l.aliases() + r.aliases(),
            Join::Cross(l, r) => l.aliases() + r.aliases(),
        }
    }
}

impl<L, R, E> QuerySource for Join<L, R, E> where
    L: QuerySource,
    R: QuerySource,
    L::Database: Joinable<R::Database>,
    E: Expression<SqlType = SqlTypeBool> + BuildSql + Clone,
 {
    type Database = <L::Database as Joinable<R::Database>>::Database;

    type NullableSelf = Join<L::NullableSelf, R::NullableSelf, E>;

    /// The same kind of join of the nullable forms of the two sides, on the
    /// same condition.
    fn nullable(self) -> (r: Self::NullableSelf)
        ensures
            match (self, r) {
                (Join::Inner(l, r, on), Join::Inner(nl, nr, non)) => renders_like(nl, l)
                    && renders_like(nr, r) && non == on,
                (Join::LeftOuter(l, r, on), Join::LeftOuter(nl, nr, non)) => renders_like(nl, l)
                    && renders_like(nr, r) && non == on,
                (Join::RightOuter(l, r, on), Join::RightOuter(nl, nr, non)) => renders_like(
                    nl,
                    l,
                ) && renders_like(nr, r) && non == on,
                (Join::Cross(l, r), Join::Cross(nl, nr)) => renders_like(nl, l) && renders_like(
                    nr,
                    r,
                ),
                _ => false,
            },
    {
        match self {
            Join::Inner(l, r, on) => Join::Inner(l.nullable(), r.nullable(), on),
            Join::LeftOuter(l, r, on) => Join::LeftOuter(l.nullable(), r.nullable(), on),
            Join::RightOuter(l, r, on) => Join::RightOuter(l.nullable(), r.nullable(), on),
            Join::Cross(l, r) => Join::Cross(l.nullable(), r.nullable()),
        }
    }
}

} // verus!
