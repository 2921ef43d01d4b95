//! The clauses of a `SELECT` statement after the selected columns, each either
//! absent or holding its content, and the lock modes.

use vstd::prelude::*;
use vstd::utf8::*;
use super::alias::{AliasPrefixes, Prefixes, SourceAliasName};
use super::render::{BuildSql, BuildSqlError};
use super::text::{lemma_encode_utf8_concat, lemma_marks_concat, lemma_plain_marks, write_str};
use super::value::{Value, ValueView};

verus! {

/// The absent `FROM` clause. It renders as nothing.
#[derive(Debug, Clone, Copy, Default)]
pub struct EmptyFromClause;

/// The `FROM` clause.
#[derive(Debug, Clone)]
pub struct FromClause<T>(T);

impl EmptyFromClause {
    pub fn new() -> Self {
        EmptyFromClause
    }
}

impl<T> FromClause<T> {
    /// What the clause holds.
    pub closed spec fn inner(&self) -> T {
        self.0
    }

    pub fn new(source: T) -> (r: Self)
        ensures
            r.inner() == source,
    {
        FromClause(source)
    }

    pub fn unwrap(self) -> (r: T)
        ensures
            r == self.inner(),
    {
        self.0
    }

    pub fn inner_ref(&self) -> (r: &T)
        ensures
            *r == self.inner(),
    {
        &self.0
    }
}

impl BuildSql for EmptyFromClause {
    open spec fn sql_text(&self, prefixes: Prefixes) -> Seq<char> {
        Seq::empty()
    }

    open spec fn sql_params(&self) -> Seq<ValueView> {
        Seq::empty()
    }

    open spec fn alias_names(&self) -> Seq<SourceAliasName> {
        Seq::empty()
    }

    open spec fn plain_names(&self) -> bool {
        true
    }

    open spec fn infallible(&self) -> bool {
        true
    }

    proof fn lemma_marks(&self, prefixes: Prefixes) {
        lemma_plain_marks(Seq::<char>::empty());
    }

    fn note_names(&self, prefixes: &mut AliasPrefixes) {
    }

    fn build_sql_in(
        &self,
        prefixes: &AliasPrefixes,
        buf: &mut Vec<u8>,
        params: &mut Vec<Value>,
    ) -> (r: Result<(), BuildSqlError>) {
        assert(buf@ =~= old(buf)@ + encode_utf8(self.sql_text(prefixes@)));
        assert(params.deep_view() =~= old(params).deep_view() + self.sql_params());
        Ok(())
    }
}

impl<T> BuildSql for FromClause<T> where T: BuildSql {
    open spec fn sql_text(&self, prefixes: Prefixes) -> Seq<char> {
        " FROM "@ + self.inner().sql_text(prefixes)
    }

    open spec fn sql_params(&self) -> Seq<ValueView> {
        self.inner().sql_params()
    }

    open spec fn alias_names(&self) -> Seq<SourceAliasName> {
        self.inner().alias_names()
    }

    open spec fn plain_names(&self) -> bool {
        self.inner().plain_names()
    }

    open spec fn infallible(&self) -> bool {
        self.inner().infallible()
    }

    proof fn lemma_marks(&self, prefixes: Prefixes) {
        let t0 = " FROM "@;
        reveal_strlit(" FROM ");
        lemma_plain_marks(" FROM "@);
        let t1 = self.inner().sql_text(prefixes);
        self.inner().lemma_marks(prefixes);
        lemma_marks_concat(t0, 0, t1, self.inner().sql_params().len() as int);
    }

    fn note_names(&self, prefixes: &mut AliasPrefixes) {
        self.0.note_names(prefixes);
    }

    fn build_sql_in(
        &self,
        prefixes: &AliasPrefixes,
        buf: &mut Vec<u8>,
        params: &mut Vec<Value>,
    ) -> (r: Result<(), BuildSqlError>) {
        write_str(buf, " FROM ");
        self.0.build_sql_in(prefixes, buf, params)?;
        proof {
            broadcast use lemma_encode_utf8_concat;

            assert(buf@ =~= old(buf)@ + encode_utf8(self.sql_text(prefixes@)));
        }
        Ok(())
    }
}

/// The absent `WHERE` clause. It renders as nothing.
#[derive(Debug, Clone, Copy, Default)]
pub struct EmptyWhereClause;

/// The `WHERE` clause.
#[derive(Debug, Clone)]
pub struct WhereClause<T>(T);

impl EmptyWhereClause {
    pub fn new() -> Self {
        EmptyWhereClause
    }
}

impl<T> WhereClause<T> {
    /// What the clause holds.
    pub closed spec fn inner(&self) -> T {
        self.0
    }

    pub fn new(filter: T) -> (r: Self)
        ensures
            r.inner() == filter,
    {
        WhereClause(filter)
    }

    pub fn unwrap(self) -> (r: T)
        ensures
            r == self.inner(),
    {
        self.0
    }

    pub fn inner_ref(&self) -> (r: &T)
        ensures
            *r == self.inner(),
    {
        &self.0
    }
}

impl BuildSql for EmptyWhereClause {
    open spec fn sql_text(&self, prefixes: Prefixes) -> Seq<char> {
        Seq::empty()
    }

    open spec fn sql_params(&self) -> Seq<ValueView> {
        Seq::empty()
    }

    open spec fn alias_names(&self) -> Seq<SourceAliasName> {
        Seq::empty()
    }

    open spec fn plain_names(&self) -> bool {
        true
    }

    open spec fn infallible(&self) -> bool {
        true
    }

    proof fn lemma_marks(&self, prefixes: Prefixes) {
        lemma_plain_marks(Seq::<char>::empty());
    }

    fn note_names(&self, prefixes: &mut AliasPrefixes) {
    }

    fn build_sql_in(
        &self,
        prefixes: &AliasPrefixes,
        buf: &mut Vec<u8>,
        params: &mut Vec<Value>,
    ) -> (r: Result<(), BuildSqlError>) {
        assert(buf@ =~= old(buf)@ + encode_utf8(self.sql_text(prefixes@)));
        assert(params.deep_view() =~= old(params).deep_view() + self.sql_params());
        Ok(())
    }
}

impl<T> BuildSql for WhereClause<T> where T: BuildSql {
    open spec fn sql_text(&self, prefixes: Prefixes) -> Seq<char> {
        " WHERE "@ + self.inner().sql_text(prefixes)
    }

    open spec fn sql_params(&self) -> Seq<ValueView> {
        self.inner().sql_params()
    }

    open spec fn alias_names(&self) -> Seq<SourceAliasName> {
        self.inner().alias_names()
    }

    open spec fn plain_names(&self) -> bool {
        self.inner().plain_names()
    }

    open spec fn infallible(&self) -> bool {
        self.inner().infallible()
    }

    proof fn lemma_marks(&self, prefixes: Prefixes) {
        let t0 = " WHERE "@;
        reveal_strlit(" WHERE ");
        lemma_plain_marks(" WHERE "@);
        let t1 = self.inner().sql_text(prefixes);
        self.inner().lemma_marks(prefixes);
        lemma_marks_concat(t0, 0, t1, self.inner().sql_params().len() as int);
    }

    fn note_names(&self, prefixes: &mut AliasPrefixes) {
        self.0.note_names(prefixes);
    }

    fn build_sql_in(
        &self,
        prefixes: &AliasPrefixes,
        buf: &mut Vec<u8>,
        params: &mut Vec<Value>,
    ) -> (r: Result<(), BuildSqlError>) {
        write_str(buf, " WHERE ");
        self.0.build_sql_in(prefixes, buf, params)?;
        proof {
            broadcast use lemma_encode_utf8_concat;

            assert(buf@ =~= old(buf)@ + encode_utf8(self.sql_text(prefixes@)));
        }
        Ok(())
    }
}

/// The absent `GROUP BY` clause. It renders as nothing.
#[derive(Debug, Clone, Copy, Default)]
pub struct EmptyGroupByClause;

/// The `GROUP BY` clause.
#[derive(Debug, Clone)]
pub struct GroupByClause<T>(T);

impl EmptyGroupByClause {
    pub fn new() -> Self {
        EmptyGroupByClause
    }
}

impl<T> GroupByClause<T> {
    /// What the clause holds.
    pub closed spec fn inner(&self) -> T {
        self.0
    }

    pub fn new(columns: T) -> (r: Self)
        ensures
            r.inner() == columns,
    {
        GroupByClause(columns)
    }

    pub fn unwrap(self) -> (r: T)
        ensures
            r == self.inner(),
    {
        self.0
    }

    pub fn inner_ref(&self) -> (r: &T)
        ensures
            *r == self.inner(),
    {
        &self.0
    }
}

impl BuildSql for EmptyGroupByClause {
    open spec fn sql_text(&self, prefixes: Prefixes) -> Seq<char> {
        Seq::empty()
    }

    open spec fn sql_params(&self) -> Seq<ValueView> {
        Seq::empty()
    }

    open spec fn alias_names(&self) -> Seq<SourceAliasName> {
        Seq::empty()
    }

    open spec fn plain_names(&self) -> bool {
        true
    }

    open spec fn infallible(&self) -> bool {
        true
    }

    proof fn lemma_marks(&self, prefixes: Prefixes) {
        lemma_plain_marks(Seq::<char>::empty());
    }

    fn note_names(&self, prefixes: &mut AliasPrefixes) {
    }

    fn build_sql_in(
        &self,
        prefixes: &AliasPrefixes,
        buf: &mut Vec<u8>,
        params: &mut Vec<Value>,
    ) -> (r: Result<(), BuildSqlError>) {
        assert(buf@ =~= old(buf)@ + encode_utf8(self.sql_text(prefixes@)));
        assert(params.deep_view() =~= old(params).deep_view() + self.sql_params());
        Ok(())
    }
}

impl<T> BuildSql for GroupByClause<T> where T: BuildSql {
    open spec fn sql_text(&self, prefixes: Prefixes) -> Seq<char> {
        " GROUP BY "@ + self.inner().sql_text(prefixes)
    }

    open spec fn sql_params(&self) -> Seq<ValueView> {
        self.inner().sql_params()
    }

    open spec fn alias_names(&self) -> Seq<SourceAliasName> {
        self.inner().alias_names()
    }

    open spec fn plain_names(&self) -> bool {
        self.inner().plain_names()
    }

    open spec fn infallible(&self) -> bool {
        self.inner().infallible()
    }

    proof fn lemma_marks(&self, prefixes: Prefixes) {
        let t0 = " GROUP BY "@;
        reveal_strlit(" GROUP BY ");
        lemma_plain_marks(" GROUP BY "@);
        let t1 = self.inner().sql_text(prefixes);
        self.inner().lemma_marks(prefixes);
        lemma_marks_concat(t0, 0, t1, self.inner().sql_params().len() as int);
    }

    fn note_names(&self, prefixes: &mut AliasPrefixes) {
        self.0.note_names(prefixes);
    }

    fn build_sql_in(
        &self,
        prefixes: &AliasPrefixes,
        buf: &mut Vec<u8>,
        params: &mut Vec<Value>,
    ) -> (r: Result<(), BuildSqlError>) {
        write_str(buf, " GROUP BY ");
        self.0.build_sql_in(prefixes, buf, params)?;
        proof {
            broadcast use lemma_encode_utf8_concat;

            assert(buf@ =~= old(buf)@ + encode_utf8(self.sql_text(prefixes@)));
        }
        Ok(())
    }
}

/// The absent `HAVING` clause. It renders as nothing.
#[derive(Debug, Clone, Copy, Default)]
pub struct EmptyHavingClause;

/// The `HAVING` clause.
#[derive(Debug, Clone)]
pub struct HavingClause<T>(T);

impl EmptyHavingClause {
    pub fn new() -> Self {
        EmptyHavingClause
    }
}

impl<T> HavingClause<T> {
    /// What the clause holds.
    pub closed spec fn inner(&self) -> T {
        self.0
    }

    pub fn new(filter: T) -> (r: Self)
        ensures
            r.inner() == filter,
    {
        HavingClause(filter)
    }

    pub fn unwrap(self) -> (r: T)
        ensures
            r == self.inner(),
    {
        self.0
    }

    pub fn inner_ref(&self) -> (r: &T)
        ensures
            *r == self.inner(),
    {
        &self.0
    }
}

impl BuildSql for EmptyHavingClause {
    open spec fn sql_text(&self, prefixes: Prefixes) -> Seq<char> {
        Seq::empty()
    }

    open spec fn sql_params(&self) -> Seq<ValueView> {
        Seq::empty()
    }

    open spec fn alias_names(&self) -> Seq<SourceAliasName> {
        Seq::empty()
    }

    open spec fn plain_names(&self) -> bool {
        true
    }

    open spec fn infallible(&self) -> bool {
        true
    }

    proof fn lemma_marks(&self, prefixes: Prefixes) {
        lemma_plain_marks(Seq::<char>::empty());
    }

    fn note_names(&self, prefixes: &mut AliasPrefixes) {
    }

    fn build_sql_in(
        &self,
        prefixes: &AliasPrefixes,
        buf: &mut Vec<u8>,
        params: &mut Vec<Value>,
    ) -> (r: Result<(), BuildSqlError>) {
        assert(buf@ =~= old(buf)@ + encode_utf8(self.sql_text(prefixes@)));
        assert(params.deep_view() =~= old(params).deep_view() + self.sql_params());
        Ok(())
    }
}

impl<T> BuildSql for HavingClause<T> where T: BuildSql {
    open spec fn sql_text(&self, prefixes: Prefixes) -> Seq<char> {
        " HAVING "@ + self.inner().sql_text(prefixes)
    }

    open spec fn sql_params(&self) -> Seq<ValueView> {
        self.inner().sql_params()
    }

    open spec fn alias_names(&self) -> Seq<SourceAliasName> {
        self.inner().alias_names()
    }

    open spec fn plain_names(&self) -> bool {
        self.inner().plain_names()
    }

    open spec fn infallible(&self) -> bool {
        self.inner().infallible()
    }

    proof fn lemma_marks(&self, prefixes: Prefixes) {
        let t0 = " HAVING "@;
        reveal_strlit(" HAVING ");
        lemma_plain_marks(" HAVING "@);
        let t1 = self.inner().sql_text(prefixes);
        self.inner().lemma_marks(prefixes);
        lemma_marks_concat(t0, 0, t1, self.inner().sql_params().len() as int);
    }

    fn note_names(&self, prefixes: &mut AliasPrefixes) {
        self.0.note_names(prefixes);
    }

    fn build_sql_in(
        &self,
        prefixes: &AliasPrefixes,
        buf: &mut Vec<u8>,
        params: &mut Vec<Value>,
    ) -> (r: Result<(), BuildSqlError>) {
        write_str(buf, " HAVING ");
        self.0.build_sql_in(prefixes, buf, params)?;
        proof {
            broadcast use lemma_encode_utf8_concat;

            assert(buf@ =~= old(buf)@ + encode_utf8(self.sql_text(prefixes@)));
        }
        Ok(())
    }
}

/// The absent `ORDER BY` clause. It renders as nothing.
#[derive(Debug, Clone, Copy, Default)]
pub struct EmptyOrderByClause;

/// The `ORDER BY` clause.
#[derive(Debug, Clone)]
pub struct OrderByClause<T>(T);

impl EmptyOrderByClause {
    pub fn new() -> Self {
        EmptyOrderByClause
    }
}

impl<T> OrderByClause<T> {
    /// What the clause holds.
    pub closed spec fn inner(&self) -> T {
        self.0
    }

    pub fn new(order: T) -> (r: Self)
        ensures
            r.inner() == order,
    {
        OrderByClause(order)
    }

    pub fn unwrap(self) -> (r: T)
        ensures
            r == self.inner(),
    {
        self.0
    }

    pub fn inner_ref(&self) -> (r: &T)
        ensures
            *r == self.inner(),
    {
        &self.0
    }
}

impl BuildSql for EmptyOrderByClause {
    open spec fn sql_text(&self, prefixes: Prefixes) -> Seq<char> {
        Seq::empty()
    }

    open spec fn sql_params(&self) -> Seq<ValueView> {
        Seq::empty()
    }

    open spec fn alias_names(&self) -> Seq<SourceAliasName> {
        Seq::empty()
    }

    open spec fn plain_names(&self) -> bool {
        true
    }

    open spec fn infallible(&self) -> bool {
        true
    }

    proof fn lemma_marks(&self, prefixes: Prefixes) {
        lemma_plain_marks(Seq::<char>::empty());
    }

    fn note_names(&self, prefixes: &mut AliasPrefixes) {
    }

    fn build_sql_in(
        &self,
        prefixes: &AliasPrefixes,
        buf: &mut Vec<u8>,
        params: &mut Vec<Value>,
    ) -> (r: Result<(), BuildSqlError>) {
        assert(buf@ =~= old(buf)@ + encode_utf8(self.sql_text(prefixes@)));
        assert(params.deep_view() =~= old(params).deep_view() + self.sql_params());
        Ok(())
    }
}

impl<T> BuildSql for OrderByClause<T> where T: BuildSql {
    open spec fn sql_text(&self, prefixes: Prefixes) -> Seq<char> {
        " ORDER BY "@ + self.inner().sql_text(prefixes)
    }

    open spec fn sql_params(&self) -> Seq<ValueView> {
        self.inner().sql_params()
    }

    open spec fn alias_names(&self) -> Seq<SourceAliasName> {
        self.inner().alias_names()
    }

    open spec fn plain_names(&self) -> bool {
        self.inner().plain_names()
    }

    open spec fn infallible(&self) -> bool {
        self.inner().infallible()
    }

    proof fn lemma_marks(&self, prefixes: Prefixes) {
        let t0 = " ORDER BY "@;
        reveal_strlit(" ORDER BY ");
        lemma_plain_marks(" ORDER BY "@);
        let t1 = self.inner().sql_text(prefixes);
        self.inner().lemma_marks(prefixes);
        lemma_marks_concat(t0, 0, t1, self.inner().sql_params().len() as int);
    }

    fn note_names(&self, prefixes: &mut AliasPrefixes) {
        self.0.note_names(prefixes);
    }

    fn build_sql_in(
        &self,
        prefixes: &AliasPrefixes,
        buf: &mut Vec<u8>,
        params: &mut Vec<Value>,
    ) -> (r: Result<(), BuildSqlError>) {
        write_str(buf, " ORDER BY ");
        self.0.build_sql_in(prefixes, buf, params)?;
        proof {
            broadcast use lemma_encode_utf8_concat;

            assert(buf@ =~= old(buf)@ + encode_utf8(self.sql_text(prefixes@)));
        }
        Ok(())
    }
}

/// The absent `LIMIT` clause. It renders as nothing.
#[derive(Debug, Clone, Copy, Default)]
pub struct EmptyLimitClause;

/// The `LIMIT` clause.
#[derive(Debug, Clone)]
pub struct LimitClause<T>(T);

impl EmptyLimitClause {
    pub fn new() -> Self {
        EmptyLimitClause
    }
}

impl<T> LimitClause<T> {
    /// What the clause holds.
    pub closed spec fn inner(&self) -> T {
        self.0
    }

    pub fn new(limit: T) -> (r: Self)
        ensures
            r.inner() == limit,
    {
        LimitClause(limit)
    }

    pub fn unwrap(self) -> (r: T)
        ensures
            r == self.inner(),
    {
        self.0
    }

    pub fn inner_ref(&self) -> (r: &T)
        ensures
            *r == self.inner(),
    {
        &self.0
    }
}

impl BuildSql for EmptyLimitClause {
    open spec fn sql_text(&self, prefixes: Prefixes) -> Seq<char> {
        Seq::empty()
    }

    open spec fn sql_params(&self) -> Seq<ValueView> {
        Seq::empty()
    }

    open spec fn alias_names(&self) -> Seq<SourceAliasName> {
        Seq::empty()
    }

    open spec fn plain_names(&self) -> bool {
        true
    }

    open spec fn infallible(&self) -> bool {
        true
    }

    proof fn lemma_marks(&self, prefixes: Prefixes) {
        lemma_plain_marks(Seq::<char>::empty());
    }

    fn note_names(&self, prefixes: &mut AliasPrefixes) {
    }

    fn build_sql_in(
        &self,
        prefixes: &AliasPrefixes,
        buf: &mut Vec<u8>,
        params: &mut Vec<Value>,
    ) -> (r: Result<(), BuildSqlError>) {
        assert(buf@ =~= old(buf)@ + encode_utf8(self.sql_text(prefixes@)));
        assert(params.deep_view() =~= old(params).deep_view() + self.sql_params());
        Ok(())
    }
}

impl<T> BuildSql for LimitClause<T> where T: BuildSql {
    open spec fn sql_text(&self, prefixes: Prefixes) -> Seq<char> {
        " LIMIT "@ + self.inner().sql_text(prefixes)
    }

    open spec fn sql_params(&self) -> Seq<ValueView> {
        self.inner().sql_params()
    }

    open spec fn alias_names(&self) -> Seq<SourceAliasName> {
        self.inner().alias_names()
    }

    open spec fn plain_names(&self) -> bool {
        self.inner().plain_names()
    }

    open spec fn infallible(&self) -> bool {
        self.inner().infallible()
    }

    proof fn lemma_marks(&self, prefixes: Prefixes) {
        let t0 = " LIMIT "@;
        reveal_strlit(" LIMIT ");
        lemma_plain_marks(" LIMIT "@);
        let t1 = self.inner().sql_text(prefixes);
        self.inner().lemma_marks(prefixes);
        lemma_marks_concat(t0, 0, t1, self.inner().sql_params().len() as int);
    }

    fn note_names(&self, prefixes: &mut AliasPrefixes) {
        self.0.note_names(prefixes);
    }

    fn build_sql_in(
        &self,
        prefixes: &AliasPrefixes,
        buf: &mut Vec<u8>,
        params: &mut Vec<Value>,
    ) -> (r: Result<(), BuildSqlError>) {
        write_str(buf, " LIMIT ");
        self.0.build_sql_in(prefixes, buf, params)?;
        proof {
            broadcast use lemma_encode_utf8_concat;

            assert(buf@ =~= old(buf)@ + encode_utf8(self.sql_text(prefixes@)));
        }
        Ok(())
    }
}

/// No lock clause: the rows are read as the database does by default.
#[derive(Debug, Clone, Copy, Ord, PartialOrd, Eq, PartialEq, Hash, Default)]
pub struct LockModeDefaultBehavior;

impl BuildSql for LockModeDefaultBehavior {
    open spec fn sql_text(&self, prefixes: Prefixes) -> Seq<char> {
        Seq::empty()
    }

    open spec fn sql_params(&self) -> Seq<ValueView> {
        Seq::empty()
    }

    open spec fn alias_names(&self) -> Seq<SourceAliasName> {
        Seq::empty()
    }

    open spec fn plain_names(&self) -> bool {
        true
    }

    open spec fn infallible(&self) -> bool {
        true
    }

    proof fn lemma_marks(&self, prefixes: Prefixes) {
        lemma_plain_marks(Seq::<char>::empty());
    }

    fn note_names(&self, prefixes: &mut AliasPrefixes) {
    }

    fn build_sql_in(
        &self,
        prefixes: &AliasPrefixes,
        buf: &mut Vec<u8>,
        params: &mut Vec<Value>,
    ) -> (r: Result<(), BuildSqlError>) {
        assert(buf@ =~= old(buf)@ + encode_utf8(self.sql_text(prefixes@)));
        assert(params.deep_view() =~= old(params).deep_view() + self.sql_params());
        Ok(())
    }
}

/// `FOR UPDATE`: the rows read are locked for writing.
#[derive(Debug, Clone, Copy, Ord, PartialOrd, Eq, PartialEq, Hash, Default)]
pub struct ForUpdate;

impl BuildSql for ForUpdate {
    open spec fn sql_text(&self, prefixes: Prefixes) -> Seq<char> {
        " FOR UPDATE"@
    }

    open spec fn sql_params(&self) -> Seq<ValueView> {
        Seq::empty()
    }

    open spec fn alias_names(&self) -> Seq<SourceAliasName> {
        Seq::empty()
    }

    open spec fn plain_names(&self) -> bool {
        true
    }

    open spec fn infallible(&self) -> bool {
        true
    }

    proof fn lemma_marks(&self, prefixes: Prefixes) {
        reveal_strlit(" FOR UPDATE");
        lemma_plain_marks(" FOR UPDATE"@);
    }

    fn note_names(&self, prefixes: &mut AliasPrefixes) {
    }

    fn build_sql_in(
        &self,
        prefixes: &AliasPrefixes,
        buf: &mut Vec<u8>,
        params: &mut Vec<Value>,
    ) -> (r: Result<(), BuildSqlError>) {
        write_str(buf, " FOR UPDATE");
        assert(params.deep_view() =~= old(params).deep_view() + self.sql_params());
        Ok(())
    }
}

/// `LOCK IN SHARE MODE`: the rows read are locked against writing.
#[derive(Debug, Clone, Copy, Ord, PartialOrd, Eq, PartialEq, Hash, Default)]
pub struct LockInShareMode;

impl BuildSql for LockInShareMode {
    open spec fn sql_text(&self, prefixes: Prefixes) -> Seq<char> {
        " LOCK IN SHARE MODE"@
    }

    open spec fn sql_params(&self) -> Seq<ValueView> {
        Seq::empty()
    }

    open spec fn alias_names(&self) -> Seq<SourceAliasName> {
        Seq::empty()
    }

    open spec fn plain_names(&self) -> bool {
        true
    }

    open spec fn infallible(&self) -> bool {
        true
    }

    proof fn lemma_marks(&self, prefixes: Prefixes) {
        reveal_strlit(" LOCK IN SHARE MODE");
        lemma_plain_marks(" LOCK IN SHARE MODE"@);
    }

    fn note_names(&self, prefixes: &mut AliasPrefixes) {
    }

    fn build_sql_in(
        &self,
        prefixes: &AliasPrefixes,
        buf: &mut Vec<u8>,
        params: &mut Vec<Value>,
    ) -> (r: Result<(), BuildSqlError>) {
        write_str(buf, " LOCK IN SHARE MODE");
        assert(params.deep_view() =~= old(params).deep_view() + self.sql_params());
        Ok(())
    }
}

} // verus!
