//! Rendering: every part of a query appends its SQL text to a byte buffer and
//! the values of its placeholders to a parameter list.
//!
//! A rendering has two steps. First the prefix of every name of the part is
//! read from its cell, each once. Then the part renders itself with the
//! prefixes read; what it appends is a function of the part and of them.

use vstd::prelude::*;
use vstd::utf8::*;
use super::alias::{
    covers, extends, lemma_covers_both, lemma_extends_covers, plain_prefixes, AliasPrefixes,
    Prefixes, SourceAliasName,
};
use super::text::{lemma_encode_utf8_concat, marks, write_str};
use super::value::{Value, ValueView};

verus! {

/// Why a part of a query could not be rendered.
#[derive(Debug, Clone, Copy, PartialEq, Eq)]
pub enum BuildSqlError {
    /// The output buffer could not be written.
    IoError,
    /// Any other failure of a part's own renderer.
    AnyError,
}

/// A part of a query that renders itself as SQL.
pub trait BuildSql {
    /// The SQL text of this part with the given prefixes read for the names
    /// of its sources.
    spec fn sql_text(&self, prefixes: Prefixes) -> Seq<char>;

    /// The values bound to the placeholders of the text, from left to right.
    spec fn sql_params(&self) -> Seq<ValueView>;

    /// The names of which the text shows the prefix, from left to right.
    spec fn alias_names(&self) -> Seq<SourceAliasName>;

    /// Whether no name of a table or of a column in this part holds a `?` or
    /// a `;`.
    spec fn plain_names(&self) -> bool;

    /// Whether rendering this part always succeeds.
    spec fn infallible(&self) -> bool;

    /// Where neither the names of this part nor the prefixes read hold a `?`
    /// or a `;`, the text has one `?` for each of its values, and no `;`.
    proof fn lemma_marks(&self, prefixes: Prefixes)
        requires
            self.plain_names(),
            plain_prefixes(prefixes),
        ensures
            marks(self.sql_text(prefixes), self.sql_params().len() as int),
    ;

    /// Reads the prefix of each name of this part that was not read before.
    /// What was read before stays.
    fn note_names(&self, prefixes: &mut AliasPrefixes)
        ensures
            extends(old(prefixes)@, final(prefixes)@),
            covers(final(prefixes)@, self.alias_names()),
    ;

    /// Appends the text of this part, as UTF-8, to `buf` and its values to
    /// `params`. After a failure the two hold an unfinished rendering.
    fn build_sql_in(
        &self,
        prefixes: &AliasPrefixes,
        buf: &mut Vec<u8>,
        params: &mut Vec<Value>,
    ) -> (r: Result<(), BuildSqlError>)
        ensures
            self.infallible() ==> r is Ok,
            r is Ok ==> final(buf)@ == old(buf)@ + encode_utf8(self.sql_text(prefixes@)),
            r is Ok ==> final(params).deep_view() == old(params).deep_view() + self.sql_params(),
    ;

    /// Reads the prefixes of the names of this part, each from its cell and
    /// each once, and renders the part with them.
    fn build_sql(&self, buf: &mut Vec<u8>, params: &mut Vec<Value>) -> (r: Result<
        (),
        BuildSqlError,
    >)
        ensures
            self.infallible() ==> r is Ok,
            r is Ok ==> exists|prefixes: Prefixes|
                covers(prefixes, self.alias_names()) && final(buf)@ == old(buf)@ + encode_utf8(
                    #[trigger] self.sql_text(prefixes),
                ),
            r is Ok ==> final(params).deep_view() == old(params).deep_view() + self.sql_params(),
    {
        let mut prefixes = AliasPrefixes::new();
        self.note_names(&mut prefixes);
        self.build_sql_in(&prefixes, buf, params)
    }
}

/// Reads the prefixes of the names of the next part of a run of parts.
/// `done` are the names of the parts before it, read since the list was
/// `start`.
pub(crate) fn note_part<T: BuildSql>(
    item: &T,
    prefixes: &mut AliasPrefixes,
    Ghost(start): Ghost<Prefixes>,
    Ghost(done): Ghost<Seq<SourceAliasName>>,
)
    requires
        extends(start, old(prefixes)@),
        covers(old(prefixes)@, done),
    ensures
        extends(start, final(prefixes)@),
        covers(final(prefixes)@, done + item.alias_names()),
{
    item.note_names(prefixes);
    proof {
        lemma_extends_covers(old(prefixes)@, prefixes@, done);
        lemma_covers_both(prefixes@, done, item.alias_names());
    }
}

/// Whether two parts render alike everywhere: the same text with any
/// prefixes, the same values, the same names, and both or neither always with
/// success.
pub open spec fn renders_like<A: BuildSql, B: BuildSql>(a: A, b: B) -> bool {
    &&& forall|prefixes: Prefixes| #[trigger] a.sql_text(prefixes) == b.sql_text(prefixes)
    &&& a.sql_params() == b.sql_params()
    &&& a.alias_names() == b.alias_names()
    &&& a.infallible() == b.infallible()
}

/// What a run of parts has rendered so far: what the buffer and the parameter
/// list held before the run, and the text and the values that the run has
/// added.
pub(crate) struct Rendered {
    pub base: Seq<u8>,
    pub text: Seq<char>,
    pub bound: Seq<ValueView>,
    pub values: Seq<ValueView>,
}

/// Renders the next part of a run of parts.
pub(crate) fn build_part<T: BuildSql>(
    item: &T,
    prefixes: &AliasPrefixes,
    buf: &mut Vec<u8>,
    params: &mut Vec<Value>,
    Ghost(run): Ghost<Rendered>,
) -> (r: Result<(), BuildSqlError>)
    requires
        old(buf)@ == run.base + encode_utf8(run.text),
        old(params).deep_view() == run.bound + run.values,
    ensures
        item.infallible() ==> r is Ok,
        r is Ok ==> final(buf)@ == run.base + encode_utf8(run.text + item.sql_text(prefixes@)),
        r is Ok ==> final(params).deep_view() == run.bound + (run.values + item.sql_params()),
{
    item.build_sql_in(prefixes, buf, params)?;
    proof {
        broadcast use lemma_encode_utf8_concat;

        assert(buf@ =~= run.base + encode_utf8(run.text + item.sql_text(prefixes@)));
        assert(params.deep_view() =~= run.bound + (run.values + item.sql_params()));
    }
    Ok(())
}

/// Renders the next part of a run of parts after a separator.
pub(crate) fn build_after<T: BuildSql>(
    separator: &str,
    item: &T,
    prefixes: &AliasPrefixes,
    buf: &mut Vec<u8>,
    params: &mut Vec<Value>,
    Ghost(run): Ghost<Rendered>,
) -> (r: Result<(), BuildSqlError>)
    requires
        old(buf)@ == run.base + encode_utf8(run.text),
        old(params).deep_view() == run.bound + run.values,
    ensures
        item.infallible() ==> r is Ok,
        r is Ok ==> final(buf)@ == run.base + encode_utf8(
            run.text + separator@ + item.sql_text(prefixes@),
        ),
        r is Ok ==> final(params).deep_view() == run.bound + (run.values + item.sql_params()),
{
    write_str(buf, separator);
    item.build_sql_in(prefixes, buf, params)?;
    proof {
        broadcast use lemma_encode_utf8_concat;

        assert(buf@ =~= run.base + encode_utf8(run.text + separator@ + item.sql_text(prefixes@)));
        assert(params.deep_view() =~= run.bound + (run.values + item.sql_params()));
    }
    Ok(())
}

} // verus!
