//! The limit of a query: how many rows, and after how many skipped.

use vstd::prelude::*;
use vstd::utf8::*;
use super::alias::{AliasPrefixes, Prefixes, SourceAliasName};
use super::render::{BuildSql, BuildSqlError};
use super::operators::lemma_placeholders_marks;
use super::text::{lemma_encode_utf8_concat, lemma_marks_concat, lemma_plain_marks, write_str};
use super::value::{Value, ValueView};

verus! {

/// At most `row_count` rows, after the first `offset` rows where one is given.
#[derive(Debug, Clone, Eq, PartialEq, Hash)]
pub struct Limit {
    pub offset: Option<usize>,
    pub row_count: usize,
}

/// A count as the value of a placeholder: the signed integer with the same
/// low 64 bits.
pub open spec fn count_value(n: usize) -> ValueView {
    ValueView::Int(n as i64)
}

impl From<usize> for Limit {
    fn from(row_count: usize) -> (r: Self)
        ensures
            r == (Limit { offset: None, row_count }),
    {
        Limit { offset: None, row_count }
    }
}

impl vstd::std_specs::convert::FromSpecImpl<usize> for Limit {
    open spec fn obeys_from_spec() -> bool {
        true
    }

    open spec fn from_spec(row_count: usize) -> Self {
        Limit { offset: None, row_count }
    }
}

impl From<(usize, usize)> for Limit {
    fn from(pair: (usize, usize)) -> (r: Self)
        ensures
            r == (Limit { offset: Some(pair.0), row_count: pair.1 }),
    {
        Limit { offset: Some(pair.0), row_count: pair.1 }
    }
}

impl vstd::std_specs::convert::FromSpecImpl<(usize, usize)> for Limit {
    open spec fn obeys_from_spec() -> bool {
        true
    }

    open spec fn from_spec(pair: (usize, usize)) -> Self {
        Limit { offset: Some(pair.0), row_count: pair.1 }
    }
}

impl BuildSql for Limit {
    open spec fn sql_text(&self, prefixes: Prefixes) -> Seq<char> {
        match self.offset {
            Some(_) => "?, "@ + "?"@,
            None => "?"@,
        }
    }

    open spec fn sql_params(&self) -> Seq<ValueView> {
        match self.offset {
            Some(offset) => seq![count_value(offset), count_value(self.row_count)],
            None => seq![count_value(self.row_count)],
        }
    }

    open spec fn alias_names(&self) -> Seq<SourceAliasName> {
        Seq::empty()
    }

    open spec fn plain_names(&self) -> bool {
        true
    }

    open spec fn infallible(&self) -> bool {
        true
    }

    proof fn lemma_marks(&self, prefixes: Prefixes) {
        reveal_strlit("?");
        reveal_strlit(", ");
        reveal_strlit("?, ");
        lemma_placeholders_marks(1);
        lemma_plain_marks(", "@);
        lemma_marks_concat("?"@, 1, ", "@, 0);
        assert("?"@ + ", "@ =~= "?, "@);
        lemma_marks_concat("?, "@, 1, "?"@, 1);
    }

    fn note_names(&self, prefixes: &mut AliasPrefixes) {
    }

    fn build_sql_in(
        &self,
        prefixes: &AliasPrefixes,
        buf: &mut Vec<u8>,
        params: &mut Vec<Value>,
    ) -> (r: Result<(), BuildSqlError>) {
        if let Some(offset) = self.offset {
            write_str(buf, "?, ");
            params.push(Value::Int(#[verifier::truncate] (offset as i64)));
        }
        write_str(buf, "?");
        params.push(Value::Int(#[verifier::truncate] (self.row_count as i64)));
        proof {
            broadcast use lemma_encode_utf8_concat;

            assert(buf@ =~= old(buf)@ + encode_utf8(self.sql_text(prefixes@)));
            assert(params.deep_view() =~= old(params).deep_view() + self.sql_params());
        }
        Ok(())
    }
}

} // verus!
