//! The finished query: SQL text and the values of its placeholders.

use std::string::FromUtf8Error;
use vstd::prelude::*;
use vstd::utf8::*;
use super::alias::{covers, AliasPrefixes, Prefixes};
use super::render::{BuildSql, BuildSqlError};
use super::text::lemma_text_of_encoding;
use super::value::{Value, ValueView};

verus! {

/// The error of `String::from_utf8`: the bytes that are no UTF-8, and where
/// they stop being so.
#[verifier::external_type_specification]
#[verifier::external_body]
pub struct ExFromUtf8Error(std::string::FromUtf8Error);

/// `String::from_utf8` of std: the string whose UTF-8 encoding the bytes are,
/// and an error exactly when the bytes are not the UTF-8 encoding of any
/// string.
pub assume_specification[ std::string::String::from_utf8 ](vec: std::vec::Vec<u8>) -> (r: Result<
    std::string::String,
    std::string::FromUtf8Error,
>)
    ensures
        r is Ok <==> valid_utf8(vec@),
        r matches Ok(s) ==> s@ == decode_utf8(vec@),
;

/// Why a query could not be built.
#[derive(Debug)]
pub enum QueryBuildError {
    /// A part of the query could not be rendered.
    BuildSqlError(BuildSqlError),
    /// The rendered bytes are not UTF-8.
    EncodeError(FromUtf8Error),
}

impl From<BuildSqlError> for QueryBuildError {
    fn from(error: BuildSqlError) -> (r: Self)
        ensures
            r == QueryBuildError::BuildSqlError(error),
    {
        QueryBuildError::BuildSqlError(error)
    }
}

impl vstd::std_specs::convert::FromSpecImpl<BuildSqlError> for QueryBuildError {
    open spec fn obeys_from_spec() -> bool {
        true
    }

    open spec fn from_spec(error: BuildSqlError) -> Self {
        QueryBuildError::BuildSqlError(error)
    }
}

impl From<FromUtf8Error> for QueryBuildError {
    fn from(error: FromUtf8Error) -> (r: Self)
        ensures
            r == QueryBuildError::EncodeError(error),
    {
        QueryBuildError::EncodeError(error)
    }
}

impl vstd::std_specs::convert::FromSpecImpl<FromUtf8Error> for QueryBuildError {
    open spec fn obeys_from_spec() -> bool {
        true
    }

    open spec fn from_spec(error: FromUtf8Error) -> Self {
        QueryBuildError::EncodeError(error)
    }
}

/// A query: SQL text with `?` for each value, and the values in the order of
/// their placeholders.
#[derive(Debug, Clone)]
pub struct Query {
    sql: String,
    params: Vec<Value>,
}

impl Query {
    /// The characters of the SQL text.
    pub closed spec fn text(&self) -> Seq<char> {
        self.sql@
    }

    /// The values of the placeholders, from left to right.
    pub closed spec fn values(&self) -> Seq<ValueView> {
        self.params.deep_view()
    }

    /// What rendering gives, by the renderer's result and what it left in
    /// the text buffer and the parameter list.
    pub open spec fn rendered(
        result: Result<(), BuildSqlError>,
        bytes: Seq<u8>,
        values: Seq<ValueView>,
        query: Result<Query, QueryBuildError>,
    ) -> bool {
        match result {
            Err(e) => query == Err::<Query, QueryBuildError>(QueryBuildError::BuildSqlError(e)),
            Ok(_) => if valid_utf8(bytes) {
                query matches Ok(q) && q.text() == decode_utf8(bytes) && q.values() == values
            } else {
                query matches Err(QueryBuildError::EncodeError(_))
            },
        }
    }

    /// The query of rendered bytes and values: the bytes as text, and an error if
    /// they are not UTF-8.
    pub fn from_rendered(buf: Vec<u8>, params: Vec<Value>) -> (r: Result<Query, QueryBuildError>)
        ensures
            Query::rendered(Ok(()), buf@, params.deep_view(), r),
    {
        match String::from_utf8(buf) {
            Ok(sql) => Ok(Query { sql, params }),
            Err(e) => Err(QueryBuildError::EncodeError(e)),
        }
    }

    /// The outcome of a rendering: the renderer's own error where it failed,
    /// handed on as it came and without what it had written, and else the
    /// query of the bytes and values that it left.
    pub fn of_rendering(result: Result<(), BuildSqlError>, buf: Vec<u8>, params: Vec<Value>) -> (r:
        Result<Query, QueryBuildError>)
        ensures
            Query::rendered(result, buf@, params.deep_view(), r),
    {
        match result {
            Err(e) => Err(QueryBuildError::BuildSqlError(e)),
            Ok(_) => Query::from_rendered(buf, params),
        }
    }

    /// Reads the prefixes of the names of a part, each from its cell and each
    /// once, and makes a query of the part rendered with them. A failure of
    /// the part is handed on as it came.
    pub fn build<T: BuildSql>(part: &T) -> (r: Result<Query, QueryBuildError>)
        ensures
            part.infallible() ==> r is Ok,
            r matches Ok(q) ==> q.values() == part.sql_params() && exists|prefixes: Prefixes|
                covers(prefixes, part.alias_names()) && q.text() == #[trigger] part.sql_text(
                    prefixes,
                ),
            r matches Err(e) ==> e is BuildSqlError,
    {
        let mut buf: Vec<u8> = Vec::with_capacity(128);
        let mut params: Vec<Value> = Vec::with_capacity(32);
        let mut prefixes = AliasPrefixes::new();
        part.note_names(&mut prefixes);
        let result = part.build_sql_in(&prefixes, &mut buf, &mut params);
        proof {
            if result is Ok {
                lemma_text_of_encoding(part.sql_text(prefixes@));
                assert(buf@ =~= encode_utf8(part.sql_text(prefixes@)));
                assert(params.deep_view() =~= part.sql_params());
            }
        }
        Query::of_rendering(result, buf, params)
    }

    /// The SQL text.
    pub fn sql(&self) -> (s: &str)
        ensures
            s@ == self.text(),
    {
        self.sql.as_str()
    }

    /// The values of the placeholders, from left to right.
    pub fn params(&self) -> (p: &[Value])
        ensures
            p.deep_view() == self.values(),
    {
        let p = self.params.as_slice();
        assert(p.deep_view() =~= self.params.deep_view());
        p
    }
}

} // verus!
