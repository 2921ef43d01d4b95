use aqueryon::query_builder::{
    AliasPrefixes, BuildSql, BuildSqlError, Columns, EmptySelectBuilder, NonAggregate, Query,
    Prefixes, QueryBuildError, SourceAliasName, SqlTypeAny, Value, ValueView,
};

/// A column list whose renderer gives up.
struct Unrenderable;

impl Columns for Unrenderable {
    type SqlType = SqlTypeAny;
    type Aggregation = NonAggregate;
}

impl BuildSql for Unrenderable {
    fn sql_text(&self, _prefixes: Prefixes) -> vstd::seq::Seq<char> {
        unreachable!()
    }

    fn sql_params(&self) -> vstd::seq::Seq<ValueView> {
        unreachable!()
    }

    fn alias_names(&self) -> vstd::seq::Seq<SourceAliasName> {
        unreachable!()
    }

    fn plain_names(&self) -> bool {
        false
    }

    fn infallible(&self) -> bool {
        false
    }

    fn lemma_marks(&self, _prefixes: Prefixes) {}

    fn note_names(&self, _prefixes: &mut AliasPrefixes) {}

    fn build_sql_in(
        &self,
        _prefixes: &AliasPrefixes,
        buf: &mut Vec<u8>,
        _params: &mut Vec<Value>,
    ) -> Result<(), BuildSqlError> {
        buf.extend_from_slice(b"half");
        Err(BuildSqlError::AnyError)
    }
}

/// A part that cannot write.
struct Unwritable;

impl BuildSql for Unwritable {
    fn sql_text(&self, _prefixes: Prefixes) -> vstd::seq::Seq<char> {
        unreachable!()
    }

    fn sql_params(&self) -> vstd::seq::Seq<ValueView> {
        unreachable!()
    }

    fn alias_names(&self) -> vstd::seq::Seq<SourceAliasName> {
        unreachable!()
    }

    fn plain_names(&self) -> bool {
        false
    }

    fn infallible(&self) -> bool {
        false
    }

    fn lemma_marks(&self, _prefixes: Prefixes) {}

    fn note_names(&self, _prefixes: &mut AliasPrefixes) {}

    fn build_sql_in(
        &self,
        _prefixes: &AliasPrefixes,
        _buf: &mut Vec<u8>,
        _params: &mut Vec<Value>,
    ) -> Result<(), BuildSqlError> {
        Err(BuildSqlError::IoError)
    }
}

#[test]
fn failure_of_a_part_is_handed_up() {
    let mut buf = Vec::new();
    let mut params = Vec::new();
    assert_eq!(
        (Value::Int(1), Unwritable, Value::Int(2)).build_sql(&mut buf, &mut params),
        Err(BuildSqlError::IoError)
    );
    assert_eq!(
        (Value::Int(1), (Unrenderable, Unwritable)).build_sql(&mut buf, &mut params),
        Err(BuildSqlError::AnyError)
    );
    assert!(matches!(
        Query::build(&Unwritable),
        Err(QueryBuildError::BuildSqlError(BuildSqlError::IoError))
    ));
    assert!(matches!(
        QueryBuildError::from(BuildSqlError::IoError),
        QueryBuildError::BuildSqlError(BuildSqlError::IoError)
    ));
}

#[test]
fn failing_part_fails_the_build() {
    let result = EmptySelectBuilder::new().select(Unrenderable).build();
    assert!(matches!(
        result,
        Err(QueryBuildError::BuildSqlError(BuildSqlError::AnyError))
    ));
}

#[test]
fn failing_part_fails_directly() {
    let mut buf = Vec::new();
    let mut params = Vec::new();
    assert_eq!(
        Unrenderable.build_sql(&mut buf, &mut params),
        Err(BuildSqlError::AnyError)
    );
}

#[test]
fn bytes_that_are_no_utf8_are_refused() {
    let result = Query::from_rendered(vec![b'S', 0xff, b'?'], vec![Value::Int(1)]);
    match result {
        Err(QueryBuildError::EncodeError(e)) => {
            assert_eq!(e.into_bytes(), vec![b'S', 0xff, b'?']);
        }
        _ => panic!("expected an encoding error"),
    }
}

#[test]
fn rendered_bytes_are_read_as_utf8() {
    let bytes = "SELECT 'é' = ?;".as_bytes().to_vec();
    assert_eq!(bytes.len(), 16);
    let query = Query::from_rendered(bytes, vec![Value::String("é".to_string())])
        .expect("valid UTF-8");
    assert_eq!(query.sql(), "SELECT 'é' = ?;");
    assert_eq!(query.sql().chars().count(), 15);
    assert_eq!(query.params(), &[Value::String("é".to_string())]);
}

#[test]
fn error_of_the_renderer_is_handed_on_as_it_came() {
    let written = vec![b'S'];
    let bound = vec![Value::Null];
    assert!(matches!(
        Query::of_rendering(Err(BuildSqlError::IoError), written.clone(), bound.clone()),
        Err(QueryBuildError::BuildSqlError(BuildSqlError::IoError))
    ));
    assert!(matches!(
        Query::of_rendering(Err(BuildSqlError::AnyError), written.clone(), bound.clone()),
        Err(QueryBuildError::BuildSqlError(BuildSqlError::AnyError))
    ));
    let query = Query::of_rendering(Ok(()), written, bound).expect("valid UTF-8");
    assert_eq!(query.sql(), "S");
    assert_eq!(query.params(), &[Value::Null]);
    assert!(matches!(
        Query::of_rendering(Ok(()), vec![0xc0], vec![]),
        Err(QueryBuildError::EncodeError(_))
    ));
}

#[test]
fn statement_is_rendered_with_the_prefixes_read() {
    let (mut builder, t1) = EmptySelectBuilder::new().source("table1");
    let builder_ref = {
        builder.change_sources_alias_name("p");
        builder.select(t1.column("c"))
    };
    let mut prefixes = AliasPrefixes::new();
    builder_ref.note_select_names(&mut prefixes);
    t1.clone().column("x");
    let mut buf = Vec::new();
    let mut params = Vec::new();
    builder_ref
        .build_statement(&prefixes, &mut buf, &mut params)
        .expect("renders");
    assert_eq!(buf, b"SELECT p1.c FROM table1 as p1;");
    assert!(params.is_empty());
    assert!(matches!(
        EmptySelectBuilder::new()
            .select(Unrenderable)
            .build_statement(&prefixes, &mut buf, &mut params),
        Err(BuildSqlError::AnyError)
    ));
}

#[test]
fn query_of_a_part() {
    let query = Query::build(&Value::Int(3)).expect("a literal renders");
    assert_eq!(query.sql(), "?");
    assert_eq!(query.params(), &[Value::Int(3)]);
    assert!(matches!(
        Query::build(&Unrenderable),
        Err(QueryBuildError::BuildSqlError(BuildSqlError::AnyError))
    ));
}
