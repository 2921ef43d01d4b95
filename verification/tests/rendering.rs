use aqueryon::query_builder::{
    count, date, left, not, sum, AndOperatorMethod, BetweenOperatorMethod, BuildSql, ColumnAlias,
    CompareBinaryOperatorMethod, Distinct, EmptySelectBuilder, InOperatorMethod, Limit,
    NotOperatorMethod, NullCheckOperatorMethod, OrOperatorMethod, Order, Record, Row, SqlInt,
    SqlString, SqlTypeBool, SqlUint, Value,
};

fn rendered<T: BuildSql>(part: &T) -> (String, Vec<Value>) {
    let mut buf = Vec::new();
    let mut params = Vec::new();
    part.build_sql(&mut buf, &mut params).expect("renders");
    (String::from_utf8(buf).expect("UTF-8"), params)
}

#[test]
fn every_literal_selects_as_one_placeholder() {
    let literals = vec![
        Value::Null,
        Value::String("x".to_string()),
        Value::Int(-7),
        Value::Uint(7),
    ];
    for literal in literals {
        let query = EmptySelectBuilder::new()
            .select(literal.clone())
            .build()
            .expect("renders");
        assert_eq!(query.sql(), "SELECT ?;");
        assert_eq!(query.params(), &[literal]);
    }
}

#[test]
fn typed_literals_bind_their_values() {
    assert_eq!(
        rendered(&SqlString::new("a'b")),
        ("?".to_string(), vec![Value::String("a'b".to_string())])
    );
    assert_eq!(
        rendered(&SqlInt::new(i64::MIN)),
        ("?".to_string(), vec![Value::Int(i64::MIN)])
    );
    assert_eq!(
        rendered(&SqlUint::new(u64::MAX)),
        ("?".to_string(), vec![Value::Uint(u64::MAX)])
    );
    assert_eq!(
        rendered(&Some(SqlInt::new(4))),
        ("?".to_string(), vec![Value::Int(4)])
    );
    assert_eq!(
        rendered(&None::<SqlInt>),
        ("?".to_string(), vec![Value::Null])
    );
    assert_eq!(
        rendered(&"text"),
        ("?".to_string(), vec![Value::String("text".to_string())])
    );
    assert_eq!(rendered(&5i64), ("?".to_string(), vec![Value::Int(5)]));
    assert_eq!(rendered(&5u64), ("?".to_string(), vec![Value::Uint(5)]));
}

#[test]
fn comparisons_render_their_operator() {
    let one = SqlInt::new(1);
    let two = SqlInt::new(2);
    let params = vec![Value::Int(1), Value::Int(2)];
    assert_eq!(rendered(&one.eq(two)), ("? = ?".to_string(), params.clone()));
    assert_eq!(rendered(&one.not_eq(two)), ("? != ?".to_string(), params.clone()));
    assert_eq!(rendered(&one.gt(two)), ("? > ?".to_string(), params.clone()));
    assert_eq!(rendered(&one.ge(two)), ("? >= ?".to_string(), params.clone()));
    assert_eq!(rendered(&one.lt(two)), ("? < ?".to_string(), params.clone()));
    assert_eq!(rendered(&one.le(two)), ("? <= ?".to_string(), params.clone()));
    assert_eq!(rendered(&one.like(two)), ("? LIKE ?".to_string(), params.clone()));
    assert_eq!(
        rendered(&one.not_like(two)),
        ("? NOT LIKE ?".to_string(), params)
    );
}

#[test]
fn between_renders_target_then_bounds() {
    let (builder, t1) = EmptySelectBuilder::new().source("table1");
    let query = builder
        .filter(t1.column("c1").between(SqlInt::new(-5), SqlUint::new(5)))
        .select(t1.column("c1"))
        .build()
        .expect("renders");
    assert_eq!(
        query.sql(),
        "SELECT t1.c1 FROM table1 as t1 WHERE t1.c1 BETWEEN ? AND ?;"
    );
    assert_eq!(query.params(), &[Value::Int(-5), Value::Uint(5)]);
}

#[test]
fn between_over_an_aggregate_is_a_condition_on_groups() {
    let (builder, t1) = EmptySelectBuilder::new().source("table1");
    let query = builder
        .select(sum(t1.column("c1")))
        .group_by(t1.column("c2"))
        .having(sum(t1.column("c1")).between(SqlInt::new(1), SqlInt::new(2)))
        .build()
        .expect("renders");
    assert_eq!(
        query.sql(),
        "SELECT sum(t1.c1) FROM table1 as t1 GROUP BY t1.c2 HAVING sum(t1.c1) BETWEEN ? AND ?;"
    );
    assert_eq!(query.params(), &[Value::Int(1), Value::Int(2)]);
}

#[test]
fn in_list_has_a_placeholder_for_each_value() {
    let (_, t1) = EmptySelectBuilder::new().source("table1");
    assert_eq!(
        rendered(&t1.column("c").any(Vec::<SqlInt>::new())),
        ("t1.c IN ()".to_string(), vec![])
    );
    assert_eq!(
        rendered(&t1.column("c").any(vec![SqlInt::new(9)])),
        ("t1.c IN (?)".to_string(), vec![Value::Int(9)])
    );
    assert_eq!(
        rendered(&t1.column("c").not_any(vec![SqlInt::new(9), SqlInt::new(8)])),
        (
            "t1.c NOT IN (?, ?)".to_string(),
            vec![Value::Int(9), Value::Int(8)]
        )
    );
    let many: Vec<SqlUint> = (0..40).map(SqlUint::new).collect();
    let (text, params) = rendered(&SqlUint::new(100).any(many));
    assert_eq!(text.matches('?').count(), 41);
    assert_eq!(text.matches(", ").count(), 39);
    assert_eq!(text.len(), "? IN (".len() + 3 * 40 - 2 + 1);
    assert_eq!(params.len(), 41);
    assert_eq!(params[0], Value::Uint(100));
    for i in 0..40 {
        assert_eq!(params[i + 1], Value::Uint(i as u64));
    }
}

#[test]
fn in_list_takes_vectors_arrays_and_slices() {
    let (_, t1) = EmptySelectBuilder::new().source("table1");
    let expected = (
        "t1.c IN (?, ?)".to_string(),
        vec![Value::Int(1), Value::Int(2)],
    );
    let values = vec![SqlInt::new(1), SqlInt::new(2)];
    assert_eq!(rendered(&t1.column("c").any(&values)), expected);
    assert_eq!(rendered(&t1.column("c").any(&values[..])), expected);
    assert_eq!(
        rendered(&t1.column("c").any([SqlInt::new(1), SqlInt::new(2)])),
        expected
    );
    assert_eq!(
        rendered(&t1.column("c").any(&[SqlInt::new(1), SqlInt::new(2)])),
        expected
    );
    assert_eq!(rendered(&t1.column("c").any(values)), expected);
    assert_eq!(
        rendered(&t1.column("c").not_any([SqlString::new("x")])),
        (
            "t1.c NOT IN (?)".to_string(),
            vec![Value::String("x".to_string())]
        )
    );
}

#[test]
fn null_checks_follow_their_operand() {
    let (_, t1) = EmptySelectBuilder::new().source("table1");
    assert_eq!(
        rendered(&t1.column("c").is_null()),
        ("t1.c IS NULL".to_string(), vec![])
    );
    assert_eq!(
        rendered(&SqlInt::new(1).is_not_null()),
        ("? IS NOT NULL".to_string(), vec![Value::Int(1)])
    );
}

#[test]
fn and_wraps_only_disjunctions() {
    let (_, t) = EmptySelectBuilder::new().source("x");
    let a = || t.column("a").is_null();
    let b = || t.column("b").is_null();
    let c = || t.column("c").is_null();
    let d = || t.column("d").is_null();
    assert_eq!(
        rendered(&a().and(b())).0,
        "t1.a IS NULL AND t1.b IS NULL"
    );
    assert_eq!(
        rendered(&a().and(b()).and(c())).0,
        "t1.a IS NULL AND t1.b IS NULL AND t1.c IS NULL"
    );
    assert_eq!(
        rendered(&a().and(b().and(c()))).0,
        "t1.a IS NULL AND t1.b IS NULL AND t1.c IS NULL"
    );
    assert_eq!(
        rendered(&a().and(b()).and(c().and(d()))).0,
        "t1.a IS NULL AND t1.b IS NULL AND t1.c IS NULL AND t1.d IS NULL"
    );
    assert_eq!(
        rendered(&a().or(b()).and(c())).0,
        "(t1.a IS NULL OR t1.b IS NULL) AND t1.c IS NULL"
    );
    assert_eq!(
        rendered(&a().and(b().or(c()))).0,
        "t1.a IS NULL AND (t1.b IS NULL OR t1.c IS NULL)"
    );
    assert_eq!(
        rendered(&a().or(b()).and(c().or(d()))).0,
        "(t1.a IS NULL OR t1.b IS NULL) AND (t1.c IS NULL OR t1.d IS NULL)"
    );
    assert_eq!(
        rendered(&a().or(b()).and(c().and(d()))).0,
        "(t1.a IS NULL OR t1.b IS NULL) AND t1.c IS NULL AND t1.d IS NULL"
    );
    assert_eq!(
        rendered(&a().and(b()).and(c().or(d()))).0,
        "t1.a IS NULL AND t1.b IS NULL AND (t1.c IS NULL OR t1.d IS NULL)"
    );
}

#[test]
fn or_wraps_only_conjunctions() {
    let (_, t) = EmptySelectBuilder::new().source("x");
    let a = || t.column("a").is_null();
    let b = || t.column("b").is_null();
    let c = || t.column("c").is_null();
    let d = || t.column("d").is_null();
    assert_eq!(rendered(&a().or(b())).0, "t1.a IS NULL OR t1.b IS NULL");
    assert_eq!(
        rendered(&a().or(b()).or(c())).0,
        "t1.a IS NULL OR t1.b IS NULL OR t1.c IS NULL"
    );
    assert_eq!(
        rendered(&a().or(b().or(c()))).0,
        "t1.a IS NULL OR t1.b IS NULL OR t1.c IS NULL"
    );
    assert_eq!(
        rendered(&a().and(b()).or(c())).0,
        "(t1.a IS NULL AND t1.b IS NULL) OR t1.c IS NULL"
    );
    assert_eq!(
        rendered(&a().or(b().and(c()))).0,
        "t1.a IS NULL OR (t1.b IS NULL AND t1.c IS NULL)"
    );
    assert_eq!(
        rendered(&a().and(b()).or(c().and(d()))).0,
        "(t1.a IS NULL AND t1.b IS NULL) OR (t1.c IS NULL AND t1.d IS NULL)"
    );
    assert_eq!(
        rendered(&a().and(b()).or(c().or(d()))).0,
        "(t1.a IS NULL AND t1.b IS NULL) OR t1.c IS NULL OR t1.d IS NULL"
    );
    assert_eq!(
        rendered(&a().or(b()).or(c().and(d()))).0,
        "t1.a IS NULL OR t1.b IS NULL OR (t1.c IS NULL AND t1.d IS NULL)"
    );
}

#[test]
fn parameters_of_nested_conditions_keep_their_order() {
    let condition = SqlInt::new(1)
        .eq(SqlInt::new(2))
        .or(SqlInt::new(3).eq(SqlInt::new(4)))
        .and(SqlInt::new(5).eq(SqlInt::new(6)));
    assert_eq!(
        rendered(&condition),
        (
            "(? = ? OR ? = ?) AND ? = ?".to_string(),
            (1..=6).map(Value::Int).collect::<Vec<Value>>()
        )
    );
}

#[test]
fn not_wraps_what_has_several_terms() {
    let (_, t) = EmptySelectBuilder::new().source("x");
    assert_eq!(
        rendered(&not(t.column("a").is_null())).0,
        "NOT t1.a IS NULL"
    );
    assert_eq!(
        rendered(&t.column("a").eq(t.column("b")).not()).0,
        "NOT (t1.a = t1.b)"
    );
    assert_eq!(
        rendered(&not(t.column("a").is_null().and(t.column("b").is_null()))).0,
        "NOT (t1.a IS NULL AND t1.b IS NULL)"
    );
    assert_eq!(
        rendered(&not(not(t.column("a").is_null()))).0,
        "NOT NOT t1.a IS NULL"
    );
    assert_eq!(
        rendered(&not(t.column("a").is_null()).and(not(t.column("b").eq(t.column("c"))))).0,
        "NOT t1.a IS NULL AND NOT (t1.b = t1.c)"
    );
    assert_eq!(
        rendered(&not(t.column("a").is_null()).or(t.column("b").is_null())).0,
        "NOT t1.a IS NULL OR t1.b IS NULL"
    );
    assert_eq!(
        rendered(&not(t.column("a").between(SqlInt::new(1), SqlInt::new(2)))),
        (
            "NOT (t1.a BETWEEN ? AND ?)".to_string(),
            vec![Value::Int(1), Value::Int(2)]
        )
    );
}

#[test]
fn functions_render_name_and_arguments() {
    let (_, t) = EmptySelectBuilder::new().source("x");
    assert_eq!(rendered(&sum(t.column("a"))).0, "sum(t1.a)");
    assert_eq!(rendered(&count(t.column("a"))).0, "count(t1.a)");
    assert_eq!(
        rendered(&date(SqlString::new("2020-02-01"))),
        (
            "date(?)".to_string(),
            vec![Value::String("2020-02-01".to_string())]
        )
    );
    assert_eq!(
        rendered(&left(SqlString::new("abc"), SqlInt::new(2))),
        (
            "left(?, ?)".to_string(),
            vec![Value::String("abc".to_string()), Value::Int(2)]
        )
    );
}

#[test]
fn column_lists_are_comma_separated() {
    let (_, t) = EmptySelectBuilder::new().source("x");
    let c = |name: &str| t.column(name);
    assert_eq!(rendered(&(c("a"),)).0, "t1.a");
    assert_eq!(rendered(&(c("a"), c("b"))).0, "t1.a, t1.b");
    assert_eq!(
        rendered(&(
            c("a"),
            c("b"),
            c("c"),
            c("d"),
            c("e"),
            c("f"),
            c("g"),
            c("h"),
            c("i"),
            c("j"),
            c("k"),
            c("l")
        ))
        .0,
        "t1.a, t1.b, t1.c, t1.d, t1.e, t1.f, t1.g, t1.h, t1.i, t1.j, t1.k, t1.l"
    );
    assert_eq!(
        rendered(&((c("a"), c("b")), (c("c"), SqlInt::new(1)))),
        ("t1.a, t1.b, t1.c, ?".to_string(), vec![Value::Int(1)])
    );
    assert_eq!(
        rendered(&Record::new((SqlInt::new(1), SqlInt::new(2), SqlInt::new(3)))),
        (
            "(?, ?, ?)".to_string(),
            vec![Value::Int(1), Value::Int(2), Value::Int(3)]
        )
    );
    assert_eq!(
        rendered(&Distinct::new((c("a"), c("b")))).0,
        "DISTINCT t1.a, t1.b"
    );
    assert_eq!(
        rendered(&ColumnAlias::new(SqlInt::new(1), "one")),
        ("? as one".to_string(), vec![Value::Int(1)])
    );
}

#[test]
fn column_lists_of_any_length() {
    let (builder, t) = EmptySelectBuilder::new().source("x");
    let names: Vec<String> = (0..20).map(|i| format!("c{}", i)).collect();
    let columns: Vec<_> = names.iter().map(|name| t.column(name.as_str())).collect();
    let expected = names
        .iter()
        .map(|name| format!("t1.{}", name))
        .collect::<Vec<String>>()
        .join(", ");
    assert_eq!(rendered(&columns).0, expected);
    assert_eq!(rendered(&Vec::<SqlInt>::new()), (String::new(), vec![]));
    assert_eq!(
        rendered(&vec![SqlInt::new(7)]),
        ("?".to_string(), vec![Value::Int(7)])
    );
    assert_eq!(
        rendered(&vec![SqlInt::new(7), SqlInt::new(8), SqlInt::new(9)]),
        (
            "?, ?, ?".to_string(),
            vec![Value::Int(7), Value::Int(8), Value::Int(9)]
        )
    );
    let query = builder
        .select(columns)
        .group_by(vec![t.column("c0"), t.column("c1")])
        .order_by(vec![Order::Asc(t.column("c0")), Order::Desc(t.column("c1"))])
        .build()
        .expect("renders");
    assert_eq!(
        query.sql(),
        format!(
            "SELECT {} FROM x as t1 GROUP BY t1.c0, t1.c1 ORDER BY t1.c0 ASC, t1.c1 DESC;",
            expected
        )
    );
}

#[test]
fn row_is_selected_as_its_columns() {
    let (builder, t) = EmptySelectBuilder::new().source("x");
    let query = builder
        .select(Row::new((t.column("a"), SqlInt::new(3))))
        .build()
        .expect("renders");
    assert_eq!(query.sql(), "SELECT t1.a, ? FROM x as t1;");
    assert_eq!(query.params(), &[Value::Int(3)]);
}

#[test]
fn orders_render_their_direction() {
    let (_, t) = EmptySelectBuilder::new().source("x");
    assert_eq!(rendered(&Order::Asc(t.column("a"))).0, "t1.a ASC");
    assert_eq!(rendered(&Order::Desc(t.column("a"))).0, "t1.a DESC");
    assert_eq!(
        rendered(&(Order::Desc(t.column("a")), Order::Asc(SqlInt::new(2)))),
        ("t1.a DESC, ? ASC".to_string(), vec![Value::Int(2)])
    );
}

#[test]
fn limits_are_parameters() {
    assert_eq!(
        rendered(&Limit::from(10)),
        ("?".to_string(), vec![Value::Int(10)])
    );
    assert_eq!(
        rendered(&Limit::from((20, 10))),
        ("?, ?".to_string(), vec![Value::Int(20), Value::Int(10)])
    );
    assert_eq!(
        rendered(&Limit {
            offset: Some(0),
            row_count: 0
        }),
        ("?, ?".to_string(), vec![Value::Int(0), Value::Int(0)])
    );
    assert_eq!(
        rendered(&Limit::from(i64::MAX as usize)),
        ("?".to_string(), vec![Value::Int(i64::MAX)])
    );
    assert_eq!(
        rendered(&Limit::from(usize::MAX)),
        ("?".to_string(), vec![Value::Int(usize::MAX as i64)])
    );
}

#[test]
fn clauses_come_in_their_order() {
    let (builder, t1) = EmptySelectBuilder::new().source("table1");
    let (builder, t2) =
        builder.inner_join("table2", |t2| t2.column("id").eq(t1.column("table2_id")));
    let query = builder
        .filter(t1.column("a").eq(SqlInt::new(1)))
        .select((t1.column("c1"), count(t2.column("c2"))))
        .group_by(t1.column("c1"))
        .having(count(t2.column("c2")).gt(SqlInt::new(2)))
        .order_by(Order::Desc(t1.column("c1")))
        .limit((3, 4))
        .for_update()
        .build()
        .expect("renders");
    assert_eq!(
        query.sql(),
        "SELECT t1.c1, count(t2.c2) FROM table1 as t1 JOIN table2 as t2 ON t2.id = t1.table2_id \
         WHERE t1.a = ? GROUP BY t1.c1 HAVING count(t2.c2) > ? ORDER BY t1.c1 DESC LIMIT ?, ? \
         FOR UPDATE;"
    );
    assert_eq!(
        query.params(),
        &[Value::Int(1), Value::Int(2), Value::Int(3), Value::Int(4)]
    );
}

#[test]
fn filter_stands_between_sources_and_what_follows() {
    let (builder, t1) = EmptySelectBuilder::new().source("table1");
    let query = builder
        .filter(t1.column("a").eq(t1.column("b")))
        .select(t1.column("c"))
        .limit(5)
        .lock_in_share_mode()
        .build()
        .expect("renders");
    assert_eq!(
        query.sql(),
        "SELECT t1.c FROM table1 as t1 WHERE t1.a = t1.b LIMIT ? LOCK IN SHARE MODE;"
    );
    assert_eq!(query.params(), &[Value::Int(5)]);
}

#[test]
fn lock_modes_end_the_statement() {
    let (builder, t1) = EmptySelectBuilder::new().source("table1");
    let for_update = builder.clone().select(t1.column("c")).for_update();
    assert_eq!(
        for_update.build().expect("renders").sql(),
        "SELECT t1.c FROM table1 as t1 FOR UPDATE;"
    );
    let shared = builder.select(t1.column("c")).lock_in_share_mode();
    assert_eq!(
        shared.build().expect("renders").sql(),
        "SELECT t1.c FROM table1 as t1 LOCK IN SHARE MODE;"
    );
}

#[test]
fn statement_has_a_placeholder_for_each_parameter_and_ends_in_its_one_semicolon() {
    let (builder, t1) = EmptySelectBuilder::new().source("table1");
    let (builder, t2) =
        builder.left_outer_join("table2", |t2| t2.column("id").eq(SqlInt::new(7)));
    let query = builder
        .filter(
            t1.column("a")
                .any(vec![SqlInt::new(1), SqlInt::new(2), SqlInt::new(3)])
                .and(not(t2.column("b").between(SqlString::new("x"), SqlString::new("y")))),
        )
        .select((t1.column("c1"), left(t2.column("c2"), SqlInt::new(4)), Value::Null))
        .group_by(vec![t1.column("c1")])
        .having(count(t2.column("c2")).gt(SqlUint::new(5)))
        .order_by(Order::Asc(t1.column("c1")))
        .limit((6, 8))
        .for_update()
        .build()
        .expect("renders");
    assert_eq!(query.sql().matches('?').count(), query.params().len());
    assert_eq!(query.params().len(), 11);
    assert_eq!(query.sql().matches(';').count(), 1);
    assert!(query.sql().ends_with(';'));
    assert!(query.sql().starts_with("SELECT "));
    assert_eq!(
        query.params(),
        &[
            Value::Int(4),
            Value::Null,
            Value::Int(7),
            Value::Int(1),
            Value::Int(2),
            Value::Int(3),
            Value::String("x".to_string()),
            Value::String("y".to_string()),
            Value::Uint(5),
            Value::Int(6),
            Value::Int(8),
        ]
    );
}

#[test]
fn rendering_twice_gives_the_same() {
    let (builder, t1) = EmptySelectBuilder::new().source("table1");
    let builder = builder
        .filter(t1.column("a").any(vec![SqlInt::new(1), SqlInt::new(2)]))
        .select(t1.column("c"));
    let first = rendered(&builder);
    let second = rendered(&builder);
    assert_eq!(first, second);
    assert_eq!(
        first,
        (
            "(SELECT t1.c FROM table1 as t1 WHERE t1.a IN (?, ?))".to_string(),
            vec![Value::Int(1), Value::Int(2)]
        )
    );
    let query = builder.clone().build().expect("renders");
    let again = builder.build().expect("renders");
    assert_eq!(query.sql(), again.sql());
    assert_eq!(query.params(), again.params());
    assert_eq!(query.sql(), query.clone().sql());
}

#[test]
fn rendering_appends_to_what_is_there() {
    let mut buf = b"-- ".to_vec();
    let mut params = vec![Value::Null];
    SqlInt::new(1)
        .eq(SqlInt::new(2))
        .build_sql(&mut buf, &mut params)
        .expect("renders");
    assert_eq!(buf, b"-- ? = ?");
    assert_eq!(params, vec![Value::Null, Value::Int(1), Value::Int(2)]);
}

#[test]
fn typed_columns_carry_their_type() {
    let (_, t) = EmptySelectBuilder::new().source("x");
    let flag = t.typed_column::<SqlTypeBool>("flag");
    assert_eq!(
        rendered(&flag.eq(SqlInt::new(1).is_null())),
        ("t1.flag = ? IS NULL".to_string(), vec![Value::Int(1)])
    );
}
