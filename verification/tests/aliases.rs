use aqueryon::query_builder::{
    AliasPrefixes, AnyDatabase, BuildSql, CompareBinaryOperatorMethod, EmptySelectBuilder,
    IntoQuerySource, Joinable, QuerySource, QuerySourceRef, SourceAlias, SourceAliasName,
    TableName, Value,
};

fn rendered<T: BuildSql>(part: &T) -> String {
    let mut buf = Vec::new();
    let mut params: Vec<Value> = Vec::new();
    part.build_sql(&mut buf, &mut params).expect("renders");
    String::from_utf8(buf).expect("UTF-8")
}

fn rendered_in<T: BuildSql>(part: &T, prefixes: &AliasPrefixes) -> String {
    let mut buf = Vec::new();
    let mut params: Vec<Value> = Vec::new();
    part.build_sql_in(prefixes, &mut buf, &mut params)
        .expect("renders");
    String::from_utf8(buf).expect("UTF-8")
}

#[test]
fn alias_is_prefix_and_number() {
    let name = SourceAliasName::new("t");
    assert_eq!(name.as_str(), "t");
    assert_eq!(SourceAlias::new(name.clone(), 0).to_string(), "t0");
    assert_eq!(SourceAlias::new(name.clone(), 1).to_string(), "t1");
    assert_eq!(SourceAlias::new(name.clone(), 9).to_string(), "t9");
    assert_eq!(SourceAlias::new(name.clone(), 10).to_string(), "t10");
    assert_eq!(SourceAlias::new(name.clone(), 99).to_string(), "t99");
    assert_eq!(SourceAlias::new(name.clone(), 100).to_string(), "t100");
    assert_eq!(SourceAlias::new(name.clone(), 109).to_string(), "t109");
    assert_eq!(SourceAlias::new(name, 255).to_string(), "t255");
    assert_eq!(SourceAlias::new(SourceAliasName::default(), 7).to_string(), "t7");
    assert_eq!(SourceAlias::new(SourceAliasName::new(""), 7).to_string(), "7");
    assert_eq!(
        SourceAlias::new(SourceAliasName::new("täble_"), 42).to_string(),
        "täble_42"
    );
}

#[test]
fn replacing_the_prefix_shows_in_every_alias_of_the_name() {
    let name = SourceAliasName::new("t");
    let mut a1 = SourceAlias::new(name.clone(), 1);
    let a2 = SourceAlias::new(name.clone(), 2);
    assert_eq!(a1.to_string(), "t1");
    assert_eq!(a2.to_string(), "t2");
    a1.change_name("u");
    assert_eq!(a1.to_string(), "u1");
    assert_eq!(a2.to_string(), "u2");
    assert_eq!(name.as_str(), "u");
    let mut holder = name.clone();
    holder.set("v");
    holder.set("w");
    assert_eq!(name.as_str(), "w");
    assert_eq!(a1.to_string(), "w1");
    assert_eq!(a2.to_string(), "w2");
    assert_eq!(a1.clone().to_string(), "w1");
    let a3 = SourceAlias::new(name, 3);
    assert_eq!(a3.to_string(), "w3");
}

#[test]
fn names_are_the_same_when_they_share_their_cell() {
    let name = SourceAliasName::new("t");
    let other = SourceAliasName::new("t");
    assert!(name.same(&name.clone()));
    assert!(!name.same(&other));
    let mut renamed = other.clone();
    renamed.set("x");
    assert!(renamed.same(&other));
    assert_eq!(other.as_str(), "x");
    assert_eq!(name.as_str(), "t");
    assert_eq!(SourceAlias::new(name, 1).to_string(), "t1");
    assert_eq!(SourceAlias::new(other, 1).to_string(), "x1");
}

#[test]
fn a_prefix_is_read_once_for_a_rendering() {
    let name = SourceAliasName::new("t");
    let other = SourceAliasName::new("o");
    let alias = SourceAlias::new(name.clone(), 2);
    let mut prefixes = AliasPrefixes::new();
    assert!(!prefixes.has(&name));
    assert_eq!(prefixes.prefix(&name), "");
    assert_eq!(alias.to_string_in(&prefixes), "2");
    prefixes.note(&name);
    assert!(prefixes.has(&name));
    assert!(!prefixes.has(&other));
    assert_eq!(prefixes.prefix(&name), "t");
    assert_eq!(alias.to_string_in(&prefixes), "t2");
    alias.clone().change_name("later");
    prefixes.note(&name);
    prefixes.note(&other);
    assert_eq!(prefixes.prefix(&name), "t");
    assert_eq!(prefixes.prefix(&other), "o");
    assert_eq!(alias.to_string_in(&prefixes), "t2");
    assert_eq!(alias.to_string(), "later2");
    let mut fresh = AliasPrefixes::new();
    alias.note_name(&mut fresh);
    assert_eq!(alias.to_string_in(&fresh), "later2");
    assert_eq!(alias.name_ref().as_str(), "later");
}

#[test]
fn handle_shows_the_prefix_that_the_builder_has_now() {
    let (mut builder, t1) = EmptySelectBuilder::new().source("user");
    assert_eq!(t1.alias(), "t1");
    builder.change_sources_alias_name("a");
    assert_eq!(t1.alias(), "a1");
    builder.change_sources_alias_name("z");
    let (mut builder, t2) = builder.cross_join("table2");
    assert_eq!(t1.alias(), "z1");
    assert_eq!(t2.alias(), "z2");
    builder.change_sources_alias_name("y");
    assert_eq!(t1.alias(), "y1");
    assert_eq!(t2.alias(), "y2");
    assert_eq!(t1.clone().alias(), "y1");
    let query = builder
        .select((t1.column("a"), t2.column("b")))
        .build()
        .expect("renders");
    assert_eq!(
        query.sql(),
        "SELECT y1.a, y2.b FROM user as y1 CROSS JOIN table2 as y2;"
    );
}

#[test]
fn handles_of_joined_sources_show_the_new_prefix() {
    let (builder, t1) = EmptySelectBuilder::new().source("table1");
    let (mut builder, t2) =
        builder.inner_join("table2", |t2| t2.column("id").eq(t1.column("table2_id")));
    assert_eq!(t1.alias(), "t1");
    assert_eq!(t2.alias(), "t2");
    builder.change_sources_alias_name("a");
    assert_eq!(t1.alias(), "a1");
    assert_eq!(t2.alias(), "a2");
}

#[test]
fn column_shows_the_prefix_that_its_builder_has_when_it_is_rendered() {
    let (mut builder, t1) = EmptySelectBuilder::new().source("table1");
    let column = t1.column("c");
    assert_eq!(rendered(&column), "t1.c");
    builder.change_sources_alias_name("q");
    assert_eq!(rendered(&column), "q1.c");
    assert_eq!(rendered_in(&column, &AliasPrefixes::new()), "1.c");
    assert_eq!(
        rendered(&builder.select(column)),
        "(SELECT q1.c FROM table1 as q1)"
    );
}

#[test]
fn sources_are_numbered_in_the_order_attached() {
    let (builder, a) = EmptySelectBuilder::new().source("a");
    let (builder, b) = builder.cross_join("b");
    let (builder, c) = builder.inner_join("c", |c| c.column("x").eq(a.column("x")));
    let (builder, d) = builder.left_outer_join("d", |d| d.column("x").eq(b.column("x")));
    let (mut builder, e) = builder.right_outer_join("e", |e| e.column("x").eq(c.column("x")));
    assert_eq!(
        vec![a.alias(), b.alias(), c.alias(), d.alias(), e.alias()],
        vec!["t1", "t2", "t3", "t4", "t5"]
    );
    builder.change_sources_alias_name("s");
    assert_eq!(
        vec![a.alias(), b.alias(), c.alias(), d.alias(), e.alias()],
        vec!["s1", "s2", "s3", "s4", "s5"]
    );
    let query = builder
        .select((d.column("y"), e.column("y")))
        .build()
        .expect("renders");
    assert_eq!(
        query.sql(),
        "SELECT s4.y, s5.y FROM a as s1 CROSS JOIN b as s2 JOIN c as s3 ON s3.x = s1.x \
         LEFT OUTER JOIN d as s4 ON s4.x = s2.x RIGHT OUTER JOIN e as s5 ON s5.x = s3.x;"
    );
}

#[test]
fn renaming_a_nested_builder_leaves_the_enclosing_one() {
    let (mut builder, t1) = EmptySelectBuilder::new().source("table1");
    let (mut sub_builder, sub_t1) = EmptySelectBuilder::new().source("table2");
    sub_builder.change_sources_alias_name("u");
    assert_eq!(t1.alias(), "t1");
    assert_eq!(sub_t1.alias(), "u1");
    builder.change_sources_alias_name("o");
    assert_eq!(t1.alias(), "o1");
    assert_eq!(sub_t1.alias(), "u1");
    let query = builder
        .filter(
            t1.column("c1").eq(sub_builder
                .filter(sub_t1.column("c2").eq(t1.column("c2")))
                .select(sub_t1.column("c1"))),
        )
        .select(t1.column("c3"))
        .build()
        .expect("renders");
    assert_eq!(
        query.sql(),
        "SELECT o1.c3 FROM table1 as o1 WHERE o1.c1 = (SELECT u1.c1 FROM table2 as u1 WHERE u1.c2 = o1.c2);"
    );
}

#[test]
fn nested_builder_as_source_gets_an_alias_of_the_enclosing_builder() {
    let (mut sub_builder, sub_t1) = EmptySelectBuilder::new().source("inner_table");
    sub_builder.change_sources_alias_name("i");
    let (mut builder, t1) =
        EmptySelectBuilder::new().source(sub_builder.select(sub_t1.column("c1")));
    builder.change_sources_alias_name("o");
    let query = builder.select(t1.column("c1")).build().expect("renders");
    assert_eq!(
        query.sql(),
        "SELECT o1.c1 FROM (SELECT i1.c1 FROM inner_table as i1) as o1;"
    );
}

#[test]
fn tables_of_one_database_join_with_one_another_and_with_any() {
    #[derive(Debug, Clone, Default)]
    struct Shop;
    impl Joinable<Shop> for Shop {
        type Database = Shop;
    }
    impl Joinable<AnyDatabase> for Shop {
        type Database = Shop;
    }
    impl Joinable<Shop> for AnyDatabase {
        type Database = Shop;
    }
    let orders: TableName<'_, Shop> = TableName::new("orders");
    let items: TableName<'_, Shop> = TableName::new("items");
    let (builder, o) = EmptySelectBuilder::new().source(orders);
    let (builder, i) = builder.inner_join(items, |i| i.column("order_id").eq(o.column("id")));
    let (builder, n) = builder.cross_join("notes");
    let query = builder
        .select((o.column("id"), i.column("id"), n.column("id")))
        .build()
        .expect("renders");
    assert_eq!(
        query.sql(),
        "SELECT t1.id, t2.id, t3.id FROM orders as t1 JOIN items as t2 ON t2.order_id = t1.id \
         CROSS JOIN notes as t3;"
    );
}

#[test]
fn nullable_source_renders_as_before() {
    let table: TableName<'_, AnyDatabase> = TableName::new("table1");
    assert_eq!(&*table, "table1");
    assert_eq!(table.len(), 6);
    let handle = QuerySourceRef::new(table.clone(), SourceAlias::new(SourceAliasName::new("t"), 1));
    assert_eq!(handle.name, "table1");
    assert_eq!(handle.inner_ref().name, "table1");
    let before = rendered(&handle);
    assert_eq!(before, "table1 as t1");
    assert_eq!(rendered(&handle.clone().nullable()), before);
    assert_eq!(rendered(&table.clone().nullable()), "table1");
    assert_eq!(rendered(&"table1".into_query_source()), "table1");
    assert_eq!(rendered(&table.into_query_source()), "table1");
}

#[test]
fn outer_joins_differ_from_the_inner_join_in_the_keyword_alone() {
    let inner = {
        let (builder, t1) = EmptySelectBuilder::new().source("table1");
        let (builder, t2) = builder.inner_join("table2", |t2| t2.column("id").eq(t1.column("id")));
        builder
            .select((t1.column("c"), t2.column("c")))
            .build()
            .expect("renders")
    };
    let left = {
        let (builder, t1) = EmptySelectBuilder::new().source("table1");
        let (builder, t2) =
            builder.left_outer_join("table2", |t2| t2.column("id").eq(t1.column("id")));
        builder
            .select((t1.column("c"), t2.column("c")))
            .build()
            .expect("renders")
    };
    let right = {
        let (builder, t1) = EmptySelectBuilder::new().source("table1");
        let (builder, t2) =
            builder.right_outer_join("table2", |t2| t2.column("id").eq(t1.column("id")));
        builder
            .select((t1.column("c"), t2.column("c")))
            .build()
            .expect("renders")
    };
    assert_eq!(
        inner.sql(),
        "SELECT t1.c, t2.c FROM table1 as t1 JOIN table2 as t2 ON t2.id = t1.id;"
    );
    assert_eq!(left.sql(), inner.sql().replace(" JOIN ", " LEFT OUTER JOIN "));
    assert_eq!(right.sql(), inner.sql().replace(" JOIN ", " RIGHT OUTER JOIN "));
    assert_eq!(left.params(), inner.params());
    assert_eq!(right.params(), inner.params());
}
