use sql_builder::expression::{try_build, BuildError, Expression};
use sql_builder::join::{check_joins, push_joins, Join, JoinType};
use sql_builder::predicate::{check_predicate, push_predicate};
use sql_builder::select::Select;
use sql_builder::{select, update};

#[test]
fn select_is_parenthesized() {
    let texts = vec![
        select(&["a"]).from(&"t").build(),
        select(&[]).from(&1).build(),
        select(&["a", "b"]).from(&"t").limit(1).offset(2).build(),
        select(&["a"])
            .from(&"t")
            .inner_join(&"u")
            .on(&"u.id", "=", &"t.id")
            .where_(&"a", "<>", &true)
            .build(),
    ];
    for text in texts {
        assert!(text.starts_with("(select "));
        assert!(text.ends_with(")"));
    }
}

#[test]
fn select_build_is_repeatable() {
    let mut query = select(&["a", "b"]);
    query.from(&"t");
    query.where_(&"a", "=", &1);
    query.limit(3);
    let first = query.build();
    let second = query.build();
    assert_eq!(first, second);
    assert_eq!(first, r#"(select a, b from "t" where "a" = 1 limit 3)"#);
}

#[test]
fn columns_are_joined_with_comma_and_space() {
    let text = select(&["a", "b", "c"]).from(&"t").build();
    assert_eq!(text, r#"(select a, b, c from "t")"#);
    let from = text.find(" from").unwrap();
    assert_eq!(&text["(select ".len()..from], "a, b, c");
}

#[test]
fn single_column_has_no_comma() {
    assert_eq!(select(&["a"]).from(&"t").build(), r#"(select a from "t")"#);
}

#[test]
fn no_columns_leaves_the_list_empty() {
    assert_eq!(select(&[]).from(&"t").build(), r#"(select  from "t")"#);
}

#[test]
fn columns_are_not_quoted() {
    assert_eq!(
        select(&["count(*)", "t.\"x\""]).from(&"t").build(),
        r#"(select count(*), t."x" from "t")"#
    );
}

#[test]
fn where_then_offset_then_limit_in_any_call_order() {
    let expected = r#"(select a from "t" where "a" > 5 offset 20 limit 10)"#;
    assert_eq!(
        select(&["a"]).from(&"t").where_(&"a", ">", &5).offset(20).limit(10).build(),
        expected
    );
    assert_eq!(
        select(&["a"]).from(&"t").where_(&"a", ">", &5).limit(10).offset(20).build(),
        expected
    );
    assert_eq!(
        select(&["a"]).from(&"t").offset(20).where_(&"a", ">", &5).limit(10).build(),
        expected
    );
    assert_eq!(
        select(&["a"]).from(&"t").offset(20).limit(10).where_(&"a", ">", &5).build(),
        expected
    );
    assert_eq!(
        select(&["a"]).from(&"t").limit(10).where_(&"a", ">", &5).offset(20).build(),
        expected
    );
    assert_eq!(
        select(&["a"]).limit(10).offset(20).where_(&"a", ">", &5).from(&"t").build(),
        expected
    );
}

#[test]
fn offset_comes_before_limit() {
    assert_eq!(
        select(&["id"]).from(&"user").limit(10).offset(5).build(),
        r#"(select id from "user" offset 5 limit 10)"#
    );
}

#[test]
fn bounds_of_zero_and_of_the_largest_value() {
    assert_eq!(
        select(&["id"]).from(&"user").offset(0).limit(0).build(),
        r#"(select id from "user" offset 0 limit 0)"#
    );
    assert_eq!(
        select(&["id"]).from(&"user").offset(u32::MAX).limit(u32::MAX).build(),
        r#"(select id from "user" offset 4294967295 limit 4294967295)"#
    );
}

#[test]
fn later_calls_replace_earlier_ones() {
    assert_eq!(
        select(&["a"]).from(&"t").from(&"u").build(),
        r#"(select a from "u")"#
    );
    assert_eq!(
        select(&["a"])
            .from(&"t")
            .where_(&"a", "=", &1)
            .where_(&"b", "<", &2)
            .build(),
        r#"(select a from "t" where "b" < 2)"#
    );
    assert_eq!(
        select(&["a"]).from(&"t").limit(1).limit(2).offset(3).offset(4).build(),
        r#"(select a from "t" offset 4 limit 2)"#
    );
}

#[test]
fn operator_is_inserted_as_it_is() {
    assert_eq!(
        select(&["a"]).from(&"t").where_(&"a", "is not", &false).build(),
        r#"(select a from "t" where "a" is not false)"#
    );
    assert_eq!(
        select(&["a"]).from(&"t").where_(&"a", "", &1).build(),
        r#"(select a from "t" where "a"  1)"#
    );
}

#[test]
fn joins_keep_their_call_order_and_come_before_where() {
    assert_eq!(
        select(&["*"])
            .from(&"a")
            .where_(&"a.x", "=", &1)
            .left_join(&"b")
            .on(&"b.id", "=", &"a.id")
            .right_join(&"c")
            .as_("sea")
            .on(&"sea.id", "=", &"b.id")
            .inner_join(&"d")
            .on(&"d.id", "<", &7u64)
            .limit(1)
            .build(),
        r#"(select * from "a" left join "b" on "b.id" = "a.id" right join "c" as sea on "sea.id" = "b.id" inner join "d" on "d.id" < 7 where "a.x" = 1 limit 1)"#
    );
}

#[test]
fn a_later_alias_replaces_an_earlier_one() {
    assert_eq!(
        select(&["*"])
            .from(&"a")
            .left_join(&"b")
            .as_("x")
            .as_("y")
            .on(&1, "=", &1)
            .build(),
        r#"(select * from "a" left join "b" as y on 1 = 1)"#
    );
}

#[test]
fn nested_select_is_rendered_inline() {
    let mut inner = select(&["id"]);
    inner.from(&"user").where_(&"age", ">", &17).offset(1).limit(2);
    let inner_text = inner.build();
    assert_eq!(
        inner_text,
        r#"(select id from "user" where "age" > 17 offset 1 limit 2)"#
    );

    let as_table = select(&["*"]).from(&inner).build();
    assert_eq!(as_table, format!("(select * from {})", inner_text));

    let as_join_target = select(&["*"])
        .from(&"t")
        .inner_join(&inner)
        .as_("u")
        .on(&"u.id", "=", &"t.id")
        .build();
    assert_eq!(
        as_join_target,
        format!(
            r#"(select * from "t" inner join {} as u on "u.id" = "t.id")"#,
            inner_text
        )
    );

    let as_value = select(&["*"]).from(&"t").where_(&"id", "in", &inner).build();
    assert_eq!(
        as_value,
        format!(r#"(select * from "t" where "id" in {})"#, inner_text)
    );
}

#[test]
fn selects_nest_to_any_depth() {
    let mut one = select(&["a"]);
    one.from(&"t");
    let mut two = select(&["b"]);
    two.from(&one);
    let mut three = select(&["c"]);
    three.from(&two);
    assert_eq!(
        three.build(),
        r#"(select c from (select b from (select a from "t")))"#
    );
}

#[test]
fn select_without_table_is_rejected() {
    let query = select(&["x"]);
    assert_eq!(query.check(), Err(BuildError::MissingTable));
    assert_eq!(try_build(&query), Err(BuildError::MissingTable));

    let mut configured = Select::new(&["x"]);
    configured.where_(&"x", "=", &1).limit(1).offset(2);
    assert_eq!(try_build(&configured), Err(BuildError::MissingTable));
}

#[test]
fn select_with_table_is_accepted() {
    let mut query = select(&["x"]);
    query.from(&"t");
    assert_eq!(query.check(), Ok(()));
    assert_eq!(
        try_build(&query),
        Ok(String::from(r#"(select x from "t")"#))
    );
}

#[test]
fn a_fault_inside_is_the_fault_of_the_whole() {
    let broken = select(&["x"]);

    let mut as_table = select(&["*"]);
    as_table.from(&broken);
    assert_eq!(try_build(&as_table), Err(BuildError::MissingTable));

    let mut as_value = select(&["*"]);
    as_value.from(&"t").where_(&"x", "in", &broken);
    assert_eq!(try_build(&as_value), Err(BuildError::MissingTable));

    let mut as_column = select(&["*"]);
    as_column.from(&"t").where_(&broken, "=", &1);
    assert_eq!(try_build(&as_column), Err(BuildError::MissingTable));

    assert_eq!(
        select(&["*"])
            .from(&"t")
            .left_join(&broken)
            .on(&1, "=", &1)
            .check(),
        Err(BuildError::MissingTable)
    );
    assert_eq!(
        select(&["*"])
            .from(&"t")
            .left_join(&"u")
            .on(&broken, "=", &1)
            .check(),
        Err(BuildError::MissingTable)
    );
    assert_eq!(
        select(&["*"])
            .from(&"t")
            .left_join(&"u")
            .on(&1, "=", &broken)
            .check(),
        Err(BuildError::MissingTable)
    );
    assert_eq!(
        update("t").set("x", &broken).check(),
        Err(BuildError::MissingTable)
    );
}

#[test]
fn a_partly_set_predicate_is_rejected() {
    let column: &dyn Expression = &"a";
    let value: &dyn Expression = &1;
    assert_eq!(
        check_predicate(Some(column), None, None),
        Err(BuildError::PartialWhere)
    );
    assert_eq!(
        check_predicate(None, Some("="), None),
        Err(BuildError::PartialWhere)
    );
    assert_eq!(
        check_predicate(None, None, Some(value)),
        Err(BuildError::PartialWhere)
    );
    assert_eq!(
        check_predicate(Some(column), Some("="), None),
        Err(BuildError::PartialWhere)
    );
    assert_eq!(
        check_predicate(Some(column), None, Some(value)),
        Err(BuildError::PartialWhere)
    );
    assert_eq!(
        check_predicate(None, Some("="), Some(value)),
        Err(BuildError::PartialWhere)
    );
}

#[test]
fn a_whole_predicate_and_none_are_accepted() {
    let column: &dyn Expression = &"a";
    let value: &dyn Expression = &1;
    assert_eq!(check_predicate(None, None, None), Ok(()));
    assert_eq!(check_predicate(Some(column), Some("="), Some(value)), Ok(()));

    let mut buffer = String::from("x");
    push_predicate(&mut buffer, None, None, None);
    assert_eq!(buffer, "x");
    push_predicate(&mut buffer, Some(column), Some("="), Some(value));
    assert_eq!(buffer, r#"x where "a" = 1"#);
}

#[test]
fn a_predicate_with_a_faulty_expression_is_rejected() {
    let broken = select(&["x"]);
    let column: &dyn Expression = &"a";
    assert_eq!(
        check_predicate(Some(column), Some("="), Some(&broken)),
        Err(BuildError::MissingTable)
    );
    assert_eq!(
        check_predicate(Some(&broken), Some("="), Some(column)),
        Err(BuildError::MissingTable)
    );
}

#[test]
fn join_clauses_render_alone() {
    let plain = Join::new(JoinType::Left, (&"address", None), (&"address.id", "=", &3));
    assert_eq!(plain.build(), r#"left join "address" on "address.id" = 3"#);
    assert_eq!(plain.check(), Ok(()));

    let named = Join::new(
        JoinType::Right,
        (&"address", Some("a")),
        (&"a.id", "<=", &-3i64),
    );
    assert_eq!(named.build(), r#"right join "address" as a on "a.id" <= -3"#);

    let inner = Join::new(JoinType::Inner, (&true, Some("")), (&false, "", &true));
    assert_eq!(inner.build(), "inner join true as  on false  true");
}

#[test]
fn lists_of_join_clauses() {
    let mut joins = Vec::new();
    let mut buffer = String::from("x");
    assert_eq!(check_joins(&joins), Ok(()));
    push_joins(&mut buffer, &joins);
    assert_eq!(buffer, "x");

    joins.push(Join::new(JoinType::Left, (&"a", None), (&1, "=", &2)));
    joins.push(Join::new(JoinType::Inner, (&"b", Some("c")), (&3, "<", &4)));
    assert_eq!(check_joins(&joins), Ok(()));
    push_joins(&mut buffer, &joins);
    assert_eq!(
        buffer,
        r#"x left join "a" on 1 = 2 inner join "b" as c on 3 < 4"#
    );

    let broken = select(&["x"]);
    joins.push(Join::new(JoinType::Right, (&broken, None), (&1, "=", &2)));
    assert_eq!(check_joins(&joins), Err(BuildError::MissingTable));
}

#[test]
fn joins_can_be_appended_directly() {
    let mut query = select(&["*"]);
    query.from(&"t");
    query.join(Join::new(JoinType::Left, (&"a", None), (&1, "=", &2)));
    query.join(Join::new(JoinType::Right, (&"b", None), (&3, "=", &4)));
    assert_eq!(
        query.build(),
        r#"(select * from "t" left join "a" on 1 = 2 right join "b" on 3 = 4)"#
    );
}

#[test]
fn join_kinds_have_their_words() {
    assert_eq!(JoinType::Left.word(), "left");
    assert_eq!(JoinType::Right.word(), "right");
    assert_eq!(JoinType::Inner.word(), "inner");
}
