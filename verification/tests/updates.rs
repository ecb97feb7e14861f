use sql_builder::expression::{try_build, Expression};
use sql_builder::join::{Join, JoinType};
use sql_builder::update::Update;
use sql_builder::{select, update};

#[test]
fn every_set_clause_repeats_the_keyword() {
    assert_eq!(
        update("t").set("x", &1).set("y", &2).build(),
        "(update t set x = 1, set y = 2)"
    );
}

#[test]
fn update_without_set_clauses() {
    assert_eq!(update("t").build(), "(update t)");
    assert_eq!(
        update("t").where_(&"id", "=", &1).build(),
        r#"(update t where "id" = 1)"#
    );
}

#[test]
fn update_table_is_not_quoted() {
    assert_eq!(
        update("my table").set("x", &"y").build(),
        r#"(update my table set x = "y")"#
    );
    assert_eq!(update("").build(), "(update )");
}

#[test]
fn repeated_columns_are_all_kept_in_call_order() {
    assert_eq!(
        update("t")
            .set("x", &1)
            .set("x", &2)
            .set("a", &true)
            .set("x", &1)
            .build(),
        "(update t set x = 1, set x = 2, set a = true, set x = 1)"
    );
}

#[test]
fn update_where_is_replaced_by_a_later_one() {
    assert_eq!(
        update("t")
            .where_(&"a", "=", &1)
            .where_(&"b", ">=", &-2)
            .build(),
        r#"(update t where "b" >= -2)"#
    );
}

#[test]
fn update_joins_come_before_set_and_where() {
    assert_eq!(
        update("t")
            .where_(&"t.id", "=", &9u32)
            .left_join(&"a")
            .on(&"a.id", "=", &"t.id")
            .right_join(&"b")
            .as_("bee")
            .on(&"bee.id", "=", &"a.id")
            .set("t.x", &"y")
            .build(),
        r#"(update t left join "a" on "a.id" = "t.id" right join "b" as bee on "bee.id" = "a.id" set t.x = "y" where "t.id" = 9)"#
    );
}

#[test]
fn update_is_parenthesized() {
    let texts = vec![
        update("t").build(),
        update("t").set("x", &1).build(),
        update("t")
            .inner_join(&"u")
            .on(&1, "=", &1)
            .set("x", &1)
            .where_(&"x", "=", &2)
            .build(),
    ];
    for text in texts {
        assert!(text.starts_with("(update "));
        assert!(text.ends_with(")"));
    }
}

#[test]
fn update_build_is_repeatable() {
    let mut statement = Update::new("t");
    statement.where_(&"id", "=", &1);
    let first = statement.build();
    let second = statement.build();
    assert_eq!(first, second);
    assert_eq!(first, r#"(update t where "id" = 1)"#);
}

#[test]
fn update_is_always_accepted_when_its_parts_are() {
    let mut statement = update("t");
    statement.where_(&"id", "=", &1);
    assert_eq!(statement.check(), Ok(()));
    assert_eq!(
        try_build(&statement),
        Ok(String::from(r#"(update t where "id" = 1)"#))
    );
    assert_eq!(update("t").check(), Ok(()));
}

#[test]
fn a_select_can_be_a_value_of_an_update() {
    let mut newest = select(&["max(id)"]);
    newest.from(&"log");
    assert_eq!(
        update("t").set("last", &newest).build(),
        r#"(update t set last = (select max(id) from "log"))"#
    );
}

#[test]
fn an_update_is_an_expression() {
    let mut inner = update("t");
    inner.where_(&"id", "=", &1);
    assert_eq!(
        select(&["*"]).from(&inner).build(),
        r#"(select * from (update t where "id" = 1))"#
    );
}

#[test]
fn joins_can_be_appended_to_an_update_directly() {
    let mut statement = update("t");
    statement.join(Join::new(JoinType::Inner, (&"a", Some("b")), (&1, "=", &2)));
    assert_eq!(
        statement.build(),
        r#"(update t inner join "a" as b on 1 = 2)"#
    );
}
