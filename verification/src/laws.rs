//! What holds of every statement, proved from the definitions of the texts.
use vstd::prelude::*;
use crate::expression::{operand, Expression, Operand};
use crate::join::{join_text, joins_text, kind_word, JoinView};
use crate::predicate::{complete, partial, predicate_text};
use crate::select::{
    columns_text, limit_text, offset_text, select_head, select_text, Select, SelectView,
};
use crate::update::{
    assignment_text, assignments_text, update_text, Assignment, Update, UpdateView,
};

verus! {

/// `part` stands in `text` at position `at`.
pub open spec fn occurs_at(text: Seq<char>, part: Seq<char>, at: nat) -> bool {
    at + part.len() <= text.len() && text.subrange(at as int, (at + part.len()) as int) == part
}

/// Rendering is a function of the value: two renderings of one expression
/// are the same text.
pub proof fn law_build_is_deterministic<E: Expression + ?Sized>(
    e: &E,
    first: String,
    second: String,
)
    requires
        first@ == e.text(),
        second@ == e.text(),
    ensures
        first@ == second@,
{
}

/// The text of a `select` statement begins with `(select ` and ends with `)`.
pub proof fn law_select_is_parenthesized(q: &Select)
    ensures
        "(select "@.is_prefix_of(q.text()),
        ")"@.is_suffix_of(q.text()),
{
    reveal_strlit("(select ");
    reveal_strlit(")");
    let v = q@;
    let text = select_text(v);
    let inner = columns_text(v.columns) + " from "@ + v.table->0.text + joins_text(v.joins)
        + predicate_text(v.predicate) + offset_text(v.offset) + limit_text(v.limit);
    assert(text =~= "(select "@ + inner + ")"@);
    assert("(select "@ =~= text.subrange(0, 8));
    assert(")"@ =~= text.subrange(text.len() - 1, text.len() as int));
}

/// The text of an `update` statement begins with `(update ` and ends with `)`.
pub proof fn law_update_is_parenthesized(u: &Update)
    ensures
        "(update "@.is_prefix_of(u.text()),
        ")"@.is_suffix_of(u.text()),
{
    reveal_strlit("(update ");
    reveal_strlit(")");
    let v = u@;
    let text = update_text(v);
    let inner = v.table + joins_text(v.joins) + assignments_text(v.assignments) + predicate_text(
        v.predicate,
    );
    assert(text =~= "(update "@ + inner + ")"@);
    assert("(update "@ =~= text.subrange(0, 8));
    assert(")"@ =~= text.subrange(text.len() - 1, text.len() as int));
}

/// The column list stands right after `(select `, and ` from ` right after
/// the column list.
pub proof fn law_columns_between_select_and_from(v: SelectView)
    ensures
        occurs_at(select_text(v), columns_text(v.columns), "(select "@.len()),
        occurs_at(
            select_text(v),
            " from "@,
            "(select "@.len() + columns_text(v.columns).len(),
        ),
{
    let a = "(select "@;
    let c = columns_text(v.columns);
    let f = " from "@;
    let rest = v.table->0.text + joins_text(v.joins) + predicate_text(v.predicate) + offset_text(
        v.offset,
    ) + limit_text(v.limit) + ")"@;
    let text = select_text(v);
    assert(text =~= a + c + f + rest);
    assert(text.subrange(a.len() as int, (a.len() + c.len()) as int) =~= c);
    assert(text.subrange((a.len() + c.len()) as int, (a.len() + c.len() + f.len()) as int) =~= f);
}

/// The predicate, the offset and the limit stand in this order at the end of
/// a `select` statement, each right after the one before it, and only the
/// closing parenthesis follows the limit.
pub proof fn law_where_then_offset_then_limit(v: SelectView)
    ensures
        ({
            let at = select_head(v).len() + joins_text(v.joins).len();
            let w = predicate_text(v.predicate);
            let o = offset_text(v.offset);
            let l = limit_text(v.limit);
            &&& occurs_at(select_text(v), w, at)
            &&& occurs_at(select_text(v), o, at + w.len())
            &&& occurs_at(select_text(v), l, at + w.len() + o.len())
            &&& select_text(v).len() == at + w.len() + o.len() + l.len() + 1
        }),
        complete(v.predicate) ==> " where "@.is_prefix_of(predicate_text(v.predicate)),
        v.offset is Some ==> " offset "@.is_prefix_of(offset_text(v.offset)),
        v.limit is Some ==> " limit "@.is_prefix_of(limit_text(v.limit)),
{
    reveal_strlit(")");
    let h = select_head(v) + joins_text(v.joins);
    let w = predicate_text(v.predicate);
    let o = offset_text(v.offset);
    let l = limit_text(v.limit);
    let text = select_text(v);
    let at = h.len() as int;
    assert(text =~= h + w + o + l + ")"@);
    assert(text.subrange(at, at + w.len()) =~= w);
    assert(text.subrange(at + w.len(), at + w.len() + o.len()) =~= o);
    assert(text.subrange(at + w.len() + o.len(), at + w.len() + o.len() + l.len()) =~= l);
    if complete(v.predicate) {
        assert(" where "@ =~= w.subrange(0, " where "@.len() as int));
    }
    if v.offset is Some {
        assert(" offset "@ =~= o.subrange(0, " offset "@.len() as int));
    }
    if v.limit is Some {
        assert(" limit "@ =~= l.subrange(0, " limit "@.len() as int));
    }
}

/// The predicate, the offset and the limit of a `select` statement can be set
/// in any order: the statement is the same.
pub proof fn law_configuration_commutes(
    v: SelectView,
    column: Operand,
    operator: Seq<char>,
    value: Operand,
    offset: u32,
    limit: u32,
)
    ensures
        v.with_predicate(column, operator, value).with_offset(offset).with_limit(limit)
            == v.with_predicate(column, operator, value).with_limit(limit).with_offset(offset),
        v.with_predicate(column, operator, value).with_offset(offset).with_limit(limit)
            == v.with_offset(offset).with_predicate(column, operator, value).with_limit(limit),
        v.with_predicate(column, operator, value).with_offset(offset).with_limit(limit)
            == v.with_offset(offset).with_limit(limit).with_predicate(column, operator, value),
        v.with_predicate(column, operator, value).with_offset(offset).with_limit(limit)
            == v.with_limit(limit).with_predicate(column, operator, value).with_offset(offset),
        v.with_predicate(column, operator, value).with_offset(offset).with_limit(limit)
            == v.with_limit(limit).with_offset(offset).with_predicate(column, operator, value),
{
}

/// The table of a `select` statement stands in its text as it is, right
/// after ` from `.
pub proof fn law_table_is_inline(v: SelectView)
    requires
        v.table is Some,
    ensures
        occurs_at(
            select_text(v),
            v.table->0.text,
            "(select "@.len() + columns_text(v.columns).len() + " from "@.len(),
        ),
{
    let a = "(select "@ + columns_text(v.columns) + " from "@;
    let t = v.table->0.text;
    let rest = joins_text(v.joins) + predicate_text(v.predicate) + offset_text(v.offset)
        + limit_text(v.limit) + ")"@;
    let text = select_text(v);
    assert(text =~= a + t + rest);
    assert(text.subrange(a.len() as int, (a.len() + t.len()) as int) =~= t);
}

/// A `select` statement that is the table of another stands in the text of
/// that other with its own full text, parentheses included and unquoted.
pub proof fn law_nested_select_is_inline(outer: &Select, inner: &Select)
    requires
        outer@.table == Some(operand(inner)),
    ensures
        occurs_at(
            outer.text(),
            inner.text(),
            "(select "@.len() + columns_text(outer@.columns).len() + " from "@.len(),
        ),
        "(select "@.is_prefix_of(inner.text()),
        ")"@.is_suffix_of(inner.text()),
{
    law_table_is_inline(outer@);
    law_select_is_parenthesized(inner);
}

/// The table of a join clause stands in the text of the clause as it is,
/// right after `<kind> join `.
pub proof fn law_join_target_is_inline(j: JoinView)
    ensures
        occurs_at(join_text(j), j.table.text, kind_word(j.kind).len() + " join "@.len()),
{
    let a = kind_word(j.kind) + " join "@;
    let t = j.table.text;
    let text = join_text(j);
    assert(text =~= a + t + (text.subrange((a.len() + t.len()) as int, text.len() as int)));
    assert(text.subrange(a.len() as int, (a.len() + t.len()) as int) =~= t);
}

/// Each join clause of a `select` statement stands in its text as it is.
pub proof fn law_join_is_inline(v: SelectView, i: int)
    requires
        0 <= i < v.joins.len(),
    ensures
        occurs_at(
            select_text(v),
            join_text(v.joins[i]),
            select_head(v).len() + joins_text(v.joins.take(i)).len() + " "@.len(),
        ),
{
    lemma_joins_text_split(v.joins, i);
    let a = select_head(v) + joins_text(v.joins.take(i)) + " "@;
    let t = join_text(v.joins[i]);
    let text = select_text(v);
    let after = joins_text(v.joins).subrange(
        (joins_text(v.joins.take(i)).len() + 1 + t.len()) as int,
        joins_text(v.joins).len() as int,
    );
    reveal_strlit(" ");
    assert(joins_text(v.joins) =~= joins_text(v.joins.take(i)) + " "@ + t + after);
    let rest = after + predicate_text(v.predicate) + offset_text(v.offset) + limit_text(v.limit)
        + ")"@;
    assert(text =~= a + t + rest);
    assert(text.subrange(a.len() as int, (a.len() + t.len()) as int) =~= t);
}

/// The text of a list of join clauses begins with the text of its first `i`
/// clauses, a space and the text of the clause after them.
proof fn lemma_joins_text_split(joins: Seq<JoinView>, i: int)
    requires
        0 <= i < joins.len(),
    ensures
        (joins_text(joins.take(i)) + " "@ + join_text(joins[i])).is_prefix_of(joins_text(joins)),
    decreases joins.len(),
{
    let part = joins_text(joins.take(i)) + " "@ + join_text(joins[i]);
    if i == joins.len() - 1 {
        assert(joins.take(i) =~= joins.drop_last());
        assert(part =~= joins_text(joins).subrange(0, part.len() as int));
    } else {
        lemma_joins_text_split(joins.drop_last(), i);
        assert(joins.drop_last().take(i) =~= joins.take(i));
        let shorter = joins_text(joins.drop_last());
        assert(part =~= shorter.subrange(0, part.len() as int));
        assert(shorter =~= joins_text(joins).subrange(0, shorter.len() as int));
        assert(part =~= joins_text(joins).subrange(0, part.len() as int));
    }
}

/// A column added to a list stands after the others, with a comma and a
/// space before it unless it is the first.
pub proof fn law_columns_append(columns: Seq<Seq<char>>, column: Seq<char>)
    ensures
        columns_text(columns.push(column)) == if columns.len() == 0 {
            column
        } else {
            columns_text(columns) + ", "@ + column
        },
{
    assert(columns.push(column).drop_last() =~= columns);
}

/// A join clause added to a list stands after the others, with a space
/// before it.
pub proof fn law_joins_append(joins: Seq<JoinView>, join: JoinView)
    ensures
        joins_text(joins.push(join)) == joins_text(joins) + " "@ + join_text(join),
{
    assert(joins.push(join).drop_last() =~= joins);
}

/// A `set` clause added to a list stands after the others: after a space
/// when it is the first, after a comma and a space when it is not, and with
/// its own `set` either way.
pub proof fn law_assignments_append(list: Seq<Assignment>, a: Assignment)
    ensures
        assignments_text(list.push(a)) == if list.len() == 0 {
            " "@ + assignment_text(a)
        } else {
            assignments_text(list) + ", "@ + assignment_text(a)
        },
        "set "@.is_prefix_of(assignment_text(a)),
{
    assert(list.push(a).drop_last() =~= list);
    assert("set "@ =~= assignment_text(a).subrange(0, "set "@.len() as int));
}

/// No call leaves the predicate of a `select` statement partly set: a new
/// statement has none, and every change of a statement keeps a predicate that
/// is not partial so.
pub proof fn law_select_predicate_is_never_partial(
    v: SelectView,
    columns: Seq<Seq<char>>,
    a: Operand,
    operator: Seq<char>,
    b: Operand,
    n: u32,
    join: JoinView,
)
    requires
        !partial(v.predicate),
    ensures
        !partial(SelectView::fresh(columns).predicate),
        !partial(v.with_table(a).predicate),
        !partial(v.with_predicate(a, operator, b).predicate),
        !partial(v.with_offset(n).predicate),
        !partial(v.with_limit(n).predicate),
        !partial(v.with_join(join).predicate),
{
}

/// No call leaves the predicate of an `update` statement partly set.
pub proof fn law_update_predicate_is_never_partial(
    v: UpdateView,
    table: Seq<char>,
    a: Operand,
    operator: Seq<char>,
    b: Operand,
    join: JoinView,
)
    requires
        !partial(v.predicate),
    ensures
        !partial(UpdateView::fresh(table).predicate),
        !partial(v.with_predicate(a, operator, b).predicate),
        !partial(v.with_assignment(operator, a).predicate),
        !partial(v.with_join(join).predicate),
{
}

} // verus!
