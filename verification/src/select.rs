//! The builder of `select` statements.
use vstd::prelude::*;
use crate::decimal::{decimal, push_digits};
use crate::expression::{operand, BuildError, Expression, Operand};
use crate::join::{
    check_joins, join_views, joins_fault, joins_text, name_view, push_joins, Join, JoinType,
    JoinView,
};
use crate::predicate::{
    check_predicate, filled, predicate_fault, predicate_text, push_predicate, slot, vacant, word,
    Predicate,
};

verus! {

/// The mathematical content of a `select` statement under construction.
pub ghost struct SelectView {
    pub columns: Seq<Seq<char>>,
    pub table: Option<Operand>,
    pub joins: Seq<JoinView>,
    pub predicate: Predicate,
    pub offset: Option<u32>,
    pub limit: Option<u32>,
}

impl SelectView {
    /// A statement with the given columns and nothing else.
    pub open spec fn fresh(columns: Seq<Seq<char>>) -> SelectView {
        SelectView {
            columns,
            table: None,
            joins: Seq::empty(),
            predicate: vacant(),
            offset: None,
            limit: None,
        }
    }

    /// The statement with `table` in place of its table.
    pub open spec fn with_table(self, table: Operand) -> SelectView {
        SelectView { table: Some(table), ..self }
    }

    /// The statement with `column operator value` in place of its predicate.
    pub open spec fn with_predicate(
        self,
        column: Operand,
        operator: Seq<char>,
        value: Operand,
    ) -> SelectView {
        SelectView { predicate: filled(column, operator, value), ..self }
    }

    /// The statement with `n` in place of its offset.
    pub open spec fn with_offset(self, n: u32) -> SelectView {
        SelectView { offset: Some(n), ..self }
    }

    /// The statement with `n` in place of its limit.
    pub open spec fn with_limit(self, n: u32) -> SelectView {
        SelectView { limit: Some(n), ..self }
    }

    /// The statement with `join` after its joins.
    pub open spec fn with_join(self, join: JoinView) -> SelectView {
        SelectView { joins: self.joins.push(join), ..self }
    }
}

/// The texts of a list of column references, in order.
pub open spec fn names(columns: Seq<&str>) -> Seq<Seq<char>> {
    Seq::new(columns.len(), |i: int| columns[i]@)
}

/// The column list of a statement: the references as they are, separated by
/// a comma and a space.
pub open spec fn columns_text(columns: Seq<Seq<char>>) -> Seq<char>
    decreases columns.len(),
{
    if columns.len() == 0 {
        Seq::empty()
    } else if columns.len() == 1 {
        columns[0]
    } else {
        columns_text(columns.drop_last()) + ", "@ + columns.last()
    }
}

/// The ` offset <n>` part of a statement; empty without an offset.
pub open spec fn offset_text(offset: Option<u32>) -> Seq<char> {
    match offset {
        Some(n) => " offset "@ + decimal(n as int),
        None => Seq::empty(),
    }
}

/// The ` limit <n>` part of a statement; empty without a limit.
pub open spec fn limit_text(limit: Option<u32>) -> Seq<char> {
    match limit {
        Some(n) => " limit "@ + decimal(n as int),
        None => Seq::empty(),
    }
}

/// Why a `select` statement cannot be rendered: it has no table, or the
/// first fault among its table, its joins and its predicate, in that order.
pub open spec fn select_fault(v: SelectView) -> Option<BuildError> {
    if v.table is None {
        Some(BuildError::MissingTable)
    } else if v.table->0.fault is Some {
        v.table->0.fault
    } else if joins_fault(v.joins) is Some {
        joins_fault(v.joins)
    } else {
        predicate_fault(v.predicate)
    }
}

/// The text of the statement up to and including its table:
/// `(select <columns> from <table>`.
pub open spec fn select_head(v: SelectView) -> Seq<char> {
    "(select "@ + columns_text(v.columns) + " from "@ + v.table->0.text
}

/// The text of a `select` statement:
/// `(select <columns> from <table>[ <join>]...[ where ...][ offset <n>][ limit <n>])`.
pub open spec fn select_text(v: SelectView) -> Seq<char> {
    select_head(v) + joins_text(v.joins) + predicate_text(v.predicate) + offset_text(v.offset)
        + limit_text(v.limit) + ")"@
}

/// A `select` statement under construction.
pub struct Select<'a> {
    columns: &'a [&'a str],
    table: Option<&'a dyn Expression>,
    where_column: Option<&'a dyn Expression>,
    where_operator: Option<&'a str>,
    where_value: Option<&'a dyn Expression>,
    joins: Vec<Join<'a>>,
    limit: Option<u32>,
    offset: Option<u32>,
}

impl<'a> View for Select<'a> {
    type V = SelectView;

    closed spec fn view(&self) -> SelectView {
        SelectView {
            columns: names(self.columns@),
            table: slot(self.table),
            joins: join_views(self.joins@),
            predicate: Predicate {
                column: slot(self.where_column),
                operator: word(self.where_operator),
                value: slot(self.where_value),
            },
            offset: self.offset,
            limit: self.limit,
        }
    }
}

/// Starts a `select` statement on the given column references.
pub fn select<'a>(columns: &'a [&'a str]) -> (s: Select<'a>)
    ensures
        s@ == SelectView::fresh(names(columns@)),
{
    Select::new(columns)
}

impl<'a> Select<'a> {
    /// A statement with the given columns and nothing else: no table yet.
    pub fn new(columns: &'a [&'a str]) -> (s: Self)
        ensures
            s@ == SelectView::fresh(names(columns@)),
    {
        let s = Select {
            columns,
            table: None,
            where_column: None,
            where_operator: None,
            where_value: None,
            joins: Vec::new(),
            limit: None,
            offset: None,
        };
        assert(s@.joins =~= Seq::empty());
        s
    }

    /// Sets the table, in place of any earlier one.
    pub fn from(&mut self, table: &'a dyn Expression) -> (r: &mut Self)
        ensures
            r@ == old(self)@.with_table(operand(table)),
            *final(self) == *final(r),
    {
        let table = Some(table);
        self.table = table;
        self
    }

    /// Sets the limit, in place of any earlier one.
    pub fn limit(&mut self, limit: u32) -> (r: &mut Self)
        ensures
            r@ == old(self)@.with_limit(limit),
            *final(self) == *final(r),
    {
        self.limit = Some(limit);
        self
    }

    /// Sets the offset, in place of any earlier one.
    pub fn offset(&mut self, offset: u32) -> (r: &mut Self)
        ensures
            r@ == old(self)@.with_offset(offset),
            *final(self) == *final(r),
    {
        self.offset = Some(offset);
        self
    }

    /// Sets the predicate `column operator value`, in place of any earlier one.
    pub fn where_(
        &mut self,
        column: &'a dyn Expression,
        operator: &'a str,
        value: &'a dyn Expression,
    ) -> (r: &mut Self)
        ensures
            r@ == old(self)@.with_predicate(operand(column), operator@, operand(value)),
            *final(self) == *final(r),
    {
        let column = Some(column);
        let value = Some(value);
        self.where_column = column;
        self.where_operator = Some(operator);
        self.where_value = value;
        self
    }

    /// Begins a left join on `table`.
    pub fn left_join(&'a mut self, table: &'a dyn Expression) -> (r: JoinBuilder<'a>)
        ensures
            r@ == JoinBuilderView::begun(JoinType::Left, old(self)@, operand(table)),
    {
        let target = (table, None);
        JoinBuilder { kind: JoinType::Left, parent_query: self, target }
    }

    /// Begins a right join on `table`.
    pub fn right_join(&'a mut self, table: &'a dyn Expression) -> (r: JoinBuilder<'a>)
        ensures
            r@ == JoinBuilderView::begun(JoinType::Right, old(self)@, operand(table)),
    {
        let target = (table, None);
        JoinBuilder { kind: JoinType::Right, parent_query: self, target }
    }

    /// Begins an inner join on `table`.
    pub fn inner_join(&'a mut self, table: &'a dyn Expression) -> (r: JoinBuilder<'a>)
        ensures
            r@ == JoinBuilderView::begun(JoinType::Inner, old(self)@, operand(table)),
    {
        let target = (table, None);
        JoinBuilder { kind: JoinType::Inner, parent_query: self, target }
    }

    /// Appends a join clause after those already there.
    pub fn join(&mut self, join: Join<'a>)
        ensures
            final(self)@ == old(self)@.with_join(join@),
    {
        self.joins.push(join);
        assert(self@.joins =~= old(self)@.joins.push(join@));
    }
}

/// The mathematical content of a join that has been begun on a `select`
/// statement and has no predicate yet.
pub ghost struct JoinBuilderView {
    pub kind: JoinType,
    pub parent: SelectView,
    pub table: Operand,
    pub alias: Option<Seq<char>>,
}

impl JoinBuilderView {
    /// A join of the given kind just begun on `table`: it has no alias.
    pub open spec fn begun(kind: JoinType, parent: SelectView, table: Operand) -> JoinBuilderView {
        JoinBuilderView { kind, parent, table, alias: None }
    }

    /// The join with `alias` in place of its alias.
    pub open spec fn with_alias(self, alias: Seq<char>) -> JoinBuilderView {
        JoinBuilderView { alias: Some(alias), ..self }
    }

    /// The statement that the join is appended to when it gets the predicate
    /// `left operator right`.
    pub open spec fn joined(self, left: Operand, operator: Seq<char>, right: Operand) -> SelectView {
        self.parent.with_join(
            JoinView {
                kind: self.kind,
                table: self.table,
                alias: self.alias,
                left,
                operator,
                right,
            },
        )
    }
}

/// A join on a `select` statement between its beginning and its predicate.
pub struct JoinBuilder<'a> {
    kind: JoinType,
    parent_query: &'a mut Select<'a>,
    target: (&'a dyn Expression, Option<&'a str>),
}

impl<'a> View for JoinBuilder<'a> {
    type V = JoinBuilderView;

    closed spec fn view(&self) -> JoinBuilderView {
        JoinBuilderView {
            kind: self.kind,
            parent: self.parent_query@,
            table: operand(self.target.0),
            alias: name_view(self.target.1),
        }
    }
}

impl<'a> JoinBuilder<'a> {
    /// Gives the join its predicate and appends it to the statement, which
    /// is handed back for further calls.
    pub fn on(
        &'a mut self,
        left: &'a dyn Expression,
        operator: &'a str,
        right: &'a dyn Expression,
    ) -> (r: &'a mut Select<'a>)
        ensures
            r@ == old(self)@.joined(operand(left), operator@, operand(right)),
    {
        let predicate = (left, operator, right);
        let join = Join::new(self.kind, self.target, predicate);
        self.parent_query.join(join);
        self.parent_query
    }

    /// Names the joined table; a later name replaces an earlier one.
    pub fn as_(&'a mut self, alias: &'a str) -> (r: &'a mut Self)
        ensures
            r@ == old(self)@.with_alias(alias@),
            *final(self) == *final(r),
    {
        self.target.1 = Some(alias);
        self
    }
}

fn push_columns(buffer: &mut String, columns: &[&str])
    ensures
        final(buffer)@ == old(buffer)@ + columns_text(names(columns@)),
{
    let ghost all = names(columns@);
    let mut i: usize = 0;
    while i < columns.len()
        invariant
            i <= columns.len(),
            all == names(columns@),
            buffer@ == old(buffer)@ + columns_text(all.take(i as int)),
        decreases columns.len() - i,
    {
        proof {
            assert(all.take(i + 1).drop_last() =~= all.take(i as int));
        }
        if i > 0 {
            buffer.append(", ");
        }
        buffer.append(columns[i]);
        assert(buffer@ =~= old(buffer)@ + columns_text(all.take(i + 1)));
        i += 1;
    }
    proof {
        assert(all.take(i as int) =~= all);
    }
}

fn push_bound(buffer: &mut String, keyword: &str, bound: Option<u32>)
    ensures
        final(buffer)@ == old(buffer)@ + match bound {
            Some(n) => keyword@ + decimal(n as int),
            None => Seq::empty(),
        },
{
    if let Some(n) = bound {
        buffer.append(keyword);
        push_digits(buffer, n as u64);
        assert(buffer@ =~= old(buffer)@ + (keyword@ + decimal(n as int)));
    } else {
        assert(buffer@ =~= old(buffer)@ + Seq::<char>::empty());
    }
}

impl<'a> Expression for Select<'a> {
    open spec fn fault(&self) -> Option<BuildError> {
        select_fault(self@)
    }

    open spec fn text(&self) -> Seq<char> {
        select_text(self@)
    }

    fn check(&self) -> (r: Result<(), BuildError>) {
        match self.table {
            None => Err(BuildError::MissingTable),
            Some(table) => {
                table.check()?;
                check_joins(&self.joins)?;
                check_predicate(self.where_column, self.where_operator, self.where_value)
            },
        }
    }

    fn build(&self) -> (s: String) {
        let mut query = String::new();
        query.append("(select ");
        push_columns(&mut query, self.columns);
        query.append(" from ");
        let table = match self.table {
            Some(table) => table.build(),
            None => vstd::pervasive::unreached(),
        };
        query.append(table.as_str());
        assert(query@ =~= select_head(self@));
        push_joins(&mut query, &self.joins);
        push_predicate(&mut query, self.where_column, self.where_operator, self.where_value);
        push_bound(&mut query, " offset ", self.offset);
        push_bound(&mut query, " limit ", self.limit);
        query.append(")");
        assert(query@ =~= select_text(self@));
        query
    }
}

} // verus!
