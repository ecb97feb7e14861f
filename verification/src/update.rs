//! The builder of `update` statements.
use vstd::prelude::*;
use crate::expression::{operand, BuildError, Expression, Operand};
use crate::join::{
    check_joins, join_views, joins_fault, joins_text, name_view, push_joins, Join, JoinType,
    JoinView,
};
use crate::predicate::{
    check_predicate, filled, predicate_fault, predicate_text, push_predicate, slot, vacant, word,
    Predicate,
};

verus! {

/// The mathematical content of one `set` clause: a column and its new value.
pub ghost struct Assignment {
    pub column: Seq<char>,
    pub value: Operand,
}

/// The mathematical content of an `update` statement under construction.
pub ghost struct UpdateView {
    pub table: Seq<char>,
    pub joins: Seq<JoinView>,
    pub assignments: Seq<Assignment>,
    pub predicate: Predicate,
}

impl UpdateView {
    /// A statement on the named table and nothing else.
    pub open spec fn fresh(table: Seq<char>) -> UpdateView {
        UpdateView { table, joins: Seq::empty(), assignments: Seq::empty(), predicate: vacant() }
    }

    /// The statement with `column operator value` in place of its predicate.
    pub open spec fn with_predicate(
        self,
        column: Operand,
        operator: Seq<char>,
        value: Operand,
    ) -> UpdateView {
        UpdateView { predicate: filled(column, operator, value), ..self }
    }

    /// The statement with `join` after its joins.
    pub open spec fn with_join(self, join: JoinView) -> UpdateView {
        UpdateView { joins: self.joins.push(join), ..self }
    }

    /// The statement with the clause `set column = value` after its `set`
    /// clauses.
    pub open spec fn with_assignment(self, column: Seq<char>, value: Operand) -> UpdateView {
        UpdateView { assignments: self.assignments.push(Assignment { column, value }), ..self }
    }
}

/// The content of one stored `set` clause.
pub open spec fn assignment(clause: (&str, &dyn Expression)) -> Assignment {
    Assignment { column: clause.0@, value: operand(clause.1) }
}

/// The contents of a list of stored `set` clauses, in order.
pub open spec fn assignments(clauses: Seq<(&str, &dyn Expression)>) -> Seq<Assignment> {
    Seq::new(clauses.len(), |i: int| assignment(clauses[i]))
}

/// The first fault among the values of a list of `set` clauses, in order.
pub open spec fn assignments_fault(list: Seq<Assignment>) -> Option<BuildError>
    decreases list.len(),
{
    if list.len() == 0 {
        None
    } else if assignments_fault(list.drop_last()) is Some {
        assignments_fault(list.drop_last())
    } else {
        list.last().value.fault
    }
}

/// The text of one `set` clause without what precedes it:
/// `set <column> = <value>`.
pub open spec fn assignment_text(a: Assignment) -> Seq<char> {
    "set "@ + a.column + " = "@ + a.value.text
}

/// The text of a list of `set` clauses: the first preceded by a space, each
/// later one by a comma and a space, and every one with its own `set`.
pub open spec fn assignments_text(list: Seq<Assignment>) -> Seq<char>
    decreases list.len(),
{
    if list.len() == 0 {
        Seq::empty()
    } else if list.len() == 1 {
        " "@ + assignment_text(list[0])
    } else {
        assignments_text(list.drop_last()) + ", "@ + assignment_text(list.last())
    }
}

/// Why an `update` statement cannot be rendered: the first fault among its
/// joins, its `set` clauses and its predicate, in that order.
pub open spec fn update_fault(v: UpdateView) -> Option<BuildError> {
    if joins_fault(v.joins) is Some {
        joins_fault(v.joins)
    } else if assignments_fault(v.assignments) is Some {
        assignments_fault(v.assignments)
    } else {
        predicate_fault(v.predicate)
    }
}

/// The text of an `update` statement:
/// `(update <table>[ <join>]...[ set <column> = <value>[, set ...]...][ where ...])`.
pub open spec fn update_text(v: UpdateView) -> Seq<char> {
    "(update "@ + v.table + joins_text(v.joins) + assignments_text(v.assignments)
        + predicate_text(v.predicate) + ")"@
}

/// An `update` statement under construction.
pub struct Update<'a> {
    table: &'a str,
    where_column: Option<&'a dyn Expression>,
    where_operator: Option<&'a str>,
    where_value: Option<&'a dyn Expression>,
    joins: Vec<Join<'a>>,
    set_clauses: Vec<(&'a str, &'a dyn Expression)>,
}

impl<'a> View for Update<'a> {
    type V = UpdateView;

    closed spec fn view(&self) -> UpdateView {
        UpdateView {
            table: self.table@,
            joins: join_views(self.joins@),
            assignments: assignments(self.set_clauses@),
            predicate: Predicate {
                column: slot(self.where_column),
                operator: word(self.where_operator),
                value: slot(self.where_value),
            },
        }
    }
}

/// Starts an `update` statement on the named table.
pub fn update<'a>(table: &'a str) -> (u: Update<'a>)
    ensures
        u@ == UpdateView::fresh(table@),
{
    Update::new(table)
}

impl<'a> Update<'a> {
    /// A statement on the named table and nothing else.
    pub fn new(table: &'a str) -> (u: Self)
        ensures
            u@ == UpdateView::fresh(table@),
    {
        let u = Update {
            table,
            where_column: None,
            where_operator: None,
            where_value: None,
            joins: Vec::new(),
            set_clauses: Vec::new(),
        };
        assert(u@.joins =~= Seq::empty());
        assert(u@.assignments =~= Seq::empty());
        u
    }

    /// Sets the predicate `column operator value`, in place of any earlier one.
    pub fn where_(
        &mut self,
        column: &'a dyn Expression,
        operator: &'a str,
        value: &'a dyn Expression,
    ) -> (r: &mut Self)
        ensures
            r@ == old(self)@.with_predicate(operand(column), operator@, operand(value)),
            *final(self) == *final(r),
    {
        let column = Some(column);
        let value = Some(value);
        self.where_column = column;
        self.where_operator = Some(operator);
        self.where_value = value;
        self
    }

    /// Begins a left join on `table`.
    pub fn left_join(&'a mut self, table: &'a dyn Expression) -> (r: JoinBuilder<'a>)
        ensures
            r@ == JoinBuilderView::begun(JoinType::Left, old(self)@, operand(table)),
    {
        let target = (table, None);
        JoinBuilder { kind: JoinType::Left, parent_query: self, target }
    }

    /// Begins a right join on `table`.
    pub fn right_join(&'a mut self, table: &'a dyn Expression) -> (r: JoinBuilder<'a>)
        ensures
            r@ == JoinBuilderView::begun(JoinType::Right, old(self)@, operand(table)),
    {
        let target = (table, None);
        JoinBuilder { kind: JoinType::Right, parent_query: self, target }
    }

    /// Begins an inner join on `table`.
    pub fn inner_join(&'a mut self, table: &'a dyn Expression) -> (r: JoinBuilder<'a>)
        ensures
            r@ == JoinBuilderView::begun(JoinType::Inner, old(self)@, operand(table)),
    {
        let target = (table, None);
        JoinBuilder { kind: JoinType::Inner, parent_query: self, target }
    }

    /// Appends a join clause after those already there.
    pub fn join(&mut self, join: Join<'a>)
        ensures
            final(self)@ == old(self)@.with_join(join@),
    {
        self.joins.push(join);
        assert(self@.joins =~= old(self)@.joins.push(join@));
    }

    /// Appends a `set` clause after those already there; a column may occur
    /// more than once.
    pub fn set(&'a mut self, column: &'a str, value: &'a dyn Expression) -> (r: &'a mut Self)
        ensures
            r@ == old(self)@.with_assignment(column@, operand(value)),
            *final(self) == *final(r),
    {
        let clause = (column, value);
        self.set_clauses.push(clause);
        assert(self@.assignments =~= old(self)@.assignments.push(
            Assignment { column: column@, value: operand(value) },
        ));
        self
    }
}

/// The mathematical content of a join that has been begun on an `update`
/// statement and has no predicate yet.
pub ghost struct JoinBuilderView {
    pub kind: JoinType,
    pub parent: UpdateView,
    pub table: Operand,
    pub alias: Option<Seq<char>>,
}

impl JoinBuilderView {
    /// A join of the given kind just begun on `table`: it has no alias.
    pub open spec fn begun(kind: JoinType, parent: UpdateView, table: Operand) -> JoinBuilderView {
        JoinBuilderView { kind, parent, table, alias: None }
    }

    /// The join with `alias` in place of its alias.
    pub open spec fn with_alias(self, alias: Seq<char>) -> JoinBuilderView {
        JoinBuilderView { alias: Some(alias), ..self }
    }

    /// The statement that the join is appended to when it gets the predicate
    /// `left operator right`.
    pub open spec fn joined(self, left: Operand, operator: Seq<char>, right: Operand) -> UpdateView {
        self.parent.with_join(
            JoinView {
                kind: self.kind,
                table: self.table,
                alias: self.alias,
                left,
                operator,
                right,
            },
        )
    }
}

/// A join on an `update` statement between its beginning and its predicate.
pub struct JoinBuilder<'a> {
    kind: JoinType,
    parent_query: &'a mut Update<'a>,
    target: (&'a dyn Expression, Option<&'a str>),
}

impl<'a> View for JoinBuilder<'a> {
    type V = JoinBuilderView;

    closed spec fn view(&self) -> JoinBuilderView {
        JoinBuilderView {
            kind: self.kind,
            parent: self.parent_query@,
            table: operand(self.target.0),
            alias: name_view(self.target.1),
        }
    }
}

impl<'a> JoinBuilder<'a> {
    /// Gives the join its predicate and appends it to the statement, which
    /// is handed back for further calls.
    pub fn on(
        &'a mut self,
        left: &'a dyn Expression,
        operator: &'a str,
        right: &'a dyn Expression,
    ) -> (r: &'a mut Update<'a>)
        ensures
            r@ == old(self)@.joined(operand(left), operator@, operand(right)),
    {
        let predicate = (left, operator, right);
        let join = Join::new(self.kind, self.target, predicate);
        self.parent_query.join(join);
        self.parent_query
    }

    /// Names the joined table; a later name replaces an earlier one.
    pub fn as_(&'a mut self, alias: &'a str) -> (r: &'a mut Self)
        ensures
            r@ == old(self)@.with_alias(alias@),
            *final(self) == *final(r),
    {
        self.target.1 = Some(alias);
        self
    }
}

/// A fault among the first `n` clauses is the fault of the whole list.
proof fn lemma_assignments_fault_prefix(list: Seq<Assignment>, n: int)
    requires
        0 <= n <= list.len(),
        assignments_fault(list.take(n)) is Some,
    ensures
        assignments_fault(list) == assignments_fault(list.take(n)),
    decreases list.len() - n,
{
    if n < list.len() {
        assert(list.take(n + 1).drop_last() =~= list.take(n));
        lemma_assignments_fault_prefix(list, n + 1);
    } else {
        assert(list.take(n) =~= list);
    }
}

/// In a list without fault no value has one.
proof fn lemma_assignments_fault_none(list: Seq<Assignment>, i: int)
    requires
        assignments_fault(list) is None,
        0 <= i < list.len(),
    ensures
        list[i].value.fault is None,
    decreases list.len(),
{
    if i < list.len() - 1 {
        lemma_assignments_fault_none(list.drop_last(), i);
    }
}

fn check_assignments(clauses: &Vec<(&str, &dyn Expression)>) -> (r: Result<(), BuildError>)
    ensures
        r is Ok <==> assignments_fault(assignments(clauses@)) is None,
        r is Err ==> assignments_fault(assignments(clauses@)) == Some(r->Err_0),
{
    let ghost all = assignments(clauses@);
    let mut i: usize = 0;
    while i < clauses.len()
        invariant
            i <= clauses.len(),
            all == assignments(clauses@),
            assignments_fault(all.take(i as int)) is None,
        decreases clauses.len() - i,
    {
        proof {
            assert(all.take(i + 1).drop_last() =~= all.take(i as int));
        }
        match clauses[i].1.check() {
            Ok(()) => {},
            Err(why) => {
                proof {
                    lemma_assignments_fault_prefix(all, i + 1);
                }
                return Err(why);
            },
        }
        i += 1;
    }
    proof {
        assert(all.take(i as int) =~= all);
    }
    Ok(())
}

fn push_assignments(buffer: &mut String, clauses: &Vec<(&str, &dyn Expression)>)
    requires
        assignments_fault(assignments(clauses@)) is None,
    ensures
        final(buffer)@ == old(buffer)@ + assignments_text(assignments(clauses@)),
{
    let ghost all = assignments(clauses@);
    let mut i: usize = 0;
    while i < clauses.len()
        invariant
            i <= clauses.len(),
            all == assignments(clauses@),
            assignments_fault(all) is None,
            buffer@ == old(buffer)@ + assignments_text(all.take(i as int)),
        decreases clauses.len() - i,
    {
        proof {
            lemma_assignments_fault_none(all, i as int);
            assert(all.take(i + 1).drop_last() =~= all.take(i as int));
        }
        if i > 0 {
            buffer.append(", ");
        } else {
            buffer.append(" ");
        }
        buffer.append("set ");
        buffer.append(clauses[i].0);
        buffer.append(" = ");
        let value = clauses[i].1.build();
        buffer.append(value.as_str());
        assert(buffer@ =~= old(buffer)@ + assignments_text(all.take(i + 1)));
        i += 1;
    }
    proof {
        assert(all.take(i as int) =~= all);
    }
}

impl<'a> Expression for Update<'a> {
    open spec fn fault(&self) -> Option<BuildError> {
        update_fault(self@)
    }

    open spec fn text(&self) -> Seq<char> {
        update_text(self@)
    }

    fn check(&self) -> (r: Result<(), BuildError>) {
        check_joins(&self.joins)?;
        check_assignments(&self.set_clauses)?;
        check_predicate(self.where_column, self.where_operator, self.where_value)
    }

    fn build(&self) -> (s: String) {
        let mut query = String::new();
        query.append("(update ");
        query.append(self.table);
        push_joins(&mut query, &self.joins);
        push_assignments(&mut query, &self.set_clauses);
        push_predicate(&mut query, self.where_column, self.where_operator, self.where_value);
        query.append(")");
        assert(query@ =~= update_text(self@));
        query
    }
}

} // verus!
