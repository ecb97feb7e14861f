//! Join clauses, shared by both kinds of statement.
use vstd::prelude::*;
use crate::expression::{operand, BuildError, Expression, Operand};

verus! {

/// The kind of a join.
#[derive(Debug, Clone, Copy, PartialEq, Eq, Structural)]
pub enum JoinType {
    Left,
    Right,
    Inner,
}

/// The word that a join clause starts with.
pub open spec fn kind_word(kind: JoinType) -> Seq<char> {
    match kind {
        JoinType::Left => "left"@,
        JoinType::Right => "right"@,
        JoinType::Inner => "inner"@,
    }
}

/// The mathematical content of a join clause.
pub ghost struct JoinView {
    pub kind: JoinType,
    pub table: Operand,
    pub alias: Option<Seq<char>>,
    pub left: Operand,
    pub operator: Seq<char>,
    pub right: Operand,
}

/// The first fault among the expressions of a join clause, in the order in
/// which they are rendered.
pub open spec fn join_fault(j: JoinView) -> Option<BuildError> {
    if j.table.fault is Some {
        j.table.fault
    } else if j.left.fault is Some {
        j.left.fault
    } else {
        j.right.fault
    }
}

/// The ` as <alias>` part of a join clause; empty without an alias.
pub open spec fn alias_text(alias: Option<Seq<char>>) -> Seq<char> {
    match alias {
        Some(name) => " as "@ + name,
        None => Seq::empty(),
    }
}

/// The text of a join clause:
/// `<kind> join <table>[ as <alias>] on <left> <operator> <right>`.
pub open spec fn join_text(j: JoinView) -> Seq<char> {
    kind_word(j.kind) + " join "@ + j.table.text + alias_text(j.alias) + " on "@ + j.left.text
        + " "@ + j.operator + " "@ + j.right.text
}

/// One join clause of a statement.
pub struct Join<'a> {
    kind: JoinType,
    target: (&'a dyn Expression, Option<&'a str>),
    predicate: (&'a dyn Expression, &'a str, &'a dyn Expression),
}

impl<'a> View for Join<'a> {
    type V = JoinView;

    closed spec fn view(&self) -> JoinView {
        JoinView {
            kind: self.kind,
            table: operand(self.target.0),
            alias: name_view(self.target.1),
            left: operand(self.predicate.0),
            operator: self.predicate.1@,
            right: operand(self.predicate.2),
        }
    }
}

/// The view of an optional name.
pub open spec fn name_view(name: Option<&str>) -> Option<Seq<char>> {
    match name {
        Some(s) => Some(s@),
        None => None,
    }
}

impl<'a> Join<'a> {
    /// A join clause of the given kind on a target (a table and, if there is
    /// one, its alias), with a predicate (left, operator, right).
    pub fn new(
        kind: JoinType,
        target: (&'a dyn Expression, Option<&'a str>),
        predicate: (&'a dyn Expression, &'a str, &'a dyn Expression),
    ) -> (j: Self)
        ensures
            j@ == (JoinView {
                kind,
                table: operand(target.0),
                alias: name_view(target.1),
                left: operand(predicate.0),
                operator: predicate.1@,
                right: operand(predicate.2),
            }),
    {
        Join { kind, target, predicate }
    }
}

impl JoinType {
    /// The word that a join clause of this kind starts with.
    pub fn word(self) -> (s: &'static str)
        ensures
            s@ == kind_word(self),
    {
        match self {
            JoinType::Left => "left",
            JoinType::Right => "right",
            JoinType::Inner => "inner",
        }
    }
}

impl<'a> Expression for Join<'a> {
    open spec fn fault(&self) -> Option<BuildError> {
        join_fault(self@)
    }

    open spec fn text(&self) -> Seq<char> {
        join_text(self@)
    }

    fn check(&self) -> (r: Result<(), BuildError>) {
        self.target.0.check()?;
        self.predicate.0.check()?;
        self.predicate.2.check()
    }

    fn build(&self) -> (s: String) {
        let mut buffer = String::new();
        buffer.append(self.kind.word());
        buffer.append(" join ");
        let table = self.target.0.build();
        buffer.append(table.as_str());
        if let Some(alias) = self.target.1 {
            buffer.append(" as ");
            buffer.append(alias);
        }
        buffer.append(" on ");
        let left = self.predicate.0.build();
        buffer.append(left.as_str());
        buffer.append(" ");
        buffer.append(self.predicate.1);
        buffer.append(" ");
        let right = self.predicate.2.build();
        buffer.append(right.as_str());
        assert(buffer@ =~= join_text(self@));
        buffer
    }
}

/// The views of a list of join clauses, in order.
pub open spec fn join_views(joins: Seq<Join>) -> Seq<JoinView> {
    Seq::new(joins.len(), |i: int| joins[i]@)
}

/// The first fault in a list of join clauses, in order.
pub open spec fn joins_fault(joins: Seq<JoinView>) -> Option<BuildError>
    decreases joins.len(),
{
    if joins.len() == 0 {
        None
    } else if joins_fault(joins.drop_last()) is Some {
        joins_fault(joins.drop_last())
    } else {
        join_fault(joins.last())
    }
}

/// The text of a list of join clauses: each clause preceded by one space.
pub open spec fn joins_text(joins: Seq<JoinView>) -> Seq<char>
    decreases joins.len(),
{
    if joins.len() == 0 {
        Seq::empty()
    } else {
        joins_text(joins.drop_last()) + " "@ + join_text(joins.last())
    }
}

/// A fault among the first `n` clauses is the fault of the whole list.
pub proof fn lemma_joins_fault_prefix(joins: Seq<JoinView>, n: int)
    requires
        0 <= n <= joins.len(),
        joins_fault(joins.take(n)) is Some,
    ensures
        joins_fault(joins) == joins_fault(joins.take(n)),
    decreases joins.len() - n,
{
    if n < joins.len() {
        assert(joins.take(n + 1).drop_last() =~= joins.take(n));
        lemma_joins_fault_prefix(joins, n + 1);
    } else {
        assert(joins.take(n) =~= joins);
    }
}

/// In a list without fault no clause has one.
pub proof fn lemma_joins_fault_none(joins: Seq<JoinView>, i: int)
    requires
        joins_fault(joins) is None,
        0 <= i < joins.len(),
    ensures
        join_fault(joins[i]) is None,
    decreases joins.len(),
{
    if i < joins.len() - 1 {
        lemma_joins_fault_none(joins.drop_last(), i);
    }
}

/// Tests every clause of a list before it is rendered.
pub fn check_joins(joins: &Vec<Join>) -> (r: Result<(), BuildError>)
    ensures
        r is Ok <==> joins_fault(join_views(joins@)) is None,
        r is Err ==> joins_fault(join_views(joins@)) == Some(r->Err_0),
{
    let ghost views = join_views(joins@);
    let mut i: usize = 0;
    while i < joins.len()
        invariant
            i <= joins.len(),
            views == join_views(joins@),
            joins_fault(views.take(i as int)) is None,
        decreases joins.len() - i,
    {
        proof {
            assert(views.take(i + 1).drop_last() =~= views.take(i as int));
        }
        match joins[i].check() {
            Ok(()) => {},
            Err(why) => {
                proof {
                    lemma_joins_fault_prefix(views, i + 1);
                }
                return Err(why);
            },
        }
        i += 1;
    }
    proof {
        assert(views.take(i as int) =~= views);
    }
    Ok(())
}

/// Appends the text of a list of join clauses without fault to `buffer`.
pub fn push_joins(buffer: &mut String, joins: &Vec<Join>)
    requires
        joins_fault(join_views(joins@)) is None,
    ensures
        final(buffer)@ == old(buffer)@ + joins_text(join_views(joins@)),
{
    let ghost views = join_views(joins@);
    let mut i: usize = 0;
    while i < joins.len()
        invariant
            i <= joins.len(),
            views == join_views(joins@),
            joins_fault(views) is None,
            buffer@ == old(buffer)@ + joins_text(views.take(i as int)),
        decreases joins.len() - i,
    {
        proof {
            lemma_joins_fault_none(views, i as int);
            assert(views.take(i + 1).drop_last() =~= views.take(i as int));
        }
        let clause = joins[i].build();
        buffer.append(" ");
        buffer.append(clause.as_str());
        assert(buffer@ =~= old(buffer)@ + joins_text(views.take(i + 1)));
        i += 1;
    }
    proof {
        assert(views.take(i as int) =~= views);
    }
}

} // verus!
