//! The single `where` predicate of a statement, kept in three slots.
use vstd::prelude::*;
use crate::expression::{operand, BuildError, Expression, Operand};

verus! {

/// The mathematical content of the three slots of a `where` predicate.
pub ghost struct Predicate {
    pub column: Option<Operand>,
    pub operator: Option<Seq<char>>,
    pub value: Option<Operand>,
}

/// The operand in a slot that may hold an expression.
pub open spec fn slot(e: Option<&dyn Expression>) -> Option<Operand> {
    match e {
        Some(e) => Some(operand(e)),
        None => None,
    }
}

/// The text in a slot that may hold a string.
pub open spec fn word(s: Option<&str>) -> Option<Seq<char>> {
    match s {
        Some(s) => Some(s@),
        None => None,
    }
}

/// The predicate that no statement has set: all three slots are empty.
pub open spec fn vacant() -> Predicate {
    Predicate { column: None, operator: None, value: None }
}

/// The predicate `column operator value`: all three slots are set.
pub open spec fn filled(column: Operand, operator: Seq<char>, value: Operand) -> Predicate {
    Predicate { column: Some(column), operator: Some(operator), value: Some(value) }
}

/// All three slots are set.
pub open spec fn complete(p: Predicate) -> bool {
    p.column is Some && p.operator is Some && p.value is Some
}

/// Some slot is set and some slot is empty.
pub open spec fn partial(p: Predicate) -> bool {
    p != vacant() && !complete(p)
}

/// Why a predicate cannot be rendered: it is partial, or one of its two
/// expressions has a fault (the column's comes first).
pub open spec fn predicate_fault(p: Predicate) -> Option<BuildError> {
    if p == vacant() {
        None
    } else if !complete(p) {
        Some(BuildError::PartialWhere)
    } else if p.column->0.fault is Some {
        p.column->0.fault
    } else {
        p.value->0.fault
    }
}

/// The text of a predicate: ` where <column> <operator> <value>` when it is
/// set, nothing when it is not.
pub open spec fn predicate_text(p: Predicate) -> Seq<char> {
    if complete(p) {
        " where "@ + p.column->0.text + " "@ + p.operator->0 + " "@ + p.value->0.text
    } else {
        Seq::empty()
    }
}

/// Tests the three slots of a predicate before it is rendered.
pub fn check_predicate(
    column: Option<&dyn Expression>,
    operator: Option<&str>,
    value: Option<&dyn Expression>,
) -> (r: Result<(), BuildError>)
    ensures
        r is Ok <==> predicate_fault(
            Predicate { column: slot(column), operator: word(operator), value: slot(value) },
        ) is None,
        r is Err ==> predicate_fault(
            Predicate { column: slot(column), operator: word(operator), value: slot(value) },
        ) == Some(r->Err_0),
{
    match (column, operator, value) {
        (None, None, None) => Ok(()),
        (Some(c), Some(_), Some(v)) => {
            c.check()?;
            v.check()
        },
        _ => Err(BuildError::PartialWhere),
    }
}

/// Appends the text of a predicate without fault to `buffer`.
pub fn push_predicate(
    buffer: &mut String,
    column: Option<&dyn Expression>,
    operator: Option<&str>,
    value: Option<&dyn Expression>,
)
    requires
        predicate_fault(
            Predicate { column: slot(column), operator: word(operator), value: slot(value) },
        ) is None,
    ensures
        final(buffer)@ == old(buffer)@ + predicate_text(
            Predicate { column: slot(column), operator: word(operator), value: slot(value) },
        ),
{
    let ghost p = Predicate { column: slot(column), operator: word(operator), value: slot(value) };
    match (column, operator, value) {
        (Some(c), Some(op), Some(v)) => {
            buffer.append(" where ");
            let left = c.build();
            buffer.append(left.as_str());
            buffer.append(" ");
            buffer.append(op);
            buffer.append(" ");
            let right = v.build();
            buffer.append(right.as_str());
            assert(buffer@ =~= old(buffer)@ + predicate_text(p));
        },
        (None, None, None) => {
            assert(buffer@ =~= old(buffer)@ + predicate_text(p));
        },
        _ => vstd::pervasive::unreached(),
    }
}

} // verus!
