//! The capability shared by everything that renders into statement text.
use vstd::prelude::*;
use crate::decimal::{decimal, signed_text, unsigned_text};

verus! {

/// Why a statement cannot be rendered.
#[derive(Debug, Clone, Copy, PartialEq, Eq, Structural)]
pub enum BuildError {
    /// A `select` statement was never given a table.
    MissingTable,
    /// Some, but not all, of the three parts of a `where` predicate are set.
    PartialWhere,
}

/// A value with one canonical text.
///
/// `text` is that text and `fault` says whether, and why, the value cannot be
/// rendered; a literal never has a fault. `build` returns the text of a value
/// without fault, and `check` computes the fault, so that a caller can test
/// the precondition of `build` before the call.
pub trait Expression {
    /// The reason this value cannot be rendered, if there is one.
    spec fn fault(&self) -> Option<BuildError>;

    /// The canonical text of this value.
    spec fn text(&self) -> Seq<char>;

    /// Says whether `build` may be called.
    fn check(&self) -> (r: Result<(), BuildError>)
        ensures
            r is Ok <==> self.fault() is None,
            r is Err ==> self.fault() == Some(r->Err_0),
    ;

    /// Renders the value.
    fn build(&self) -> (s: String)
        requires
            self.fault() is None,
        ensures
            s@ == self.text(),
    ;
}

/// What a statement keeps of an expression placed in it: its fault and its text.
pub ghost struct Operand {
    pub fault: Option<BuildError>,
    pub text: Seq<char>,
}

/// The operand that an expression stands for.
pub open spec fn operand<E: Expression + ?Sized>(e: &E) -> Operand {
    Operand { fault: e.fault(), text: e.text() }
}

/// The text of a string literal: the characters between double quotes, none
/// of them escaped.
pub open spec fn quoted(s: Seq<char>) -> Seq<char> {
    "\""@ + s + "\""@
}

/// The text of a boolean literal.
pub open spec fn boolean(b: bool) -> Seq<char> {
    if b {
        "true"@
    } else {
        "false"@
    }
}

fn quote(s: &str) -> (r: String)
    ensures
        r@ == quoted(s@),
{
    let mut r = String::new();
    r.append("\"");
    r.append(s);
    r.append("\"");
    assert(r@ =~= quoted(s@));
    r
}

impl Expression for String {
    open spec fn fault(&self) -> Option<BuildError> {
        None
    }

    open spec fn text(&self) -> Seq<char> {
        quoted(self@)
    }

    fn check(&self) -> (r: Result<(), BuildError>) {
        Ok(())
    }

    fn build(&self) -> (s: String) {
        quote(self.as_str())
    }
}

impl<'a> Expression for &'a str {
    open spec fn fault(&self) -> Option<BuildError> {
        None
    }

    open spec fn text(&self) -> Seq<char> {
        quoted(self@)
    }

    fn check(&self) -> (r: Result<(), BuildError>) {
        Ok(())
    }

    fn build(&self) -> (s: String) {
        quote(*self)
    }
}

impl Expression for str {
    open spec fn fault(&self) -> Option<BuildError> {
        None
    }

    open spec fn text(&self) -> Seq<char> {
        quoted(self@)
    }

    fn check(&self) -> (r: Result<(), BuildError>) {
        Ok(())
    }

    fn build(&self) -> (s: String) {
        quote(self)
    }
}

impl Expression for i32 {
    open spec fn fault(&self) -> Option<BuildError> {
        None
    }

    open spec fn text(&self) -> Seq<char> {
        decimal(*self as int)
    }

    fn check(&self) -> (r: Result<(), BuildError>) {
        Ok(())
    }

    fn build(&self) -> (s: String) {
        signed_text(*self as i64)
    }
}

impl Expression for i64 {
    open spec fn fault(&self) -> Option<BuildError> {
        None
    }

    open spec fn text(&self) -> Seq<char> {
        decimal(*self as int)
    }

    fn check(&self) -> (r: Result<(), BuildError>) {
        Ok(())
    }

    fn build(&self) -> (s: String) {
        signed_text(*self)
    }
}

impl Expression for u32 {
    open spec fn fault(&self) -> Option<BuildError> {
        None
    }

    open spec fn text(&self) -> Seq<char> {
        decimal(*self as int)
    }

    fn check(&self) -> (r: Result<(), BuildError>) {
        Ok(())
    }

    fn build(&self) -> (s: String) {
        unsigned_text(*self as u64)
    }
}

impl Expression for u64 {
    open spec fn fault(&self) -> Option<BuildError> {
        None
    }

    open spec fn text(&self) -> Seq<char> {
        decimal(*self as int)
    }

    fn check(&self) -> (r: Result<(), BuildError>) {
        Ok(())
    }

    fn build(&self) -> (s: String) {
        unsigned_text(*self)
    }
}

impl Expression for bool {
    open spec fn fault(&self) -> Option<BuildError> {
        None
    }

    open spec fn text(&self) -> Seq<char> {
        boolean(*self)
    }

    fn check(&self) -> (r: Result<(), BuildError>) {
        Ok(())
    }

    fn build(&self) -> (s: String) {
        if *self {
            String::from_str("true")
        } else {
            String::from_str("false")
        }
    }
}

/// Renders an expression, or reports why it cannot be rendered.
pub fn try_build<E: Expression + ?Sized>(e: &E) -> (r: Result<String, BuildError>)
    ensures
        match r {
            Ok(s) => e.fault() is None && s@ == e.text(),
            Err(why) => e.fault() == Some(why),
        },
{
    match e.check() {
        Ok(()) => Ok(e.build()),
        Err(why) => Err(why),
    }
}

} // verus!
