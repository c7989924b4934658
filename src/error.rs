//! Why a path could not be given an alias.
use vstd::prelude::*;

verus! {

/// The shapes of path that the alias table refuses.
#[derive(Clone, Copy, Debug, PartialEq, Eq, Structural)]
pub enum Kind {
    /// The path has a `<T as Trait>` prefix, or generic arguments before its last
    /// segment, or parenthesized arguments: all of which point at an associated type.
    AssociatedType,
    /// A parenthesized, closure-style trait bound stood where a plain path was needed.
    Closure,
    /// A trait alias was asked for a bare single-segment trait name while the policy
    /// does not allow it.
    Trait,
}

#[derive(Clone, Copy, Debug, PartialEq, Eq, Structural)]
pub struct Error {
    pub kind: Kind,
}

/// The diagnostic text of each kind of error.
pub open spec fn message_of(kind: Kind) -> Seq<char> {
    match kind {
        Kind::AssociatedType => "Associated types are not supported"@,
        Kind::Closure => "Closure traits are not supported"@,
        Kind::Trait => "Unqualified traits cannot be aliased"@,
    }
}

impl Kind {
    pub fn error(self) -> (e: Error)
        ensures
            e.kind == self,
    {
        Error::new(self)
    }
}

impl Error {
    pub fn new(kind: Kind) -> (e: Error)
        ensures
            e.kind == kind,
    {
        Error { kind }
    }

    /// The text reported to the user for this error.
    pub fn message(&self) -> (r: String)
        ensures
            r@ == message_of(self.kind),
    {
        match self.kind {
            Kind::AssociatedType => String::from_str("Associated types are not supported"),
            Kind::Closure => String::from_str("Closure traits are not supported"),
            Kind::Trait => String::from_str("Unqualified traits cannot be aliased"),
        }
    }
}

} // verus!
