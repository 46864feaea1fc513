//! Named units, each defined against one base unit.

use crate::base::BaseUnit;
use crate::value::{Val, Value, MAGNITUDE_ONE};
use vstd::prelude::*;

verus! {

/// A unit with a symbol and a name, defined as one of a base unit.
///
/// The unit borrows its base unit and never owns it, so any number of units
/// may be defined against the same one.
pub struct Unit<'a> {
    /// Short display text, such as `m`.
    pub symbol: String,
    /// Display name, such as `metre`.
    pub name: String,
    /// The base unit that this unit reduces to.
    pub def: &'a BaseUnit,
}

impl Val for Unit<'_> {
    /// A named unit is expressed in the base unit it is defined against.
    open spec fn base(&self) -> BaseUnit {
        *self.def
    }

    /// Resolves a named unit: magnitude one, of the base unit it is defined
    /// against, whatever its symbol and name.
    fn value(&self) -> (v: Value<'_>)
        ensures
            *v.1 == *self.def,
    {
        Value(MAGNITUDE_ONE, self.def)
    }
}

/// Units defined against the same base unit resolve to the same base unit,
/// the one they were defined against, whatever their symbols and names.
pub proof fn lemma_shared_definition(a: Unit<'_>, b: Unit<'_>)
    requires
        a.def == b.def,
    ensures
        a.base() == b.base(),
        a.base() == *a.def,
{
}

} // verus!
