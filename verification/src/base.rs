//! The base units: the closed set in which every other unit is expressed.

use crate::value::{Val, Value, MAGNITUDE_ONE};
use vstd::prelude::*;

verus! {

/// A fundamental physical unit.
///
/// The set is closed: a value of this type is one of the variants below and
/// nothing else, and two values are equal exactly when they are the same
/// variant.
#[derive(Clone, Copy, Debug, PartialEq, Eq, Structural)]
pub enum BaseUnit {
    Metre,
    Second,
    Kilogram,
}

impl BaseUnit {
    /// The base units in declaration order.
    pub open spec fn all_spec() -> Seq<BaseUnit> {
        seq![BaseUnit::Metre, BaseUnit::Second, BaseUnit::Kilogram]
    }

    /// Enumerates the base units, in declaration order.
    pub fn all() -> (units: [BaseUnit; 3])
        ensures
            units@ == Self::all_spec(),
    {
        [BaseUnit::Metre, BaseUnit::Second, BaseUnit::Kilogram]
    }
}

impl Val for BaseUnit {
    /// A base unit is expressed in itself.
    open spec fn base(&self) -> BaseUnit {
        *self
    }

    /// Resolves a base unit: magnitude one, of itself.
    fn value(&self) -> (v: Value<'_>)
        ensures
            *v.1 == *self,
    {
        Value(MAGNITUDE_ONE, self)
    }
}

/// The enumeration lists every base unit, and lists it once: each base unit
/// stands at exactly one position of `all_spec`.
pub proof fn lemma_all_lists_each_once(b: BaseUnit)
    ensures
        BaseUnit::all_spec().len() == 3,
        BaseUnit::all_spec().no_duplicates(),
        BaseUnit::all_spec().contains(b),
{
    let all = BaseUnit::all_spec();
    let i: int = match b {
        BaseUnit::Metre => 0,
        BaseUnit::Second => 1,
        BaseUnit::Kilogram => 2,
    };
    assert(all[i] == b);
}

/// There are exactly three base units: the set of all values of the type is
/// finite, has three members, and is what the enumeration lists.
pub proof fn lemma_exactly_three_base_units()
    ensures
        Set::<BaseUnit>::full().finite(),
        Set::<BaseUnit>::full().len() == 3,
        Set::<BaseUnit>::full() == BaseUnit::all_spec().to_set(),
{
    let all = BaseUnit::all_spec();
    assert forall|b: BaseUnit| all.to_set().contains(b) by {
        lemma_all_lists_each_once(b);
    }
    assert(Set::<BaseUnit>::full() =~= all.to_set());
    lemma_all_lists_each_once(BaseUnit::Metre);
    all.unique_seq_to_set();
}

} // verus!
