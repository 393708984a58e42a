use vstd::prelude::*;
use vstd::laws_cmp::obeys_partial_cmp_spec_properties;
use vstd::laws_eq::{obeys_eq, obeys_eq_spec_properties};
use vstd::std_specs::cmp::{PartialEqSpec, PartialOrdSpec};
use core::cmp::Ordering;
use crate::slot::SlotCell;

verus! {

impl<T: PartialEq> PartialEq for SlotCell<T> {
    /// Two cells are equal when both are empty, or both are filled with
    /// equal values.
    fn eq(&self, other: &Self) -> (equal: bool)
        ensures
            self@ is None && other@ is None ==> equal,
            (self@ is None) != (other@ is None) ==> !equal,
            self@ is Some && other@ is Some ==> call_ensures(
                T::eq,
                (&self@->0, &other@->0),
                equal,
            ),
    {
        match (self.contents(), other.contents()) {
            (None, None) => true,
            (Some(a), Some(b)) => a.eq(b),
            _ => false,
        }
    }
}

impl<T: PartialEq> vstd::std_specs::cmp::PartialEqSpecImpl for SlotCell<T> {
    open spec fn obeys_eq_spec() -> bool {
        T::obeys_eq_spec()
    }

    open spec fn eq_spec(&self, other: &Self) -> bool {
        match (self@, other@) {
            (None, None) => true,
            (Some(a), Some(b)) => a.eq_spec(&b),
            _ => false,
        }
    }
}

impl<T: PartialOrd> PartialOrd for SlotCell<T> {
    /// An empty cell orders before a filled one; two empty cells are equal;
    /// two filled cells order as their values do.
    fn partial_cmp(&self, other: &Self) -> (order: Option<Ordering>)
        ensures
            self@ is None && other@ is None ==> order == Some(Ordering::Equal),
            self@ is None && other@ is Some ==> order == Some(Ordering::Less),
            self@ is Some && other@ is None ==> order == Some(Ordering::Greater),
            self@ is Some && other@ is Some ==> call_ensures(
                T::partial_cmp,
                (&self@->0, &other@->0),
                order,
            ),
    {
        match (self.contents(), other.contents()) {
            (None, None) => Some(Ordering::Equal),
            (None, Some(_)) => Some(Ordering::Less),
            (Some(_), None) => Some(Ordering::Greater),
            (Some(a), Some(b)) => a.partial_cmp(b),
        }
    }
}

impl<T: PartialOrd> vstd::std_specs::cmp::PartialOrdSpecImpl for SlotCell<T> {
    open spec fn obeys_partial_cmp_spec() -> bool {
        T::obeys_partial_cmp_spec()
    }

    open spec fn partial_cmp_spec(&self, other: &Self) -> Option<Ordering> {
        match (self@, other@) {
            (None, None) => Some(Ordering::Equal),
            (None, Some(_)) => Some(Ordering::Less),
            (Some(_), None) => Some(Ordering::Greater),
            (Some(a), Some(b)) => a.partial_cmp_spec(&b),
        }
    }
}

/// Law: in the equality that contracts speak of, two empty cells are equal.
/// (The `eq` method itself returns `true` for two empty cells whatever the
/// values' own equality does, as its `ensures` states.)
pub proof fn lemma_empty_cells_are_equal<T: PartialEq>(a: SlotCell<T>, b: SlotCell<T>)
    requires
        a@ is None,
        b@ is None,
    ensures
        a.eq_spec(&b),
{
}

/// Law: an empty cell orders before every filled cell, and a filled cell is
/// never equal to an empty one.
pub proof fn lemma_empty_is_least<T: PartialOrd>(empty: SlotCell<T>, filled: SlotCell<T>)
    requires
        empty@ is None,
        filled@ is Some,
    ensures
        empty.partial_cmp_spec(&filled) == Some(Ordering::Less),
        filled.partial_cmp_spec(&empty) == Some(Ordering::Greater),
        !empty.eq_spec(&filled),
        !filled.eq_spec(&empty),
{
}

/// Law: where the values' own `eq` answers the same both ways round, so does
/// the `eq` of cells, for any two cells, filled or empty.
pub proof fn lemma_eq_symmetric<T: PartialEq>(a: SlotCell<T>, b: SlotCell<T>, ab: bool, ba: bool)
    requires
        forall|x: T, y: T, xy: bool, yx: bool|
            #[trigger] call_ensures(T::eq, (&x, &y), xy) && #[trigger] call_ensures(
                T::eq,
                (&y, &x),
                yx,
            ) ==> xy == yx,
        call_ensures(<SlotCell<T> as PartialEq>::eq, (&a, &b), ab),
        call_ensures(<SlotCell<T> as PartialEq>::eq, (&b, &a), ba),
    ensures
        ab == ba,
{
}

/// Law: where the values' equality is symmetric and transitive, so is the
/// equality of cells.
pub proof fn lemma_eq_laws_carry_over<T: PartialEq>()
    requires
        obeys_eq::<T>(),
    ensures
        obeys_eq::<SlotCell<T>>(),
{
    reveal(obeys_eq_spec_properties);
}

/// Law: where the values' ordering agrees with their equality, is
/// antisymmetric and transitive, so is the ordering of cells.
pub proof fn lemma_partial_cmp_laws_carry_over<T: PartialOrd>()
    requires
        obeys_partial_cmp_spec_properties::<T>(),
    ensures
        obeys_partial_cmp_spec_properties::<SlotCell<T>>(),
{
    reveal(obeys_partial_cmp_spec_properties);
    reveal(obeys_eq_spec_properties);
}

} // verus!
