//! The set of capabilities that are switched on, kept in a `fastset::Set`.
//!
//! The contracts in this file are not proved: they say what the source of
//! the outside crate shows.

use vstd::prelude::*;

verus! {

/// The first number that the outside set never grows to hold by itself.
pub const FLAG_SET_CEILING: usize = 1_000_000_000;

/// `fastset::Set`, made known as a type of which nothing inside is seen.
#[verifier::external_type_specification]
#[verifier::external_body]
pub struct ExFlagSet(fastset::Set);

/// The numbers that a set holds.
pub uninterp spec fn flag_set_members(set: fastset::Set) -> Set<usize>;

/// `fastset::Set::with_capacity`: an empty set with room for the numbers up
/// to `capacity`. The set grows when a greater number is put into it.
#[verifier::external_body]
pub(crate) fn flag_set_with_capacity(capacity: usize) -> (r: fastset::Set)
    requires
        capacity <= 0xFFFF,
    ensures
        flag_set_members(r) == Set::<usize>::empty(),
{
    fastset::Set::with_capacity(capacity)
}

/// `fastset::Set::insert`, for a number below the ceiling: the number is in
/// the set afterwards, and the result says whether it was new.
#[verifier::external_body]
pub(crate) fn flag_set_insert(set: &mut fastset::Set, value: usize) -> (r: bool)
    requires
        value < FLAG_SET_CEILING,
    ensures
        flag_set_members(*final(set)) == flag_set_members(*old(set)).insert(value),
        r == !flag_set_members(*old(set)).contains(value),
{
    set.insert(value)
}

/// `fastset::Set::remove`: the number is not in the set afterwards, and the
/// result says whether it was before.
#[verifier::external_body]
pub(crate) fn flag_set_remove(set: &mut fastset::Set, value: usize) -> (r: bool)
    ensures
        flag_set_members(*final(set)) == flag_set_members(*old(set)).remove(value),
        r == flag_set_members(*old(set)).contains(value),
{
    set.remove(&value)
}

/// `fastset::Set::contains`: whether the number is in the set.
#[verifier::external_body]
pub(crate) fn flag_set_contains(set: &fastset::Set, value: usize) -> (r: bool)
    ensures
        r == flag_set_members(*set).contains(value),
{
    set.contains(&value)
}

} // verus!
