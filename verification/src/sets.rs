//! The allow-lists' collection, `indexmap::IndexSet`, as verified code sees
//! it: a sequence of items in insertion order, read by position.

use crate::addr::Suffix;
use crate::net::IpNet;
use indexmap::IndexSet;
use vstd::prelude::*;

verus! {

#[verifier::external_type_specification]
#[verifier::external_body]
#[verifier::reject_recursive_types(T)]
#[verifier::reject_recursive_types(S)]
pub struct ExIndexSet<T, S>(IndexSet<T, S>);

/// The suffixes that a set holds, each as its characters, in the set's order.
pub uninterp spec fn suffix_set_items(set: IndexSet<Suffix>) -> Seq<Seq<char>>;

/// The networks that a set holds, in the set's order.
pub uninterp spec fn net_set_items(set: IndexSet<IpNet>) -> Seq<IpNet>;

/// Calls `IndexSet::len`. Trusted: it is the number of items the set holds.
#[verifier::external_body]
pub(crate) fn suffix_set_len(set: &IndexSet<Suffix>) -> (n: usize)
    ensures
        n == suffix_set_items(*set).len(),
{
    set.len()
}

/// Calls `IndexSet::get_index`. Trusted: it hands out the item at position
/// `index` of the set's order, and nothing from `len` on.
#[verifier::external_body]
pub(crate) fn suffix_set_get(set: &IndexSet<Suffix>, index: usize) -> (r: Option<&Suffix>)
    ensures
        r is Some <==> index < suffix_set_items(*set).len(),
        r matches Some(s) ==> s@ == suffix_set_items(*set)[index as int],
{
    set.get_index(index)
}

/// Calls `IndexSet::len`. Trusted: it is the number of items the set holds.
#[verifier::external_body]
pub(crate) fn net_set_len(set: &IndexSet<IpNet>) -> (n: usize)
    ensures
        n == net_set_items(*set).len(),
{
    set.len()
}

/// Calls `IndexSet::get_index`. Trusted: it hands out the item at position
/// `index` of the set's order, and nothing from `len` on.
#[verifier::external_body]
pub(crate) fn net_set_get(set: &IndexSet<IpNet>, index: usize) -> (r: Option<&IpNet>)
    ensures
        r is Some <==> index < net_set_items(*set).len(),
        r matches Some(n) ==> *n == net_set_items(*set)[index as int],
{
    set.get_index(index)
}

} // verus!
