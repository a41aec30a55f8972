//! The insertion-ordered map in which the alias groups are collected and
//! sorted, as far as the catalog assembler uses it.

use crate::text_order::text_le;
use indexmap::IndexMap;
use vstd::prelude::*;

verus! {

/// `indexmap::IndexMap`, a hash map that keeps its entries in a sequence.
#[verifier::external_type_specification]
#[verifier::external_body]
#[verifier::reject_recursive_types(K)]
#[verifier::reject_recursive_types(V)]
#[verifier::reject_recursive_types(S)]
pub struct ExIndexMap<K, V, S>(IndexMap<K, V, S>);

/// One alias group as plain text: its name and its members in order.
pub type AliasPair = (Seq<char>, Seq<Seq<char>>);

/// The key-value pairs that a table holds, in the table's order.
pub uninterp spec fn alias_table_entries(table: IndexMap<String, Vec<String>>) -> Seq<AliasPair>;

/// `IndexMap::new`: a table without entries.
#[verifier::external_body]
pub(crate) fn alias_table_new() -> (table: IndexMap<String, Vec<String>>)
    ensures
        alias_table_entries(table) == Seq::<AliasPair>::empty(),
{
    IndexMap::new()
}

/// `IndexMap::insert`: where the table holds the key already, the entry
/// keeps its place, takes the new value and hands the old one back; else
/// the pair becomes the last entry and nothing is handed back.
#[verifier::external_body]
pub(crate) fn alias_table_insert(
    table: &mut IndexMap<String, Vec<String>>,
    name: String,
    members: Vec<String>,
) -> (previous: Option<Vec<String>>)
    ensures
        forall|i: int|
            0 <= i < alias_table_entries(*old(table)).len() && (#[trigger] alias_table_entries(
                *old(table),
            )[i]).0 == name@ ==> alias_table_entries(*final(table)) == alias_table_entries(
                *old(table),
            ).update(i, (name@, members.deep_view())) && previous.deep_view() == Some(
                alias_table_entries(*old(table))[i].1,
            ),
        (forall|i: int|
            0 <= i < alias_table_entries(*old(table)).len() ==> (#[trigger] alias_table_entries(
                *old(table),
            )[i]).0 != name@) ==> alias_table_entries(*final(table)) == alias_table_entries(
            *old(table),
        ).push((name@, members.deep_view())) && previous is None,
{
    table.insert(name, members)
}

/// `IndexMap::sort_keys`: the same entries, rearranged so that the keys
/// ascend in the order of `String`, which is the order of code points.
#[verifier::external_body]
pub(crate) fn alias_table_sort_keys(table: &mut IndexMap<String, Vec<String>>)
    ensures
        alias_table_entries(*final(table)).to_multiset() == alias_table_entries(
            *old(table),
        ).to_multiset(),
        forall|i: int, j: int|
            0 <= i < j < alias_table_entries(*final(table)).len() ==> text_le(
                (#[trigger] alias_table_entries(*final(table))[i]).0,
                (#[trigger] alias_table_entries(*final(table))[j]).0,
            ),
{
    table.sort_keys()
}

/// `IndexMap::into_iter`: the entries in the table's order, handed out.
#[verifier::external_body]
pub(crate) fn alias_table_into_entries(table: IndexMap<String, Vec<String>>) -> (entries: Vec<
    (String, Vec<String>),
>)
    ensures
        entries.deep_view() == alias_table_entries(table),
{
    table.into_iter().collect()
}

} // verus!
