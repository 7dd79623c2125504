//! The name-keyed maps of the analysis, held in `indexmap::IndexMap`.
//!
//! An `IndexMap` keeps its entries in insertion order and each key at most
//! once. What a map holds is named below as its sequence of entries, in
//! order, each key taken as its characters; the wrappers state what
//! `indexmap` does over those names.

use vstd::prelude::*;
use indexmap::IndexMap;
use std::rc::Rc;
use crate::items::{ContractFieldId, EventId, FunctionId, Item, StructFieldId};

verus! {

#[verifier::external_type_specification]
#[verifier::external_body]
#[verifier::reject_recursive_types(K)]
#[verifier::reject_recursive_types(V)]
#[verifier::reject_recursive_types(S)]
pub struct ExIndexMap<K, V, S>(IndexMap<K, V, S>);

/// The position of the first entry whose key is `k`, or -1 when no entry has it.
pub open spec fn index_of_key<V>(entries: Seq<(Seq<char>, V)>, k: Seq<char>) -> int
    decreases entries.len(),
{
    if entries.len() == 0 {
        -1
    } else {
        let i = index_of_key(entries.drop_last(), k);
        if i >= 0 {
            i
        } else if entries.last().0 == k {
            entries.len() - 1
        } else {
            -1
        }
    }
}

/// No key occurs twice.
pub open spec fn keys_distinct<V>(entries: Seq<(Seq<char>, V)>) -> bool {
    forall|i: int, j: int| 0 <= i < j < entries.len() ==> entries[i].0 != entries[j].0
}

/// The value stored under `k`, if any.
pub open spec fn lookup<V>(entries: Seq<(Seq<char>, V)>, k: Seq<char>) -> Option<V> {
    let i = index_of_key(entries, k);
    if i >= 0 {
        Some(entries[i].1)
    } else {
        None
    }
}

pub proof fn lemma_index_of_key<V>(entries: Seq<(Seq<char>, V)>, k: Seq<char>)
    ensures
        ({
            let i = index_of_key(entries, k);
            &&& -1 <= i < entries.len()
            &&& i == -1 <==> (forall|j: int| 0 <= j < entries.len() ==> entries[j].0 != k)
            &&& i >= 0 ==> entries[i].0 == k
            &&& i >= 0 ==> forall|j: int| 0 <= j < i ==> entries[j].0 != k
        }),
    decreases entries.len(),
{
    if entries.len() > 0 {
        let prefix = entries.drop_last();
        lemma_index_of_key(prefix, k);
        assert forall|j: int| 0 <= j < entries.len() - 1 implies entries[j] == prefix[j] by {}
    }
}

/// The entries of a module's item map.
pub uninterp spec fn item_map_entries(m: IndexMap<String, Item>) -> Seq<(Seq<char>, Item)>;

/// The entries of a map from names to functions.
pub uninterp spec fn function_map_entries(m: IndexMap<String, FunctionId>) -> Seq<
    (Seq<char>, FunctionId),
>;

/// The entries of a map from names to events.
pub uninterp spec fn event_map_entries(m: IndexMap<String, EventId>) -> Seq<(Seq<char>, EventId)>;

/// The entries of a map from names to contract fields.
pub uninterp spec fn contract_field_map_entries(m: IndexMap<String, ContractFieldId>) -> Seq<
    (Seq<char>, ContractFieldId),
>;

/// The entries of a map from names to struct fields.
pub uninterp spec fn struct_field_map_entries(m: IndexMap<String, StructFieldId>) -> Seq<
    (Seq<char>, StructFieldId),
>;

/// `IndexMap::new` for an item map: a map with no entries.
#[verifier::external_body]
pub(crate) fn item_map_new() -> (m: IndexMap<String, Item>)
    ensures
        item_map_entries(m) == Seq::<(Seq<char>, Item)>::empty(),
{
    IndexMap::new()
}

/// `IndexMap::get` on an item map, the item copied out: the value of the
/// entry whose key is `key`, or `None` when no entry has it.
#[verifier::external_body]
pub(crate) fn item_map_get(m: &IndexMap<String, Item>, key: &str) -> (r: Option<Item>)
    ensures
        r == lookup(item_map_entries(*m), key@),
{
    m.get(key).copied()
}

/// `IndexMap::get` on a function map, the id copied out.
#[verifier::external_body]
pub(crate) fn function_map_get(m: &IndexMap<String, FunctionId>, key: &str) -> (r: Option<
    FunctionId,
>)
    ensures
        r == lookup(function_map_entries(*m), key@),
{
    m.get(key).copied()
}

/// `IndexMap::get` on an event map, the id copied out.
#[verifier::external_body]
pub(crate) fn event_map_get(m: &IndexMap<String, EventId>, key: &str) -> (r: Option<EventId>)
    ensures
        r == lookup(event_map_entries(*m), key@),
{
    m.get(key).copied()
}

/// `IndexMap::get` on a struct field map, the id copied out.
#[verifier::external_body]
pub(crate) fn struct_field_map_get(m: &IndexMap<String, StructFieldId>, key: &str) -> (r: Option<
    StructFieldId,
>)
    ensures
        r == lookup(struct_field_map_entries(*m), key@),
{
    m.get(key).copied()
}

/// `IndexMap::len` on a struct field map: the number of entries.
#[verifier::external_body]
pub(crate) fn struct_field_map_len(m: &IndexMap<String, StructFieldId>) -> (r: usize)
    ensures
        r == struct_field_map_entries(*m).len(),
{
    m.len()
}

/// `IndexMap::get_full` on a contract field map, without the key: the
/// position and value of the entry whose key is `key`, or `None` when no
/// entry has it.
#[verifier::external_body]
pub(crate) fn contract_field_map_get_full(m: &IndexMap<String, ContractFieldId>, key: &str) -> (r:
    Option<(usize, ContractFieldId)>)
    ensures
        ({
            let entries = contract_field_map_entries(*m);
            let i = index_of_key(entries, key@);
            match r {
                Some((index, field)) => i >= 0 && index == i && field == entries[i].1,
                None => i < 0,
            }
        }),
{
    match m.get_full(key) {
        Some((index, _, field)) => Some((index, *field)),
        None => None,
    }
}

/// `Rc::clone`: another pointer to the same value.
#[verifier::external_body]
pub(crate) fn rc_clone<T>(r: &Rc<T>) -> (c: Rc<T>)
    ensures
        *c == **r,
{
    Rc::clone(r)
}

} // verus!
