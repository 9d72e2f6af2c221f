//! The ledger host's collections, as far as the library keeps them: lists
//! of parties, each kept as the text of its address, and the record of who
//! has approved.
//!
//! What these collections hold is known to the verifier only through the
//! contracts of the functions in this file that call the host; those
//! contracts are believed, not proved. Every call into the host draws on
//! the host's budget and fails with a panic once that is used up, as a
//! program fails that runs out of memory; the contracts do not speak of it.

use vstd::prelude::*;
use crate::address::Address;

verus! {

#[verifier::external_type_specification]
#[verifier::external_body]
#[verifier::reject_recursive_types(T)]
pub struct ExHostVec<T>(soroban_sdk::Vec<T>);

#[verifier::external_type_specification]
#[verifier::external_body]
#[verifier::reject_recursive_types(K)]
#[verifier::reject_recursive_types(V)]
pub struct ExHostMap<K, V>(soroban_sdk::Map<K, V>);

#[verifier::external_type_specification]
#[verifier::external_body]
pub struct ExHostString(soroban_sdk::String);

/// `Clone` of `soroban_sdk::Vec`: another handle on the same items. Nothing
/// is claimed of it.
pub assume_specification<T>[ <soroban_sdk::Vec<T> as Clone>::clone ](
    list: &soroban_sdk::Vec<T>,
) -> (copy: soroban_sdk::Vec<T>)
;

/// `Clone` of `soroban_sdk::Map`: another handle on the same entries.
/// Nothing is claimed of it.
pub assume_specification<K, V>[ <soroban_sdk::Map<K, V> as Clone>::clone ](
    map: &soroban_sdk::Map<K, V>,
) -> (copy: soroban_sdk::Map<K, V>) where K: Clone, V: Clone
;

/// For each item of a list, in order, the text that it reads as, if it is a
/// string; a list read from the ledger may hold other values. A string that
/// is not valid UTF-8 reads with the replacement character in place of what
/// is not.
pub uninterp spec fn names(list: soroban_sdk::Vec<soroban_sdk::String>) -> Seq<
    Option<Seq<char>>,
>;

/// For each item of a list, in order, the number that it is, if it is one; a
/// list read from the ledger may hold other values.
pub uninterp spec fn numbers(list: soroban_sdk::Vec<u64>) -> Seq<Option<u64>>;

/// The texts that are keys of a map.
pub uninterp spec fn marked(map: soroban_sdk::Map<soroban_sdk::String, bool>) -> Set<Seq<char>>;

/// The number of entries of a map.
pub uninterp spec fn entries(map: soroban_sdk::Map<soroban_sdk::String, bool>) -> nat;

/// `soroban_sdk::Vec::len`: the number of items.
#[verifier::external_body]
pub(crate) fn names_len(list: &soroban_sdk::Vec<soroban_sdk::String>) -> (n: u32)
    ensures
        n == names(*list).len(),
{
    list.len()
}

/// `soroban_sdk::Vec::try_get`: the item at `at`, read as text, where there
/// is an item at `at` and it converts to a string.
#[verifier::external_body]
pub(crate) fn name_at(
    list: &soroban_sdk::Vec<soroban_sdk::String>,
    at: u32,
) -> (name: Option<Address>)
    ensures
        match name {
            Some(party) => at < names(*list).len() && names(*list)[at as int] == Some(party@),
            None => at >= names(*list).len() || names(*list)[at as int] is None,
        },
{
    match list.try_get(at) {
        Ok(Some(item)) => {
            let mut bytes = vec![0u8; item.len() as usize];
            item.copy_into_slice(&mut bytes);
            Some(Address { strkey: String::from_utf8_lossy(&bytes).into_owned() })
        },
        _ => None,
    }
}

/// `soroban_sdk::Vec::push_back`, with the text made a host string by
/// `soroban_sdk::String::from_str`: the item is added at the end, and the
/// items before it stay.
#[verifier::external_body]
pub(crate) fn push_name(list: &mut soroban_sdk::Vec<soroban_sdk::String>, name: &Address)
    ensures
        names(*final(list)) == names(*old(list)).push(Some(name@)),
{
    let item = soroban_sdk::String::from_str(list.env(), &name.strkey);
    list.push_back(item);
}

/// `soroban_sdk::Vec::new`, in the environment of `like`: a list with no
/// items.
#[verifier::external_body]
pub(crate) fn no_names(like: &soroban_sdk::Vec<soroban_sdk::String>) -> (list: soroban_sdk::Vec<
    soroban_sdk::String,
>)
    ensures
        names(list).len() == 0,
{
    soroban_sdk::Vec::new(like.env())
}

/// `soroban_sdk::Map::new`, in the environment of `like`: a map with no
/// entries.
#[verifier::external_body]
pub(crate) fn no_marks(like: &soroban_sdk::Vec<soroban_sdk::String>) -> (map: soroban_sdk::Map<
    soroban_sdk::String,
    bool,
>)
    ensures
        marked(map) == Set::<Seq<char>>::empty(),
        entries(map) == 0,
{
    soroban_sdk::Map::new(like.env())
}

/// `soroban_sdk::Map::len`: the number of entries.
#[verifier::external_body]
pub(crate) fn count_marks(map: &soroban_sdk::Map<soroban_sdk::String, bool>) -> (n: u32)
    ensures
        n == entries(*map),
{
    map.len()
}

/// `soroban_sdk::Map::contains_key`, with the text made a host string:
/// whether the text is a key.
#[verifier::external_body]
pub(crate) fn has_mark(
    map: &soroban_sdk::Map<soroban_sdk::String, bool>,
    name: &Address,
) -> (found: bool)
    ensures
        found == marked(*map).contains(name@),
{
    map.contains_key(soroban_sdk::String::from_str(map.env(), &name.strkey))
}

/// `soroban_sdk::Map::set`, with the text made a host string and `true` as
/// the value: the key is in the map afterwards, the other keys are as
/// before, and the map has one entry more unless it had the key.
#[verifier::external_body]
pub(crate) fn set_mark(map: &mut soroban_sdk::Map<soroban_sdk::String, bool>, name: &Address)
    ensures
        marked(*final(map)) == marked(*old(map)).insert(name@),
        entries(*final(map)) == entries(*old(map)) + if marked(*old(map)).contains(name@) {
            0nat
        } else {
            1nat
        },
{
    let key = soroban_sdk::String::from_str(map.env(), &name.strkey);
    map.set(key, true);
}

/// `soroban_sdk::Map::remove`, with the text made a host string: the key is
/// not in the map afterwards, the other keys are as before, and the map has
/// one entry less if it had the key.
#[verifier::external_body]
pub(crate) fn remove_mark(map: &mut soroban_sdk::Map<soroban_sdk::String, bool>, name: &Address)
    ensures
        marked(*final(map)) == marked(*old(map)).remove(name@),
        entries(*old(map)) == entries(*final(map)) + if marked(*old(map)).contains(name@) {
            1nat
        } else {
            0nat
        },
{
    let key = soroban_sdk::String::from_str(map.env(), &name.strkey);
    map.remove(key);
}

/// `soroban_sdk::Vec::len`: the number of items.
#[verifier::external_body]
pub(crate) fn numbers_len(list: &soroban_sdk::Vec<u64>) -> (n: u32)
    ensures
        n == numbers(*list).len(),
{
    list.len()
}

/// `soroban_sdk::Vec::try_get`: the item at `at`, where there is an item at
/// `at` and it converts to a number.
#[verifier::external_body]
pub(crate) fn number_at(list: &soroban_sdk::Vec<u64>, at: u32) -> (number: Option<u64>)
    ensures
        number == if at < numbers(*list).len() {
            numbers(*list)[at as int]
        } else {
            None
        },
{
    match list.try_get(at) {
        Ok(item) => item,
        Err(_) => None,
    }
}

/// A list of parties kept by the host.
pub type PartyList = soroban_sdk::Vec<soroban_sdk::String>;

/// A record of parties kept by the host.
pub type PartyMarks = soroban_sdk::Map<soroban_sdk::String, bool>;

/// A list of numbers kept by the host.
pub type NumberList = soroban_sdk::Vec<u64>;

} // verus!
