//! Lists of subscription ids that live on the ledger host.
use vstd::prelude::*;

verus! {

/// The host's list type, `soroban_sdk::Vec`.
#[verifier::external_type_specification]
#[verifier::external_body]
#[verifier::reject_recursive_types(T)]
pub struct ExHostVec<T>(soroban_sdk::Vec<T>);

/// The handle through which the host is reached, `soroban_sdk::Env`.
#[verifier::external_type_specification]
#[verifier::external_body]
pub struct ExEnv(soroban_sdk::Env);

/// The items of a host list, in order. An item is `None` where the list, which
/// may come from outside the contract, holds something other than a `u32` at
/// that position.
pub uninterp spec fn listed(list: soroban_sdk::Vec<u32>) -> Seq<Option<u32>>;

/// Calls `soroban_sdk::Vec::new`: the list that it returns has no items.
#[verifier::external_body]
pub(crate) fn new_list(env: &soroban_sdk::Env) -> (list: soroban_sdk::Vec<u32>)
    ensures
        listed(list) == Seq::<Option<u32>>::empty(),
{
    soroban_sdk::Vec::new(env)
}

/// Calls `soroban_sdk::Vec::push_back`: the item comes to stand behind the
/// others, which stay as they are. The length of a host list is a `u32`, so a
/// list that is full is left out.
#[verifier::external_body]
pub(crate) fn append_to_list(list: &mut soroban_sdk::Vec<u32>, id: u32)
    requires
        listed(*old(list)).len() < u32::MAX,
    ensures
        listed(*final(list)) == listed(*old(list)).push(Some(id)),
{
    list.push_back(id)
}

/// Calls `soroban_sdk::Vec::len`: the number of items.
#[verifier::external_body]
pub(crate) fn list_len(list: &soroban_sdk::Vec<u32>) -> (length: u32)
    ensures
        length == listed(*list).len(),
{
    list.len()
}

/// Calls `soroban_sdk::Vec::try_get` with a position inside the list: the item
/// there, or `None` where what stands there is not a `u32`.
#[verifier::external_body]
pub(crate) fn list_item(list: &soroban_sdk::Vec<u32>, position: u32) -> (item: Option<u32>)
    requires
        position < listed(*list).len(),
    ensures
        item == listed(*list)[position as int],
{
    match list.try_get(position) {
        Ok(item) => item,
        Err(_) => None,
    }
}

} // verus!
