//! Trusted boundary to the host runtime.
//!
//! Everything the contract needs from the chain — durable key-value storage,
//! the identity of the signer, the contract balance and the native transfer
//! primitive — comes through the narrow wrappers below. Their contracts state
//! what the host promises; nothing else in the crate is taken on trust.

use vstd::prelude::*;

verus! {

/// Declares `near_sdk::collections::LookupMap`, the durable key-value
/// store the host supplies, so that it can stand in signatures and fields.
#[verifier::external_type_specification]
#[verifier::external_body]
#[verifier::reject_recursive_types(K)]
#[verifier::reject_recursive_types(V)]
pub struct ExLookupMap<K, V>(near_sdk::collections::LookupMap<K, V>);

/// Declares `near_sdk::AccountId`, the host-validated account identity,
/// carried opaquely from validation to the transfer primitive.
#[verifier::external_type_specification]
#[verifier::external_body]
pub struct ExAccountId(near_sdk::AccountId);

/// The concrete storage map the ledger lives in.
pub type MemoMap = near_sdk::collections::LookupMap<String, Vec<String>>;

/// The account-to-records mapping that a `MemoMap` holds in durable
/// storage: one entry per account identity ever written, and no entry for
/// an account that was never written.
pub uninterp spec fn ledger_contents(m: MemoMap) -> Map<Seq<char>, Seq<Seq<char>>>;

/// Whether the host runtime accepts `s` as an account identity; acceptance
/// depends on the characters of `s` alone.
pub uninterp spec fn account_id_valid(s: Seq<char>) -> bool;

/// Relies on `near_sdk::collections::LookupMap::new`: a fresh map under a
/// storage prefix that no other map of this contract uses holds no entry
/// until one is inserted.
#[verifier::external_body]
pub(crate) fn ledger_new(prefix: &str) -> (m: MemoMap)
    ensures
        (ledger_contents(m) == Map::<Seq<char>, Seq<Seq<char>>>::empty()),
{
    near_sdk::collections::LookupMap::new(prefix.as_bytes().to_vec())
}

/// Relies on `near_sdk::collections::LookupMap::contains_key`: a key is
/// present exactly when a value has been stored under it.
#[verifier::external_body]
pub(crate) fn ledger_contains(m: &MemoMap, key: &String) -> (r: bool)
    ensures
        r == ledger_contents(*m).contains_key(key@),
{
    m.contains_key(key)
}

/// Relies on `near_sdk::collections::LookupMap::get`: returns the value
/// stored under `key`, or `None` when the key was never written.
#[verifier::external_body]
pub(crate) fn ledger_get(m: &MemoMap, key: &String) -> (r: Option<Vec<String>>)
    ensures
        r is Some <==> ledger_contents(*m).contains_key(key@),
        r matches Some(v) ==> v.deep_view() == ledger_contents(*m)[key@],
{
    m.get(key)
}

/// Relies on `near_sdk::collections::LookupMap::insert`: stores `value`
/// under `key`, replacing any earlier value there and touching no other key.
#[verifier::external_body]
pub(crate) fn ledger_insert(m: &mut MemoMap, key: &String, value: &Vec<String>)
    ensures
        ledger_contents(*final(m)) == ledger_contents(*old(m)).insert(key@, value.deep_view()),
{
    m.insert(key, value);
}

/// Relies on `near_sdk::env::signer_account_id`: the identity that signed
/// the transaction behind the current call, resolved by the host before the
/// call body runs. Which identity comes back depends on the host alone, so
/// nothing is promised of the value.
#[verifier::external_body]
pub(crate) fn signer_account_id() -> (r: String) {
    near_sdk::env::signer_account_id().to_string()
}

/// Relies on `near_sdk::env::account_balance`: the native balance of the
/// contract account in yoctoNEAR at this point of the call. The value
/// depends on the host state alone, so nothing is promised of it.
#[verifier::external_body]
pub(crate) fn account_balance() -> (r: u128) {
    near_sdk::env::account_balance().as_yoctonear()
}

/// Relies on `TryFrom<String> for near_sdk::AccountId`: the host-side
/// validation of an account identity accepts or rejects a string by its
/// characters alone.
#[verifier::external_body]
pub(crate) fn parse_account_id(s: &String) -> (r: Option<near_sdk::AccountId>)
    ensures
        r is Some <==> account_id_valid(s@),
{
    near_sdk::AccountId::try_from(s.clone()).ok()
}

/// Relies on `near_sdk::Promise::transfer`: schedules a native transfer of
/// `amount` yoctoNEAR from the contract balance to `target`; the host
/// settles it after the call commits.
#[verifier::external_body]
pub(crate) fn promise_transfer(target: near_sdk::AccountId, amount: u128) {
    near_sdk::Promise::new(target).transfer(near_sdk::NearToken::from_yoctonear(amount));
}

} // verus!
