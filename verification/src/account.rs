//! Account identifiers, as the ledger reads and prints them.

use crate::digest::Digest;
use miden_objects::accounts as ledger;
use miden_objects::Felt;
use vstd::prelude::*;

verus! {

/// An account identifier: one field element of the ledger, held as the
/// integer that stands for it.
#[derive(Clone, Copy, Debug, PartialEq, Eq, Structural)]
pub struct AccountId {
    pub value: u64,
}

/// What kind of account an identifier belongs to.
#[derive(Clone, Copy, Debug, PartialEq, Eq, Structural)]
pub enum AccountType {
    FungibleFaucet,
    NonFungibleFaucet,
    RegularAccountImmutableCode,
    RegularAccountUpdatableCode,
}

/// Where the state of an account is kept.
#[derive(Clone, Copy, Debug, PartialEq, Eq, Structural)]
pub enum AccountStorageType {
    OnChain,
    OffChain,
}

/// What the ledger makes of a text that should hold an account identifier:
/// the identifier's value, or its complaint about the text.
pub uninterp spec fn account_id_from_hex(text: Seq<char>) -> Result<u64, Seq<char>>;

/// The text that the ledger prints for the account identifier `value`.
pub uninterp spec fn account_id_to_hex(value: u64) -> Seq<char>;

/// The seed that the ledger finds for an account of the given kind, when it
/// starts its search from `init_seed`.
pub uninterp spec fn account_seed_for(
    init_seed: Seq<u8>,
    account_type: AccountType,
    storage_type: AccountStorageType,
    code_root: Seq<u64>,
    storage_root: Seq<u64>,
) -> Seq<u64>;

/// The identifier that the ledger derives from a seed and the two roots of
/// an account, or its complaint about the seed.
pub uninterp spec fn account_id_for(
    seed: Seq<u64>,
    code_root: Seq<u64>,
    storage_root: Seq<u64>,
) -> Result<u64, Seq<char>>;

impl AccountId {
    /// The identifier that `value` stands for.
    pub fn new(value: u64) -> (id: AccountId)
        ensures
            id.value == value,
    {
        AccountId { value }
    }
}

/// Calls `miden_objects::accounts::AccountId::from_hex`.
///
/// Trusted: the outcome depends on `text` alone. An identifier that was
/// accepted is handed over as its integer value (`u64::from`), a refusal as
/// the text that the error prints.
#[verifier::external_body]
pub(crate) fn decode_account_id(text: &str) -> (decoded: Result<AccountId, String>)
    ensures
        match decoded {
            Ok(id) => account_id_from_hex(text@) == Ok::<u64, Seq<char>>(id.value),
            Err(complaint) => account_id_from_hex(text@) == Err::<u64, Seq<char>>(complaint@),
        },
{
    match ledger::AccountId::from_hex(text) {
        Ok(id) => Ok(AccountId { value: u64::from(id) }),
        Err(err) => Err(err.to_string()),
    }
}

/// Calls `to_string` on the `miden_objects::accounts::AccountId` that holds
/// `id.value`.
///
/// Trusted: the text depends on the value alone.
#[verifier::external_body]
pub(crate) fn print_account_id(id: AccountId) -> (text: String)
    ensures
        text@ == account_id_to_hex(id.value),
{
    ledger::AccountId::new_unchecked(Felt::new(id.value)).to_string()
}

/// Calls `miden_objects::accounts::get_account_seed`, built without the
/// crate's feature `concurrent`.
///
/// Trusted: the search is the same for the same arguments, and what it
/// returns is always a seed: one from which, with the same two roots,
/// `AccountId::new` derives an identifier. Nothing is said of how long the
/// search takes.
#[verifier::external_body]
pub(crate) fn account_seed(init_seed: [u8; 32], account_type: AccountType, storage_type: AccountStorageType, code_root: Digest, storage_root: Digest) -> (found: Result<[u64; 4], String>)
    ensures
        match found {
            Ok(seed) => {
                &&& seed@ == account_seed_for(
                    init_seed@,
                    account_type,
                    storage_type,
                    code_root.elements@,
                    storage_root.elements@,
                )
                &&& account_id_for(seed@, code_root.elements@, storage_root.elements@) is Ok
            },
            Err(_) => false,
        },
{
    let account_type = match account_type {
        AccountType::FungibleFaucet => ledger::AccountType::FungibleFaucet,
        AccountType::NonFungibleFaucet => ledger::AccountType::NonFungibleFaucet,
        AccountType::RegularAccountImmutableCode => ledger::AccountType::RegularAccountImmutableCode,
        AccountType::RegularAccountUpdatableCode => ledger::AccountType::RegularAccountUpdatableCode,
    };
    let storage_type = match storage_type {
        AccountStorageType::OnChain => ledger::AccountStorageType::OnChain,
        AccountStorageType::OffChain => ledger::AccountStorageType::OffChain,
    };
    let code = miden_objects::Digest::from(code_root.elements.map(Felt::new));
    let storage = miden_objects::Digest::from(storage_root.elements.map(Felt::new));
    ledger::get_account_seed(init_seed, account_type, storage_type, code, storage)
        .map(|seed| seed.map(|element| element.as_int()))
        .map_err(|err| err.to_string())
}

/// Calls `miden_objects::accounts::AccountId::new`.
///
/// Trusted: the outcome depends on the seed and the two roots alone. An
/// identifier is handed over as its integer value, a refusal as the text
/// that the error prints.
#[verifier::external_body]
pub(crate) fn account_id_from_seed(seed: [u64; 4], code_root: Digest, storage_root: Digest) -> (made: Result<AccountId, String>)
    ensures
        match made {
            Ok(id) => account_id_for(seed@, code_root.elements@, storage_root.elements@) == Ok::<
                u64,
                Seq<char>,
            >(id.value),
            Err(complaint) => account_id_for(seed@, code_root.elements@, storage_root.elements@)
                == Err::<u64, Seq<char>>(complaint@),
        },
{
    let code = miden_objects::Digest::from(code_root.elements.map(Felt::new));
    let storage = miden_objects::Digest::from(storage_root.elements.map(Felt::new));
    match ledger::AccountId::new(seed.map(Felt::new), code, storage) {
        Ok(id) => Ok(AccountId { value: u64::from(id) }),
        Err(err) => Err(err.to_string()),
    }
}

} // verus!
