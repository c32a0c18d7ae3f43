//! Fungible assets: an amount of the token that one faucet issues.

use crate::account::AccountId;
use vstd::prelude::*;

verus! {

/// The largest amount that one asset can hold: 2^63 - 1.
pub const MAX_AMOUNT: u64 = 0x7fff_ffff_ffff_ffff;

/// Whether an identifier with this value belongs to a faucet of fungible
/// assets: the two bits below the top two say so.
pub open spec fn is_fungible_faucet(value: u64) -> bool {
    (value >> 60u64) & 0b11 == 0b10
}

/// An amount of the token issued by one faucet.
#[derive(Clone, Copy, Debug, PartialEq, Eq, Structural)]
pub struct FungibleAsset {
    pub faucet_id: AccountId,
    pub amount: u64,
}

/// The text of the ledger's refusal to make an asset of `amount` for the
/// faucet `faucet`.
pub uninterp spec fn asset_refusal(faucet: u64, amount: u64) -> Seq<char>;

/// What comes of asking the ledger for an asset of `amount` from the faucet
/// `faucet_id`: the asset, where the identifier is that of a faucet of
/// fungible assets and the amount is no larger than [`MAX_AMOUNT`], and the
/// ledger's refusal otherwise.
pub open spec fn asset_for(faucet_id: AccountId, amount: u64) -> Result<FungibleAsset, Seq<char>> {
    if is_fungible_faucet(faucet_id.value) && amount <= MAX_AMOUNT {
        Ok(FungibleAsset { faucet_id, amount })
    } else {
        Err(asset_refusal(faucet_id.value, amount))
    }
}

/// Calls `miden_objects::assets::FungibleAsset::new`.
///
/// Trusted: the asset is made exactly when the identifier is that of a
/// faucet of fungible assets and the amount is at most [`MAX_AMOUNT`]; it
/// then holds that identifier and that amount. Otherwise the text that the
/// error prints comes back, which depends on the two arguments alone.
#[verifier::external_body]
pub(crate) fn new_fungible_asset(faucet_id: AccountId, amount: u64) -> (made: Result<FungibleAsset, String>)
    ensures
        match made {
            Ok(asset) => {
                &&& is_fungible_faucet(faucet_id.value)
                &&& amount <= MAX_AMOUNT
                &&& asset.faucet_id == faucet_id
                &&& asset.amount == amount
            },
            Err(refusal) => {
                &&& !(is_fungible_faucet(faucet_id.value) && amount <= MAX_AMOUNT)
                &&& refusal@ == asset_refusal(faucet_id.value, amount)
            },
        },
{
    let element = miden_objects::Felt::new(faucet_id.value);
    let id = miden_objects::accounts::AccountId::new_unchecked(element);
    match miden_objects::assets::FungibleAsset::new(id, amount) {
        Ok(asset) => Ok(
            FungibleAsset {
                faucet_id: AccountId { value: u64::from(asset.faucet_id()) },
                amount: asset.amount(),
            },
        ),
        Err(err) => Err(err.to_string()),
    }
}

} // verus!
