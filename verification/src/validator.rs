//! The check that every request passes before any work is done for it.

use crate::account::{account_id_from_hex, decode_account_id, AccountId};
use crate::errors::{ValidationError, ValidationErrorView};
use crate::policy::AssetAmountPolicy;
use vstd::prelude::*;

verus! {

/// A request as a client sends it.
#[derive(Clone, Debug, PartialEq, Eq)]
pub struct FaucetRequest {
    /// The account that is to receive the note, in hexadecimal.
    pub account_id: String,
    /// Whether the note is to be kept off the chain.
    pub is_private_note: bool,
    /// The amount asked for.
    pub asset_amount: u64,
}

/// A request that passed validation. It is made by [`validate`] and
/// [`validate_decoded`] only, and cannot be changed afterwards.
#[derive(Clone, Debug, PartialEq, Eq)]
pub struct IssuanceRequest {
    target_account_id: AccountId,
    is_private: bool,
    amount: u64,
}

/// What an [`IssuanceRequest`] holds.
pub struct IssuanceRequestView {
    pub target_account_id: AccountId,
    pub is_private: bool,
    pub amount: u64,
}

impl View for IssuanceRequest {
    type V = IssuanceRequestView;

    closed spec fn view(&self) -> IssuanceRequestView {
        IssuanceRequestView {
            target_account_id: self.target_account_id,
            is_private: self.is_private,
            amount: self.amount,
        }
    }
}

impl IssuanceRequest {
    /// The account that is to receive the note.
    pub fn target_account_id(&self) -> (id: AccountId)
        ensures
            id == self@.target_account_id,
    {
        self.target_account_id
    }

    /// Whether the note is to be kept off the chain.
    pub fn is_private(&self) -> (is_private: bool)
        ensures
            is_private == self@.is_private,
    {
        self.is_private
    }

    /// The amount to mint.
    pub fn amount(&self) -> (amount: u64)
        ensures
            amount == self@.amount,
    {
        self.amount
    }
}

/// The validator's verdict. The amount is looked at first: where it is not
/// among `permitted`, nothing else matters. Then the account identifier must
/// have been decoded.
pub open spec fn validation_outcome(
    permitted: Seq<u64>,
    amount: u64,
    is_private: bool,
    decoded: Result<u64, Seq<char>>,
) -> Result<IssuanceRequestView, ValidationErrorView> {
    if !permitted.contains(amount) {
        Err(ValidationErrorView::InvalidAmount)
    } else {
        match decoded {
            Ok(value) => Ok(
                IssuanceRequestView {
                    target_account_id: AccountId { value },
                    is_private,
                    amount,
                },
            ),
            Err(complaint) => Err(ValidationErrorView::MalformedAccountId(complaint)),
        }
    }
}

/// What the decoder made of an identifier, as plain values.
pub open spec fn decoded_view(decoded: Result<AccountId, String>) -> Result<u64, Seq<char>> {
    match decoded {
        Ok(id) => Ok(id.value),
        Err(complaint) => Err(complaint@),
    }
}

/// Whether `outcome` is the verdict `verdict`.
pub open spec fn is_verdict(
    outcome: Result<IssuanceRequest, ValidationError>,
    verdict: Result<IssuanceRequestView, ValidationErrorView>,
) -> bool {
    match verdict {
        Ok(accepted) => outcome matches Ok(request) && request@ == accepted,
        Err(refusal) => outcome matches Err(err) && err@ == refusal,
    }
}

/// Validates a request whose account identifier has been through the
/// decoder already: `decoded` is what the decoder made of it.
pub fn validate_decoded(
    amount: u64,
    is_private: bool,
    decoded: Result<AccountId, String>,
    policy: &AssetAmountPolicy,
) -> (outcome: Result<IssuanceRequest, ValidationError>)
    ensures
        is_verdict(outcome, validation_outcome(policy@, amount, is_private, decoded_view(decoded))),
        !policy@.contains(amount) ==> outcome matches Err(ValidationError::InvalidAmount),
        decoded is Err ==> outcome is Err,
{
    if !policy.permits(amount) {
        return Err(ValidationError::InvalidAmount);
    }
    match decoded {
        Ok(target_account_id) => Ok(IssuanceRequest { target_account_id, is_private, amount }),
        Err(complaint) => Err(ValidationError::MalformedAccountId(complaint)),
    }
}

/// Validates a request against the policy: the amount must be one of the
/// permitted ones, and the account identifier must decode. The amount is
/// looked at first, and the decoder is not asked where it is refused.
pub fn validate(request: &FaucetRequest, policy: &AssetAmountPolicy) -> (outcome: Result<IssuanceRequest, ValidationError>)
    ensures
        is_verdict(
            outcome,
            validation_outcome(
                policy@,
                request.asset_amount,
                request.is_private_note,
                account_id_from_hex(request.account_id@),
            ),
        ),
        !policy@.contains(request.asset_amount) ==> outcome matches Err(
            ValidationError::InvalidAmount,
        ),
        account_id_from_hex(request.account_id@) is Err ==> outcome is Err,
{
    if !policy.permits(request.asset_amount) {
        return Err(ValidationError::InvalidAmount);
    }
    match decode_account_id(request.account_id.as_str()) {
        Ok(target_account_id) => Ok(
            IssuanceRequest {
                target_account_id,
                is_private: request.is_private_note,
                amount: request.asset_amount,
            },
        ),
        Err(complaint) => Err(ValidationError::MalformedAccountId(complaint)),
    }
}

} // verus!
