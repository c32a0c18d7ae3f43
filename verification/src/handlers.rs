//! The two things a client can ask of the faucet: what it offers, and a note.

use crate::account::{account_id_from_hex, account_id_to_hex, print_account_id, AccountId};
use crate::errors::{ValidationError, ValidationErrorView};
use crate::note::IssuedNote;
use crate::orchestrator::{issue, start, Issuance, IssuanceView, LedgerCall};
use crate::policy::AssetAmountPolicy;
use crate::validator::{validate, validation_outcome, FaucetRequest};
use vstd::prelude::*;

verus! {

/// What the faucet knows about itself from the start.
#[derive(Clone, Debug, PartialEq, Eq)]
pub struct FaucetState {
    /// The faucet's own account.
    pub id: AccountId,
    /// The amounts it hands out.
    pub asset_amount_options: AssetAmountPolicy,
}

/// What a client learns about the faucet.
#[derive(Clone, Debug, PartialEq, Eq)]
pub struct FaucetMetadata {
    /// The faucet's account identifier, as the ledger prints it.
    pub id: String,
    /// The amounts on offer, in order.
    pub asset_amount_options: Vec<u64>,
}

impl FaucetMetadata {
    /// The metadata of a faucet whose identifier is printed as `id`.
    pub fn new(id: String, policy: &AssetAmountPolicy) -> (metadata: FaucetMetadata)
        ensures
            metadata.id@ == id@,
            metadata.asset_amount_options@ == policy@,
    {
        FaucetMetadata { id, asset_amount_options: policy.options() }
    }
}

/// The faucet's metadata: its identifier in the ledger's notation, and the
/// permitted amounts.
pub fn get_metadata(state: &FaucetState) -> (metadata: FaucetMetadata)
    ensures
        metadata.id@ == account_id_to_hex(state.id.value),
        metadata.asset_amount_options@ == state.asset_amount_options@,
{
    FaucetMetadata::new(print_account_id(state.id), &state.asset_amount_options)
}

/// What becomes of a request: it is refused by the validator, or an
/// issuance starts.
pub open spec fn admission(
    permitted: Seq<u64>,
    amount: u64,
    is_private: bool,
    decoded: Result<u64, Seq<char>>,
    faucet_id: AccountId,
) -> Result<(IssuanceView, Option<LedgerCall>), ValidationErrorView> {
    match validation_outcome(permitted, amount, is_private, decoded) {
        Ok(request) => Ok(start(request, faucet_id)),
        Err(refusal) => Err(refusal),
    }
}

/// Takes a request for tokens. A request with an amount that is not on
/// offer, or with an account identifier that does not decode, is refused
/// before anything is made for it, and no call to the ledger's client falls
/// due. Otherwise the issuance starts, as [`issue`] says.
pub fn get_tokens(req: &FaucetRequest, state: &FaucetState) -> (taken: Result<(Issuance, Option<LedgerCall>), ValidationError>)
    ensures
        match admission(
            state.asset_amount_options@,
            req.asset_amount,
            req.is_private_note,
            account_id_from_hex(req.account_id@),
            state.id,
        ) {
            Ok(begun) => taken matches Ok(started) && (started.0@, started.1) == begun,
            Err(refusal) => taken matches Err(err) && err@ == refusal,
        },
        !state.asset_amount_options@.contains(req.asset_amount) ==> taken matches Err(
            ValidationError::InvalidAmount,
        ),
        account_id_from_hex(req.account_id@) is Err ==> taken is Err,
{
    match validate(req, &state.asset_amount_options) {
        Ok(request) => Ok(issue(request, state.id)),
        Err(err) => Err(err),
    }
}

/// A note, packed for delivery to the client who asked for it.
#[derive(Clone, Debug, PartialEq, Eq)]
pub struct NoteResponse {
    /// The note's bytes.
    pub body: Vec<u8>,
    /// The note's identifier, sent along in the header [`NOTE_ID_HEADER`].
    pub note_id: String,
    /// The name under which the client is to save the body.
    pub filename: String,
    /// The kind of content that the body is.
    pub content_type: String,
}

/// The header that carries the note's identifier.
pub const NOTE_ID_HEADER: &'static str = "Note-Id";

/// The file name that a note is delivered under.
pub open spec fn note_filename() -> Seq<char> {
    "note.mno"@
}

/// The content type that a note is delivered as.
pub open spec fn note_content_type() -> Seq<char> {
    "application/octet-stream"@
}

impl NoteResponse {
    /// Packs a note: the body is the note's bytes and the identifier is the
    /// note's own, so the two always belong to one note.
    pub fn new(note: IssuedNote) -> (response: NoteResponse)
        ensures
            response.body@ == note@.bytes,
            response.note_id@ == note@.id,
            response.filename@ == note_filename(),
            response.content_type@ == note_content_type(),
    {
        NoteResponse {
            body: note.bytes,
            note_id: note.id,
            filename: "note.mno".to_string(),
            content_type: "application/octet-stream".to_string(),
        }
    }
}

} // verus!
