//! The issuance of one note, as a sequence of decisions.
//!
//! The ledger's client executes, proves and submits; that work is not done
//! here. An [`Issuance`] says which call is due next, is told how the call
//! went, and says what follows. A request is tried once: no call is repeated.

use crate::account::AccountId;
use crate::asset::{asset_for, new_fungible_asset, FungibleAsset};
use crate::errors::{IssuanceError, IssuanceErrorView};
use crate::note::{
    slot_at, visibility_for, ExecutionResult, IssuedNote, IssuedNoteView, MintTransactionTemplate,
    NoteSlot, NoteSlotView, NoteVisibility, OutputNoteView, MINT_OUTPUT_SLOT,
};
use crate::validator::{IssuanceRequest, IssuanceRequestView};
use vstd::prelude::*;

verus! {

/// A call that the ledger's client is to make.
#[derive(Clone, Copy, Debug, PartialEq, Eq, Structural)]
pub enum LedgerCall {
    /// Turn the template into a transaction request.
    BuildTransactionRequest(MintTransactionTemplate),
    /// Execute the transaction request that was built.
    Execute,
    /// Prove the executed transaction and submit it to the network.
    Submit,
}

/// How a call went.
#[derive(Clone, Debug, PartialEq, Eq)]
pub enum LedgerReply {
    /// The transaction request was built.
    RequestBuilt,
    /// The transaction was executed, with this result.
    Executed(ExecutionResult),
    /// The transaction was submitted.
    Submitted,
    /// The call failed; what the ledger's client reported.
    Failed(String),
}

/// [`LedgerReply`] as sequences.
pub enum LedgerReplyView {
    RequestBuilt,
    Executed(Seq<OutputNoteView>),
    Submitted,
    Failed(Seq<char>),
}

impl View for LedgerReply {
    type V = LedgerReplyView;

    open spec fn view(&self) -> LedgerReplyView {
        match self {
            LedgerReply::RequestBuilt => LedgerReplyView::RequestBuilt,
            LedgerReply::Executed(result) => LedgerReplyView::Executed(result@),
            LedgerReply::Submitted => LedgerReplyView::Submitted,
            LedgerReply::Failed(detail) => LedgerReplyView::Failed(detail@),
        }
    }
}

/// How far the issuance of one note has come.
#[derive(Clone, Debug, PartialEq, Eq)]
pub enum Issuance {
    /// The transaction request is being built.
    AwaitingRequest,
    /// The transaction is being executed.
    AwaitingExecution,
    /// The transaction, which created this note, is being submitted.
    AwaitingSubmission(IssuedNote),
    /// The note was issued.
    Issued(IssuedNote),
    /// The issuance failed.
    Failed(IssuanceError),
}

/// [`Issuance`] as sequences.
pub enum IssuanceView {
    AwaitingRequest,
    AwaitingExecution,
    AwaitingSubmission(IssuedNoteView),
    Issued(IssuedNoteView),
    Failed(IssuanceErrorView),
}

impl View for Issuance {
    type V = IssuanceView;

    open spec fn view(&self) -> IssuanceView {
        match self {
            Issuance::AwaitingRequest => IssuanceView::AwaitingRequest,
            Issuance::AwaitingExecution => IssuanceView::AwaitingExecution,
            Issuance::AwaitingSubmission(note) => IssuanceView::AwaitingSubmission(note@),
            Issuance::Issued(note) => IssuanceView::Issued(note@),
            Issuance::Failed(err) => IssuanceView::Failed(err@),
        }
    }
}

/// What is reported where a reply does not answer the call that was due.
pub open spec fn unexpected_reply_message() -> Seq<char> {
    "Unexpected reply from the ledger client."@
}

/// The mint of `asset` that a request asks for.
pub open spec fn template_for(request: IssuanceRequestView, asset: FungibleAsset) -> MintTransactionTemplate {
    MintTransactionTemplate {
        faucet_account_id: asset.faucet_id,
        target_account_id: request.target_account_id,
        amount: asset.amount,
        note_visibility: visibility_for(request.is_private),
    }
}

/// Where an issuance starts, given what came of making the asset: with the
/// asset, the transaction request is to be built from the template; without
/// it, the issuance has failed already.
pub open spec fn start_with(request: IssuanceRequestView, made: Result<FungibleAsset, Seq<char>>) -> (
    IssuanceView,
    Option<LedgerCall>,
) {
    match made {
        Ok(asset) => (
            IssuanceView::AwaitingRequest,
            Some(LedgerCall::BuildTransactionRequest(template_for(request, asset))),
        ),
        Err(refusal) => (
            IssuanceView::Failed(IssuanceErrorView::AssetConstructionError(refusal)),
            None,
        ),
    }
}

/// Where the issuance of the note that `request` asks of the faucet
/// `faucet_id` starts: with the asset of the requested amount.
pub open spec fn start(request: IssuanceRequestView, faucet_id: AccountId) -> (
    IssuanceView,
    Option<LedgerCall>,
) {
    start_with(request, asset_for(faucet_id, request.amount))
}

/// What follows from a reply: the next state, and the call that is due then.
///
/// A failed call ends the issuance with the error of its step. So does a
/// reply that does not answer the call that was due. An execution counts
/// only if it left a full note in the first output slot. Once the issuance
/// has ended, nothing changes it and no call is due.
pub open spec fn next(state: IssuanceView, reply: LedgerReplyView) -> (
    IssuanceView,
    Option<LedgerCall>,
) {
    match state {
        IssuanceView::AwaitingRequest => match reply {
            LedgerReplyView::RequestBuilt => (
                IssuanceView::AwaitingExecution,
                Some(LedgerCall::Execute),
            ),
            LedgerReplyView::Failed(detail) => (
                IssuanceView::Failed(IssuanceErrorView::TemplateBuildError(detail)),
                None,
            ),
            _ => (
                IssuanceView::Failed(
                    IssuanceErrorView::TemplateBuildError(unexpected_reply_message()),
                ),
                None,
            ),
        },
        IssuanceView::AwaitingExecution => match reply {
            LedgerReplyView::Executed(notes) => match slot_at(notes, MINT_OUTPUT_SLOT as int) {
                NoteSlotView::FullNote(note) => (
                    IssuanceView::AwaitingSubmission(note),
                    Some(LedgerCall::Submit),
                ),
                _ => (IssuanceView::Failed(IssuanceErrorView::NoteGenerationError), None),
            },
            LedgerReplyView::Failed(detail) => (
                IssuanceView::Failed(IssuanceErrorView::ExecutionError(detail)),
                None,
            ),
            _ => (
                IssuanceView::Failed(IssuanceErrorView::ExecutionError(unexpected_reply_message())),
                None,
            ),
        },
        IssuanceView::AwaitingSubmission(note) => match reply {
            LedgerReplyView::Submitted => (IssuanceView::Issued(note), None),
            LedgerReplyView::Failed(detail) => (
                IssuanceView::Failed(IssuanceErrorView::SubmissionError(detail)),
                None,
            ),
            _ => (
                IssuanceView::Failed(
                    IssuanceErrorView::SubmissionError(unexpected_reply_message()),
                ),
                None,
            ),
        },
        IssuanceView::Issued(_) => (state, None),
        IssuanceView::Failed(_) => (state, None),
    }
}

/// The outcome of an issuance that has ended; `None` while a call is due.
pub open spec fn outcome_of(state: IssuanceView) -> Option<Result<IssuedNoteView, IssuanceErrorView>> {
    match state {
        IssuanceView::Issued(note) => Some(Ok(note)),
        IssuanceView::Failed(err) => Some(Err(err)),
        _ => None,
    }
}

/// What was made of an asset, as plain values.
pub open spec fn made_view(made: Result<FungibleAsset, String>) -> Result<FungibleAsset, Seq<char>> {
    match made {
        Ok(asset) => Ok(asset),
        Err(refusal) => Err(refusal@),
    }
}

/// Starts an issuance for which the asset has been asked for already:
/// `made` is what came of it. Picks the note's visibility and asks for the
/// transaction request to be built.
pub fn begin(request: IssuanceRequest, made: Result<FungibleAsset, String>) -> (begun: (Issuance, Option<LedgerCall>))
    ensures
        (begun.0@, begun.1) == start_with(request@, made_view(made)),
{
    match made {
        Ok(asset) => {
            let template = MintTransactionTemplate {
                faucet_account_id: asset.faucet_id,
                target_account_id: request.target_account_id(),
                amount: asset.amount,
                note_visibility: NoteVisibility::select(request.is_private()),
            };
            (Issuance::AwaitingRequest, Some(LedgerCall::BuildTransactionRequest(template)))
        },
        Err(refusal) => (Issuance::Failed(IssuanceError::AssetConstructionError(refusal)), None),
    }
}

/// Starts the issuance of the note that `request` asks of the faucet
/// `faucet_id`: makes the asset, picks the note's visibility, and asks for the
/// transaction request to be built.
pub fn issue(request: IssuanceRequest, faucet_id: AccountId) -> (begun: (Issuance, Option<LedgerCall>))
    ensures
        (begun.0@, begun.1) == start(request@, faucet_id),
{
    let made = new_fungible_asset(faucet_id, request.amount());
    begin(request, made)
}

impl Issuance {
    /// Takes the reply to the call that was due, and says what follows.
    pub fn step(self, reply: LedgerReply) -> (then: (Issuance, Option<LedgerCall>))
        ensures
            (then.0@, then.1) == next(self@, reply@),
    {
        match self {
            Issuance::AwaitingRequest => match reply {
                LedgerReply::RequestBuilt => (Issuance::AwaitingExecution, Some(LedgerCall::Execute)),
                LedgerReply::Failed(detail) => (
                    Issuance::Failed(IssuanceError::TemplateBuildError(detail)),
                    None,
                ),
                _ => (
                    Issuance::Failed(
                        IssuanceError::TemplateBuildError(
                            "Unexpected reply from the ledger client.".to_string(),
                        ),
                    ),
                    None,
                ),
            },
            Issuance::AwaitingExecution => match reply {
                LedgerReply::Executed(result) => match result.take_note(MINT_OUTPUT_SLOT) {
                    NoteSlot::FullNote(note) => (
                        Issuance::AwaitingSubmission(note),
                        Some(LedgerCall::Submit),
                    ),
                    _ => (Issuance::Failed(IssuanceError::NoteGenerationError), None),
                },
                LedgerReply::Failed(detail) => (
                    Issuance::Failed(IssuanceError::ExecutionError(detail)),
                    None,
                ),
                _ => (
                    Issuance::Failed(
                        IssuanceError::ExecutionError(
                            "Unexpected reply from the ledger client.".to_string(),
                        ),
                    ),
                    None,
                ),
            },
            Issuance::AwaitingSubmission(note) => match reply {
                LedgerReply::Submitted => (Issuance::Issued(note), None),
                LedgerReply::Failed(detail) => (
                    Issuance::Failed(IssuanceError::SubmissionError(detail)),
                    None,
                ),
                _ => (
                    Issuance::Failed(
                        IssuanceError::SubmissionError(
                            "Unexpected reply from the ledger client.".to_string(),
                        ),
                    ),
                    None,
                ),
            },
            Issuance::Issued(note) => (Issuance::Issued(note), None),
            Issuance::Failed(err) => (Issuance::Failed(err), None),
        }
    }

    /// The outcome, once the issuance has ended; `None` while a call is due.
    pub fn outcome(self) -> (outcome: Option<Result<IssuedNote, IssuanceError>>)
        ensures
            match outcome_of(self@) {
                Some(Ok(note)) => outcome matches Some(Ok(issued)) && issued@ == note,
                Some(Err(err)) => outcome matches Some(Err(failure)) && failure@ == err,
                None => outcome is None,
            },
    {
        match self {
            Issuance::Issued(note) => Some(Ok(note)),
            Issuance::Failed(err) => Some(Err(err)),
            _ => None,
        }
    }
}

} // verus!
