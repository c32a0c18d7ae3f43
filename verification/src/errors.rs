//! What can go wrong with a request, and what the caller is told about it.

use vstd::prelude::*;

verus! {

/// Status of a reply to a request that the caller got wrong.
pub const STATUS_BAD_REQUEST: u16 = 400;

/// Status of a reply to a request that failed through no fault of the caller.
pub const STATUS_INTERNAL_SERVER_ERROR: u16 = 500;

/// Why a request was turned down before any work was done for it.
#[derive(Clone, Debug, PartialEq, Eq)]
pub enum ValidationError {
    /// The amount asked for is not one that the faucet hands out.
    InvalidAmount,
    /// The account identifier could not be decoded; the decoder's complaint.
    MalformedAccountId(String),
}

/// [`ValidationError`] with its text as a sequence of characters.
pub enum ValidationErrorView {
    InvalidAmount,
    MalformedAccountId(Seq<char>),
}

impl View for ValidationError {
    type V = ValidationErrorView;

    open spec fn view(&self) -> ValidationErrorView {
        match self {
            ValidationError::InvalidAmount => ValidationErrorView::InvalidAmount,
            ValidationError::MalformedAccountId(complaint) => ValidationErrorView::MalformedAccountId(
                complaint@,
            ),
        }
    }
}

/// Why an accepted request did not end in a note. Each variant but
/// `NoteGenerationError` carries what the failing party reported.
#[derive(Clone, Debug, PartialEq, Eq)]
pub enum IssuanceError {
    /// The asset could not be made from the faucet's identifier and the amount.
    AssetConstructionError(String),
    /// The ledger's client could not turn the template into a request.
    TemplateBuildError(String),
    /// The ledger's client could not execute the transaction.
    ExecutionError(String),
    /// The execution did not leave a full note in the first output slot.
    NoteGenerationError,
    /// The ledger's client could not submit the executed transaction.
    SubmissionError(String),
}

/// [`IssuanceError`] with its texts as sequences of characters.
pub enum IssuanceErrorView {
    AssetConstructionError(Seq<char>),
    TemplateBuildError(Seq<char>),
    ExecutionError(Seq<char>),
    NoteGenerationError,
    SubmissionError(Seq<char>),
}

impl View for IssuanceError {
    type V = IssuanceErrorView;

    open spec fn view(&self) -> IssuanceErrorView {
        match self {
            IssuanceError::AssetConstructionError(detail) => IssuanceErrorView::AssetConstructionError(
                detail@,
            ),
            IssuanceError::TemplateBuildError(detail) => IssuanceErrorView::TemplateBuildError(
                detail@,
            ),
            IssuanceError::ExecutionError(detail) => IssuanceErrorView::ExecutionError(detail@),
            IssuanceError::NoteGenerationError => IssuanceErrorView::NoteGenerationError,
            IssuanceError::SubmissionError(detail) => IssuanceErrorView::SubmissionError(detail@),
        }
    }
}

/// A failed request as it is answered: a fault of the caller, with a text for
/// the caller, or a fault of the service, with a text for its operators.
#[derive(Clone, Debug, PartialEq, Eq)]
pub enum FaucetError {
    BadRequest(String),
    InternalServerError(String),
}

/// [`FaucetError`] with its text as a sequence of characters.
pub enum FaucetErrorView {
    BadRequest(Seq<char>),
    InternalServerError(Seq<char>),
}

impl View for FaucetError {
    type V = FaucetErrorView;

    open spec fn view(&self) -> FaucetErrorView {
        match self {
            FaucetError::BadRequest(message) => FaucetErrorView::BadRequest(message@),
            FaucetError::InternalServerError(detail) => FaucetErrorView::InternalServerError(
                detail@,
            ),
        }
    }
}

/// The text that a caller reads when the amount is not on offer.
pub open spec fn invalid_amount_message() -> Seq<char> {
    "Invalid asset amount."@
}

/// The text that operators read when no full note came out of an execution.
pub open spec fn note_generation_message() -> Seq<char> {
    "Failed to generate note."@
}

/// The text that a caller reads whenever the service is at fault.
pub open spec fn internal_error_message() -> Seq<char> {
    "Internal server error."@
}

/// How a refusal by the validator is answered: as the caller's fault, with
/// the reason.
pub open spec fn answer_to_validation(err: ValidationErrorView) -> FaucetErrorView {
    match err {
        ValidationErrorView::InvalidAmount => FaucetErrorView::BadRequest(invalid_amount_message()),
        ValidationErrorView::MalformedAccountId(complaint) => FaucetErrorView::BadRequest(
            complaint,
        ),
    }
}

/// How a failed issuance is answered: as the service's fault, with what went
/// wrong kept for the operators.
pub open spec fn answer_to_issuance(err: IssuanceErrorView) -> FaucetErrorView {
    match err {
        IssuanceErrorView::AssetConstructionError(detail) => FaucetErrorView::InternalServerError(
            detail,
        ),
        IssuanceErrorView::TemplateBuildError(detail) => FaucetErrorView::InternalServerError(
            detail,
        ),
        IssuanceErrorView::ExecutionError(detail) => FaucetErrorView::InternalServerError(detail),
        IssuanceErrorView::NoteGenerationError => FaucetErrorView::InternalServerError(
            note_generation_message(),
        ),
        IssuanceErrorView::SubmissionError(detail) => FaucetErrorView::InternalServerError(detail),
    }
}

/// The status with which a failure is answered.
pub open spec fn status_of(err: FaucetErrorView) -> u16 {
    match err {
        FaucetErrorView::BadRequest(_) => STATUS_BAD_REQUEST,
        FaucetErrorView::InternalServerError(_) => STATUS_INTERNAL_SERVER_ERROR,
    }
}

/// The text that the caller gets to read about a failure. What went wrong
/// inside the service is not part of it.
pub open spec fn body_of(err: FaucetErrorView) -> Seq<char> {
    match err {
        FaucetErrorView::BadRequest(message) => message,
        FaucetErrorView::InternalServerError(_) => internal_error_message(),
    }
}

/// Every refusal by the validator is answered as the caller's fault.
pub proof fn law_validation_is_the_callers_fault(err: ValidationErrorView)
    ensures
        status_of(answer_to_validation(err)) == STATUS_BAD_REQUEST,
        err is InvalidAmount ==> body_of(answer_to_validation(err)) == invalid_amount_message(),
        err matches ValidationErrorView::MalformedAccountId(complaint) ==> body_of(
            answer_to_validation(err),
        ) == complaint,
{
}

/// Every failed issuance is answered as the service's fault, and always with
/// the same text: what the failing party reported stays with the operators.
pub proof fn law_issuance_is_the_services_fault(err: IssuanceErrorView)
    ensures
        status_of(answer_to_issuance(err)) == STATUS_INTERNAL_SERVER_ERROR,
        body_of(answer_to_issuance(err)) == internal_error_message(),
{
}

impl FaucetError {
    /// The answer to a request that the validator turned down.
    pub fn from_validation(err: ValidationError) -> (answer: FaucetError)
        ensures
            answer@ == answer_to_validation(err@),
    {
        match err {
            ValidationError::InvalidAmount => FaucetError::BadRequest(
                "Invalid asset amount.".to_string(),
            ),
            ValidationError::MalformedAccountId(complaint) => FaucetError::BadRequest(complaint),
        }
    }

    /// The answer to a request whose issuance failed.
    pub fn from_issuance(err: IssuanceError) -> (answer: FaucetError)
        ensures
            answer@ == answer_to_issuance(err@),
    {
        match err {
            IssuanceError::AssetConstructionError(detail) => FaucetError::InternalServerError(
                detail,
            ),
            IssuanceError::TemplateBuildError(detail) => FaucetError::InternalServerError(detail),
            IssuanceError::ExecutionError(detail) => FaucetError::InternalServerError(detail),
            IssuanceError::NoteGenerationError => FaucetError::InternalServerError(
                "Failed to generate note.".to_string(),
            ),
            IssuanceError::SubmissionError(detail) => FaucetError::InternalServerError(detail),
        }
    }

    /// The status of the reply.
    pub fn status_code(&self) -> (status: u16)
        ensures
            status == status_of(self@),
    {
        match self {
            FaucetError::BadRequest(_) => STATUS_BAD_REQUEST,
            FaucetError::InternalServerError(_) => STATUS_INTERNAL_SERVER_ERROR,
        }
    }

    /// The text of the reply.
    pub fn response_body(&self) -> (body: String)
        ensures
            body@ == body_of(self@),
    {
        match self {
            FaucetError::BadRequest(message) => message.clone(),
            FaucetError::InternalServerError(_) => "Internal server error.".to_string(),
        }
    }

    /// What the operators' log gets to hold about the failure.
    pub fn log_entry(&self) -> (entry: String)
        ensures
            entry@ == match self@ {
                FaucetErrorView::BadRequest(message) => message,
                FaucetErrorView::InternalServerError(detail) => detail,
            },
    {
        match self {
            FaucetError::BadRequest(message) => message.clone(),
            FaucetError::InternalServerError(detail) => detail.clone(),
        }
    }
}

} // verus!
