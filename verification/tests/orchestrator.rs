use faucet::account::AccountId;
use faucet::asset::{FungibleAsset, MAX_AMOUNT};
use faucet::errors::{FaucetError, IssuanceError};
use faucet::handlers::{get_tokens, FaucetState, NoteResponse};
use faucet::note::{
    ExecutionResult, IssuedNote, MintTransactionTemplate, NoteSlot, NoteVisibility, OutputNote,
};
use faucet::orchestrator::{begin, issue, Issuance, LedgerCall, LedgerReply};
use faucet::policy::AssetAmountPolicy;
use faucet::validator::{validate_decoded, FaucetRequest, IssuanceRequest};

const FAUCET: u64 = 0x2000_0000_0000_fa17;
const TARGET: u64 = 0x9000_0000_0000_abcd;

/// What the client in these tests does when it is asked to execute.
#[derive(Clone)]
enum Execution {
    /// One full note that holds the template.
    MintsNote,
    /// These notes, whatever the template.
    Leaves(Vec<OutputNote>),
    Fails(String),
}

/// A client of the ledger that follows a script and records the calls.
struct ScriptedLedger {
    build: Result<(), String>,
    execution: Execution,
    submission: Result<(), String>,
    template: Option<MintTransactionTemplate>,
    calls: Vec<LedgerCall>,
}

fn encode(template: &MintTransactionTemplate) -> Vec<u8> {
    let mut bytes = Vec::new();
    bytes.push(match template.note_visibility {
        NoteVisibility::Public => 1u8,
        NoteVisibility::Private => 2u8,
    });
    bytes.extend_from_slice(&template.amount.to_le_bytes());
    bytes.extend_from_slice(&template.target_account_id.value.to_le_bytes());
    bytes.extend_from_slice(&template.faucet_account_id.value.to_le_bytes());
    bytes
}

fn decode(bytes: &[u8]) -> MintTransactionTemplate {
    assert_eq!(bytes.len(), 25);
    let word = |at: usize| u64::from_le_bytes(bytes[at..at + 8].try_into().unwrap());
    MintTransactionTemplate {
        note_visibility: match bytes[0] {
            1 => NoteVisibility::Public,
            2 => NoteVisibility::Private,
            other => panic!("visibility {other}"),
        },
        amount: word(1),
        target_account_id: AccountId::new(word(9)),
        faucet_account_id: AccountId::new(word(17)),
    }
}

fn note_id(bytes: &[u8]) -> String {
    let sum: u64 = bytes.iter().map(|byte| u64::from(*byte)).sum();
    format!("0x{sum:016x}")
}

impl ScriptedLedger {
    fn new(build: Result<(), String>, execution: Execution, submission: Result<(), String>) -> Self {
        ScriptedLedger { build, execution, submission, template: None, calls: Vec::new() }
    }

    fn obliging() -> Self {
        ScriptedLedger::new(Ok(()), Execution::MintsNote, Ok(()))
    }

    fn perform(&mut self, call: LedgerCall) -> LedgerReply {
        self.calls.push(call);
        match call {
            LedgerCall::BuildTransactionRequest(template) => match self.build.clone() {
                Ok(()) => {
                    self.template = Some(template);
                    LedgerReply::RequestBuilt
                },
                Err(detail) => LedgerReply::Failed(detail),
            },
            LedgerCall::Execute => match self.execution.clone() {
                Execution::MintsNote => {
                    let bytes = encode(&self.template.unwrap());
                    let note = IssuedNote { id: note_id(&bytes), bytes };
                    LedgerReply::Executed(ExecutionResult {
                        created_notes: vec![OutputNote::Full(note)],
                    })
                },
                Execution::Leaves(created_notes) => {
                    LedgerReply::Executed(ExecutionResult { created_notes })
                },
                Execution::Fails(detail) => LedgerReply::Failed(detail),
            },
            LedgerCall::Submit => match self.submission.clone() {
                Ok(()) => LedgerReply::Submitted,
                Err(detail) => LedgerReply::Failed(detail),
            },
        }
    }

    fn executions(&self) -> usize {
        self.calls.iter().filter(|call| matches!(call, LedgerCall::Execute)).count()
    }

    fn submissions(&self) -> usize {
        self.calls.iter().filter(|call| matches!(call, LedgerCall::Submit)).count()
    }
}

/// Lets the client answer every call that falls due, until none is due.
fn run(begun: (Issuance, Option<LedgerCall>), ledger: &mut ScriptedLedger) -> Issuance {
    let (mut issuance, mut due) = begun;
    while let Some(call) = due {
        let reply = ledger.perform(call);
        (issuance, due) = issuance.step(reply);
    }
    issuance
}

fn accepted(target: u64, is_private: bool, amount: u64) -> IssuanceRequest {
    let policy = AssetAmountPolicy::new(vec![amount]);
    validate_decoded(amount, is_private, Ok(AccountId::new(target)), &policy).unwrap()
}

fn state() -> FaucetState {
    FaucetState { id: AccountId::new(FAUCET), asset_amount_options: AssetAmountPolicy::standard() }
}

fn full(id: &str, bytes: &[u8]) -> OutputNote {
    OutputNote::Full(IssuedNote { id: id.to_string(), bytes: bytes.to_vec() })
}

#[test]
fn issue_asks_for_the_request_to_be_built() {
    let (issuance, due) = issue(accepted(TARGET, false, 500), AccountId::new(FAUCET));
    assert_eq!(issuance, Issuance::AwaitingRequest);
    assert_eq!(
        due,
        Some(LedgerCall::BuildTransactionRequest(MintTransactionTemplate {
            faucet_account_id: AccountId::new(FAUCET),
            target_account_id: AccountId::new(TARGET),
            amount: 500,
            note_visibility: NoteVisibility::Public,
        }))
    );
}

#[test]
fn begin_takes_the_asset_as_it_was_made() {
    let asset = FungibleAsset { faucet_id: AccountId::new(0xFA17), amount: 500 };
    let (issuance, due) = begin(accepted(0xABCD, false, 500), Ok(asset));
    assert_eq!(issuance, Issuance::AwaitingRequest);
    assert_eq!(
        due,
        Some(LedgerCall::BuildTransactionRequest(MintTransactionTemplate {
            faucet_account_id: AccountId::new(0xFA17),
            target_account_id: AccountId::new(0xABCD),
            amount: 500,
            note_visibility: NoteVisibility::Public,
        }))
    );

    let (issuance, due) = begin(accepted(0xABCD, true, 500), Err("no such faucet".to_string()));
    assert_eq!(due, None);
    assert_eq!(
        issuance,
        Issuance::Failed(IssuanceError::AssetConstructionError("no such faucet".to_string()))
    );
}

#[test]
fn private_request_gets_a_private_note() {
    let (_, due) = issue(accepted(TARGET, true, 100), AccountId::new(FAUCET));
    match due {
        Some(LedgerCall::BuildTransactionRequest(template)) => {
            assert_eq!(template.note_visibility, NoteVisibility::Private);
            assert_eq!(template.amount, 100);
        },
        other => panic!("{other:?}"),
    }
    assert_eq!(NoteVisibility::select(true), NoteVisibility::Private);
    assert_eq!(NoteVisibility::select(false), NoteVisibility::Public);
}

#[test]
fn largest_amount_is_accepted() {
    let (issuance, due) = issue(accepted(TARGET, false, MAX_AMOUNT), AccountId::new(FAUCET));
    assert_eq!(MAX_AMOUNT, (1u64 << 63) - 1);
    assert_eq!(issuance, Issuance::AwaitingRequest);
    assert!(matches!(due, Some(LedgerCall::BuildTransactionRequest(_))));
}

#[test]
fn amount_above_the_largest_fails_the_asset() {
    let (issuance, due) = issue(accepted(TARGET, false, MAX_AMOUNT + 1), AccountId::new(FAUCET));
    assert_eq!(due, None);
    match issuance {
        Issuance::Failed(IssuanceError::AssetConstructionError(detail)) => {
            assert_eq!(detail, format!("AmountTooBig({})", MAX_AMOUNT + 1));
        },
        other => panic!("{other:?}"),
    }
}

#[test]
fn account_that_is_no_fungible_faucet_fails_the_asset() {
    // regular accounts, a faucet of non-fungible assets, and a value that is no field element
    for faucet in [TARGET, 0x0000_0000_0000_fa17, 0x1000_0000_0000_fa17, 0x3000_0000_0000_fa17, u64::MAX] {
        let (issuance, due) = issue(accepted(TARGET, false, 500), AccountId::new(faucet));
        assert_eq!(due, None);
        match issuance {
            Issuance::Failed(IssuanceError::AssetConstructionError(detail)) => {
                assert!(detail.starts_with("NotAFungibleFaucetId("), "{detail}");
            },
            other => panic!("{faucet:#x}: {other:?}"),
        }
    }
}

#[test]
fn fungible_faucets_off_the_chain_are_accepted_too() {
    let (issuance, due) = issue(accepted(TARGET, false, 500), AccountId::new(0xa000_0000_0000_fa17));
    assert_eq!(issuance, Issuance::AwaitingRequest);
    assert!(due.is_some());
}

#[test]
fn note_is_issued_where_the_ledger_obliges() {
    let policy = AssetAmountPolicy::standard();
    let request = FaucetRequest {
        account_id: "0xABCD".to_string(),
        is_private_note: false,
        asset_amount: 500,
    };
    let validated = validate_decoded(
        request.asset_amount,
        request.is_private_note,
        Ok(AccountId::new(0xABCD)),
        &policy,
    )
    .unwrap();
    let asset = FungibleAsset { faucet_id: AccountId::new(0xFA17), amount: validated.amount() };
    let mut ledger = ScriptedLedger::obliging();
    let issuance = run(begin(validated, Ok(asset)), &mut ledger);
    let note = issuance.outcome().unwrap().unwrap();
    let response = NoteResponse::new(note);

    let minted = decode(&response.body);
    assert_eq!(minted.amount, 500);
    assert_eq!(minted.note_visibility, NoteVisibility::Public);
    assert_eq!(minted.target_account_id, AccountId::new(0xABCD));
    assert_eq!(minted.faucet_account_id, AccountId::new(0xFA17));
    assert_eq!(response.note_id, note_id(&response.body));
    assert_eq!(response.filename, "note.mno");
    assert_eq!(response.content_type, "application/octet-stream");
    assert_eq!(ledger.executions(), 1);
    assert_eq!(ledger.submissions(), 1);
    assert_eq!(ledger.calls.len(), 3);
}

#[test]
fn get_tokens_leads_to_the_same_note() {
    let request = FaucetRequest {
        account_id: "0x900000000000abcd".to_string(),
        is_private_note: false,
        asset_amount: 500,
    };
    let mut ledger = ScriptedLedger::obliging();
    let issuance = run(get_tokens(&request, &state()).unwrap(), &mut ledger);
    let response = NoteResponse::new(issuance.outcome().unwrap().unwrap());
    let minted = decode(&response.body);
    assert_eq!(minted.amount, 500);
    assert_eq!(minted.note_visibility, NoteVisibility::Public);
    assert_eq!(minted.target_account_id.value, TARGET);
    assert_eq!(minted.faucet_account_id.value, FAUCET);
    assert_eq!(
        ledger.calls,
        vec![
            LedgerCall::BuildTransactionRequest(minted),
            LedgerCall::Execute,
            LedgerCall::Submit,
        ]
    );
}

#[test]
fn amount_not_on_offer_reaches_no_ledger() {
    let request = FaucetRequest {
        account_id: "0x900000000000abcd".to_string(),
        is_private_note: false,
        asset_amount: 777,
    };
    let ledger = ScriptedLedger::obliging();
    let refusal = get_tokens(&request, &state()).unwrap_err();
    let answer = FaucetError::from_validation(refusal);
    assert_eq!(answer.status_code(), 400);
    assert_eq!(answer.response_body(), "Invalid asset amount.");
    assert!(ledger.calls.is_empty());
}

#[test]
fn execution_without_output_notes_is_not_submitted() {
    let mut ledger = ScriptedLedger::new(Ok(()), Execution::Leaves(Vec::new()), Ok(()));
    let issuance = run(issue(accepted(TARGET, false, 500), AccountId::new(FAUCET)), &mut ledger);
    assert_eq!(issuance, Issuance::Failed(IssuanceError::NoteGenerationError));
    let answer = FaucetError::from_issuance(issuance.outcome().unwrap().unwrap_err());
    assert_eq!(answer.status_code(), 500);
    assert_eq!(answer.response_body(), "Internal server error.");
    assert_eq!(answer.log_entry(), "Failed to generate note.");
    assert_eq!(ledger.executions(), 1);
    assert_eq!(ledger.submissions(), 0);
}

#[test]
fn header_in_the_first_slot_is_no_note() {
    let notes = vec![OutputNote::Header, full("0x01", &[1, 2, 3])];
    let mut ledger = ScriptedLedger::new(Ok(()), Execution::Leaves(notes), Ok(()));
    let issuance = run(issue(accepted(TARGET, true, 500), AccountId::new(FAUCET)), &mut ledger);
    assert_eq!(issuance, Issuance::Failed(IssuanceError::NoteGenerationError));
    assert_eq!(ledger.submissions(), 0);
}

#[test]
fn full_note_in_the_first_slot_is_the_one_issued() {
    let notes = vec![full("0x01", &[1, 2, 3]), OutputNote::Header, full("0x02", &[4])];
    let mut ledger = ScriptedLedger::new(Ok(()), Execution::Leaves(notes), Ok(()));
    let issuance = run(issue(accepted(TARGET, true, 500), AccountId::new(FAUCET)), &mut ledger);
    assert_eq!(
        issuance,
        Issuance::Issued(IssuedNote { id: "0x01".to_string(), bytes: vec![1, 2, 3] })
    );
    assert_eq!(ledger.submissions(), 1);
}

#[test]
fn failed_build_ends_the_issuance() {
    let mut ledger =
        ScriptedLedger::new(Err("no such account".to_string()), Execution::MintsNote, Ok(()));
    let issuance = run(issue(accepted(TARGET, false, 500), AccountId::new(FAUCET)), &mut ledger);
    assert_eq!(
        issuance,
        Issuance::Failed(IssuanceError::TemplateBuildError("no such account".to_string()))
    );
    assert_eq!(ledger.calls.len(), 1);
    assert_eq!(ledger.executions(), 0);
    assert_eq!(ledger.submissions(), 0);
}

#[test]
fn failed_execution_ends_the_issuance() {
    let mut ledger =
        ScriptedLedger::new(Ok(()), Execution::Fails("stale state".to_string()), Ok(()));
    let issuance = run(issue(accepted(TARGET, false, 500), AccountId::new(FAUCET)), &mut ledger);
    assert_eq!(
        issuance,
        Issuance::Failed(IssuanceError::ExecutionError("stale state".to_string()))
    );
    assert_eq!(ledger.executions(), 1);
    assert_eq!(ledger.submissions(), 0);
}

#[test]
fn failed_submission_ends_the_issuance() {
    let mut ledger =
        ScriptedLedger::new(Ok(()), Execution::MintsNote, Err("node is down".to_string()));
    let issuance = run(issue(accepted(TARGET, false, 500), AccountId::new(FAUCET)), &mut ledger);
    assert_eq!(
        issuance,
        Issuance::Failed(IssuanceError::SubmissionError("node is down".to_string()))
    );
    assert_eq!(ledger.executions(), 1);
    assert_eq!(ledger.submissions(), 1);
}

#[test]
fn step_follows_the_replies_one_by_one() {
    let note = IssuedNote { id: "0xaa".to_string(), bytes: vec![7, 8] };
    let result = ExecutionResult { created_notes: vec![OutputNote::Full(note.clone())] };

    let (issuance, due) = Issuance::AwaitingRequest.step(LedgerReply::RequestBuilt);
    assert_eq!((&issuance, due), (&Issuance::AwaitingExecution, Some(LedgerCall::Execute)));
    assert_eq!(issuance.clone().outcome(), None);

    let (issuance, due) = issuance.step(LedgerReply::Executed(result));
    assert_eq!(
        (&issuance, due),
        (&Issuance::AwaitingSubmission(note.clone()), Some(LedgerCall::Submit))
    );
    assert_eq!(issuance.clone().outcome(), None);

    let (issuance, due) = issuance.step(LedgerReply::Submitted);
    assert_eq!((&issuance, due), (&Issuance::Issued(note.clone()), None));
    assert_eq!(issuance.outcome(), Some(Ok(note)));
}

#[test]
fn reply_out_of_turn_ends_the_issuance() {
    let unexpected = "Unexpected reply from the ledger client.".to_string();
    let result = ExecutionResult { created_notes: vec![full("0x01", &[1])] };

    for reply in [LedgerReply::Submitted, LedgerReply::Executed(result.clone())] {
        let (issuance, due) = Issuance::AwaitingRequest.step(reply);
        assert_eq!(due, None);
        assert_eq!(
            issuance,
            Issuance::Failed(IssuanceError::TemplateBuildError(unexpected.clone()))
        );
    }
    for reply in [LedgerReply::Submitted, LedgerReply::RequestBuilt] {
        let (issuance, due) = Issuance::AwaitingExecution.step(reply);
        assert_eq!(due, None);
        assert_eq!(issuance, Issuance::Failed(IssuanceError::ExecutionError(unexpected.clone())));
    }
    let note = IssuedNote { id: "0x01".to_string(), bytes: vec![1] };
    for reply in [LedgerReply::RequestBuilt, LedgerReply::Executed(result.clone())] {
        let (issuance, due) = Issuance::AwaitingSubmission(note.clone()).step(reply);
        assert_eq!(due, None);
        assert_eq!(
            issuance,
            Issuance::Failed(IssuanceError::SubmissionError(unexpected.clone()))
        );
    }
}

#[test]
fn ended_issuance_takes_no_more_replies() {
    let note = IssuedNote { id: "0x01".to_string(), bytes: vec![1] };
    let result = ExecutionResult { created_notes: vec![full("0x02", &[2])] };
    let replies = [
        LedgerReply::RequestBuilt,
        LedgerReply::Executed(result),
        LedgerReply::Submitted,
        LedgerReply::Failed("late".to_string()),
    ];
    for reply in replies.clone() {
        let (issuance, due) = Issuance::Issued(note.clone()).step(reply);
        assert_eq!((issuance, due), (Issuance::Issued(note.clone()), None));
    }
    for reply in replies {
        let failed = Issuance::Failed(IssuanceError::NoteGenerationError);
        let (issuance, due) = failed.clone().step(reply);
        assert_eq!((issuance, due), (failed, None));
    }
}

#[test]
fn no_call_is_made_twice_whatever_the_replies() {
    let result = ExecutionResult { created_notes: vec![full("0x02", &[2])] };
    let replies = vec![
        LedgerReply::RequestBuilt,
        LedgerReply::RequestBuilt,
        LedgerReply::Executed(result.clone()),
        LedgerReply::Executed(result.clone()),
        LedgerReply::Submitted,
        LedgerReply::Submitted,
        LedgerReply::RequestBuilt,
        LedgerReply::Executed(result),
    ];
    for skip in 0..replies.len() {
        let (mut issuance, due) = issue(accepted(TARGET, false, 500), AccountId::new(FAUCET));
        let mut calls: Vec<LedgerCall> = due.into_iter().collect();
        for reply in replies.iter().skip(skip).cloned() {
            let (then, due) = issuance.step(reply);
            issuance = then;
            calls.extend(due);
        }
        let executions = calls.iter().filter(|call| matches!(call, LedgerCall::Execute)).count();
        let submissions = calls.iter().filter(|call| matches!(call, LedgerCall::Submit)).count();
        assert!(executions <= 1, "{calls:?}");
        assert!(submissions <= 1, "{calls:?}");
        assert!(calls.len() <= 3, "{calls:?}");
    }
}

#[test]
fn take_note_tells_the_three_cases_apart() {
    let notes = vec![full("0x01", &[1]), OutputNote::Header];
    let result = ExecutionResult { created_notes: notes };
    assert_eq!(
        result.clone().take_note(0),
        NoteSlot::FullNote(IssuedNote { id: "0x01".to_string(), bytes: vec![1] })
    );
    assert_eq!(result.clone().take_note(1), NoteSlot::HeaderOnly);
    assert_eq!(result.clone().take_note(2), NoteSlot::Absent);
    assert_eq!(result.take_note(usize::MAX), NoteSlot::Absent);
    assert_eq!(ExecutionResult { created_notes: Vec::new() }.take_note(0), NoteSlot::Absent);
}
