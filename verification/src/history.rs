//! What an issuance does over a whole sequence of replies.

use crate::account::AccountId;
use crate::asset::FungibleAsset;
use crate::errors::IssuanceErrorView;
use crate::note::{slot_at, IssuedNoteView, NoteSlotView, OutputNoteView, MINT_OUTPUT_SLOT};
use crate::orchestrator::{next, start, template_for, IssuanceView, LedgerCall, LedgerReplyView};
use crate::validator::IssuanceRequestView;
use vstd::prelude::*;

verus! {

/// The call that is due, as a sequence of one call or none.
pub open spec fn due(call: Option<LedgerCall>) -> Seq<LedgerCall> {
    match call {
        Some(call) => seq![call],
        None => Seq::empty(),
    }
}

/// The state that `state` has come to once `replies` were taken in order.
pub open spec fn state_after(state: IssuanceView, replies: Seq<LedgerReplyView>) -> IssuanceView
    decreases replies.len(),
{
    if replies.len() == 0 {
        state
    } else {
        state_after(next(state, replies.first()).0, replies.drop_first())
    }
}

/// The calls that fell due while `replies` were taken in order, from `state`.
pub open spec fn calls_after(state: IssuanceView, replies: Seq<LedgerReplyView>) -> Seq<LedgerCall>
    decreases replies.len(),
{
    if replies.len() == 0 {
        Seq::empty()
    } else {
        let (then, call) = next(state, replies.first());
        due(call) + calls_after(then, replies.drop_first())
    }
}

/// All the calls that the issuance of one request makes, where the ledger's
/// client replies with `replies`: the first call, and those that follow.
pub open spec fn calls_of(
    request: IssuanceRequestView,
    faucet_id: AccountId,
    replies: Seq<LedgerReplyView>,
) -> Seq<LedgerCall> {
    let (begun, call) = start(request, faucet_id);
    due(call) + calls_after(begun, replies)
}

/// The calls of an issuance in which everything goes well.
pub open spec fn full_course(request: IssuanceRequestView, faucet_id: AccountId) -> Seq<LedgerCall> {
    let asset = FungibleAsset { faucet_id, amount: request.amount };
    seq![
        LedgerCall::BuildTransactionRequest(template_for(request, asset)),
        LedgerCall::Execute,
        LedgerCall::Submit,
    ]
}

/// Whether an issuance has ended.
pub open spec fn ended(state: IssuanceView) -> bool {
    state is Issued || state is Failed
}

/// An issuance that has ended stays as it is and makes no call, whatever it
/// is told.
pub proof fn law_ended_is_final(state: IssuanceView, replies: Seq<LedgerReplyView>)
    requires
        ended(state),
    ensures
        state_after(state, replies) == state,
        calls_after(state, replies) == Seq::<LedgerCall>::empty(),
    decreases replies.len(),
{
    if replies.len() > 0 {
        law_ended_is_final(state, replies.drop_first());
    }
}

/// After the submission was asked for, no call follows.
proof fn lemma_calls_after_submission(note: IssuedNoteView, replies: Seq<LedgerReplyView>)
    ensures
        calls_after(IssuanceView::AwaitingSubmission(note), replies) == Seq::<LedgerCall>::empty(),
{
    if replies.len() > 0 {
        let then = next(IssuanceView::AwaitingSubmission(note), replies.first()).0;
        law_ended_is_final(then, replies.drop_first());
    }
}

/// After the execution was asked for, at most the submission follows.
proof fn lemma_calls_after_execution(replies: Seq<LedgerReplyView>)
    ensures
        calls_after(IssuanceView::AwaitingExecution, replies).is_prefix_of(seq![LedgerCall::Submit]),
{
    if replies.len() > 0 {
        let (then, call) = next(IssuanceView::AwaitingExecution, replies.first());
        match then {
            IssuanceView::AwaitingSubmission(note) => {
                lemma_calls_after_submission(note, replies.drop_first());
            },
            _ => {
                law_ended_is_final(then, replies.drop_first());
            },
        }
    }
}

/// After the transaction request was asked for, at most the execution and
/// then the submission follow.
proof fn lemma_calls_after_request(replies: Seq<LedgerReplyView>)
    ensures
        calls_after(IssuanceView::AwaitingRequest, replies).is_prefix_of(
            seq![LedgerCall::Execute, LedgerCall::Submit],
        ),
{
    if replies.len() > 0 {
        let (then, call) = next(IssuanceView::AwaitingRequest, replies.first());
        if then is AwaitingExecution {
            lemma_calls_after_execution(replies.drop_first());
            let rest = calls_after(IssuanceView::AwaitingExecution, replies.drop_first());
            assert(calls_after(IssuanceView::AwaitingRequest, replies) == seq![LedgerCall::Execute]
                + rest);
        } else {
            law_ended_is_final(then, replies.drop_first());
        }
    }
}

/// Whatever the ledger's client replies, and however often, the calls that
/// the issuance of one request makes are the first few of: build the
/// transaction request, execute, submit. So each is made at most once, the
/// execution and the submission among them, and none out of turn.
pub proof fn law_single_attempt(
    request: IssuanceRequestView,
    faucet_id: AccountId,
    replies: Seq<LedgerReplyView>,
)
    ensures
        calls_of(request, faucet_id, replies).is_prefix_of(full_course(request, faucet_id)),
        forall|i: int, j: int|
            #![trigger calls_of(request, faucet_id, replies)[i], calls_of(request, faucet_id, replies)[j]]
            {
                let calls = calls_of(request, faucet_id, replies);
                0 <= i < calls.len() && 0 <= j < calls.len() && calls[i] is Execute
                    && calls[j] is Execute ==> i == j
            },
        forall|i: int, j: int|
            #![trigger calls_of(request, faucet_id, replies)[i], calls_of(request, faucet_id, replies)[j]]
            {
                let calls = calls_of(request, faucet_id, replies);
                0 <= i < calls.len() && 0 <= j < calls.len() && calls[i] is Submit
                    && calls[j] is Submit ==> i == j
            },
{
    let (begun, call) = start(request, faucet_id);
    if begun is AwaitingRequest {
        lemma_calls_after_request(replies);
    } else {
        law_ended_is_final(begun, replies);
    }
}

/// Where the execution leaves no full note in the first output slot (a
/// reference to a note, or nothing), the issuance ends there with
/// `NoteGenerationError`: no submission is asked for, then or later.
pub proof fn law_no_note_no_submission(notes: Seq<OutputNoteView>, later: Seq<LedgerReplyView>)
    requires
        !(slot_at(notes, MINT_OUTPUT_SLOT as int) is FullNote),
    ensures
        next(IssuanceView::AwaitingExecution, LedgerReplyView::Executed(notes)) == (
            IssuanceView::Failed(IssuanceErrorView::NoteGenerationError),
            None::<LedgerCall>,
        ),
        state_after(
            IssuanceView::AwaitingExecution,
            seq![LedgerReplyView::Executed(notes)] + later,
        ) == IssuanceView::Failed(IssuanceErrorView::NoteGenerationError),
        calls_after(
            IssuanceView::AwaitingExecution,
            seq![LedgerReplyView::Executed(notes)] + later,
        ) == Seq::<LedgerCall>::empty(),
{
    let replies = seq![LedgerReplyView::Executed(notes)] + later;
    assert(replies.first() == LedgerReplyView::Executed(notes));
    assert(replies.drop_first() == later);
    law_ended_is_final(IssuanceView::Failed(IssuanceErrorView::NoteGenerationError), later);
}

/// A note is issued exactly where the transaction request was built, the
/// execution left a full note in the first output slot, and the submission
/// went through; the note issued is that very note, identifier and bytes.
pub proof fn law_issued_note_is_executed_note(replies: Seq<LedgerReplyView>, note: IssuedNoteView)
    ensures
        state_after(IssuanceView::AwaitingRequest, replies) == IssuanceView::Issued(note) <==> {
            &&& replies.len() >= 3
            &&& replies[0] is RequestBuilt
            &&& replies[1] matches LedgerReplyView::Executed(notes)
            &&& slot_at(notes, MINT_OUTPUT_SLOT as int) == NoteSlotView::FullNote(note)
            &&& replies[2] is Submitted
        },
{
    let s0 = IssuanceView::AwaitingRequest;
    if replies.len() >= 1 {
        let r1 = replies.drop_first();
        let s1 = next(s0, replies[0]).0;
        assert(state_after(s0, replies) == state_after(s1, r1));
        if ended(s1) {
            law_ended_is_final(s1, r1);
        } else if r1.len() >= 1 {
            let r2 = r1.drop_first();
            let s2 = next(s1, r1[0]).0;
            assert(r1[0] == replies[1]);
            assert(state_after(s1, r1) == state_after(s2, r2));
            if ended(s2) {
                law_ended_is_final(s2, r2);
            } else if r2.len() >= 1 {
                let r3 = r2.drop_first();
                let s3 = next(s2, r2[0]).0;
                assert(r2[0] == replies[2]);
                assert(state_after(s2, r2) == state_after(s3, r3));
                law_ended_is_final(s3, r3);
            }
        }
    }
}

} // verus!
