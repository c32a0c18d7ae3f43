//! Notes: what a mint asks for, and what an execution leaves behind.

use crate::account::AccountId;
use vstd::prelude::*;

verus! {

/// How a note is kept by the network.
#[derive(Clone, Copy, Debug, PartialEq, Eq, Structural)]
pub enum NoteVisibility {
    /// The whole note is disclosed to the network.
    Public,
    /// Only the note's hash is published; its content stays off the chain.
    Private,
}

/// The visibility that a request asks for.
pub open spec fn visibility_for(is_private: bool) -> NoteVisibility {
    if is_private {
        NoteVisibility::Private
    } else {
        NoteVisibility::Public
    }
}

impl NoteVisibility {
    /// Private where the request asks for a private note, public otherwise.
    pub fn select(is_private: bool) -> (visibility: NoteVisibility)
        ensures
            visibility == visibility_for(is_private),
    {
        if is_private {
            NoteVisibility::Private
        } else {
            NoteVisibility::Public
        }
    }
}

/// A mint of `amount` of the token of `faucet_account_id`, to be sent to
/// `target_account_id` in one note.
#[derive(Clone, Copy, Debug, PartialEq, Eq, Structural)]
pub struct MintTransactionTemplate {
    pub faucet_account_id: AccountId,
    pub target_account_id: AccountId,
    pub amount: u64,
    pub note_visibility: NoteVisibility,
}

/// A note in full: its identifier as the ledger prints it, and its bytes as
/// the ledger's client writes them to a file.
#[derive(Clone, Debug, PartialEq, Eq)]
pub struct IssuedNote {
    pub id: String,
    pub bytes: Vec<u8>,
}

/// [`IssuedNote`] as sequences.
pub struct IssuedNoteView {
    pub id: Seq<char>,
    pub bytes: Seq<u8>,
}

impl View for IssuedNote {
    type V = IssuedNoteView;

    open spec fn view(&self) -> IssuedNoteView {
        IssuedNoteView { id: self.id@, bytes: self.bytes@ }
    }
}

/// One note among those that an execution created.
#[derive(Clone, Debug, PartialEq, Eq)]
pub enum OutputNote {
    /// The note with its content.
    Full(IssuedNote),
    /// A reference to a note whose content was left out.
    Header,
}

/// [`OutputNote`] as sequences.
pub enum OutputNoteView {
    Full(IssuedNoteView),
    Header,
}

impl View for OutputNote {
    type V = OutputNoteView;

    open spec fn view(&self) -> OutputNoteView {
        match self {
            OutputNote::Full(note) => OutputNoteView::Full(note@),
            OutputNote::Header => OutputNoteView::Header,
        }
    }
}

/// What the ledger's client reports of a transaction that it executed: the
/// notes created, by position.
#[derive(Clone, Debug, PartialEq, Eq)]
pub struct ExecutionResult {
    pub created_notes: Vec<OutputNote>,
}

impl View for ExecutionResult {
    type V = Seq<OutputNoteView>;

    open spec fn view(&self) -> Seq<OutputNoteView> {
        self.created_notes@.map_values(|note: OutputNote| note@)
    }
}

/// What stands at one position of an execution's output.
#[derive(Clone, Debug, PartialEq, Eq)]
pub enum NoteSlot {
    FullNote(IssuedNote),
    HeaderOnly,
    Absent,
}

/// [`NoteSlot`] as sequences.
pub enum NoteSlotView {
    FullNote(IssuedNoteView),
    HeaderOnly,
    Absent,
}

impl View for NoteSlot {
    type V = NoteSlotView;

    open spec fn view(&self) -> NoteSlotView {
        match self {
            NoteSlot::FullNote(note) => NoteSlotView::FullNote(note@),
            NoteSlot::HeaderOnly => NoteSlotView::HeaderOnly,
            NoteSlot::Absent => NoteSlotView::Absent,
        }
    }
}

/// The position at which a mint leaves its note.
pub const MINT_OUTPUT_SLOT: usize = 0;

/// What stands at position `index` of `notes`.
pub open spec fn slot_at(notes: Seq<OutputNoteView>, index: int) -> NoteSlotView {
    if 0 <= index < notes.len() {
        match notes[index] {
            OutputNoteView::Full(note) => NoteSlotView::FullNote(note),
            OutputNoteView::Header => NoteSlotView::HeaderOnly,
        }
    } else {
        NoteSlotView::Absent
    }
}

impl ExecutionResult {
    /// Takes what stands at position `index` out of the result.
    pub fn take_note(self, index: usize) -> (slot: NoteSlot)
        ensures
            slot@ == slot_at(self@, index as int),
    {
        let mut notes = self.created_notes;
        if index < notes.len() {
            match notes.swap_remove(index) {
                OutputNote::Full(note) => NoteSlot::FullNote(note),
                OutputNote::Header => NoteSlot::HeaderOnly,
            }
        } else {
            NoteSlot::Absent
        }
    }
}

} // verus!
