//! The stable cell that holds the greeter's name, and the memory under it.
//!
//! Both belong to `ic_stable_structures`. Everything in this file is taken on
//! trust from that crate: the verifier reads none of its code.

use ic_stable_structures::cell::{InitError, ValueError};
use ic_stable_structures::{DefaultMemoryImpl, StableCell};
use vstd::prelude::*;

verus! {

/// `ic_stable_structures::cell::InitError`: why a cell could not be opened.
#[verifier::external_type_specification]
#[verifier::external_body]
pub struct ExInitError(InitError);

/// `ic_stable_structures::cell::ValueError`: why a cell refused a value.
#[verifier::external_type_specification]
#[verifier::external_body]
pub struct ExValueError(ValueError);

/// The memory in which a greeter keeps its cell: a `DefaultMemoryImpl`.
///
/// A store has one owner. It is made by `Store::default_memory`, moved into
/// the cell that is opened in it and moved out again when that cell is given
/// up; it cannot be copied, and nothing here hands out the memory inside it.
/// So the only writer that a store ever has is a cell of one text.
#[verifier::external_body]
pub struct Store {
    memory: DefaultMemoryImpl,
}

/// A `StableCell` of one `String` over the default memory.
#[verifier::external_body]
pub struct TextCell {
    cell: StableCell<String, DefaultMemoryImpl>,
}

/// The text that a cell holds.
pub uninterp spec fn cell_text(cell: TextCell) -> Seq<char>;

impl Store {
    /// `DefaultMemoryImpl::default`: the default memory, which is the
    /// canister's stable memory on the host and a new, empty vector of bytes
    /// elsewhere.
    ///
    /// Nothing is claimed of what the memory holds: on the host that is what
    /// the canister has written there before.
    #[verifier::external_body]
    pub(crate) fn default_memory() -> (store: Store) {
        Store { memory: DefaultMemoryImpl::default() }
    }
}

impl TextCell {
    /// `StableCell::init`: opens the cell that `store` holds, or, where it
    /// holds none, makes one that holds `initial` and writes it down.
    ///
    /// Which of the two happens, and what an opened cell holds, is decided by
    /// the bytes in the store, which are no plain value of this call: so
    /// nothing is claimed of the result. The call reads back what a cell of
    /// one text wrote, and such a cell is the only writer that a store has.
    #[verifier::external_body]
    pub(crate) fn open(store: Store, initial: String) -> (opened: Result<TextCell, InitError>) {
        match StableCell::init(store.memory, initial) {
            Ok(cell) => Ok(TextCell { cell }),
            Err(error) => Err(error),
        }
    }

    /// `StableCell::into_memory`: gives the cell up and hands back the store
    /// that it was opened in, with what the cell wrote there.
    #[verifier::external_body]
    pub(crate) fn into_store(self) -> (store: Store) {
        Store { memory: self.cell.into_memory() }
    }

    /// `StableCell::get`: the value that the cell holds. The cell stays as it
    /// is.
    #[verifier::external_body]
    pub(crate) fn get(&self) -> (text: &String)
        ensures
            text@ == cell_text(*self),
    {
        self.cell.get()
    }

    /// `StableCell::set`: writes `text` to the memory and keeps it as the
    /// cell's value, handing back the value it replaces. Where the memory
    /// cannot take `text`, the call fails and the cell holds what it held.
    #[verifier::external_body]
    pub(crate) fn set(&mut self, text: String) -> (replaced: Result<String, ValueError>)
        ensures
            match replaced {
                Ok(previous) => {
                    &&& cell_text(*final(self)) == text@
                    &&& previous@ == cell_text(*old(self))
                },
                Err(_) => cell_text(*final(self)) == cell_text(*old(self)),
            },
    {
        self.cell.set(text)
    }
}

} // verus!
