//! The write-once cell of the `spin` crate, as far as the initialiser uses
//! it.
//!
//! Nothing here is proved: each item states what is taken on trust of the
//! outside code.

use vstd::prelude::*;

verus! {

/// `spin::relax::Spin`, the waiting strategy of the cell. Nothing is known of
/// a value of it.
#[verifier::external_type_specification]
#[verifier::external_body]
pub struct ExSpin(spin::relax::Spin);

/// `spin::once::Once`, the write-once cell. A value of it is opaque: what it
/// holds is spoken of through `settled_word` alone.
#[verifier::external_type_specification]
#[verifier::external_body]
#[verifier::reject_recursive_types(T)]
#[verifier::reject_recursive_types(R)]
pub struct ExOnce<T, R>(spin::once::Once<T, R>);

/// The word that a cell holds from the end of its first initialisation on.
///
/// A cell is written once and never again, so every read of it returns this
/// one word. Which word it is depends on the initialiser that ran, and
/// nothing is stated of that.
pub uninterp spec fn settled_word(cell: spin::Once<u32>) -> u32;

/// `spin::once::Once::new`: a cell that has not been initialised. Nothing is
/// claimed of the result.
#[verifier::external_body]
pub(crate) fn once_new() -> (cell: spin::Once<u32>) {
    spin::Once::new()
}

/// `spin::once::Once::call_once`: runs `init` if no initialiser has run on
/// this cell before, waits for a running one to finish otherwise, and returns
/// a copy of the word that the cell then holds.
///
/// The claim is only that the result is the cell's one settled word: it may
/// be the result of an initialiser of an earlier call, so nothing relates it
/// to `init`. The outside function panics if an earlier initialiser of this
/// cell panicked, which no initialiser that meets its own contract does.
#[verifier::external_body]
pub(crate) fn once_call_once<F: FnOnce() -> u32>(cell: &spin::Once<u32>, init: F) -> (word: u32)
    requires
        init.requires(()),
    ensures
        word == settled_word(*cell),
{
    *cell.call_once(init)
}

} // verus!
