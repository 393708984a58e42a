//! A cell with take/put semantics: a slot that is either filled with a value
//! or empty. A value can be taken out only when the slot is filled, and put in
//! only when it is empty.

mod order;
mod slot;

pub use order::{
    lemma_empty_cells_are_equal,
    lemma_empty_is_least,
    lemma_eq_symmetric,
    lemma_eq_laws_carry_over,
    lemma_partial_cmp_laws_carry_over,
};
pub use slot::{
    contents_after_swap,
    lemma_empty_or_filled,
    lemma_option_round_trip,
    lemma_put_then_take,
    lemma_swap_exchanges,
    lemma_swap_twice,
    lemma_take_then_put,
    value_taken,
    SlotCell,
};
