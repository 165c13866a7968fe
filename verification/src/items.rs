//! Rules for the items a player holds.

use vstd::prelude::*;

verus! {

/// Whether `amount` of an item can be taken from what storage holds: the
/// stored quantity, 0 without a row, must not be less than the amount.
pub open spec fn can_remove(stored: Option<i32>, amount: i32) -> bool {
    match stored {
        Some(quantity) => quantity >= amount,
        None => 0 >= amount,
    }
}

/// Decides whether `amount` of an item is taken from the player. Where it is
/// not, storage stays as it is.
pub fn remove_item_quantity(stored: Option<i32>, amount: i32) -> (removed: bool)
    ensures
        removed == can_remove(stored, amount),
{
    let current = match stored {
        Some(quantity) => quantity,
        None => 0,
    };
    !(current < amount)
}

} // verus!
