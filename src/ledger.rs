use vstd::prelude::*;

use crate::text::{lower_of, lowercase, same_text};

verus! {

/// The kind of a stock movement. The kind, never the sign of the quantity,
/// decides how the movement changes the stock level.
#[derive(Debug, Clone, Copy, PartialEq, Eq, Structural)]
pub enum TransactionType {
    Addition,
    Removal,
    Adjustment,
}

/// The movement kind spelled by a lower-case name, if any.
pub open spec fn kind_named(s: Seq<char>) -> Option<TransactionType> {
    if s == "addition"@ {
        Some(TransactionType::Addition)
    } else if s == "removal"@ {
        Some(TransactionType::Removal)
    } else if s == "adjustment"@ {
        Some(TransactionType::Adjustment)
    } else {
        None
    }
}

/// The lower-case name of a movement kind.
pub open spec fn kind_name(t: TransactionType) -> Seq<char> {
    match t {
        TransactionType::Addition => "addition"@,
        TransactionType::Removal => "removal"@,
        TransactionType::Adjustment => "adjustment"@,
    }
}

impl TransactionType {
    /// Parses a movement kind, ignoring case.
    pub fn from_str(transaction_type: &str) -> (r: Option<TransactionType>)
        ensures
            r == kind_named(lower_of(transaction_type@)),
    {
        let lowered = lowercase(transaction_type);
        TransactionType::from_lowercase(lowered.as_str())
    }

    /// Parses a movement kind that is already in lower case.
    pub fn from_lowercase(name: &str) -> (r: Option<TransactionType>)
        ensures
            r == kind_named(name@),
    {
        if same_text(name, "addition") {
            Some(TransactionType::Addition)
        } else if same_text(name, "removal") {
            Some(TransactionType::Removal)
        } else if same_text(name, "adjustment") {
            Some(TransactionType::Adjustment)
        } else {
            None
        }
    }

    /// The lower-case name of the kind, as stored in the movement log.
    pub fn to_string(&self) -> (r: String)
        ensures
            r@ == kind_name(*self),
    {
        match self {
            TransactionType::Addition => String::from_str("addition"),
            TransactionType::Removal => String::from_str("removal"),
            TransactionType::Adjustment => String::from_str("adjustment"),
        }
    }
}

/// The stock level after one movement: additions add, removals subtract
/// (with no floor at zero), adjustments set the level outright.
pub open spec fn movement_effect(current: int, kind: TransactionType, quantity: int) -> int {
    match kind {
        TransactionType::Addition => current + quantity,
        TransactionType::Removal => current - quantity,
        TransactionType::Adjustment => quantity,
    }
}

pub open spec fn fits_i32(v: int) -> bool {
    i32::MIN <= v <= i32::MAX
}

/// The stock level after one movement, or `None` where it leaves the range
/// of a stored quantity.
pub fn apply_movement(current: i32, kind: TransactionType, quantity: i32) -> (r: Option<i32>)
    ensures
        fits_i32(movement_effect(current as int, kind, quantity as int)) ==> r == Some(
            movement_effect(current as int, kind, quantity as int) as i32,
        ),
        !fits_i32(movement_effect(current as int, kind, quantity as int)) ==> r is None,
{
    match kind {
        TransactionType::Addition => current.checked_add(quantity),
        TransactionType::Removal => current.checked_sub(quantity),
        TransactionType::Adjustment => Some(quantity),
    }
}

/// The stock level after a direct signed change, which bypasses the
/// movement log; `None` where it leaves the range of a stored quantity.
pub fn shift_quantity(current: i32, change: i32) -> (r: Option<i32>)
    ensures
        fits_i32(current + change) ==> r == Some((current + change) as i32),
        !fits_i32(current + change) ==> r is None,
{
    current.checked_add(change)
}

/// The stock level reached by applying `moves` in order, starting at `start`.
pub open spec fn replay(start: int, moves: Seq<(TransactionType, int)>) -> int
    decreases moves.len(),
{
    if moves.len() == 0 {
        start
    } else {
        let last = moves.last();
        movement_effect(replay(start, moves.drop_last()), last.0, last.1)
    }
}

/// Sum of the quantities of the movements of one kind.
pub open spec fn total_of(moves: Seq<(TransactionType, int)>, kind: TransactionType) -> int
    decreases moves.len(),
{
    if moves.len() == 0 {
        0
    } else {
        total_of(moves.drop_last(), kind) + if moves.last().0 == kind {
            moves.last().1
        } else {
            0
        }
    }
}

/// Index of the last adjustment among `moves`, or -1 when there is none.
pub open spec fn last_adjustment(moves: Seq<(TransactionType, int)>) -> int
    decreases moves.len(),
{
    if moves.len() == 0 {
        -1
    } else if moves.last().0 == TransactionType::Adjustment {
        moves.len() - 1
    } else {
        last_adjustment(moves.drop_last())
    }
}

/// The stock level that a movement history determines from zero: the value
/// of the last adjustment (zero if none), plus the additions and minus the
/// removals recorded after it.
pub open spec fn settled_level(moves: Seq<(TransactionType, int)>) -> int {
    let k = last_adjustment(moves);
    let base = if k < 0 { 0 } else { moves[k].1 };
    let after = moves.subrange(k + 1, moves.len() as int);
    base + total_of(after, TransactionType::Addition) - total_of(after, TransactionType::Removal)
}

proof fn last_adjustment_bounds(moves: Seq<(TransactionType, int)>)
    ensures
        -1 <= last_adjustment(moves) < moves.len(),
        last_adjustment(moves) >= 0 ==> moves[last_adjustment(moves)].0
            == TransactionType::Adjustment,
    decreases moves.len(),
{
    if moves.len() > 0 && moves.last().0 != TransactionType::Adjustment {
        last_adjustment_bounds(moves.drop_last());
    }
}

/// Replaying any movement history on an item created with quantity zero
/// gives the level its history determines: additions add, removals
/// subtract, and an adjustment replaces everything recorded before it.
pub proof fn replay_from_zero(moves: Seq<(TransactionType, int)>)
    ensures
        replay(0, moves) == settled_level(moves),
    decreases moves.len(),
{
    if moves.len() > 0 {
        let rest = moves.drop_last();
        let last = moves.last();
        replay_from_zero(rest);
        last_adjustment_bounds(rest);
        if last.0 != TransactionType::Adjustment {
            let k = last_adjustment(rest);
            assert(moves.subrange(k + 1, moves.len() as int).drop_last() =~= rest.subrange(
                k + 1,
                rest.len() as int,
            ));
            assert(moves.subrange(k + 1, moves.len() as int).last() == last);
            assert(k >= 0 ==> moves[k] == rest[k]);
        } else {
            assert(moves.subrange(moves.len() as int, moves.len() as int) =~= Seq::<
                (TransactionType, int),
            >::empty());
        }
    }
}

} // verus!
