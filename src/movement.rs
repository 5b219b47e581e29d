use vstd::prelude::*;

use crate::ledger::{apply_movement, fits_i32, movement_effect, TransactionType};
use crate::text::{contains_text, occurs_in};

verus! {

/// A request to record one stock movement.
#[derive(Debug, Clone)]
pub struct NewTransaction {
    pub item_id: i64,
    pub transaction_type: TransactionType,
    pub quantity: i32,
    pub user_id: i64,
    pub notes: Option<String>,
}

/// Why a movement was not recorded.
#[derive(Debug, Clone)]
pub enum LedgerError {
    /// The quantity was negative; the kind alone gives the sign.
    NegativeQuantity,
    /// The movement names an item or user that does not exist.
    InvalidReference,
    /// The item to be moved does not exist.
    NotFound,
    /// The store refused a write under a uniqueness rule.
    ConstraintViolation(String),
    /// A write that should have changed one row changed none.
    NoEffect,
    /// The new stock level does not fit a stored quantity.
    QuantityOutOfRange,
    /// No store connection could be had.
    StoreUnavailable(String),
    /// Any other store failure, with the store's own text.
    Store(String),
    /// The store answered with an event the unit was not waiting for.
    OutOfOrder,
}

/// The HTTP status class of a ledger error: 400 for a request the store
/// cannot take (bad reference, negative quantity, uniqueness, out-of-range
/// level), 404 for a missing item, 500 for a store failure.
pub open spec fn ledger_status(e: LedgerError) -> u16 {
    match e {
        LedgerError::NegativeQuantity => 400,
        LedgerError::InvalidReference => 400,
        LedgerError::NotFound => 404,
        LedgerError::ConstraintViolation(_) => 400,
        LedgerError::NoEffect => 500,
        LedgerError::QuantityOutOfRange => 400,
        LedgerError::StoreUnavailable(_) => 500,
        LedgerError::Store(_) => 500,
        LedgerError::OutOfOrder => 500,
    }
}

/// The user-facing message of a ledger error.
pub open spec fn ledger_message(e: LedgerError) -> Seq<char> {
    match e {
        LedgerError::NegativeQuantity => "Quantity must not be negative"@,
        LedgerError::InvalidReference => "Invalid item ID or user ID"@,
        LedgerError::NotFound => "Item not found"@,
        LedgerError::ConstraintViolation(m) => "Constraint violation: "@ + m@,
        LedgerError::NoEffect => "No rows affected"@,
        LedgerError::QuantityOutOfRange => "Resulting quantity is out of range"@,
        LedgerError::StoreUnavailable(m) => "Connection pool error: "@ + m@,
        LedgerError::Store(m) => "Database error: "@ + m@,
        LedgerError::OutOfOrder => "Store protocol error"@,
    }
}

fn prefixed(prefix: &str, m: &String) -> (r: String)
    ensures
        r@ == prefix@ + m@,
{
    let mut s = String::from_str(prefix);
    s.append(m.as_str());
    s
}

impl LedgerError {
    /// The HTTP status with which the error is answered.
    pub fn status(&self) -> (r: u16)
        ensures
            r == ledger_status(*self),
    {
        match self {
            LedgerError::NegativeQuantity => 400,
            LedgerError::InvalidReference => 400,
            LedgerError::NotFound => 404,
            LedgerError::ConstraintViolation(_) => 400,
            LedgerError::NoEffect => 500,
            LedgerError::QuantityOutOfRange => 400,
            LedgerError::StoreUnavailable(_) => 500,
            LedgerError::Store(_) => 500,
            LedgerError::OutOfOrder => 500,
        }
    }

    /// The message with which the error is answered.
    pub fn message(&self) -> (r: String)
        ensures
            r@ == ledger_message(*self),
    {
        match self {
            LedgerError::NegativeQuantity => String::from_str("Quantity must not be negative"),
            LedgerError::InvalidReference => String::from_str("Invalid item ID or user ID"),
            LedgerError::NotFound => String::from_str("Item not found"),
            LedgerError::ConstraintViolation(m) => prefixed("Constraint violation: ", m),
            LedgerError::NoEffect => String::from_str("No rows affected"),
            LedgerError::QuantityOutOfRange => String::from_str("Resulting quantity is out of range"),
            LedgerError::StoreUnavailable(m) => prefixed("Connection pool error: ", m),
            LedgerError::Store(m) => prefixed("Database error: ", m),
            LedgerError::OutOfOrder => String::from_str("Store protocol error"),
        }
    }
}

/// A failure reported by the store.
#[derive(Debug, Clone)]
pub enum StoreFault {
    /// A query for one row found none.
    NoRows,
    /// The connection pool gave no connection.
    Unavailable(String),
    /// The store failed the statement, with its message.
    Failed(String),
}

/// The ledger error that a store failure stands for.
pub open spec fn error_of(f: StoreFault) -> LedgerError {
    match f {
        StoreFault::NoRows => LedgerError::NotFound,
        StoreFault::Unavailable(m) => LedgerError::StoreUnavailable(m),
        StoreFault::Failed(m) => if occurs_in(m@, "FOREIGN KEY constraint failed"@) {
            LedgerError::InvalidReference
        } else if occurs_in(m@, "UNIQUE constraint failed"@) {
            LedgerError::ConstraintViolation(m)
        } else {
            LedgerError::Store(m)
        },
    }
}

/// Translates a store failure into a ledger error, recognising the store's
/// foreign-key and uniqueness messages.
pub fn classify_fault(f: StoreFault) -> (r: LedgerError)
    ensures
        r == error_of(f),
{
    match f {
        StoreFault::NoRows => LedgerError::NotFound,
        StoreFault::Unavailable(m) => LedgerError::StoreUnavailable(m),
        StoreFault::Failed(m) => {
            if contains_text(m.as_str(), "FOREIGN KEY constraint failed") {
                LedgerError::InvalidReference
            } else if contains_text(m.as_str(), "UNIQUE constraint failed") {
                LedgerError::ConstraintViolation(m)
            } else {
                LedgerError::Store(m)
            }
        },
    }
}

/// Where a movement's atomic unit stands.
#[derive(Debug, Clone, Copy, PartialEq, Eq, Structural)]
pub enum Phase {
    /// Waiting for the store transaction to open.
    Opening,
    /// Waiting for the movement row to be inserted.
    Inserting,
    /// Waiting for the item's current quantity.
    Reading { movement_id: i64 },
    /// Waiting for the new quantity to be written.
    Writing { movement_id: i64, quantity: i32 },
    /// Waiting for the commit.
    Committing { movement_id: i64, quantity: i32 },
    /// Nothing more to do.
    Finished,
}

/// What the store reported for the last action.
#[derive(Debug, Clone)]
pub enum StoreEvent {
    Begun,
    Inserted { rows: usize, movement_id: i64 },
    QuantityRead(i32),
    Updated { rows: usize },
    Committed,
    Failed(StoreFault),
}

/// The next thing to do against the store.
#[derive(Debug, Clone)]
pub enum LedgerAction {
    /// Open a store transaction.
    Begin,
    /// Insert the movement row within the transaction.
    InsertMovement,
    /// Read the item's quantity within the transaction.
    ReadQuantity,
    /// Write this quantity to the item and refresh its update time.
    WriteQuantity(i32),
    /// Commit the transaction.
    Commit,
    /// Roll the transaction back and report the error.
    Rollback(LedgerError),
    /// Report the error; no transaction is open.
    Abandon(LedgerError),
    /// The movement and the new quantity are committed.
    Complete { movement_id: i64, quantity: i32 },
    /// The unit has finished; nothing to do.
    Idle,
}

/// One step of the atomic unit: from a phase and the store's answer to the
/// next phase and action. Any failure ends the unit in a rollback.
pub open spec fn next(kind: TransactionType, amount: i32, phase: Phase, event: StoreEvent) -> (
    Phase,
    LedgerAction,
) {
    match phase {
        Phase::Opening => match event {
            StoreEvent::Begun => (Phase::Inserting, LedgerAction::InsertMovement),
            StoreEvent::Failed(f) => (Phase::Finished, LedgerAction::Abandon(error_of(f))),
            _ => (Phase::Finished, LedgerAction::Abandon(LedgerError::OutOfOrder)),
        },
        Phase::Inserting => match event {
            StoreEvent::Inserted { rows, movement_id } => if rows == 0 {
                (Phase::Finished, LedgerAction::Rollback(LedgerError::NoEffect))
            } else {
                (Phase::Reading { movement_id }, LedgerAction::ReadQuantity)
            },
            StoreEvent::Failed(f) => (Phase::Finished, LedgerAction::Rollback(error_of(f))),
            _ => (Phase::Finished, LedgerAction::Rollback(LedgerError::OutOfOrder)),
        },
        Phase::Reading { movement_id } => match event {
            StoreEvent::QuantityRead(current) => {
                let v = movement_effect(current as int, kind, amount as int);
                if fits_i32(v) {
                    (
                        Phase::Writing { movement_id, quantity: v as i32 },
                        LedgerAction::WriteQuantity(v as i32),
                    )
                } else {
                    (Phase::Finished, LedgerAction::Rollback(LedgerError::QuantityOutOfRange))
                }
            },
            StoreEvent::Failed(f) => (Phase::Finished, LedgerAction::Rollback(error_of(f))),
            _ => (Phase::Finished, LedgerAction::Rollback(LedgerError::OutOfOrder)),
        },
        Phase::Writing { movement_id, quantity } => match event {
            StoreEvent::Updated { rows } => if rows == 0 {
                (Phase::Finished, LedgerAction::Rollback(LedgerError::NoEffect))
            } else {
                (Phase::Committing { movement_id, quantity }, LedgerAction::Commit)
            },
            StoreEvent::Failed(f) => (Phase::Finished, LedgerAction::Rollback(error_of(f))),
            _ => (Phase::Finished, LedgerAction::Rollback(LedgerError::OutOfOrder)),
        },
        Phase::Committing { movement_id, quantity } => match event {
            StoreEvent::Committed => (
                Phase::Finished,
                LedgerAction::Complete { movement_id, quantity },
            ),
            StoreEvent::Failed(f) => (Phase::Finished, LedgerAction::Rollback(error_of(f))),
            _ => (Phase::Finished, LedgerAction::Rollback(LedgerError::OutOfOrder)),
        },
        Phase::Finished => (Phase::Finished, LedgerAction::Idle),
    }
}

/// The stock-movement engine for one movement: it decides each step of the
/// atomic unit (insert the movement, read the quantity, write the new
/// quantity, commit), and the caller performs the step against the store
/// inside one store transaction and reports back.
pub struct MovementUnit {
    pub request: NewTransaction,
    pub phase: Phase,
}

impl MovementUnit {
    /// Starts the unit for a request. A negative quantity is refused before
    /// any store work.
    pub fn start(request: NewTransaction) -> (r: (MovementUnit, LedgerAction))
        ensures
            r.0.request == request,
            request.quantity < 0 ==> r.0.phase == Phase::Finished && r.1 == LedgerAction::Abandon(
                LedgerError::NegativeQuantity,
            ),
            request.quantity >= 0 ==> r.0.phase == Phase::Opening && r.1 == LedgerAction::Begin,
    {
        if request.quantity < 0 {
            (MovementUnit { request, phase: Phase::Finished }, LedgerAction::Abandon(LedgerError::NegativeQuantity))
        } else {
            (MovementUnit { request, phase: Phase::Opening }, LedgerAction::Begin)
        }
    }

    /// Takes the store's answer to the last action and gives the next one.
    pub fn advance(&mut self, event: StoreEvent) -> (r: LedgerAction)
        ensures
            final(self).request == old(self).request,
            (final(self).phase, r) == next(
                old(self).request.transaction_type,
                old(self).request.quantity,
                old(self).phase,
                event,
            ),
    {
        let kind = self.request.transaction_type;
        let amount = self.request.quantity;
        let (phase, action) = match self.phase {
            Phase::Opening => match event {
                StoreEvent::Begun => (Phase::Inserting, LedgerAction::InsertMovement),
                StoreEvent::Failed(f) => (Phase::Finished, LedgerAction::Abandon(classify_fault(f))),
                _ => (Phase::Finished, LedgerAction::Abandon(LedgerError::OutOfOrder)),
            },
            Phase::Inserting => match event {
                StoreEvent::Inserted { rows, movement_id } => if rows == 0 {
                    (Phase::Finished, LedgerAction::Rollback(LedgerError::NoEffect))
                } else {
                    (Phase::Reading { movement_id }, LedgerAction::ReadQuantity)
                },
                StoreEvent::Failed(f) => (Phase::Finished, LedgerAction::Rollback(classify_fault(f))),
                _ => (Phase::Finished, LedgerAction::Rollback(LedgerError::OutOfOrder)),
            },
            Phase::Reading { movement_id } => match event {
                StoreEvent::QuantityRead(current) => match apply_movement(current, kind, amount) {
                    Some(v) => (
                        Phase::Writing { movement_id, quantity: v },
                        LedgerAction::WriteQuantity(v),
                    ),
                    None => (Phase::Finished, LedgerAction::Rollback(LedgerError::QuantityOutOfRange)),
                },
                StoreEvent::Failed(f) => (Phase::Finished, LedgerAction::Rollback(classify_fault(f))),
                _ => (Phase::Finished, LedgerAction::Rollback(LedgerError::OutOfOrder)),
            },
            Phase::Writing { movement_id, quantity } => match event {
                StoreEvent::Updated { rows } => if rows == 0 {
                    (Phase::Finished, LedgerAction::Rollback(LedgerError::NoEffect))
                } else {
                    (Phase::Committing { movement_id, quantity }, LedgerAction::Commit)
                },
                StoreEvent::Failed(f) => (Phase::Finished, LedgerAction::Rollback(classify_fault(f))),
                _ => (Phase::Finished, LedgerAction::Rollback(LedgerError::OutOfOrder)),
            },
            Phase::Committing { movement_id, quantity } => match event {
                StoreEvent::Committed => (
                    Phase::Finished,
                    LedgerAction::Complete { movement_id, quantity },
                ),
                StoreEvent::Failed(f) => (Phase::Finished, LedgerAction::Rollback(classify_fault(f))),
                _ => (Phase::Finished, LedgerAction::Rollback(LedgerError::OutOfOrder)),
            },
            Phase::Finished => (Phase::Finished, LedgerAction::Idle),
        };
        self.phase = phase;
        action
    }
}

/// The actions that the unit gives for a run of store answers, from `phase`.
pub open spec fn trace(kind: TransactionType, amount: i32, phase: Phase, events: Seq<StoreEvent>) -> Seq<
    LedgerAction,
>
    decreases events.len(),
{
    if events.len() == 0 {
        Seq::empty()
    } else {
        let step = next(kind, amount, phase, events[0]);
        seq![step.1] + trace(kind, amount, step.0, events.subrange(1, events.len() as int))
    }
}

/// A store answer that ends the unit: a failure or a write that changed no row.
pub open spec fn is_failure(e: StoreEvent) -> bool {
    match e {
        StoreEvent::Failed(_) => true,
        StoreEvent::Updated { rows } => rows == 0,
        StoreEvent::Inserted { rows, movement_id } => rows == 0,
        _ => false,
    }
}

proof fn finished_is_idle(kind: TransactionType, amount: i32, events: Seq<StoreEvent>)
    ensures
        trace(kind, amount, Phase::Finished, events).len() == events.len(),
        forall|i: int|
            0 <= i < events.len() ==> #[trigger] trace(kind, amount, Phase::Finished, events)[i]
                == LedgerAction::Idle,
    decreases events.len(),
{
    if events.len() > 0 {
        finished_is_idle(kind, amount, events.subrange(1, events.len() as int));
    }
}

/// A failure reported at any step of an unfinished unit, the quantity write
/// included, is answered by a rollback (or, before the transaction opened,
/// by giving up), and nothing is ever committed afterwards: the movement row
/// never outlives a failed quantity update.
pub proof fn failure_never_commits(
    kind: TransactionType,
    amount: i32,
    phase: Phase,
    failure: StoreEvent,
    later: Seq<StoreEvent>,
)
    requires
        phase != Phase::Finished,
        is_failure(failure),
    ensures
        ({
            let t = trace(kind, amount, phase, seq![failure] + later);
            &&& t.len() == later.len() + 1
            &&& t[0] is Rollback || t[0] is Abandon
            &&& forall|i: int| 1 <= i < t.len() ==> t[i] == LedgerAction::Idle
        }),
{
    let events = seq![failure] + later;
    assert(events[0] == failure);
    assert(events.subrange(1, events.len() as int) =~= later);
    let step = next(kind, amount, phase, failure);
    assert(step.0 == Phase::Finished);
    finished_is_idle(kind, amount, later);
    let t = trace(kind, amount, phase, events);
    assert(t == seq![step.1] + trace(kind, amount, Phase::Finished, later));
    assert forall|i: int| 1 <= i < t.len() implies t[i] == LedgerAction::Idle by {
        assert(t[i] == trace(kind, amount, Phase::Finished, later)[i - 1]);
    }
}

proof fn trace_unfold(kind: TransactionType, amount: i32, phase: Phase, events: Seq<StoreEvent>)
    requires
        events.len() > 0,
    ensures
        ({
            let step = next(kind, amount, phase, events[0]);
            let rest = events.subrange(1, events.len() as int);
            let t = trace(kind, amount, phase, events);
            &&& t[0] == step.1
            &&& forall|i: int| 1 <= i < events.len() ==> t[i] == trace(kind, amount, step.0, rest)[i - 1]
        }),
{
    trace_len(kind, amount, phase, events);
}

proof fn trace_len(kind: TransactionType, amount: i32, phase: Phase, events: Seq<StoreEvent>)
    ensures
        trace(kind, amount, phase, events).len() == events.len(),
    decreases events.len(),
{
    if events.len() > 0 {
        let step = next(kind, amount, phase, events[0]);
        trace_len(kind, amount, step.0, events.subrange(1, events.len() as int));
    }
}

proof fn no_commit_after_writes(kind: TransactionType, amount: i32, phase: Phase, events: Seq<StoreEvent>)
    requires
        phase is Committing || phase == Phase::Finished,
    ensures
        forall|i: int| 0 <= i < events.len() ==> !(#[trigger] trace(kind, amount, phase, events)[i] is Commit),
{
    if events.len() > 0 {
        trace_unfold(kind, amount, phase, events);
        let step = next(kind, amount, phase, events[0]);
        let rest = events.subrange(1, events.len() as int);
        assert(step.0 == Phase::Finished);
        finished_is_idle(kind, amount, rest);
        assert forall|i: int| 0 <= i < events.len() implies !(#[trigger] trace(kind, amount, phase, events)[i] is Commit) by {
            if i > 0 {
                assert(trace(kind, amount, Phase::Finished, rest)[i - 1] == LedgerAction::Idle);
            }
        }
    }
}

/// Both writes or neither: in any run of the unit, the commit is issued
/// only as the fourth action, after the transaction opened, the movement row
/// was inserted, the item's quantity was read, and the write of the new
/// quantity changed a row; and the quantity written is the movement's effect
/// on the quantity read.
pub proof fn commit_follows_both_writes(
    kind: TransactionType,
    amount: i32,
    events: Seq<StoreEvent>,
    j: int,
)
    requires
        0 <= j < events.len(),
        trace(kind, amount, Phase::Opening, events)[j] is Commit,
    ensures
        j == 3,
        events[0] is Begun,
        events[1] is Inserted && events[1]->Inserted_rows > 0,
        events[2] is QuantityRead,
        events[3] is Updated && events[3]->Updated_rows > 0,
        trace(kind, amount, Phase::Opening, events)[2] == LedgerAction::WriteQuantity(
            movement_effect(events[2]->QuantityRead_0 as int, kind, amount as int) as i32,
        ),
{
    let t0 = trace(kind, amount, Phase::Opening, events);
    trace_unfold(kind, amount, Phase::Opening, events);
    let s0 = next(kind, amount, Phase::Opening, events[0]);
    let e1 = events.subrange(1, events.len() as int);
    if s0.0 == Phase::Finished {
        finished_is_idle(kind, amount, e1);
        if j > 0 {
            assert(t0[j] == trace(kind, amount, Phase::Finished, e1)[j - 1]);
        }
        assert(false);
    }
    assert(j >= 1);
    let t1 = trace(kind, amount, s0.0, e1);
    trace_unfold(kind, amount, s0.0, e1);
    let s1 = next(kind, amount, s0.0, e1[0]);
    let e2 = e1.subrange(1, e1.len() as int);
    assert(t0[j] == t1[j - 1]);
    if s1.0 == Phase::Finished {
        finished_is_idle(kind, amount, e2);
        if j > 1 {
            assert(t1[j - 1] == trace(kind, amount, Phase::Finished, e2)[j - 2]);
        }
        assert(false);
    }
    assert(j >= 2);
    let t2 = trace(kind, amount, s1.0, e2);
    trace_unfold(kind, amount, s1.0, e2);
    let s2 = next(kind, amount, s1.0, e2[0]);
    let e3 = e2.subrange(1, e2.len() as int);
    assert(t1[j - 1] == t2[j - 2]);
    if s2.0 == Phase::Finished {
        finished_is_idle(kind, amount, e3);
        if j > 2 {
            assert(t2[j - 2] == trace(kind, amount, Phase::Finished, e3)[j - 3]);
        }
        assert(false);
    }
    assert(j >= 3);
    let t3 = trace(kind, amount, s2.0, e3);
    trace_unfold(kind, amount, s2.0, e3);
    let s3 = next(kind, amount, s2.0, e3[0]);
    let e4 = e3.subrange(1, e3.len() as int);
    assert(t2[j - 2] == t3[j - 3]);
    if s3.0 == Phase::Finished {
        finished_is_idle(kind, amount, e4);
        if j > 3 {
            assert(t3[j - 3] == trace(kind, amount, Phase::Finished, e4)[j - 4]);
        }
        assert(false);
    }
    if j > 3 {
        no_commit_after_writes(kind, amount, s3.0, e4);
        assert(t3[j - 3] == trace(kind, amount, s3.0, e4)[j - 4]);
        assert(false);
    }
    assert(e1[0] == events[1]);
    assert(e2[0] == events[2]);
    assert(e3[0] == events[3]);
    assert(t0[2] == t2[0]);
}

} // verus!
