//! Decisions of the paste store, and the laws of its slots.
//!
//! The slots themselves live with the storage collaborator; the store decides,
//! from what the collaborator reports, what happens next.

use vstd::prelude::*;
use vstd::utf8::*;

verus! {

/// Attempts to reserve a slot for a fresh identifier: the first one and three retries.
pub const MAX_ATTEMPTS: u32 = 4;

/// What the collaborator reports for an exclusive reservation of a slot.
#[derive(Debug, Clone, Copy, PartialEq, Eq, Structural)]
pub enum Reservation {
    /// The slot was free and is now held.
    Reserved,
    /// A slot with this identifier already exists.
    Occupied,
    /// Any other fault.
    Failed,
}

/// What `create` does after a reservation.
#[derive(Debug, Clone, Copy, PartialEq, Eq, Structural)]
pub enum CreateStep {
    /// Write the content and the secret into the reserved slot.
    Write,
    /// Generate a fresh identifier and try again.
    Retry,
    /// Every attempt collided: report exhaustion.
    Exhausted,
    /// The collaborator failed: report an internal error.
    Fault,
}

/// The step owed after the `made`-th reservation attempt reported `r`.
pub open spec fn create_step(made: int, r: Reservation) -> CreateStep {
    match r {
        Reservation::Reserved => CreateStep::Write,
        Reservation::Failed => CreateStep::Fault,
        Reservation::Occupied => if made < MAX_ATTEMPTS {
            CreateStep::Retry
        } else {
            CreateStep::Exhausted
        },
    }
}

/// Decides the next step of `create` after the `made`-th attempt (counting from 1).
pub fn after_reservation(made: u32, r: Reservation) -> (s: CreateStep)
    requires
        1 <= made,
    ensures
        s == create_step(made as int, r),
{
    match r {
        Reservation::Reserved => CreateStep::Write,
        Reservation::Failed => CreateStep::Fault,
        Reservation::Occupied => if made < MAX_ATTEMPTS {
            CreateStep::Retry
        } else {
            CreateStep::Exhausted
        },
    }
}

/// How a whole `create` ends, given the reports of its successive reservations.
pub enum CreateRun {
    /// Content written into the slot reserved at this attempt (counting from 0).
    Stored(int),
    Exhausted,
    Fault,
    /// The reports ran out before the run ended.
    Pending,
}

/// Runs the steps of `create` over `reports`, `made` attempts having gone before.
pub open spec fn run_create(reports: Seq<Reservation>, made: int) -> CreateRun
    decreases reports.len(),
{
    if reports.len() == 0 {
        CreateRun::Pending
    } else {
        match create_step(made + 1, reports[0]) {
            CreateStep::Write => CreateRun::Stored(made),
            CreateStep::Fault => CreateRun::Fault,
            CreateStep::Exhausted => CreateRun::Exhausted,
            CreateStep::Retry => run_create(reports.drop_first(), made + 1),
        }
    }
}

/// If the first `MAX_ATTEMPTS` reservations all collide, `create` reports
/// exhaustion and never writes, whatever would have followed.
pub proof fn lemma_exhaustion(reports: Seq<Reservation>)
    requires
        reports.len() >= MAX_ATTEMPTS,
        forall|i: int| 0 <= i < MAX_ATTEMPTS ==> reports[i] == Reservation::Occupied,
    ensures
        run_create(reports, 0) == CreateRun::Exhausted,
{
    let r1 = reports.drop_first();
    let r2 = r1.drop_first();
    let r3 = r2.drop_first();
    assert(reports[0] == Reservation::Occupied);
    assert(r1[0] == reports[1]);
    assert(r2[0] == reports[2]);
    assert(r3[0] == reports[3]);
    assert(run_create(r3, 3) == CreateRun::Exhausted);
    assert(run_create(r2, 2) == run_create(r3, 3));
    assert(run_create(r1, 1) == run_create(r2, 2));
}

proof fn lemma_stored_from(reports: Seq<Reservation>, made: int, k: int)
    requires
        0 <= made < MAX_ATTEMPTS,
        run_create(reports, made) == CreateRun::Stored(k),
    ensures
        made <= k < MAX_ATTEMPTS,
        k - made < reports.len(),
        reports[k - made] == Reservation::Reserved,
        forall|j: int| 0 <= j < k - made ==> reports[j] == Reservation::Occupied,
    decreases reports.len(),
{
    if create_step(made + 1, reports[0]) == CreateStep::Retry {
        let rest = reports.drop_first();
        lemma_stored_from(rest, made + 1, k);
        assert forall|j: int| 0 <= j < k - made implies reports[j] == Reservation::Occupied by {
            if j > 0 {
                assert(reports[j] == rest[j - 1]);
            }
        }
    }
}

/// `create` writes only into a slot whose reservation succeeded, each earlier
/// attempt having collided with an existing slot, and within the attempt budget;
/// so it never writes into a slot bound to other content.
pub proof fn lemma_writes_only_fresh_slot(reports: Seq<Reservation>, k: int)
    requires
        run_create(reports, 0) == CreateRun::Stored(k),
    ensures
        0 <= k < MAX_ATTEMPTS,
        k < reports.len(),
        reports[k] == Reservation::Reserved,
        forall|j: int| 0 <= j < k ==> reports[j] == Reservation::Occupied,
{
    lemma_stored_from(reports, 0, k);
}

/// What `delete` reports.
#[derive(Debug, Clone, Copy, PartialEq, Eq, Structural)]
pub enum DeleteOutcome {
    Deleted,
    NotFound,
    Unauthorized,
}

/// The outcome of a delete on a slot (`None` when absent) whose stored secret is
/// given, with the supplied secret: a slot without secret is unprotected.
pub open spec fn delete_outcome(
    slot: Option<Option<Seq<u8>>>,
    supplied: Option<Seq<u8>>,
) -> DeleteOutcome {
    match slot {
        None => DeleteOutcome::NotFound,
        Some(None) => DeleteOutcome::Deleted,
        Some(Some(stored)) => if supplied == Some(stored) {
            DeleteOutcome::Deleted
        } else {
            DeleteOutcome::Unauthorized
        },
    }
}

/// The bytes of an optional stored secret.
pub open spec fn secret_view(o: Option<Vec<u8>>) -> Option<Seq<u8>> {
    match o {
        Some(v) => Some(v@),
        None => None,
    }
}

/// The bytes of an optional supplied secret.
pub open spec fn supplied_view(o: Option<String>) -> Option<Seq<u8>> {
    match o {
        Some(s) => Some(encode_utf8(s@)),
        None => None,
    }
}

/// Decides a delete: `exists` tells whether the slot is there, `stored` its secret.
pub fn decide_delete(
    exists: bool,
    stored: &Option<Vec<u8>>,
    supplied: &Option<String>,
) -> (r: DeleteOutcome)
    ensures
        r == delete_outcome(
            if exists {
                Some(secret_view(*stored))
            } else {
                None
            },
            supplied_view(*supplied),
        ),
{
    if !exists {
        return DeleteOutcome::NotFound;
    }
    match stored {
        None => DeleteOutcome::Deleted,
        Some(secret) => match supplied {
            None => DeleteOutcome::Unauthorized,
            Some(given) => {
                if crate::text::bytes_equal(given.as_str().as_bytes(), secret.as_slice()) {
                    DeleteOutcome::Deleted
                } else {
                    DeleteOutcome::Unauthorized
                }
            },
        },
    }
}

/// One durable slot: content and an optional secret.
pub struct Slot {
    pub content: Seq<u8>,
    pub secret: Option<Seq<u8>>,
}

/// The slots of the storage collaborator, by identifier bytes.
pub type Slots = Map<Seq<u8>, Slot>;

/// The stored secret of the slot for `id`, or `None` when there is no slot.
pub open spec fn slot_secret(m: Slots, id: Seq<u8>) -> Option<Option<Seq<u8>>> {
    if m.contains_key(id) {
        Some(m[id].secret)
    } else {
        None
    }
}

/// The slots after a successful create of `content` with `secret` at `id`.
pub open spec fn create_slot(m: Slots, id: Seq<u8>, content: Seq<u8>, secret: Seq<u8>) -> Slots {
    m.insert(id, Slot { content, secret: Some(secret) })
}

/// What a read of `id` returns.
pub open spec fn read_slot(m: Slots, id: Seq<u8>) -> Option<Seq<u8>> {
    if m.contains_key(id) {
        Some(m[id].content)
    } else {
        None
    }
}

/// The slots after a delete of `id` with the supplied secret.
pub open spec fn delete_slot(m: Slots, id: Seq<u8>, supplied: Option<Seq<u8>>) -> Slots {
    if delete_outcome(slot_secret(m, id), supplied) == DeleteOutcome::Deleted {
        m.remove(id)
    } else {
        m
    }
}

/// A read after a create at a fresh identifier returns exactly the content, and
/// leaves every other slot as it was.
pub proof fn lemma_round_trip(m: Slots, id: Seq<u8>, content: Seq<u8>, secret: Seq<u8>)
    requires
        !m.contains_key(id),
    ensures
        read_slot(create_slot(m, id, content, secret), id) == Some(content),
        forall|other: Seq<u8>|
            other != id ==> read_slot(create_slot(m, id, content, secret), other) == read_slot(
                m,
                other,
            ),
{
}

/// A slot with a secret is deleted only with that secret, after which a read
/// finds nothing; a slot without a secret is deleted without one.
pub proof fn lemma_authorization(
    m: Slots,
    id: Seq<u8>,
    content: Seq<u8>,
    secret: Seq<u8>,
    wrong: Seq<u8>,
)
    requires
        !m.contains_key(id),
        wrong != secret,
    ensures
        delete_outcome(slot_secret(create_slot(m, id, content, secret), id), None)
            == DeleteOutcome::Unauthorized,
        delete_outcome(slot_secret(create_slot(m, id, content, secret), id), Some(wrong))
            == DeleteOutcome::Unauthorized,
        delete_outcome(slot_secret(create_slot(m, id, content, secret), id), Some(secret))
            == DeleteOutcome::Deleted,
        read_slot(delete_slot(create_slot(m, id, content, secret), id, Some(secret)), id) is None,
        delete_outcome(slot_secret(m.insert(id, Slot { content, secret: None }), id), None)
            == DeleteOutcome::Deleted,
{
}

} // verus!
