//! The registration protocol on the in-memory store: what every operation
//! comes to when its requests are carried out one after the other, and what
//! holds of sequences and interleavings of operations.

use vstd::prelude::*;
use crate::error::ServiceError;
use crate::models::{IcNonReg, IcRecord};
use crate::registration::{FinalizePhase, Finalization, Reservation, written};
use crate::store::{
    MemoryStore, RowChange, StoreRequest, StoreView, driver_name, has_active_record, holds_card,
    inserted_record, is_visible, active_record_of, store_after, store_reply, store_wf, superseded,
    supersedes, update_rows, upsert_rows, visible_rows,
};

verus! {

/// What a reservation of `card` for `driver_id` comes to on `store`: the
/// driver's name, `NotFound` where the driver is missing, `Conflict` where the
/// driver exists and the card has an active record.
pub open spec fn reserve_verdict(store: StoreView, card: Seq<char>, driver_id: i32) -> Result<
    String,
    ServiceError,
> {
    match driver_name(store.drivers, driver_id) {
        None => Err(ServiceError::NotFound),
        Some(name) => if has_active_record(store.registry, card) {
            Err(ServiceError::Conflict)
        } else {
            Ok(name)
        },
    }
}

/// The tables after a reservation: the pending registration of the card is
/// updated or created where the reservation succeeds, and nothing changes
/// where it does not.
pub open spec fn store_after_reserve(
    store: StoreView,
    card_id: String,
    driver_id: i32,
    reservation_time: i64,
) -> StoreView {
    if reserve_verdict(store, card_id@, driver_id) is Ok {
        StoreView {
            pending: upsert_rows(store.pending, card_id, driver_id, reservation_time),
            ..store
        }
    } else {
        store
    }
}

/// What the completion of a registration comes to on `store`.
pub open spec fn finalize_verdict(store: StoreView, card: Seq<char>) -> Result<(), ServiceError> {
    if has_active_record(store.registry, card) {
        Err(ServiceError::Conflict)
    } else {
        Ok(())
    }
}

/// The tables after the completion of a registration: where the card has no
/// active record, one is written and the pending registration is marked as
/// completed; where it has one, nothing changes.
pub open spec fn store_after_finalize(
    store: StoreView,
    card_id: String,
    driver_id: i32,
    registered_at: i64,
) -> StoreView {
    if has_active_record(store.registry, card_id@) {
        store
    } else {
        StoreView {
            drivers: store.drivers,
            pending: update_rows(store.pending, card_id@, RowChange::Complete { driver_id }),
            registry: inserted_record(store.registry, card_id, driver_id, registered_at),
        }
    }
}

/// The tables after the reservation of `card` was cancelled.
pub open spec fn store_after_cancel(store: StoreView, card: Seq<char>) -> StoreView {
    StoreView { pending: update_rows(store.pending, card, RowChange::Clear), ..store }
}

/// Carries a reservation out on the in-memory store, from its first request
/// to its result.
pub fn run_reservation(store: &mut MemoryStore, card_id: String, driver_id: i32, reservation_time: i64) -> (result: Result<String, ServiceError>)
    ensures
        result == reserve_verdict(old(store)@, card_id@, driver_id),
        final(store)@ == store_after_reserve(old(store)@, card_id, driver_id, reservation_time),
{
    let reservation = Reservation::begin(card_id, driver_id, Some(reservation_time));
    let reply = store.execute(StoreRequest::FindDriver { driver_id });
    let (reservation, done) = reservation.resume(reply);
    match done {
        Some(result) => {
            return result;
        },
        None => {},
    }
    let reply = store.execute(StoreRequest::FindActiveRecord { card_id: reservation.card_id.clone() });
    let (reservation, done) = reservation.resume(reply);
    match done {
        Some(result) => {
            return result;
        },
        None => {},
    }
    let reply = store.execute(
        StoreRequest::UpsertPending {
            card_id: reservation.card_id.clone(),
            driver_id,
            reservation_time,
        },
    );
    let (_, done) = reservation.resume(reply);
    done.unwrap()
}

/// Carries the completion of a registration out on the in-memory store, from
/// its first request to its result.
pub fn run_finalization(store: &mut MemoryStore, card_id: String, driver_id: i32, registered_at: i64) -> (result: Result<(), ServiceError>)
    ensures
        result == finalize_verdict(old(store)@, card_id@),
        final(store)@ == store_after_finalize(old(store)@, card_id, driver_id, registered_at),
{
    let finalization = Finalization::begin(card_id, driver_id, registered_at);
    let reply = store.execute(StoreRequest::FindActiveRecord { card_id: finalization.card_id.clone() });
    let (finalization, done) = finalization.resume(reply);
    match done {
        Some(result) => {
            return result;
        },
        None => {},
    }
    let reply = store.execute(
        StoreRequest::InsertRecord {
            card_id: finalization.card_id.clone(),
            driver_id,
            registered_at,
        },
    );
    let (finalization, done) = finalization.resume(reply);
    match done {
        Some(result) => {
            return result;
        },
        None => {},
    }
    let reply = store.execute(
        StoreRequest::MarkCompleted { card_id: finalization.card_id.clone(), driver_id },
    );
    let (_, done) = finalization.resume(reply);
    done.unwrap()
}

/// Cancels the reservation of a card on the in-memory store. Succeeds whether
/// or not the card was reserved.
pub fn run_cancellation(store: &mut MemoryStore, card_id: String) -> (result: Result<(), ServiceError>)
    ensures
        result == Ok::<(), ServiceError>(()),
        final(store)@ == store_after_cancel(old(store)@, card_id@),
{
    let reply = store.execute(StoreRequest::ClearReservation { card_id });
    written(reply)
}

/// The position `i` holds the only pending registration of `card`.
pub open spec fn only_row_of(pending: Seq<IcNonReg>, card: Seq<char>, i: int) -> bool {
    &&& 0 <= i < pending.len()
    &&& pending[i].id@ == card
    &&& forall|j: int| 0 <= j < pending.len() && j != i ==> #[trigger] pending[j].id@ != card
}

/// Whatever request a store carries out, no card comes to have two pending
/// registrations.
pub proof fn lemma_store_keeps_cards_apart(store: StoreView, request: StoreRequest)
    requires
        store_wf(store),
    ensures
        store_wf(store_after(store, request)),
{
    let after = store_after(store, request);
    assert forall|i: int, j: int| 0 <= i < j < after.pending.len() implies #[trigger] after.pending[i].id@
        != #[trigger] after.pending[j].id@ by {
        match request {
            StoreRequest::UpsertPending { card_id, driver_id, reservation_time } => {
                if holds_card(store.pending, card_id@) {
                    assert(after.pending[i].id == store.pending[i].id);
                    assert(after.pending[j].id == store.pending[j].id);
                } else {
                    if j < store.pending.len() {
                        assert(after.pending[i] == store.pending[i]);
                        assert(after.pending[j] == store.pending[j]);
                    } else {
                        assert(after.pending[i] == store.pending[i]);
                        assert(after.pending[j].id == card_id);
                    }
                }
            },
            StoreRequest::ClearReservation { .. } => {
                assert(after.pending[i].id == store.pending[i].id);
                assert(after.pending[j].id == store.pending[j].id);
            },
            StoreRequest::AssignDriver { .. } => {
                assert(after.pending[i].id == store.pending[i].id);
                assert(after.pending[j].id == store.pending[j].id);
            },
            StoreRequest::MarkCompleted { .. } => {
                assert(after.pending[i].id == store.pending[i].id);
                assert(after.pending[j].id == store.pending[j].id);
            },
            _ => {},
        }
    }
}

/// After a reservation that succeeds, the card has exactly one pending
/// registration: it names the driver, carries the reservation time, and is
/// open.
pub proof fn lemma_reservation_leaves_one_row(
    store: StoreView,
    card_id: String,
    driver_id: i32,
    reservation_time: i64,
)
    requires
        store_wf(store),
        reserve_verdict(store, card_id@, driver_id) is Ok,
    ensures
        store_wf(store_after_reserve(store, card_id, driver_id, reservation_time)),
        exists|i: int| #[trigger]
            only_row_of(
                store_after_reserve(store, card_id, driver_id, reservation_time).pending,
                card_id@,
                i,
            ) && store_after_reserve(store, card_id, driver_id, reservation_time).pending[i]
                == (IcNonReg {
                id: store_after_reserve(store, card_id, driver_id, reservation_time).pending[i].id,
                datetime: reservation_time,
                deleted: Some(0i8),
                registered_id: Some(driver_id),
            }),
{
    let after = store_after_reserve(store, card_id, driver_id, reservation_time);
    lemma_store_keeps_cards_apart(
        store,
        StoreRequest::UpsertPending { card_id, driver_id, reservation_time },
    );
    if holds_card(store.pending, card_id@) {
        let i = choose|i: int| 0 <= i < store.pending.len() && #[trigger] store.pending[i].id@ == card_id@;
        assert(after.pending[i].id == store.pending[i].id);
        assert forall|j: int| 0 <= j < after.pending.len() && j != i implies #[trigger] after.pending[j].id@
            != card_id@ by {
            assert(after.pending[j].id == store.pending[j].id);
            if j < i {
                assert(store.pending[j].id@ != store.pending[i].id@);
            } else {
                assert(store.pending[i].id@ != store.pending[j].id@);
            }
        }
        assert(only_row_of(after.pending, card_id@, i));
    } else {
        let i = store.pending.len() as int;
        assert forall|j: int| 0 <= j < after.pending.len() && j != i implies #[trigger] after.pending[j].id@
            != card_id@ by {
            assert(after.pending[j] == store.pending[j]);
            if store.pending[j].id@ == card_id@ {
                assert(holds_card(store.pending, card_id@));
            }
        }
        assert(only_row_of(after.pending, card_id@, i));
    }
}

/// Two reservations of one card in a row, for two drivers, leave exactly one
/// pending registration of the card, and it names the second driver.
pub proof fn lemma_second_reservation_wins(
    store: StoreView,
    card_id: String,
    first_driver: i32,
    first_time: i64,
    second_driver: i32,
    second_time: i64,
)
    requires
        store_wf(store),
        reserve_verdict(store, card_id@, first_driver) is Ok,
        reserve_verdict(store, card_id@, second_driver) is Ok,
    ensures
        ({
            let between = store_after_reserve(store, card_id, first_driver, first_time);
            let after = store_after_reserve(between, card_id, second_driver, second_time);
            &&& reserve_verdict(between, card_id@, second_driver) is Ok
            &&& exists|i: int| #[trigger]
                only_row_of(after.pending, card_id@, i) && after.pending[i].registered_id == Some(
                    second_driver,
                )
        }),
{
    let between = store_after_reserve(store, card_id, first_driver, first_time);
    lemma_reservation_leaves_one_row(store, card_id, first_driver, first_time);
    lemma_reservation_leaves_one_row(between, card_id, second_driver, second_time);
}

/// `record` is a record of `card` without a `deleted` flag that took effect
/// at `time` or later. Such a record does not stand in the way of a
/// reservation, and keeps the card out of the listing all the same.
pub open spec fn unflagged_record_from(record: IcRecord, card: Seq<char>, time: i64) -> bool {
    record.ic_id@ == card && record.deleted is None && record.date >= time
}

/// A reservation that is cancelled leaves the card listed as pending, with no
/// driver assigned, provided the reservation is not dated before the time
/// from which the listing starts, and the registry holds no record of the
/// card without a flag from the reservation time on.
pub proof fn lemma_cancelled_reservation_is_listed(
    store: StoreView,
    card_id: String,
    driver_id: i32,
    reservation_time: i64,
    since: i64,
)
    requires
        store_wf(store),
        reserve_verdict(store, card_id@, driver_id) is Ok,
        reservation_time >= since,
        forall|r: int|
            0 <= r < store.registry.len() ==> !#[trigger] unflagged_record_from(
                store.registry[r],
                card_id@,
                reservation_time,
            ),
    ensures
        ({
            let reserved = store_after_reserve(store, card_id, driver_id, reservation_time);
            let cancelled = store_after_cancel(reserved, card_id@);
            let listed = visible_rows(cancelled.pending, cancelled.registry, since);
            exists|k: int|
                0 <= k < listed.len() && #[trigger] listed[k].id@ == card_id@
                    && listed[k].registered_id is None
        }),
{
    let reserved = store_after_reserve(store, card_id, driver_id, reservation_time);
    let cancelled = store_after_cancel(reserved, card_id@);
    let listed = visible_rows(cancelled.pending, cancelled.registry, since);
    lemma_reservation_leaves_one_row(store, card_id, driver_id, reservation_time);
    let i = choose|i: int| #[trigger]
        only_row_of(reserved.pending, card_id@, i) && reserved.pending[i] == (IcNonReg {
            id: reserved.pending[i].id,
            datetime: reservation_time,
            deleted: Some(0i8),
            registered_id: Some(driver_id),
        });
    let row = cancelled.pending[i];
    assert(row.id == reserved.pending[i].id);
    assert(row.registered_id is None);
    assert(!superseded(cancelled.registry, row)) by {
        if superseded(cancelled.registry, row) {
            let r = choose|r: int|
                0 <= r < cancelled.registry.len() && #[trigger] supersedes(cancelled.registry[r], row);
            assert(!unflagged_record_from(store.registry[r], card_id@, reservation_time));
            assert(active_record_of(store.registry[r], card_id@));
        }
    }
    let listing = |row: IcNonReg| is_visible(row, cancelled.registry, since);
    assert(listing(row));
    broadcast use vstd::seq_lib::group_filter_ensures;
    assert(listed.contains(cancelled.pending[i]));
    let k = choose|k: int| 0 <= k < listed.len() && listed[k] == row;
    assert(listed[k].id@ == card_id@);
}

/// A reservation for a driver that the reference store does not hold is
/// refused as `NotFound` and changes no table.
pub proof fn lemma_unknown_driver_changes_nothing(
    store: StoreView,
    card_id: String,
    driver_id: i32,
    reservation_time: i64,
)
    requires
        driver_name(store.drivers, driver_id) is None,
    ensures
        reserve_verdict(store, card_id@, driver_id) == Err::<String, ServiceError>(
            ServiceError::NotFound,
        ),
        store_after_reserve(store, card_id, driver_id, reservation_time) == store,
{
}

/// A reservation of a card that has an active record in the permanent registry,
/// for a driver that exists, is refused as `Conflict` and changes no table.
pub proof fn lemma_registered_card_changes_nothing(
    store: StoreView,
    card_id: String,
    driver_id: i32,
    reservation_time: i64,
)
    requires
        driver_name(store.drivers, driver_id) is Some,
        has_active_record(store.registry, card_id@),
    ensures
        reserve_verdict(store, card_id@, driver_id) == Err::<String, ServiceError>(
            ServiceError::Conflict,
        ),
        store_after_reserve(store, card_id, driver_id, reservation_time) == store,
{
}

/// A reservation and a completion that run at the same time on one store.
pub struct Race {
    pub store: StoreView,
    pub reservation: Reservation,
    pub finalization: Finalization,
}

/// One move of a race: the reservation, or else the completion, has its
/// pending request carried out by the store and resumes with the reply. A
/// machine that is finished does not move.
pub open spec fn race_step(race: Race, reservation_moves: bool) -> Race {
    if reservation_moves {
        match race.reservation.request() {
            Some(request) => Race {
                store: store_after(race.store, request),
                reservation: race.reservation.resumed(store_reply(race.store, request)),
                finalization: race.finalization,
            },
            None => race,
        }
    } else {
        match race.finalization.request() {
            Some(request) => Race {
                store: store_after(race.store, request),
                reservation: race.reservation,
                finalization: race.finalization.resumed(store_reply(race.store, request)),
            },
            None => race,
        }
    }
}

/// A race after the moves of `schedule`, in which `true` lets the reservation
/// move and `false` the completion.
pub open spec fn race_after(race: Race, schedule: Seq<bool>) -> Race
    decreases schedule.len(),
{
    if schedule.len() == 0 {
        race
    } else {
        race_step(race_after(race, schedule.drop_last()), schedule.last())
    }
}

/// The number of active records that the permanent registry holds of `card`.
pub open spec fn active_records(registry: Seq<IcRecord>, card: Seq<char>) -> nat
    decreases registry.len(),
{
    if registry.len() == 0 {
        0
    } else {
        active_records(registry.drop_last(), card) + if active_record_of(registry.last(), card) {
            1nat
        } else {
            0nat
        }
    }
}

/// The registry holds an active record of a card exactly when the number of its
/// active records is not zero.
pub proof fn lemma_active_records_zero(registry: Seq<IcRecord>, card: Seq<char>)
    ensures
        has_active_record(registry, card) <==> active_records(registry, card) > 0,
    decreases registry.len(),
{
    if registry.len() > 0 {
        let earlier = registry.drop_last();
        lemma_active_records_zero(earlier, card);
        if has_active_record(earlier, card) {
            let i = choose|i: int| 0 <= i < earlier.len() && #[trigger] active_record_of(earlier[i], card);
            assert(active_record_of(registry[i], card));
        }
        if active_record_of(registry.last(), card) {
            assert(active_record_of(registry[registry.len() - 1], card));
        }
        if has_active_record(registry, card) {
            let i = choose|i: int| 0 <= i < registry.len() && #[trigger] active_record_of(registry[i], card);
            if i < earlier.len() {
                assert(active_record_of(earlier[i], card));
            }
        }
    }
}

spec fn race_safe(race: Race, card: Seq<char>) -> bool {
    &&& race.finalization.card_id@ == card
    &&& active_records(race.store.registry, card) <= 1
    &&& race.finalization.phase is Inserting ==> active_records(race.store.registry, card) == 0
}

proof fn lemma_race_step_safe(race: Race, reservation_moves: bool, card: Seq<char>)
    requires
        race_safe(race, card),
    ensures
        race_safe(race_step(race, reservation_moves), card),
{
    let next = race_step(race, reservation_moves);
    if reservation_moves {
        match race.reservation.request() {
            Some(request) => {
                assert(next.store.registry == race.store.registry);
            },
            None => {},
        }
    } else {
        match race.finalization.phase {
            FinalizePhase::CheckingCard => {
                lemma_active_records_zero(race.store.registry, card);
            },
            FinalizePhase::Inserting => {
                assert(next.store.registry.drop_last() =~= race.store.registry);
            },
            FinalizePhase::Marking => {},
            FinalizePhase::Finished => {},
        }
    }
}

proof fn lemma_race_safe(race: Race, schedule: Seq<bool>, card: Seq<char>)
    requires
        race_safe(race, card),
    ensures
        race_safe(race_after(race, schedule), card),
    decreases schedule.len(),
{
    if schedule.len() > 0 {
        lemma_race_safe(race, schedule.drop_last(), card);
        lemma_race_step_safe(race_after(race, schedule.drop_last()), schedule.last(), card);
    }
}

/// However the requests of a reservation and of a completion interleave, a
/// card that had at most one active record in the permanent registry still has
/// at most one: the race never produces a second record of the card.
pub proof fn lemma_race_keeps_one_record(
    store: StoreView,
    reservation: Reservation,
    card_id: String,
    driver_id: i32,
    registered_at: i64,
    schedule: Seq<bool>,
)
    requires
        active_records(store.registry, card_id@) <= 1,
    ensures
        active_records(
            race_after(
                Race {
                    store,
                    reservation,
                    finalization: Finalization::started(card_id, driver_id, registered_at),
                },
                schedule,
            ).store.registry,
            card_id@,
        ) <= 1,
{
    let race = Race {
        store,
        reservation,
        finalization: Finalization::started(card_id, driver_id, registered_at),
    };
    lemma_race_safe(race, schedule, card_id@);
}

/// Cancelling a reservation twice is the same as cancelling it once.
pub proof fn lemma_cancellation_is_idempotent(store: StoreView, card: Seq<char>)
    ensures
        store_after_cancel(store_after_cancel(store, card), card) == store_after_cancel(store, card),
{
    let once = store_after_cancel(store, card);
    let twice = store_after_cancel(once, card);
    assert(twice.pending =~= once.pending);
}

/// The completion of a registration never gives a card a second active record:
/// a card with at most one active record in the permanent registry still has
/// at most one after any card's registration was completed.
pub proof fn lemma_finalization_keeps_one_record(
    store: StoreView,
    card_id: String,
    driver_id: i32,
    registered_at: i64,
    card: Seq<char>,
)
    requires
        active_records(store.registry, card) <= 1,
    ensures
        active_records(store_after_finalize(store, card_id, driver_id, registered_at).registry, card)
            <= 1,
{
    let after = store_after_finalize(store, card_id, driver_id, registered_at);
    if !has_active_record(store.registry, card_id@) {
        lemma_active_records_zero(store.registry, card_id@);
        assert(after.registry.drop_last() =~= store.registry);
    }
}

/// Completing a registration a second time is refused as `Conflict` and
/// changes no table.
pub proof fn lemma_second_finalization_changes_nothing(
    store: StoreView,
    card_id: String,
    first_driver: i32,
    first_time: i64,
    second_driver: i32,
    second_time: i64,
)
    requires
        finalize_verdict(store, card_id@) is Ok,
    ensures
        ({
            let once = store_after_finalize(store, card_id, first_driver, first_time);
            &&& finalize_verdict(once, card_id@) == Err::<(), ServiceError>(ServiceError::Conflict)
            &&& store_after_finalize(once, card_id, second_driver, second_time) == once
        }),
{
    let once = store_after_finalize(store, card_id, first_driver, first_time);
    assert(active_record_of(once.registry[once.registry.len() - 1], card_id@));
}

} // verus!
