//! The persistent store as the registration protocol uses it: a handful of
//! narrow operations on three tables, their meaning as functions on
//! sequences of rows, and an in-memory store that carries them out.

use vstd::prelude::*;
use crate::models::{Driver, IcNonReg, IcRecord};

verus! {

/// The three tables as mathematical sequences of rows.
pub struct StoreView {
    pub drivers: Seq<Driver>,
    pub pending: Seq<IcNonReg>,
    pub registry: Seq<IcRecord>,
}

/// No card has more than one pending registration.
pub open spec fn store_wf(store: StoreView) -> bool {
    forall|i: int, j: int|
        0 <= i < j < store.pending.len() ==> #[trigger] store.pending[i].id@
            != #[trigger] store.pending[j].id@
}

/// The name of the first driver filed under `id`.
pub open spec fn driver_name(drivers: Seq<Driver>, id: i32) -> Option<String>
    decreases drivers.len(),
{
    if drivers.len() == 0 {
        None
    } else if drivers.first().id == id {
        Some(drivers.first().name)
    } else {
        driver_name(drivers.drop_first(), id)
    }
}

/// The permanent registry holds an active record of `card`.
pub open spec fn has_active_record(registry: Seq<IcRecord>, card: Seq<char>) -> bool {
    exists|i: int| 0 <= i < registry.len() && #[trigger] active_record_of(registry[i], card)
}

/// `record` is an active record of `card`: its `deleted` flag is zero.
pub open spec fn active_record_of(record: IcRecord, card: Seq<char>) -> bool {
    record.ic_id@ == card && record.is_active()
}

/// `card` has a pending registration.
pub open spec fn holds_card(pending: Seq<IcNonReg>, card: Seq<char>) -> bool {
    exists|i: int| 0 <= i < pending.len() && #[trigger] pending[i].id@ == card
}

/// What an update does to a pending registration.
#[derive(Clone, Copy, Debug)]
pub enum RowChange {
    /// Reserve the card for a driver and reopen the registration.
    Reserve { driver_id: i32, reservation_time: i64 },
    /// Withdraw the reservation and reopen the registration.
    Clear,
    /// Name the driver and leave the rest.
    Assign { driver_id: i32 },
    /// Mark the registration as completed for a driver.
    Complete { driver_id: i32 },
}

/// A pending registration after a change.
pub open spec fn changed_row(row: IcNonReg, change: RowChange) -> IcNonReg {
    match change {
        RowChange::Reserve { driver_id, reservation_time } => IcNonReg {
            id: row.id,
            datetime: reservation_time,
            deleted: Some(0i8),
            registered_id: Some(driver_id),
        },
        RowChange::Clear => IcNonReg {
            id: row.id,
            datetime: row.datetime,
            deleted: Some(0i8),
            registered_id: None,
        },
        RowChange::Assign { driver_id } => IcNonReg {
            id: row.id,
            datetime: row.datetime,
            deleted: row.deleted,
            registered_id: Some(driver_id),
        },
        RowChange::Complete { driver_id } => IcNonReg {
            id: row.id,
            datetime: row.datetime,
            deleted: Some(1i8),
            registered_id: Some(driver_id),
        },
    }
}

/// The pending registrations after every row of `card` took `change`.
pub open spec fn update_rows(pending: Seq<IcNonReg>, card: Seq<char>, change: RowChange) -> Seq<
    IcNonReg,
> {
    Seq::new(
        pending.len(),
        |i: int|
            if pending[i].id@ == card {
                changed_row(pending[i], change)
            } else {
                pending[i]
            },
    )
}

/// The pending registrations after `card` was reserved: its row is updated
/// where there is one, and appended where there is none.
pub open spec fn upsert_rows(
    pending: Seq<IcNonReg>,
    card: String,
    driver_id: i32,
    reservation_time: i64,
) -> Seq<IcNonReg> {
    if holds_card(pending, card@) {
        update_rows(pending, card@, RowChange::Reserve { driver_id, reservation_time })
    } else {
        pending.push(
            IcNonReg {
                id: card,
                datetime: reservation_time,
                deleted: Some(0i8),
                registered_id: Some(driver_id),
            },
        )
    }
}

/// The permanent registry after a record was written for `card`.
pub open spec fn inserted_record(registry: Seq<IcRecord>, card: String, driver_id: i32, at: i64) -> Seq<
    IcRecord,
> {
    registry.push(IcRecord { ic_id: card, emp_id: driver_id, deleted: Some(0i8), date: at })
}

/// `record` makes the pending registration `row` obsolete: it is a live
/// record of the same card, with a `deleted` flag that is zero or not set,
/// and took effect at the reservation time or later.
pub open spec fn supersedes(record: IcRecord, row: IcNonReg) -> bool {
    record.ic_id@ == row.id@ && record.is_live() && record.date >= row.datetime
}

/// Some record of the registry makes `row` obsolete.
pub open spec fn superseded(registry: Seq<IcRecord>, row: IcNonReg) -> bool {
    exists|i: int| 0 <= i < registry.len() && #[trigger] supersedes(registry[i], row)
}

/// `row` is listed as pending from `since` on: it was reserved at `since` or
/// later, is not completed, and no record of the registry makes it obsolete.
pub open spec fn is_visible(row: IcNonReg, registry: Seq<IcRecord>, since: i64) -> bool {
    row.datetime >= since && row.is_open() && !superseded(registry, row)
}

/// The pending registrations that are listed from `since` on, in table order.
pub open spec fn visible_rows(pending: Seq<IcNonReg>, registry: Seq<IcRecord>, since: i64) -> Seq<
    IcNonReg,
> {
    pending.filter(|row: IcNonReg| is_visible(row, registry, since))
}

/// The rows are in the order of their reservation times, newest first.
pub open spec fn newest_first(rows: Seq<IcNonReg>) -> bool {
    forall|i: int, j: int| 0 <= i < j < rows.len() ==> rows[i].datetime >= rows[j].datetime
}

/// `listed` holds the rows of `rows`, each as often as `rows` does, newest
/// first.
pub open spec fn lists_newest_first(listed: Seq<IcNonReg>, rows: Seq<IcNonReg>) -> bool {
    listed.to_multiset() == rows.to_multiset() && newest_first(listed)
}

/// One operation that the protocol asks of the store.
#[derive(Debug)]
pub enum StoreRequest {
    /// Look a driver up by id.
    FindDriver { driver_id: i32 },
    /// Ask whether the permanent registry holds an active record of a card.
    FindActiveRecord { card_id: String },
    /// Reserve a card for a driver: update its pending registration or create one.
    UpsertPending { card_id: String, driver_id: i32, reservation_time: i64 },
    /// Withdraw the reservation of a card.
    ClearReservation { card_id: String },
    /// Name the driver of a pending registration.
    AssignDriver { card_id: String, driver_id: i32 },
    /// Write a record of the permanent registry.
    InsertRecord { card_id: String, driver_id: i32, registered_at: i64 },
    /// Mark the pending registration of a card as completed.
    MarkCompleted { card_id: String, driver_id: i32 },
}

/// What the store answers.
#[derive(Debug)]
pub enum StoreReply {
    /// The name of the driver, or `None` where no driver has the id.
    Driver(Option<String>),
    /// Whether an active record exists.
    ActiveRecord(bool),
    /// The write was carried out.
    Written,
    /// The store failed; the text says how.
    Failed(String),
}

/// The tables after a store that does not fail carried out `request`.
pub open spec fn store_after(store: StoreView, request: StoreRequest) -> StoreView {
    match request {
        StoreRequest::FindDriver { .. } => store,
        StoreRequest::FindActiveRecord { .. } => store,
        StoreRequest::UpsertPending { card_id, driver_id, reservation_time } => StoreView {
            pending: upsert_rows(store.pending, card_id, driver_id, reservation_time),
            ..store
        },
        StoreRequest::ClearReservation { card_id } => StoreView {
            pending: update_rows(store.pending, card_id@, RowChange::Clear),
            ..store
        },
        StoreRequest::AssignDriver { card_id, driver_id } => StoreView {
            pending: update_rows(store.pending, card_id@, RowChange::Assign { driver_id }),
            ..store
        },
        StoreRequest::InsertRecord { card_id, driver_id, registered_at } => StoreView {
            registry: inserted_record(store.registry, card_id, driver_id, registered_at),
            ..store
        },
        StoreRequest::MarkCompleted { card_id, driver_id } => StoreView {
            pending: update_rows(store.pending, card_id@, RowChange::Complete { driver_id }),
            ..store
        },
    }
}

/// The answer of a store that does not fail to `request`.
pub open spec fn store_reply(store: StoreView, request: StoreRequest) -> StoreReply {
    match request {
        StoreRequest::FindDriver { driver_id } => StoreReply::Driver(
            driver_name(store.drivers, driver_id),
        ),
        StoreRequest::FindActiveRecord { card_id } => StoreReply::ActiveRecord(
            has_active_record(store.registry, card_id@),
        ),
        _ => StoreReply::Written,
    }
}

proof fn lemma_insert_to_multiset(rows: Seq<IcNonReg>, at: int, row: IcNonReg)
    requires
        0 <= at <= rows.len(),
    ensures
        rows.insert(at, row).to_multiset() == rows.to_multiset().insert(row),
{
    broadcast use vstd::seq_lib::group_to_multiset_ensures;

    let longer = rows.insert(at, row);
    assert(longer[at] == row);
    assert(longer.remove(at) =~= rows);
    assert(longer.contains(row));
    assert(longer.to_multiset().count(row) > 0);
    assert(longer.to_multiset() =~= longer.to_multiset().remove(row).insert(row));
}

/// Sorts rows by their reservation times, newest first.
pub fn sort_newest_first(rows: Vec<IcNonReg>) -> (sorted: Vec<IcNonReg>)
    ensures
        lists_newest_first(sorted@, rows@),
{
    let mut sorted: Vec<IcNonReg> = Vec::new();
    let mut i: usize = 0;
    proof {
        assert(rows@.take(0) =~= Seq::empty());
        assert(sorted@ =~= rows@.take(0));
    }
    while i < rows.len()
        invariant
            0 <= i <= rows@.len(),
            sorted@.len() == i,
            sorted@.to_multiset() == rows@.take(i as int).to_multiset(),
            newest_first(sorted@),
        decreases rows@.len() - i,
    {
        let row = rows[i].clone();
        let mut at: usize = 0;
        while at < sorted.len() && sorted[at].datetime >= row.datetime
            invariant
                0 <= at <= sorted@.len(),
                forall|k: int| 0 <= k < at ==> sorted@[k].datetime >= row.datetime,
            decreases sorted@.len() - at,
        {
            at = at + 1;
        }
        proof {
            lemma_insert_to_multiset(sorted@, at as int, row);
            broadcast use vstd::seq_lib::group_to_multiset_ensures;

            assert(rows@.take(i + 1) =~= rows@.take(i as int).push(rows@[i as int]));
            let longer = sorted@.insert(at as int, row);
            assert forall|a: int, b: int| 0 <= a < b < longer.len() implies longer[a].datetime
                >= longer[b].datetime by {
                if b < at {
                    assert(longer[a] == sorted@[a] && longer[b] == sorted@[b]);
                } else if b == at {
                    assert(longer[a] == sorted@[a]);
                } else if a < at {
                    assert(longer[a] == sorted@[a] && longer[b] == sorted@[b - 1]);
                } else if a == at {
                    assert(longer[b] == sorted@[b - 1]);
                    assert(sorted@[at as int].datetime < row.datetime);
                } else {
                    assert(longer[a] == sorted@[a - 1] && longer[b] == sorted@[b - 1]);
                }
            }
        }
        sorted.insert(at, row);
        i = i + 1;
    }
    proof {
        assert(rows@.take(i as int) =~= rows@);
    }
    sorted
}

/// A store in memory. It never fails.
pub struct MemoryStore {
    drivers: Vec<Driver>,
    pending: Vec<IcNonReg>,
    registry: Vec<IcRecord>,
}

impl View for MemoryStore {
    type V = StoreView;

    closed spec fn view(&self) -> StoreView {
        StoreView { drivers: self.drivers@, pending: self.pending@, registry: self.registry@ }
    }
}

impl MemoryStore {
    /// A store with empty tables.
    pub fn new() -> (store: Self)
        ensures
            store@.drivers =~= Seq::empty(),
            store@.pending =~= Seq::empty(),
            store@.registry =~= Seq::empty(),
            store_wf(store@),
    {
        MemoryStore { drivers: Vec::new(), pending: Vec::new(), registry: Vec::new() }
    }

    /// Appends a driver to the reference table.
    pub fn add_driver(&mut self, driver: Driver)
        ensures
            final(self)@ == (StoreView { drivers: old(self)@.drivers.push(driver), ..old(self)@ }),
    {
        self.drivers.push(driver);
    }

    /// The name of the first driver filed under `driver_id`.
    pub fn find_driver(&self, driver_id: i32) -> (name: Option<String>)
        ensures
            name == driver_name(self@.drivers, driver_id),
    {
        let mut i: usize = 0;
        proof {
            assert(self.drivers@.skip(0) =~= self.drivers@);
        }
        while i < self.drivers.len()
            invariant
                0 <= i <= self.drivers@.len(),
                driver_name(self.drivers@, driver_id) == driver_name(
                    self.drivers@.skip(i as int),
                    driver_id,
                ),
            decreases self.drivers@.len() - i,
        {
            proof {
                assert(self.drivers@.skip(i as int).first() == self.drivers@[i as int]);
                assert(self.drivers@.skip(i as int).drop_first() =~= self.drivers@.skip(i + 1));
            }
            if self.drivers[i].id == driver_id {
                return Some(self.drivers[i].name.clone());
            }
            i = i + 1;
        }
        None
    }

    /// Tells whether the permanent registry holds an active record of `card`.
    pub fn has_active_record(&self, card: &String) -> (found: bool)
        ensures
            found == has_active_record(self@.registry, card@),
    {
        let mut i: usize = 0;
        while i < self.registry.len()
            invariant
                0 <= i <= self.registry@.len(),
                forall|k: int| 0 <= k < i ==> !#[trigger] active_record_of(self.registry@[k], card@),
            decreases self.registry@.len() - i,
        {
            if self.registry[i].ic_id == *card && self.registry[i].active() {
                assert(active_record_of(self.registry@[i as int], card@));
                return true;
            }
            i = i + 1;
        }
        false
    }

    /// Applies `change` to every pending registration of `card` and tells
    /// whether there was one.
    pub fn update_where(&mut self, card: &String, change: RowChange) -> (matched: bool)
        ensures
            final(self)@ == (StoreView {
                pending: update_rows(old(self)@.pending, card@, change),
                ..old(self)@
            }),
            matched == holds_card(old(self)@.pending, card@),
    {
        let mut rows: Vec<IcNonReg> = Vec::new();
        let mut matched = false;
        let mut i: usize = 0;
        while i < self.pending.len()
            invariant
                0 <= i <= self.pending@.len(),
                rows@.len() == i,
                forall|k: int|
                    0 <= k < i ==> #[trigger] rows@[k] == update_rows(self.pending@, card@, change)[k],
                matched == holds_card(self.pending@.take(i as int), card@),
            decreases self.pending@.len() - i,
        {
            let row = &self.pending[i];
            proof {
                let before = self.pending@.take(i as int);
                let now = self.pending@.take(i + 1);
                if holds_card(before, card@) {
                    let k = choose|k: int| 0 <= k < before.len() && #[trigger] before[k].id@ == card@;
                    assert(now[k].id@ == card@);
                }
                if row.id@ == card@ {
                    assert(now[i as int].id@ == card@);
                }
                if holds_card(now, card@) {
                    let k = choose|k: int| 0 <= k < now.len() && #[trigger] now[k].id@ == card@;
                    if k < i {
                        assert(before[k].id@ == card@);
                    }
                }
            }
            if row.id == *card {
                matched = true;
                let changed = match change {
                    RowChange::Reserve { driver_id, reservation_time } => IcNonReg {
                        id: row.id.clone(),
                        datetime: reservation_time,
                        deleted: Some(0i8),
                        registered_id: Some(driver_id),
                    },
                    RowChange::Clear => IcNonReg {
                        id: row.id.clone(),
                        datetime: row.datetime,
                        deleted: Some(0i8),
                        registered_id: None,
                    },
                    RowChange::Assign { driver_id } => IcNonReg {
                        id: row.id.clone(),
                        datetime: row.datetime,
                        deleted: row.deleted,
                        registered_id: Some(driver_id),
                    },
                    RowChange::Complete { driver_id } => IcNonReg {
                        id: row.id.clone(),
                        datetime: row.datetime,
                        deleted: Some(1i8),
                        registered_id: Some(driver_id),
                    },
                };
                rows.push(changed);
            } else {
                rows.push(row.clone());
            }
            i = i + 1;
        }
        proof {
            assert(self.pending@.take(i as int) =~= self.pending@);
            assert(rows@ =~= update_rows(self.pending@, card@, change));
        }
        self.pending = rows;
        matched
    }

    /// Reserves `card` for a driver: updates its pending registration, or
    /// creates one where it has none.
    pub fn upsert_pending(&mut self, card: String, driver_id: i32, reservation_time: i64)
        ensures
            final(self)@ == (StoreView {
                pending: upsert_rows(old(self)@.pending, card, driver_id, reservation_time),
                ..old(self)@
            }),
    {
        let matched = self.update_where(&card, RowChange::Reserve { driver_id, reservation_time });
        if !matched {
            proof {
                assert(self.pending@ =~= old(self).pending@) by {
                    assert forall|k: int| 0 <= k < old(self).pending@.len() implies old(
                        self,
                    ).pending@[k].id@ != card@ by {
                        if old(self).pending@[k].id@ == card@ {
                            assert(holds_card(old(self).pending@, card@));
                        }
                    }
                }
            }
            self.pending.push(
                IcNonReg {
                    id: card,
                    datetime: reservation_time,
                    deleted: Some(0i8),
                    registered_id: Some(driver_id),
                },
            );
        }
    }

    /// Writes a record of the permanent registry.
    pub fn insert_record(&mut self, card: String, driver_id: i32, at: i64)
        ensures
            final(self)@ == (StoreView {
                registry: inserted_record(old(self)@.registry, card, driver_id, at),
                ..old(self)@
            }),
    {
        self.registry.push(IcRecord { ic_id: card, emp_id: driver_id, deleted: Some(0i8), date: at });
    }

    /// Appends a record to the permanent registry as it is given.
    pub fn add_record(&mut self, record: IcRecord)
        ensures
            final(self)@ == (StoreView { registry: old(self)@.registry.push(record), ..old(self)@ }),
    {
        self.registry.push(record);
    }

    /// Tells whether some record of the registry makes `row` obsolete.
    pub fn is_superseded(&self, row: &IcNonReg) -> (found: bool)
        ensures
            found == superseded(self@.registry, *row),
    {
        let mut i: usize = 0;
        while i < self.registry.len()
            invariant
                0 <= i <= self.registry@.len(),
                forall|k: int| 0 <= k < i ==> !#[trigger] supersedes(self.registry@[k], *row),
            decreases self.registry@.len() - i,
        {
            let record = &self.registry[i];
            if record.ic_id == row.id && record.live() && record.date >= row.datetime {
                assert(supersedes(self.registry@[i as int], *row));
                return true;
            }
            i = i + 1;
        }
        false
    }

    /// The pending registrations that are listed from `since` on, in table order.
    pub fn list_pending(&self, since: i64) -> (rows: Vec<IcNonReg>)
        ensures
            rows@ == visible_rows(self@.pending, self@.registry, since),
    {
        let mut rows: Vec<IcNonReg> = Vec::new();
        let mut i: usize = 0;
        let ghost listed = |row: IcNonReg| is_visible(row, self.registry@, since);
        proof {
            reveal(Seq::filter);
            assert(self.pending@.take(0) =~= Seq::empty());
        }
        while i < self.pending.len()
            invariant
                0 <= i <= self.pending@.len(),
                listed == (|row: IcNonReg| is_visible(row, self.registry@, since)),
                rows@ == self.pending@.take(i as int).filter(listed),
            decreases self.pending@.len() - i,
        {
            let row = &self.pending[i];
            proof {
                reveal(Seq::filter);
                assert(self.pending@.take(i + 1).drop_last() =~= self.pending@.take(i as int));
                assert(self.pending@.take(i + 1).last() == self.pending@[i as int]);
            }
            if row.datetime >= since && row.open() && !self.is_superseded(row) {
                rows.push(row.clone());
            }
            i = i + 1;
        }
        proof {
            assert(self.pending@.take(i as int) =~= self.pending@);
        }
        rows
    }

    /// The pending registrations that are listed from `since` on, newest
    /// first.
    pub fn list_pending_newest_first(&self, since: i64) -> (rows: Vec<IcNonReg>)
        ensures
            lists_newest_first(rows@, visible_rows(self@.pending, self@.registry, since)),
    {
        sort_newest_first(self.list_pending(since))
    }

    /// Copies of all pending registrations, in table order.
    pub fn pending_rows(&self) -> (rows: Vec<IcNonReg>)
        ensures
            rows@ == self@.pending,
    {
        let mut rows: Vec<IcNonReg> = Vec::new();
        let mut i: usize = 0;
        while i < self.pending.len()
            invariant
                0 <= i <= self.pending@.len(),
                rows@ == self.pending@.take(i as int),
            decreases self.pending@.len() - i,
        {
            rows.push(self.pending[i].clone());
            proof {
                assert(self.pending@.take(i + 1) =~= self.pending@.take(i as int).push(
                    self.pending@[i as int],
                ));
            }
            i = i + 1;
        }
        proof {
            assert(self.pending@.take(i as int) =~= self.pending@);
        }
        rows
    }

    /// Copies of all records of the permanent registry, in table order.
    pub fn registry_rows(&self) -> (rows: Vec<IcRecord>)
        ensures
            rows@ == self@.registry,
    {
        let mut rows: Vec<IcRecord> = Vec::new();
        let mut i: usize = 0;
        while i < self.registry.len()
            invariant
                0 <= i <= self.registry@.len(),
                rows@ == self.registry@.take(i as int),
            decreases self.registry@.len() - i,
        {
            rows.push(self.registry[i].clone());
            proof {
                assert(self.registry@.take(i + 1) =~= self.registry@.take(i as int).push(
                    self.registry@[i as int],
                ));
            }
            i = i + 1;
        }
        proof {
            assert(self.registry@.take(i as int) =~= self.registry@);
        }
        rows
    }

    /// Carries out one request and answers it.
    pub fn execute(&mut self, request: StoreRequest) -> (reply: StoreReply)
        ensures
            final(self)@ == store_after(old(self)@, request),
            reply == store_reply(old(self)@, request),
    {
        match request {
            StoreRequest::FindDriver { driver_id } => StoreReply::Driver(self.find_driver(driver_id)),
            StoreRequest::FindActiveRecord { card_id } => StoreReply::ActiveRecord(
                self.has_active_record(&card_id),
            ),
            StoreRequest::UpsertPending { card_id, driver_id, reservation_time } => {
                self.upsert_pending(card_id, driver_id, reservation_time);
                StoreReply::Written
            },
            StoreRequest::ClearReservation { card_id } => {
                let _ = self.update_where(&card_id, RowChange::Clear);
                StoreReply::Written
            },
            StoreRequest::AssignDriver { card_id, driver_id } => {
                let _ = self.update_where(&card_id, RowChange::Assign { driver_id });
                StoreReply::Written
            },
            StoreRequest::InsertRecord { card_id, driver_id, registered_at } => {
                self.insert_record(card_id, driver_id, registered_at);
                StoreReply::Written
            },
            StoreRequest::MarkCompleted { card_id, driver_id } => {
                let _ = self.update_where(&card_id, RowChange::Complete { driver_id });
                StoreReply::Written
            },
        }
    }
}

} // verus!
