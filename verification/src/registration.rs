//! The two-phase card registration protocol.
//!
//! An operator reserves a card for a driver; the device completes the
//! registration when the card is next touched. Every operation is a small
//! state machine: it names the store request that it waits for, and resumes
//! with the store's reply until it has a result. Whoever drives the machine
//! performs the requests, against a database or against the in-memory store
//! of this crate.

use vstd::prelude::*;
use vstd::string::StringExecFns;
use crate::error::ServiceError;
use crate::store::{StoreReply, StoreRequest};

verus! {

/// The diagnostic of a reply that does not answer the request that was asked.
pub open spec fn unexpected_reply_text() -> Seq<char> {
    "store reply does not answer the request"@
}

/// The diagnostic of a reservation whose time cannot be written down.
pub open spec fn time_out_of_range_text() -> Seq<char> {
    "reservation time is out of range"@
}

fn time_out_of_range() -> (error: ServiceError)
    ensures
        error matches ServiceError::Internal(text) && text@ == time_out_of_range_text(),
{
    ServiceError::Internal(String::from_str("reservation time is out of range"))
}

fn unexpected_reply() -> (error: ServiceError)
    ensures
        error matches ServiceError::Internal(text) && text@ == unexpected_reply_text(),
{
    ServiceError::Internal(String::from_str("store reply does not answer the request"))
}

/// Where a reservation stands.
#[derive(Debug)]
pub enum ReservePhase {
    /// Waiting for the driver lookup.
    FindingDriver,
    /// The driver exists; waiting for the lookup in the permanent registry.
    CheckingCard { driver_name: String },
    /// The card is free; waiting for the write of the pending registration.
    Writing { driver_name: String },
    /// The reservation has a result.
    Finished,
}

/// A reservation of a card for a driver, in progress. The reservation time
/// is `None` where the time that the reservation is to be dated cannot be
/// written down; the reservation then fails when it comes to the write, after
/// the driver and the card were looked up.
#[derive(Debug)]
pub struct Reservation {
    pub card_id: String,
    pub driver_id: i32,
    pub reservation_time: Option<i64>,
    pub phase: ReservePhase,
}

/// What a reservation yields when it resumes: nothing yet, or its result, the
/// driver's name on success.
pub type ReserveResult = Option<Result<String, ServiceError>>;

impl Reservation {
    /// A reservation that has not asked anything yet.
    pub open spec fn started(
        card_id: String,
        driver_id: i32,
        reservation_time: Option<i64>,
    ) -> Reservation {
        Reservation { card_id, driver_id, reservation_time, phase: ReservePhase::FindingDriver }
    }

    /// The request that the reservation waits for, if it is not finished.
    pub open spec fn request(self) -> Option<StoreRequest> {
        match self.phase {
            ReservePhase::FindingDriver => Some(StoreRequest::FindDriver { driver_id: self.driver_id }),
            ReservePhase::CheckingCard { .. } => Some(
                StoreRequest::FindActiveRecord { card_id: self.card_id },
            ),
            ReservePhase::Writing { .. } => match self.reservation_time {
                Some(reservation_time) => Some(
                    StoreRequest::UpsertPending {
                        card_id: self.card_id,
                        driver_id: self.driver_id,
                        reservation_time,
                    },
                ),
                None => None,
            },
            ReservePhase::Finished => None,
        }
    }

    /// The reservation after the store's reply.
    pub open spec fn resumed(self, reply: StoreReply) -> Reservation {
        match (self.phase, reply) {
            (ReservePhase::FindingDriver, StoreReply::Driver(Some(name))) => Reservation {
                phase: ReservePhase::CheckingCard { driver_name: name },
                ..self
            },
            (ReservePhase::CheckingCard { driver_name }, StoreReply::ActiveRecord(false)) => Reservation {
                phase: if self.reservation_time is Some {
                    ReservePhase::Writing { driver_name }
                } else {
                    ReservePhase::Finished
                },
                ..self
            },
            _ => Reservation { phase: ReservePhase::Finished, ..self },
        }
    }

    /// `result` is what the reservation yields when it resumes with `reply`.
    pub open spec fn yields(self, reply: StoreReply, result: ReserveResult) -> bool {
        match (self.phase, reply) {
            (ReservePhase::Finished, _) => result matches Some(Err(ServiceError::Internal(text)))
                && text@ == unexpected_reply_text(),
            (_, StoreReply::Failed(diagnostic)) => result == Some::<Result<String, ServiceError>>(
                Err(ServiceError::Internal(diagnostic)),
            ),
            (ReservePhase::FindingDriver, StoreReply::Driver(Some(_))) => result is None,
            (ReservePhase::FindingDriver, StoreReply::Driver(None)) => result == Some::<
                Result<String, ServiceError>,
            >(Err(ServiceError::NotFound)),
            (ReservePhase::CheckingCard { .. }, StoreReply::ActiveRecord(false)) => if self.reservation_time is Some {
                result is None
            } else {
                result matches Some(Err(ServiceError::Internal(text))) && text@
                    == time_out_of_range_text()
            },
            (ReservePhase::CheckingCard { .. }, StoreReply::ActiveRecord(true)) => result == Some::<
                Result<String, ServiceError>,
            >(Err(ServiceError::Conflict)),
            (ReservePhase::Writing { driver_name }, StoreReply::Written) => result == Some::<
                Result<String, ServiceError>,
            >(Ok(driver_name)),
            _ => result matches Some(Err(ServiceError::Internal(text))) && text@
                == unexpected_reply_text(),
        }
    }

    /// Starts a reservation of `card_id` for `driver_id`, dated
    /// `reservation_time`.
    pub fn begin(card_id: String, driver_id: i32, reservation_time: Option<i64>) -> (reservation: Self)
        ensures
            reservation == Reservation::started(card_id, driver_id, reservation_time),
    {
        Reservation { card_id, driver_id, reservation_time, phase: ReservePhase::FindingDriver }
    }

    /// The request to perform next, or `None` when the reservation is finished.
    pub fn pending_request(&self) -> (request: Option<StoreRequest>)
        ensures
            request == self.request(),
    {
        match &self.phase {
            ReservePhase::FindingDriver => Some(StoreRequest::FindDriver { driver_id: self.driver_id }),
            ReservePhase::CheckingCard { .. } => Some(
                StoreRequest::FindActiveRecord { card_id: self.card_id.clone() },
            ),
            ReservePhase::Writing { .. } => match self.reservation_time {
                Some(reservation_time) => Some(
                    StoreRequest::UpsertPending {
                        card_id: self.card_id.clone(),
                        driver_id: self.driver_id,
                        reservation_time,
                    },
                ),
                None => None,
            },
            ReservePhase::Finished => None,
        }
    }

    /// Resumes with the store's reply to the pending request. Returns the
    /// reservation in its next phase, and its result once it has one: the
    /// driver's name after the write; `NotFound` where the driver is missing
    /// and `Conflict` where the card has an active record, both before anything
    /// was written; `Internal` with the store's diagnostic where the store
    /// failed, where the reply does not answer the request, or where the
    /// driver exists and the card is free but the reservation has no time.
    pub fn resume(self, reply: StoreReply) -> (next: (Self, ReserveResult))
        ensures
            next.0 == self.resumed(reply),
            self.yields(reply, next.1),
    {
        let Reservation { card_id, driver_id, reservation_time, phase } = self;
        match phase {
            ReservePhase::Finished => (
                Reservation { card_id, driver_id, reservation_time, phase: ReservePhase::Finished },
                Some(Err(unexpected_reply())),
            ),
            ReservePhase::FindingDriver => match reply {
                StoreReply::Failed(diagnostic) => (
                    Reservation { card_id, driver_id, reservation_time, phase: ReservePhase::Finished },
                    Some(Err(ServiceError::Internal(diagnostic))),
                ),
                StoreReply::Driver(Some(name)) => (
                    Reservation {
                        card_id,
                        driver_id,
                        reservation_time,
                        phase: ReservePhase::CheckingCard { driver_name: name },
                    },
                    None,
                ),
                StoreReply::Driver(None) => (
                    Reservation { card_id, driver_id, reservation_time, phase: ReservePhase::Finished },
                    Some(Err(ServiceError::NotFound)),
                ),
                _ => (
                    Reservation { card_id, driver_id, reservation_time, phase: ReservePhase::Finished },
                    Some(Err(unexpected_reply())),
                ),
            },
            ReservePhase::CheckingCard { driver_name } => match reply {
                StoreReply::Failed(diagnostic) => (
                    Reservation { card_id, driver_id, reservation_time, phase: ReservePhase::Finished },
                    Some(Err(ServiceError::Internal(diagnostic))),
                ),
                StoreReply::ActiveRecord(false) => if reservation_time.is_some() {
                    (
                        Reservation {
                            card_id,
                            driver_id,
                            reservation_time,
                            phase: ReservePhase::Writing { driver_name },
                        },
                        None,
                    )
                } else {
                    (
                        Reservation {
                            card_id,
                            driver_id,
                            reservation_time,
                            phase: ReservePhase::Finished,
                        },
                        Some(Err(time_out_of_range())),
                    )
                },
                StoreReply::ActiveRecord(true) => (
                    Reservation { card_id, driver_id, reservation_time, phase: ReservePhase::Finished },
                    Some(Err(ServiceError::Conflict)),
                ),
                _ => (
                    Reservation { card_id, driver_id, reservation_time, phase: ReservePhase::Finished },
                    Some(Err(unexpected_reply())),
                ),
            },
            ReservePhase::Writing { driver_name } => match reply {
                StoreReply::Failed(diagnostic) => (
                    Reservation { card_id, driver_id, reservation_time, phase: ReservePhase::Finished },
                    Some(Err(ServiceError::Internal(diagnostic))),
                ),
                StoreReply::Written => (
                    Reservation { card_id, driver_id, reservation_time, phase: ReservePhase::Finished },
                    Some(Ok(driver_name)),
                ),
                _ => (
                    Reservation { card_id, driver_id, reservation_time, phase: ReservePhase::Finished },
                    Some(Err(unexpected_reply())),
                ),
            },
        }
    }
}

/// Where the completion of a registration stands.
#[derive(Clone, Copy, Debug)]
pub enum FinalizePhase {
    /// Waiting for the lookup in the permanent registry.
    CheckingCard,
    /// The card is free; waiting for the write of the record.
    Inserting,
    /// The record is written; waiting for the pending registration to be
    /// marked as completed.
    Marking,
    /// The completion has a result.
    Finished,
}

/// The completion of a registration by the device, in progress.
#[derive(Debug)]
pub struct Finalization {
    pub card_id: String,
    pub driver_id: i32,
    pub registered_at: i64,
    pub phase: FinalizePhase,
}

/// What a completion yields when it resumes: nothing yet, or its result.
pub type FinalizeResult = Option<Result<(), ServiceError>>;

impl Finalization {
    /// A completion that has not asked anything yet.
    pub open spec fn started(card_id: String, driver_id: i32, registered_at: i64) -> Finalization {
        Finalization { card_id, driver_id, registered_at, phase: FinalizePhase::CheckingCard }
    }

    /// The request that the completion waits for, if it is not finished.
    pub open spec fn request(self) -> Option<StoreRequest> {
        match self.phase {
            FinalizePhase::CheckingCard => Some(StoreRequest::FindActiveRecord { card_id: self.card_id }),
            FinalizePhase::Inserting => Some(
                StoreRequest::InsertRecord {
                    card_id: self.card_id,
                    driver_id: self.driver_id,
                    registered_at: self.registered_at,
                },
            ),
            FinalizePhase::Marking => Some(
                StoreRequest::MarkCompleted { card_id: self.card_id, driver_id: self.driver_id },
            ),
            FinalizePhase::Finished => None,
        }
    }

    /// The completion after the store's reply.
    pub open spec fn resumed(self, reply: StoreReply) -> Finalization {
        match (self.phase, reply) {
            (FinalizePhase::CheckingCard, StoreReply::ActiveRecord(false)) => Finalization {
                phase: FinalizePhase::Inserting,
                ..self
            },
            (FinalizePhase::Inserting, StoreReply::Written) => Finalization {
                phase: FinalizePhase::Marking,
                ..self
            },
            _ => Finalization { phase: FinalizePhase::Finished, ..self },
        }
    }

    /// `result` is what the completion yields when it resumes with `reply`.
    pub open spec fn yields(self, reply: StoreReply, result: FinalizeResult) -> bool {
        match (self.phase, reply) {
            (FinalizePhase::Finished, _) => result matches Some(Err(ServiceError::Internal(text)))
                && text@ == unexpected_reply_text(),
            (_, StoreReply::Failed(diagnostic)) => result == Some::<Result<(), ServiceError>>(
                Err(ServiceError::Internal(diagnostic)),
            ),
            (FinalizePhase::CheckingCard, StoreReply::ActiveRecord(false)) => result is None,
            (FinalizePhase::CheckingCard, StoreReply::ActiveRecord(true)) => result == Some::<
                Result<(), ServiceError>,
            >(Err(ServiceError::Conflict)),
            (FinalizePhase::Inserting, StoreReply::Written) => result is None,
            (FinalizePhase::Marking, StoreReply::Written) => result == Some::<
                Result<(), ServiceError>,
            >(Ok(())),
            _ => result matches Some(Err(ServiceError::Internal(text))) && text@
                == unexpected_reply_text(),
        }
    }

    /// Starts the completion of the registration of `card_id` for `driver_id`
    /// at the time `registered_at`.
    pub fn begin(card_id: String, driver_id: i32, registered_at: i64) -> (finalization: Self)
        ensures
            finalization == Finalization::started(card_id, driver_id, registered_at),
    {
        Finalization { card_id, driver_id, registered_at, phase: FinalizePhase::CheckingCard }
    }

    /// The request to perform next, or `None` when the completion is finished.
    pub fn pending_request(&self) -> (request: Option<StoreRequest>)
        ensures
            request == self.request(),
    {
        match self.phase {
            FinalizePhase::CheckingCard => Some(
                StoreRequest::FindActiveRecord { card_id: self.card_id.clone() },
            ),
            FinalizePhase::Inserting => Some(
                StoreRequest::InsertRecord {
                    card_id: self.card_id.clone(),
                    driver_id: self.driver_id,
                    registered_at: self.registered_at,
                },
            ),
            FinalizePhase::Marking => Some(
                StoreRequest::MarkCompleted {
                    card_id: self.card_id.clone(),
                    driver_id: self.driver_id,
                },
            ),
            FinalizePhase::Finished => None,
        }
    }

    /// Resumes with the store's reply to the pending request. Returns the
    /// completion in its next phase, and its result once it has one: success
    /// after the record is written and the pending registration is marked;
    /// `Conflict` where the card already has an active record, before anything
    /// was written; `Internal` with the store's diagnostic where the store
    /// failed, or where the reply does not answer the request.
    pub fn resume(self, reply: StoreReply) -> (next: (Self, FinalizeResult))
        ensures
            next.0 == self.resumed(reply),
            self.yields(reply, next.1),
    {
        let Finalization { card_id, driver_id, registered_at, phase } = self;
        match phase {
            FinalizePhase::Finished => (
                Finalization { card_id, driver_id, registered_at, phase: FinalizePhase::Finished },
                Some(Err(unexpected_reply())),
            ),
            FinalizePhase::CheckingCard => match reply {
                StoreReply::Failed(diagnostic) => (
                    Finalization { card_id, driver_id, registered_at, phase: FinalizePhase::Finished },
                    Some(Err(ServiceError::Internal(diagnostic))),
                ),
                StoreReply::ActiveRecord(false) => (
                    Finalization { card_id, driver_id, registered_at, phase: FinalizePhase::Inserting },
                    None,
                ),
                StoreReply::ActiveRecord(true) => (
                    Finalization { card_id, driver_id, registered_at, phase: FinalizePhase::Finished },
                    Some(Err(ServiceError::Conflict)),
                ),
                _ => (
                    Finalization { card_id, driver_id, registered_at, phase: FinalizePhase::Finished },
                    Some(Err(unexpected_reply())),
                ),
            },
            FinalizePhase::Inserting => match reply {
                StoreReply::Failed(diagnostic) => (
                    Finalization { card_id, driver_id, registered_at, phase: FinalizePhase::Finished },
                    Some(Err(ServiceError::Internal(diagnostic))),
                ),
                StoreReply::Written => (
                    Finalization { card_id, driver_id, registered_at, phase: FinalizePhase::Marking },
                    None,
                ),
                _ => (
                    Finalization { card_id, driver_id, registered_at, phase: FinalizePhase::Finished },
                    Some(Err(unexpected_reply())),
                ),
            },
            FinalizePhase::Marking => match reply {
                StoreReply::Failed(diagnostic) => (
                    Finalization { card_id, driver_id, registered_at, phase: FinalizePhase::Finished },
                    Some(Err(ServiceError::Internal(diagnostic))),
                ),
                StoreReply::Written => (
                    Finalization { card_id, driver_id, registered_at, phase: FinalizePhase::Finished },
                    Some(Ok(())),
                ),
                _ => (
                    Finalization { card_id, driver_id, registered_at, phase: FinalizePhase::Finished },
                    Some(Err(unexpected_reply())),
                ),
            },
        }
    }
}

/// The result of an operation that asks for a single write.
pub fn written(reply: StoreReply) -> (result: Result<(), ServiceError>)
    ensures
        match reply {
            StoreReply::Written => result == Ok::<(), ServiceError>(()),
            StoreReply::Failed(diagnostic) => result == Err::<(), ServiceError>(
                ServiceError::Internal(diagnostic),
            ),
            _ => result matches Err(ServiceError::Internal(text)) && text@
                == unexpected_reply_text(),
        },
{
    match reply {
        StoreReply::Written => Ok(()),
        StoreReply::Failed(diagnostic) => Err(ServiceError::Internal(diagnostic)),
        _ => Err(unexpected_reply()),
    }
}

} // verus!
