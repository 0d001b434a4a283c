//! The registration service: the operations that an operator asks for, and
//! the command that asks the agents to delete a card.

use vstd::prelude::*;
use vstd::string::StringExecFns;
use crate::clock::{datetime_text, format_datetime, sql_pattern};
use crate::error::ServiceError;
use crate::json::{
    empty_object, error_text, json_empty_object, json_member, json_of_string, json_string_text,
    json_text, json_with_member, set_member, string_text, string_value, value_text,
};
use crate::models::IcNonReg;
use crate::registration::{Finalization, Reservation};
use crate::store::{MemoryStore, StoreRequest, lists_newest_first, visible_rows};
use crate::text::{joined, uppercase, uppercase_text};

verus! {

/// Seconds that a reservation is dated ahead of the clock, by default: nine
/// hours. The device that completes a registration keeps its times in a clock
/// domain that runs ahead of the server's; the offset bridges the two.
pub const DEFAULT_RESERVATION_OFFSET_SECS: i64 = 32400;

/// The registration service: whether a real-time layer is configured, and by
/// how many seconds a reservation is dated ahead of the clock.
#[derive(Debug)]
pub struct ICNonRegServiceImpl {
    pub socketio: bool,
    pub reservation_offset_secs: i64,
}

/// The command that asks the agents to delete a card.
#[derive(Debug)]
pub struct DeleteCommand {
    /// The card, in uppercase.
    pub ic_id: String,
    /// What is relayed to the sessions.
    pub payload: String,
}

/// The answer to a request to delete a card.
#[derive(Debug)]
pub struct DeleteIcResponse {
    pub success: bool,
    pub message: String,
}

/// The delete command for a card as a JSON value: an object with the status
/// `delete_ic` and the card.
pub open spec fn delete_command_value(ic_id: Seq<char>) -> serde_json::Value {
    json_with_member(
        json_with_member(json_empty_object(), "status"@, json_of_string("delete_ic"@)),
        "ic"@,
        json_of_string(ic_id),
    )
}

/// The delete command for a card as JSON text.
pub open spec fn delete_command_text(ic_id: Seq<char>) -> Seq<char> {
    json_text(delete_command_value(ic_id))
}

/// What is relayed for a delete command: the JSON text of the command,
/// encoded once more as a JSON string. An agent takes a payload for a control
/// command only when it decodes to a plain string.
pub open spec fn delete_payload_text(ic_id: Seq<char>) -> Seq<char> {
    json_string_text(delete_command_text(ic_id))
}

/// The diagnostic of an encoding that failed.
pub open spec fn encoding_failed_text(detail: Seq<char>) -> Seq<char> {
    "JSON serialization error: "@ + detail
}

/// The text that was written, or the failure to write it as a failure of
/// the service.
pub fn encoded(written: Result<String, serde_json::Error>) -> (result: Result<String, ServiceError>)
    ensures
        match written {
            Ok(text) => result == Ok::<String, ServiceError>(text),
            Err(_) => result matches Err(ServiceError::Internal(text)) && exists|detail: Seq<char>| #[trigger]
                encoding_failed_text(detail) == text@,
        },
{
    match written {
        Ok(text) => Ok(text),
        Err(error) => {
            let detail = error_text(&error);
            let text = joined("JSON serialization error: ", detail.as_str());
            proof {
                assert(encoding_failed_text(detail@) == text@);
            }
            Err(ServiceError::Internal(text))
        },
    }
}

/// Composes the delete command for `ic_id` as JSON text, with `serde_json`:
/// the text of an object that holds the status `delete_ic` and the card.
pub fn delete_command(ic_id: &str) -> (command: Result<String, serde_json::Error>)
    ensures
        command matches Ok(text) && text@ == delete_command_text(ic_id@),
        json_member(delete_command_value(ic_id@), "status"@) == Some(json_of_string("delete_ic"@)),
        json_member(delete_command_value(ic_id@), "ic"@) == Some(json_of_string(ic_id@)),
{
    let mut object = empty_object();
    set_member(&mut object, String::from_str("status"), string_value(String::from_str("delete_ic")));
    set_member(&mut object, String::from_str("ic"), string_value(String::from_str(ic_id)));
    proof {
        reveal_strlit("status");
        reveal_strlit("ic");
        assert("status"@.len() != "ic"@.len());
    }
    value_text(&object)
}

/// A pending registration as the service lists it: the time of the
/// reservation as text, and whether the registration is completed.
#[derive(Debug)]
pub struct IcNonRegEntry {
    pub id: String,
    pub datetime: String,
    pub deleted: Option<bool>,
    pub registered_id: Option<i32>,
}

/// The time of a reservation as the service writes it: date and time with a
/// space between them, and the empty text for a time that has no such text.
pub open spec fn entry_time(secs: i64) -> Seq<char> {
    match datetime_text(secs, sql_pattern()) {
        Some(text) => text,
        None => Seq::empty(),
    }
}

/// `entry` lists the pending registration `row`.
pub open spec fn lists_row(entry: IcNonRegEntry, row: IcNonReg) -> bool {
    &&& entry.id == row.id
    &&& entry.datetime@ == entry_time(row.datetime)
    &&& entry.deleted == match row.deleted {
        Some(flag) => Some(flag != 0),
        None => None,
    }
    &&& entry.registered_id == row.registered_id
}

/// `entries` lists the rows of `rows`, one entry each, in their order.
pub open spec fn is_listing_of(entries: Seq<IcNonRegEntry>, rows: Seq<IcNonReg>) -> bool {
    &&& entries.len() == rows.len()
    &&& forall|i: int| 0 <= i < entries.len() ==> lists_row(#[trigger] entries[i], rows[i])
}

impl IcNonRegEntry {
    /// The pending registration as the service lists it.
    pub fn from_row(row: &IcNonReg) -> (entry: Self)
        ensures
            lists_row(entry, *row),
    {
        let datetime = match format_datetime(row.datetime, "%Y-%m-%d %H:%M:%S") {
            Some(text) => text,
            None => String::new(),
        };
        IcNonRegEntry {
            id: row.id.clone(),
            datetime,
            deleted: match row.deleted {
                Some(flag) => Some(flag != 0),
                None => None,
            },
            registered_id: row.registered_id,
        }
    }
}

impl ICNonRegServiceImpl {
    /// Lists the pending registrations of the in-memory store from `since`
    /// on, newest first: those that were reserved at `since` or later, are
    /// not completed, and whose card has no live record in the permanent
    /// registry that took effect at the reservation time or later.
    pub fn get_all(&self, store: &MemoryStore, since: i64) -> (entries: Vec<IcNonRegEntry>)
        ensures
            exists|listed: Seq<IcNonReg>|
                #![trigger lists_newest_first(listed, visible_rows(store@.pending, store@.registry, since))]
                lists_newest_first(listed, visible_rows(store@.pending, store@.registry, since))
                    && is_listing_of(entries@, listed),
    {
        let rows = store.list_pending_newest_first(since);
        let mut entries: Vec<IcNonRegEntry> = Vec::new();
        let mut i: usize = 0;
        while i < rows.len()
            invariant
                0 <= i <= rows@.len(),
                entries@.len() == i,
                forall|k: int| 0 <= k < i ==> lists_row(#[trigger] entries@[k], rows@[k]),
            decreases rows@.len() - i,
        {
            entries.push(IcNonRegEntry::from_row(&rows[i]));
            i = i + 1;
        }
        proof {
            assert(is_listing_of(entries@, rows@));
        }
        entries
    }

    /// A service without a real-time layer, with the default offset.
    pub fn new() -> (service: Self)
        ensures
            !service.socketio,
            service.reservation_offset_secs == DEFAULT_RESERVATION_OFFSET_SECS,
    {
        ICNonRegServiceImpl {
            socketio: false,
            reservation_offset_secs: DEFAULT_RESERVATION_OFFSET_SECS,
        }
    }

    /// A service with a real-time layer, with the default offset.
    pub fn with_socketio() -> (service: Self)
        ensures
            service.socketio,
            service.reservation_offset_secs == DEFAULT_RESERVATION_OFFSET_SECS,
    {
        ICNonRegServiceImpl {
            socketio: true,
            reservation_offset_secs: DEFAULT_RESERVATION_OFFSET_SECS,
        }
    }

    /// The service with another offset for the reservation time.
    pub fn with_reservation_offset(self, seconds: i64) -> (service: Self)
        ensures
            service.socketio == self.socketio,
            service.reservation_offset_secs == seconds,
    {
        ICNonRegServiceImpl { socketio: self.socketio, reservation_offset_secs: seconds }
    }

    /// The time that a reservation made at `now` is dated: `now` plus the
    /// offset, where that is a time that can be written down.
    pub open spec fn reservation_time(self, now: i64) -> Option<i64> {
        if i64::MIN <= now + self.reservation_offset_secs <= i64::MAX {
            Some((now + self.reservation_offset_secs) as i64)
        } else {
            None
        }
    }

    /// Starts the reservation of the card `ic_id` for `driver_id` at the
    /// time `now`. The reservation is dated `now` plus the offset. Where that
    /// is out of range, the reservation has no time: it still looks the
    /// driver and the card up, and fails as `Internal` in place of the write.
    pub fn register_direct(&self, ic_id: String, driver_id: i32, now: i64) -> (reservation: Reservation)
        ensures
            reservation == Reservation::started(ic_id, driver_id, self.reservation_time(now)),
    {
        Reservation::begin(ic_id, driver_id, now.checked_add(self.reservation_offset_secs))
    }

    /// The request that cancels the reservation of the card `ic_id`. Its
    /// result is `written` of the store's reply.
    pub fn cancel_reservation(&self, ic_id: String) -> (request: StoreRequest)
        ensures
            request == (StoreRequest::ClearReservation { card_id: ic_id }),
    {
        StoreRequest::ClearReservation { card_id: ic_id }
    }

    /// The request that names the driver of the pending registration of the
    /// card `ic_id`. Its result is `written` of the store's reply.
    pub fn update(&self, ic_id: String, driver_id: i32) -> (request: StoreRequest)
        ensures
            request == (StoreRequest::AssignDriver { card_id: ic_id, driver_id }),
    {
        StoreRequest::AssignDriver { card_id: ic_id, driver_id }
    }

    /// Starts the completion of the registration of the card `ic_id` for
    /// `driver_id` at the time `now`.
    pub fn finalize(&self, ic_id: String, driver_id: i32, now: i64) -> (finalization: Finalization)
        ensures
            finalization == Finalization::started(ic_id, driver_id, now),
    {
        Finalization::begin(ic_id, driver_id, now)
    }

    /// Composes the command that asks the agents to delete the card `ic_id`,
    /// to be relayed to the sessions. The card is put in uppercase. Without a
    /// real-time layer the result is `Unavailable`; with one, it is the
    /// command, whoever is connected. The store is not asked.
    pub fn delete_ic(&self, ic_id: &str) -> (result: Result<DeleteCommand, ServiceError>)
        ensures
            !self.socketio ==> result matches Err(ServiceError::Unavailable),
            self.socketio ==> (result matches Ok(delete) && delete.ic_id@ == uppercase_text(ic_id@)
                && delete.payload@ == delete_payload_text(uppercase_text(ic_id@))),
    {
        if !self.socketio {
            return Err(ServiceError::Unavailable);
        }
        let card = uppercase(ic_id);
        let command = match encoded(delete_command(card.as_str())) {
            Ok(command) => command,
            Err(failure) => {
                return Err(failure);
            },
        };
        match encoded(string_text(command.as_str())) {
            Ok(payload) => Ok(DeleteCommand { ic_id: card, payload }),
            Err(failure) => Err(failure),
        }
    }

    /// The answer to a request to delete a card, once the command is handed
    /// over to be relayed.
    pub fn delete_ic_response(command: &DeleteCommand) -> (response: DeleteIcResponse)
        ensures
            response.success,
            response.message@ == "IC削除リクエストを送信しました: "@ + command.ic_id@,
    {
        DeleteIcResponse {
            success: true,
            message: joined("IC削除リクエストを送信しました: ", command.ic_id.as_str()),
        }
    }
}

} // verus!
