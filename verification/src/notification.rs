//! The notification service: events that come from outside are resolved and
//! pushed into the internal subscriber stream, a bounded channel of `tokio`
//! whose publisher never blocks.

use vstd::prelude::*;
use tokio::sync::broadcast::Sender;
use crate::encoding::{base64_standard, base64_text, can_encode, encodable};
use crate::error::ServiceError;
use crate::socketio_server::DriverLookup;
use crate::stream::publish;
use crate::text::{copy_of, joined, same_text};

verus! {

/// The payload of an event.
#[derive(Debug)]
pub struct EventData {
    /// The driver; zero stands for none.
    pub id: i32,
    /// The driver's name; empty stands for none.
    pub name: String,
    /// A picture.
    pub pic_data: Option<Vec<u8>>,
    /// The picture as base64 text.
    pub pic_data_base64: Option<String>,
}

/// An event of the attendance tracker.
#[derive(Debug)]
pub struct TimeCardEvent {
    pub status: String,
    pub data: Option<EventData>,
}

/// `copy` holds what the payload `data` holds: the same driver, name and
/// base64 text, and a picture of the same bytes, or none where `data` has
/// none.
pub open spec fn same_payload(copy: EventData, data: EventData) -> bool {
    &&& copy.id == data.id
    &&& copy.name == data.name
    &&& copy.pic_data_base64 == data.pic_data_base64
    &&& match (data.pic_data, copy.pic_data) {
        (Some(picture), Some(copied)) => copied@ == picture@,
        (None, None) => true,
        _ => false,
    }
}

/// `copy` holds what the event `event` holds: the same status, and the same
/// payload, or none where `event` has none.
pub open spec fn same_event(copy: TimeCardEvent, event: TimeCardEvent) -> bool {
    &&& copy.status == event.status
    &&& match (event.data, copy.data) {
        (Some(data), Some(copied)) => same_payload(copied, data),
        (None, None) => true,
        _ => false,
    }
}

impl Clone for EventData {
    fn clone(&self) -> (copy: Self)
        ensures
            same_payload(copy, *self),
    {
        EventData {
            id: self.id,
            name: self.name.clone(),
            pic_data: match &self.pic_data {
                Some(picture) => Some(picture.clone()),
                None => None,
            },
            pic_data_base64: copy_of(&self.pic_data_base64),
        }
    }
}

impl Clone for TimeCardEvent {
    fn clone(&self) -> (copy: Self)
        ensures
            same_event(copy, *self),
    {
        TimeCardEvent {
            status: self.status.clone(),
            data: match &self.data {
                Some(data) => Some(data.clone()),
                None => None,
            },
        }
    }
}

/// The publishing end of the internal subscriber stream of events.
pub type EventBroadcaster = Sender<TimeCardEvent>;

/// The notification service.
pub struct NotificationServiceImpl {
    broadcaster: Sender<TimeCardEvent>,
}

/// The event is a temperature reading without a picture.
pub open spec fn is_reading_without_picture(event: TimeCardEvent) -> bool {
    event.status@ == "tmp inserted wo pic"@
}

/// The driver whose name is to be looked up for an event: the payload's id,
/// where the event is a temperature reading without a picture and its payload
/// names a driver and holds no name.
pub open spec fn resolve_wanted(event: TimeCardEvent) -> Option<i32> {
    match event.data {
        Some(data) => if is_reading_without_picture(event) && data.id != 0 && data.name@.len() == 0 {
            Some(data.id)
        } else {
            None
        },
        None => None,
    }
}

/// The diagnostic of a lookup that failed.
pub open spec fn lookup_failed_text(diagnostic: Seq<char>) -> Seq<char> {
    "Database error: "@ + diagnostic
}

/// `resolved` is the payload `data` of a temperature reading without a
/// picture after it was resolved: it has the name that the lookup found,
/// where one was wanted, and the base64 text of its picture, where it has a
/// picture that is not empty and that the encoder can hold.
pub open spec fn is_resolved_data(resolved: EventData, data: EventData, wanted: bool, lookup: Option<DriverLookup>) -> bool {
    &&& resolved.id == data.id
    &&& resolved.pic_data == data.pic_data
    &&& match lookup {
        Some(DriverLookup::Found(name)) => if wanted {
            resolved.name == name
        } else {
            resolved.name == data.name
        },
        _ => resolved.name == data.name,
    }
    &&& match data.pic_data {
        Some(picture) => if picture@.len() > 0 && encodable(picture@.len()) {
            resolved.pic_data_base64 matches Some(text) && text@ == base64_text(picture@)
        } else {
            resolved.pic_data_base64 == data.pic_data_base64
        },
        None => resolved.pic_data_base64 == data.pic_data_base64,
    }
}

/// `result` is what resolving `event` comes to, given the answer to the
/// lookup that was wanted: the event, resolved where it is a temperature
/// reading without a picture and has a payload, and as it came in every
/// other case. A lookup that failed or found no driver leaves the name as it
/// came; it does not fail the event.
pub open spec fn resolves(event: TimeCardEvent, lookup: Option<DriverLookup>, result: Result<TimeCardEvent, ServiceError>) -> bool {
    result matches Ok(resolved) && resolved.status == event.status && match event.data {
        Some(data) => if is_reading_without_picture(event) {
            resolved.data matches Some(payload) && is_resolved_data(
                payload,
                data,
                resolve_wanted(event) is Some,
                lookup,
            )
        } else {
            resolved.data == Some(data)
        },
        None => resolved.data is None,
    }
}

/// What is to be logged of a lookup for an event: the diagnostic of a lookup
/// that was wanted and failed, and nothing in every other case.
pub open spec fn failure_to_log(event: TimeCardEvent, lookup: Option<DriverLookup>) -> Option<Seq<char>> {
    match (resolve_wanted(event), lookup) {
        (Some(_), Some(DriverLookup::Failed(diagnostic))) => Some(lookup_failed_text(diagnostic@)),
        _ => None,
    }
}

/// The driver whose name is to be looked up before the event is resolved, if
/// any.
pub fn resolve_lookup(event: &TimeCardEvent) -> (driver_id: Option<i32>)
    ensures
        driver_id == resolve_wanted(*event),
{
    match &event.data {
        Some(data) => {
            proof {
                reveal_strlit("");
                assert(""@ =~= Seq::<char>::empty());
                if data.name@.len() == 0 {
                    assert(data.name@ =~= ""@);
                }
            }
            if same_text(event.status.as_str(), "tmp inserted wo pic") && data.id != 0 && same_text(
                data.name.as_str(),
                "",
            ) {
                Some(data.id)
            } else {
                None
            }
        },
        None => None,
    }
}

/// The line to log for the lookup of an event, if there is one: a lookup
/// that was wanted and failed is logged, and the event goes on as it came.
pub fn lookup_failure(event: &TimeCardEvent, lookup: &Option<DriverLookup>) -> (line: Option<String>)
    ensures
        match line {
            Some(line) => failure_to_log(*event, *lookup) == Some(line@),
            None => failure_to_log(*event, *lookup) is None,
        },
{
    match (resolve_lookup(event), lookup) {
        (Some(_), Some(DriverLookup::Failed(diagnostic))) => Some(
            joined("Database error: ", diagnostic.as_str()),
        ),
        _ => None,
    }
}

/// Resolves an event, given the answer to the lookup that `resolve_lookup`
/// asked for (`None` where it asked for none). The result is always the
/// event: a lookup that failed leaves it unnamed.
pub fn resolve(event: TimeCardEvent, lookup: Option<DriverLookup>) -> (result: Result<TimeCardEvent, ServiceError>)
    ensures
        resolves(event, lookup, result),
{
    let wanted = resolve_lookup(&event);
    let reading = same_text(event.status.as_str(), "tmp inserted wo pic");
    let TimeCardEvent { status, data } = event;
    match data {
        Some(data) => {
            if reading {
                let EventData { id, name, pic_data, pic_data_base64 } = data;
                let name = match lookup {
                    Some(DriverLookup::Found(found)) => if wanted.is_some() {
                        found
                    } else {
                        name
                    },
                    _ => name,
                };
                let pic_data_base64 = match &pic_data {
                    Some(picture) => if picture.len() > 0 && can_encode(picture.len()) {
                        Some(base64_standard(picture))
                    } else {
                        pic_data_base64
                    },
                    None => pic_data_base64,
                };
                Ok(
                    TimeCardEvent {
                        status,
                        data: Some(EventData { id, name, pic_data, pic_data_base64 }),
                    },
                )
            } else {
                Ok(TimeCardEvent { status, data: Some(data) })
            }
        },
        None => Ok(TimeCardEvent { status, data: None }),
    }
}

impl NotificationServiceImpl {
    /// The publishing end that the service pushes into.
    pub closed spec fn broadcaster(self) -> Sender<TimeCardEvent> {
        self.broadcaster
    }

    /// A service that publishes into `broadcaster`.
    pub fn new(broadcaster: Sender<TimeCardEvent>) -> (service: Self)
        ensures
            service.broadcaster() == broadcaster,
    {
        NotificationServiceImpl { broadcaster }
    }

    /// Pushes an event into the subscriber stream. Returns the number of
    /// subscribers that it was pushed to, which is at least one, or `None`
    /// where none is attached and the event is dropped. The call does not
    /// wait and does not fail.
    pub fn broadcast_event(&self, event: TimeCardEvent) -> (subscribers: Option<usize>)
        ensures
            subscribers matches Some(count) ==> count >= 1,
    {
        publish(&self.broadcaster, event)
    }

    /// Resolves an event, pushes the resolved event into the subscriber
    /// stream and returns it. A lookup that failed does not fail the event:
    /// it is pushed and returned without the name.
    pub fn resolve_and_broadcast(&self, event: TimeCardEvent, lookup: Option<DriverLookup>) -> (result: Result<TimeCardEvent, ServiceError>)
        ensures
            resolves(event, lookup, result),
    {
        let result = resolve(event, lookup);
        match &result {
            Ok(resolved) => {
                let _ = publish(&self.broadcaster, resolved.clone());
            },
            Err(_) => {},
        }
        result
    }
}

} // verus!
