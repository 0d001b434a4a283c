//! The real-time channel: what an agent's connection, messages and
//! disconnection do to the registry of sessions, and how an inbound envelope
//! is classified, enriched and written for the relay.

use vstd::prelude::*;
use vstd::string::StringExecFns;
use serde_json::Value;
use crate::hub::{Emission, relay_event};
use crate::client_state::{ClientInfo, ClientState, RegistryOp, SessionView, registry_step, registry_wf};
use crate::clock::{Timestamp, utc_now};
use crate::json::{
    as_integer, as_text, json_integer, json_is_object, json_member, json_of_string, json_string,
    json_text, json_with_member, member, set_member, string_value, value_text,
};
use crate::text::{copy_of, same_text};

verus! {

/// The payload of an inbound envelope.
#[derive(Debug)]
pub struct MessagePayload {
    pub time: Option<String>,
    pub id: Option<i32>,
    pub name: Option<String>,
    pub tmp: Option<String>,
    pub pic_data: Option<String>,
    pub pic_data_1: Option<String>,
    pub pic_data_2: Option<String>,
}

impl Clone for MessagePayload {
    fn clone(&self) -> (copy: Self)
        ensures
            copy == *self,
    {
        MessagePayload {
            time: copy_of(&self.time),
            id: self.id,
            name: copy_of(&self.name),
            tmp: copy_of(&self.tmp),
            pic_data: copy_of(&self.pic_data),
            pic_data_1: copy_of(&self.pic_data_1),
            pic_data_2: copy_of(&self.pic_data_2),
        }
    }
}

/// An envelope that an agent sends: a status tag, and what comes with it.
#[derive(Debug)]
pub struct MessageData {
    pub ip: Option<String>,
    pub status: Option<String>,
    pub message: Option<String>,
    pub data: Option<MessagePayload>,
}

impl Clone for MessageData {
    fn clone(&self) -> (copy: Self)
        ensures
            copy == *self,
    {
        MessageData {
            ip: copy_of(&self.ip),
            status: copy_of(&self.status),
            message: copy_of(&self.message),
            data: match &self.data {
                Some(payload) => Some(payload.clone()),
                None => None,
            },
        }
    }
}

/// The classes of status tags.
#[derive(Clone, Copy, Debug, PartialEq, Eq, Structural)]
pub enum StatusClass {
    /// A temperature reading without a picture, to be completed with the
    /// driver's name.
    TmpInsertedWoPic,
    /// A temperature reading.
    TmpInserted,
    /// A temperature reading that a card identified.
    TmpInsertedByIc,
    /// A temperature reading that a fingerprint identified.
    TmpInsertedByFing,
    /// A card was seen.
    InsertIcLog,
    /// A card is to be deleted.
    DeleteIc,
    /// Any other tag, or none.
    Unknown,
}

/// The class of a status tag.
pub open spec fn status_class(status: Seq<char>) -> StatusClass {
    if status == "tmp inserted wo pic"@ {
        StatusClass::TmpInsertedWoPic
    } else if status == "tmp inserted"@ {
        StatusClass::TmpInserted
    } else if status == "tmp inserted by ic"@ {
        StatusClass::TmpInsertedByIc
    } else if status == "tmp inserted by fing"@ {
        StatusClass::TmpInsertedByFing
    } else if status == "insert ic_log"@ {
        StatusClass::InsertIcLog
    } else if status == "delete_ic"@ {
        StatusClass::DeleteIc
    } else {
        StatusClass::Unknown
    }
}

/// The status tag of an envelope; one without a tag counts as tagged with the
/// empty string.
pub open spec fn status_of(envelope: MessageData) -> Seq<char> {
    match envelope.status {
        Some(status) => status@,
        None => Seq::empty(),
    }
}

/// The driver whose name is to be looked up for an envelope: the payload's
/// id, where the envelope is a temperature reading without a picture and its
/// payload has an id and no name.
pub open spec fn lookup_wanted(envelope: MessageData) -> Option<i32> {
    if status_class(status_of(envelope)) == StatusClass::TmpInsertedWoPic {
        match envelope.data {
            Some(payload) => if payload.name is None {
                payload.id
            } else {
                None
            },
            None => None,
        }
    } else {
        None
    }
}

/// What the reference store answered to a lookup of a driver's name.
#[derive(Debug)]
pub enum DriverLookup {
    /// The driver exists and has this name.
    Found(String),
    /// No driver has the id.
    Missing,
    /// The lookup failed; the text says how.
    Failed(String),
}

/// The envelope that is relayed: the inbound envelope with the driver's name
/// filled in where a name was wanted and the lookup found one, and the
/// inbound envelope as it came in every other case.
pub open spec fn relayed_envelope(envelope: MessageData, lookup: Option<DriverLookup>) -> MessageData {
    match (lookup_wanted(envelope), lookup, envelope.data) {
        (Some(_), Some(DriverLookup::Found(name)), Some(payload)) => MessageData {
            data: Some(MessagePayload { name: Some(name), ..payload }),
            ..envelope
        },
        _ => envelope,
    }
}

/// The address that an envelope reports: its `ip`, unless that is missing,
/// empty or the placeholder `unknown`.
pub open spec fn reported_address(envelope: MessageData) -> Option<String> {
    match envelope.ip {
        Some(ip) => if ip@ != "unknown"@ && ip@.len() != 0 {
            Some(ip)
        } else {
            None
        },
        None => None,
    }
}

/// The registry after a message of the session `socket_id` arrived at `now`:
/// the session shows activity, and takes the address that the envelope
/// reports, if it reports one.
pub open spec fn registry_after_message(
    sessions: Map<Seq<char>, SessionView>,
    socket_id: Seq<char>,
    envelope: MessageData,
    now: Timestamp,
) -> Map<Seq<char>, SessionView> {
    let touched = registry_step(sessions, RegistryOp::Touch { socket_id, at: now });
    match reported_address(envelope) {
        Some(ip) => registry_step(
            touched,
            RegistryOp::UpdateIp { socket_id, ip_address: ip@, at: now },
        ),
        None => touched,
    }
}

/// The class of a status tag.
pub fn classify(status: &str) -> (class: StatusClass)
    ensures
        class == status_class(status@),
{
    if same_text(status, "tmp inserted wo pic") {
        StatusClass::TmpInsertedWoPic
    } else if same_text(status, "tmp inserted") {
        StatusClass::TmpInserted
    } else if same_text(status, "tmp inserted by ic") {
        StatusClass::TmpInsertedByIc
    } else if same_text(status, "tmp inserted by fing") {
        StatusClass::TmpInsertedByFing
    } else if same_text(status, "insert ic_log") {
        StatusClass::InsertIcLog
    } else if same_text(status, "delete_ic") {
        StatusClass::DeleteIc
    } else {
        StatusClass::Unknown
    }
}

/// The class of an envelope's status tag.
pub fn envelope_class(envelope: &MessageData) -> (class: StatusClass)
    ensures
        class == status_class(status_of(*envelope)),
{
    match &envelope.status {
        Some(status) => classify(status.as_str()),
        None => {
            proof {
                reveal_strlit("");
                assert(""@ =~= Seq::<char>::empty());
            }
            classify("")
        },
    }
}

/// The driver whose name is to be looked up before the envelope is relayed,
/// if any.
pub fn driver_lookup(envelope: &MessageData) -> (driver_id: Option<i32>)
    ensures
        driver_id == lookup_wanted(*envelope),
{
    match envelope_class(envelope) {
        StatusClass::TmpInsertedWoPic => match &envelope.data {
            Some(payload) => match &payload.name {
                None => payload.id,
                Some(_) => None,
            },
            None => None,
        },
        _ => None,
    }
}

/// The envelope to relay for an inbound envelope, given the answer to the
/// lookup that `driver_lookup` asked for (`None` where it asked for none). A
/// lookup that failed or found no driver leaves the envelope as it came.
pub fn enrich(envelope: MessageData, lookup: Option<DriverLookup>) -> (relayed: MessageData)
    ensures
        relayed == relayed_envelope(envelope, lookup),
{
    let wanted = driver_lookup(&envelope);
    match (wanted, lookup) {
        (Some(_), Some(DriverLookup::Found(name))) => {
            let MessageData { ip, status, message, data } = envelope;
            match data {
                Some(payload) => {
                    let MessagePayload { time, id, name: _, tmp, pic_data, pic_data_1, pic_data_2 } =
                        payload;
                    MessageData {
                        ip,
                        status,
                        message,
                        data: Some(
                            MessagePayload {
                                time,
                                id,
                                name: Some(name),
                                tmp,
                                pic_data,
                                pic_data_1,
                                pic_data_2,
                            },
                        ),
                    }
                },
                None => MessageData { ip, status, message, data: None },
            }
        },
        _ => envelope,
    }
}

/// The address that an envelope reports, if it reports one.
pub fn envelope_address(envelope: &MessageData) -> (address: Option<String>)
    ensures
        address == reported_address(*envelope),
{
    match &envelope.ip {
        Some(ip) => {
            proof {
                reveal_strlit("");
                assert(""@ =~= Seq::<char>::empty());
                if ip@.len() == 0 {
                    assert(ip@ =~= ""@);
                }
            }
            if !same_text(ip.as_str(), "unknown") && !same_text(ip.as_str(), "") {
                Some(ip.clone())
            } else {
                None
            }
        },
        None => None,
    }
}

/// The registry after the session `socket_id` connected at `now`: it is
/// registered with the placeholder in place of its address.
pub open spec fn registry_after_connect(
    sessions: Map<Seq<char>, SessionView>,
    socket_id: Seq<char>,
    now: Timestamp,
) -> Map<Seq<char>, SessionView> {
    registry_step(sessions, RegistryOp::Add { socket_id, ip_address: "unknown"@, at: now })
}

/// A session connected at `now`: registers it, its address not yet known,
/// and returns the greeting to send to it.
pub fn on_connect_at(clients: &mut ClientState, socket_id: String, now: Timestamp) -> (greeting: Emission)
    ensures
        final(clients)@ == registry_after_connect(old(clients)@, socket_id@, now),
        registry_wf(final(clients)@),
        greeting.socket_id == socket_id,
        greeting.event@ == relay_event(),
        greeting.payload@ == "from server"@,
{
    clients.add_client_at(socket_id.clone(), String::from_str("unknown"), now);
    Emission {
        socket_id,
        event: String::from_str("hello"),
        payload: String::from_str("from server"),
    }
}

/// A session connected now.
pub fn on_connect(clients: &mut ClientState, socket_id: String) -> (greeting: Emission)
    ensures
        exists|now: Timestamp| #[trigger]
            registry_after_connect(old(clients)@, socket_id@, now) == final(clients)@,
        registry_wf(final(clients)@),
        greeting.socket_id == socket_id,
        greeting.event@ == relay_event(),
        greeting.payload@ == "from server"@,
{
    let now = utc_now();
    on_connect_at(clients, socket_id, now)
}

/// A message of the session `socket_id` arrived at `now`: the session shows
/// activity and takes the address that the envelope reports. Returns the
/// driver whose name is to be looked up before the envelope is relayed.
pub fn on_message_at(clients: &mut ClientState, socket_id: &str, envelope: &MessageData, now: Timestamp) -> (driver_id: Option<i32>)
    ensures
        final(clients)@ == registry_after_message(old(clients)@, socket_id@, *envelope, now),
        registry_wf(final(clients)@),
        driver_id == lookup_wanted(*envelope),
{
    clients.update_activity_at(socket_id, now);
    match envelope_address(envelope) {
        Some(ip) => {
            clients.update_ip_at(socket_id, ip, now);
        },
        None => {},
    }
    driver_lookup(envelope)
}

/// A message of the session `socket_id` arrives now.
pub fn on_message(clients: &mut ClientState, socket_id: &str, envelope: &MessageData) -> (driver_id: Option<i32>)
    ensures
        exists|now: Timestamp| #[trigger]
            registry_after_message(old(clients)@, socket_id@, *envelope, now) == final(clients)@,
        registry_wf(final(clients)@),
        driver_id == lookup_wanted(*envelope),
{
    let now = utc_now();
    on_message_at(clients, socket_id, envelope, now)
}

/// A session disconnected: removes it and returns its record, if it was
/// registered.
pub fn on_disconnect(clients: &mut ClientState, socket_id: &str) -> (removed: Option<ClientInfo>)
    ensures
        final(clients)@ == registry_step(
            old(clients)@,
            (RegistryOp::Remove { socket_id: socket_id@ }),
        ),
        registry_wf(final(clients)@),
        old(clients)@.contains_key(socket_id@) ==> removed.is_some() && removed.unwrap()@ == old(
            clients,
        )@[socket_id@],
        !old(clients)@.contains_key(socket_id@) ==> removed.is_none(),
{
    clients.remove_client(socket_id)
}

/// The string that the member of a JSON object under `key` holds; `None`
/// where the value is no object, has no such member, or the member is no
/// string.
pub open spec fn text_member(value: Value, key: Seq<char>) -> Option<Seq<char>> {
    match json_member(value, key) {
        Some(found) => json_string(found),
        None => None,
    }
}

/// The integer that the member of a JSON object under `key` holds.
pub open spec fn integer_member(value: Value, key: Seq<char>) -> Option<i64> {
    match json_member(value, key) {
        Some(found) => json_integer(found),
        None => None,
    }
}

/// `text` holds the characters `view`, or neither is there.
pub open spec fn holds_text(text: Option<String>, view: Option<Seq<char>>) -> bool {
    match (text, view) {
        (Some(text), Some(view)) => text@ == view,
        (None, None) => true,
        _ => false,
    }
}

/// The driver that a JSON payload names: its `id`, where that is an integer
/// that a driver's id can be. An id beyond 32 bits names no driver.
pub open spec fn payload_driver(data: Value) -> Option<i32> {
    match integer_member(data, "id"@) {
        Some(id) => if i32::MIN <= id <= i32::MAX {
            Some(id as i32)
        } else {
            None
        },
        None => None,
    }
}

/// `payload` holds what the JSON value `data` holds under the names of the
/// payload's fields; a member of another type than the field's counts as
/// missing.
pub open spec fn reads_payload(payload: MessagePayload, data: Value) -> bool {
    &&& holds_text(payload.time, text_member(data, "time"@))
    &&& payload.id == payload_driver(data)
    &&& holds_text(payload.name, text_member(data, "name"@))
    &&& holds_text(payload.tmp, text_member(data, "tmp"@))
    &&& holds_text(payload.pic_data, text_member(data, "pic_data"@))
    &&& holds_text(payload.pic_data_1, text_member(data, "pic_data_1"@))
    &&& holds_text(payload.pic_data_2, text_member(data, "pic_data_2"@))
}

/// `envelope` holds what the JSON value `value` holds under the names of the
/// envelope's fields.
pub open spec fn reads_envelope(envelope: MessageData, value: Value) -> bool {
    &&& holds_text(envelope.ip, text_member(value, "ip"@))
    &&& holds_text(envelope.status, text_member(value, "status"@))
    &&& holds_text(envelope.message, text_member(value, "message"@))
    &&& match json_member(value, "data"@) {
        Some(data) => envelope.data matches Some(payload) && reads_payload(payload, data),
        None => envelope.data is None,
    }
}

/// The driver whose name is to be looked up for an envelope in JSON: the
/// payload's id, where the status is a string that tags a temperature
/// reading without a picture, and the payload has an integer id and no name
/// that is a string.
pub open spec fn lookup_wanted_json(value: Value) -> Option<i32> {
    let status = match text_member(value, "status"@) {
        Some(status) => status,
        None => Seq::empty(),
    };
    if status_class(status) == StatusClass::TmpInsertedWoPic {
        match json_member(value, "data"@) {
            Some(data) => if text_member(data, "name"@) is None {
                payload_driver(data)
            } else {
                None
            },
            None => None,
        }
    } else {
        None
    }
}

/// The JSON value that is relayed for an inbound one: the payload's `name`
/// is set where a name was wanted and the lookup found one, and the value is
/// relayed as it came in every other case.
pub open spec fn relayed_json(value: Value, lookup: Option<DriverLookup>) -> Value {
    match (lookup_wanted_json(value), lookup, json_member(value, "data"@)) {
        (Some(_), Some(DriverLookup::Found(name)), Some(data)) => json_with_member(
            value,
            "data"@,
            json_with_member(data, "name"@, json_of_string(name@)),
        ),
        _ => value,
    }
}

/// An envelope read from JSON decides as the JSON does.
pub proof fn lemma_envelope_decides_as_json(envelope: MessageData, value: Value)
    requires
        reads_envelope(envelope, value),
    ensures
        lookup_wanted(envelope) == lookup_wanted_json(value),
        status_of(envelope) == match text_member(value, "status"@) {
            Some(status) => status,
            None => Seq::empty(),
        },
{
}

fn text_of(value: &Value, key: &str) -> (text: Option<String>)
    ensures
        holds_text(text, text_member(*value, key@)),
{
    match member(value, key) {
        Some(found) => as_text(&found),
        None => None,
    }
}

fn driver_of(data: &Value) -> (driver_id: Option<i32>)
    ensures
        driver_id == payload_driver(*data),
        driver_id is Some ==> json_is_object(*data),
{
    match member(data, "id") {
        Some(found) => match as_integer(&found) {
            Some(id) => if -2147483648 <= id && id <= 2147483647 {
                Some(id as i32)
            } else {
                None
            },
            None => None,
        },
        None => None,
    }
}

/// Reads the payload of an envelope from JSON.
pub fn payload_of(data: &Value) -> (payload: MessagePayload)
    ensures
        reads_payload(payload, *data),
        payload.id is Some ==> json_is_object(*data),
{
    MessagePayload {
        time: text_of(data, "time"),
        id: driver_of(data),
        name: text_of(data, "name"),
        tmp: text_of(data, "tmp"),
        pic_data: text_of(data, "pic_data"),
        pic_data_1: text_of(data, "pic_data_1"),
        pic_data_2: text_of(data, "pic_data_2"),
    }
}

/// Reads an envelope from JSON.
pub fn envelope_of(value: &Value) -> (envelope: MessageData)
    ensures
        reads_envelope(envelope, *value),
        json_member(*value, "data"@) matches Some(data) ==> (payload_driver(data) is Some
            ==> json_is_object(data)),
{
    MessageData {
        ip: text_of(value, "ip"),
        status: text_of(value, "status"),
        message: text_of(value, "message"),
        data: match member(value, "data") {
            Some(data) => Some(payload_of(&data)),
            None => None,
        },
    }
}

/// The JSON value to relay for an inbound one, given the answer to the
/// lookup that was wanted (`None` where none was). Where a name was wanted
/// and found, the relayed payload holds the name and is otherwise as it
/// came, and so is the rest of the envelope.
pub fn relayed_value(value: Value, lookup: Option<DriverLookup>) -> (relayed: Value)
    ensures
        relayed == relayed_json(value, lookup),
        lookup_wanted_json(value) is Some ==> (lookup matches Some(DriverLookup::Found(name)) ==> {
            &&& json_member(relayed, "data"@) matches Some(data)
            &&& text_member(data, "name"@) == Some(name@)
            &&& forall|key: Seq<char>|
                key != "name"@ ==> #[trigger] json_member(data, key) == json_member(
                    json_member(value, "data"@).unwrap(),
                    key,
                )
            &&& forall|key: Seq<char>|
                key != "data"@ ==> #[trigger] json_member(relayed, key) == json_member(value, key)
        }),
{
    let envelope = envelope_of(&value);
    proof {
        lemma_envelope_decides_as_json(envelope, value);
    }
    match (driver_lookup(&envelope), lookup) {
        (Some(_), Some(DriverLookup::Found(name))) => match member(&value, "data") {
            Some(data) => {
                let mut data = data;
                let mut relayed = value;
                proof {
                    assert(json_member(data, "id"@) is Some);
                    assert(json_member(relayed, "data"@) is Some);
                }
                set_member(&mut data, String::from_str("name"), string_value(name));
                set_member(&mut relayed, String::from_str("data"), data);
                relayed
            },
            None => value,
        },
        _ => value,
    }
}

/// The payload that is relayed where writing the JSON text failed.
pub open spec fn empty_payload() -> Seq<char> {
    "{}"@
}

/// The payload for a JSON text that was written: the text, and the empty
/// object where writing failed.
pub fn payload_or_empty(written: Result<String, serde_json::Error>) -> (payload: String)
    ensures
        match written {
            Ok(text) => payload == text,
            Err(_) => payload@ == empty_payload(),
        },
{
    match written {
        Ok(text) => text,
        Err(_) => String::from_str("{}"),
    }
}

/// The payload to relay for an inbound envelope in JSON, given the answer
/// to the lookup that was wanted: the text of the relayed value. A lookup
/// that failed or found no driver leaves the envelope as it came.
pub fn handle_message(value: Value, lookup: Option<DriverLookup>) -> (payload: String)
    ensures
        payload@ == json_text(relayed_json(value, lookup)),
{
    let relayed = relayed_value(value, lookup);
    payload_or_empty(value_text(&relayed))
}

} // verus!
