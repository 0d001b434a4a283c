//! The hub: one event is relayed to three sinks that do not
//! depend on one another. Every connected session gets a message; the
//! internal subscriber stream, a bounded channel of `tokio` whose publisher
//! never waits, gets the event; and the external webhook, where one is
//! configured, is called once. The hub pushes into the stream itself and
//! plans the rest, which the caller carries out.

use vstd::prelude::*;
use vstd::string::StringExecFns;
use serde_json::Value;
use tokio::sync::broadcast::{Receiver, Sender};
use crate::client_state::ClientInfo;
use crate::clock::{Timestamp, rfc3339, rfc3339_text, utc_now};
use crate::json::{
    empty_object, json_empty_object, json_member, json_null, json_of_string, json_parsed,
    json_text, json_with_member, null_value, parse, set_member, string_value, value_text,
};
use crate::stream::{SUBSCRIBER_STREAM_CAPACITY, publish, stream_new, stream_subscribe};
use crate::text::copy_of;

verus! {

/// One outbound message on the real-time channel, for one session.
#[derive(Debug)]
pub struct Emission {
    pub socket_id: String,
    pub event: String,
    pub payload: String,
}

/// The event name under which everything is sent to the sessions.
pub open spec fn relay_event() -> Seq<char> {
    "hello"@
}

/// A call of the external webhook: an HTTP POST of `body` to `url`, given up
/// after `timeout_secs` seconds.
#[derive(Debug)]
pub struct WebhookCall {
    pub url: String,
    pub content_type: String,
    pub body: String,
    pub timeout_secs: u64,
}

/// Seconds after which a call of the webhook is given up.
pub const WEBHOOK_TIMEOUT_SECS: u64 = 5;

/// The relay of one event: the message to send to every connected session,
/// the call of the webhook to make where one is configured, and how many
/// consumers of the subscriber stream the event was pushed to (`None` where
/// none is attached and the event was dropped). No part depends on how
/// another one fares.
#[derive(Debug)]
pub struct RelayPlan {
    pub emissions: Vec<Emission>,
    pub subscribers: Option<usize>,
    pub webhook: Option<WebhookCall>,
}

/// The hub: the publishing end of the subscriber stream, and the
/// address of the webhook where one is configured.
pub struct BroadcastHub {
    stream: Sender<String>,
    webhook_url: Option<String>,
}

/// The body of a webhook call as a JSON value: an object with the type
/// `hello`, the event as `data` (`null` where the event is no JSON text) and
/// the time of the relay.
pub open spec fn webhook_body_value(payload: Seq<char>, timestamp: Seq<char>) -> Value {
    json_with_member(
        json_with_member(
            json_with_member(json_empty_object(), "type"@, json_of_string("hello"@)),
            "data"@,
            webhook_data(payload),
        ),
        "timestamp"@,
        json_of_string(timestamp),
    )
}

/// What the body of a webhook call holds as `data`: the event as a JSON
/// value, and `null` where the event is no JSON text.
pub open spec fn webhook_data(payload: Seq<char>) -> Value {
    match json_parsed(payload) {
        Some(data) => data,
        None => json_null(),
    }
}

/// The body of a webhook call as JSON text.
pub open spec fn webhook_body_text(payload: Seq<char>, timestamp: Seq<char>) -> Seq<char> {
    json_text(webhook_body_value(payload, timestamp))
}

/// `emissions` sends `payload` to every session of `sessions`, one message
/// each, in the order of `sessions`.
pub open spec fn is_fan_out(emissions: Seq<Emission>, payload: Seq<char>, sessions: Seq<ClientInfo>) -> bool {
    &&& emissions.len() == sessions.len()
    &&& forall|i: int|
        0 <= i < emissions.len() ==> (#[trigger] emissions[i]).socket_id == sessions[i].socket_id
            && emissions[i].event@ == relay_event() && emissions[i].payload@ == payload
}

/// `call` posts `body` as JSON to `url`, with the fixed timeout.
pub open spec fn is_webhook_call(call: WebhookCall, url: String, body: Seq<char>) -> bool {
    &&& call.url == url
    &&& call.content_type@ == "application/json"@
    &&& call.body@ == body
    &&& call.timeout_secs == WEBHOOK_TIMEOUT_SECS
}

/// The three member names of a webhook body are three names.
proof fn lemma_body_keys_differ()
    ensures
        "type"@ != "data"@,
        "type"@ != "timestamp"@,
        "data"@ != "timestamp"@,
{
    reveal_strlit("type");
    reveal_strlit("data");
    reveal_strlit("timestamp");
    assert("type"@[0] != "data"@[0]);
    assert("type"@.len() != "timestamp"@.len());
    assert("data"@.len() != "timestamp"@.len());
}

/// Composes the body of a webhook call with `serde_json`: the text of an
/// object that holds the type `hello`, the event as `data`, and the time of
/// the relay.
pub fn webhook_body(payload: &str, timestamp: &str) -> (body: Result<String, serde_json::Error>)
    ensures
        body matches Ok(text) && text@ == webhook_body_text(payload@, timestamp@),
        json_member(webhook_body_value(payload@, timestamp@), "type"@) == Some(
            json_of_string("hello"@),
        ),
        json_member(webhook_body_value(payload@, timestamp@), "data"@) == Some(
            webhook_data(payload@),
        ),
        json_member(webhook_body_value(payload@, timestamp@), "timestamp"@) == Some(
            json_of_string(timestamp@),
        ),
{
    let data = match parse(payload) {
        Some(data) => data,
        None => null_value(),
    };
    let mut object = empty_object();
    set_member(&mut object, String::from_str("type"), string_value(String::from_str("hello")));
    set_member(&mut object, String::from_str("data"), data);
    set_member(&mut object, String::from_str("timestamp"), string_value(String::from_str(timestamp)));
    proof {
        lemma_body_keys_differ();
    }
    value_text(&object)
}

/// The webhook call for a body that was composed: none where composing the
/// body failed.
pub fn webhook_call(url: String, body: Result<String, serde_json::Error>) -> (call: Option<WebhookCall>)
    ensures
        match body {
            Ok(text) => call matches Some(call) && call.url == url && call.body == text
                && call.content_type@ == "application/json"@ && call.timeout_secs
                == WEBHOOK_TIMEOUT_SECS,
            Err(_) => call is None,
        },
{
    match body {
        Ok(text) => Some(
            WebhookCall {
                url,
                content_type: String::from_str("application/json"),
                body: text,
                timeout_secs: WEBHOOK_TIMEOUT_SECS,
            },
        ),
        Err(_) => None,
    }
}

/// One message with `payload` for every session, in the order of `sessions`.
pub fn fan_out(payload: &str, sessions: &Vec<ClientInfo>) -> (emissions: Vec<Emission>)
    ensures
        is_fan_out(emissions@, payload@, sessions@),
{
    let mut emissions: Vec<Emission> = Vec::new();
    let mut i: usize = 0;
    while i < sessions.len()
        invariant
            0 <= i <= sessions@.len(),
            emissions@.len() == i,
            forall|k: int|
                0 <= k < i ==> (#[trigger] emissions@[k]).socket_id == sessions@[k].socket_id
                    && emissions@[k].event@ == relay_event() && emissions@[k].payload@ == payload@,
        decreases sessions@.len() - i,
    {
        emissions.push(
            Emission {
                socket_id: sessions[i].socket_id.clone(),
                event: String::from_str("hello"),
                payload: String::from_str(payload),
            },
        );
        i = i + 1;
    }
    emissions
}

/// `plan` relays the event `payload` at the time that `timestamp` names: it
/// holds a message for every session of `sessions`; it holds the call of the
/// webhook at `webhook_url` with the body for the event, where an address is
/// configured, and no call where none is; and where the event was pushed to
/// consumers of the stream, there was at least one.
pub open spec fn is_relay_plan(
    plan: RelayPlan,
    payload: Seq<char>,
    sessions: Seq<ClientInfo>,
    webhook_url: Option<String>,
    timestamp: Seq<char>,
) -> bool {
    &&& is_fan_out(plan.emissions@, payload, sessions)
    &&& plan.subscribers matches Some(count) ==> count >= 1
    &&& match webhook_url {
        Some(url) => plan.webhook matches Some(call) && is_webhook_call(
            call,
            url,
            webhook_body_text(payload, timestamp),
        ),
        None => plan.webhook is None,
    }
}

/// A relay with no session connected sends no message, and still calls the
/// webhook exactly where an address is configured.
pub proof fn lemma_relay_without_sessions(
    plan: RelayPlan,
    payload: Seq<char>,
    sessions: Seq<ClientInfo>,
    webhook_url: Option<String>,
    timestamp: Seq<char>,
)
    requires
        is_relay_plan(plan, payload, sessions, webhook_url, timestamp),
        sessions.len() == 0,
    ensures
        plan.emissions@.len() == 0,
        plan.webhook is Some <==> webhook_url is Some,
        plan.webhook matches Some(call) ==> call.url == webhook_url.unwrap() && call.body@
            == webhook_body_text(payload, timestamp),
{
}

/// What the relay plans does not depend on which sessions can receive: the
/// messages are one for each session, and the webhook call is the same,
/// whoever is connected.
pub proof fn lemma_webhook_call_ignores_sessions(
    plan: RelayPlan,
    other: RelayPlan,
    payload: Seq<char>,
    sessions: Seq<ClientInfo>,
    others: Seq<ClientInfo>,
    webhook_url: Option<String>,
    timestamp: Seq<char>,
)
    requires
        is_relay_plan(plan, payload, sessions, webhook_url, timestamp),
        is_relay_plan(other, payload, others, webhook_url, timestamp),
    ensures
        plan.emissions@.len() == sessions.len(),
        other.emissions@.len() == others.len(),
        plan.webhook is Some <==> other.webhook is Some,
        plan.webhook matches Some(call) ==> other.webhook matches Some(same) && same.url
            == call.url && same.body@ == call.body@ && same.timeout_secs == call.timeout_secs,
{
}

impl BroadcastHub {
    /// The address of the webhook, where one is configured.
    pub closed spec fn webhook_url(self) -> Option<String> {
        self.webhook_url
    }

    /// A hub with a fresh subscriber stream of the fixed capacity and no
    /// consumer attached.
    pub fn new(webhook_url: Option<String>) -> (hub: Self)
        ensures
            hub.webhook_url() == webhook_url,
    {
        BroadcastHub { stream: stream_new(SUBSCRIBER_STREAM_CAPACITY), webhook_url }
    }

    /// Attaches a consumer to the subscriber stream. It gets the events that
    /// are relayed from now on.
    pub fn subscribe(&self) -> (receiver: Receiver<String>) {
        stream_subscribe(&self.stream)
    }

    /// Relays the event `payload` at the time that `timestamp` names: pushes
    /// it into the subscriber stream, without waiting, and plans a message
    /// for every session of `sessions` and the call of the webhook where one
    /// is configured. With no session connected the plan holds no message and
    /// is otherwise the same. The relay does not fail.
    pub fn relay_at(&self, payload: &str, sessions: &Vec<ClientInfo>, timestamp: &str) -> (plan: RelayPlan)
        ensures
            is_relay_plan(plan, payload@, sessions@, self.webhook_url(), timestamp@),
    {
        let emissions = fan_out(payload, sessions);
        let subscribers = publish(&self.stream, String::from_str(payload));
        let webhook = match &self.webhook_url {
            Some(url) => webhook_call(url.clone(), webhook_body(payload, timestamp)),
            None => None,
        };
        RelayPlan { emissions, subscribers, webhook }
    }

    /// Relays the event `payload` now.
    pub fn relay(&self, payload: &str, sessions: &Vec<ClientInfo>) -> (plan: RelayPlan)
        ensures
            exists|now: Timestamp|
                rfc3339_text(now.secs, now.nanos) is Some && #[trigger] is_relay_plan(
                    plan,
                    payload@,
                    sessions@,
                    self.webhook_url(),
                    rfc3339_text(now.secs, now.nanos).unwrap(),
                ),
    {
        let now = utc_now();
        let timestamp = rfc3339(now).unwrap();
        let plan = self.relay_at(payload, sessions, timestamp.as_str());
        proof {
            assert(is_relay_plan(
                plan,
                payload@,
                sessions@,
                self.webhook_url(),
                rfc3339_text(now.secs, now.nanos).unwrap(),
            ));
        }
        plan
    }
}

/// How the call of the webhook went.
#[derive(Debug)]
pub enum WebhookOutcome {
    /// The webhook answered with this HTTP status.
    Status(u16),
    /// The call did not get an answer; the text says why.
    Failed(String),
}

/// The webhook took the event: it answered with a status from 200 to 299.
pub open spec fn webhook_accepted(outcome: WebhookOutcome) -> bool {
    outcome matches WebhookOutcome::Status(status) && 200 <= status < 300
}

/// Tells whether the webhook took the event. Whatever the answer, the relay
/// does not fail and the call is not made again.
pub fn webhook_succeeded(outcome: &WebhookOutcome) -> (accepted: bool)
    ensures
        accepted == webhook_accepted(*outcome),
{
    match outcome {
        WebhookOutcome::Status(status) => 200 <= *status && *status < 300,
        WebhookOutcome::Failed(_) => false,
    }
}

/// How the message for one session went: `failure` holds the reason where it
/// could not be sent.
#[derive(Debug)]
pub struct Delivery {
    pub socket_id: String,
    pub failure: Option<String>,
}

impl Clone for Delivery {
    fn clone(&self) -> (copy: Self)
        ensures
            copy == *self,
    {
        Delivery { socket_id: self.socket_id.clone(), failure: copy_of(&self.failure) }
    }
}

/// The deliveries that failed, in order.
pub open spec fn failed_of(deliveries: Seq<Delivery>) -> Seq<Delivery> {
    deliveries.filter(|delivery: Delivery| delivery.failure is Some)
}

/// The deliveries that failed, in order, for the log. A delivery that fails
/// neither stops the others nor fails the relay.
pub fn failed_deliveries(deliveries: &Vec<Delivery>) -> (failed: Vec<Delivery>)
    ensures
        failed@ == failed_of(deliveries@),
{
    let mut failed: Vec<Delivery> = Vec::new();
    let mut i: usize = 0;
    let ghost failing = |delivery: Delivery| delivery.failure is Some;
    proof {
        reveal(Seq::filter);
        assert(deliveries@.take(0) =~= Seq::empty());
    }
    while i < deliveries.len()
        invariant
            0 <= i <= deliveries@.len(),
            failing == (|delivery: Delivery| delivery.failure is Some),
            failed@ == deliveries@.take(i as int).filter(failing),
        decreases deliveries@.len() - i,
    {
        proof {
            reveal(Seq::filter);
            assert(deliveries@.take(i + 1).drop_last() =~= deliveries@.take(i as int));
            assert(deliveries@.take(i + 1).last() == deliveries@[i as int]);
        }
        if deliveries[i].failure.is_some() {
            failed.push(deliveries[i].clone());
        }
        i = i + 1;
    }
    proof {
        assert(deliveries@.take(i as int) =~= deliveries@);
    }
    failed
}

} // verus!
