//! The requests and responses of the HTTP interface, and how the results of
//! the services are told to its callers.

use vstd::prelude::*;
use vstd::string::StringExecFns;
use crate::clock::{datetime_text, format_datetime, iso_pattern};
use crate::error::ServiceError;
use crate::models::{Driver, IcNonReg};

verus! {

/// A driver, as the interface lists it.
#[derive(Debug)]
pub struct DriverResponse {
    pub id: i32,
    pub name: String,
}

/// A temperature reading with its pictures, as the interface lists it.
#[derive(Debug)]
pub struct PicTmpResponse {
    pub date: String,
    pub machine_ip: String,
    pub id: Option<i32>,
    pub name: Option<String>,
    pub detail: Option<String>,
    pub pic_data_1: Option<String>,
    pub pic_data_2: Option<String>,
}

/// A pending registration, as the interface lists it.
#[derive(Debug)]
pub struct IcNonRegResponse {
    pub id: String,
    pub datetime: String,
    pub registered_id: Option<i32>,
}

/// A card event, as the interface lists it.
#[derive(Debug)]
pub struct IcLogResponse {
    pub id: i32,
    pub ic_id: String,
    pub driver_id: Option<i32>,
    pub datetime: String,
}

/// The parameters of a listing of temperature readings.
#[derive(Debug)]
pub struct PicTmpQuery {
    pub limit: Option<i32>,
    pub start: Option<String>,
}

/// The parameter that names a driver.
#[derive(Debug)]
pub struct DriverIdQuery {
    pub driver_id: i32,
}

/// The request to register a card for a driver.
#[derive(Debug)]
pub struct RegisterIcRequest {
    pub ic_id: String,
    pub driver_id: i32,
}

/// The answer to a reservation of a card.
#[derive(Debug)]
pub struct RegisterDirectIcResponse {
    pub success: bool,
    pub message: String,
    pub ic_id: Option<String>,
    pub driver_id: Option<i32>,
    pub driver_name: Option<String>,
}

/// The message of a reservation that succeeded.
pub open spec fn reserved_message() -> Seq<char> {
    "ICカード登録予約完了。次回ICタッチ時に登録されます"@
}

/// The message of a reservation for a driver that does not exist.
pub open spec fn driver_missing_message() -> Seq<char> {
    "ドライバーIDが見つかりません"@
}

/// The message of a reservation of a card that is registered already.
pub open spec fn card_registered_message() -> Seq<char> {
    "このICカードは既に登録されています"@
}

/// `answer` tells the result of a reservation of `card_id` for `driver_id`.
/// A refusal by the rules of the protocol is told in an ordinary response
/// that is marked as unsuccessful; any other failure is the caller's error.
pub open spec fn answers_reservation(
    answer: Result<RegisterDirectIcResponse, ServiceError>,
    card_id: String,
    driver_id: i32,
    result: Result<String, ServiceError>,
) -> bool {
    match result {
        Ok(name) => answer matches Ok(response) && response.success && response.message@
            == reserved_message() && response.ic_id == Some(card_id) && response.driver_id == Some(
            driver_id,
        ) && response.driver_name == Some(name),
        Err(ServiceError::NotFound) => answer matches Ok(response) && !response.success
            && response.message@ == driver_missing_message() && response.ic_id is None
            && response.driver_id is None && response.driver_name is None,
        Err(ServiceError::Conflict) => answer matches Ok(response) && !response.success
            && response.message@ == card_registered_message() && response.ic_id == Some(card_id)
            && response.driver_id is None && response.driver_name is None,
        Err(error) => answer == Err::<RegisterDirectIcResponse, ServiceError>(error),
    }
}

/// Tells the result of a reservation to the caller.
pub fn register_direct_ic(request: RegisterIcRequest, result: Result<String, ServiceError>) -> (answer: Result<RegisterDirectIcResponse, ServiceError>)
    ensures
        answers_reservation(answer, request.ic_id, request.driver_id, result),
{
    match result {
        Ok(name) => Ok(
            RegisterDirectIcResponse {
                success: true,
                message: String::from_str("ICカード登録予約完了。次回ICタッチ時に登録されます"),
                ic_id: Some(request.ic_id),
                driver_id: Some(request.driver_id),
                driver_name: Some(name),
            },
        ),
        Err(ServiceError::NotFound) => Ok(
            RegisterDirectIcResponse {
                success: false,
                message: String::from_str("ドライバーIDが見つかりません"),
                ic_id: None,
                driver_id: None,
                driver_name: None,
            },
        ),
        Err(ServiceError::Conflict) => Ok(
            RegisterDirectIcResponse {
                success: false,
                message: String::from_str("このICカードは既に登録されています"),
                ic_id: Some(request.ic_id),
                driver_id: None,
                driver_name: None,
            },
        ),
        Err(error) => Err(error),
    }
}

/// The answer to the completion of a registration.
#[derive(Debug)]
pub struct RegisterIcResponse {
    pub success: bool,
    pub message: Option<String>,
    pub ic_id: String,
    pub driver_id: i32,
}

/// `answer` tells the result of the completion of the registration of
/// `card_id` for `driver_id`. A card that is registered already is told in
/// an ordinary response that is marked as unsuccessful; any other failure is
/// the caller's error.
pub open spec fn answers_completion(
    answer: Result<RegisterIcResponse, ServiceError>,
    card_id: String,
    driver_id: i32,
    result: Result<(), ServiceError>,
) -> bool {
    match result {
        Ok(_) => answer matches Ok(response) && response.success && response.message is None
            && response.ic_id == card_id && response.driver_id == driver_id,
        Err(ServiceError::Conflict) => answer matches Ok(response) && !response.success
            && response.ic_id == card_id && response.driver_id == driver_id && (
        response.message matches Some(message) && message@ == card_registered_message()),
        Err(error) => answer == Err::<RegisterIcResponse, ServiceError>(error),
    }
}

/// Tells the result of the completion of a registration to the caller.
pub fn register_ic(request: RegisterIcRequest, result: Result<(), ServiceError>) -> (answer: Result<RegisterIcResponse, ServiceError>)
    ensures
        answers_completion(answer, request.ic_id, request.driver_id, result),
{
    match result {
        Ok(_) => Ok(
            RegisterIcResponse {
                success: true,
                message: None,
                ic_id: request.ic_id,
                driver_id: request.driver_id,
            },
        ),
        Err(ServiceError::Conflict) => Ok(
            RegisterIcResponse {
                success: false,
                message: Some(String::from_str("このICカードは既に登録されています")),
                ic_id: request.ic_id,
                driver_id: request.driver_id,
            },
        ),
        Err(error) => Err(error),
    }
}

/// The time of a reservation as the interface writes it: date and time with
/// a `T` between them, and the empty text for a time that has no such text.
pub open spec fn listed_time(secs: i64) -> Seq<char> {
    match datetime_text(secs, iso_pattern()) {
        Some(text) => text,
        None => Seq::empty(),
    }
}

impl IcNonRegResponse {
    /// The pending registration as the interface lists it.
    pub fn from_row(row: &IcNonReg) -> (response: Self)
        ensures
            response.id == row.id,
            response.datetime@ == listed_time(row.datetime),
            response.registered_id == row.registered_id,
    {
        let datetime = match format_datetime(row.datetime, "%Y-%m-%dT%H:%M:%S") {
            Some(text) => text,
            None => String::new(),
        };
        IcNonRegResponse { id: row.id.clone(), datetime, registered_id: row.registered_id }
    }
}

impl DriverResponse {
    /// The driver as the interface lists it.
    pub fn from_driver(driver: Driver) -> (response: Self)
        ensures
            response.id == driver.id,
            response.name == driver.name,
    {
        DriverResponse { id: driver.id, name: driver.name }
    }
}

} // verus!
