//! Rows of the persistent store, as the registration protocol sees them.
//!
//! Points in time are whole seconds since the Unix epoch.

use vstd::prelude::*;
use crate::encoding::{base64_standard, base64_text, encodable};

verus! {

/// A driver of the reference store.
#[derive(Debug)]
pub struct Driver {
    pub id: i32,
    pub name: String,
}

impl Clone for Driver {
    fn clone(&self) -> (copy: Self)
        ensures
            copy == *self,
    {
        Driver { id: self.id, name: self.name.clone() }
    }
}

/// A pending registration: a card that was seen but is not in the permanent
/// registry. `id` is the card, `datetime` the time of the reservation,
/// `registered_id` the driver that the card is reserved for, and a `deleted`
/// flag other than zero marks the registration as completed.
#[derive(Debug)]
pub struct IcNonReg {
    pub id: String,
    pub datetime: i64,
    pub deleted: Option<i8>,
    pub registered_id: Option<i32>,
}

impl IcNonReg {
    /// The registration is still waiting to be completed.
    pub open spec fn is_open(self) -> bool {
        match self.deleted {
            Some(flag) => flag == 0,
            None => true,
        }
    }

    /// Tells whether the registration is still waiting to be completed.
    pub fn open(&self) -> (open: bool)
        ensures
            open == self.is_open(),
    {
        match self.deleted {
            Some(flag) => flag == 0,
            None => true,
        }
    }
}

impl Clone for IcNonReg {
    fn clone(&self) -> (copy: Self)
        ensures
            copy == *self,
    {
        IcNonReg {
            id: self.id.clone(),
            datetime: self.datetime,
            deleted: self.deleted,
            registered_id: self.registered_id,
        }
    }
}

/// A record of the permanent registry: the card `ic_id` belongs to the driver
/// `emp_id` from `date` on. The record is active where its `deleted` flag is
/// zero, and then it stands in the way of a new registration of the card. It
/// is live where the flag is zero or not set, and then it counts for the
/// listing of pending registrations.
#[derive(Debug)]
pub struct IcRecord {
    pub ic_id: String,
    pub emp_id: i32,
    pub deleted: Option<i8>,
    pub date: i64,
}

impl IcRecord {
    /// The `deleted` flag of the record is zero.
    pub open spec fn is_active(self) -> bool {
        self.deleted == Some(0i8)
    }

    /// Tells whether the `deleted` flag of the record is zero.
    pub fn active(&self) -> (active: bool)
        ensures
            active == self.is_active(),
    {
        match self.deleted {
            Some(flag) => flag == 0,
            None => false,
        }
    }

    /// The `deleted` flag of the record is zero or not set.
    pub open spec fn is_live(self) -> bool {
        match self.deleted {
            Some(flag) => flag == 0,
            None => true,
        }
    }

    /// Tells whether the `deleted` flag of the record is zero or not set.
    pub fn live(&self) -> (live: bool)
        ensures
            live == self.is_live(),
    {
        match self.deleted {
            Some(flag) => flag == 0,
            None => true,
        }
    }
}

impl Clone for IcRecord {
    fn clone(&self) -> (copy: Self)
        ensures
            copy == *self,
    {
        IcRecord {
            ic_id: self.ic_id.clone(),
            emp_id: self.emp_id,
            deleted: self.deleted,
            date: self.date,
        }
    }
}

/// A picture that a device took.
#[derive(Debug)]
pub struct PicData {
    pub date: i64,
    pub cam: i32,
    pub pic: Vec<u8>,
    pub detail: String,
    pub machine_ip: String,
}

/// A picture that a device took, as base64 text.
#[derive(Debug)]
pub struct PicDataBase64 {
    pub date: i64,
    pub cam: i32,
    pub pic_base64: String,
    pub detail: String,
    pub machine_ip: String,
}

impl PicDataBase64 {
    /// The picture with its bytes written as standard base64 text.
    pub fn from(pic: PicData) -> (encoded: Self)
        requires
            encodable(pic.pic@.len()),
        ensures
            encoded.date == pic.date,
            encoded.cam == pic.cam,
            encoded.pic_base64@ == base64_text(pic.pic@),
            encoded.detail == pic.detail,
            encoded.machine_ip == pic.machine_ip,
    {
        let pic_base64 = base64_standard(&pic.pic);
        PicDataBase64 {
            date: pic.date,
            cam: pic.cam,
            pic_base64,
            detail: pic.detail,
            machine_ip: pic.machine_ip,
        }
    }
}

/// A key pair for push notifications.
#[derive(Debug)]
pub struct VapidKey {
    pub public_key: String,
    pub private_key: String,
    pub uuid: String,
}

} // verus!
