//! The records and messages of partner services.

use vstd::prelude::*;

verus! {

/// The direction of a movement of a service's balance.
#[derive(PartialEq, Eq, Structural, Clone, Copy, Debug)]
pub enum ServiceHistoryStatus {
    ToService,
    FromService,
}

/// A movement of a service's balance.
#[derive(Clone, Debug)]
pub struct ServiceHistoryItem {
    pub id: i64,
    pub uuid: String,
    pub status: ServiceHistoryStatus,
    pub ammount: i64,
    pub date: i64,
}

/// A service as its creator sees it.
#[derive(Clone, Debug)]
pub struct ServiceCreateRes {
    pub uuid: String,
    pub first_name: String,
    pub creator_id: i64,
    pub description: String,
    pub balance: i64,
    pub callback_url: String,
    pub url_img: String,
    pub reg_date: i64,
    pub maintenance: bool,
    pub history: Vec<ServiceHistoryItem>,
}

/// A request to create a service.
pub struct ServiceCreateReq {
    pub name: String,
    pub url_img: String,
    pub callback_url: String,
}

/// A service as anyone may see it.
#[derive(Clone, Debug)]
pub struct ServiceGetInfoRes {
    pub uuid: String,
    pub first_name: String,
    pub description: String,
    pub balance: i64,
    pub callback_url: String,
    pub url_img: String,
    pub reg_date: i64,
}

/// A request of a service to pay `ammount` coins to the player `reciever_id`.
pub struct ServiceTransferToUserReq {
    pub ammount: i64,
    pub reciever_id: i64,
}

/// The answer to a payment made by a service.
#[derive(Debug)]
pub struct ServiceTransferToUserRes {
    pub status: String,
    pub message: String,
}

/// The answer to a switch of a service's maintenance mode.
#[derive(Clone, Debug)]
pub struct ServiceMaintenanceSwitch {
    pub status: String,
    pub maintenance: bool,
}

} // verus!
