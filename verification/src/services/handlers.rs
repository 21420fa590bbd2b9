//! The rules of partner services: their identifiers, the record of a new
//! service, and payments from a service to a player.

use vstd::prelude::*;
use crate::decimal::{int_decimal, push_i64};
use crate::error::{api_error, prefixed, ApiError, Status};
use crate::services::config::{ServiceCreateReq, ServiceCreateRes, ServiceMaintenanceSwitch,
    ServiceTransferToUserRes};

verus! {

/// Seconds a service record is cached.
pub const SERVICE_CACHE_TTL_SECONDS: u64 = 3600;

/// The key under which a service is cached.
pub fn service_key(uuid: &str) -> (k: String)
    ensures
        k@ == "service:"@ + uuid@,
{
    prefixed("service:", uuid)
}

/// The key under which an account is cached by its id.
pub fn user_id_key(id: i64) -> (k: String)
    ensures
        k@ == "user_id:"@ + int_decimal(id as int),
{
    let mut k = String::from_str("user_id:");
    push_i64(&mut k, id);
    k
}

/// The identifier of a service made by `creator_id` at `now`:
/// `svc_{creator_id}_{now}`.
pub fn service_uuid(creator_id: i64, now: i64) -> (u: String)
    ensures
        u@ == "svc_"@ + int_decimal(creator_id as int) + "_"@ + int_decimal(now as int),
{
    let mut u = String::from_str("svc_");
    push_i64(&mut u, creator_id);
    u.append("_");
    push_i64(&mut u, now);
    u
}

/// The record of a new service: no description, no coins, no history, in
/// maintenance, registered at `reg_date`.
pub fn new_service(creator_id: i64, req: ServiceCreateReq, now: i64, reg_date: i64) -> (s: ServiceCreateRes)
    ensures
        s.uuid@ == "svc_"@ + int_decimal(creator_id as int) + "_"@ + int_decimal(now as int),
        s.first_name == req.name,
        s.creator_id == creator_id,
        s.description@ == Seq::<char>::empty(),
        s.balance == 0,
        s.callback_url == req.callback_url,
        s.url_img == req.url_img,
        s.reg_date == reg_date,
        s.maintenance,
        s.history@.len() == 0,
{
    let ServiceCreateReq { name, url_img, callback_url } = req;
    ServiceCreateRes {
        uuid: service_uuid(creator_id, now),
        first_name: name,
        creator_id,
        description: String::new(),
        balance: 0,
        callback_url,
        url_img,
        reg_date,
        maintenance: true,
        history: Vec::new(),
    }
}

/// The current time in whole seconds since the Unix epoch, from
/// `chrono::Utc::now().timestamp()`. `Utc::now` fails on a clock before the
/// epoch, so a returned value is never negative; which value is the clock's.
#[verifier::external_body]
fn utc_timestamp() -> (t: i64)
    ensures
        t >= 0,
{
    chrono::Utc::now().timestamp()
}

/// The record of a service that `creator_id` creates at `now`, registered at
/// the current UTC time.
pub fn create_service(creator_id: i64, req: ServiceCreateReq, now: i64) -> (s: ServiceCreateRes)
    ensures
        s.uuid@ == "svc_"@ + int_decimal(creator_id as int) + "_"@ + int_decimal(now as int),
        s.first_name == req.name,
        s.creator_id == creator_id,
        s.description@ == Seq::<char>::empty(),
        s.balance == 0,
        s.callback_url == req.callback_url,
        s.url_img == req.url_img,
        s.reg_date >= 0,
        s.maintenance,
        s.history@.len() == 0,
{
    let reg_date = utc_timestamp();
    new_service(creator_id, req, now, reg_date)
}

/// The refusal when the player creating a service has no account.
pub fn creator_not_found() -> (e: ApiError)
    ensures
        e.status == Status::Unauthorized,
        e.message@ == "Создатель не найден"@,
{
    api_error(Status::Unauthorized, "Создатель не найден")
}

/// The refusal when the service to show does not exist.
pub fn service_not_found() -> (e: ApiError)
    ensures
        e.status == Status::NotFound,
        e.message@ == "Сервис не найден"@,
{
    api_error(Status::NotFound, "Сервис не найден")
}

/// The refusal when the player a service pays has no account.
pub fn receiver_not_found() -> (e: ApiError)
    ensures
        e.status == Status::Unauthorized,
        e.message@ == "Получатель не найден."@,
{
    api_error(Status::Unauthorized, "Получатель не найден.")
}

/// The refusal when the service whose maintenance mode is switched does not
/// exist.
pub fn switched_service_not_found() -> (e: ApiError)
    ensures
        e.status == Status::NotFound,
        e.message@ == "Service not found"@,
{
    api_error(Status::NotFound, "Service not found")
}

/// A payment by a service must be positive.
pub fn check_service_transfer_amount(amount: i64) -> (r: Result<(), ApiError>)
    ensures
        r is Ok <==> amount > 0,
        r matches Err(e) ==> e.status == Status::BadRequest && e.message@ == "Сумма должна быть больше 0!"@,
{
    if amount <= 0 {
        return Err(api_error(Status::BadRequest, "Сумма должна быть больше 0!"));
    }
    Ok(())
}

/// A service cannot pay more than it holds.
pub fn check_service_funds(service_balance: i64, amount: i64) -> (r: Result<(), ApiError>)
    ensures
        r is Ok <==> service_balance >= amount,
        r matches Err(e) ==> e.status == Status::PaymentRequired && e.message@
            == "На балансе сервиса недостаточно средств!"@,
{
    if service_balance < amount {
        return Err(api_error(Status::PaymentRequired, "На балансе сервиса недостаточно средств!"));
    }
    Ok(())
}

/// The receipt of a payment of `amount` to the player named `receiver_name`.
pub fn service_transfer_receipt(amount: i64, receiver_name: &str) -> (r: ServiceTransferToUserRes)
    ensures
        r.status@ == "success"@,
        r.message@ == "Успешно доставлено: "@ + int_decimal(amount as int) + " пользователю: "@
            + receiver_name@,
{
    let mut message = String::from_str("Успешно доставлено: ");
    push_i64(&mut message, amount);
    message.append(" пользователю: ");
    message.append(receiver_name);
    ServiceTransferToUserRes { status: String::from_str("success"), message }
}

/// The answer to a switch of maintenance mode: the mode the service is now in.
pub fn maintenance_switch(service: &ServiceCreateRes) -> (r: ServiceMaintenanceSwitch)
    ensures
        r.status@ == "success"@,
        r.maintenance == service.maintenance,
{
    ServiceMaintenanceSwitch { status: String::from_str("success"), maintenance: service.maintenance }
}

} // verus!
