use clicker::error::Status;
use clicker::services::config::ServiceCreateReq;
use clicker::services::handlers::{
    check_service_funds, check_service_transfer_amount, creator_not_found, receiver_not_found,
    service_not_found, switched_service_not_found, create_service, maintenance_switch, new_service,
    service_key, service_transfer_receipt, service_uuid, user_id_key,
};
use clicker::services::routes::parse_history_limit;
use clicker::ws::main::{handshake_reply, last_sync_saved, offered_token, online_key};
use clicker::ws::config::{WsIncoming, WsOutgoing};

fn req() -> ServiceCreateReq {
    ServiceCreateReq { name: "Shop".to_string(), url_img: "img".to_string(), callback_url: "cb".to_string() }
}

#[test]
fn service_identifiers() {
    assert_eq!(service_uuid(7, 1700000000), "svc_7_1700000000");
    assert_eq!(service_uuid(-1, 0), "svc_-1_0");
    assert_eq!(service_key("svc_7_1"), "service:svc_7_1");
    assert_eq!(user_id_key(42), "user_id:42");
}

#[test]
fn new_service_record() {
    let s = new_service(7, req(), 100, 200);
    assert_eq!(s.uuid, "svc_7_100");
    assert_eq!((s.first_name.as_str(), s.url_img.as_str(), s.callback_url.as_str()), ("Shop", "img", "cb"));
    assert_eq!((s.creator_id, s.balance, s.reg_date, s.maintenance), (7, 0, 200, true));
    assert!(s.description.is_empty() && s.history.is_empty());
    let c = create_service(7, req(), 100);
    assert_eq!(c.uuid, "svc_7_100");
    assert!(c.reg_date > 1_600_000_000);
    let m = maintenance_switch(&c);
    assert_eq!((m.status.as_str(), m.maintenance), ("success", true));
}

#[test]
fn service_payments() {
    let e = check_service_transfer_amount(0).unwrap_err();
    assert_eq!((e.status, e.message.as_str()), (Status::BadRequest, "Сумма должна быть больше 0!"));
    assert!(check_service_transfer_amount(5).is_ok());
    let e = check_service_funds(4, 5).unwrap_err();
    assert_eq!((e.status, e.message.as_str()), (Status::PaymentRequired, "На балансе сервиса недостаточно средств!"));
    assert!(check_service_funds(5, 5).is_ok());
    let r = service_transfer_receipt(25, "Ann");
    assert_eq!(r.status, "success");
    assert_eq!(r.message, "Успешно доставлено: 25 пользователю: Ann");
}

#[test]
fn history_limit_from_path() {
    assert_eq!(parse_history_limit(":20"), 20);
    assert_eq!(parse_history_limit("20"), 20);
    assert_eq!(parse_history_limit("::+3"), 3);
    assert_eq!(parse_history_limit("::"), 15);
    assert_eq!(parse_history_limit(""), 15);
    assert_eq!(parse_history_limit(":-1"), 15);
    assert_eq!(parse_history_limit(":2:"), 15);
    assert_eq!(parse_history_limit("abc"), 15);
}

#[test]
fn socket_handshake() {
    assert_eq!(offered_token(Some(WsIncoming::Auth { token: "t".to_string() })), Some("t".to_string()));
    assert_eq!(offered_token(Some(WsIncoming::Ping)), None);
    assert_eq!(offered_token(None), None);
    let (m, ok) = handshake_reply(true);
    assert!(ok && matches!(m, WsOutgoing::AuthSuccess));
    let (m, ok) = handshake_reply(false);
    assert!(!ok);
    match m {
        WsOutgoing::Error { message } => assert_eq!(message, "Invalid token"),
        _ => panic!("wrong reply"),
    }
    assert_eq!(online_key("t"), "online:t");
    assert!(last_sync_saved(1));
    assert!(!last_sync_saved(0));
}

#[test]
fn missing_service_refusals() {
    let cases = [
        (creator_not_found(), Status::Unauthorized, "Создатель не найден"),
        (service_not_found(), Status::NotFound, "Сервис не найден"),
        (receiver_not_found(), Status::Unauthorized, "Получатель не найден."),
        (switched_service_not_found(), Status::NotFound, "Service not found"),
    ];
    for (e, status, message) in cases {
        assert_eq!((e.status, e.message.as_str()), (status, message));
    }
}
