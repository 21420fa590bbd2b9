use clicker::config::{get_upgrade_config, GameUser, TransferReq};
use clicker::error::Status;
use clicker::helpers::{
    blocked_key, blocked_outcome, buyer_not_found, fetch_or_create, purchase_reload_failed,
    recipient_not_found, sender_not_found, strip_prefix, user_not_found, AccountFetch, check_transfer_amount, compute_sync, extract_token, new_player,
    pending_balance_key, pending_to_apply, plan_purchase, plan_transfer, purchase_charge_outcome,
    rate_limit_key, settle_transfer, spam_check_in_range, spam_outcome, stat_field, sync_in_range,
    top_users, upgrade_for_purchase, upgrade_level, user_cache_key, StatField,
};

fn user(balance: i64, per_click: i64, auto_click: i64, last_sync: i64) -> GameUser {
    GameUser {
        id: 1,
        token: "tok".to_string(),
        first_name: "Ann".to_string(),
        per_click,
        auto_click,
        balance,
        last_sync,
    }
}

#[test]
fn bearer_token_is_extracted() {
    assert_eq!(extract_token(Some("Bearer abc")).unwrap(), "abc");
    assert_eq!(extract_token(Some("Bearer ")).unwrap(), "");
    let e = extract_token(None).unwrap_err();
    assert_eq!(e.status, Status::Unauthorized);
    assert_eq!(e.message, "Missing Authorization header");
    let e = extract_token(Some("Basic abc")).unwrap_err();
    assert_eq!(e.status, Status::BadRequest);
    assert_eq!(e.message, "Invalid Authorization header format");
    let e = extract_token(Some("bearer abc")).unwrap_err();
    assert_eq!(e.status, Status::BadRequest);
}

#[test]
fn bearer_token_round_trip() {
    for t in ["x", "токен", "a b c", ""] {
        let header = format!("Bearer {}", t);
        assert_eq!(extract_token(Some(&header)).unwrap(), t);
    }
}

#[test]
fn blocked_token_is_refused() {
    assert!(blocked_outcome(false).is_ok());
    let e = blocked_outcome(true).unwrap_err();
    assert_eq!(e.status, Status::Forbidden);
    assert_eq!(e.message, "Token is blocked for 15 minutes");
}

#[test]
fn requests_inside_the_window_are_spam() {
    assert!(spam_outcome(None, 1000).is_ok());
    assert!(spam_outcome(Some(1000), 2500).is_ok());
    let e = spam_outcome(Some(1000), 2499).unwrap_err();
    assert_eq!(e.status, Status::TooManyRequests);
    assert_eq!(e.message, "Spam detected. Blocked for 15 minutes");
    assert!(spam_outcome(Some(5000), 1000).is_err());
    assert!(spam_check_in_range(Some(1), 2));
    assert!(!spam_check_in_range(Some(i64::MIN), 1));
    assert!(spam_check_in_range(None, i64::MAX));
}

#[test]
fn sync_adds_clicks_and_idle_income() {
    let u = user(100, 2, 3, 1000);
    let r = compute_sync(&u, 10, 1010);
    assert_eq!(r.balance, 100 + 10 * 2 + 10 * 3);
    assert_eq!(r.last_sync, 1010);
}

#[test]
fn sync_caps_clicks_at_one_hundred() {
    let u = user(0, 5, 0, 1000);
    assert_eq!(compute_sync(&u, 100, 1000).balance, 500);
    assert_eq!(compute_sync(&u, 1_000_000, 1000).balance, 500);
    assert_eq!(compute_sync(&u, -4, 1000).balance, -20);
}

#[test]
fn sync_ignores_a_clock_that_went_back() {
    let u = user(50, 1, 7, 2000);
    assert_eq!(compute_sync(&u, 0, 1000).balance, 50);
    assert_eq!(compute_sync(&u, 0, 2000).balance, 50);
}

#[test]
fn sync_range_check() {
    assert!(sync_in_range(&user(0, 1, 1, 0), 1, 10));
    assert!(!sync_in_range(&user(i64::MAX, 1, 0, 0), 1, 0));
    assert!(!sync_in_range(&user(0, i64::MAX, 0, 0), 2, 0));
    assert!(!sync_in_range(&user(0, 0, 2, i64::MIN), 0, 1));
}

#[test]
fn new_player_defaults() {
    let p = new_player("tok", 1234);
    assert_eq!(p.token, "tok");
    assert_eq!(p.first_name, "Player");
    assert_eq!((p.per_click, p.auto_click, p.balance, p.last_sync), (1, 0, 0, 1234));
}

#[test]
fn catalogue_lookup() {
    let g = get_upgrade_config("gpu_3").unwrap();
    assert_eq!((g.id, g.name, g.upgrade_type), ("gpu_3", "RTX 2060 Super", "auto"));
    assert_eq!((g.base_price, g.base_power, g.price_growth_permille), (4096, 64, 1600));
    let m = get_upgrade_config("mouse_1").unwrap();
    assert_eq!((m.name, m.upgrade_type, m.base_price), ("Офисная мышь", "click", 64));
    let m7 = get_upgrade_config("mouse_7").unwrap();
    assert_eq!(m7.base_price, 173741824);
    assert!(get_upgrade_config("gpu_8").is_none());
    assert!(get_upgrade_config("").is_none());
    let ids = ["gpu", "cpu", "mouse"];
    let mut n = 0;
    for p in ids {
        for i in 1..=7 {
            let id = format!("{}_{}", p, i);
            let u = get_upgrade_config(&id).unwrap();
            assert_eq!(u.id, id);
            n += 1;
        }
    }
    assert_eq!(n, 21);
}

#[test]
fn unknown_upgrade_is_refused() {
    let e = upgrade_for_purchase("laser").unwrap_err();
    assert_eq!(e.status, Status::BadRequest);
    assert_eq!(e.message, "Неверный ID апгрейда");
    assert_eq!(upgrade_for_purchase("cpu_2").unwrap().base_price, 512);
}

#[test]
fn purchase_raises_the_right_statistic() {
    assert_eq!(stat_field("auto"), StatField::AutoClick);
    assert_eq!(stat_field("click"), StatField::PerClick);
    assert_eq!(stat_field("Auto"), StatField::PerClick);
    assert_eq!(StatField::AutoClick.column(), "auto_click");
    assert_eq!(StatField::PerClick.column(), "per_click");
    let info = get_upgrade_config("mouse_2").unwrap();
    let p = plan_purchase(9, &info, 1638);
    assert_eq!((p.user_id, p.upgrade_id, p.price, p.field, p.increment), (9, "mouse_2", 1638, StatField::PerClick, 8));
    let info = get_upgrade_config("cpu_1").unwrap();
    assert_eq!(plan_purchase(9, &info, 32).field, StatField::AutoClick);
    assert_eq!(upgrade_level(None), 0);
    assert_eq!(upgrade_level(Some(4)), 4);
}

#[test]
fn unpaid_purchase_is_refused() {
    assert!(purchase_charge_outcome(1).is_ok());
    let e = purchase_charge_outcome(0).unwrap_err();
    assert_eq!(e.status, Status::PaymentRequired);
    assert_eq!(e.message, "Недостаточно средств");
}

#[test]
fn leaderboard_keeps_order_and_fields() {
    let users = vec![user(30, 2, 3, 0), GameUser { id: 2, first_name: "Bob".to_string(), ..user(10, 1, 0, 0) }];
    let t = top_users(&users);
    assert_eq!(t.users.len(), 2);
    assert_eq!((t.users[0].id, t.users[0].first_name.as_str(), t.users[0].balance, t.users[0].per_click, t.users[0].auto_click), (1, "Ann", 30, 2, 3));
    assert_eq!((t.users[1].id, t.users[1].first_name.as_str(), t.users[1].balance), (2, "Bob", 10));
    assert!(top_users(&vec![]).users.is_empty());
}

#[test]
fn transfer_amount_must_be_positive() {
    assert!(check_transfer_amount(1).is_ok());
    for a in [0, -5] {
        let e = check_transfer_amount(a).unwrap_err();
        assert_eq!(e.status, Status::BadRequest);
        assert_eq!(e.message, "Сумма должна быть больше 0");
    }
}

#[test]
fn transfer_plan_locks_in_id_order_and_conserves() {
    let p = plan_transfer(8, &TransferReq { ammount: 40, recipient: 3 }).unwrap();
    assert_eq!((p.first_lock, p.second_lock), (3, 8));
    assert_eq!((p.debit_account, p.credit_account, p.amount), (8, 3, 40));
    let (sender, recipient) = (100i64, 5i64);
    assert_eq!((sender - p.amount) + (recipient + p.amount), sender + recipient);
    let p = plan_transfer(2, &TransferReq { ammount: 1, recipient: 3 }).unwrap();
    assert_eq!((p.first_lock, p.second_lock), (2, 3));
    let e = plan_transfer(4, &TransferReq { ammount: 1, recipient: 4 }).unwrap_err();
    assert_eq!(e.status, Status::BadRequest);
    assert_eq!(e.message, "Нельзя переводить самому себе");
}

#[test]
fn transfer_settlement() {
    let r = settle_transfer(100, 40).unwrap();
    assert_eq!((r.status.as_str(), r.new_balance), ("success", 60));
    assert_eq!(settle_transfer(40, 40).unwrap().new_balance, 0);
    let e = settle_transfer(39, 40).unwrap_err();
    assert_eq!(e.status, Status::PaymentRequired);
    assert_eq!(e.message, "Недостаточно средств");
}

#[test]
fn cache_keys() {
    assert_eq!(user_cache_key("t1"), "user:t1");
    assert_eq!(blocked_key("t1"), "blocked:t1");
    assert_eq!(rate_limit_key("t1"), "rl:t1");
    assert_eq!(pending_balance_key("t1"), "pending_balance:t1");
    assert!(pending_to_apply(1));
    assert!(!pending_to_apply(0));
    assert!(!pending_to_apply(-3));
}

#[test]
fn fetch_or_create_keeps_a_found_account() {
    match fetch_or_create(None, "new", 77) {
        AccountFetch::Create(p) => {
            assert_eq!((p.token.as_str(), p.first_name), ("new", "Player"));
            assert_eq!((p.per_click, p.auto_click, p.balance, p.last_sync), (1, 0, 0, 77));
        }
        AccountFetch::Found(_) => panic!("nothing was stored"),
    }
    match fetch_or_create(Some(user(12, 3, 4, 5)), "tok", 77) {
        AccountFetch::Found(u) => assert_eq!((u.id, u.balance, u.last_sync), (1, 12, 5)),
        AccountFetch::Create(_) => panic!("a stored account is not created again"),
    }
}

#[test]
fn strips_prefixes_like_str() {
    for (s, p) in [("Bearer abc", "Bearer "), ("abc", "abcd"), ("abc", ""), ("", ""), ("Беарер x", "Беарер"), ("xy", "y")] {
        assert_eq!(strip_prefix(s, p), s.strip_prefix(p), "{:?} {:?}", s, p);
    }
}

#[test]
fn missing_account_refusals() {
    let cases = [
        (user_not_found(), Status::NotFound, "User not found"),
        (buyer_not_found(), Status::NotFound, "Пользователь не найден"),
        (purchase_reload_failed(), Status::InternalServerError, "Ошибка синхронизации"),
        (sender_not_found(), Status::Unauthorized, "Отправитель не найден"),
        (recipient_not_found(), Status::NotFound, "Получатель не найден"),
    ];
    for (e, status, message) in cases {
        assert_eq!((e.status, e.message.as_str()), (status, message));
    }
}

#[test]
fn catalogue_follows_its_pattern() {
    for (c, (name, base, kind)) in [("gpu", 16i64, "auto"), ("cpu", 32, "auto"), ("mouse", 64, "click")].into_iter().enumerate() {
        for n in 1..=7u32 {
            let id = format!("{}_{}", name, n);
            let u = get_upgrade_config(&id).unwrap();
            assert_eq!(u.upgrade_type, kind);
            assert_eq!(u.base_power, 8i64.pow(n - 1));
            assert_eq!(u.price_growth_permille, 1600);
            let expected = if c == 2 && n == 7 { 173741824 } else { base * 16i64.pow(n - 1) };
            assert_eq!(u.base_price, expected, "{}", id);
        }
    }
    for id in ["gpu_0", "gpu_8", "cpu", "mouse_", "GPU_1", "gpu_1 "] {
        assert!(get_upgrade_config(id).is_none(), "{}", id);
    }
}
