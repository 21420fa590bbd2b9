use clicker::error::Status;
use clicker::ws::config::{RafflePlayer, WsOutgoing};
use clicker::ws::handlers::{
    bank_total, bet_charge_outcome, bet_fits, can_settle_raffle, check_bet_amount, collect_players,
    finish_error_reported, finish_lock_outcome, finish_raffle, new_raffle_room, place_bet,
    raffle_bets_key, raffle_finished_message, raffle_lock_key, raffle_payout, raffle_room,
    raffle_room_fields, raffle_room_key, raffle_tick, raffle_time_message, raffle_winner,
    room_missing_error, room_time, settle_raffle, stakes_present, RaffleTick,
};

fn player(id: i64, name: &str, amount: i64) -> RafflePlayer {
    RafflePlayer { user_id: id, first_name: name.to_string(), total_amount: amount }
}

fn three() -> Vec<RafflePlayer> {
    vec![player(1, "a", 10), player(2, "b", 20), player(3, "c", 5)]
}

#[test]
fn winner_is_first_to_reach_the_ticket() {
    let ps = three();
    assert_eq!(raffle_winner(&ps, 1), Some(0));
    assert_eq!(raffle_winner(&ps, 10), Some(0));
    assert_eq!(raffle_winner(&ps, 11), Some(1));
    assert_eq!(raffle_winner(&ps, 30), Some(1));
    assert_eq!(raffle_winner(&ps, 31), Some(2));
    assert_eq!(raffle_winner(&ps, 35), Some(2));
    assert_eq!(raffle_winner(&ps, 36), None);
    assert_eq!(raffle_winner(&ps, -3), Some(0));
    assert_eq!(raffle_winner(&vec![], 1), None);
}

#[test]
fn each_player_wins_as_many_tickets_as_staked() {
    let ps = three();
    let mut wins = [0i64; 3];
    for t in 1..=35 {
        wins[raffle_winner(&ps, t).unwrap()] += 1;
    }
    assert_eq!(wins, [10, 20, 5]);
}

#[test]
fn payout_keeps_a_fortieth_rounded_up() {
    assert_eq!(raffle_payout(100), (3, 97));
    assert_eq!(raffle_payout(40), (1, 39));
    assert_eq!(raffle_payout(41), (2, 39));
    assert_eq!(raffle_payout(1), (1, 0));
    assert_eq!(raffle_payout(0), (0, 0));
    let (c, p) = raffle_payout(i64::MAX - 39);
    assert_eq!(c + p, i64::MAX - 39);
}

#[test]
fn settle_pays_the_winner() {
    let w = settle_raffle(three(), 12).unwrap();
    assert_eq!((w.winner_id, w.winner_first_name.as_str()), (2, "b"));
    assert_eq!((w.winning_ticket, w.winning_amount), (12, 34));
    assert_eq!(w.bets.len(), 3);
    let e = settle_raffle(three(), 36).unwrap_err();
    assert_eq!(e.status, Status::InternalServerError);
    assert_eq!(e.message, "Winner calculation failed");
}

#[test]
fn finish_draws_a_ticket_within_the_bank() {
    let mut tickets = std::collections::HashSet::new();
    for _ in 0..50 {
        let w = finish_raffle(three());
        tickets.insert(w.winning_ticket);
        assert!(1 <= w.winning_ticket && w.winning_ticket <= 35);
        let i = raffle_winner(&three(), w.winning_ticket).unwrap();
        assert_eq!(w.winner_id, three()[i].user_id);
        assert_eq!(w.winning_amount, 34);
    }
    assert!(tickets.len() > 1);
    let w = finish_raffle(vec![player(9, "solo", 1)]);
    assert_eq!((w.winning_ticket, w.winner_id, w.winning_amount), (1, 9, 0));
}

#[test]
fn bank_totals_and_settleability() {
    assert_eq!(bank_total(&three()), Some(35));
    assert_eq!(bank_total(&vec![]), Some(0));
    assert_eq!(bank_total(&vec![player(1, "a", i64::MAX), player(2, "b", 1)]), None);
    assert_eq!(bank_total(&vec![player(1, "a", i64::MAX), player(2, "b", -1)]), Some(i64::MAX - 1));
    assert!(can_settle_raffle(&three()));
    assert!(!can_settle_raffle(&vec![]));
    assert!(!can_settle_raffle(&vec![player(1, "a", 0)]));
    assert!(!can_settle_raffle(&vec![player(1, "a", i64::MAX - 38)]));
    assert!(can_settle_raffle(&vec![player(1, "a", i64::MAX - 39)]));
}

#[test]
fn unreadable_stakes_are_dropped() {
    let parsed = vec![Some(player(1, "a", 3)), None, Some(player(2, "b", 4)), None];
    let ps = collect_players(&parsed);
    assert_eq!(ps.len(), 2);
    assert_eq!((ps[0].user_id, ps[1].user_id), (1, 2));
    let room = raffle_room(17, ps);
    assert_eq!((room.time, room.total_bank, room.bets.len()), (17, 7, 2));
}

#[test]
fn room_time_defaults_to_zero() {
    assert_eq!(room_time(Some("30")), 30);
    assert_eq!(room_time(Some("-2")), -2);
    assert_eq!(room_time(Some("soon")), 0);
    assert_eq!(room_time(None), 0);
}

#[test]
fn bets_accumulate() {
    let first = place_bet(None, 5, "Eve", 10);
    assert_eq!((first.user_id, first.first_name.as_str(), first.total_amount), (5, "Eve", 10));
    assert!(bet_fits(&Some(first.clone()), 15));
    let second = place_bet(Some(first), 99, "Other", 15);
    assert_eq!((second.user_id, second.first_name.as_str(), second.total_amount), (5, "Eve", 25));
    assert!(!bet_fits(&Some(player(1, "a", i64::MAX)), 1));
    assert!(bet_fits(&None, i64::MAX));
}

#[test]
fn bet_refusals() {
    let e = check_bet_amount(0).unwrap_err();
    assert_eq!((e.status, e.message.as_str()), (Status::BadRequest, "Amount must be positive"));
    assert!(check_bet_amount(1).is_ok());
    let e = bet_charge_outcome(0).unwrap_err();
    assert_eq!((e.status, e.message.as_str()), (Status::PaymentRequired, "Insufficient funds"));
    assert!(bet_charge_outcome(1).is_ok());
}

#[test]
fn finish_refusals() {
    let e = finish_lock_outcome(false).unwrap_err();
    assert_eq!((e.status, e.message.as_str()), (Status::Conflict, "Raffle is already being finalized"));
    assert!(finish_lock_outcome(true).is_ok());
    let e = room_missing_error();
    assert_eq!((e.status, e.message.as_str()), (Status::InternalServerError, "Raffle room not found"));
    let e = stakes_present(0).unwrap_err();
    assert_eq!((e.status, e.message.as_str()), (Status::BadRequest, "No players in raffle"));
    assert!(stakes_present(2).is_ok());
    assert!(!finish_error_reported(Status::Conflict));
    assert!(finish_error_reported(Status::BadRequest));
}

#[test]
fn raffle_keys_and_room() {
    assert_eq!(raffle_room_key("u1"), "raffle:u1");
    assert_eq!(raffle_bets_key("u1"), "raffle:u1:bets");
    assert_eq!(raffle_lock_key("u1"), "raffle:u1:finishing");
    assert_eq!(
        raffle_room_fields(),
        vec![("time", "30"), ("winning_id", "0"), ("winning_name", "Name"), ("winning_amount", "0")]
    );
    let a = new_raffle_room();
    let b = new_raffle_room();
    assert_ne!(a.id, b.id);
    assert_eq!(a.id.len(), 36);
    assert_eq!(&a.id[14..15], "4");
    for (i, c) in a.id.chars().enumerate() {
        if [8, 13, 18, 23].contains(&i) {
            assert_eq!(c, '-');
        } else {
            assert!(c.is_ascii_digit() || ('a'..='f').contains(&c));
        }
    }
    assert!("89ab".contains(&a.id[19..20]));
    assert_eq!(a.key, format!("raffle:{}", a.id));
}

#[test]
fn raffle_timer_ticks() {
    assert_eq!(raffle_tick(false, Some(3)), RaffleTick::Closed);
    assert_eq!(raffle_tick(true, None), RaffleTick::TimerFailed);
    assert_eq!(raffle_tick(true, Some(3)), RaffleTick::Countdown { seconds_left: 3 });
    assert_eq!(raffle_tick(true, Some(0)), RaffleTick::Finish { seconds_left: 0 });
    assert_eq!(raffle_tick(true, Some(-1)), RaffleTick::Finish { seconds_left: -1 });
}

#[test]
fn raffle_messages() {
    assert!(matches!(raffle_time_message(7), WsOutgoing::RaffleTime { seconds_left: 7 }));
    let w = settle_raffle(three(), 35).unwrap();
    match raffle_finished_message(&w) {
        WsOutgoing::RaffleFinished { winner_id, winner_first_name, winner_img, win_amount, winning_ticket } => {
            assert_eq!((winner_id, winner_first_name.as_str(), winner_img.as_str(), win_amount, winning_ticket), (3, "c", "", 34, 35));
        }
        _ => panic!("wrong message"),
    }
}
