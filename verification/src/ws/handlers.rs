//! The raffle: stakes are gathered in a room, a ticket is drawn between one
//! and the bank, and the first player whose running total of stakes reaches
//! the ticket wins the bank less a commission of one fortieth, rounded up.

use vstd::prelude::*;
use rand::Rng;
use crate::error::{api_error, prefixed, ApiError, Status};
use crate::ws::config::{RafflePlayer, RaffleRoom, RaffleRoomWin, WsOutgoing};

verus! {

/// The sum of the stakes of `ps`.
pub open spec fn stake_sum(ps: Seq<RafflePlayer>) -> int
    decreases ps.len(),
{
    if ps.len() == 0 {
        0
    } else {
        stake_sum(ps.drop_last()) + ps.last().total_amount
    }
}

/// Whether every running total of the stakes of `ps` fits in an `i64`.
pub open spec fn running_totals_fit(ps: Seq<RafflePlayer>) -> bool {
    forall|k: int| 0 <= k <= ps.len() ==> i64::MIN <= #[trigger] stake_sum(ps.take(k)) <= i64::MAX
}

/// Whether the running total up to and including player `i` reaches `ticket`.
pub open spec fn reaches(ps: Seq<RafflePlayer>, ticket: int, i: int) -> bool {
    stake_sum(ps.take(i + 1)) >= ticket
}

/// Whether player `i` is the first whose running total reaches `ticket`.
pub open spec fn is_winner(ps: Seq<RafflePlayer>, ticket: int, i: int) -> bool {
    &&& 0 <= i < ps.len()
    &&& reaches(ps, ticket, i)
    &&& forall|j: int| 0 <= j < i ==> !#[trigger] reaches(ps, ticket, j)
}

/// The commission kept from a bank of `total`: one fortieth, rounded up.
pub open spec fn raffle_commission(total: int) -> int {
    (total + 39) / 40
}

/// Whether a raffle over `ps` can be drawn and paid out: the running totals
/// fit, the bank is at least one, and the commission can be computed.
pub open spec fn raffle_settleable(ps: Seq<RafflePlayer>) -> bool {
    &&& running_totals_fit(ps)
    &&& 1 <= stake_sum(ps)
    &&& stake_sum(ps) + 39 <= i64::MAX
}

/// Adding the stakes one by one.
proof fn lemma_stake_sum_step(ps: Seq<RafflePlayer>, k: int)
    requires
        0 <= k < ps.len(),
    ensures
        stake_sum(ps.take(k + 1)) == stake_sum(ps.take(k)) + ps[k].total_amount,
{
    assert(ps.take(k + 1).drop_last() =~= ps.take(k));
}

/// The sum of all the stakes, or `None` where a running total leaves `i64`.
pub fn bank_total(players: &Vec<RafflePlayer>) -> (r: Option<i64>)
    ensures
        r is Some <==> running_totals_fit(players@),
        r matches Some(t) ==> t == stake_sum(players@),
{
    let mut total: i64 = 0;
    let mut i: usize = 0;
    assert(players@.take(0) =~= Seq::<RafflePlayer>::empty());
    while i < players.len()
        invariant
            i <= players.len(),
            total == stake_sum(players@.take(i as int)),
            forall|k: int| 0 <= k <= i ==> i64::MIN <= #[trigger] stake_sum(players@.take(k)) <= i64::MAX,
        decreases players.len() - i,
    {
        proof {
            lemma_stake_sum_step(players@, i as int);
        }
        match total.checked_add(players[i].total_amount) {
            Some(t) => {
                total = t;
            },
            None => {
                return None;
            },
        }
        i = i + 1;
    }
    assert(players@.take(i as int) =~= players@);
    Some(total)
}

/// Whether a raffle over `players` can be drawn and paid out.
pub fn can_settle_raffle(players: &Vec<RafflePlayer>) -> (r: bool)
    ensures
        r == raffle_settleable(players@),
{
    match bank_total(players) {
        Some(t) => 1 <= t && t <= i64::MAX - 39,
        None => false,
    }
}

/// The index of the first player whose running total reaches `ticket`.
pub fn raffle_winner(players: &Vec<RafflePlayer>, ticket: i64) -> (r: Option<usize>)
    requires
        running_totals_fit(players@),
    ensures
        r matches Some(i) ==> is_winner(players@, ticket as int, i as int),
        r is None ==> forall|j: int| 0 <= j < players@.len() ==> !#[trigger] reaches(players@, ticket as int, j),
{
    let mut current: i64 = 0;
    let mut i: usize = 0;
    assert(players@.take(0) =~= Seq::<RafflePlayer>::empty());
    while i < players.len()
        invariant
            i <= players.len(),
            running_totals_fit(players@),
            current == stake_sum(players@.take(i as int)),
            forall|j: int| 0 <= j < i ==> !#[trigger] reaches(players@, ticket as int, j),
        decreases players.len() - i,
    {
        proof {
            lemma_stake_sum_step(players@, i as int);
            assert(i64::MIN <= stake_sum(players@.take(i + 1)) <= i64::MAX);
        }
        current = current + players[i].total_amount;
        if current >= ticket {
            return Some(i);
        }
        i = i + 1;
    }
    None
}

/// The commission and the prize paid out of a bank of `total`.
pub fn raffle_payout(total: i64) -> (r: (i64, i64))
    requires
        0 <= total <= i64::MAX - 39,
    ensures
        r.0 == raffle_commission(total as int),
        r.1 == total - raffle_commission(total as int),
        r.0 + r.1 == total,
        total <= 40 * r.0 < total + 40,
{
    let commission = (total + 39) / 40;
    // The commission never exceeds a bank that is not negative, so the
    // difference cannot saturate.
    let prize = total - commission;
    (commission, prize)
}

fn clone_player(p: &RafflePlayer) -> (r: RafflePlayer)
    ensures
        r == *p,
{
    RafflePlayer { user_id: p.user_id, first_name: p.first_name.clone(), total_amount: p.total_amount }
}

/// Pays out a raffle over `players` with the drawn `ticket`: the winner is
/// the first player whose running total reaches the ticket, and wins the bank
/// less the commission.
pub fn settle_raffle(players: Vec<RafflePlayer>, ticket: i64) -> (r: Result<RaffleRoomWin, ApiError>)
    requires
        raffle_settleable(players@),
    ensures
        match r {
            Ok(win) => exists|i: int| {
                &&& is_winner(players@, ticket as int, i)
                &&& win.winner_id == players@[i].user_id
                &&& win.winner_first_name == players@[i].first_name
                &&& win.bets@ == players@
                &&& win.winning_ticket == ticket
                &&& win.winning_amount == stake_sum(players@) - raffle_commission(stake_sum(players@))
            },
            Err(e) => {
                &&& e.status == Status::InternalServerError
                &&& e.message@ == "Winner calculation failed"@
                &&& forall|j: int| 0 <= j < players@.len() ==> !#[trigger] reaches(players@, ticket as int, j)
            },
        },
{
    let total = match bank_total(&players) {
        Some(t) => t,
        None => {
            return Err(api_error(Status::InternalServerError, "Winner calculation failed"));
        },
    };
    match raffle_winner(&players, ticket) {
        None => Err(api_error(Status::InternalServerError, "Winner calculation failed")),
        Some(i) => {
            let (_commission, prize) = raffle_payout(total);
            let winner = clone_player(&players[i]);
            Ok(RaffleRoomWin {
                bets: players,
                winning_ticket: ticket,
                winning_amount: prize,
                winner_id: winner.user_id,
                winner_first_name: winner.first_name,
            })
        },
    }
}

/// Every ticket up to the bank has a winner.
pub proof fn lemma_ticket_has_winner(ps: Seq<RafflePlayer>, ticket: int)
    requires
        ps.len() > 0,
        ticket <= stake_sum(ps),
    ensures
        exists|i: int| is_winner(ps, ticket, i),
{
    assert(ps.take(ps.len() as int) =~= ps);
    assert(reaches(ps, ticket, ps.len() - 1));
    let i = first_reaching_below(ps, ticket, ps.len() - 1);
    assert(is_winner(ps, ticket, i));
}

/// Either some index below `k` reaches `ticket`, and the least one is
/// returned, or none does and `k` is returned.
proof fn first_reaching_below(ps: Seq<RafflePlayer>, ticket: int, k: int) -> (i: int)
    requires
        0 <= k < ps.len(),
        reaches(ps, ticket, k),
    ensures
        0 <= i <= k,
        reaches(ps, ticket, i),
        forall|j: int| 0 <= j < i ==> !#[trigger] reaches(ps, ticket, j),
    decreases k,
{
    if k == 0 {
        0
    } else if exists|j: int| 0 <= j < k && #[trigger] reaches(ps, ticket, j) {
        let j = choose|j: int| 0 <= j < k && #[trigger] reaches(ps, ticket, j);
        first_reaching_below(ps, ticket, j)
    } else {
        k
    }
}


/// Whether every stake of `ps` is positive.
pub open spec fn stakes_positive(ps: Seq<RafflePlayer>) -> bool {
    forall|i: int| 0 <= i < ps.len() ==> #[trigger] ps[i].total_amount > 0
}

/// With positive stakes the running totals strictly increase.
pub proof fn lemma_running_totals_increase(ps: Seq<RafflePlayer>, j: int, k: int)
    requires
        stakes_positive(ps),
        0 <= j < k <= ps.len(),
    ensures
        stake_sum(ps.take(j)) < stake_sum(ps.take(k)),
    decreases k - j,
{
    lemma_stake_sum_step(ps, k - 1);
    if j < k - 1 {
        lemma_running_totals_increase(ps, j, k - 1);
    }
}

/// With positive stakes, player `i` wins exactly the tickets above the
/// running total of the players before it, up to the running total that
/// includes its own stake: so each player wins as many of the tickets from
/// one to the bank as it staked.
pub proof fn lemma_winning_tickets(ps: Seq<RafflePlayer>, ticket: int, i: int)
    requires
        stakes_positive(ps),
        1 <= ticket,
    ensures
        is_winner(ps, ticket, i) <==> (0 <= i < ps.len() && stake_sum(ps.take(i)) < ticket
            <= stake_sum(ps.take(i + 1))),
{
    if 0 <= i < ps.len() {
        if is_winner(ps, ticket, i) {
            if i > 0 {
                assert(!reaches(ps, ticket, i - 1));
            } else {
                assert(ps.take(0) =~= Seq::<RafflePlayer>::empty());
            }
        }
        if stake_sum(ps.take(i)) < ticket <= stake_sum(ps.take(i + 1)) {
            assert forall|j: int| 0 <= j < i implies !#[trigger] reaches(ps, ticket, j) by {
                if j + 1 < i {
                    lemma_running_totals_increase(ps, j + 1, i);
                }
            }
        }
    }
}

/// Draws a ticket with `rand`'s thread-local generator, through
/// `Rng::gen_range(1..=total)`. The claim is only that the ticket lies in
/// `1..=total`, as the crate documents; which ticket comes out is chance.
#[verifier::external_body]
fn draw_ticket(total: i64) -> (t: i64)
    requires
        1 <= total,
    ensures
        1 <= t <= total,
{
    rand::thread_rng().gen_range(1..=total)
}

/// Draws a ticket between one and the bank and pays the raffle out. Every
/// such ticket has a winner, so the payout always succeeds.
pub fn finish_raffle(players: Vec<RafflePlayer>) -> (win: RaffleRoomWin)
    requires
        raffle_settleable(players@),
    ensures
        1 <= win.winning_ticket <= stake_sum(players@),
        win.bets@ == players@,
        win.winning_amount == stake_sum(players@) - raffle_commission(stake_sum(players@)),
        exists|i: int| {
            &&& is_winner(players@, win.winning_ticket as int, i)
            &&& win.winner_id == players@[i].user_id
            &&& win.winner_first_name == players@[i].first_name
        },
{
    let total = match bank_total(&players) {
        Some(t) => t,
        None => 1,
    };
    let ticket = draw_ticket(total);
    proof {
        assert(players@.len() > 0) by {
            if players@.len() == 0 {
                assert(stake_sum(players@) == 0);
            }
        }
        lemma_ticket_has_winner(players@, ticket as int);
    }
    match settle_raffle(players, ticket) {
        Ok(win) => win,
        Err(_) => {
            proof {
                let i = choose|i: int| is_winner(players@, ticket as int, i);
                assert(reaches(players@, ticket as int, i));
            }
            unreached()
        },
    }
}

/// The players among the stored stakes that could be read, in their order.
pub open spec fn parsed_players(parsed: Seq<Option<RafflePlayer>>) -> Seq<RafflePlayer>
    decreases parsed.len(),
{
    if parsed.len() == 0 {
        Seq::empty()
    } else {
        let rest = parsed_players(parsed.drop_last());
        match parsed.last() {
            Some(p) => rest.push(p),
            None => rest,
        }
    }
}

/// Reading the stored stakes keeps the player of every entry that read, in
/// order, and drops only the entries that did not read: it is
/// `filter_map` over the entries. Where every entry read, all are kept.
pub proof fn lemma_parsed_players_keeps_every_stake(parsed: Seq<Option<RafflePlayer>>)
    ensures
        parsed_players(parsed) == parsed.filter_map(|o: Option<RafflePlayer>| o),
        (forall|i: int| 0 <= i < parsed.len() ==> #[trigger] parsed[i] is Some) ==> {
            &&& parsed_players(parsed).len() == parsed.len()
            &&& forall|i: int| 0 <= i < parsed.len() ==> #[trigger] parsed_players(parsed)[i] == parsed[i]->0
        },
    decreases parsed.len(),
{
    if parsed.len() > 0 {
        let rest = parsed.drop_last();
        lemma_parsed_players_keeps_every_stake(rest);
        let f = |o: Option<RafflePlayer>| o;
        assert(parsed_players(parsed) =~= parsed.filter_map(f)) by {
            match parsed.last() {
                Some(p) => {
                    assert(rest.filter_map(f) + seq![p] =~= rest.filter_map(f).push(p));
                },
                None => {},
            }
        }
        if forall|i: int| 0 <= i < parsed.len() ==> #[trigger] parsed[i] is Some {
            assert forall|i: int| 0 <= i < rest.len() implies #[trigger] rest[i] is Some by {
                assert(rest[i] == parsed[i]);
            }
            assert(parsed[parsed.len() - 1] is Some);
            assert forall|i: int| 0 <= i < parsed.len() implies #[trigger] parsed_players(parsed)[i]
                == parsed[i]->0 by {
                if i < parsed.len() - 1 {
                    assert(rest[i] == parsed[i]);
                    assert(parsed_players(rest)[i] == rest[i]->0);
                }
            }
        }
    }
}

/// Keeps the stakes that could be read, in their order.
pub fn collect_players(parsed: &Vec<Option<RafflePlayer>>) -> (r: Vec<RafflePlayer>)
    ensures
        r@ == parsed_players(parsed@),
        r@ == parsed@.filter_map(|o: Option<RafflePlayer>| o),
        (forall|i: int| 0 <= i < parsed@.len() ==> #[trigger] parsed@[i] is Some) ==> {
            &&& r@.len() == parsed@.len()
            &&& forall|i: int| 0 <= i < parsed@.len() ==> #[trigger] r@[i] == parsed@[i]->0
        },
{
    proof {
        lemma_parsed_players_keeps_every_stake(parsed@);
    }
    let mut r: Vec<RafflePlayer> = Vec::new();
    let mut i: usize = 0;
    assert(parsed@.take(0) =~= Seq::<Option<RafflePlayer>>::empty());
    while i < parsed.len()
        invariant
            i <= parsed.len(),
            r@ == parsed_players(parsed@.take(i as int)),
        decreases parsed.len() - i,
    {
        assert(parsed@.take(i + 1).drop_last() =~= parsed@.take(i as int));
        match &parsed[i] {
            Some(p) => {
                r.push(clone_player(p));
            },
            None => {},
        }
        i = i + 1;
    }
    assert(parsed@.take(i as int) =~= parsed@);
    r
}

/// The state of a room with `time` seconds left and the stakes `players`.
pub fn raffle_room(time: i32, players: Vec<RafflePlayer>) -> (room: RaffleRoom)
    requires
        running_totals_fit(players@),
    ensures
        room.time == time,
        room.bets@ == players@,
        room.total_bank == stake_sum(players@),
{
    let total = match bank_total(&players) {
        Some(t) => t,
        None => 0,
    };
    RaffleRoom { time, bets: players, total_bank: total }
}

/// The seconds left in a room, read from its stored `time` field: what does
/// not read as an `i32` counts as zero.
pub fn room_time(stored: Option<&str>) -> (t: i32)
    ensures
        t == match stored {
            Some(s) => match crate::decimal::parse_signed(s@, i32::MIN as int, i32::MAX as int) {
                Some(v) => v,
                None => 0,
            },
            None => 0,
        },
{
    match stored {
        Some(s) => match crate::decimal::parse_i32(s) {
            Some(v) => v,
            None => 0,
        },
        None => 0,
    }
}

/// A bet must be positive.
pub fn check_bet_amount(amount: i64) -> (r: Result<(), ApiError>)
    ensures
        r is Ok <==> amount > 0,
        r matches Err(e) ==> e.status == Status::BadRequest && e.message@ == "Amount must be positive"@,
{
    if amount <= 0 {
        return Err(api_error(Status::BadRequest, "Amount must be positive"));
    }
    Ok(())
}

/// Whether adding `amount` to the stored stake stays within `i64`.
pub fn bet_fits(stored: &Option<RafflePlayer>, amount: i64) -> (r: bool)
    ensures
        r == (stored matches Some(s) ==> i64::MIN <= s.total_amount + amount <= i64::MAX),
{
    match stored {
        Some(s) => s.total_amount.checked_add(amount).is_some(),
        None => true,
    }
}

/// The stake after a bet of `amount`: added to the stored stake of the
/// player, or a new stake under the given id and name.
pub fn place_bet(stored: Option<RafflePlayer>, user_id: i64, first_name: &str, amount: i64) -> (p:
    RafflePlayer)
    requires
        stored matches Some(s) ==> i64::MIN <= s.total_amount + amount <= i64::MAX,
    ensures
        p.total_amount == staked_after(stored, amount as int),
        match stored {
            Some(s) => p.user_id == s.user_id && p.first_name == s.first_name,
            None => p.user_id == user_id && p.first_name@ == first_name@,
        },
{
    match stored {
        Some(s) => RafflePlayer {
            user_id: s.user_id,
            first_name: s.first_name,
            total_amount: s.total_amount + amount,
        },
        None => RafflePlayer { user_id, first_name: String::from_str(first_name), total_amount: amount },
    }
}

/// A player's stake after a bet of `amount` on top of what is stored.
pub open spec fn staked_after(stored: Option<RafflePlayer>, amount: int) -> int {
    match stored {
        Some(s) => s.total_amount + amount,
        None => amount,
    }
}

/// Bets placed one after the other add up in the player's stake.
pub proof fn lemma_bets_add_up(first: RafflePlayer, a: int, b: int)
    requires
        first.total_amount == staked_after(None, a),
    ensures
        staked_after(Some(first), b) == a + b,
{
}

/// The answer when the balance could not pay a bet.
pub fn bet_charge_outcome(rows_affected: u64) -> (r: Result<(), ApiError>)
    ensures
        r is Ok <==> rows_affected > 0,
        r matches Err(e) ==> e.status == Status::PaymentRequired && e.message@ == "Insufficient funds"@,
{
    if rows_affected == 0 {
        return Err(api_error(Status::PaymentRequired, "Insufficient funds"));
    }
    Ok(())
}

/// Only the caller that took the finishing lock may finish a raffle.
pub fn finish_lock_outcome(acquired: bool) -> (r: Result<(), ApiError>)
    ensures
        r is Ok <==> acquired,
        r matches Err(e) ==> e.status == Status::Conflict && e.message@ == "Raffle is already being finalized"@,
{
    if !acquired {
        return Err(api_error(Status::Conflict, "Raffle is already being finalized"));
    }
    Ok(())
}

/// The refusal when the room to finish does not exist.
pub fn room_missing_error() -> (e: ApiError)
    ensures
        e.status == Status::InternalServerError,
        e.message@ == "Raffle room not found"@,
{
    api_error(Status::InternalServerError, "Raffle room not found")
}

/// A raffle with no stored stakes cannot be finished.
pub fn stakes_present(count: usize) -> (r: Result<(), ApiError>)
    ensures
        r is Ok <==> count > 0,
        r matches Err(e) ==> e.status == Status::BadRequest && e.message@ == "No players in raffle"@,
{
    if count == 0 {
        return Err(api_error(Status::BadRequest, "No players in raffle"));
    }
    Ok(())
}

/// Seconds the fields of a new room are kept.
pub const RAFFLE_ROOM_TTL_SECONDS: i64 = 60;

/// Seconds the stakes of a room are kept after a bet.
pub const RAFFLE_BETS_TTL_SECONDS: i64 = 60;

/// Seconds the finishing lock of a room is held.
pub const RAFFLE_LOCK_TTL_SECONDS: i64 = 30;

/// The key of a room's fields.
pub fn raffle_room_key(uuid: &str) -> (k: String)
    ensures
        k@ == "raffle:"@ + uuid@,
{
    prefixed("raffle:", uuid)
}

/// The key of a room's stakes.
pub fn raffle_bets_key(uuid: &str) -> (k: String)
    ensures
        k@ == "raffle:"@ + uuid@ + ":bets"@,
{
    let mut k = prefixed("raffle:", uuid);
    k.append(":bets");
    k
}

/// The key of a room's finishing lock.
pub fn raffle_lock_key(uuid: &str) -> (k: String)
    ensures
        k@ == "raffle:"@ + uuid@ + ":finishing"@,
{
    let mut k = prefixed("raffle:", uuid);
    k.append(":finishing");
    k
}

/// The fields a new room starts with.
pub fn raffle_room_fields() -> (f: Vec<(&'static str, &'static str)>)
    ensures
        f@ == seq![("time", "30"), ("winning_id", "0"), ("winning_name", "Name"), ("winning_amount", "0")],
{
    let mut f: Vec<(&'static str, &'static str)> = Vec::new();
    f.push(("time", "30"));
    f.push(("winning_id", "0"));
    f.push(("winning_name", "Name"));
    f.push(("winning_amount", "0"));
    assert(f@ =~= seq![("time", "30"), ("winning_id", "0"), ("winning_name", "Name"), ("winning_amount", "0")]);
    f
}

/// Whether `c` is a lower-case hexadecimal digit.
pub open spec fn is_lower_hex(c: char) -> bool {
    ('0' <= c && c <= '9') || ('a' <= c && c <= 'f')
}

/// Whether `id` is the hyphenated lower-case text of a version-4 UUID:
/// 36 characters, hyphens at 8, 13, 18 and 23, lower-case hexadecimal digits
/// elsewhere, the version digit `4` at 14 and a variant digit of `8`, `9`,
/// `a` or `b` at 19.
pub open spec fn is_uuid_v4_text(id: Seq<char>) -> bool {
    &&& id.len() == 36
    &&& forall|i: int| 0 <= i < 36 ==> (if i == 8 || i == 13 || i == 18 || i == 23 {
        #[trigger] id[i] == '-'
    } else {
        is_lower_hex(id[i])
    })
    &&& id[14] == '4'
    &&& (id[19] == '8' || id[19] == '9' || id[19] == 'a' || id[19] == 'b')
}

/// A fresh random identifier: a version-4 UUID from `uuid::Uuid::new_v4`,
/// in the hyphenated lower-case text that its `Display` writes. The claim is
/// only that shape; the other digits are chance.
#[verifier::external_body]
fn random_room_id() -> (id: String)
    ensures
        is_uuid_v4_text(id@),
{
    uuid::Uuid::new_v4().to_string()
}

/// A room to open: its fresh identifier and the key of its fields.
#[derive(Debug)]
pub struct NewRaffleRoom {
    pub id: String,
    pub key: String,
}

/// Chooses a fresh identifier for a new room and its key.
pub fn new_raffle_room() -> (r: NewRaffleRoom)
    ensures
        is_uuid_v4_text(r.id@),
        r.key@ == "raffle:"@ + r.id@,
{
    let id = random_room_id();
    let key = raffle_room_key(id.as_str());
    NewRaffleRoom { id, key }
}

/// What a round's timer does on one tick.
#[derive(PartialEq, Eq, Structural, Clone, Copy, Debug)]
pub enum RaffleTick {
    /// The room is gone: the timer stops.
    Closed,
    /// The countdown could not be read: the timer stops.
    TimerFailed,
    /// Time is left: it is announced and the timer goes on.
    Countdown { seconds_left: i32 },
    /// Time is up: it is announced and the raffle is finished.
    Finish { seconds_left: i32 },
}

/// Decides a tick from whether the room still exists and the countdown after
/// it was decremented (`None` where that failed).
pub fn raffle_tick(room_exists: bool, time_left: Option<i32>) -> (t: RaffleTick)
    ensures
        !room_exists ==> t == RaffleTick::Closed,
        room_exists && time_left is None ==> t == RaffleTick::TimerFailed,
        room_exists ==> (time_left matches Some(s) ==> t == (if s <= 0 {
            RaffleTick::Finish { seconds_left: s }
        } else {
            RaffleTick::Countdown { seconds_left: s }
        })),
{
    if !room_exists {
        return RaffleTick::Closed;
    }
    match time_left {
        None => RaffleTick::TimerFailed,
        Some(s) => if s <= 0 {
            RaffleTick::Finish { seconds_left: s }
        } else {
            RaffleTick::Countdown { seconds_left: s }
        },
    }
}

/// A failure to finish is reported unless another caller was finishing.
pub fn finish_error_reported(status: Status) -> (r: bool)
    ensures
        r == (status != Status::Conflict),
{
    status != Status::Conflict
}

/// The countdown announcement.
pub fn raffle_time_message(seconds_left: i32) -> (m: WsOutgoing)
    ensures
        m == (WsOutgoing::RaffleTime { seconds_left }),
{
    WsOutgoing::RaffleTime { seconds_left }
}

/// The announcement of a finished raffle.
pub fn raffle_finished_message(win: &RaffleRoomWin) -> (m: WsOutgoing)
    ensures
        m matches WsOutgoing::RaffleFinished { winner_id, winner_first_name, winner_img, win_amount, winning_ticket }
            && winner_id == win.winner_id && winner_first_name == win.winner_first_name
            && winner_img@ == Seq::<char>::empty() && win_amount == win.winning_amount
            && winning_ticket == win.winning_ticket,
{
    WsOutgoing::RaffleFinished {
        winner_id: win.winner_id,
        winner_first_name: win.winner_first_name.clone(),
        winner_img: String::new(),
        win_amount: win.winning_amount,
        winning_ticket: win.winning_ticket,
    }
}

} // verus!
