//! The rules behind the game's endpoints: rate limiting, earning coins,
//! buying upgrades, the leaderboard, transfers between players and the
//! bearer token of a request.

use vstd::prelude::*;
use crate::config::{get_upgrade_config, upgrade_entry, GameUser, SyncResponse, TopUserItem, TopUsers,
    TransferReq, TransferRes, UpgradeInfo};
use crate::error::{api_error, prefixed, str_eq, ApiError, Status};

verus! {

/// Whether `x` fits in an `i64`.
pub open spec fn in_i64(x: int) -> bool {
    i64::MIN <= x <= i64::MAX
}

// ---------------------------------------------------------------- keys

/// The key under which a player's account is cached.
pub fn user_cache_key(token: &str) -> (k: String)
    ensures
        k@ == "user:"@ + token@,
{
    prefixed("user:", token)
}

/// The key that marks a token as blocked.
pub fn blocked_key(token: &str) -> (k: String)
    ensures
        k@ == "blocked:"@ + token@,
{
    prefixed("blocked:", token)
}

/// The key that holds the time of a token's last request.
pub fn rate_limit_key(token: &str) -> (k: String)
    ensures
        k@ == "rl:"@ + token@,
{
    prefixed("rl:", token)
}

/// The key of the coins waiting to be written to a player's balance.
pub fn pending_balance_key(token: &str) -> (k: String)
    ensures
        k@ == "pending_balance:"@ + token@,
{
    prefixed("pending_balance:", token)
}

/// The keys a token's data is kept under are different for different tokens,
/// and the account, block and rate-limit keys never meet, whatever the tokens.
pub proof fn lemma_token_keys_apart(t1: Seq<char>, t2: Seq<char>)
    ensures
        "user:"@ + t1 == "user:"@ + t2 ==> t1 == t2,
        "blocked:"@ + t1 == "blocked:"@ + t2 ==> t1 == t2,
        "rl:"@ + t1 == "rl:"@ + t2 ==> t1 == t2,
        "user:"@ + t1 != "blocked:"@ + t2,
        "user:"@ + t1 != "rl:"@ + t2,
        "blocked:"@ + t1 != "rl:"@ + t2,
{
    reveal_strlit("user:");
    reveal_strlit("blocked:");
    reveal_strlit("rl:");
    assert(("user:"@ + t1).skip(5) =~= t1);
    assert(("user:"@ + t2).skip(5) =~= t2);
    assert(("blocked:"@ + t1).skip(8) =~= t1);
    assert(("blocked:"@ + t2).skip(8) =~= t2);
    assert(("rl:"@ + t1).skip(3) =~= t1);
    assert(("rl:"@ + t2).skip(3) =~= t2);
    assert(("user:"@ + t1)[0] == 'u');
    assert(("blocked:"@ + t2)[0] == 'b');
    assert(("rl:"@ + t2)[0] == 'r');
    assert(("blocked:"@ + t1)[0] == 'b');
}

/// The set of tokens whose waiting coins are to be written.
pub const SYNC_QUEUE_KEY: &'static str = "sync_queue";

/// Seconds a cached account is kept.
pub const USER_CACHE_TTL_SECONDS: u64 = 60;

/// Seconds between two writes of the waiting coins.
pub const DB_SYNC_INTERVAL_SECONDS: u64 = 20;

// ---------------------------------------------------------------- rate limit

/// Requests of one token closer together than this many milliseconds are spam.
pub const RATE_WINDOW_MS: i64 = 1500;

/// Seconds a token stays blocked after spam.
pub const BLOCK_SECONDS: u64 = 900;

/// Seconds the time of the last request is remembered.
pub const RATE_KEY_TTL_SECONDS: u64 = 2;

/// A blocked token is refused.
pub fn blocked_outcome(is_blocked: bool) -> (r: Result<(), ApiError>)
    ensures
        r is Ok <==> !is_blocked,
        r matches Err(e) ==> e.status == Status::Forbidden && e.message@ == "Token is blocked for 15 minutes"@,
{
    if is_blocked {
        return Err(api_error(Status::Forbidden, "Token is blocked for 15 minutes"));
    }
    Ok(())
}

/// Whether a request at `now_ms` comes too soon after the last one.
pub open spec fn too_soon(last_request_ms: Option<i64>, now_ms: i64) -> bool {
    last_request_ms matches Some(last) && now_ms - last < RATE_WINDOW_MS
}

/// A request that comes too soon after the previous one of the same token is
/// refused, and the token is to be blocked; any other is to be recorded.
pub fn spam_outcome(last_request_ms: Option<i64>, now_ms: i64) -> (r: Result<(), ApiError>)
    requires
        last_request_ms matches Some(last) ==> in_i64(now_ms - last),
    ensures
        r is Err <==> too_soon(last_request_ms, now_ms),
        r matches Err(e) ==> e.status == Status::TooManyRequests && e.message@
            == "Spam detected. Blocked for 15 minutes"@,
{
    match last_request_ms {
        Some(last) => {
            if now_ms - last < RATE_WINDOW_MS {
                return Err(api_error(Status::TooManyRequests, "Spam detected. Blocked for 15 minutes"));
            }
        },
        None => {},
    }
    Ok(())
}

/// Whether the time of the last request can be subtracted from `now_ms`.
pub fn spam_check_in_range(last_request_ms: Option<i64>, now_ms: i64) -> (r: bool)
    ensures
        r == (last_request_ms matches Some(last) ==> in_i64(now_ms - last)),
{
    match last_request_ms {
        Some(last) => now_ms.checked_sub(last).is_some(),
        None => true,
    }
}

/// A request less than the window after the previous one is always refused,
/// and one that comes later, or first, always passes.
pub proof fn lemma_rate_window(last: i64, now_ms: i64)
    ensures
        now_ms - last < 1500 <==> too_soon(Some(last), now_ms),
        !too_soon(None, now_ms),
{
}

// ---------------------------------------------------------------- earning

/// At most this many clicks count in one synchronisation.
pub const MAX_CLICKS_PER_SYNC: i64 = 100;

/// The clicks that count out of `clicks` (`clicks.min(100)`).
pub open spec fn counted_clicks(clicks: int) -> int {
    if clicks <= MAX_CLICKS_PER_SYNC {
        clicks
    } else {
        MAX_CLICKS_PER_SYNC as int
    }
}

/// The seconds of automatic income since the last synchronisation; none
/// where the clock went back.
pub open spec fn idle_seconds(last_sync: int, now: int) -> int {
    if now - last_sync >= 0 {
        now - last_sync
    } else {
        0
    }
}

/// The coins earned by `clicks` clicks and by automatic income up to `now`.
pub open spec fn earned(user: GameUser, clicks: int, now: int) -> int {
    counted_clicks(clicks) * user.per_click + idle_seconds(user.last_sync as int, now) * user.auto_click
}

/// Whether every step of the synchronisation stays within `i64`.
pub open spec fn sync_fits(user: GameUser, clicks: int, now: int) -> bool {
    &&& in_i64(now - user.last_sync)
    &&& in_i64(counted_clicks(clicks) * user.per_click)
    &&& in_i64(idle_seconds(user.last_sync as int, now) * user.auto_click)
    &&& in_i64(earned(user, clicks, now))
    &&& in_i64(user.balance + earned(user, clicks, now))
}

/// Whether a synchronisation of `user` with `clicks` at `now` stays within `i64`.
pub fn sync_in_range(user: &GameUser, clicks: i64, now: i64) -> (r: bool)
    ensures
        r == sync_fits(*user, clicks as int, now as int),
{
    let diff = match now.checked_sub(user.last_sync) {
        Some(d) => d,
        None => {
            return false;
        },
    };
    let counted = if clicks <= MAX_CLICKS_PER_SYNC {
        clicks
    } else {
        MAX_CLICKS_PER_SYNC
    };
    let idle = if diff >= 0 {
        diff
    } else {
        0
    };
    let from_clicks = match counted.checked_mul(user.per_click) {
        Some(v) => v,
        None => {
            return false;
        },
    };
    let from_idle = match idle.checked_mul(user.auto_click) {
        Some(v) => v,
        None => {
            return false;
        },
    };
    let total = match from_clicks.checked_add(from_idle) {
        Some(v) => v,
        None => {
            return false;
        },
    };
    user.balance.checked_add(total).is_some()
}

/// Synchronises `user` at `now` after `clicks` clicks: at most a hundred
/// clicks count, each worth `per_click`, and each second since the last
/// synchronisation is worth `auto_click`.
pub fn compute_sync(user: &GameUser, clicks: i64, now: i64) -> (r: SyncResponse)
    requires
        sync_fits(*user, clicks as int, now as int),
    ensures
        r.balance == user.balance + earned(*user, clicks as int, now as int),
        r.last_sync == now,
        clicks <= 100 ==> r.balance == user.balance + clicks * user.per_click + idle_seconds(
            user.last_sync as int,
            now as int,
        ) * user.auto_click,
        clicks > 100 ==> r.balance == user.balance + 100 * user.per_click + idle_seconds(
            user.last_sync as int,
            now as int,
        ) * user.auto_click,
{
    proof {
        lemma_every_click_counts(*user, clicks as int, now as int);
    }
    let counted = if clicks <= MAX_CLICKS_PER_SYNC {
        clicks
    } else {
        MAX_CLICKS_PER_SYNC
    };
    let diff = now - user.last_sync;
    let idle = if diff >= 0 {
        diff
    } else {
        0
    };
    let total_earned = counted * user.per_click + idle * user.auto_click;
    SyncResponse { balance: user.balance + total_earned, last_sync: now }
}

/// Up to a hundred clicks, every click counts at `per_click`; beyond, just a
/// hundred count. Seconds since the last synchronisation count at
/// `auto_click`, and a clock that went back earns nothing.
pub proof fn lemma_every_click_counts(user: GameUser, clicks: int, now: int)
    ensures
        clicks <= 100 ==> earned(user, clicks, now) == clicks * user.per_click + idle_seconds(
            user.last_sync as int,
            now,
        ) * user.auto_click,
        clicks > 100 ==> earned(user, clicks, now) == 100 * user.per_click + idle_seconds(
            user.last_sync as int,
            now,
        ) * user.auto_click,
        0 <= clicks <= 100 ==> earned(user, clicks, user.last_sync as int) == clicks * user.per_click,
        now >= user.last_sync ==> earned(user, 0, now) == (now - user.last_sync) * user.auto_click,
        now < user.last_sync ==> earned(user, clicks, now) == earned(user, clicks, user.last_sync as int),
{
    assert(0 * user.per_click == 0 && 0 * user.auto_click == 0) by (nonlinear_arith);
}

/// Clicks beyond a hundred in one synchronisation earn nothing.
pub proof fn lemma_clicks_capped(user: GameUser, clicks: int, now: int)
    requires
        clicks >= MAX_CLICKS_PER_SYNC,
    ensures
        earned(user, clicks, now) == earned(user, MAX_CLICKS_PER_SYNC as int, now),
{
}

/// A synchronisation with no clicks at the time of the last one changes nothing.
pub proof fn lemma_idle_sync(user: GameUser)
    ensures
        earned(user, 0, user.last_sync as int) == 0,
{
    assert(counted_clicks(0) == 0);
    assert(idle_seconds(user.last_sync as int, user.last_sync as int) == 0);
    assert(0 * user.per_click == 0 && 0 * user.auto_click == 0) by (nonlinear_arith);
}

/// Waiting coins are written only when there are some.
pub fn pending_to_apply(delta: i64) -> (r: bool)
    ensures
        r == (delta > 0),
{
    delta > 0
}

/// The refusal when the account of a token to synchronise is missing.
pub fn user_not_found() -> (e: ApiError)
    ensures
        e.status == Status::NotFound,
        e.message@ == "User not found"@,
{
    api_error(Status::NotFound, "User not found")
}

/// The refusal when the account buying an upgrade is missing.
pub fn buyer_not_found() -> (e: ApiError)
    ensures
        e.status == Status::NotFound,
        e.message@ == "Пользователь не найден"@,
{
    api_error(Status::NotFound, "Пользователь не найден")
}

/// The refusal when the account cannot be read back after a purchase.
pub fn purchase_reload_failed() -> (e: ApiError)
    ensures
        e.status == Status::InternalServerError,
        e.message@ == "Ошибка синхронизации"@,
{
    api_error(Status::InternalServerError, "Ошибка синхронизации")
}

/// The refusal when the account sending coins is missing.
pub fn sender_not_found() -> (e: ApiError)
    ensures
        e.status == Status::Unauthorized,
        e.message@ == "Отправитель не найден"@,
{
    api_error(Status::Unauthorized, "Отправитель не найден")
}

/// The refusal when the account receiving coins could not be credited.
pub fn recipient_not_found() -> (e: ApiError)
    ensures
        e.status == Status::NotFound,
        e.message@ == "Получатель не найден"@,
{
    api_error(Status::NotFound, "Получатель не найден")
}

/// The account a new token starts with.
#[derive(Debug)]
pub struct NewPlayer {
    pub token: String,
    pub first_name: &'static str,
    pub per_click: i64,
    pub auto_click: i64,
    pub balance: i64,
    pub last_sync: i64,
}

/// The account the token `token` gets at `now`: named `Player`, one coin a
/// click, no automatic income, no coins.
pub fn new_player(token: &str, now: i64) -> (p: NewPlayer)
    ensures
        p.token@ == token@,
        p.first_name@ == "Player"@,
        p.per_click == 1,
        p.auto_click == 0,
        p.balance == 0,
        p.last_sync == now,
{
    NewPlayer {
        token: String::from_str(token),
        first_name: "Player",
        per_click: 1,
        auto_click: 0,
        balance: 0,
        last_sync: now,
    }
}

/// What fetching the account of a token comes to: the stored account, or a
/// new one to create.
#[derive(Debug)]
pub enum AccountFetch {
    Found(GameUser),
    Create(NewPlayer),
}

/// Fetch-or-create: an account that the lookup of `token` found is returned
/// as it is; only a token without one gets a new account at `now`.
pub fn fetch_or_create(found: Option<GameUser>, token: &str, now: i64) -> (r: AccountFetch)
    ensures
        (r is Create) == (found is None),
        found matches Some(u) ==> r == AccountFetch::Found(u),
        r matches AccountFetch::Create(p) ==> {
            &&& p.token@ == token@
            &&& p.first_name@ == "Player"@
            &&& p.per_click == 1
            &&& p.auto_click == 0
            &&& p.balance == 0
            &&& p.last_sync == now
        },
{
    match found {
        Some(u) => AccountFetch::Found(u),
        None => AccountFetch::Create(new_player(token, now)),
    }
}

// ---------------------------------------------------------------- upgrades

/// The upgrade to buy, or the refusal of an unknown identifier.
pub fn upgrade_for_purchase(upgrade_id: &str) -> (r: Result<UpgradeInfo, ApiError>)
    ensures
        match upgrade_entry(upgrade_id@) {
            Some(u) => r == Ok::<UpgradeInfo, ApiError>(u),
            None => (r matches Err(e) && e.status == Status::BadRequest && e.message@
                == "Неверный ID апгрейда"@),
        },
{
    match get_upgrade_config(upgrade_id) {
        Some(u) => Ok(u),
        None => Err(api_error(Status::BadRequest, "Неверный ID апгрейда")),
    }
}

/// The level of an upgrade a player has, from its stored row.
pub fn upgrade_level(stored: Option<i32>) -> (level: i32)
    ensures
        level == match stored {
            Some(l) => l,
            None => 0,
        },
{
    match stored {
        Some(l) => l,
        None => 0,
    }
}

/// The statistic of an account that an upgrade raises.
#[derive(PartialEq, Eq, Structural, Clone, Copy, Debug)]
pub enum StatField {
    AutoClick,
    PerClick,
}

impl StatField {
    /// The column of the account that holds the statistic.
    pub fn column(&self) -> (c: &'static str)
        ensures
            *self == StatField::AutoClick ==> c@ == "auto_click"@,
            *self == StatField::PerClick ==> c@ == "per_click"@,
    {
        match self {
            StatField::AutoClick => "auto_click",
            StatField::PerClick => "per_click",
        }
    }
}

/// An upgrade of type `auto` raises automatic income; any other raises the
/// coins per click.
pub fn stat_field(upgrade_type: &str) -> (f: StatField)
    ensures
        f == (if upgrade_type@ == "auto"@ {
            StatField::AutoClick
        } else {
            StatField::PerClick
        }),
{
    if str_eq(upgrade_type, "auto") {
        StatField::AutoClick
    } else {
        StatField::PerClick
    }
}

/// What buying one level of an upgrade does: charge `price` to the account,
/// raise `field` by `increment`, and add a level of `upgrade_id`.
#[derive(Debug)]
pub struct UpgradePurchase {
    pub user_id: i64,
    pub upgrade_id: &'static str,
    pub price: i64,
    pub field: StatField,
    pub increment: i64,
}

/// The purchase of one level of `info` by `user_id` at `price`.
pub fn plan_purchase(user_id: i64, info: &UpgradeInfo, price: i64) -> (p: UpgradePurchase)
    ensures
        p.user_id == user_id,
        p.upgrade_id == info.id,
        p.price == price,
        p.field == (if info.upgrade_type@ == "auto"@ {
            StatField::AutoClick
        } else {
            StatField::PerClick
        }),
        p.increment == info.base_power,
{
    UpgradePurchase {
        user_id,
        upgrade_id: info.id,
        price,
        field: stat_field(info.upgrade_type),
        increment: info.base_power,
    }
}

/// The answer when the balance could not pay for an upgrade.
pub fn purchase_charge_outcome(rows_affected: u64) -> (r: Result<(), ApiError>)
    ensures
        r is Ok <==> rows_affected > 0,
        r matches Err(e) ==> e.status == Status::PaymentRequired && e.message@ == "Недостаточно средств"@,
{
    if rows_affected == 0 {
        return Err(api_error(Status::PaymentRequired, "Недостаточно средств"));
    }
    Ok(())
}

// ---------------------------------------------------------------- leaderboard

/// The key under which the leaderboard is cached.
pub const TOP_USERS_CACHE_KEY: &'static str = "top_users_50";

/// The number of players on the leaderboard.
pub const TOP_USERS_LIMIT: i64 = 50;

/// Seconds the leaderboard is cached.
pub const TOP_USERS_TTL_SECONDS: u64 = 60;

/// The leaderboard line of an account.
pub open spec fn top_item(u: GameUser) -> TopUserItem {
    TopUserItem {
        id: u.id,
        first_name: u.first_name,
        per_click: u.per_click,
        auto_click: u.auto_click,
        balance: u.balance,
    }
}

/// The leaderboard made of `users`, in their order.
pub fn top_users(users: &Vec<GameUser>) -> (t: TopUsers)
    ensures
        t.users@ == users@.map_values(|u: GameUser| top_item(u)),
        t.users@.len() == users@.len(),
        forall|i: int|
            0 <= i < users@.len() ==> {
                &&& (#[trigger] t.users@[i]).id == users@[i].id
                &&& t.users@[i].first_name == users@[i].first_name
                &&& t.users@[i].per_click == users@[i].per_click
                &&& t.users@[i].auto_click == users@[i].auto_click
                &&& t.users@[i].balance == users@[i].balance
            },
{
    let mut items: Vec<TopUserItem> = Vec::new();
    let mut i: usize = 0;
    while i < users.len()
        invariant
            i <= users.len(),
            items@ == users@.take(i as int).map_values(|u: GameUser| top_item(u)),
        decreases users.len() - i,
    {
        let u = &users[i];
        items.push(
            TopUserItem {
                id: u.id,
                first_name: u.first_name.clone(),
                per_click: u.per_click,
                auto_click: u.auto_click,
                balance: u.balance,
            },
        );
        i = i + 1;
        assert(items@ =~= users@.take(i as int).map_values(|u: GameUser| top_item(u)));
    }
    assert(users@.take(i as int) =~= users@);
    TopUsers { users: items }
}

// ---------------------------------------------------------------- transfers

/// A transfer must move a positive amount.
pub fn check_transfer_amount(amount: i64) -> (r: Result<(), ApiError>)
    ensures
        r is Ok <==> amount > 0,
        r matches Err(e) ==> e.status == Status::BadRequest && e.message@ == "Сумма должна быть больше 0"@,
{
    if amount <= 0 {
        return Err(api_error(Status::BadRequest, "Сумма должна быть больше 0"));
    }
    Ok(())
}

/// A transfer to carry out: lock both accounts in the order of their ids,
/// take `amount` from one and give the same `amount` to the other.
#[derive(Debug)]
pub struct TransferPlan {
    pub first_lock: i64,
    pub second_lock: i64,
    pub debit_account: i64,
    pub credit_account: i64,
    pub amount: i64,
}

/// Plans the transfer of `req` from the account `sender_id`; a player cannot
/// send coins to itself.
pub fn plan_transfer(sender_id: i64, req: &TransferReq) -> (r: Result<TransferPlan, ApiError>)
    ensures
        r is Err <==> sender_id == req.recipient,
        r matches Err(e) ==> e.status == Status::BadRequest && e.message@ == "Нельзя переводить самому себе"@,
        r matches Ok(p) ==> {
            &&& p.debit_account == sender_id
            &&& p.credit_account == req.recipient
            &&& p.debit_account != p.credit_account
            &&& p.amount == req.ammount
            &&& p.first_lock < p.second_lock
            &&& p.first_lock == (if sender_id < req.recipient { sender_id } else { req.recipient })
            &&& p.second_lock == (if sender_id < req.recipient { req.recipient } else { sender_id })
        },
{
    if sender_id == req.recipient {
        return Err(api_error(Status::BadRequest, "Нельзя переводить самому себе"));
    }
    let (first_lock, second_lock) = if sender_id < req.recipient {
        (sender_id, req.recipient)
    } else {
        (req.recipient, sender_id)
    };
    Ok(TransferPlan {
        first_lock,
        second_lock,
        debit_account: sender_id,
        credit_account: req.recipient,
        amount: req.ammount,
    })
}

/// Settles a transfer of `amount` from a sender holding `sender_balance`.
pub fn settle_transfer(sender_balance: i64, amount: i64) -> (r: Result<TransferRes, ApiError>)
    requires
        amount > 0,
    ensures
        r is Err <==> sender_balance < amount,
        r matches Err(e) ==> e.status == Status::PaymentRequired && e.message@ == "Недостаточно средств"@,
        r matches Ok(t) ==> t.status@ == "success"@ && t.new_balance == sender_balance - amount,
{
    if sender_balance < amount {
        return Err(api_error(Status::PaymentRequired, "Недостаточно средств"));
    }
    Ok(TransferRes { status: String::from_str("success"), new_balance: sender_balance - amount })
}

// ---------------------------------------------------------------- bearer token

/// The rest of `s` after `prefix` when `s` begins with it, as
/// `str::strip_prefix` gives it.
pub fn strip_prefix<'a>(s: &'a str, prefix: &str) -> (r: Option<&'a str>)
    ensures
        r is Some <==> prefix@.is_prefix_of(s@),
        r matches Some(rest) ==> rest@ == s@.skip(prefix@.len() as int),
{
    let n = s.unicode_len();
    let m = prefix.unicode_len();
    if m > n {
        return None;
    }
    let mut i: usize = 0;
    while i < m
        invariant
            n == s@.len(),
            m == prefix@.len(),
            m <= n,
            i <= m,
            forall|j: int| 0 <= j < i ==> s@[j] == prefix@[j],
        decreases m - i,
    {
        if s.get_char(i) != prefix.get_char(i) {
            assert(!prefix@.is_prefix_of(s@)) by {
                if prefix@.is_prefix_of(s@) {
                    assert(s@.subrange(0, m as int)[i as int] == s@[i as int]);
                }
            }
            return None;
        }
        i = i + 1;
    }
    assert(prefix@ =~= s@.subrange(0, m as int));
    let rest = s.substring_char(m, n);
    assert(rest@ =~= s@.skip(m as int));
    Some(rest)
}

/// The token of a request from the text of its `Authorization` header
/// (`None` where the header is missing or is not visible ASCII): what
/// follows `Bearer `.
pub fn extract_token<'a>(authorization: Option<&'a str>) -> (r: Result<&'a str, ApiError>)
    ensures
        authorization is None ==> (r matches Err(e) && e.status == Status::Unauthorized && e.message@
            == "Missing Authorization header"@),
        authorization matches Some(h) ==> (if "Bearer "@.is_prefix_of(h@) {
            (r matches Ok(t) && t@ == h@.skip(7))
        } else {
            (r matches Err(e) && e.status == Status::BadRequest && e.message@
                == "Invalid Authorization header format"@)
        }),
{
    proof {
        reveal_strlit("Bearer ");
    }
    match authorization {
        None => Err(api_error(Status::Unauthorized, "Missing Authorization header")),
        Some(h) => match strip_prefix(h, "Bearer ") {
            Some(t) => Ok(t),
            None => Err(api_error(Status::BadRequest, "Invalid Authorization header format")),
        },
    }
}

/// The token written after `Bearer ` is the token read back.
pub proof fn lemma_bearer_round_trip(token: Seq<char>)
    ensures
        "Bearer "@.is_prefix_of("Bearer "@ + token),
        ("Bearer "@ + token).skip(7) == token,
{
    reveal_strlit("Bearer ");
    assert(("Bearer "@ + token).skip(7) =~= token);
    assert(("Bearer "@ + token).take(7) =~= "Bearer "@);
}

} // verus!
