//! The shapes of the game's requests, replies and records, and the catalogue
//! of upgrades that can be bought.

use vstd::prelude::*;
use crate::decimal::digit_char;
use crate::error::str_eq;

verus! {

/// An upgrade on sale. Its price grows by `price_growth_permille / 1000` with
/// each level already bought.
#[derive(Clone, Copy, Debug)]
pub struct UpgradeInfo {
    pub id: &'static str,
    pub name: &'static str,
    pub upgrade_type: &'static str,
    pub base_price: i64,
    pub base_power: i64,
    pub price_growth_permille: i64,
}

/// The catalogue entry with identifier `id`, if there is one.
pub open spec fn upgrade_entry(id: Seq<char>) -> Option<UpgradeInfo> {
    if id == "gpu_1"@ {
        Some(UpgradeInfo { id: "gpu_1", name: "GT 710", upgrade_type: "auto", base_price: 16, base_power: 1, price_growth_permille: 1600 })
    } else if id == "gpu_2"@ {
        Some(UpgradeInfo { id: "gpu_2", name: "GTX 1050 Ti", upgrade_type: "auto", base_price: 256, base_power: 8, price_growth_permille: 1600 })
    } else if id == "gpu_3"@ {
        Some(UpgradeInfo { id: "gpu_3", name: "RTX 2060 Super", upgrade_type: "auto", base_price: 4096, base_power: 64, price_growth_permille: 1600 })
    } else if id == "gpu_4"@ {
        Some(UpgradeInfo { id: "gpu_4", name: "RTX 4070 Ti", upgrade_type: "auto", base_price: 65536, base_power: 512, price_growth_permille: 1600 })
    } else if id == "gpu_5"@ {
        Some(UpgradeInfo { id: "gpu_5", name: "RTX 4090 OC", upgrade_type: "auto", base_price: 1048576, base_power: 4096, price_growth_permille: 1600 })
    } else if id == "gpu_6"@ {
        Some(UpgradeInfo { id: "gpu_6", name: "Antminer S21 Pro", upgrade_type: "auto", base_price: 16777216, base_power: 32768, price_growth_permille: 1600 })
    } else if id == "gpu_7"@ {
        Some(UpgradeInfo { id: "gpu_7", name: "RTX 5090 Ti Prototype", upgrade_type: "auto", base_price: 268435456, base_power: 262144, price_growth_permille: 1600 })
    } else if id == "cpu_1"@ {
        Some(UpgradeInfo { id: "cpu_1", name: "Intel Celeron", upgrade_type: "auto", base_price: 32, base_power: 1, price_growth_permille: 1600 })
    } else if id == "cpu_2"@ {
        Some(UpgradeInfo { id: "cpu_2", name: "Core i3-10100", upgrade_type: "auto", base_price: 512, base_power: 8, price_growth_permille: 1600 })
    } else if id == "cpu_3"@ {
        Some(UpgradeInfo { id: "cpu_3", name: "Core i7-13700K", upgrade_type: "auto", base_price: 8192, base_power: 64, price_growth_permille: 1600 })
    } else if id == "cpu_4"@ {
        Some(UpgradeInfo { id: "cpu_4", name: "Ryzen 9 7950X", upgrade_type: "auto", base_price: 131072, base_power: 512, price_growth_permille: 1600 })
    } else if id == "cpu_5"@ {
        Some(UpgradeInfo { id: "cpu_5", name: "Threadripper 3990X", upgrade_type: "auto", base_price: 2097152, base_power: 4096, price_growth_permille: 1600 })
    } else if id == "cpu_6"@ {
        Some(UpgradeInfo { id: "cpu_6", name: "Quantum Cluster", upgrade_type: "auto", base_price: 33554432, base_power: 32768, price_growth_permille: 1600 })
    } else if id == "cpu_7"@ {
        Some(UpgradeInfo { id: "cpu_7", name: "EPYC 9654 Farm", upgrade_type: "auto", base_price: 536870912, base_power: 262144, price_growth_permille: 1600 })
    } else if id == "mouse_1"@ {
        Some(UpgradeInfo { id: "mouse_1", name: "Офисная мышь", upgrade_type: "click", base_price: 64, base_power: 1, price_growth_permille: 1600 })
    } else if id == "mouse_2"@ {
        Some(UpgradeInfo { id: "mouse_2", name: "Игровая X7", upgrade_type: "click", base_price: 1024, base_power: 8, price_growth_permille: 1600 })
    } else if id == "mouse_3"@ {
        Some(UpgradeInfo { id: "mouse_3", name: "Logitech G502", upgrade_type: "click", base_price: 16384, base_power: 64, price_growth_permille: 1600 })
    } else if id == "mouse_4"@ {
        Some(UpgradeInfo { id: "mouse_4", name: "Razer DeathAdder", upgrade_type: "click", base_price: 262144, base_power: 512, price_growth_permille: 1600 })
    } else if id == "mouse_5"@ {
        Some(UpgradeInfo { id: "mouse_5", name: "Custom Clicker v2", upgrade_type: "click", base_price: 4194304, base_power: 4096, price_growth_permille: 1600 })
    } else if id == "mouse_6"@ {
        Some(UpgradeInfo { id: "mouse_6", name: "Neural Link", upgrade_type: "click", base_price: 67108864, base_power: 32768, price_growth_permille: 1600 })
    } else if id == "mouse_7"@ {
        Some(UpgradeInfo { id: "mouse_7", name: "Telepathic Command", upgrade_type: "click", base_price: 173741824, base_power: 262144, price_growth_permille: 1600 })
    } else {
        None
    }
}

/// Looks `id` up in the catalogue of upgrades.
pub fn get_upgrade_config(id: &str) -> (r: Option<UpgradeInfo>)
    ensures
        r == upgrade_entry(id@),
{
    if str_eq(id, "gpu_1") {
        return Some(UpgradeInfo { id: "gpu_1", name: "GT 710", upgrade_type: "auto", base_price: 16, base_power: 1, price_growth_permille: 1600 });
    }
    if str_eq(id, "gpu_2") {
        return Some(UpgradeInfo { id: "gpu_2", name: "GTX 1050 Ti", upgrade_type: "auto", base_price: 256, base_power: 8, price_growth_permille: 1600 });
    }
    if str_eq(id, "gpu_3") {
        return Some(UpgradeInfo { id: "gpu_3", name: "RTX 2060 Super", upgrade_type: "auto", base_price: 4096, base_power: 64, price_growth_permille: 1600 });
    }
    if str_eq(id, "gpu_4") {
        return Some(UpgradeInfo { id: "gpu_4", name: "RTX 4070 Ti", upgrade_type: "auto", base_price: 65536, base_power: 512, price_growth_permille: 1600 });
    }
    if str_eq(id, "gpu_5") {
        return Some(UpgradeInfo { id: "gpu_5", name: "RTX 4090 OC", upgrade_type: "auto", base_price: 1048576, base_power: 4096, price_growth_permille: 1600 });
    }
    if str_eq(id, "gpu_6") {
        return Some(UpgradeInfo { id: "gpu_6", name: "Antminer S21 Pro", upgrade_type: "auto", base_price: 16777216, base_power: 32768, price_growth_permille: 1600 });
    }
    if str_eq(id, "gpu_7") {
        return Some(UpgradeInfo { id: "gpu_7", name: "RTX 5090 Ti Prototype", upgrade_type: "auto", base_price: 268435456, base_power: 262144, price_growth_permille: 1600 });
    }
    if str_eq(id, "cpu_1") {
        return Some(UpgradeInfo { id: "cpu_1", name: "Intel Celeron", upgrade_type: "auto", base_price: 32, base_power: 1, price_growth_permille: 1600 });
    }
    if str_eq(id, "cpu_2") {
        return Some(UpgradeInfo { id: "cpu_2", name: "Core i3-10100", upgrade_type: "auto", base_price: 512, base_power: 8, price_growth_permille: 1600 });
    }
    if str_eq(id, "cpu_3") {
        return Some(UpgradeInfo { id: "cpu_3", name: "Core i7-13700K", upgrade_type: "auto", base_price: 8192, base_power: 64, price_growth_permille: 1600 });
    }
    if str_eq(id, "cpu_4") {
        return Some(UpgradeInfo { id: "cpu_4", name: "Ryzen 9 7950X", upgrade_type: "auto", base_price: 131072, base_power: 512, price_growth_permille: 1600 });
    }
    if str_eq(id, "cpu_5") {
        return Some(UpgradeInfo { id: "cpu_5", name: "Threadripper 3990X", upgrade_type: "auto", base_price: 2097152, base_power: 4096, price_growth_permille: 1600 });
    }
    if str_eq(id, "cpu_6") {
        return Some(UpgradeInfo { id: "cpu_6", name: "Quantum Cluster", upgrade_type: "auto", base_price: 33554432, base_power: 32768, price_growth_permille: 1600 });
    }
    if str_eq(id, "cpu_7") {
        return Some(UpgradeInfo { id: "cpu_7", name: "EPYC 9654 Farm", upgrade_type: "auto", base_price: 536870912, base_power: 262144, price_growth_permille: 1600 });
    }
    if str_eq(id, "mouse_1") {
        return Some(UpgradeInfo { id: "mouse_1", name: "Офисная мышь", upgrade_type: "click", base_price: 64, base_power: 1, price_growth_permille: 1600 });
    }
    if str_eq(id, "mouse_2") {
        return Some(UpgradeInfo { id: "mouse_2", name: "Игровая X7", upgrade_type: "click", base_price: 1024, base_power: 8, price_growth_permille: 1600 });
    }
    if str_eq(id, "mouse_3") {
        return Some(UpgradeInfo { id: "mouse_3", name: "Logitech G502", upgrade_type: "click", base_price: 16384, base_power: 64, price_growth_permille: 1600 });
    }
    if str_eq(id, "mouse_4") {
        return Some(UpgradeInfo { id: "mouse_4", name: "Razer DeathAdder", upgrade_type: "click", base_price: 262144, base_power: 512, price_growth_permille: 1600 });
    }
    if str_eq(id, "mouse_5") {
        return Some(UpgradeInfo { id: "mouse_5", name: "Custom Clicker v2", upgrade_type: "click", base_price: 4194304, base_power: 4096, price_growth_permille: 1600 });
    }
    if str_eq(id, "mouse_6") {
        return Some(UpgradeInfo { id: "mouse_6", name: "Neural Link", upgrade_type: "click", base_price: 67108864, base_power: 32768, price_growth_permille: 1600 });
    }
    if str_eq(id, "mouse_7") {
        return Some(UpgradeInfo { id: "mouse_7", name: "Telepathic Command", upgrade_type: "click", base_price: 173741824, base_power: 262144, price_growth_permille: 1600 });
    }
    None
}

/// The name of the category `c` of the catalogue: graphics cards, processors
/// and mice.
pub open spec fn category_name(c: int) -> Seq<char> {
    if c == 0 {
        "gpu"@
    } else if c == 1 {
        "cpu"@
    } else {
        "mouse"@
    }
}

/// The identifier of level-`n` upgrade of category `c`: `{category}_{n}`.
pub open spec fn catalogue_id(c: int, n: int) -> Seq<char> {
    category_name(c) + seq!['_', digit_char(n as nat)]
}

/// Whether `id` names one of the seven upgrades of one of the three categories.
pub open spec fn is_catalogue_id(id: Seq<char>) -> bool {
    exists|c: int, n: int| 0 <= c < 3 && 1 <= n <= 7 && id == #[trigger] catalogue_id(c, n)
}

/// `b` to the power `e`.
pub open spec fn int_pow(b: int, e: nat) -> int
    decreases e,
{
    if e == 0 {
        1
    } else {
        b * int_pow(b, (e - 1) as nat)
    }
}

/// The price of the first upgrade of category `c`.
pub open spec fn category_base_price(c: int) -> int {
    if c == 0 {
        16
    } else if c == 1 {
        32
    } else {
        64
    }
}

/// The literal identifiers of the catalogue are its `{category}_{n}` names.
proof fn lemma_catalogue_literals()
    ensures
        "gpu_1"@ == catalogue_id(0, 1),
        "gpu_2"@ == catalogue_id(0, 2),
        "gpu_3"@ == catalogue_id(0, 3),
        "gpu_4"@ == catalogue_id(0, 4),
        "gpu_5"@ == catalogue_id(0, 5),
        "gpu_6"@ == catalogue_id(0, 6),
        "gpu_7"@ == catalogue_id(0, 7),
        "cpu_1"@ == catalogue_id(1, 1),
        "cpu_2"@ == catalogue_id(1, 2),
        "cpu_3"@ == catalogue_id(1, 3),
        "cpu_4"@ == catalogue_id(1, 4),
        "cpu_5"@ == catalogue_id(1, 5),
        "cpu_6"@ == catalogue_id(1, 6),
        "cpu_7"@ == catalogue_id(1, 7),
        "mouse_1"@ == catalogue_id(2, 1),
        "mouse_2"@ == catalogue_id(2, 2),
        "mouse_3"@ == catalogue_id(2, 3),
        "mouse_4"@ == catalogue_id(2, 4),
        "mouse_5"@ == catalogue_id(2, 5),
        "mouse_6"@ == catalogue_id(2, 6),
        "mouse_7"@ == catalogue_id(2, 7),
{
    reveal_strlit("gpu");
    reveal_strlit("cpu");
    reveal_strlit("mouse");
    reveal_strlit("gpu_1");
    reveal_strlit("gpu_2");
    reveal_strlit("gpu_3");
    reveal_strlit("gpu_4");
    reveal_strlit("gpu_5");
    reveal_strlit("gpu_6");
    reveal_strlit("gpu_7");
    reveal_strlit("cpu_1");
    reveal_strlit("cpu_2");
    reveal_strlit("cpu_3");
    reveal_strlit("cpu_4");
    reveal_strlit("cpu_5");
    reveal_strlit("cpu_6");
    reveal_strlit("cpu_7");
    reveal_strlit("mouse_1");
    reveal_strlit("mouse_2");
    reveal_strlit("mouse_3");
    reveal_strlit("mouse_4");
    reveal_strlit("mouse_5");
    reveal_strlit("mouse_6");
    reveal_strlit("mouse_7");
    assert("gpu_1"@ =~= catalogue_id(0, 1));
    assert("gpu_2"@ =~= catalogue_id(0, 2));
    assert("gpu_3"@ =~= catalogue_id(0, 3));
    assert("gpu_4"@ =~= catalogue_id(0, 4));
    assert("gpu_5"@ =~= catalogue_id(0, 5));
    assert("gpu_6"@ =~= catalogue_id(0, 6));
    assert("gpu_7"@ =~= catalogue_id(0, 7));
    assert("cpu_1"@ =~= catalogue_id(1, 1));
    assert("cpu_2"@ =~= catalogue_id(1, 2));
    assert("cpu_3"@ =~= catalogue_id(1, 3));
    assert("cpu_4"@ =~= catalogue_id(1, 4));
    assert("cpu_5"@ =~= catalogue_id(1, 5));
    assert("cpu_6"@ =~= catalogue_id(1, 6));
    assert("cpu_7"@ =~= catalogue_id(1, 7));
    assert("mouse_1"@ =~= catalogue_id(2, 1));
    assert("mouse_2"@ =~= catalogue_id(2, 2));
    assert("mouse_3"@ =~= catalogue_id(2, 3));
    assert("mouse_4"@ =~= catalogue_id(2, 4));
    assert("mouse_5"@ =~= catalogue_id(2, 5));
    assert("mouse_6"@ =~= catalogue_id(2, 6));
    assert("mouse_7"@ =~= catalogue_id(2, 7));
}

/// Different categories or levels give different identifiers.
proof fn lemma_catalogue_ids_differ(c1: int, n1: int, c2: int, n2: int)
    requires
        0 <= c1 < 3,
        1 <= n1 <= 7,
        0 <= c2 < 3,
        1 <= n2 <= 7,
        c1 != c2 || n1 != n2,
    ensures
        catalogue_id(c1, n1) != catalogue_id(c2, n2),
{
    reveal_strlit("gpu");
    reveal_strlit("cpu");
    reveal_strlit("mouse");
    let a = catalogue_id(c1, n1);
    let b = catalogue_id(c2, n2);
    if c1 == c2 {
        assert(a[a.len() - 1] != b[b.len() - 1]);
    } else if a.len() == b.len() {
        assert(a[0] != b[0]);
    }
}

/// The catalogue holds exactly the seven levels of graphics cards,
/// processors and mice. Level `n` of a category is worth `8^(n-1)`; it costs
/// `16^(n-1)` times 16, 32 or 64 by category, except the seventh mouse,
/// priced 173741824; mice raise clicks and the rest raise automatic income;
/// every price grows by 1.6 a level.
pub proof fn lemma_catalogue_pattern(c: int, n: int)
    requires
        0 <= c < 3,
        1 <= n <= 7,
    ensures
        upgrade_entry(catalogue_id(c, n)) is Some,
        ({
            let u = upgrade_entry(catalogue_id(c, n))->0;
            &&& u.id@ == catalogue_id(c, n)
            &&& u.upgrade_type@ == (if c == 2 { "click"@ } else { "auto"@ })
            &&& u.price_growth_permille == 1600
            &&& u.base_power == int_pow(8, (n - 1) as nat)
            &&& u.base_price == (if c == 2 && n == 7 {
                173741824
            } else {
                category_base_price(c) * int_pow(16, (n - 1) as nat)
            })
        }),
{
    lemma_catalogue_literals();
    assert forall|c2: int, n2: int|
        0 <= c2 < 3 && 1 <= n2 <= 7 && (c2 != c || n2 != n) implies catalogue_id(c, n)
        != #[trigger] catalogue_id(c2, n2) by {
        lemma_catalogue_ids_differ(c, n, c2, n2);
    }
    reveal_strlit("click");
    reveal_strlit("auto");
    reveal_with_fuel(int_pow, 7);
}

/// An identifier is in the catalogue exactly when it is one of the
/// `{category}_{n}` names.
pub proof fn lemma_catalogue_ids(id: Seq<char>)
    ensures
        upgrade_entry(id) is Some <==> is_catalogue_id(id),
{
    lemma_catalogue_literals();
    if is_catalogue_id(id) {
        let (c, n) = choose|c: int, n: int| 0 <= c < 3 && 1 <= n <= 7 && id == #[trigger] catalogue_id(c, n);
        lemma_catalogue_pattern(c, n);
    }
}

/// A player's account.
#[derive(Clone, Debug)]
pub struct GameUser {
    pub id: i64,
    pub token: String,
    pub first_name: String,
    pub per_click: i64,
    pub auto_click: i64,
    pub balance: i64,
    pub last_sync: i64,
}

/// A batch of clicks sent by the client.
pub struct ClickPayload {
    pub data: i64,
}

/// The balance after a synchronisation and the time it was made.
#[derive(Clone, Copy, Debug)]
pub struct SyncResponse {
    pub balance: i64,
    pub last_sync: i64,
}

/// A request to buy one level of an upgrade.
pub struct BuyUpgradePayload {
    pub upgrade_id: String,
}

/// One line of the leaderboard.
#[derive(Clone, Debug)]
pub struct TopUserItem {
    pub id: i64,
    pub first_name: String,
    pub per_click: i64,
    pub auto_click: i64,
    pub balance: i64,
}

/// The leaderboard, richest first.
#[derive(Clone, Debug)]
pub struct TopUsers {
    pub users: Vec<TopUserItem>,
}

/// A request to send `ammount` coins to the player `recipient`.
pub struct TransferReq {
    pub ammount: i64,
    pub recipient: i64,
}

/// The answer to an accepted transfer.
#[derive(Debug)]
pub struct TransferRes {
    pub status: String,
    pub new_balance: i64,
}

/// A message from a socket client, in the basic protocol that knows only
/// authentication and ping.
pub enum WsIncoming {
    Auth { token: String },
    Ping,
}

/// A message to a socket client, in the basic protocol.
pub enum WsOutgoing {
    AuthSuccess,
    Pong,
    Error { message: String },
}

/// A movement of a service's balance, with its direction as text.
pub struct ServiceHistoryItem {
    pub id: i64,
    pub uuid: String,
    pub status: String,
    pub ammount: i64,
    pub date: i64,
}

/// A newly created service, without its creator or callback address.
pub struct ServiceCreateRes {
    pub uuid: String,
    pub first_name: String,
    pub description: String,
    pub balance: i64,
    pub history: Vec<ServiceHistoryItem>,
    pub url_img: String,
    pub reg_date: i64,
}

/// A request to create a service, without a callback address.
pub struct ServiceCreateReq {
    pub name: String,
    pub url_img: String,
}

} // verus!
