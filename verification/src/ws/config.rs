//! Messages of the socket protocol and the records of a raffle.

use vstd::prelude::*;

verus! {

/// A player's stake in a raffle room.
#[derive(Clone, Debug)]
pub struct RafflePlayer {
    pub user_id: i64,
    pub first_name: String,
    pub total_amount: i64,
}

/// The result of a finished raffle.
#[derive(Debug)]
pub struct RaffleRoomWin {
    pub bets: Vec<RafflePlayer>,
    pub winning_ticket: i64,
    pub winning_amount: i64,
    pub winner_id: i64,
    pub winner_first_name: String,
}

/// The state of a raffle room: seconds left, stakes and their total.
#[derive(Debug)]
pub struct RaffleRoom {
    pub time: i32,
    pub bets: Vec<RafflePlayer>,
    pub total_bank: i64,
}

/// A message from a socket client.
#[derive(Debug)]
pub enum WsIncoming {
    Auth { token: String },
    Ping,
    RaffleJoin,
    RaffleBet { ammount: i64 },
    RaffleExit,
}

/// A message to socket clients.
#[derive(Debug)]
pub enum WsOutgoing {
    AuthSuccess,
    Pong,
    RaffleJoinSuccess { players: Vec<RafflePlayer> },
    RaffleUpdate { players: Vec<RafflePlayer>, total_bank: i64, seconds_left: i32 },
    RaffleBetSuccess { new_balance: i64, players: Vec<RafflePlayer> },
    RaffleTime { seconds_left: i32 },
    RaffleFinished {
        winner_id: i64,
        winner_first_name: String,
        winner_img: String,
        win_amount: i64,
        winning_ticket: i64,
    },
    Error { message: String },
}

} // verus!
