//! Game-start records: the UI-level request, the expanded per-side record,
//! its flat wire form, and the queue entries that hold pending starts.

use vstd::prelude::*;
use crate::types::{Amount, GameID, GameType, Program, Timeout};

verus! {

/// A UI-level request to open one or more games of a given type.
#[derive(Debug, PartialEq, Eq)]
pub struct GameStart {
    pub game_type: GameType,
    pub timeout: Timeout,
    pub amount: Amount,
    pub my_contribution: Amount,
    pub my_turn: bool,
    pub parameters: Vec<u8>,
}

pub struct GameStartV {
    pub game_type: Seq<u8>,
    pub timeout: u64,
    pub amount: u64,
    pub my_contribution: u64,
    pub my_turn: bool,
    pub parameters: Seq<u8>,
}

impl View for GameStart {
    type V = GameStartV;

    open spec fn view(&self) -> GameStartV {
        GameStartV {
            game_type: self.game_type@,
            timeout: self.timeout@,
            amount: self.amount@,
            my_contribution: self.my_contribution@,
            my_turn: self.my_turn,
            parameters: self.parameters@,
        }
    }
}

impl Clone for GameStart {
    fn clone(&self) -> (r: Self)
        ensures
            r@ == self@,
    {
        let r = GameStart {
            game_type: self.game_type.clone(),
            timeout: self.timeout,
            amount: self.amount,
            my_contribution: self.my_contribution,
            my_turn: self.my_turn,
            parameters: self.parameters.clone(),
        };
        proof {
            assert(r.parameters@ =~= self.parameters@);
        }
        r
    }
}

/// An expanded per-side game record: a fresh id, the caller's timeout,
/// whose turn it is, and the opaque rule data the channel handler consumes.
#[derive(Debug, PartialEq, Eq)]
pub struct GameStartInfo {
    pub game_id: GameID,
    pub timeout: Timeout,
    pub my_turn: bool,
    pub rule_data: Program,
}

pub struct GameStartInfoV {
    pub game_id: Seq<u8>,
    pub timeout: u64,
    pub my_turn: bool,
    pub rule_data: Seq<u8>,
}

impl View for GameStartInfo {
    type V = GameStartInfoV;

    open spec fn view(&self) -> GameStartInfoV {
        GameStartInfoV {
            game_id: self.game_id@,
            timeout: self.timeout@,
            my_turn: self.my_turn,
            rule_data: self.rule_data@,
        }
    }
}

impl Clone for GameStartInfo {
    fn clone(&self) -> (r: Self)
        ensures
            r@ == self@,
    {
        GameStartInfo {
            game_id: self.game_id.clone(),
            timeout: self.timeout,
            my_turn: self.my_turn,
            rule_data: self.rule_data.clone(),
        }
    }
}

/// The flat wire form of a `GameStartInfo`.
#[derive(Debug, PartialEq, Eq)]
pub struct FlatGameStartInfo {
    pub game_id: GameID,
    pub timeout: Timeout,
    pub my_turn: bool,
    pub rule_data: Program,
}

pub struct FlatGameStartInfoV {
    pub game_id: Seq<u8>,
    pub timeout: u64,
    pub my_turn: bool,
    pub rule_data: Seq<u8>,
}

impl View for FlatGameStartInfo {
    type V = FlatGameStartInfoV;

    open spec fn view(&self) -> FlatGameStartInfoV {
        FlatGameStartInfoV {
            game_id: self.game_id@,
            timeout: self.timeout@,
            my_turn: self.my_turn,
            rule_data: self.rule_data@,
        }
    }
}

impl Clone for FlatGameStartInfo {
    fn clone(&self) -> (r: Self)
        ensures
            r@ == self@,
    {
        FlatGameStartInfo {
            game_id: self.game_id.clone(),
            timeout: self.timeout,
            my_turn: self.my_turn,
            rule_data: self.rule_data.clone(),
        }
    }
}

/// What dehydration yields of an expanded record.
pub open spec fn spec_dehydrate(g: GameStartInfoV) -> FlatGameStartInfoV {
    FlatGameStartInfoV {
        game_id: g.game_id,
        timeout: g.timeout,
        my_turn: g.my_turn,
        rule_data: g.rule_data,
    }
}

/// What rehydration yields of a flat record.
pub open spec fn spec_rehydrate(f: FlatGameStartInfoV) -> GameStartInfoV {
    GameStartInfoV {
        game_id: f.game_id,
        timeout: f.timeout,
        my_turn: f.my_turn,
        rule_data: f.rule_data,
    }
}

/// Dehydrating and rehydrating are inverse to each other, in both directions.
pub proof fn lemma_game_start_info_round_trip(g: GameStartInfoV, f: FlatGameStartInfoV)
    ensures
        spec_rehydrate(spec_dehydrate(g)) == g,
        spec_dehydrate(spec_rehydrate(f)) == f,
{
}

impl GameStartInfo {
    /// Flatten for the wire.
    pub fn to_serializable(&self) -> (r: FlatGameStartInfo)
        ensures
            r@ == spec_dehydrate(self@),
    {
        FlatGameStartInfo {
            game_id: self.game_id.clone(),
            timeout: self.timeout,
            my_turn: self.my_turn,
            rule_data: self.rule_data.clone(),
        }
    }

    /// Rebuild from the wire form.
    pub fn from_serializable(flat: &FlatGameStartInfo) -> (r: GameStartInfo)
        ensures
            r@ == spec_rehydrate(flat@),
    {
        GameStartInfo {
            game_id: flat.game_id.clone(),
            timeout: flat.timeout,
            my_turn: flat.my_turn,
            rule_data: flat.rule_data.clone(),
        }
    }
}

/// A start request together with the ids it was assigned; kept for callers
/// that mirror a start over another channel.
#[derive(Debug, PartialEq, Eq)]
pub struct WireGameStart {
    pub game_ids: Vec<GameID>,
    pub start: GameStart,
}

/// The sentinel queued when the peer announces an upcoming start.
#[derive(Debug, PartialEq, Eq)]
pub struct GameStartQueueEntry;

impl Clone for GameStartQueueEntry {
    fn clone(&self) -> (r: Self)
        ensures
            r == *self,
    {
        GameStartQueueEntry
    }
}

/// An outbound pending start: both expanded side-lists.
#[derive(Debug, PartialEq, Eq)]
pub struct MyGameStartQueueEntry {
    pub my_games: Vec<GameStartInfo>,
    pub their_games: Vec<GameStartInfo>,
}

pub struct MyGameStartQueueEntryV {
    pub my_games: Seq<GameStartInfoV>,
    pub their_games: Seq<GameStartInfoV>,
}

impl View for MyGameStartQueueEntry {
    type V = MyGameStartQueueEntryV;

    open spec fn view(&self) -> MyGameStartQueueEntryV {
        MyGameStartQueueEntryV {
            my_games: self.my_games@.map(|i: int, g: GameStartInfo| g@),
            their_games: self.their_games@.map(|i: int, g: GameStartInfo| g@),
        }
    }
}

} // verus!
