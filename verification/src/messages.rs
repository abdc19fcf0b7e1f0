//! The wire-level tagged union exchanged between the two peers, and the
//! handshake payloads it carries.

use vstd::prelude::*;
use crate::types::{
    Aggsig,
    Amount,
    CoinString,
    CoinStringV,
    GameID,
    MoveResult,
    PotatoSignatures,
    PotatoSignaturesV,
    PublicKey,
    PuzzleHash,
    SpendBundle,
    SpendBundleV,
};
use crate::game_start::{FlatGameStartInfo, FlatGameStartInfoV};

verus! {

/// Each peer's public key bundle, exchanged once per peer.
#[derive(Debug, PartialEq, Eq)]
pub struct HandshakeB {
    pub channel_public_key: PublicKey,
    pub unroll_public_key: PublicKey,
    pub reward_puzzle_hash: PuzzleHash,
    pub referee_puzzle_hash: PuzzleHash,
}

pub struct HandshakeBV {
    pub channel_public_key: Seq<u8>,
    pub unroll_public_key: Seq<u8>,
    pub reward_puzzle_hash: Seq<u8>,
    pub referee_puzzle_hash: Seq<u8>,
}

impl View for HandshakeB {
    type V = HandshakeBV;

    open spec fn view(&self) -> HandshakeBV {
        HandshakeBV {
            channel_public_key: self.channel_public_key@,
            unroll_public_key: self.unroll_public_key@,
            reward_puzzle_hash: self.reward_puzzle_hash@,
            referee_puzzle_hash: self.referee_puzzle_hash@,
        }
    }
}

impl Clone for HandshakeB {
    fn clone(&self) -> (r: Self)
        ensures
            r@ == self@,
    {
        HandshakeB {
            channel_public_key: self.channel_public_key.clone(),
            unroll_public_key: self.unroll_public_key.clone(),
            reward_puzzle_hash: self.reward_puzzle_hash.clone(),
            referee_puzzle_hash: self.referee_puzzle_hash.clone(),
        }
    }
}

/// The first peer's open announcement: the parent coin that funds the
/// channel, and the announcer's key bundle.
#[derive(Debug, PartialEq, Eq)]
pub struct HandshakeA {
    pub parent: CoinString,
    pub simple: HandshakeB,
}

pub struct HandshakeAV {
    pub parent: CoinStringV,
    pub simple: HandshakeBV,
}

impl View for HandshakeA {
    type V = HandshakeAV;

    open spec fn view(&self) -> HandshakeAV {
        HandshakeAV { parent: self.parent@, simple: self.simple@ }
    }
}

impl Clone for HandshakeA {
    fn clone(&self) -> (r: Self)
        ensures
            r@ == self@,
    {
        HandshakeA { parent: self.parent.clone(), simple: self.simple.clone() }
    }
}

/// The peer-message union.
///
/// `Shutdown` is kept in the union for wire compatibility, but this
/// coordinator settles a shutdown by submitting the spend through the
/// wallet instead of sending the message; receiving one is treated as an
/// unexpected message.
#[derive(Debug, PartialEq, Eq)]
pub enum PeerMessage {
    HandshakeA(HandshakeA),
    HandshakeB(HandshakeB),
    /// Includes the spend of the launcher coin.
    HandshakeE { bundle: SpendBundle },
    HandshakeF { bundle: SpendBundle },
    Nil(PotatoSignatures),
    Move(GameID, MoveResult),
    Accept(GameID, Amount, PotatoSignatures),
    Shutdown(Aggsig),
    RequestPotato(()),
    StartGames(PotatoSignatures, Vec<FlatGameStartInfo>),
}

pub enum PeerMessageV {
    HandshakeA(HandshakeAV),
    HandshakeB(HandshakeBV),
    HandshakeE { bundle: SpendBundleV },
    HandshakeF { bundle: SpendBundleV },
    Nil(PotatoSignaturesV),
    Move(Seq<u8>, Seq<u8>),
    Accept(Seq<u8>, u64, PotatoSignaturesV),
    Shutdown(Seq<u8>),
    RequestPotato,
    StartGames(PotatoSignaturesV, Seq<FlatGameStartInfoV>),
}

impl View for PeerMessage {
    type V = PeerMessageV;

    open spec fn view(&self) -> PeerMessageV {
        match self {
            PeerMessage::HandshakeA(a) => PeerMessageV::HandshakeA(a@),
            PeerMessage::HandshakeB(b) => PeerMessageV::HandshakeB(b@),
            PeerMessage::HandshakeE { bundle } => PeerMessageV::HandshakeE { bundle: bundle@ },
            PeerMessage::HandshakeF { bundle } => PeerMessageV::HandshakeF { bundle: bundle@ },
            PeerMessage::Nil(sigs) => PeerMessageV::Nil(sigs@),
            PeerMessage::Move(id, m) => PeerMessageV::Move(id@, m@),
            PeerMessage::Accept(id, amount, sigs) => PeerMessageV::Accept(id@, amount@, sigs@),
            PeerMessage::Shutdown(sig) => PeerMessageV::Shutdown(sig@),
            PeerMessage::RequestPotato(_) => PeerMessageV::RequestPotato,
            PeerMessage::StartGames(sigs, games) => PeerMessageV::StartGames(
                sigs@,
                games@.map(|i: int, g: FlatGameStartInfo| g@),
            ),
        }
    }
}

/// Whether a message carries the potato: its receiver becomes the holder.
pub open spec fn is_potato_message(m: PeerMessageV) -> bool {
    match m {
        PeerMessageV::Nil(_) => true,
        PeerMessageV::Move(_, _) => true,
        PeerMessageV::Accept(_, _, _) => true,
        PeerMessageV::StartGames(_, _) => true,
        _ => false,
    }
}

/// Snapshot of both peers' handshake data, carried from the middle steps on.
#[derive(Debug, PartialEq, Eq)]
pub struct HandshakeStepInfo {
    pub first_player_hs_info: HandshakeA,
    pub second_player_hs_info: HandshakeB,
}

pub struct HandshakeStepInfoV {
    pub first: HandshakeAV,
    pub second: HandshakeBV,
}

impl View for HandshakeStepInfo {
    type V = HandshakeStepInfoV;

    open spec fn view(&self) -> HandshakeStepInfoV {
        HandshakeStepInfoV {
            first: self.first_player_hs_info@,
            second: self.second_player_hs_info@,
        }
    }
}

impl Clone for HandshakeStepInfo {
    fn clone(&self) -> (r: Self)
        ensures
            r@ == self@,
    {
        HandshakeStepInfo {
            first_player_hs_info: self.first_player_hs_info.clone(),
            second_player_hs_info: self.second_player_hs_info.clone(),
        }
    }
}

/// The finished handshake: the step snapshot plus the channel spend bundle.
#[derive(Debug, PartialEq, Eq)]
pub struct HandshakeStepWithSpend {
    pub info: HandshakeStepInfo,
    pub spend: SpendBundle,
}

pub struct HandshakeStepWithSpendV {
    pub info: HandshakeStepInfoV,
    pub spend: SpendBundleV,
}

impl View for HandshakeStepWithSpend {
    type V = HandshakeStepWithSpendV;

    open spec fn view(&self) -> HandshakeStepWithSpendV {
        HandshakeStepWithSpendV { info: self.info@, spend: self.spend@ }
    }
}

impl Clone for HandshakeStepWithSpend {
    fn clone(&self) -> (r: Self)
        ensures
            r@ == self@,
    {
        HandshakeStepWithSpend { info: self.info.clone(), spend: self.spend.clone() }
    }
}

/// The nine handshake states.  The initiator walks A, C, E, PostE to
/// Finished; the other peer walks B, D, F, PostF to Finished.
#[derive(Debug)]
pub enum HandshakeState {
    StepA,
    StepB,
    StepC(CoinString, HandshakeA),
    StepD(HandshakeStepInfo),
    StepE(HandshakeStepInfo),
    PostStepE(HandshakeStepInfo),
    StepF(HandshakeStepInfo),
    PostStepF(HandshakeStepInfo),
    Finished(HandshakeStepWithSpend),
}

pub enum HandshakeStateV {
    StepA,
    StepB,
    StepC(CoinStringV, HandshakeAV),
    StepD(HandshakeStepInfoV),
    StepE(HandshakeStepInfoV),
    PostStepE(HandshakeStepInfoV),
    StepF(HandshakeStepInfoV),
    PostStepF(HandshakeStepInfoV),
    Finished(HandshakeStepWithSpendV),
}

impl View for HandshakeState {
    type V = HandshakeStateV;

    open spec fn view(&self) -> HandshakeStateV {
        match self {
            HandshakeState::StepA => HandshakeStateV::StepA,
            HandshakeState::StepB => HandshakeStateV::StepB,
            HandshakeState::StepC(c, a) => HandshakeStateV::StepC(c@, a@),
            HandshakeState::StepD(i) => HandshakeStateV::StepD(i@),
            HandshakeState::StepE(i) => HandshakeStateV::StepE(i@),
            HandshakeState::PostStepE(i) => HandshakeStateV::PostStepE(i@),
            HandshakeState::StepF(i) => HandshakeStateV::StepF(i@),
            HandshakeState::PostStepF(i) => HandshakeStateV::PostStepF(i@),
            HandshakeState::Finished(i) => HandshakeStateV::Finished(i@),
        }
    }
}

/// Each state's position along its peer's path; the handshake may only
/// move forward.
pub open spec fn handshake_index(h: HandshakeStateV) -> int {
    match h {
        HandshakeStateV::StepA => 0,
        HandshakeStateV::StepB => 0,
        HandshakeStateV::StepC(_, _) => 1,
        HandshakeStateV::StepD(_) => 1,
        HandshakeStateV::StepE(_) => 2,
        HandshakeStateV::StepF(_) => 2,
        HandshakeStateV::PostStepE(_) => 3,
        HandshakeStateV::PostStepF(_) => 3,
        HandshakeStateV::Finished(_) => 4,
    }
}

} // verus!
