//! The coordinator's outward actions, reified as values.
//!
//! Every entry point appends the actions it wants performed — messages to
//! the peer, wallet calls, UI reports — to an effect list instead of
//! calling through the capability interfaces directly.  The embedding (or
//! `run_effects`) performs them in order.  This keeps every decision in
//! verified code and lets contracts quantify over what was emitted.

use vstd::prelude::*;
use crate::types::{
    Amount,
    CoinString,
    CoinStringV,
    Error,
    GameID,
    PuzzleHash,
    ReadableMove,
    SpendBundle,
    SpendBundleV,
    Timeout,
};
use crate::messages::{is_potato_message, PeerMessage, PeerMessageV};

verus! {

/// One outward action of the coordinator.
pub enum Effect {
    /// Hand a message to the transport.
    SendMessage(PeerMessage),
    /// Deliver the channel puzzle hash to the wallet bootstrap.
    ChannelPuzzleHash(PuzzleHash),
    /// Ask the chain observer to watch a coin until the timeout.
    RegisterCoin(CoinString, Timeout),
    /// Deliver a received channel offer to the wallet bootstrap.
    ReceivedChannelOffer(SpendBundle),
    /// Submit a transaction through the wallet, fee added there.
    SpendTransactionAndAddFee(SpendBundle),
    /// Report the opponent's move to the local UI.
    OpponentMoved(GameID, ReadableMove),
    /// Report a finished game and this side's share to the local UI.
    GameFinished(GameID, Amount),
    /// Report that the channel is moving on chain.
    GoingOnChain,
}

pub enum EffectV {
    SendMessage(PeerMessageV),
    ChannelPuzzleHash(Seq<u8>),
    RegisterCoin(CoinStringV, u64),
    ReceivedChannelOffer(SpendBundleV),
    SpendTransactionAndAddFee(SpendBundleV),
    OpponentMoved(Seq<u8>, Seq<u8>),
    GameFinished(Seq<u8>, u64),
    GoingOnChain,
}

impl View for Effect {
    type V = EffectV;

    open spec fn view(&self) -> EffectV {
        match self {
            Effect::SendMessage(m) => EffectV::SendMessage(m@),
            Effect::ChannelPuzzleHash(ph) => EffectV::ChannelPuzzleHash(ph@),
            Effect::RegisterCoin(c, t) => EffectV::RegisterCoin(c@, t@),
            Effect::ReceivedChannelOffer(b) => EffectV::ReceivedChannelOffer(b@),
            Effect::SpendTransactionAndAddFee(b) => EffectV::SpendTransactionAndAddFee(b@),
            Effect::OpponentMoved(id, m) => EffectV::OpponentMoved(id@, m@),
            Effect::GameFinished(id, a) => EffectV::GameFinished(id@, a@),
            Effect::GoingOnChain => EffectV::GoingOnChain,
        }
    }
}

/// The effect list as mathematical values.
pub open spec fn effects_view(s: Seq<Effect>) -> Seq<EffectV> {
    s.map(|i: int, e: Effect| e@)
}

/// Whether an effect sends a potato-bearing message.
pub open spec fn is_potato_send(e: EffectV) -> bool {
    match e {
        EffectV::SendMessage(m) => is_potato_message(m),
        _ => false,
    }
}

/// Whether an effect submits a spend; a clean shutdown consumes the
/// potato this way instead of sending a message.
pub open spec fn is_spend(e: EffectV) -> bool {
    e is SpendTransactionAndAddFee
}

/// How many effects of a list consume the potato.
pub open spec fn potato_spent(s: Seq<EffectV>) -> int
    decreases s.len(),
{
    if s.len() == 0 {
        0int
    } else {
        (if is_potato_send(s[0]) || is_spend(s[0]) {
            1int
        } else {
            0int
        }) + potato_spent(s.drop_first())
    }
}

pub proof fn lemma_potato_spent_append(a: Seq<EffectV>, b: Seq<EffectV>)
    ensures
        potato_spent(a + b) == potato_spent(a) + potato_spent(b),
    decreases a.len(),
{
    if a.len() == 0 {
        assert(a + b =~= b);
    } else {
        assert((a + b).drop_first() =~= a.drop_first() + b);
        assert((a + b)[0] == a[0]);
        lemma_potato_spent_append(a.drop_first(), b);
    }
}

pub proof fn lemma_potato_spent_push(a: Seq<EffectV>, e: EffectV)
    ensures
        potato_spent(a.push(e)) == potato_spent(a) + (if is_potato_send(e) || is_spend(e) {
            1int
        } else {
            0int
        }),
{
    lemma_potato_spent_append(a, seq![e]);
    assert(a.push(e) =~= a + seq![e]);
    assert(seq![e].drop_first() =~= Seq::<EffectV>::empty());
    assert(seq![e][0] == e);
    assert(potato_spent(Seq::<EffectV>::empty()) == 0);
    assert(potato_spent(seq![e]) == (if is_potato_send(e) || is_spend(e) {
        1int
    } else {
        0int
    }));
}

/// Append one effect.
pub fn emit(effects: &mut Vec<Effect>, e: Effect)
    ensures
        effects_view(final(effects)@) == effects_view(old(effects)@).push(e@),
        potato_spent(effects_view(final(effects)@)) == potato_spent(effects_view(old(effects)@))
            + (if is_potato_send(e@) || is_spend(e@) {
            1int
        } else {
            0int
        }),
{
    let ghost ev = e@;
    effects.push(e);
    proof {
        assert(effects_view(effects@) =~= effects_view(old(effects)@).push(ev));
        lemma_potato_spent_push(effects_view(old(effects)@), ev);
    }
}

/// Async interface for messaging out of the game layer toward the wallet.
///
/// The injected wallet bootstrap dependency must be stateful enough to
/// cope with receiving a partly funded offer spend bundle and fully fund
/// it if needed.
pub trait BootstrapTowardWallet {
    /// Deliver the channel puzzle hash to the wallet.  Only the initiator
    /// calls this.
    fn channel_puzzle_hash(&mut self, puzzle_hash: &PuzzleHash) -> Result<(), Error>;

    /// Tell the wallet bootstrap that a partly funded offer arrived; it
    /// should add a fee, finish funding, and try to spend.
    fn received_channel_offer(&mut self, bundle: &SpendBundle) -> Result<(), Error>;

    /// Hand the fully signed offer to the wallet to actually spend.
    fn received_channel_transaction_completion(&mut self, bundle: &SpendBundle) -> Result<
        (),
        Error,
    >;
}

/// Unroll time wallet interface.
pub trait WalletSpendInterface {
    /// Enqueue an outbound transaction.
    fn spend_transaction_and_add_fee(&mut self, spend: &SpendBundle) -> Result<(), Error>;

    /// Coin should report its lifecycle until it gets spent, then should
    /// be de-registered.
    fn register_coin(&mut self, coin_id: &CoinString, timeout: &Timeout) -> Result<(), Error>;
}

/// Reports from the coordinator up to the local UI.
pub trait ToLocalUI {
    fn opponent_moved(&mut self, id: &GameID, readable: ReadableMove) -> Result<(), Error>;

    fn game_message(&mut self, id: &GameID, readable: &Vec<u8>) -> Result<(), Error>;

    fn game_finished(&mut self, id: &GameID, my_share: Amount) -> Result<(), Error>;

    fn game_cancelled(&mut self, id: &GameID) -> Result<(), Error>;

    fn shutdown_complete(&mut self, reward_coin_string: &CoinString) -> Result<(), Error>;

    fn going_on_chain(&mut self) -> Result<(), Error>;
}

/// Hands messages to the transport; fire-and-forget, ordered.
pub trait PacketSender {
    fn send_message(&mut self, msg: &PeerMessage) -> Result<(), Error>;
}

/// The combined capability set an embedding provides.
pub trait PeerEnv: ToLocalUI + BootstrapTowardWallet + WalletSpendInterface + PacketSender {

}

/// Perform a list of effects against an embedding, in order, stopping at
/// the first failure.
pub fn run_effects<G: ToLocalUI + BootstrapTowardWallet + WalletSpendInterface + PacketSender>(
    g: &mut G,
    effects: &Vec<Effect>,
) -> (r: Result<(), Error>) {
    let mut i: usize = 0;
    while i < effects.len()
        decreases effects@.len() - i,
    {
        let outcome = match &effects[i] {
            Effect::SendMessage(m) => g.send_message(m),
            Effect::ChannelPuzzleHash(ph) => g.channel_puzzle_hash(ph),
            Effect::RegisterCoin(c, t) => g.register_coin(c, t),
            Effect::ReceivedChannelOffer(b) => g.received_channel_offer(b),
            Effect::SpendTransactionAndAddFee(b) => g.spend_transaction_and_add_fee(b),
            Effect::OpponentMoved(id, m) => g.opponent_moved(id, ReadableMove(m.0.clone())),
            Effect::GameFinished(id, a) => g.game_finished(id, *a),
            Effect::GoingOnChain => g.going_on_chain(),
        };
        match outcome {
            Ok(_) => {
            },
            Err(e) => {
                return Err(e);
            },
        }
        i = i + 1;
    }
    Ok(())
}

} // verus!
