//! A narrow facade standing for the external channel handler.
//!
//! The real channel handler signs channel states, maintains unroll coins
//! and referees games; all of that is out of this crate's scope.  The
//! coordinator consumes only a small interface: the channel coin, the
//! clean-shutdown amount, and per-message products such as signatures and
//! move digests.  This facade models exactly that interface with plain
//! deterministic values (empty signatures, pass-through payloads, digests
//! in place of derived keys), so every use in the coordinator is verified
//! against an exact contract.

use vstd::prelude::*;
use crate::hashing::{sha256, sha256_of};
use crate::game_id::append_bytes;
use crate::game_start::GameStartInfo;
use crate::types::{
    Aggsig,
    Amount,
    CoinID,
    CoinString,
    Error,
    GameID,
    MoveResult,
    PotatoSignatures,
    PotatoSignaturesV,
    PrivateKey,
    Program,
    PublicKey,
    PuzzleHash,
    ReadableMove,
    Spend,
    ChannelHandlerPrivateKeys,
};
use crate::codec::{enc_bytes, enc_u64, write_bytes, write_u64};

verus! {

/// The stand-in derivation of a public key from a private key: a digest.
/// The out-of-scope signer owns the real derivation; the coordinator only
/// forwards these values.
pub open spec fn spec_public_key_of(private_key: Seq<u8>) -> Seq<u8> {
    sha256_of(private_key)
}

/// The stand-in puzzle hash committed to a public key: a digest of it.
pub open spec fn spec_puzzle_hash_for_pk(pk: Seq<u8>) -> Seq<u8> {
    sha256_of(pk)
}

pub fn private_to_public_key(private_key: &PrivateKey) -> (r: PublicKey)
    ensures
        r@ == spec_public_key_of(private_key@),
        r@.len() == 32,
{
    PublicKey(sha256(&private_key.0))
}

pub fn puzzle_hash_for_pk(pk: &PublicKey) -> (r: PuzzleHash)
    ensures
        r@ == spec_puzzle_hash_for_pk(pk@),
        r@.len() == 32,
{
    PuzzleHash(sha256(&pk.0))
}

/// What the coordinator hands the channel handler to construct it.
pub struct ChannelHandlerInitiationData {
    pub launcher_coin_id: CoinID,
    pub we_start_with_potato: bool,
    pub their_channel_pubkey: PublicKey,
    pub their_unroll_pubkey: PublicKey,
    pub their_referee_puzzle_hash: PuzzleHash,
    pub my_contribution: Amount,
    pub their_contribution: Amount,
}

/// The signed state delta the channel handler reports after an update;
/// opaque to the coordinator, which only forwards it.
#[derive(Debug, PartialEq, Eq)]
pub struct ChannelCoinSpendInfo {}

/// A spend condition the shutdown spend commits to.
#[derive(Debug, PartialEq, Eq)]
pub enum Condition {
    CreateCoin(PuzzleHash, Amount),
}

pub enum ConditionV {
    CreateCoin(Seq<u8>, u64),
}

impl View for Condition {
    type V = ConditionV;

    open spec fn view(&self) -> ConditionV {
        match self {
            Condition::CreateCoin(ph, amount) => ConditionV::CreateCoin(ph@, amount@),
        }
    }
}

impl Clone for Condition {
    fn clone(&self) -> (r: Self)
        ensures
            r@ == self@,
    {
        match self {
            Condition::CreateCoin(ph, amount) => Condition::CreateCoin(ph.clone(), *amount),
        }
    }
}

/// The create-coin opcode of the condition language.
pub open spec fn spec_create_coin_opcode() -> u64 {
    51
}

pub open spec fn spec_condition_bytes(c: ConditionV) -> Seq<u8> {
    match c {
        ConditionV::CreateCoin(ph, amount) => enc_u64(spec_create_coin_opcode()) + enc_bytes(ph)
            + enc_u64(amount),
    }
}

pub open spec fn spec_conditions_bytes(cs: Seq<ConditionV>) -> Seq<u8>
    decreases cs.len(),
{
    if cs.len() == 0 {
        Seq::empty()
    } else {
        spec_condition_bytes(cs[0]) + spec_conditions_bytes(cs.drop_first())
    }
}

/// Encode a condition list as solution bytes.
pub fn conditions_to_bytes(cs: &Vec<Condition>) -> (r: Vec<u8>)
    ensures
        r@ == spec_conditions_bytes(cs@.map(|i: int, c: Condition| c@)),
{
    let ghost views = cs@.map(|i: int, c: Condition| c@);
    let mut out: Vec<u8> = Vec::new();
    let mut i: usize = 0;
    while i < cs.len()
        invariant
            i <= cs@.len(),
            views == cs@.map(|i: int, c: Condition| c@),
            out@ == spec_conditions_bytes(views.subrange(0, i as int)),
        decreases cs@.len() - i,
    {
        match &cs[i] {
            Condition::CreateCoin(ph, amount) => {
                write_u64(&mut out, 51);
                write_bytes(&mut out, &ph.0);
                write_u64(&mut out, amount.0);
            },
        }
        proof {
            lemma_spec_conditions_bytes_push(views.subrange(0, i as int), views[i as int]);
            assert(views.subrange(0, i as int).push(views[i as int]) =~= views.subrange(
                0,
                (i + 1) as int,
            ));
            assert(((spec_conditions_bytes(views.subrange(0, i as int)) + enc_u64(51)) + enc_bytes(
                cs[i as int]->CreateCoin_0@,
            )) + enc_u64(cs[i as int]->CreateCoin_1@) =~= spec_conditions_bytes(
                views.subrange(0, i as int),
            ) + spec_condition_bytes(views[i as int]));
        }
        i = i + 1;
    }
    proof {
        assert(views.subrange(0, views.len() as int) =~= views);
    }
    out
}

pub proof fn lemma_spec_conditions_bytes_push(s: Seq<ConditionV>, x: ConditionV)
    ensures
        spec_conditions_bytes(s.push(x)) == spec_conditions_bytes(s) + spec_condition_bytes(x),
    decreases s.len(),
{
    if s.len() == 0 {
        assert(s.push(x).drop_first() =~= Seq::<ConditionV>::empty());
        assert(s.push(x)[0] == x);
        assert(spec_conditions_bytes(s.push(x)) == spec_condition_bytes(x)
            + spec_conditions_bytes(Seq::<ConditionV>::empty()));
        assert(spec_conditions_bytes(s.push(x)) =~= spec_conditions_bytes(s)
            + spec_condition_bytes(x));
    } else {
        assert(s.push(x).drop_first() =~= s.drop_first().push(x));
        assert(s.push(x)[0] == s[0]);
        lemma_spec_conditions_bytes_push(s.drop_first(), x);
        assert(spec_condition_bytes(s[0]) + (spec_conditions_bytes(s.drop_first())
            + spec_condition_bytes(x)) =~= (spec_condition_bytes(s[0]) + spec_conditions_bytes(
            s.drop_first(),
        )) + spec_condition_bytes(x));
    }
}

/// The empty signature pair the facade produces for every potato pass.
pub open spec fn spec_empty_sigs() -> PotatoSignaturesV {
    PotatoSignaturesV { channel_half: Seq::empty(), unroll_half: Seq::empty() }
}

/// The channel coin puzzle hash both parties compute: a digest over the
/// two channel public keys, the initiator's first.
pub open spec fn spec_channel_puzzle_hash(first_pk: Seq<u8>, second_pk: Seq<u8>) -> Seq<u8> {
    sha256_of(first_pk + second_pk)
}

/// The facade over the external channel handler.
pub struct ChannelHandler {
    pub private_keys: ChannelHandlerPrivateKeys,
    pub state_channel_coin: CoinString,
    pub my_contribution: Amount,
    pub their_contribution: Amount,
}

impl ChannelHandler {
    /// Construct the handler and compute the channel coin: child of the
    /// launcher coin, holding the joint stake under the joint puzzle hash.
    /// Fails only when the joint stake overflows an amount.
    pub fn new(
        private_keys: &ChannelHandlerPrivateKeys,
        initiation: &ChannelHandlerInitiationData,
    ) -> (r: Result<ChannelHandler, Error>)
        ensures
            r is Ok <==> initiation.my_contribution@ + initiation.their_contribution@ <= u64::MAX,
            r is Err ==> r->Err_0 is AmountOverflow,
            r is Ok ==> ({
                let ch = r->Ok_0;
                &&& ch.private_keys@ == private_keys@
                &&& ch.my_contribution@ == initiation.my_contribution@
                &&& ch.their_contribution@ == initiation.their_contribution@
                &&& ch.state_channel_coin@.parent == initiation.launcher_coin_id@
                &&& ch.state_channel_coin@.amount == initiation.my_contribution@
                    + initiation.their_contribution@
                &&& ch.state_channel_coin@.puzzle_hash == (if initiation.we_start_with_potato {
                    spec_channel_puzzle_hash(
                        initiation.their_channel_pubkey@,
                        spec_public_key_of(private_keys@.channel),
                    )
                } else {
                    spec_channel_puzzle_hash(
                        spec_public_key_of(private_keys@.channel),
                        initiation.their_channel_pubkey@,
                    )
                })
            }),
    {
        if initiation.my_contribution.0 > u64::MAX - initiation.their_contribution.0 {
            return Err(Error::AmountOverflow);
        }
        let amount = Amount(initiation.my_contribution.0 + initiation.their_contribution.0);
        let my_channel_pub = private_to_public_key(&private_keys.my_channel_coin_private_key);
        let mut joint: Vec<u8> = Vec::new();
        if initiation.we_start_with_potato {
            append_bytes(&mut joint, &initiation.their_channel_pubkey.0);
            append_bytes(&mut joint, &my_channel_pub.0);
        } else {
            append_bytes(&mut joint, &my_channel_pub.0);
            append_bytes(&mut joint, &initiation.their_channel_pubkey.0);
        }
        proof {
            assert(joint@ =~= if initiation.we_start_with_potato {
                initiation.their_channel_pubkey@ + spec_public_key_of(private_keys@.channel)
            } else {
                spec_public_key_of(private_keys@.channel) + initiation.their_channel_pubkey@
            });
        }
        let puzzle_hash = PuzzleHash(sha256(&joint));
        Ok(
            ChannelHandler {
                private_keys: private_keys.clone(),
                state_channel_coin: CoinString {
                    parent: initiation.launcher_coin_id.clone(),
                    puzzle_hash,
                    amount,
                },
                my_contribution: initiation.my_contribution,
                their_contribution: initiation.their_contribution,
            },
        )
    }

    /// The channel coin this handler watches.
    pub fn state_channel_coin(&self) -> (r: CoinString)
        ensures
            r@ == self.state_channel_coin@,
    {
        self.state_channel_coin.clone()
    }

    pub fn channel_private_key(&self) -> (r: PrivateKey)
        ensures
            r@ == self.private_keys@.channel,
    {
        self.private_keys.my_channel_coin_private_key.clone()
    }

    pub fn unroll_private_key(&self) -> (r: PrivateKey)
        ensures
            r@ == self.private_keys@.unroll,
    {
        self.private_keys.my_unroll_coin_private_key.clone()
    }

    /// What a clean shutdown returns to this party: its own contribution.
    pub fn clean_shutdown_amount(&self) -> (r: Amount)
        ensures
            r@ == self.my_contribution@,
    {
        self.my_contribution
    }

    /// Sign an empty potato pass.
    pub fn send_empty_potato(&self) -> (r: PotatoSignatures)
        ensures
            r@ == spec_empty_sigs(),
    {
        let r = PotatoSignatures {
            my_channel_half_signature_peer: Aggsig(Vec::new()),
            my_unroll_half_signature_peer: Aggsig(Vec::new()),
        };
        proof {
            assert(r@.channel_half =~= spec_empty_sigs().channel_half);
            assert(r@.unroll_half =~= spec_empty_sigs().unroll_half);
        }
        r
    }

    /// Take an empty potato pass from the peer.
    pub fn received_empty_potato(&self, _sigs: &PotatoSignatures) -> (r: ChannelCoinSpendInfo)
        ensures
            r == (ChannelCoinSpendInfo {  }),
    {
        ChannelCoinSpendInfo {  }
    }

    /// Take the peer's move; the facade hands the move payload through as
    /// the readable form and reports no in-band game message.
    pub fn received_potato_move(&self, _id: &GameID, m: &MoveResult) -> (r: (
        ChannelCoinSpendInfo,
        ReadableMove,
        Vec<u8>,
    ))
        ensures
            r.0 == (ChannelCoinSpendInfo {  }),
            r.1@ == m@,
            r.2@ == Seq::<u8>::empty(),
    {
        (ChannelCoinSpendInfo {  }, ReadableMove(m.0.clone()), Vec::new())
    }

    /// Take the peer's accept of a finished game.
    pub fn received_potato_accept(&self, _sigs: &PotatoSignatures, _id: &GameID) -> (r:
        ChannelCoinSpendInfo)
        ensures
            r == (ChannelCoinSpendInfo {  }),
    {
        ChannelCoinSpendInfo {  }
    }

    /// Take the peer's game starts.
    pub fn received_potato_start_game(
        &self,
        _sigs: &PotatoSignatures,
        _games: &Vec<GameStartInfo>,
    ) -> (r: ChannelCoinSpendInfo)
        ensures
            r == (ChannelCoinSpendInfo {  }),
    {
        ChannelCoinSpendInfo {  }
    }

    /// Sign a potato pass that starts games.
    pub fn send_potato_start_game(&self, _games: &Vec<GameStartInfo>) -> (r: PotatoSignatures)
        ensures
            r@ == spec_empty_sigs(),
    {
        self.send_empty_potato()
    }

    /// Sign a move; the facade's digest of a move is the move itself.
    pub fn send_potato_move(&self, _id: &GameID, readable: &ReadableMove) -> (r: MoveResult)
        ensures
            r@ == readable@,
    {
        MoveResult(readable.0.clone())
    }

    /// Sign an accept; the facade reports a zero share, since the real
    /// division of a game's stake belongs to the out-of-scope signer.
    pub fn send_potato_accept(&self, _id: &GameID) -> (r: (PotatoSignatures, Amount))
        ensures
            r.0@ == spec_empty_sigs(),
            r.1@ == 0,
    {
        (self.send_empty_potato(), Amount(0))
    }

    /// Produce the inner spend of a clean shutdown: a spend of the channel
    /// coin's puzzle whose solution commits to the given conditions.
    pub fn send_potato_clean_shutdown(&self, conditions: &Vec<Condition>) -> (r: Spend)
        ensures
            r@.puzzle == self.state_channel_coin@.puzzle_hash,
            r@.solution == spec_conditions_bytes(conditions@.map(|i: int, c: Condition| c@)),
            r@.signature == Seq::<u8>::empty(),
    {
        let solution = conditions_to_bytes(conditions);
        let r = Spend {
            puzzle: Program(self.state_channel_coin.puzzle_hash.0.clone()),
            solution: Program(solution),
            signature: Aggsig(Vec::new()),
        };
        proof {
            assert(r@.signature =~= Seq::<u8>::empty());
        }
        r
    }
}

} // verus!
