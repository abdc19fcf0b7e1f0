//! The coordinator: routes inbound peer messages by handshake state,
//! enforces the single-writer potato discipline with request-and-retry,
//! queues locally submitted work, and drives termination.

use vstd::prelude::*;
use std::collections::VecDeque;
use vstd::arithmetic::div_mod::lemma_small_mod;
use crate::types::{
    Amount,
    CoinID,
    CoinString,
    Error,
    GameID,
    PuzzleHash,
    ReadableMove,
    SpendBundle,
    SpendBundleV,
    Timeout,
    CoinSpend,
    Program,
    Aggsig,
    PotatoSignatures,
    ChannelHandlerPrivateKeys,
    ChannelHandlerPrivateKeysV,
    bytes_eq,
};
use crate::messages::{
    handshake_index,
    is_potato_message,
    HandshakeA,
    HandshakeB,
    HandshakeBV,
    HandshakeState,
    HandshakeStateV,
    HandshakeStepInfo,
    HandshakeStepWithSpend,
    PeerMessage,
    PeerMessageV,
};
use crate::game_start::{
    FlatGameStartInfo,
    GameStart,
    GameStartInfo,
    GameStartQueueEntry,
    MyGameStartQueueEntry,
    MyGameStartQueueEntryV,
    spec_dehydrate,
};
use crate::channel_handler::{
    spec_channel_puzzle_hash,
    spec_empty_sigs,
    spec_public_key_of,
    spec_puzzle_hash_for_pk,
    private_to_public_key,
    puzzle_hash_for_pk,
    ChannelHandler,
    ChannelHandlerInitiationData,
    Condition,
    ConditionV,
};
use crate::effects::{
    effects_view,
    emit,
    is_potato_send,
    is_spend,
    lemma_potato_spent_append,
    potato_spent,
    Effect,
    EffectV,
};
use crate::codec::{decode_message, enc_u64, spec_decode_message, write_u64};
use crate::games::{spec_lookup, GameTypeMap};
use crate::game_id::{append_bytes, increment_game_id, init_game_id, le_value, nth_game_id, pow256};
use crate::hashing::{sha256, sha256_of};

verus! {

/// The three-valued marker of local potato ownership.
#[derive(Debug, Clone, Copy, PartialEq, Eq, Structural)]
pub enum PotatoState {
    Absent,
    Requested,
    Present,
}

/// One if the party holds the potato, zero otherwise; across the two
/// parties and the wire these tokens sum to one.
pub open spec fn potato_token(p: PotatoState) -> int {
    if p is Present {
        1int
    } else {
        0int
    }
}

/// A locally requested action, queued until the potato is here.
pub enum GameAction {
    Move(GameID, ReadableMove),
    Accept(GameID),
    Shutdown(Vec<Condition>),
}

pub enum GameActionV {
    Move(Seq<u8>, Seq<u8>),
    Accept(Seq<u8>),
    Shutdown(Seq<ConditionV>),
}

impl View for GameAction {
    type V = GameActionV;

    open spec fn view(&self) -> GameActionV {
        match self {
            GameAction::Move(id, m) => GameActionV::Move(id@, m@),
            GameAction::Accept(id) => GameActionV::Accept(id@),
            GameAction::Shutdown(conds) => GameActionV::Shutdown(
                conds@.map(|i: int, c: Condition| c@),
            ),
        }
    }
}

/// The identifier of a coin: a digest of its parent, puzzle hash and
/// amount.
pub open spec fn spec_coin_id(c: crate::types::CoinStringV) -> Seq<u8> {
    sha256_of(c.parent + c.puzzle_hash + enc_u64(c.amount))
}

/// Compute a coin's identifier.
pub fn coin_id_of(c: &CoinString) -> (r: CoinID)
    ensures
        r@ == spec_coin_id(c@),
{
    let mut data: Vec<u8> = Vec::new();
    append_bytes(&mut data, &c.parent.0);
    append_bytes(&mut data, &c.puzzle_hash.0);
    write_u64(&mut data, c.amount.0);
    proof {
        assert(data@ =~= c@.parent + c@.puzzle_hash + enc_u64(c@.amount));
    }
    CoinID(sha256(&data))
}

/// The key bundle this party announces: derived channel and unroll keys,
/// its reward puzzle hash, and the puzzle hash of its referee key.
pub open spec fn spec_my_handshake_b(keys: ChannelHandlerPrivateKeysV, reward: Seq<u8>) -> HandshakeBV {
    HandshakeBV {
        channel_public_key: spec_public_key_of(keys.channel),
        unroll_public_key: spec_public_key_of(keys.unroll),
        reward_puzzle_hash: reward,
        referee_puzzle_hash: spec_puzzle_hash_for_pk(spec_public_key_of(keys.referee)),
    }
}

/// Whether the channel handler exists in this state.
pub open spec fn state_has_channel(h: HandshakeStateV) -> bool {
    match h {
        HandshakeStateV::StepD(_) => true,
        HandshakeStateV::StepE(_) => true,
        HandshakeStateV::PostStepE(_) => true,
        HandshakeStateV::StepF(_) => true,
        HandshakeStateV::PostStepF(_) => true,
        HandshakeStateV::Finished(_) => true,
        _ => false,
    }
}

/// The states the initiator can stand in.
pub open spec fn initiator_state(h: HandshakeStateV) -> bool {
    match h {
        HandshakeStateV::StepA => true,
        HandshakeStateV::StepC(_, _) => true,
        HandshakeStateV::StepE(_) => true,
        HandshakeStateV::PostStepE(_) => true,
        HandshakeStateV::Finished(_) => true,
        _ => false,
    }
}

/// The states the non-initiator can stand in.
pub open spec fn responder_state(h: HandshakeStateV) -> bool {
    match h {
        HandshakeStateV::StepB => true,
        HandshakeStateV::StepD(_) => true,
        HandshakeStateV::StepF(_) => true,
        HandshakeStateV::PostStepF(_) => true,
        HandshakeStateV::Finished(_) => true,
        _ => false,
    }
}

/// Field-wise sameness of two channel handlers.
pub open spec fn ch_same(x: ChannelHandler, y: ChannelHandler) -> bool {
    &&& x.private_keys@ == y.private_keys@
    &&& x.state_channel_coin@ == y.state_channel_coin@
    &&& x.my_contribution@ == y.my_contribution@
    &&& x.their_contribution@ == y.their_contribution@
}

pub open spec fn opt_ch_same(a: Option<ChannelHandler>, b: Option<ChannelHandler>) -> bool {
    match (a, b) {
        (Option::Some(x), Option::Some(y)) => ch_same(x, y),
        (Option::None, Option::None) => true,
        _ => false,
    }
}

pub open spec fn opt_bundle_view(o: Option<SpendBundle>) -> Option<SpendBundleV> {
    match o {
        Option::Some(b) => Some(b@),
        Option::None => None,
    }
}

/// The coordinator.  One per peer, single-threaded and message-driven.
pub struct PotatoHandler {
    pub initiator: bool,
    pub have_potato: PotatoState,
    pub handshake_state: HandshakeState,
    /// Waiting game starts announced by the peer.
    pub their_start_queue: VecDeque<GameStartQueueEntry>,
    /// Our outgoing game starts.
    pub my_start_queue: VecDeque<MyGameStartQueueEntry>,
    pub game_action_queue: VecDeque<GameAction>,
    pub next_game_id: Vec<u8>,
    pub channel_handler: Option<ChannelHandler>,
    pub channel_initiation_transaction: Option<SpendBundle>,
    pub channel_finished_transaction: Option<SpendBundle>,
    pub game_types: GameTypeMap,
    pub private_keys: ChannelHandlerPrivateKeys,
    pub my_contribution: Amount,
    pub their_contribution: Amount,
    pub reward_puzzle_hash: PuzzleHash,
    pub waiting_to_start: bool,
    pub channel_timeout: Timeout,
}

pub open spec fn my_start_view(h: PotatoHandler) -> Seq<MyGameStartQueueEntryV> {
    h.my_start_queue@.map(|i: int, e: MyGameStartQueueEntry| e@)
}

pub open spec fn actions_view(h: PotatoHandler) -> Seq<GameActionV> {
    h.game_action_queue@.map(|i: int, a: GameAction| a@)
}

/// The configuration fixed at construction.
pub open spec fn same_config(a: PotatoHandler, b: PotatoHandler) -> bool {
    &&& a.initiator == b.initiator
    &&& a.game_types@ == b.game_types@
    &&& a.private_keys@ == b.private_keys@
    &&& a.my_contribution@ == b.my_contribution@
    &&& a.their_contribution@ == b.their_contribution@
    &&& a.reward_puzzle_hash@ == b.reward_puzzle_hash@
    &&& a.channel_timeout@ == b.channel_timeout@
}

/// Whole-state sameness, up to views.
pub open spec fn same_state(a: PotatoHandler, b: PotatoHandler) -> bool {
    &&& same_config(a, b)
    &&& a.have_potato == b.have_potato
    &&& a.handshake_state@ == b.handshake_state@
    &&& a.their_start_queue@.len() == b.their_start_queue@.len()
    &&& my_start_view(a) == my_start_view(b)
    &&& actions_view(a) == actions_view(b)
    &&& a.next_game_id@ == b.next_game_id@
    &&& opt_ch_same(a.channel_handler, b.channel_handler)
    &&& opt_bundle_view(a.channel_initiation_transaction) == opt_bundle_view(
        b.channel_initiation_transaction,
    )
    &&& opt_bundle_view(a.channel_finished_transaction) == opt_bundle_view(
        b.channel_finished_transaction,
    )
    &&& a.waiting_to_start == b.waiting_to_start
}

impl PotatoHandler {
    /// Structural soundness without the potato clauses: who may stand
    /// where, when the channel handler and the id seed exist, and that
    /// queues only fill once the handshake has finished.
    pub open spec fn wf_core(self) -> bool {
        &&& (self.channel_handler is Some <==> state_has_channel(self.handshake_state@))
        &&& (state_has_channel(self.handshake_state@) ==> self.next_game_id@.len() == 32)
        &&& (self.initiator ==> initiator_state(self.handshake_state@))
        &&& (!self.initiator ==> responder_state(self.handshake_state@))
        &&& (!(self.handshake_state is Finished) ==> self.their_start_queue@.len() == 0
            && self.my_start_queue@.len() == 0 && self.game_action_queue@.len() == 0)
        &&& (!(self.handshake_state is PostStepF || self.handshake_state is Finished)
            ==> self.waiting_to_start)
        &&& self.my_contribution@ + self.their_contribution@ <= u64::MAX
    }

    /// Structural soundness plus the potato discipline: the handshake
    /// phase determines who holds the potato, and a holder has no queued
    /// work left.
    pub open spec fn wf(self) -> bool {
        &&& self.wf_core()
        &&& ((self.handshake_state is StepA || self.handshake_state is StepC
            || self.handshake_state is PostStepE) ==> self.have_potato is Present)
        &&& ((self.handshake_state is StepB || self.handshake_state is StepD
            || self.handshake_state is StepE || self.handshake_state is StepF
            || self.handshake_state is PostStepF) ==> self.have_potato is Absent)
        &&& (self.have_potato is Present ==> self.my_start_queue@.len() == 0
            && self.game_action_queue@.len() == 0)
    }

    /// Construct a coordinator.  The party that holds the potato at
    /// construction is the initiator and starts in StepA; the other
    /// starts in StepB.
    pub fn new(
        have_potato: bool,
        private_keys: ChannelHandlerPrivateKeys,
        game_types: GameTypeMap,
        my_contribution: Amount,
        their_contribution: Amount,
        channel_timeout: Timeout,
        reward_puzzle_hash: PuzzleHash,
    ) -> (r: PotatoHandler)
        requires
            my_contribution@ + their_contribution@ <= u64::MAX,
        ensures
            r.wf(),
            r.initiator == have_potato,
            r.have_potato == (if have_potato {
                PotatoState::Present
            } else {
                PotatoState::Absent
            }),
            r.handshake_state@ == (if have_potato {
                HandshakeStateV::StepA
            } else {
                HandshakeStateV::StepB
            }),
            r.their_start_queue@.len() == 0,
            my_start_view(r).len() == 0,
            actions_view(r).len() == 0,
            r.next_game_id@.len() == 0,
            r.channel_handler is None,
            r.channel_initiation_transaction is None,
            r.channel_finished_transaction is None,
            r.game_types@ == game_types@,
            r.private_keys@ == private_keys@,
            r.my_contribution@ == my_contribution@,
            r.their_contribution@ == their_contribution@,
            r.reward_puzzle_hash@ == reward_puzzle_hash@,
            r.waiting_to_start,
            r.channel_timeout@ == channel_timeout@,
    {
        let r = PotatoHandler {
            initiator: have_potato,
            have_potato: if have_potato {
                PotatoState::Present
            } else {
                PotatoState::Absent
            },
            handshake_state: if have_potato {
                HandshakeState::StepA
            } else {
                HandshakeState::StepB
            },
            their_start_queue: VecDeque::new(),
            my_start_queue: VecDeque::new(),
            game_action_queue: VecDeque::new(),
            next_game_id: Vec::new(),
            channel_handler: None,
            channel_initiation_transaction: None,
            channel_finished_transaction: None,
            game_types,
            private_keys,
            my_contribution,
            their_contribution,
            reward_puzzle_hash,
            waiting_to_start: true,
            channel_timeout,
        };
        proof {
            assert(my_start_view(r) =~= Seq::<MyGameStartQueueEntryV>::empty());
            assert(actions_view(r) =~= Seq::<GameActionV>::empty());
        }
        r
    }

    /// The parent coin of the channel, known once the handshake finished.
    pub fn parent_coin(&self) -> (r: Result<CoinString, Error>)
        ensures
            r is Ok <==> self.handshake_state is Finished,
            r is Ok ==> r->Ok_0@ == self.handshake_state@->Finished_0.info.first.parent,
            r is Err ==> r->Err_0 is NoHandshake,
    {
        if let HandshakeState::Finished(state) = &self.handshake_state {
            return Ok(state.info.first_player_hs_info.parent.clone());
        }
        Err(Error::NoHandshake)
    }

    /// Whether this peer held the potato at construction.
    pub fn is_initiator(&self) -> (r: bool)
        ensures
            r == self.initiator,
    {
        self.initiator
    }

    /// The channel handler, once constructed.
    pub fn channel_handler(&self) -> (r: Result<&ChannelHandler, Error>)
        ensures
            r is Ok <==> self.channel_handler is Some,
            r is Ok ==> r->Ok_0 == self.channel_handler->Some_0,
            r is Err ==> r->Err_0 is NoChannelHandler,
    {
        if let Some(ch) = &self.channel_handler {
            Ok(ch)
        } else {
            Err(Error::NoChannelHandler)
        }
    }

    /// Whether the handshake has reached its terminal state.
    pub fn handshake_finished(&self) -> (r: bool)
        ensures
            r == (self.handshake_state is Finished),
    {
        matches!(self.handshake_state, HandshakeState::Finished(_))
    }

    /// Tell whether this peer has the potato.  If it has been sent but
    /// not received yet then both peers say false.
    pub fn has_potato(&self) -> (r: bool)
        ensures
            r == (self.have_potato is Present),
    {
        matches!(self.have_potato, PotatoState::Present)
    }

    /// The key bundle this party announces.
    fn make_my_handshake_b(&self) -> (r: HandshakeB)
        ensures
            r@ == spec_my_handshake_b(self.private_keys@, self.reward_puzzle_hash@),
    {
        let channel_public_key = private_to_public_key(&self.private_keys.my_channel_coin_private_key);
        let unroll_public_key = private_to_public_key(&self.private_keys.my_unroll_coin_private_key);
        let referee_public_key = private_to_public_key(&self.private_keys.my_referee_private_key);
        let referee_puzzle_hash = puzzle_hash_for_pk(&referee_public_key);
        HandshakeB {
            channel_public_key,
            unroll_public_key,
            reward_puzzle_hash: self.reward_puzzle_hash.clone(),
            referee_puzzle_hash,
        }
    }

    /// Begin the handshake; the initiator announces the parent coin that
    /// will fund the channel.
    pub fn start(&mut self, effects: &mut Vec<Effect>, parent_coin: CoinString) -> (r: Result<
        (),
        Error,
    >)
        requires
            old(self).wf(),
            old(self).handshake_state is StepA,
        ensures
            final(self).wf(),
            r is Ok,
            same_config(*old(self), *final(self)),
            final(self).have_potato == old(self).have_potato,
            my_start_view(*final(self)) == my_start_view(*old(self)),
            actions_view(*final(self)) == actions_view(*old(self)),
            final(self).their_start_queue@.len() == old(self).their_start_queue@.len(),
            final(self).next_game_id@ == old(self).next_game_id@,
            opt_ch_same(final(self).channel_handler, old(self).channel_handler),
            opt_bundle_view(final(self).channel_initiation_transaction) == opt_bundle_view(
                old(self).channel_initiation_transaction,
            ),
            opt_bundle_view(final(self).channel_finished_transaction) == opt_bundle_view(
                old(self).channel_finished_transaction,
            ),
            final(self).waiting_to_start == old(self).waiting_to_start,
            final(self).handshake_state@ == HandshakeStateV::StepC(
                parent_coin@,
                crate::messages::HandshakeAV {
                    parent: parent_coin@,
                    simple: spec_my_handshake_b(
                        old(self).private_keys@,
                        old(self).reward_puzzle_hash@,
                    ),
                },
            ),
            effects_view(final(effects)@) == effects_view(old(effects)@).push(
                EffectV::SendMessage(
                    PeerMessageV::HandshakeA(
                        crate::messages::HandshakeAV {
                            parent: parent_coin@,
                            simple: spec_my_handshake_b(
                                old(self).private_keys@,
                                old(self).reward_puzzle_hash@,
                            ),
                        },
                    ),
                ),
            ),
    {
        let my_hs_info = HandshakeA {
            parent: parent_coin.clone(),
            simple: self.make_my_handshake_b(),
        };
        self.handshake_state = HandshakeState::StepC(parent_coin, my_hs_info.clone());
        emit(effects, Effect::SendMessage(PeerMessage::HandshakeA(my_hs_info)));
        Ok(())
    }
}

/// What one drain pass emits, given the state when the potato arrived.
pub open spec fn spec_shutdown_bundle(pre: PotatoHandler, conds: Seq<ConditionV>) -> SpendBundleV {
    SpendBundleV {
        spends: seq![
            crate::types::CoinSpendV {
                coin: pre.handshake_state@->Finished_0.info.first.parent,
                bundle: crate::types::SpendV {
                    puzzle: pre.channel_handler->Some_0.state_channel_coin@.puzzle_hash,
                    solution: crate::channel_handler::spec_conditions_bytes(conds),
                    signature: Seq::empty(),
                },
            },
        ],
    }
}

pub open spec fn drain_tail(pre: PotatoHandler) -> Seq<EffectV> {
    let m0 = my_start_view(pre);
    let a0 = actions_view(pre);
    if m0.len() > 0 {
        seq![
            EffectV::SendMessage(
                PeerMessageV::StartGames(
                    spec_empty_sigs(),
                    m0[0].their_games.map(
                        |i: int, g: crate::game_start::GameStartInfoV| spec_dehydrate(g),
                    ),
                ),
            ),
        ]
    } else if a0.len() > 0 {
        match a0[0] {
            GameActionV::Move(id, rm) => seq![
                EffectV::SendMessage(PeerMessageV::Move(id, rm)),
            ],
            GameActionV::Accept(id) => seq![
                EffectV::SendMessage(PeerMessageV::Accept(id, 0, spec_empty_sigs())),
                EffectV::GameFinished(id, 0),
            ],
            GameActionV::Shutdown(conds) => seq![
                EffectV::SpendTransactionAndAddFee(spec_shutdown_bundle(pre, conds)),
            ],
        }
    } else {
        Seq::empty()
    }
}

/// How one drain pass leaves the two local work queues.
pub open spec fn drained_queues(pre: PotatoHandler, post: PotatoHandler) -> bool {
    if my_start_view(pre).len() > 0 {
        &&& my_start_view(post) == my_start_view(pre).drop_first()
        &&& actions_view(post) == actions_view(pre)
    } else if actions_view(pre).len() > 0 {
        &&& my_start_view(post) == my_start_view(pre)
        &&& actions_view(post) == actions_view(pre).drop_first()
    } else {
        &&& my_start_view(post) == my_start_view(pre)
        &&& actions_view(post) == actions_view(pre)
    }
}

/// Where the potato stands after one drain pass: consumed by the one
/// emitted write, or kept when there was no work.
pub open spec fn drained_potato(pre: PotatoHandler) -> PotatoState {
    if my_start_view(pre).len() > 0 || actions_view(pre).len() > 0 {
        PotatoState::Absent
    } else {
        PotatoState::Present
    }
}

/// Sameness of everything but the potato marker and the two drained
/// queues.
pub open spec fn same_core(a: PotatoHandler, b: PotatoHandler) -> bool {
    &&& same_config(a, b)
    &&& a.handshake_state@ == b.handshake_state@
    &&& a.their_start_queue@.len() == b.their_start_queue@.len()
    &&& a.next_game_id@ == b.next_game_id@
    &&& opt_ch_same(a.channel_handler, b.channel_handler)
    &&& opt_bundle_view(a.channel_initiation_transaction) == opt_bundle_view(
        b.channel_initiation_transaction,
    )
    &&& opt_bundle_view(a.channel_finished_transaction) == opt_bundle_view(
        b.channel_finished_transaction,
    )
    &&& a.waiting_to_start == b.waiting_to_start
}

pub proof fn lemma_spent1(e: EffectV)
    ensures
        potato_spent(seq![e]) == (if is_potato_send(e) || is_spend(e) {
            1int
        } else {
            0int
        }),
{
    assert(seq![e].drop_first() =~= Seq::<EffectV>::empty());
    assert(seq![e][0] == e);
    assert(potato_spent(Seq::<EffectV>::empty()) == 0);
}

pub proof fn lemma_spent2(e1: EffectV, e2: EffectV)
    ensures
        potato_spent(seq![e1, e2]) == (if is_potato_send(e1) || is_spend(e1) {
            1int
        } else {
            0int
        }) + (if is_potato_send(e2) || is_spend(e2) {
            1int
        } else {
            0int
        }),
{
    assert(seq![e1, e2].drop_first() =~= seq![e2]);
    assert(seq![e1, e2][0] == e1);
    lemma_spent1(e2);
}

impl PotatoHandler {
    /// Ask the peer for the potato; a second request while one is
    /// outstanding is suppressed.
    fn request_potato(&mut self, effects: &mut Vec<Effect>) -> (r: Result<(), Error>)
        requires
            old(self).wf(),
            old(self).handshake_state is Finished,
            !(old(self).have_potato is Present),
        ensures
            final(self).wf(),
            r is Ok,
            same_core(*old(self), *final(self)),
            my_start_view(*final(self)) == my_start_view(*old(self)),
            actions_view(*final(self)) == actions_view(*old(self)),
            final(self).have_potato is Requested,
            old(self).have_potato is Requested ==> effects_view(final(effects)@) == effects_view(
                old(effects)@,
            ),
            old(self).have_potato is Absent ==> effects_view(final(effects)@) == effects_view(
                old(effects)@,
            ).push(EffectV::SendMessage(PeerMessageV::RequestPotato)),
    {
        if matches!(self.have_potato, PotatoState::Requested) {
            return Ok(());
        }
        emit(effects, Effect::SendMessage(PeerMessage::RequestPotato(())));
        self.have_potato = PotatoState::Requested;
        Ok(())
    }

    /// Allocate a fresh game id and advance the counter.
    fn next_game_id(&mut self) -> (r: Result<GameID, Error>)
        requires
            old(self).wf(),
        ensures
            final(self).wf(),
            r is Ok <==> old(self).next_game_id@.len() > 0,
            r is Err ==> r->Err_0 is NoGameIdSeed && *final(self) == *old(self),
            r is Ok ==> ({
                &&& r->Ok_0@ == old(self).next_game_id@
                &&& final(self).next_game_id@.len() == old(self).next_game_id@.len()
                &&& le_value(final(self).next_game_id@) == (le_value(old(self).next_game_id@)
                    + 1) % pow256(old(self).next_game_id@.len())
                &&& same_config(*old(self), *final(self))
                &&& final(self).have_potato == old(self).have_potato
                &&& final(self).handshake_state@ == old(self).handshake_state@
                &&& my_start_view(*final(self)) == my_start_view(*old(self))
                &&& actions_view(*final(self)) == actions_view(*old(self))
                &&& final(self).their_start_queue@.len() == old(self).their_start_queue@.len()
                &&& opt_ch_same(final(self).channel_handler, old(self).channel_handler)
                &&& opt_bundle_view(final(self).channel_initiation_transaction)
                    == opt_bundle_view(old(self).channel_initiation_transaction)
                &&& opt_bundle_view(final(self).channel_finished_transaction) == opt_bundle_view(
                    old(self).channel_finished_transaction,
                )
                &&& final(self).waiting_to_start == old(self).waiting_to_start
            }),
    {
        if self.next_game_id.len() == 0 {
            return Err(Error::NoGameIdSeed);
        }
        let game_id = GameID::from_bytes(&self.next_game_id);
        increment_game_id(&mut self.next_game_id);
        Ok(game_id)
    }

    /// With the potato here, send the front pending game start, if any.
    fn have_potato_start_game(&mut self, effects: &mut Vec<Effect>) -> (r: Result<bool, Error>)
        requires
            old(self).wf_core(),
        ensures
            final(self).wf_core(),
            r is Ok,
            same_core(*old(self), *final(self)),
            actions_view(*final(self)) == actions_view(*old(self)),
            my_start_view(*old(self)).len() == 0 ==> ({
                &&& r->Ok_0 == false
                &&& final(self).have_potato == old(self).have_potato
                &&& my_start_view(*final(self)) == my_start_view(*old(self))
                &&& effects_view(final(effects)@) == effects_view(old(effects)@)
            }),
            my_start_view(*old(self)).len() > 0 ==> ({
                &&& r->Ok_0 == true
                &&& final(self).have_potato is Absent
                &&& my_start_view(*final(self)) == my_start_view(*old(self)).drop_first()
                &&& effects_view(final(effects)@) == effects_view(old(effects)@).push(
                    EffectV::SendMessage(
                        PeerMessageV::StartGames(
                            spec_empty_sigs(),
                            my_start_view(*old(self))[0].their_games.map(
                                |i: int, g: crate::game_start::GameStartInfoV| spec_dehydrate(g),
                            ),
                        ),
                    ),
                )
            }),
    {
        let popped = self.my_start_queue.pop_front();
        match popped {
            Option::None => Ok(false),
            Option::Some(desc) => {
                proof {
                    assert(desc@ == my_start_view(*old(self))[0]);
                    assert(my_start_view(*self) =~= my_start_view(*old(self)).drop_first());
                }
                let mut dehydrated_games: Vec<FlatGameStartInfo> = Vec::new();
                let ghost their_views = desc@.their_games;
                let mut i: usize = 0;
                while i < desc.their_games.len()
                    invariant
                        i <= desc.their_games@.len(),
                        their_views == desc@.their_games,
                        their_views == desc.their_games@.map(|k: int, g: GameStartInfo| g@),
                        dehydrated_games@.len() == i,
                        forall|k: int|
                            0 <= k < i ==> (#[trigger] dehydrated_games@[k])@ == spec_dehydrate(
                                their_views[k],
                            ),
                    decreases desc.their_games@.len() - i,
                {
                    proof {
                        assert(their_views[i as int] == desc.their_games@[i as int]@);
                    }
                    let flat = desc.their_games[i].to_serializable();
                    proof {
                        assert(flat@ == spec_dehydrate(their_views[i as int]));
                    }
                    dehydrated_games.push(flat);
                    i = i + 1;
                }
                proof {
                    assert(dehydrated_games@.map(|k: int, f: FlatGameStartInfo| f@)
                        =~= their_views.map(
                        |k: int, g: crate::game_start::GameStartInfoV| spec_dehydrate(g),
                    ));
                }
                let sigs = match &self.channel_handler {
                    Option::Some(ch) => ch.send_potato_start_game(&desc.my_games),
                    Option::None => {
                        return Err(Error::NoChannelHandler);
                    },
                };
                emit(effects, Effect::SendMessage(PeerMessage::StartGames(sigs, dehydrated_games)));
                self.have_potato = PotatoState::Absent;
                Ok(true)
            },
        }
    }

    /// With the potato here, perform the front pending local action, if
    /// any: a move, an accept, or the clean shutdown spend.
    fn have_potato_move(&mut self, effects: &mut Vec<Effect>) -> (r: Result<bool, Error>)
        requires
            old(self).wf_core(),
        ensures
            final(self).wf_core(),
            r is Ok,
            same_core(*old(self), *final(self)),
            my_start_view(*final(self)) == my_start_view(*old(self)),
            actions_view(*old(self)).len() == 0 ==> ({
                &&& r->Ok_0 == false
                &&& final(self).have_potato == old(self).have_potato
                &&& actions_view(*final(self)) == actions_view(*old(self))
                &&& effects_view(final(effects)@) == effects_view(old(effects)@)
            }),
            actions_view(*old(self)).len() > 0 ==> ({
                &&& r->Ok_0 == true
                &&& final(self).have_potato is Absent
                &&& actions_view(*final(self)) == actions_view(*old(self)).drop_first()
                &&& effects_view(final(effects)@) == effects_view(old(effects)@) + (match 
                actions_view(*old(self))[0] {
                    GameActionV::Move(id, rm) => seq![
                        EffectV::SendMessage(PeerMessageV::Move(id, rm)),
                    ],
                    GameActionV::Accept(id) => seq![
                        EffectV::SendMessage(
                            PeerMessageV::Accept(id, 0, spec_empty_sigs()),
                        ),
                        EffectV::GameFinished(id, 0),
                    ],
                    GameActionV::Shutdown(conds) => seq![
                        EffectV::SpendTransactionAndAddFee(
                            spec_shutdown_bundle(*old(self), conds),
                        ),
                    ],
                })
            }),
    {
        let popped = self.game_action_queue.pop_front();
        match popped {
            Option::None => Ok(false),
            Option::Some(action) => {
                proof {
                    assert(action@ == actions_view(*old(self))[0]);
                    assert(actions_view(*self) =~= actions_view(*old(self)).drop_first());
                    assert(my_start_view(*self) =~= my_start_view(*old(self)));
                }
                match action {
                    GameAction::Move(game_id, readable_move) => {
                        let move_result = match &self.channel_handler {
                            Option::Some(ch) => ch.send_potato_move(&game_id, &readable_move),
                            Option::None => {
                                return Err(Error::NoChannelHandler);
                            },
                        };
                        emit(effects, Effect::SendMessage(PeerMessage::Move(game_id, move_result)));
                        self.have_potato = PotatoState::Absent;
                        proof {
                            assert(effects_view(effects@) =~= effects_view(old(effects)@) + seq![
                                EffectV::SendMessage(
                                    PeerMessageV::Move(
                                        actions_view(*old(self))[0]->Move_0,
                                        actions_view(*old(self))[0]->Move_1,
                                    ),
                                ),
                            ]);
                        }
                        Ok(true)
                    },
                    GameAction::Accept(game_id) => {
                        let (sigs, amount) = match &self.channel_handler {
                            Option::Some(ch) => ch.send_potato_accept(&game_id),
                            Option::None => {
                                return Err(Error::NoChannelHandler);
                            },
                        };
                        let id_for_report = game_id.clone();
                        emit(
                            effects,
                            Effect::SendMessage(PeerMessage::Accept(game_id, amount, sigs)),
                        );
                        emit(effects, Effect::GameFinished(id_for_report, amount));
                        self.have_potato = PotatoState::Absent;
                        proof {
                            assert(effects_view(effects@) =~= effects_view(old(effects)@) + seq![
                                EffectV::SendMessage(
                                    PeerMessageV::Accept(
                                        actions_view(*old(self))[0]->Accept_0,
                                        0,
                                        spec_empty_sigs(),
                                    ),
                                ),
                                EffectV::GameFinished(actions_view(*old(self))[0]->Accept_0, 0),
                            ]);
                        }
                        Ok(true)
                    },
                    GameAction::Shutdown(target_conditions) => {
                        let parent = match self.parent_coin() {
                            Ok(p) => p,
                            Err(e) => {
                                return Err(e);
                            },
                        };
                        let inner_spend_for_shutdown = match &self.channel_handler {
                            Option::Some(ch) => ch.send_potato_clean_shutdown(&target_conditions),
                            Option::None => {
                                return Err(Error::NoChannelHandler);
                            },
                        };
                        self.have_potato = PotatoState::Absent;
                        let mut spends: Vec<CoinSpend> = Vec::new();
                        spends.push(CoinSpend { coin: parent, bundle: inner_spend_for_shutdown });
                        let bundle = SpendBundle { spends };
                        proof {
                            assert(bundle@.spends =~= spec_shutdown_bundle(
                                *old(self),
                                actions_view(*old(self))[0]->Shutdown_0,
                            ).spends);
                        }
                        emit(effects, Effect::SpendTransactionAndAddFee(bundle));
                        proof {
                            assert(effects_view(effects@) =~= effects_view(old(effects)@) + seq![
                                EffectV::SpendTransactionAndAddFee(
                                    spec_shutdown_bundle(
                                        *old(self),
                                        actions_view(*old(self))[0]->Shutdown_0,
                                    ),
                                ),
                            ]);
                        }
                        Ok(true)
                    },
                }
            },
        }
    }

    /// The potato just arrived: mark it present and drain one unit of
    /// pending work, starts before moves.
    fn update_channel_coin_after_receive(&mut self, effects: &mut Vec<Effect>) -> (r: Result<
        (),
        Error,
    >)
        requires
            old(self).wf_core(),
            old(self).handshake_state is Finished,
        ensures
            final(self).wf(),
            r is Ok,
            same_core(*old(self), *final(self)),
            drained_queues(*old(self), *final(self)),
            final(self).have_potato == drained_potato(*old(self)),
            effects_view(final(effects)@) == effects_view(old(effects)@) + drain_tail(*old(self)),
    {
        self.have_potato = PotatoState::Present;
        let did_start = match self.have_potato_start_game(effects) {
            Ok(b) => b,
            Err(e) => {
                proof {
                    assert(false);
                }
                return Err(e);
            },
        };
        if did_start {
            proof {
                assert(effects_view(effects@) =~= effects_view(old(effects)@) + drain_tail(
                    *old(self),
                ));
            }
            return Ok(());
        }
        match self.have_potato_move(effects) {
            Ok(_) => {
            },
            Err(e) => {
                proof {
                    assert(false);
                }
                return Err(e);
            },
        }
        proof {
            assert(effects_view(effects@) =~= effects_view(old(effects)@) + drain_tail(
                *old(self),
            ));
        }
        Ok(())
    }
}

/// What receiving one potato-bearing message reports upward, before the
/// drain runs.
pub open spec fn receive_effects(m: PeerMessageV) -> Seq<EffectV> {
    match m {
        PeerMessageV::Move(id, mv) => seq![EffectV::OpponentMoved(id, mv)],
        PeerMessageV::Accept(id, amount, _) => seq![EffectV::GameFinished(id, amount)],
        _ => Seq::empty(),
    }
}

/// The channel coin a handler constructed from these inputs watches.
pub open spec fn spec_new_channel_coin(
    launcher: Seq<u8>,
    we_start: bool,
    their_pk: Seq<u8>,
    keys: ChannelHandlerPrivateKeysV,
    my_c: u64,
    their_c: u64,
) -> crate::types::CoinStringV {
    crate::types::CoinStringV {
        parent: launcher,
        puzzle_hash: if we_start {
            spec_channel_puzzle_hash(their_pk, spec_public_key_of(keys.channel))
        } else {
            spec_channel_puzzle_hash(spec_public_key_of(keys.channel), their_pk)
        },
        amount: (my_c + their_c) as u64,
    }
}

impl PotatoHandler {
    /// Forward one potato-bearing message to the channel handler, report
    /// its products upward, and drain once.
    fn pass_on_channel_handler_message(&mut self, effects: &mut Vec<Effect>, msg: PeerMessage) -> (r:
        Result<(), Error>)
        requires
            old(self).wf(),
            old(self).handshake_state is Finished,
            old(self).channel_handler is Some,
        ensures
            final(self).wf(),
            same_config(*old(self), *final(self)),
            final(self).handshake_state@ == old(self).handshake_state@,
            !(msg@ is Nil || msg@ is Move || msg@ is Accept) ==> ({
                &&& r is Err
                &&& r->Err_0 is UnexpectedMessage
                &&& same_state(*old(self), *final(self))
                &&& effects_view(final(effects)@) == effects_view(old(effects)@)
            }),
            (msg@ is Nil || msg@ is Move || msg@ is Accept) ==> ({
                &&& r is Ok
                &&& same_core(*old(self), *final(self))
                &&& drained_queues(*old(self), *final(self))
                &&& final(self).have_potato == drained_potato(*old(self))
                &&& effects_view(final(effects)@) == (effects_view(old(effects)@)
                    + receive_effects(msg@)) + drain_tail(*old(self))
            }),
    {
        match msg {
            PeerMessage::Nil(n) => {
                match &self.channel_handler {
                    Option::Some(ch) => {
                        let _spend_info = ch.received_empty_potato(&n);
                    },
                    Option::None => {
                        return Err(Error::NoChannelHandler);
                    },
                }
                let r = self.update_channel_coin_after_receive(effects);
                proof {
                    assert(effects_view(effects@) =~= (effects_view(old(effects)@)
                        + receive_effects(PeerMessageV::Nil(n@))) + drain_tail(*old(self)));
                }
                r
            },
            PeerMessage::Move(game_id, m) => {
                let readable = match &self.channel_handler {
                    Option::Some(ch) => {
                        let (_spend_info, readable, _message) = ch.received_potato_move(
                            &game_id,
                            &m,
                        );
                        readable
                    },
                    Option::None => {
                        return Err(Error::NoChannelHandler);
                    },
                };
                let ghost idv = game_id@;
                let ghost mv = m@;
                emit(effects, Effect::OpponentMoved(game_id, readable));
                let r = self.update_channel_coin_after_receive(effects);
                proof {
                    assert(effects_view(effects@) =~= (effects_view(old(effects)@)
                        + receive_effects(PeerMessageV::Move(idv, mv))) + drain_tail(*old(self)));
                }
                r
            },
            PeerMessage::Accept(game_id, amount, sigs) => {
                match &self.channel_handler {
                    Option::Some(ch) => {
                        let _spend_info = ch.received_potato_accept(&sigs, &game_id);
                    },
                    Option::None => {
                        return Err(Error::NoChannelHandler);
                    },
                }
                let ghost idv = game_id@;
                let ghost av = amount@;
                let ghost sv = sigs@;
                emit(effects, Effect::GameFinished(game_id, amount));
                let r = self.update_channel_coin_after_receive(effects);
                proof {
                    assert(effects_view(effects@) =~= (effects_view(old(effects)@)
                        + receive_effects(PeerMessageV::Accept(idv, av, sv))) + drain_tail(
                        *old(self),
                    ));
                }
                r
            },
            _ => Err(Error::UnexpectedMessage),
        }
    }

    /// Finish the initiator's side once the wallet's offer has arrived:
    /// enter the terminal state and send the offer to the peer.
    pub fn try_complete_step_e(
        &mut self,
        effects: &mut Vec<Effect>,
        first_player_hs_info: HandshakeA,
        second_player_hs_info: HandshakeB,
    ) -> (r: Result<(), Error>)
        requires
            old(self).wf(),
            old(self).handshake_state is PostStepE,
        ensures
            final(self).wf(),
            r is Ok,
            same_config(*old(self), *final(self)),
            final(self).have_potato == old(self).have_potato,
            my_start_view(*final(self)) == my_start_view(*old(self)),
            actions_view(*final(self)) == actions_view(*old(self)),
            final(self).their_start_queue@.len() == old(self).their_start_queue@.len(),
            final(self).next_game_id@ == old(self).next_game_id@,
            opt_ch_same(final(self).channel_handler, old(self).channel_handler),
            opt_bundle_view(final(self).channel_initiation_transaction) == opt_bundle_view(
                old(self).channel_initiation_transaction,
            ),
            opt_bundle_view(final(self).channel_finished_transaction) == opt_bundle_view(
                old(self).channel_finished_transaction,
            ),
            final(self).waiting_to_start == old(self).waiting_to_start,
            potato_spent(effects_view(final(effects)@)) - potato_spent(effects_view(old(effects)@))
                == 0,
            old(self).channel_initiation_transaction is None ==> ({
                &&& same_state(*old(self), *final(self))
                &&& effects_view(final(effects)@) == effects_view(old(effects)@)
            }),
            old(self).channel_initiation_transaction is Some ==> ({
                let tx = old(self).channel_initiation_transaction->Some_0@;
                &&& final(self).handshake_state@ == HandshakeStateV::Finished(
                    crate::messages::HandshakeStepWithSpendV {
                        info: crate::messages::HandshakeStepInfoV {
                            first: first_player_hs_info@,
                            second: second_player_hs_info@,
                        },
                        spend: tx,
                    },
                )
                &&& effects_view(final(effects)@) == effects_view(old(effects)@).push(
                    EffectV::SendMessage(PeerMessageV::HandshakeE { bundle: tx }),
                )
            }),
    {
        let tx = match &self.channel_initiation_transaction {
            Option::Some(spend) => spend.clone(),
            Option::None => {
                return Ok(());
            },
        };
        self.handshake_state = HandshakeState::Finished(
            HandshakeStepWithSpend {
                info: HandshakeStepInfo { first_player_hs_info, second_player_hs_info },
                spend: tx.clone(),
            },
        );
        emit(effects, Effect::SendMessage(PeerMessage::HandshakeE { bundle: tx }));
        Ok(())
    }

    /// Finish the responder's side once both the channel coin appeared on
    /// chain and the wallet's completion arrived: enter the terminal
    /// state and send the completion to the peer.
    pub fn try_complete_step_f(
        &mut self,
        effects: &mut Vec<Effect>,
        first_player_hs_info: HandshakeA,
        second_player_hs_info: HandshakeB,
    ) -> (r: Result<(), Error>)
        requires
            old(self).wf(),
            old(self).handshake_state is PostStepF,
        ensures
            final(self).wf(),
            r is Ok,
            same_config(*old(self), *final(self)),
            final(self).have_potato == old(self).have_potato,
            my_start_view(*final(self)) == my_start_view(*old(self)),
            actions_view(*final(self)) == actions_view(*old(self)),
            final(self).their_start_queue@.len() == old(self).their_start_queue@.len(),
            final(self).next_game_id@ == old(self).next_game_id@,
            opt_ch_same(final(self).channel_handler, old(self).channel_handler),
            opt_bundle_view(final(self).channel_initiation_transaction) == opt_bundle_view(
                old(self).channel_initiation_transaction,
            ),
            opt_bundle_view(final(self).channel_finished_transaction) == opt_bundle_view(
                old(self).channel_finished_transaction,
            ),
            final(self).waiting_to_start == old(self).waiting_to_start,
            potato_spent(effects_view(final(effects)@)) - potato_spent(effects_view(old(effects)@))
                == 0,
            (old(self).waiting_to_start || old(self).channel_finished_transaction is None) ==> ({
                &&& same_state(*old(self), *final(self))
                &&& effects_view(final(effects)@) == effects_view(old(effects)@)
            }),
            (!old(self).waiting_to_start && old(self).channel_finished_transaction is Some) ==> ({
                let tx = old(self).channel_finished_transaction->Some_0@;
                &&& final(self).handshake_state@ == HandshakeStateV::Finished(
                    crate::messages::HandshakeStepWithSpendV {
                        info: crate::messages::HandshakeStepInfoV {
                            first: first_player_hs_info@,
                            second: second_player_hs_info@,
                        },
                        spend: tx,
                    },
                )
                &&& effects_view(final(effects)@) == effects_view(old(effects)@).push(
                    EffectV::SendMessage(PeerMessageV::HandshakeF { bundle: tx }),
                )
            }),
    {
        if self.waiting_to_start {
            return Ok(());
        }
        let tx = match &self.channel_finished_transaction {
            Option::Some(spend) => spend.clone(),
            Option::None => {
                return Ok(());
            },
        };
        self.handshake_state = HandshakeState::Finished(
            HandshakeStepWithSpend {
                info: HandshakeStepInfo { first_player_hs_info, second_player_hs_info },
                spend: tx.clone(),
            },
        );
        emit(effects, Effect::SendMessage(PeerMessage::HandshakeF { bundle: tx }));
        Ok(())
    }
}

impl PotatoHandler {
    /// Take one announced game start off the waiting queue, rehydrate the
    /// flat records, hand them to the channel handler, and drain.  The
    /// round-trip law proves each record re-serializes to the bytes that
    /// arrived, so no runtime check of that is needed.
    fn received_game_start(
        &mut self,
        effects: &mut Vec<Effect>,
        sigs: PotatoSignatures,
        games: Vec<FlatGameStartInfo>,
    ) -> (r: Result<(), Error>)
        requires
            old(self).wf(),
            old(self).handshake_state is Finished,
            old(self).channel_handler is Some,
        ensures
            final(self).wf(),
            same_config(*old(self), *final(self)),
            final(self).handshake_state@ == old(self).handshake_state@,
            old(self).their_start_queue@.len() == 0 ==> ({
                &&& r is Err
                &&& r->Err_0 is NoWaitingGames
                &&& same_state(*old(self), *final(self))
                &&& effects_view(final(effects)@) == effects_view(old(effects)@)
            }),
            old(self).their_start_queue@.len() > 0 ==> ({
                &&& r is Ok
                &&& final(self).their_start_queue@.len() == old(self).their_start_queue@.len() - 1
                &&& drained_queues(*old(self), *final(self))
                &&& final(self).have_potato == drained_potato(*old(self))
                &&& final(self).next_game_id@ == old(self).next_game_id@
                &&& opt_ch_same(final(self).channel_handler, old(self).channel_handler)
                &&& opt_bundle_view(final(self).channel_initiation_transaction) == opt_bundle_view(
                    old(self).channel_initiation_transaction,
                )
                &&& opt_bundle_view(final(self).channel_finished_transaction) == opt_bundle_view(
                    old(self).channel_finished_transaction,
                )
                &&& final(self).waiting_to_start == old(self).waiting_to_start
                &&& effects_view(final(effects)@) == effects_view(old(effects)@) + drain_tail(
                    *old(self),
                )
            }),
    {
        let popped = self.their_start_queue.pop_front();
        match popped {
            Option::None => {
                return Err(Error::NoWaitingGames);
            },
            Option::Some(_entry) => {
            },
        }
        let mut rehydrated: Vec<GameStartInfo> = Vec::new();
        let mut i: usize = 0;
        while i < games.len()
            decreases games@.len() - i,
        {
            rehydrated.push(GameStartInfo::from_serializable(&games[i]));
            i = i + 1;
        }
        match &self.channel_handler {
            Option::Some(ch) => {
                let _spend_info = ch.received_potato_start_game(&sigs, &rehydrated);
            },
            Option::None => {
                proof {
                    assert(false);
                }
                return Err(Error::NoChannelHandler);
            },
        }
        let r = self.update_channel_coin_after_receive(effects);
        r
    }

    /// Decode one frame from the peer and dispatch it by handshake state.
    ///
    /// The contract walks the handshake table: which message is legal in
    /// which state, what is emitted, where the state moves, and how the
    /// potato accounting balances.
    #[verifier::rlimit(100)]
    pub fn received_message(&mut self, effects: &mut Vec<Effect>, msg: Vec<u8>) -> (r: Result<
        (),
        Error,
    >)
        requires
            old(self).wf(),
        ensures
            final(self).wf(),
            same_config(*old(self), *final(self)),
            // The handshake only moves forward.
            handshake_index(final(self).handshake_state@) >= handshake_index(
                old(self).handshake_state@,
            ),
            // A rejected message changes nothing and emits nothing.
            r is Err ==> same_state(*old(self), *final(self)) && effects_view(final(effects)@)
                == effects_view(old(effects)@),
            spec_decode_message(msg@) is None ==> r is Err && r->Err_0 is Decode,
            r is Ok ==> spec_decode_message(msg@) is Some,
            // Potato accounting: what was emitted never consumes more than
            // one potato, and the books balance.
            ({
                let pre = effects_view(old(effects)@);
                let post = effects_view(final(effects)@);
                &&& potato_spent(pre) <= potato_spent(post)
                &&& potato_spent(post) - potato_spent(pre) <= 1
                &&& (r is Ok ==> ({
                    let m = spec_decode_message(msg@)->Some_0;
                    if is_potato_message(m) && old(self).handshake_state is Finished {
                        potato_token(final(self).have_potato) + potato_spent(post) - potato_spent(
                            pre,
                        ) == 1
                    } else {
                        potato_token(final(self).have_potato) + potato_spent(post) - potato_spent(
                            pre,
                        ) == potato_token(old(self).have_potato) + (if is_potato_message(m) {
                            1int
                        } else {
                            0int
                        })
                    }
                }))
            }),
            // Bookkeeping frames used by the queue-matching law.
            (r is Ok && !(old(self).handshake_state is Finished
                && spec_decode_message(msg@)->Some_0 is StartGames))
                ==> final(self).their_start_queue@.len() == old(self).their_start_queue@.len(),
            (r is Ok && !(old(self).handshake_state is StepB || old(self).handshake_state
                is StepC)) ==> final(self).next_game_id@ == old(self).next_game_id@,
            r is Ok ==> opt_bundle_view(final(self).channel_initiation_transaction)
                == opt_bundle_view(old(self).channel_initiation_transaction),
            (r is Ok && !(old(self).handshake_state is Finished && spec_decode_message(
                msg@,
            )->Some_0 is HandshakeF)) ==> opt_bundle_view(final(self).channel_finished_transaction)
                == opt_bundle_view(old(self).channel_finished_transaction),
            r is Ok ==> final(self).waiting_to_start == old(self).waiting_to_start,
            (r is Ok && !(old(self).handshake_state is Finished)) ==> my_start_view(*final(self))
                == my_start_view(*old(self)) && actions_view(*final(self)) == actions_view(
                *old(self),
            ),
            // No inbound message is legal in StepA or the waiting states.
            old(self).handshake_state is StepA ==> r is Err,
            old(self).handshake_state is PostStepE ==> r is Err,
            old(self).handshake_state is PostStepF ==> r is Err,
            // StepB: the responder takes HandshakeA, builds the channel,
            // seeds the id counter, and answers with its key bundle.
            ({
                let d = spec_decode_message(msg@);
                (old(self).handshake_state is StepB && d is Some) ==> ({
                    let m = d->Some_0;
                    if m is HandshakeA {
                        let a = m->HandshakeA_0;
                        let myb = spec_my_handshake_b(
                            old(self).private_keys@,
                            old(self).reward_puzzle_hash@,
                        );
                        &&& r is Ok
                        &&& final(self).handshake_state@ == HandshakeStateV::StepD(
                            crate::messages::HandshakeStepInfoV { first: a, second: myb },
                        )
                        &&& final(self).channel_handler is Some
                        &&& final(self).channel_handler->Some_0.state_channel_coin@
                            == spec_new_channel_coin(
                            spec_coin_id(a.parent),
                            true,
                            a.simple.channel_public_key,
                            old(self).private_keys@,
                            old(self).my_contribution@,
                            old(self).their_contribution@,
                        )
                        &&& final(self).next_game_id@ == sha256_of(
                            old(self).private_keys@.channel + old(self).private_keys@.unroll
                                + old(self).private_keys@.referee,
                        )
                        &&& final(self).have_potato == old(self).have_potato
                        &&& effects_view(final(effects)@) == effects_view(old(effects)@).push(
                            EffectV::SendMessage(PeerMessageV::HandshakeB(myb)),
                        )
                    } else {
                        r is Err && r->Err_0 is UnexpectedMessage
                    }
                })
            }),
            // StepC: the initiator takes HandshakeB, builds the channel,
            // reports the channel puzzle hash and coin, seeds the id
            // counter, and passes the potato with an empty update.
            ({
                let d = spec_decode_message(msg@);
                (old(self).handshake_state is StepC && d is Some) ==> ({
                    let m = d->Some_0;
                    if m is HandshakeB {
                        let b = m->HandshakeB_0;
                        let myb = spec_my_handshake_b(
                            old(self).private_keys@,
                            old(self).reward_puzzle_hash@,
                        );
                        let coin = spec_new_channel_coin(
                            spec_coin_id(old(self).handshake_state@->StepC_0),
                            false,
                            b.channel_public_key,
                            old(self).private_keys@,
                            old(self).my_contribution@,
                            old(self).their_contribution@,
                        );
                        &&& r is Ok
                        &&& final(self).handshake_state@ == HandshakeStateV::StepE(
                            crate::messages::HandshakeStepInfoV {
                                first: old(self).handshake_state@->StepC_1,
                                second: myb,
                            },
                        )
                        &&& final(self).channel_handler is Some
                        &&& final(self).channel_handler->Some_0.state_channel_coin@ == coin
                        &&& final(self).next_game_id@ == sha256_of(
                            old(self).private_keys@.channel + old(self).private_keys@.unroll
                                + old(self).private_keys@.referee,
                        )
                        &&& final(self).have_potato is Absent
                        &&& effects_view(final(effects)@) == effects_view(old(effects)@) + seq![
                            EffectV::ChannelPuzzleHash(coin.puzzle_hash),
                            EffectV::RegisterCoin(coin, old(self).channel_timeout@),
                            EffectV::SendMessage(PeerMessageV::Nil(spec_empty_sigs())),
                        ]
                    } else {
                        r is Err && r->Err_0 is UnexpectedMessage
                    }
                })
            }),
            // StepD: the responder takes the empty potato and passes it
            // straight back.
            ({
                let d = spec_decode_message(msg@);
                (old(self).handshake_state is StepD && d is Some) ==> ({
                    let m = d->Some_0;
                    if m is Nil {
                        &&& r is Ok
                        &&& final(self).handshake_state@ == HandshakeStateV::StepF(
                            old(self).handshake_state@->StepD_0,
                        )
                        &&& final(self).have_potato is Absent
                        &&& effects_view(final(effects)@) == effects_view(old(effects)@).push(
                            EffectV::SendMessage(PeerMessageV::Nil(spec_empty_sigs())),
                        )
                    } else {
                        r is Err && r->Err_0 is UnexpectedMessage
                    }
                })
            }),
            // StepE: the initiator takes the returned potato and finishes
            // as soon as the wallet's offer is here.
            ({
                let d = spec_decode_message(msg@);
                (old(self).handshake_state is StepE && d is Some) ==> ({
                    let m = d->Some_0;
                    if m is Nil {
                        &&& r is Ok
                        &&& final(self).have_potato is Present
                        &&& (old(self).channel_initiation_transaction is Some ==> ({
                            let tx = old(self).channel_initiation_transaction->Some_0@;
                            &&& final(self).handshake_state@ == HandshakeStateV::Finished(
                                crate::messages::HandshakeStepWithSpendV {
                                    info: old(self).handshake_state@->StepE_0,
                                    spend: tx,
                                },
                            )
                            &&& effects_view(final(effects)@) == effects_view(old(effects)@).push(
                                EffectV::SendMessage(PeerMessageV::HandshakeE { bundle: tx }),
                            )
                        }))
                        &&& (old(self).channel_initiation_transaction is None ==> ({
                            &&& final(self).handshake_state@ == HandshakeStateV::PostStepE(
                                old(self).handshake_state@->StepE_0,
                            )
                            &&& effects_view(final(effects)@) == effects_view(old(effects)@)
                        }))
                    } else {
                        r is Err && r->Err_0 is UnexpectedMessage
                    }
                })
            }),
            // StepF: the responder takes the channel offer, registers the
            // channel coin and hands the offer to its wallet.
            ({
                let d = spec_decode_message(msg@);
                (old(self).handshake_state is StepF && d is Some) ==> ({
                    let m = d->Some_0;
                    if m is HandshakeE {
                        let bundle = m->HandshakeE_bundle;
                        if bundle.spends.len() == 0 {
                            r is Err && r->Err_0 is EmptyBundle
                        } else {
                            &&& r is Ok
                            &&& final(self).handshake_state@ == HandshakeStateV::PostStepF(
                                old(self).handshake_state@->StepF_0,
                            )
                            &&& final(self).have_potato is Absent
                            &&& effects_view(final(effects)@) == effects_view(old(effects)@)
                                + seq![
                                EffectV::RegisterCoin(
                                    old(
                                        self,
                                    ).channel_handler->Some_0.state_channel_coin@,
                                    old(self).channel_timeout@,
                                ),
                                EffectV::ReceivedChannelOffer(bundle),
                            ]
                        }
                    } else {
                        r is Err && r->Err_0 is UnexpectedMessage
                    }
                })
            }),
            // Finished: the running dispatch table.
            ({
                let d = spec_decode_message(msg@);
                (old(self).handshake_state is Finished && d is Some) ==> ({
                    let m = d->Some_0;
                    match m {
                        PeerMessageV::HandshakeF { bundle } => {
                            &&& r is Ok
                            &&& final(self).handshake_state@ == old(self).handshake_state@
                            &&& final(self).have_potato == old(self).have_potato
                            &&& opt_bundle_view(final(self).channel_finished_transaction)
                                == Some(bundle)
                            &&& effects_view(final(effects)@) == effects_view(old(effects)@).push(
                                EffectV::ReceivedChannelOffer(bundle),
                            )
                        },
                        PeerMessageV::RequestPotato => {
                            &&& (old(self).have_potato is Present ==> ({
                                &&& r is Ok
                                &&& final(self).handshake_state@ == old(self).handshake_state@
                                &&& final(self).have_potato is Absent
                                &&& effects_view(final(effects)@) == effects_view(
                                    old(effects)@,
                                ).push(
                                    EffectV::SendMessage(PeerMessageV::Nil(spec_empty_sigs())),
                                )
                            }))
                            &&& (!(old(self).have_potato is Present) ==> r is Err && r->Err_0
                                is PotatoAccounting)
                        },
                        PeerMessageV::StartGames(_, _) => {
                            &&& (old(self).their_start_queue@.len() == 0 ==> r is Err
                                && r->Err_0 is NoWaitingGames)
                            &&& (old(self).their_start_queue@.len() > 0 ==> ({
                                &&& r is Ok
                                &&& final(self).their_start_queue@.len() == old(
                                    self,
                                ).their_start_queue@.len() - 1
                                &&& drained_queues(*old(self), *final(self))
                                &&& final(self).have_potato == drained_potato(*old(self))
                                &&& final(self).handshake_state@ == old(self).handshake_state@
                                &&& effects_view(final(effects)@) == effects_view(old(effects)@)
                                    + drain_tail(*old(self))
                            }))
                        },
                        PeerMessageV::Nil(_) => {
                            &&& r is Ok
                            &&& drained_queues(*old(self), *final(self))
                            &&& final(self).have_potato == drained_potato(*old(self))
                            &&& final(self).handshake_state@ == old(self).handshake_state@
                            &&& effects_view(final(effects)@) == (effects_view(old(effects)@)
                                + receive_effects(m)) + drain_tail(*old(self))
                        },
                        PeerMessageV::Move(_, _) => {
                            &&& r is Ok
                            &&& drained_queues(*old(self), *final(self))
                            &&& final(self).have_potato == drained_potato(*old(self))
                            &&& final(self).handshake_state@ == old(self).handshake_state@
                            &&& effects_view(final(effects)@) == (effects_view(old(effects)@)
                                + receive_effects(m)) + drain_tail(*old(self))
                        },
                        PeerMessageV::Accept(_, _, _) => {
                            &&& r is Ok
                            &&& drained_queues(*old(self), *final(self))
                            &&& final(self).have_potato == drained_potato(*old(self))
                            &&& final(self).handshake_state@ == old(self).handshake_state@
                            &&& effects_view(final(effects)@) == (effects_view(old(effects)@)
                                + receive_effects(m)) + drain_tail(*old(self))
                        },
                        _ => r is Err && r->Err_0 is UnexpectedMessage,
                    }
                })
            }),
    {
        let decoded = match decode_message(&msg) {
            Ok(m) => m,
            Err(e) => {
                return Err(e);
            },
        };
        let ghost dm = decoded@;
        match &self.handshake_state {
            HandshakeState::StepA => Err(Error::UnexpectedMessage),
            HandshakeState::StepB => {
                let msg_a = match decoded {
                    PeerMessage::HandshakeA(a) => a,
                    _ => {
                        return Err(Error::UnexpectedMessage);
                    },
                };
                let launcher_coin_id = coin_id_of(&msg_a.parent);
                let init_data = ChannelHandlerInitiationData {
                    launcher_coin_id,
                    we_start_with_potato: true,
                    their_channel_pubkey: msg_a.simple.channel_public_key.clone(),
                    their_unroll_pubkey: msg_a.simple.unroll_public_key.clone(),
                    their_referee_puzzle_hash: msg_a.simple.referee_puzzle_hash.clone(),
                    my_contribution: self.my_contribution,
                    their_contribution: self.their_contribution,
                };
                let channel_handler = match ChannelHandler::new(&self.private_keys, &init_data) {
                    Ok(ch) => ch,
                    Err(e) => {
                        proof {
                            assert(false);
                        }
                        return Err(e);
                    },
                };
                let my_hs_info = self.make_my_handshake_b();
                self.next_game_id = init_game_id(&self.private_keys);
                self.channel_handler = Some(channel_handler);
                self.handshake_state = HandshakeState::StepD(
                    HandshakeStepInfo {
                        first_player_hs_info: msg_a,
                        second_player_hs_info: my_hs_info.clone(),
                    },
                );
                emit(effects, Effect::SendMessage(PeerMessage::HandshakeB(my_hs_info)));
                Ok(())
            },
            HandshakeState::StepC(parent_coin, handshake_a) => {
                let parent = parent_coin.clone();
                let hs_a = handshake_a.clone();
                let msg_b = match decoded {
                    PeerMessage::HandshakeB(b) => b,
                    _ => {
                        return Err(Error::UnexpectedMessage);
                    },
                };
                let launcher_coin_id = coin_id_of(&parent);
                let init_data = ChannelHandlerInitiationData {
                    launcher_coin_id,
                    we_start_with_potato: false,
                    their_channel_pubkey: msg_b.channel_public_key.clone(),
                    their_unroll_pubkey: msg_b.unroll_public_key.clone(),
                    their_referee_puzzle_hash: msg_b.referee_puzzle_hash.clone(),
                    my_contribution: self.my_contribution,
                    their_contribution: self.their_contribution,
                };
                let channel_handler = match ChannelHandler::new(&self.private_keys, &init_data) {
                    Ok(ch) => ch,
                    Err(e) => {
                        proof {
                            assert(false);
                        }
                        return Err(e);
                    },
                };
                let channel_coin = channel_handler.state_channel_coin();
                let (_parent_id, channel_puzzle_hash, _amount) = channel_coin.to_parts();
                emit(effects, Effect::ChannelPuzzleHash(channel_puzzle_hash));
                emit(effects, Effect::RegisterCoin(channel_coin, self.channel_timeout));
                let our_handshake_data = self.make_my_handshake_b();
                let nil_sigs = channel_handler.send_empty_potato();
                emit(effects, Effect::SendMessage(PeerMessage::Nil(nil_sigs)));
                self.next_game_id = init_game_id(&self.private_keys);
                self.channel_handler = Some(channel_handler);
                self.handshake_state = HandshakeState::StepE(
                    HandshakeStepInfo {
                        first_player_hs_info: hs_a,
                        second_player_hs_info: our_handshake_data,
                    },
                );
                self.have_potato = PotatoState::Absent;
                Ok(())
            },
            HandshakeState::StepD(info) => {
                let info_c = info.clone();
                let nil_sigs = match decoded {
                    PeerMessage::Nil(n) => n,
                    _ => {
                        return Err(Error::UnexpectedMessage);
                    },
                };
                let nil_msg = match &self.channel_handler {
                    Option::Some(ch) => {
                        let _spend_info = ch.received_empty_potato(&nil_sigs);
                        ch.send_empty_potato()
                    },
                    Option::None => {
                        proof {
                            assert(false);
                        }
                        return Err(Error::NoChannelHandler);
                    },
                };
                // The local queues are empty before the handshake ends, so
                // the potato passes straight back with the answering Nil.
                self.handshake_state = HandshakeState::StepF(info_c);
                emit(effects, Effect::SendMessage(PeerMessage::Nil(nil_msg)));
                self.have_potato = PotatoState::Absent;
                Ok(())
            },
            HandshakeState::StepE(info) => {
                let info_c = info.clone();
                let nil_sigs = match decoded {
                    PeerMessage::Nil(n) => n,
                    _ => {
                        return Err(Error::UnexpectedMessage);
                    },
                };
                match &self.channel_handler {
                    Option::Some(ch) => {
                        let _spend_info = ch.received_empty_potato(&nil_sigs);
                    },
                    Option::None => {
                        proof {
                            assert(false);
                        }
                        return Err(Error::NoChannelHandler);
                    },
                }
                self.have_potato = PotatoState::Present;
                self.handshake_state = HandshakeState::PostStepE(info_c.clone());
                let r = self.try_complete_step_e(
                    effects,
                    info_c.first_player_hs_info,
                    info_c.second_player_hs_info,
                );
                r
            },
            HandshakeState::StepF(info) => {
                let info_c = info.clone();
                let bundle = match decoded {
                    PeerMessage::HandshakeE { bundle } => bundle,
                    _ => {
                        return Err(Error::UnexpectedMessage);
                    },
                };
                if bundle.spends.len() == 0 {
                    return Err(Error::EmptyBundle);
                }
                let channel_coin = match &self.channel_handler {
                    Option::Some(ch) => ch.state_channel_coin(),
                    Option::None => {
                        proof {
                            assert(false);
                        }
                        return Err(Error::NoChannelHandler);
                    },
                };
                emit(effects, Effect::RegisterCoin(channel_coin, self.channel_timeout));
                emit(effects, Effect::ReceivedChannelOffer(bundle));
                self.handshake_state = HandshakeState::PostStepF(info_c);
                self.have_potato = PotatoState::Absent;
                // The channel coin cannot have been seen on chain yet, so
                // the completion attempt that the responder makes here
                // would find `waiting_to_start` still set and do nothing.
                Ok(())
            },
            HandshakeState::PostStepE(_) => Err(Error::UnexpectedMessage),
            HandshakeState::PostStepF(_) => Err(Error::UnexpectedMessage),
            HandshakeState::Finished(_) => {
                match decoded {
                    PeerMessage::HandshakeF { bundle } => {
                        self.channel_finished_transaction = Some(bundle.clone());
                        emit(effects, Effect::ReceivedChannelOffer(bundle));
                        Ok(())
                    },
                    PeerMessage::RequestPotato(_) => {
                        if !matches!(self.have_potato, PotatoState::Present) {
                            return Err(Error::PotatoAccounting);
                        }
                        let nil_msg = match &self.channel_handler {
                            Option::Some(ch) => ch.send_empty_potato(),
                            Option::None => {
                                proof {
                                    assert(false);
                                }
                                return Err(Error::NoChannelHandler);
                            },
                        };
                        emit(effects, Effect::SendMessage(PeerMessage::Nil(nil_msg)));
                        self.have_potato = PotatoState::Absent;
                        Ok(())
                    },
                    PeerMessage::StartGames(sigs, g) => {
                        let r = self.received_game_start(effects, sigs, g);
                        proof {
                            if old(self).their_start_queue@.len() > 0 {
                                lemma_drain_conservation(*old(self));
                                lemma_potato_spent_append(
                                    effects_view(old(effects)@),
                                    drain_tail(*old(self)),
                                );
                            }
                        }
                        r
                    },
                    other => {
                        let r = self.pass_on_channel_handler_message(effects, other);
                        proof {
                            if dm is Nil || dm is Move || dm is Accept {
                                lemma_drain_conservation(*old(self));
                                lemma_receive_effects_spend_nothing(dm);
                                lemma_potato_spent_append(
                                    effects_view(old(effects)@),
                                    receive_effects(dm),
                                );
                                lemma_potato_spent_append(
                                    effects_view(old(effects)@) + receive_effects(dm),
                                    drain_tail(*old(self)),
                                );
                            }
                        }
                        r
                    },
                }
            },
        }
    }
}

/// One drain pass consumes the potato exactly when it emitted a write.
pub proof fn lemma_drain_conservation(pre: PotatoHandler)
    ensures
        potato_spent(drain_tail(pre)) == 1 - potato_token(drained_potato(pre)),
        potato_spent(drain_tail(pre)) <= 1,
{
    let m0 = my_start_view(pre);
    let a0 = actions_view(pre);
    if m0.len() > 0 {
        lemma_spent1(drain_tail(pre)[0]);
        assert(drain_tail(pre) =~= seq![drain_tail(pre)[0]]);
    } else if a0.len() > 0 {
        match a0[0] {
            GameActionV::Move(id, rm) => {
                lemma_spent1(drain_tail(pre)[0]);
                assert(drain_tail(pre) =~= seq![drain_tail(pre)[0]]);
            },
            GameActionV::Accept(id) => {
                lemma_spent2(drain_tail(pre)[0], drain_tail(pre)[1]);
                assert(drain_tail(pre) =~= seq![drain_tail(pre)[0], drain_tail(pre)[1]]);
            },
            GameActionV::Shutdown(conds) => {
                lemma_spent1(drain_tail(pre)[0]);
                assert(drain_tail(pre) =~= seq![drain_tail(pre)[0]]);
            },
        }
    } else {
        assert(drain_tail(pre) =~= Seq::<EffectV>::empty());
    }
}

/// What a receive reports upward spends no potato.
pub proof fn lemma_receive_effects_spend_nothing(m: PeerMessageV)
    ensures
        potato_spent(receive_effects(m)) == 0,
{
    match m {
        PeerMessageV::Move(id, mv) => {
            lemma_spent1(EffectV::OpponentMoved(id, mv));
        },
        PeerMessageV::Accept(id, amount, _) => {
            lemma_spent1(EffectV::GameFinished(id, amount));
        },
        _ => {
            assert(receive_effects(m) =~= Seq::<EffectV>::empty());
        },
    }
}

/// The big-endian digits of a number, no leading zeros.
pub open spec fn be_bytes(v: nat) -> Seq<u8>
    decreases v,
{
    if v == 0 {
        Seq::empty()
    } else {
        be_bytes(v / 256).push((v % 256) as u8)
    }
}

/// The canonical non-negative CLVM integer atom: minimal big-endian, a
/// zero byte prepended when the top bit would read as a sign.
pub open spec fn clvm_int_bytes(v: u64) -> Seq<u8> {
    if v == 0 {
        Seq::empty()
    } else if be_bytes(v as nat)[0] >= 0x80 {
        seq![0u8] + be_bytes(v as nat)
    } else {
        be_bytes(v as nat)
    }
}

/// Encode an amount as a CLVM integer atom.
pub fn u64_to_clvm_atom(v: u64) -> (r: Vec<u8>)
    ensures
        r@ == clvm_int_bytes(v),
{
    if v == 0 {
        let r: Vec<u8> = Vec::new();
        proof {
            assert(r@ =~= clvm_int_bytes(0));
        }
        return r;
    }
    let mut digits_rev: Vec<u8> = Vec::new();
    let mut tmp = v;
    while tmp > 0
        invariant
            be_bytes(v as nat) == be_bytes(tmp as nat) + digits_rev@.reverse(),
        decreases tmp,
    {
        let d = (tmp % 256) as u8;
        proof {
            assert(be_bytes(tmp as nat) == be_bytes(tmp as nat / 256).push(
                (tmp as nat % 256) as u8,
            ));
            assert(digits_rev@.push(d).reverse() =~= seq![d] + digits_rev@.reverse());
            assert(be_bytes(tmp as nat / 256) + (seq![d] + digits_rev@.reverse()) =~= (be_bytes(
                tmp as nat / 256,
            ).push(d)) + digits_rev@.reverse());
        }
        digits_rev.push(d);
        tmp = tmp / 256;
    }
    proof {
        assert(be_bytes(0) + digits_rev@.reverse() =~= digits_rev@.reverse());
        assert(be_bytes(v as nat) == digits_rev@.reverse());
        assert(be_bytes(v as nat).len() > 0);
    }
    let mut out: Vec<u8> = Vec::new();
    let top = digits_rev[digits_rev.len() - 1];
    proof {
        assert(digits_rev@.reverse()[0] == digits_rev@[digits_rev@.len() - 1]);
    }
    if top >= 0x80 {
        out.push(0);
    }
    let mut k: usize = digits_rev.len();
    while k > 0
        invariant
            k <= digits_rev@.len(),
            out@ == (if digits_rev@.reverse()[0] >= 0x80 {
                seq![0u8]
            } else {
                Seq::<u8>::empty()
            }) + digits_rev@.reverse().subrange(0, digits_rev@.len() - k),
            digits_rev@.reverse()[0] == digits_rev@[digits_rev@.len() - 1],
            digits_rev@.len() > 0,
        decreases k,
    {
        proof {
            let rev = digits_rev@.reverse();
            assert(rev[digits_rev@.len() - k] == digits_rev@[k - 1]);
            assert(rev.subrange(0, digits_rev@.len() - k).push(rev[digits_rev@.len() - k])
                =~= rev.subrange(0, digits_rev@.len() - (k - 1)));
        }
        out.push(digits_rev[k - 1]);
        k = k - 1;
    }
    proof {
        let rev = digits_rev@.reverse();
        assert(rev.subrange(0, digits_rev@.len() as int) =~= rev);
        if rev[0] >= 0x80 {
            assert(out@ =~= clvm_int_bytes(v));
        } else {
            assert(Seq::<u8>::empty() + rev =~= rev);
            assert(out@ =~= clvm_int_bytes(v));
        }
    }
    out
}

impl PotatoHandler {
    /// Expand one start request: look the rule program up, evaluate it
    /// over the request's arguments, and hydrate the two per-side lists
    /// with fresh ids, the caller's timeout, and the turn flags.
    ///
    /// The factory program decides the records and how many there are;
    /// this function owes success only for what it controls: an unknown
    /// game type is rejected exactly, the two lists must come back equal
    /// in length, and the ids are the counter's next values.
    #[verifier::loop_isolation(false)]
    fn get_games_by_start_type(
        &mut self,
        allocator: &mut clvmr::Allocator,
        game_start: &GameStart,
    ) -> (r: Result<(Vec<GameStartInfo>, Vec<GameStartInfo>), Error>)
        requires
            old(self).wf(),
            old(self).next_game_id@.len() == 32,
        ensures
            final(self).wf(),
            same_config(*old(self), *final(self)),
            final(self).handshake_state@ == old(self).handshake_state@,
            final(self).have_potato == old(self).have_potato,
            my_start_view(*final(self)) == my_start_view(*old(self)),
            actions_view(*final(self)) == actions_view(*old(self)),
            final(self).their_start_queue@.len() == old(self).their_start_queue@.len(),
            opt_ch_same(final(self).channel_handler, old(self).channel_handler),
            opt_bundle_view(final(self).channel_initiation_transaction) == opt_bundle_view(
                old(self).channel_initiation_transaction,
            ),
            opt_bundle_view(final(self).channel_finished_transaction) == opt_bundle_view(
                old(self).channel_finished_transaction,
            ),
            final(self).waiting_to_start == old(self).waiting_to_start,
            spec_lookup(old(self).game_types@, game_start@.game_type) is None ==> r is Err
                && r->Err_0 is NoSuchGame,
            r is Ok ==> spec_lookup(old(self).game_types@, game_start@.game_type) is Some,
            r is Err ==> final(self).next_game_id@ == old(self).next_game_id@,
            r is Err ==> (r->Err_0 is NoSuchGame || r->Err_0 is Clvm || r->Err_0
                is BadFactoryOutput || r->Err_0 is MismatchedGameStarts),
            r is Ok ==> ({
                let mine = r->Ok_0.0;
                let theirs = r->Ok_0.1;
                &&& mine@.len() == theirs@.len()
                &&& forall|i: int|
                    0 <= i < mine@.len() ==> ((#[trigger] mine@[i])@.game_id == nth_game_id(
                        old(self).next_game_id@,
                        i as nat,
                    ) && mine@[i]@.timeout == game_start@.timeout && mine@[i]@.my_turn == true)
                &&& forall|i: int|
                    0 <= i < theirs@.len() ==> ((#[trigger] theirs@[i])@.game_id == nth_game_id(
                        old(self).next_game_id@,
                        i as nat,
                    ) && theirs@[i]@.timeout == game_start@.timeout && theirs@[i]@.my_turn
                        == false)
                &&& final(self).next_game_id@.len() == 32
                &&& le_value(final(self).next_game_id@) == (le_value(old(self).next_game_id@)
                    + mine@.len()) % pow256(32)
            }),
    {
        let starter = match self.game_types.get(&game_start.game_type) {
            Option::Some(p) => p,
            Option::None => {
                return Err(Error::NoSuchGame(game_start.game_type.clone()));
            },
        };
        let starter_clvm = match crate::clvm::node_from_bytes(allocator, &starter.0) {
            Option::Some(n) => n,
            Option::None => {
                return Err(Error::Clvm);
            },
        };
        let params_clvm = match crate::clvm::node_from_bytes(allocator, &game_start.parameters) {
            Option::Some(n) => n,
            Option::None => {
                return Err(Error::Clvm);
            },
        };
        let amount_bytes = u64_to_clvm_atom(game_start.amount.0);
        let amount_atom = match crate::clvm::new_atom(allocator, &amount_bytes) {
            Option::Some(n) => n,
            Option::None => {
                return Err(Error::Clvm);
            },
        };
        let contribution_bytes = u64_to_clvm_atom(game_start.my_contribution.0);
        let contribution_atom = match crate::clvm::new_atom(allocator, &contribution_bytes) {
            Option::Some(n) => n,
            Option::None => {
                return Err(Error::Clvm);
            },
        };
        let nil_node = crate::clvm::nil(allocator);
        let args_tail = match crate::clvm::new_pair(allocator, params_clvm, nil_node) {
            Option::Some(n) => n,
            Option::None => {
                return Err(Error::Clvm);
            },
        };
        let args_mid = match crate::clvm::new_pair(allocator, contribution_atom, args_tail) {
            Option::Some(n) => n,
            Option::None => {
                return Err(Error::Clvm);
            },
        };
        let program_run_args = match crate::clvm::new_pair(allocator, amount_atom, args_mid) {
            Option::Some(n) => n,
            Option::None => {
                return Err(Error::Clvm);
            },
        };
        let dialect = crate::clvm::chia_dialect(0);
        let program_output = match crate::clvm::run_program(
            allocator,
            &dialect,
            starter_clvm,
            program_run_args,
            0,
        ) {
            Option::Some(n) => n,
            Option::None => {
                return Err(Error::Clvm);
            },
        };
        // The result is two parallel lists of opposite sides of game starts.
        let pair_of_output_lists = match crate::clvm::proper_list(allocator, program_output, true) {
            Option::Some(p) => p,
            Option::None => {
                return Err(Error::BadFactoryOutput);
            },
        };
        if pair_of_output_lists.len() != 2 {
            return Err(Error::BadFactoryOutput);
        }
        let my_info_list = match crate::clvm::proper_list(allocator, pair_of_output_lists[0], true) {
            Option::Some(p) => p,
            Option::None => {
                return Err(Error::BadFactoryOutput);
            },
        };
        let their_info_list = match crate::clvm::proper_list(
            allocator,
            pair_of_output_lists[1],
            true,
        ) {
            Option::Some(p) => p,
            Option::None => {
                return Err(Error::BadFactoryOutput);
            },
        };
        if my_info_list.len() != their_info_list.len() {
            return Err(Error::MismatchedGameStarts);
        }
        // Serialize the opaque records first: after this point nothing can
        // fail, so a failure never consumes ids.
        let mut my_data: Vec<Program> = Vec::new();
        let mut i: usize = 0;
        while i < my_info_list.len()
            invariant
                my_data@.len() == i,
                i <= my_info_list@.len(),
            decreases my_info_list@.len() - i,
        {
            match crate::clvm::node_to_bytes(allocator, my_info_list[i]) {
                Option::Some(b) => my_data.push(Program(b)),
                Option::None => {
                    return Err(Error::Clvm);
                },
            }
            i = i + 1;
        }
        let mut their_data: Vec<Program> = Vec::new();
        let mut j: usize = 0;
        while j < their_info_list.len()
            invariant
                their_data@.len() == j,
                j <= their_info_list@.len(),
            decreases their_info_list@.len() - j,
        {
            match crate::clvm::node_to_bytes(allocator, their_info_list[j]) {
                Option::Some(b) => their_data.push(Program(b)),
                Option::None => {
                    return Err(Error::Clvm);
                },
            }
            j = j + 1;
        }
        let count = my_data.len();
        proof {
            crate::game_id::lemma_pow256_pos(32);
            crate::game_id::lemma_le_value_bound(self.next_game_id@);
            lemma_small_mod(le_value(self.next_game_id@), pow256(32));
            crate::game_id::lemma_le_bytes_id(self.next_game_id@);
        }
        let ghost start_bytes = self.next_game_id@;
        let ghost v0 = le_value(start_bytes);
        let ghost n_range = pow256(32);
        let mut game_ids: Vec<GameID> = Vec::new();
        let mut k: usize = 0;
        while k < count
            invariant
                k <= count,
                game_ids@.len() == k,
                self.next_game_id@.len() == 32,
                start_bytes.len() == 32,
                v0 == le_value(start_bytes),
                n_range == pow256(32),
                self.next_game_id@ == crate::game_id::le_bytes(32, ((v0 + k) % n_range as int) as nat),
                le_value(self.next_game_id@) as int == (v0 + k) as int % n_range as int,
                forall|m: int|
                    0 <= m < k ==> (#[trigger] game_ids@[m])@ == nth_game_id(start_bytes, m as nat),
                self.wf(),
                same_config(*old(self), *self),
                self.handshake_state@ == old(self).handshake_state@,
                self.have_potato == old(self).have_potato,
                my_start_view(*self) == my_start_view(*old(self)),
                actions_view(*self) == actions_view(*old(self)),
                self.their_start_queue@.len() == old(self).their_start_queue@.len(),
                opt_ch_same(self.channel_handler, old(self).channel_handler),
                opt_bundle_view(self.channel_initiation_transaction) == opt_bundle_view(
                    old(self).channel_initiation_transaction,
                ),
                opt_bundle_view(self.channel_finished_transaction) == opt_bundle_view(
                    old(self).channel_finished_transaction,
                ),
                self.waiting_to_start == old(self).waiting_to_start,
                start_bytes == old(self).next_game_id@,
            decreases count - k,
        {
            let id = match self.next_game_id() {
                Ok(id) => id,
                Err(e) => {
                    proof {
                        assert(false);
                    }
                    return Err(e);
                },
            };
            proof {
                crate::game_id::lemma_le_bytes_id(self.next_game_id@);
                vstd::arithmetic::div_mod::lemma_add_mod_noop(
                    (v0 + k) as int,
                    1int,
                    n_range as int,
                );
                crate::game_id::lemma_pow256_pos(32);
                lemma_small_mod(1, n_range);
                assert(le_value(self.next_game_id@) == (v0 + (k + 1)) % n_range as int);
            }
            game_ids.push(id);
            k = k + 1;
        }
        // Hydrate both sides.
        let mut my_result: Vec<GameStartInfo> = Vec::new();
        let mut a: usize = 0;
        while a < count
            invariant
                a <= count,
                count == game_ids@.len(),
                count == my_data@.len(),
                my_result@.len() == a,
                forall|m: int|
                    0 <= m < a ==> ((#[trigger] my_result@[m])@.game_id == game_ids@[m]@
                        && my_result@[m]@.timeout == game_start.timeout@ && my_result@[m]@.my_turn
                        == true),
            decreases count - a,
        {
            my_result.push(
                GameStartInfo {
                    game_id: game_ids[a].clone(),
                    timeout: game_start.timeout,
                    my_turn: true,
                    rule_data: my_data[a].clone(),
                },
            );
            a = a + 1;
        }
        let mut their_result: Vec<GameStartInfo> = Vec::new();
        let mut b: usize = 0;
        while b < count
            invariant
                b <= count,
                count == game_ids@.len(),
                count == their_data@.len(),
                their_result@.len() == b,
                forall|m: int|
                    0 <= m < b ==> ((#[trigger] their_result@[m])@.game_id == game_ids@[m]@
                        && their_result@[m]@.timeout == game_start.timeout@
                        && their_result@[m]@.my_turn == false),
            decreases count - b,
        {
            their_result.push(
                GameStartInfo {
                    game_id: game_ids[b].clone(),
                    timeout: game_start.timeout,
                    my_turn: false,
                    rule_data: their_data[b].clone(),
                },
            );
            b = b + 1;
        }
        Ok((my_result, their_result))
    }
}

/// What draining one just-queued action emits.
pub open spec fn action_effects(a: GameActionV, pre: PotatoHandler) -> Seq<EffectV> {
    match a {
        GameActionV::Move(id, rm) => seq![EffectV::SendMessage(PeerMessageV::Move(id, rm))],
        GameActionV::Accept(id) => seq![
            EffectV::SendMessage(PeerMessageV::Accept(id, 0, spec_empty_sigs())),
            EffectV::GameFinished(id, 0),
        ],
        GameActionV::Shutdown(conds) => seq![
            EffectV::SpendTransactionAndAddFee(spec_shutdown_bundle(pre, conds)),
        ],
    }
}

/// The contract of submitting one local action: rejected before the
/// handshake ends; queued with a single potato request while the potato
/// is away; performed at once while it is here.
pub open spec fn game_action_outcome(
    pre: PotatoHandler,
    post: PotatoHandler,
    pre_eff: Seq<EffectV>,
    post_eff: Seq<EffectV>,
    a: GameActionV,
    r: Result<(), Error>,
) -> bool {
    &&& post.wf()
    &&& same_config(pre, post)
    &&& post.handshake_state@ == pre.handshake_state@
    &&& post.their_start_queue@.len() == pre.their_start_queue@.len()
    &&& my_start_view(post) == my_start_view(pre)
    &&& post.next_game_id@ == pre.next_game_id@
    &&& opt_ch_same(post.channel_handler, pre.channel_handler)
    &&& opt_bundle_view(post.channel_initiation_transaction) == opt_bundle_view(
        pre.channel_initiation_transaction,
    )
    &&& opt_bundle_view(post.channel_finished_transaction) == opt_bundle_view(
        pre.channel_finished_transaction,
    )
    &&& post.waiting_to_start == pre.waiting_to_start
    &&& (!(pre.handshake_state is Finished) ==> r is Err && r->Err_0 is HandshakeNotFinished
        && same_state(pre, post) && post_eff == pre_eff)
    &&& (pre.handshake_state is Finished ==> r is Ok)
    &&& ((pre.handshake_state is Finished && !(pre.have_potato is Present)) ==> ({
        &&& actions_view(post) == actions_view(pre).push(a)
        &&& post.have_potato is Requested
        &&& (pre.have_potato is Absent ==> post_eff == pre_eff.push(
            EffectV::SendMessage(PeerMessageV::RequestPotato),
        ))
        &&& (pre.have_potato is Requested ==> post_eff == pre_eff)
    }))
    &&& ((pre.handshake_state is Finished && pre.have_potato is Present) ==> ({
        &&& actions_view(post) == actions_view(pre)
        &&& post.have_potato is Absent
        &&& post_eff == pre_eff + action_effects(a, pre)
    }))
}

impl PotatoHandler {
    /// Queue one local action, requesting the potato if it is away, or
    /// perform it at once if it is here.
    pub fn do_game_action(&mut self, effects: &mut Vec<Effect>, action: GameAction) -> (r: Result<
        (),
        Error,
    >)
        requires
            old(self).wf(),
        ensures
            game_action_outcome(
                *old(self),
                *final(self),
                effects_view(old(effects)@),
                effects_view(final(effects)@),
                action@,
                r,
            ),
    {
        let ghost av = action@;
        if !matches!(self.handshake_state, HandshakeState::Finished(_)) {
            return Err(Error::HandshakeNotFinished);
        }
        self.game_action_queue.push_back(action);
        proof {
            assert(actions_view(*self) =~= actions_view(*old(self)).push(av));
        }
        if !matches!(self.have_potato, PotatoState::Present) {
            let r = self.request_potato(effects);
            return r;
        }
        // The potato is here, so no work was waiting; the pushed action
        // drains at once.
        proof {
            assert(actions_view(*old(self)) =~= Seq::<GameActionV>::empty());
            assert(actions_view(*self) =~= seq![av]);
        }
        let ghost mid = *self;
        match self.have_potato_move(effects) {
            Ok(_) => {
                proof {
                    assert(actions_view(*self) =~= actions_view(*old(self)));
                    assert(action_effects(av, mid) == action_effects(av, *old(self)));
                }
                Ok(())
            },
            Err(e) => {
                proof {
                    assert(false);
                }
                Err(e)
            },
        }
    }

    /// Submit a move in a running game.
    pub fn make_move(
        &mut self,
        effects: &mut Vec<Effect>,
        id: &GameID,
        readable: &ReadableMove,
    ) -> (r: Result<(), Error>)
        requires
            old(self).wf(),
        ensures
            game_action_outcome(
                *old(self),
                *final(self),
                effects_view(old(effects)@),
                effects_view(final(effects)@),
                GameActionV::Move(id@, readable@),
                r,
            ),
    {
        self.do_game_action(effects, GameAction::Move(id.clone(), readable.clone()))
    }

    /// Accept the end of a game and report the final share.
    pub fn accept(&mut self, effects: &mut Vec<Effect>, id: &GameID) -> (r: Result<(), Error>)
        requires
            old(self).wf(),
        ensures
            game_action_outcome(
                *old(self),
                *final(self),
                effects_view(old(effects)@),
                effects_view(final(effects)@),
                GameActionV::Accept(id@),
                r,
            ),
    {
        self.do_game_action(effects, GameAction::Accept(id.clone()))
    }

    /// Shut the channel down cleanly: spend the channel coin back to this
    /// party's reward address through the wallet.
    pub fn shut_down(&mut self, effects: &mut Vec<Effect>) -> (r: Result<(), Error>)
        requires
            old(self).wf(),
        ensures
            final(self).wf(),
            !(old(self).handshake_state is Finished) ==> r is Err && r->Err_0
                is HandshakeNotFinished && same_state(*old(self), *final(self)) && effects_view(
                final(effects)@,
            ) == effects_view(old(effects)@),
            old(self).handshake_state is Finished ==> game_action_outcome(
                *old(self),
                *final(self),
                effects_view(old(effects)@),
                effects_view(final(effects)@),
                GameActionV::Shutdown(
                    seq![
                        ConditionV::CreateCoin(
                            old(self).reward_puzzle_hash@,
                            old(self).channel_handler->Some_0.my_contribution@,
                        ),
                    ],
                ),
                r,
            ),
    {
        if !matches!(self.handshake_state, HandshakeState::Finished(_)) {
            return Err(Error::HandshakeNotFinished);
        }
        let amount = match &self.channel_handler {
            Option::Some(ch) => ch.clean_shutdown_amount(),
            Option::None => {
                proof {
                    assert(false);
                }
                return Err(Error::NoChannelHandler);
            },
        };
        let mut target_conditions: Vec<Condition> = Vec::new();
        target_conditions.push(Condition::CreateCoin(self.reward_puzzle_hash.clone(), amount));
        proof {
            assert(target_conditions@.map(|i: int, c: Condition| c@) =~= seq![
                ConditionV::CreateCoin(
                    old(self).reward_puzzle_hash@,
                    old(self).channel_handler->Some_0.my_contribution@,
                ),
            ]);
        }
        self.do_game_action(effects, GameAction::Shutdown(target_conditions))
    }

    /// Start games: the initiator's side expands the request, queues it,
    /// and sends it as soon as the potato is here; the other side only
    /// announces that a start is coming.
    pub fn start_games(
        &mut self,
        allocator: &mut clvmr::Allocator,
        effects: &mut Vec<Effect>,
        i_initiated: bool,
        game: &GameStart,
    ) -> (r: Result<Vec<GameID>, Error>)
        requires
            old(self).wf(),
        ensures
            final(self).wf(),
            same_config(*old(self), *final(self)),
            final(self).handshake_state@ == old(self).handshake_state@,
            opt_ch_same(final(self).channel_handler, old(self).channel_handler),
            opt_bundle_view(final(self).channel_initiation_transaction) == opt_bundle_view(
                old(self).channel_initiation_transaction,
            ),
            opt_bundle_view(final(self).channel_finished_transaction) == opt_bundle_view(
                old(self).channel_finished_transaction,
            ),
            final(self).waiting_to_start == old(self).waiting_to_start,
            !(old(self).handshake_state is Finished) ==> r is Err && r->Err_0
                is HandshakeNotFinished,
            r is Err ==> same_state(*old(self), *final(self)) && effects_view(final(effects)@)
                == effects_view(old(effects)@),
            (old(self).handshake_state is Finished && spec_lookup(
                old(self).game_types@,
                game@.game_type,
            ) is None) ==> r is Err && r->Err_0 is NoSuchGame,
            r is Ok ==> old(self).handshake_state is Finished,
            r is Ok ==> ({
                let ids = r->Ok_0;
                &&& forall|i: int|
                    0 <= i < ids@.len() ==> (#[trigger] ids@[i])@ == nth_game_id(
                        old(self).next_game_id@,
                        i as nat,
                    )
                &&& final(self).next_game_id@.len() == 32
                &&& le_value(final(self).next_game_id@) as int == (le_value(
                    old(self).next_game_id@,
                ) + ids@.len()) as int % pow256(32) as int
                &&& actions_view(*final(self)) == actions_view(*old(self))
                &&& (!i_initiated ==> ({
                    &&& final(self).their_start_queue@.len()
                        == old(self).their_start_queue@.len() + 1
                    &&& my_start_view(*final(self)) == my_start_view(*old(self))
                    &&& final(self).have_potato == old(self).have_potato
                    &&& effects_view(final(effects)@) == effects_view(old(effects)@)
                }))
                &&& (i_initiated ==> final(self).their_start_queue@.len() == old(
                    self).their_start_queue@.len())
                &&& ((i_initiated && !(old(self).have_potato is Present)) ==> ({
                    &&& my_start_view(*final(self)).len() == my_start_view(*old(self)).len() + 1
                    &&& final(self).have_potato is Requested
                    &&& (old(self).have_potato is Absent ==> effects_view(final(effects)@)
                        == effects_view(old(effects)@).push(
                        EffectV::SendMessage(PeerMessageV::RequestPotato),
                    ))
                    &&& (old(self).have_potato is Requested ==> effects_view(final(effects)@)
                        == effects_view(old(effects)@))
                }))
                &&& ((i_initiated && old(self).have_potato is Present) ==> ({
                    &&& my_start_view(*final(self)) == my_start_view(*old(self))
                    &&& final(self).have_potato is Absent
                    &&& effects_view(final(effects)@).len() == effects_view(old(effects)@).len()
                        + 1
                    &&& ({
                        let last = effects_view(final(effects)@).last();
                        &&& last is SendMessage
                        &&& last->SendMessage_0 is StartGames
                        &&& last->SendMessage_0->StartGames_0 == spec_empty_sigs()
                        &&& ({
                            let gs = last->SendMessage_0->StartGames_1;
                            &&& gs.len() == ids@.len()
                            &&& forall|i: int|
                                0 <= i < gs.len() ==> ((#[trigger] gs[i]).game_id == nth_game_id(
                                    old(self).next_game_id@,
                                    i as nat,
                                ) && gs[i].timeout == game@.timeout && gs[i].my_turn == false)
                        })
                    })
                }))
            }),
    {
        if !matches!(self.handshake_state, HandshakeState::Finished(_)) {
            return Err(Error::HandshakeNotFinished);
        }
        let (my_games, their_games) = match self.get_games_by_start_type(allocator, game) {
            Ok(p) => p,
            Err(e) => {
                return Err(e);
            },
        };
        let ghost my_views = my_games@.map(|i: int, g: GameStartInfo| g@);
        let ghost their_views = their_games@.map(|i: int, g: GameStartInfo| g@);
        let mut game_id_list: Vec<GameID> = Vec::new();
        let mut i: usize = 0;
        while i < my_games.len()
            invariant
                i <= my_games@.len(),
                game_id_list@.len() == i,
                forall|m: int|
                    0 <= m < i ==> (#[trigger] game_id_list@[m])@ == my_games@[m]@.game_id,
            decreases my_games@.len() - i,
        {
            game_id_list.push(my_games[i].game_id.clone());
            i = i + 1;
        }
        if i_initiated {
            let entry = MyGameStartQueueEntry { my_games, their_games };
            proof {
                assert(entry@.their_games =~= their_views);
            }
            self.my_start_queue.push_back(entry);
            proof {
                assert(my_start_view(*self) =~= my_start_view(*old(self)).push(
                    MyGameStartQueueEntryV { my_games: my_views, their_games: their_views },
                ));
            }
            if !matches!(self.have_potato, PotatoState::Present) {
                let rq = self.request_potato(effects);
                match rq {
                    Ok(_) => {
                        return Ok(game_id_list);
                    },
                    Err(e) => {
                        proof {
                            assert(false);
                        }
                        return Err(e);
                    },
                }
            }
            proof {
                assert(my_start_view(*old(self)) =~= Seq::<MyGameStartQueueEntryV>::empty());
                assert(my_start_view(*self) =~= seq![
                    MyGameStartQueueEntryV { my_games: my_views, their_games: their_views },
                ]);
            }
            match self.have_potato_start_game(effects) {
                Ok(_) => {
                    proof {
                        assert(my_start_view(*self) =~= my_start_view(*old(self)));
                        let last = effects_view(effects@).last();
                        assert(effects_view(effects@) == effects_view(old(effects)@).push(last));
                    }
                    Ok(game_id_list)
                },
                Err(e) => {
                    proof {
                        assert(false);
                    }
                    Err(e)
                },
            }
        } else {
            // All checking needed is done by the channel handler.
            self.their_start_queue.push_back(GameStartQueueEntry);
            proof {
                assert(my_start_view(*self) =~= my_start_view(*old(self)));
                assert(actions_view(*self) =~= actions_view(*old(self)));
            }
            Ok(game_id_list)
        }
    }

    /// The wallet bootstrap's reply to the channel puzzle hash: the
    /// partly signed offer.  Stored, and sent to the peer as soon as the
    /// handshake is waiting for it.
    pub fn channel_offer(&mut self, effects: &mut Vec<Effect>, bundle: SpendBundle) -> (r: Result<
        (),
        Error,
    >)
        requires
            old(self).wf(),
        ensures
            final(self).wf(),
            r is Ok,
            same_config(*old(self), *final(self)),
            final(self).have_potato == old(self).have_potato,
            my_start_view(*final(self)) == my_start_view(*old(self)),
            actions_view(*final(self)) == actions_view(*old(self)),
            final(self).their_start_queue@.len() == old(self).their_start_queue@.len(),
            final(self).next_game_id@ == old(self).next_game_id@,
            opt_ch_same(final(self).channel_handler, old(self).channel_handler),
            opt_bundle_view(final(self).channel_initiation_transaction) == Some(bundle@),
            opt_bundle_view(final(self).channel_finished_transaction) == opt_bundle_view(
                old(self).channel_finished_transaction,
            ),
            final(self).waiting_to_start == old(self).waiting_to_start,
            !(old(self).handshake_state is PostStepE)
                ==> final(self).handshake_state@ == old(self).handshake_state@
                    && effects_view(final(effects)@) == effects_view(old(effects)@),
            old(self).handshake_state is PostStepE ==> ({
                &&& final(self).handshake_state@ == HandshakeStateV::Finished(
                    crate::messages::HandshakeStepWithSpendV {
                        info: old(self).handshake_state@->PostStepE_0,
                        spend: bundle@,
                    },
                )
                &&& effects_view(final(effects)@) == effects_view(old(effects)@).push(
                    EffectV::SendMessage(PeerMessageV::HandshakeE { bundle: bundle@ }),
                )
            }),
    {
        self.channel_initiation_transaction = Some(bundle);
        let info_c = match &self.handshake_state {
            HandshakeState::PostStepE(info) => info.clone(),
            _ => {
                return Ok(());
            },
        };
        let r = self.try_complete_step_e(
            effects,
            info_c.first_player_hs_info,
            info_c.second_player_hs_info,
        );
        r
    }

    /// The wallet bootstrap's fully signed completion.  Stored, and sent
    /// to the peer once the channel coin has also been seen on chain.
    pub fn channel_transaction_completion(
        &mut self,
        effects: &mut Vec<Effect>,
        bundle: &SpendBundle,
    ) -> (r: Result<(), Error>)
        requires
            old(self).wf(),
        ensures
            final(self).wf(),
            r is Ok,
            same_config(*old(self), *final(self)),
            final(self).have_potato == old(self).have_potato,
            my_start_view(*final(self)) == my_start_view(*old(self)),
            actions_view(*final(self)) == actions_view(*old(self)),
            final(self).their_start_queue@.len() == old(self).their_start_queue@.len(),
            final(self).next_game_id@ == old(self).next_game_id@,
            opt_ch_same(final(self).channel_handler, old(self).channel_handler),
            opt_bundle_view(final(self).channel_initiation_transaction) == opt_bundle_view(
                old(self).channel_initiation_transaction,
            ),
            opt_bundle_view(final(self).channel_finished_transaction) == Some(bundle@),
            final(self).waiting_to_start == old(self).waiting_to_start,
            !(old(self).handshake_state is PostStepF && !old(self).waiting_to_start)
                ==> final(self).handshake_state@ == old(self).handshake_state@
                    && effects_view(final(effects)@) == effects_view(old(effects)@),
            (old(self).handshake_state is PostStepF && !old(self).waiting_to_start) ==> ({
                &&& final(self).handshake_state@ == HandshakeStateV::Finished(
                    crate::messages::HandshakeStepWithSpendV {
                        info: old(self).handshake_state@->PostStepF_0,
                        spend: bundle@,
                    },
                )
                &&& effects_view(final(effects)@) == effects_view(old(effects)@).push(
                    EffectV::SendMessage(PeerMessageV::HandshakeF { bundle: bundle@ }),
                )
            }),
    {
        self.channel_finished_transaction = Some(bundle.clone());
        let info_c = match &self.handshake_state {
            HandshakeState::PostStepF(info) => info.clone(),
            _ => {
                return Ok(());
            },
        };
        let r = self.try_complete_step_f(
            effects,
            info_c.first_player_hs_info,
            info_c.second_player_hs_info,
        );
        r
    }

    /// A watched coin appeared on chain.  When it is the channel coin and
    /// this side is waiting on it, the handshake may now complete.
    pub fn coin_created(&mut self, effects: &mut Vec<Effect>, coin: &CoinString) -> (r: Result<
        (),
        Error,
    >)
        requires
            old(self).wf(),
        ensures
            final(self).wf(),
            r is Ok,
            same_config(*old(self), *final(self)),
            final(self).have_potato == old(self).have_potato,
            my_start_view(*final(self)) == my_start_view(*old(self)),
            actions_view(*final(self)) == actions_view(*old(self)),
            final(self).their_start_queue@.len() == old(self).their_start_queue@.len(),
            final(self).next_game_id@ == old(self).next_game_id@,
            opt_ch_same(final(self).channel_handler, old(self).channel_handler),
            opt_bundle_view(final(self).channel_initiation_transaction) == opt_bundle_view(
                old(self).channel_initiation_transaction,
            ),
            opt_bundle_view(final(self).channel_finished_transaction) == opt_bundle_view(
                old(self).channel_finished_transaction,
            ),
            !(old(self).handshake_state is PostStepF && old(self).channel_handler is Some
                && old(self).channel_handler->Some_0.state_channel_coin@ == coin@) ==> same_state(
                *old(self),
                *final(self),
            ) && effects_view(final(effects)@) == effects_view(old(effects)@),
            (old(self).handshake_state is PostStepF && old(self).channel_handler is Some
                && old(self).channel_handler->Some_0.state_channel_coin@ == coin@) ==> ({
                &&& !final(self).waiting_to_start
                &&& (old(self).channel_finished_transaction is None
                    ==> final(self).handshake_state@ == old(self).handshake_state@
                        && effects_view(final(effects)@) == effects_view(old(effects)@))
                &&& (old(self).channel_finished_transaction is Some ==> ({
                    let tx = old(self).channel_finished_transaction->Some_0@;
                    &&& final(self).handshake_state@ == HandshakeStateV::Finished(
                        crate::messages::HandshakeStepWithSpendV {
                            info: old(self).handshake_state@->PostStepF_0,
                            spend: tx,
                        },
                    )
                    &&& effects_view(final(effects)@) == effects_view(old(effects)@).push(
                        EffectV::SendMessage(PeerMessageV::HandshakeF { bundle: tx }),
                    )
                }))
            }),
    {
        let info_c = match &self.handshake_state {
            HandshakeState::PostStepF(info) => info.clone(),
            _ => {
                return Ok(());
            },
        };
        let channel_coin = match &self.channel_handler {
            Option::Some(ch) => ch.state_channel_coin(),
            Option::None => {
                proof {
                    assert(false);
                }
                return Err(Error::NoChannelHandler);
            },
        };
        let matches_parent = bytes_eq(&channel_coin.parent.0, &coin.parent.0);
        let matches_ph = bytes_eq(&channel_coin.puzzle_hash.0, &coin.puzzle_hash.0);
        if !(matches_parent && matches_ph && channel_coin.amount.0 == coin.amount.0) {
            return Ok(());
        }
        self.waiting_to_start = false;
        let r = self.try_complete_step_f(
            effects,
            info_c.first_player_hs_info,
            info_c.second_player_hs_info,
        );
        r
    }

    /// A watched coin was spent.  A spend of the channel coin means the
    /// peer is forcing settlement: the on-chain unroll path belongs to
    /// the channel handler; this coordinator reports it upward.
    pub fn coin_spent(&mut self, effects: &mut Vec<Effect>, coin: &CoinString) -> (r: Result<
        (),
        Error,
    >)
        requires
            old(self).wf(),
        ensures
            final(self).wf(),
            r is Ok,
            same_state(*old(self), *final(self)),
            (old(self).channel_handler is Some
                && old(self).channel_handler->Some_0.state_channel_coin@ == coin@)
                ==> effects_view(final(effects)@) == effects_view(old(effects)@).push(
                EffectV::GoingOnChain,
            ),
            !(old(self).channel_handler is Some
                && old(self).channel_handler->Some_0.state_channel_coin@ == coin@)
                ==> effects_view(final(effects)@) == effects_view(old(effects)@),
    {
        let channel_coin = match &self.channel_handler {
            Option::Some(ch) => ch.state_channel_coin(),
            Option::None => {
                return Ok(());
            },
        };
        let matches_parent = bytes_eq(&channel_coin.parent.0, &coin.parent.0);
        let matches_ph = bytes_eq(&channel_coin.puzzle_hash.0, &coin.puzzle_hash.0);
        if matches_parent && matches_ph && channel_coin.amount.0 == coin.amount.0 {
            emit(effects, Effect::GoingOnChain);
        }
        Ok(())
    }

    /// A watched coin's timeout was reached.  For the channel coin this
    /// is the hook into the on-chain unroll path, reported upward.
    pub fn coin_timeout_reached(&mut self, effects: &mut Vec<Effect>, coin: &CoinString) -> (r:
        Result<(), Error>)
        requires
            old(self).wf(),
        ensures
            final(self).wf(),
            r is Ok,
            same_state(*old(self), *final(self)),
            (old(self).channel_handler is Some
                && old(self).channel_handler->Some_0.state_channel_coin@ == coin@)
                ==> effects_view(final(effects)@) == effects_view(old(effects)@).push(
                EffectV::GoingOnChain,
            ),
            !(old(self).channel_handler is Some
                && old(self).channel_handler->Some_0.state_channel_coin@ == coin@)
                ==> effects_view(final(effects)@) == effects_view(old(effects)@),
    {
        let channel_coin = match &self.channel_handler {
            Option::Some(ch) => ch.state_channel_coin(),
            Option::None => {
                return Ok(());
            },
        };
        let matches_parent = bytes_eq(&channel_coin.parent.0, &coin.parent.0);
        let matches_ph = bytes_eq(&channel_coin.puzzle_hash.0, &coin.puzzle_hash.0);
        if matches_parent && matches_ph && channel_coin.amount.0 == coin.amount.0 {
            emit(effects, Effect::GoingOnChain);
        }
        Ok(())
    }
}

/// The local UI surface: start games, move, accept, shut down.
pub trait FromLocalUI {
    /// The receiver's structural invariant.
    spec fn local_ui_wf(&self) -> bool;

    fn start_games(
        &mut self,
        allocator: &mut clvmr::Allocator,
        effects: &mut Vec<Effect>,
        i_initiated: bool,
        game: &GameStart,
    ) -> (r: Result<Vec<GameID>, Error>)
        requires
            old(self).local_ui_wf(),
        ensures
            final(self).local_ui_wf(),
    ;

    fn make_move(
        &mut self,
        effects: &mut Vec<Effect>,
        id: &GameID,
        readable: &ReadableMove,
    ) -> (r: Result<(), Error>)
        requires
            old(self).local_ui_wf(),
        ensures
            final(self).local_ui_wf(),
    ;

    fn accept(&mut self, effects: &mut Vec<Effect>, id: &GameID) -> (r: Result<(), Error>)
        requires
            old(self).local_ui_wf(),
        ensures
            final(self).local_ui_wf(),
    ;

    fn shut_down(&mut self, effects: &mut Vec<Effect>) -> (r: Result<(), Error>)
        requires
            old(self).local_ui_wf(),
        ensures
            final(self).local_ui_wf(),
    ;
}

impl FromLocalUI for PotatoHandler {
    open spec fn local_ui_wf(&self) -> bool {
        self.wf()
    }

    fn start_games(
        &mut self,
        allocator: &mut clvmr::Allocator,
        effects: &mut Vec<Effect>,
        i_initiated: bool,
        game: &GameStart,
    ) -> (r: Result<Vec<GameID>, Error>) {
        PotatoHandler::start_games(self, allocator, effects, i_initiated, game)
    }

    fn make_move(
        &mut self,
        effects: &mut Vec<Effect>,
        id: &GameID,
        readable: &ReadableMove,
    ) -> (r: Result<(), Error>) {
        PotatoHandler::make_move(self, effects, id, readable)
    }

    fn accept(&mut self, effects: &mut Vec<Effect>, id: &GameID) -> (r: Result<(), Error>) {
        PotatoHandler::accept(self, effects, id)
    }

    fn shut_down(&mut self, effects: &mut Vec<Effect>) -> (r: Result<(), Error>) {
        PotatoHandler::shut_down(self, effects)
    }
}

/// Messaging out of the game layer toward the wallet bootstrap.
pub trait BootstrapTowardGame {
    /// The receiver's structural invariant.
    spec fn bootstrap_wf(&self) -> bool;

    /// Gives a partly signed offer to the wallet bootstrap; only the
    /// initiator receives this, as the reply to the channel puzzle hash.
    fn channel_offer(&mut self, effects: &mut Vec<Effect>, bundle: SpendBundle) -> (r: Result<
        (),
        Error,
    >)
        requires
            old(self).bootstrap_wf(),
        ensures
            final(self).bootstrap_wf(),
    ;

    /// Gives the fully signed offer to the wallet bootstrap; only the
    /// non-initiator receives this, and forwards it down the wire.
    fn channel_transaction_completion(
        &mut self,
        effects: &mut Vec<Effect>,
        bundle: &SpendBundle,
    ) -> (r: Result<(), Error>)
        requires
            old(self).bootstrap_wf(),
        ensures
            final(self).bootstrap_wf(),
    ;
}

impl BootstrapTowardGame for PotatoHandler {
    open spec fn bootstrap_wf(&self) -> bool {
        self.wf()
    }

    fn channel_offer(&mut self, effects: &mut Vec<Effect>, bundle: SpendBundle) -> (r: Result<
        (),
        Error,
    >) {
        PotatoHandler::channel_offer(self, effects, bundle)
    }

    fn channel_transaction_completion(
        &mut self,
        effects: &mut Vec<Effect>,
        bundle: &SpendBundle,
    ) -> (r: Result<(), Error>) {
        PotatoHandler::channel_transaction_completion(self, effects, bundle)
    }
}

/// Chain observer callbacks.
pub trait SpendWalletReceiver {
    /// The receiver's structural invariant.
    spec fn receiver_wf(&self) -> bool;

    fn coin_created(&mut self, effects: &mut Vec<Effect>, coin: &CoinString) -> (r: Result<
        (),
        Error,
    >)
        requires
            old(self).receiver_wf(),
        ensures
            final(self).receiver_wf(),
    ;

    fn coin_spent(&mut self, effects: &mut Vec<Effect>, coin: &CoinString) -> (r: Result<
        (),
        Error,
    >)
        requires
            old(self).receiver_wf(),
        ensures
            final(self).receiver_wf(),
    ;

    fn coin_timeout_reached(&mut self, effects: &mut Vec<Effect>, coin: &CoinString) -> (r: Result<
        (),
        Error,
    >)
        requires
            old(self).receiver_wf(),
        ensures
            final(self).receiver_wf(),
    ;
}

impl SpendWalletReceiver for PotatoHandler {
    open spec fn receiver_wf(&self) -> bool {
        self.wf()
    }

    fn coin_created(&mut self, effects: &mut Vec<Effect>, coin: &CoinString) -> (r: Result<
        (),
        Error,
    >) {
        PotatoHandler::coin_created(self, effects, coin)
    }

    fn coin_spent(&mut self, effects: &mut Vec<Effect>, coin: &CoinString) -> (r: Result<
        (),
        Error,
    >) {
        PotatoHandler::coin_spent(self, effects, coin)
    }

    fn coin_timeout_reached(&mut self, effects: &mut Vec<Effect>, coin: &CoinString) -> (r: Result<
        (),
        Error,
    >) {
        PotatoHandler::coin_timeout_reached(self, effects, coin)
    }
}

} // verus!
