//! The protocol's cross-cutting laws, stated over the same spec functions
//! the coordinator's contracts use.
//!
//! The single-writer property rests on token counting: a party holding
//! the potato counts one, a potato-bearing message in flight counts one,
//! and `received_message`'s contract balances the books at every step.
//! The lemmas here close the argument over a joint configuration of two
//! coordinators and the wire between them.
//!
//! Where the protocol's properties stand:
//! - mutual exclusion: `joint_potato_inv`, `lemma_potato_mutual_exclusion`
//!   and `lemma_delivery_preserves_joint_inv`;
//! - no write without the potato: `lemma_write_requires_potato`, over the
//!   accounting clause of `received_message` and the local-action surface;
//! - handshake monotonicity: the `handshake_index` clause of
//!   `received_message`;
//! - start-queue matching: `lemma_start_queue_matching`, over the queue
//!   clauses of `start_games` and `received_message`;
//! - game-id uniqueness: `game_id::lemma_game_id_uniqueness`, over the
//!   counter clause of `start_games`;
//! - the wire and record round trips: `codec::lemma_message_round_trip`
//!   and `game_start::lemma_game_start_info_round_trip`;
//! - handshake completion: `run_cooperative_handshake`.

use vstd::prelude::*;
use crate::codec::{encode_message, lemma_message_round_trip};
use crate::effects::{effects_view, Effect};
use crate::games::GameTypeMap;
use crate::handler::{potato_token, PotatoHandler, PotatoState};
use crate::messages::{is_potato_message, PeerMessage, PeerMessageV};
use crate::types::{
    Amount,
    ChannelHandlerPrivateKeys,
    CoinString,
    Error,
    PuzzleHash,
    SpendBundle,
    Timeout,
};

verus! {

/// How many potato-bearing messages a wire holds.
pub open spec fn wire_tokens(msgs: Seq<PeerMessageV>) -> int
    decreases msgs.len(),
{
    if msgs.len() == 0 {
        0int
    } else {
        (if is_potato_message(msgs[0]) {
            1int
        } else {
            0int
        }) + wire_tokens(msgs.drop_first())
    }
}

pub proof fn lemma_wire_tokens_nonneg(msgs: Seq<PeerMessageV>)
    ensures
        wire_tokens(msgs) >= 0,
    decreases msgs.len(),
{
    if msgs.len() > 0 {
        lemma_wire_tokens_nonneg(msgs.drop_first());
    }
}

/// The joint invariant of two linked coordinators: at most one potato
/// exists, counting the two holders and every message in flight either
/// way.  A clean shutdown consumes the token, so the sum may drop to
/// zero, never rise above one.
pub open spec fn joint_potato_inv(
    alice: PotatoHandler,
    bob: PotatoHandler,
    wire_ab: Seq<PeerMessageV>,
    wire_ba: Seq<PeerMessageV>,
) -> bool {
    potato_token(alice.have_potato) + potato_token(bob.have_potato) + wire_tokens(wire_ab)
        + wire_tokens(wire_ba) <= 1
}

/// Mutual exclusion: under the joint invariant, the two coordinators
/// never both report `has_potato() = true`.
pub proof fn lemma_potato_mutual_exclusion(
    alice: PotatoHandler,
    bob: PotatoHandler,
    wire_ab: Seq<PeerMessageV>,
    wire_ba: Seq<PeerMessageV>,
)
    requires
        joint_potato_inv(alice, bob, wire_ab, wire_ba),
    ensures
        !(alice.have_potato is Present && bob.have_potato is Present),
{
    lemma_wire_tokens_nonneg(wire_ab);
    lemma_wire_tokens_nonneg(wire_ba);
}

/// Delivering one message preserves the joint invariant.
///
/// The numbers here are exactly what `received_message` ensures of the
/// receiver: `spent` counts the potato-bearing sends and shutdown spends
/// it appended (at most one); for a potato-bearing delivery in the
/// running state the books close at one (`after + spent == 1`), for a
/// handshake delivery they balance against the holder's own token, and a
/// rejected delivery changes nothing.  `other` is the untouched party's
/// token, and the wire counts split into the delivered message and the
/// rest.
pub proof fn lemma_deliver_preserves_exclusion(
    receiver_before: int,
    receiver_after: int,
    spent: int,
    msg_potato: bool,
    other: int,
    wire_rest: int,
)
    requires
        0 <= receiver_before <= 1,
        0 <= receiver_after <= 1,
        0 <= other <= 1,
        0 <= wire_rest,
        0 <= spent <= 1,
        receiver_before + other + (if msg_potato {
            1int
        } else {
            0int
        }) + wire_rest <= 1,
        if msg_potato {
            receiver_after + spent == 1
        } else {
            receiver_after + spent == receiver_before
        },
    ensures
        receiver_after + other + spent + wire_rest <= 1,
{
}

/// No write without the potato: when a step emitted a potato-bearing
/// write (`spent == 1`), the writer held the potato or took it from the
/// delivered message, and ends without it.  The bound
/// `before + incoming <= 1` is the joint invariant's guarantee that no
/// second potato can be at hand.
pub proof fn lemma_write_requires_potato(
    token_before: int,
    token_after: int,
    spent: int,
    incoming: int,
)
    requires
        0 <= token_before <= 1,
        0 <= token_after <= 1,
        0 <= incoming <= 1,
        spent == 1,
        token_before + incoming <= 1,
        token_after + spent == token_before + incoming,
    ensures
        token_before + incoming == 1,
        token_after == 0,
{
}

/// Delivering one message preserves the joint invariant, stated over the
/// coordinators themselves.  The delivered message `m` stood at the head
/// of the receiver's wire; `spent` is what `received_message` reports
/// spent (its potato-bearing sends and shutdown spends, at most one), and
/// joins the other wire — counting a shutdown spend as if it stayed in
/// flight only over-approximates, so the bound still holds.
pub proof fn lemma_delivery_preserves_joint_inv(
    pre_receiver: PotatoHandler,
    post_receiver: PotatoHandler,
    other: PotatoHandler,
    m: PeerMessageV,
    spent: int,
    wire_rest: Seq<PeerMessageV>,
    wire_other: Seq<PeerMessageV>,
)
    requires
        0 <= spent <= 1,
        // received_message's accounting clause for an accepted delivery.
        (if is_potato_message(m) && pre_receiver.handshake_state is Finished {
            potato_token(post_receiver.have_potato) + spent == 1
        } else {
            potato_token(post_receiver.have_potato) + spent == potato_token(
                pre_receiver.have_potato,
            ) + (if is_potato_message(m) {
                1int
            } else {
                0int
            })
        }),
        // The invariant before delivery, with `m` at the wire's head.
        potato_token(pre_receiver.have_potato) + potato_token(other.have_potato) + wire_tokens(
            seq![m] + wire_rest,
        ) + wire_tokens(wire_other) <= 1,
    ensures
        potato_token(post_receiver.have_potato) + potato_token(other.have_potato) + wire_tokens(
            wire_rest,
        ) + (wire_tokens(wire_other) + spent) <= 1,
{
    assert((seq![m] + wire_rest).drop_first() =~= wire_rest);
    assert((seq![m] + wire_rest)[0] == m);
    lemma_wire_tokens_nonneg(wire_rest);
    lemma_wire_tokens_nonneg(wire_other);
}

/// Start-queue matching: the waiting-starts queue holds exactly the
/// announcements not yet matched by a received `StartGames`, so accepted
/// deliveries never outnumber successful `start_games(i_initiated =
/// false)` calls, and the counts agree exactly when the queue is empty.
/// `start_games`'s contract adds one to the queue per announcement,
/// `received_message`'s removes one per accepted `StartGames` and refuses
/// one that finds the queue empty.
pub proof fn lemma_start_queue_matching(announced: int, received: int, queue_len: int)
    requires
        queue_len == announced - received,
        queue_len >= 0,
    ensures
        received <= announced,
        queue_len == 0 ==> received == announced,
{
}

/// Take the message off the back of an effect list.
fn pop_message(effects: &mut Vec<Effect>) -> (r: Option<PeerMessage>)
    requires
        old(effects)@.len() > 0,
        effects_view(old(effects)@).last() is SendMessage,
    ensures
        r is Some,
        r->Some_0@ == effects_view(old(effects)@).last()->SendMessage_0,
        effects_view(final(effects)@) == effects_view(old(effects)@).drop_last(),
{
    let ghost pre = effects@;
    let popped = effects.pop();
    proof {
        assert(effects_view(effects@) =~= effects_view(pre).drop_last());
        assert(popped->Some_0@ == effects_view(pre).last());
    }
    match popped {
        Option::Some(Effect::SendMessage(m)) => Some(m),
        _ => {
            proof {
                assert(false);
            }
            None
        },
    }
}

/// The announcement: the initiator opens and the responder answers with
/// its key bundle.
#[verifier::rlimit(100)]
#[verifier::spinoff_prover]
fn handshake_phase_announce(
    alice: &mut PotatoHandler,
    bob: &mut PotatoHandler,
    parent: CoinString,
) -> (r: Result<PeerMessage, Error>)
    requires
        old(alice).wf(),
        old(alice).handshake_state is StepA,
        old(alice).channel_initiation_transaction is None,
        old(bob).wf(),
        old(bob).handshake_state is StepB,
    ensures
        r is Ok,
        final(alice).wf(),
        final(alice).handshake_state is StepC,
        final(alice).channel_initiation_transaction is None,
        final(bob).wf(),
        final(bob).handshake_state is StepD,
        final(bob).have_potato is Absent,
        r is Ok ==> r->Ok_0@ is HandshakeB,
{
    let mut ea: Vec<Effect> = Vec::new();
    let mut eb: Vec<Effect> = Vec::new();
    match alice.start(&mut ea, parent) {
        Ok(_) => {
        },
        Err(e) => {
            proof {
                assert(false);
            }
            return Err(e);
        },
    }
    let m1 = match pop_message(&mut ea) {
        Option::Some(m) => m,
        Option::None => {
            proof {
                assert(false);
            }
            return Err(Error::UnexpectedMessage);
        },
    };
    let f1 = encode_message(&m1);
    proof {
        lemma_message_round_trip(m1@);
    }
    match bob.received_message(&mut eb, f1) {
        Ok(_) => {
        },
        Err(e) => {
            proof {
                assert(false);
            }
            return Err(e);
        },
    }
    let m2 = match pop_message(&mut eb) {
        Option::Some(m) => m,
        Option::None => {
            proof {
                assert(false);
            }
            return Err(Error::UnexpectedMessage);
        },
    };
    Ok(m2)
}

/// The key bundle reaches the initiator, who binds the channel and
/// passes the first empty potato.
#[verifier::rlimit(100)]
#[verifier::spinoff_prover]
fn handshake_phase_keys(alice: &mut PotatoHandler, msg_b: PeerMessage) -> (r: Result<
    PeerMessage,
    Error,
>)
    requires
        msg_b@ is HandshakeB,
        old(alice).wf(),
        old(alice).handshake_state is StepC,
        old(alice).channel_initiation_transaction is None,
    ensures
        r is Ok,
        final(alice).wf(),
        final(alice).handshake_state is StepE,
        final(alice).have_potato is Absent,
        final(alice).channel_initiation_transaction is None,
        r is Ok ==> r->Ok_0@ == PeerMessageV::Nil(crate::channel_handler::spec_empty_sigs()),
{
    let mut ea: Vec<Effect> = Vec::new();
    let f2 = encode_message(&msg_b);
    proof {
        lemma_message_round_trip(msg_b@);
    }
    match alice.received_message(&mut ea, f2) {
        Ok(_) => {
        },
        Err(e) => {
            proof {
                assert(false);
            }
            return Err(e);
        },
    }
    let m3 = match pop_message(&mut ea) {
        Option::Some(m) => m,
        Option::None => {
            proof {
                assert(false);
            }
            return Err(Error::UnexpectedMessage);
        },
    };
    Ok(m3)
}

/// The two empty potato passes that bind the channel on both sides.
#[verifier::rlimit(100)]
#[verifier::spinoff_prover]
fn handshake_phase_potato(
    alice: &mut PotatoHandler,
    bob: &mut PotatoHandler,
    nil_msg: PeerMessage,
) -> (r: Result<(), Error>)
    requires
        nil_msg@ == PeerMessageV::Nil(crate::channel_handler::spec_empty_sigs()),
        old(alice).wf(),
        old(alice).handshake_state is StepE,
        old(alice).channel_initiation_transaction is None,
        old(bob).wf(),
        old(bob).handshake_state is StepD,
    ensures
        r is Ok,
        final(alice).wf(),
        final(alice).handshake_state is PostStepE,
        final(alice).have_potato is Present,
        final(alice).channel_initiation_transaction is None,
        final(bob).wf(),
        final(bob).handshake_state is StepF,
        final(bob).have_potato is Absent,
{
    let mut ea: Vec<Effect> = Vec::new();
    let mut eb: Vec<Effect> = Vec::new();
    let f3 = encode_message(&nil_msg);
    proof {
        lemma_message_round_trip(nil_msg@);
    }
    match bob.received_message(&mut eb, f3) {
        Ok(_) => {
        },
        Err(e) => {
            proof {
                assert(false);
            }
            return Err(e);
        },
    }
    let m4 = match pop_message(&mut eb) {
        Option::Some(m) => m,
        Option::None => {
            proof {
                assert(false);
            }
            return Err(Error::UnexpectedMessage);
        },
    };
    let f4 = encode_message(&m4);
    proof {
        lemma_message_round_trip(m4@);
    }
    match alice.received_message(&mut ea, f4) {
        Ok(_) => {
        },
        Err(e) => {
            proof {
                assert(false);
            }
            return Err(e);
        },
    }
    Ok(())
}

/// The initiator's wallet delivers the offer; it finishes her side and
/// crosses to the responder.
#[verifier::rlimit(100)]
#[verifier::spinoff_prover]
fn handshake_phase_offer(
    alice: &mut PotatoHandler,
    bob: &mut PotatoHandler,
    offer: SpendBundle,
) -> (r: Result<(), Error>)
    requires
        offer@.spends.len() > 0,
        old(alice).wf(),
        old(alice).handshake_state is PostStepE,
        old(bob).wf(),
        old(bob).handshake_state is StepF,
    ensures
        r is Ok,
        final(alice).wf(),
        final(alice).handshake_state is Finished,
        final(alice).have_potato == old(alice).have_potato,
        final(bob).wf(),
        final(bob).handshake_state is PostStepF,
        final(bob).have_potato is Absent,
{
    let mut ea: Vec<Effect> = Vec::new();
    let mut eb: Vec<Effect> = Vec::new();
    match alice.channel_offer(&mut ea, offer) {
        Ok(_) => {
        },
        Err(e) => {
            proof {
                assert(false);
            }
            return Err(e);
        },
    }
    let m5 = match pop_message(&mut ea) {
        Option::Some(m) => m,
        Option::None => {
            proof {
                assert(false);
            }
            return Err(Error::UnexpectedMessage);
        },
    };
    let f5 = encode_message(&m5);
    proof {
        lemma_message_round_trip(m5@);
    }
    match bob.received_message(&mut eb, f5) {
        Ok(_) => {
        },
        Err(e) => {
            proof {
                assert(false);
            }
            return Err(e);
        },
    }
    Ok(())
}

/// The responder's wallet completes, the chain shows the channel coin,
/// and the completion crosses back; both sides are now terminal.
#[verifier::rlimit(100)]
#[verifier::spinoff_prover]
fn handshake_phase_complete(
    alice: &mut PotatoHandler,
    bob: &mut PotatoHandler,
    completion: SpendBundle,
) -> (r: Result<(), Error>)
    requires
        old(alice).wf(),
        old(alice).handshake_state is Finished,
        old(bob).wf(),
        old(bob).handshake_state is PostStepF,
    ensures
        r is Ok,
        final(alice).wf(),
        final(alice).handshake_state is Finished,
        final(alice).have_potato == old(alice).have_potato,
        final(bob).wf(),
        final(bob).handshake_state is Finished,
        final(bob).have_potato == old(bob).have_potato,
{
    let mut ea: Vec<Effect> = Vec::new();
    let mut eb: Vec<Effect> = Vec::new();
    match bob.channel_transaction_completion(&mut eb, &completion) {
        Ok(_) => {
        },
        Err(e) => {
            proof {
                assert(false);
            }
            return Err(e);
        },
    }
    let channel_coin = match bob.channel_handler() {
        Ok(ch) => ch.state_channel_coin(),
        Err(e) => {
            proof {
                assert(false);
            }
            return Err(e);
        },
    };
    match bob.coin_created(&mut eb, &channel_coin) {
        Ok(_) => {
        },
        Err(e) => {
            proof {
                assert(false);
            }
            return Err(e);
        },
    }
    let m6 = match pop_message(&mut eb) {
        Option::Some(m) => m,
        Option::None => {
            proof {
                assert(false);
            }
            return Err(Error::UnexpectedMessage);
        },
    };
    let f6 = encode_message(&m6);
    proof {
        lemma_message_round_trip(m6@);
    }
    match alice.received_message(&mut ea, f6) {
        Ok(_) => {
        },
        Err(e) => {
            proof {
                assert(false);
            }
            return Err(e);
        },
    }
    Ok(())
}

/// Handshake completion: two fresh coordinators with inverse potato
/// flags, a lossless wire, and a cooperative wallet always reach the
/// terminal state, and the potato comes to rest with the initiator.
///
/// The run is verified to succeed: exactly the six peer messages cross
/// the wire in order, the initiator's wallet answers with the offer, the
/// responder's wallet completes the transaction, and the chain observer
/// reports the channel coin.
pub fn run_cooperative_handshake(
    alice_keys: ChannelHandlerPrivateKeys,
    bob_keys: ChannelHandlerPrivateKeys,
    alice_reward: PuzzleHash,
    bob_reward: PuzzleHash,
    my_contribution: Amount,
    their_contribution: Amount,
    channel_timeout: Timeout,
    parent: CoinString,
    offer: SpendBundle,
    completion: SpendBundle,
) -> (r: Result<(PotatoHandler, PotatoHandler), Error>)
    requires
        my_contribution@ + their_contribution@ <= u64::MAX,
        offer@.spends.len() > 0,
    ensures
        r is Ok,
        r is Ok ==> ({
            let pair = r->Ok_0;
            &&& pair.0.handshake_state is Finished
            &&& pair.1.handshake_state is Finished
            &&& pair.0.have_potato is Present
            &&& pair.1.have_potato is Absent
        }),
{
    let mut alice = PotatoHandler::new(
        true,
        alice_keys,
        GameTypeMap::new(),
        my_contribution,
        their_contribution,
        channel_timeout,
        alice_reward,
    );
    let mut bob = PotatoHandler::new(
        false,
        bob_keys,
        GameTypeMap::new(),
        their_contribution,
        my_contribution,
        channel_timeout,
        bob_reward,
    );
    let msg_b = match handshake_phase_announce(&mut alice, &mut bob, parent) {
        Ok(m) => m,
        Err(e) => {
            proof {
                assert(false);
            }
            return Err(e);
        },
    };
    let nil_msg = match handshake_phase_keys(&mut alice, msg_b) {
        Ok(m) => m,
        Err(e) => {
            proof {
                assert(false);
            }
            return Err(e);
        },
    };
    match handshake_phase_potato(&mut alice, &mut bob, nil_msg) {
        Ok(_) => {
        },
        Err(e) => {
            proof {
                assert(false);
            }
            return Err(e);
        },
    }
    match handshake_phase_offer(&mut alice, &mut bob, offer) {
        Ok(_) => {
        },
        Err(e) => {
            proof {
                assert(false);
            }
            return Err(e);
        },
    }
    match handshake_phase_complete(&mut alice, &mut bob, completion) {
        Ok(_) => {
        },
        Err(e) => {
            proof {
                assert(false);
            }
            return Err(e);
        },
    }
    Ok((alice, bob))
}

} // verus!
