// The six-message handshake, run end to end over the real codec.

use potato_handler::codec::encode_message;
use potato_handler::effects::Effect;
use potato_handler::games::GameTypeMap;
use potato_handler::handler::PotatoHandler;
use potato_handler::laws::run_cooperative_handshake;
use potato_handler::messages::PeerMessage;
use potato_handler::types::{
    Aggsig, Amount, ChannelHandlerPrivateKeys, CoinID, CoinSpend, CoinString, PrivateKey, Program,
    PuzzleHash, Spend, SpendBundle, Timeout,
};

fn keys(tag: u8) -> ChannelHandlerPrivateKeys {
    ChannelHandlerPrivateKeys {
        my_channel_coin_private_key: PrivateKey(vec![tag; 32]),
        my_unroll_coin_private_key: PrivateKey(vec![tag, 2]),
        my_referee_private_key: PrivateKey(vec![tag, 3]),
    }
}

fn new_handler(have_potato: bool) -> PotatoHandler {
    PotatoHandler::new(
        have_potato,
        keys(if have_potato { 0xa1 } else { 0xb1 }),
        GameTypeMap::new(),
        Amount(100),
        Amount(100),
        Timeout(10),
        PuzzleHash(vec![if have_potato { 0xaa } else { 0xbb }; 32]),
    )
}

fn parent_coin() -> CoinString {
    CoinString {
        parent: CoinID(vec![1; 32]),
        puzzle_hash: PuzzleHash(vec![2; 32]),
        amount: Amount(200),
    }
}

fn offer_bundle() -> SpendBundle {
    SpendBundle {
        spends: vec![CoinSpend {
            coin: parent_coin(),
            bundle: Spend {
                puzzle: Program(vec![1, 2, 3]),
                solution: Program(vec![4, 5]),
                signature: Aggsig(vec![]),
            },
        }],
    }
}

/// Pull the peer messages out of an effect list, leaving other effects.
fn take_messages(effects: &mut Vec<Effect>) -> Vec<PeerMessage> {
    let mut msgs = Vec::new();
    for e in effects.drain(..) {
        if let Effect::SendMessage(m) = e {
            msgs.push(m);
        }
    }
    msgs
}

/// Deliver every queued message from `from_effects` into `to`, returning
/// how many were delivered.
fn deliver(from_effects: &mut Vec<Effect>, to: &mut PotatoHandler, to_effects: &mut Vec<Effect>) -> usize {
    let msgs = take_messages(from_effects);
    let n = msgs.len();
    for m in msgs {
        let frame = encode_message(&m);
        to.received_message(to_effects, frame).expect("should work");
    }
    n
}

#[test]
fn test_peer_smoke() {
    let mut alice = new_handler(true);
    let mut bob = new_handler(false);
    let mut ea: Vec<Effect> = Vec::new();
    let mut eb: Vec<Effect> = Vec::new();

    assert!(alice.is_initiator());
    assert!(!bob.is_initiator());
    assert!(alice.has_potato());
    assert!(!bob.has_potato());

    alice.start(&mut ea, parent_coin()).expect("should send");
    let mut wire_messages = 0;

    // A: HandshakeA to Bob.
    wire_messages += deliver(&mut ea, &mut bob, &mut eb);
    // B: HandshakeB to Alice; Alice then passes the empty potato.
    wire_messages += deliver(&mut eb, &mut alice, &mut ea);
    // Nil to Bob; Bob passes it back.
    wire_messages += deliver(&mut ea, &mut bob, &mut eb);
    // Nil to Alice; Alice now waits for her wallet's offer.
    wire_messages += deliver(&mut eb, &mut alice, &mut ea);
    assert!(!alice.handshake_finished());
    assert!(!bob.handshake_finished());

    // Alice's wallet delivers the partly signed offer; she finishes and
    // sends HandshakeE.
    alice.channel_offer(&mut ea, offer_bundle()).expect("should work");
    assert!(alice.handshake_finished());
    wire_messages += deliver(&mut ea, &mut bob, &mut eb);
    assert!(!bob.handshake_finished());

    // Bob's wallet completes the transaction, and the channel coin is
    // seen on chain; he finishes and sends HandshakeF.
    bob.channel_transaction_completion(&mut eb, &offer_bundle()).expect("should work");
    let channel_coin = bob.channel_handler().expect("should work").state_channel_coin();
    bob.coin_created(&mut eb, &channel_coin).expect("should work");
    assert!(bob.handshake_finished());
    wire_messages += deliver(&mut eb, &mut alice, &mut ea);

    assert!(alice.handshake_finished());
    assert!(bob.handshake_finished());
    // Exactly the six handshake messages crossed the wire.
    assert_eq!(wire_messages, 6);
    // The potato rests with the initiator; never with both.
    assert!(alice.has_potato());
    assert!(!bob.has_potato());
    // Both compute the same channel coin.
    let ca = alice.channel_handler().expect("should work").state_channel_coin();
    let cb = bob.channel_handler().expect("should work").state_channel_coin();
    assert_eq!(ca, cb);
    assert_eq!(ca.amount, Amount(200));
    // The parent coin is known on both sides.
    assert_eq!(alice.parent_coin().expect("should work"), parent_coin());
    assert_eq!(bob.parent_coin().expect("should work"), parent_coin());
}

#[test]
fn test_handshake_rejects_early_messages() {
    // Mis-timed messages are protocol errors and change nothing.
    let mut alice = new_handler(true);
    let mut ea: Vec<Effect> = Vec::new();
    // Alice in StepA accepts nothing.
    let frame = encode_message(&PeerMessage::RequestPotato(()));
    let r = alice.received_message(&mut ea, frame);
    assert!(matches!(r, Err(potato_handler::types::Error::UnexpectedMessage)));
    assert!(ea.is_empty());
    assert!(!alice.handshake_finished());
}

#[test]
fn test_decode_failure_is_protocol_error() {
    let mut bob = new_handler(false);
    let mut eb: Vec<Effect> = Vec::new();
    let r = bob.received_message(&mut eb, vec![0xfe, 1, 2]);
    let e = r.expect_err("malformed frame must be rejected");
    assert_eq!(e.message(), "could not decode peer message");
    assert!(eb.is_empty());
}

#[test]
fn test_cooperative_handshake_driver() {
    // The verified driver runs the same six-message dance end to end.
    let (alice, bob) = run_cooperative_handshake(
        keys(0xa1),
        keys(0xb1),
        PuzzleHash(vec![0xaa; 32]),
        PuzzleHash(vec![0xbb; 32]),
        Amount(100),
        Amount(100),
        Timeout(10),
        parent_coin(),
        offer_bundle(),
        offer_bundle(),
    )
    .expect("should work");
    assert!(alice.handshake_finished());
    assert!(bob.handshake_finished());
    assert!(alice.has_potato());
    assert!(!bob.has_potato());
}
