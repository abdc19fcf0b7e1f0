// The coordinator's running-state behavior: queueing, the potato
// request-and-retry discipline, game starts, moves, accepts, shutdown.

use potato_handler::codec::encode_message;
use potato_handler::effects::Effect;
use potato_handler::games::{poker_collection, GameTypeMap};
use potato_handler::game_start::GameStart;
use potato_handler::handler::PotatoHandler;
use potato_handler::messages::PeerMessage;
use potato_handler::channel_handler::{ChannelHandler, ChannelHandlerInitiationData};
use potato_handler::types::{
    Aggsig, Amount, ChannelHandlerPrivateKeys, CoinID, CoinSpend, CoinString, Error, GameID,
    GameType, PrivateKey, Program, PublicKey, PuzzleHash, ReadableMove, Spend, SpendBundle,
    Timeout,
};

fn keys(tag: u8) -> ChannelHandlerPrivateKeys {
    ChannelHandlerPrivateKeys {
        my_channel_coin_private_key: PrivateKey(vec![tag; 32]),
        my_unroll_coin_private_key: PrivateKey(vec![tag, 2]),
        my_referee_private_key: PrivateKey(vec![tag, 3]),
    }
}

// A constant factory: `(q . ((a) (b)))`, one game record per side.
fn factory_program() -> Program {
    Program(vec![0xff, 0x01, 0xff, 0xff, 0x61, 0x80, 0xff, 0xff, 0x62, 0x80, 0x80])
}

fn new_handler(have_potato: bool) -> PotatoHandler {
    PotatoHandler::new(
        have_potato,
        keys(if have_potato { 0xa1 } else { 0xb1 }),
        poker_collection(factory_program()),
        Amount(100),
        Amount(100),
        Timeout(10),
        PuzzleHash(vec![if have_potato { 0xaa } else { 0xbb }; 32]),
    )
}

fn parent_coin() -> CoinString {
    CoinString {
        parent: CoinID(vec![1; 32]),
        puzzle_hash: PuzzleHash(vec![2; 32]),
        amount: Amount(200),
    }
}

fn offer_bundle() -> SpendBundle {
    SpendBundle {
        spends: vec![CoinSpend {
            coin: parent_coin(),
            bundle: Spend {
                puzzle: Program(vec![1, 2, 3]),
                solution: Program(vec![4, 5]),
                signature: Aggsig(vec![]),
            },
        }],
    }
}

fn take_messages(effects: &mut Vec<Effect>) -> Vec<PeerMessage> {
    let mut msgs = Vec::new();
    for e in effects.drain(..) {
        if let Effect::SendMessage(m) = e {
            msgs.push(m);
        }
    }
    msgs
}

fn deliver(from_effects: &mut Vec<Effect>, to: &mut PotatoHandler, to_effects: &mut Vec<Effect>) {
    let msgs = take_messages(from_effects);
    for m in msgs {
        let frame = encode_message(&m);
        to.received_message(to_effects, frame).expect("should work");
    }
}

/// Run the whole handshake and return both finished coordinators.
fn finished_pair() -> (PotatoHandler, PotatoHandler) {
    let mut alice = new_handler(true);
    let mut bob = new_handler(false);
    let mut ea: Vec<Effect> = Vec::new();
    let mut eb: Vec<Effect> = Vec::new();
    alice.start(&mut ea, parent_coin()).expect("should send");
    deliver(&mut ea, &mut bob, &mut eb);
    deliver(&mut eb, &mut alice, &mut ea);
    deliver(&mut ea, &mut bob, &mut eb);
    deliver(&mut eb, &mut alice, &mut ea);
    alice.channel_offer(&mut ea, offer_bundle()).expect("should work");
    deliver(&mut ea, &mut bob, &mut eb);
    bob.channel_transaction_completion(&mut eb, &offer_bundle()).expect("should work");
    let channel_coin = bob.channel_handler().expect("should work").state_channel_coin();
    bob.coin_created(&mut eb, &channel_coin).expect("should work");
    deliver(&mut eb, &mut alice, &mut ea);
    assert!(alice.handshake_finished() && bob.handshake_finished());
    (alice, bob)
}

fn calpoker_start() -> GameStart {
    GameStart {
        game_type: GameType(b"calpoker".to_vec()),
        timeout: Timeout(10),
        amount: Amount(200),
        my_contribution: Amount(100),
        my_turn: true,
        parameters: vec![0x80],
    }
}

#[test]
fn test_move_before_handshake() {
    // A move submitted in StepA is rejected and nothing is emitted.
    let mut alice = new_handler(true);
    let mut ea: Vec<Effect> = Vec::new();
    let r = alice.make_move(&mut ea, &GameID(vec![7]), &ReadableMove(vec![1]));
    let e = r.expect_err("must reject before handshake");
    assert!(matches!(e, Error::HandshakeNotFinished));
    assert_eq!(e.message(), "move without finishing handshake");
    assert!(ea.is_empty());
}

#[test]
fn test_unexpected_start_games() {
    // A StartGames with no prior announcement is a protocol error.
    let (mut alice, mut bob) = finished_pair();
    let mut ea: Vec<Effect> = Vec::new();
    let mut eb: Vec<Effect> = Vec::new();
    let mut allocator = clvmr::Allocator::new();
    // Alice starts a game and sends StartGames at once (she holds the potato).
    let ids = alice
        .start_games(&mut allocator, &mut ea, true, &calpoker_start())
        .expect("should work");
    assert_eq!(ids.len(), 1);
    let msgs = take_messages(&mut ea);
    assert_eq!(msgs.len(), 1);
    // Bob never announced the start, so the delivery is rejected.
    let r = bob.received_message(&mut eb, encode_message(&msgs[0]));
    let e = r.expect_err("must reject unannounced starts");
    assert!(matches!(e, Error::NoWaitingGames));
    assert_eq!(e.message(), "no waiting games to start");
    assert!(eb.is_empty());
}

#[test]
fn test_start_games_round() {
    // With the announcement in place the same delivery is accepted.
    let (mut alice, mut bob) = finished_pair();
    let mut ea: Vec<Effect> = Vec::new();
    let mut eb: Vec<Effect> = Vec::new();
    let mut allocator = clvmr::Allocator::new();
    let bob_ids = bob
        .start_games(&mut allocator, &mut eb, false, &calpoker_start())
        .expect("should work");
    assert_eq!(bob_ids.len(), 1);
    assert!(eb.is_empty());
    assert_eq!(bob.their_start_queue.len(), 1);
    let ids = alice
        .start_games(&mut allocator, &mut ea, true, &calpoker_start())
        .expect("should work");
    assert_eq!(ids.len(), 1);
    assert!(!alice.has_potato());
    let msgs = take_messages(&mut ea);
    assert_eq!(msgs.len(), 1);
    assert!(matches!(msgs[0], PeerMessage::StartGames(_, _)));
    bob.received_message(&mut eb, encode_message(&msgs[0])).expect("should work");
    assert_eq!(bob.their_start_queue.len(), 0);
    // The potato moved to Bob with the start.
    assert!(bob.has_potato());
}

#[test]
fn test_double_request_potato() {
    // Two queued moves while the potato is away produce exactly one
    // RequestPotato on the wire.
    let (_alice, mut bob) = finished_pair();
    let mut eb: Vec<Effect> = Vec::new();
    assert!(!bob.has_potato());
    bob.make_move(&mut eb, &GameID(vec![1]), &ReadableMove(vec![9])).expect("should work");
    bob.make_move(&mut eb, &GameID(vec![2]), &ReadableMove(vec![8])).expect("should work");
    let msgs = take_messages(&mut eb);
    assert_eq!(msgs.len(), 1);
    assert!(matches!(msgs[0], PeerMessage::RequestPotato(())));
    assert_eq!(bob.game_action_queue.len(), 2);
}

#[test]
fn test_unknown_game_type() {
    // An unknown game type is rejected and leaves the queues unchanged.
    let (mut alice, _bob) = finished_pair();
    let mut ea: Vec<Effect> = Vec::new();
    let mut allocator = clvmr::Allocator::new();
    let mut start = calpoker_start();
    start.game_type = GameType(b"unheard-of".to_vec());
    let r = alice.start_games(&mut allocator, &mut ea, true, &start);
    let e = r.expect_err("must reject unknown game type");
    assert!(matches!(e, Error::NoSuchGame(_)));
    assert_eq!(e.message(), "no such game");
    assert!(ea.is_empty());
    assert_eq!(alice.my_start_queue.len(), 0);
    assert_eq!(alice.game_action_queue.len(), 0);
    assert_eq!(alice.their_start_queue.len(), 0);
    assert!(alice.has_potato());
}

#[test]
fn test_move_round_trip() {
    // A queued move drains when the potato returns, reaches the peer as
    // an opponent move, and the potato stays with the peer afterwards.
    let (mut alice, mut bob) = finished_pair();
    let mut ea: Vec<Effect> = Vec::new();
    let mut eb: Vec<Effect> = Vec::new();
    // Bob queues a move and requests the potato.
    bob.make_move(&mut eb, &GameID(vec![1]), &ReadableMove(vec![42])).expect("should work");
    deliver(&mut eb, &mut alice, &mut ea);
    // Alice held the potato, so she answers with a Nil pass.
    deliver(&mut ea, &mut bob, &mut eb);
    // Bob's queued move went out with the arriving potato.
    let msgs = take_messages(&mut eb);
    assert_eq!(msgs.len(), 1);
    match &msgs[0] {
        PeerMessage::Move(id, result) => {
            assert_eq!(id, &GameID(vec![1]));
            assert_eq!(result.0, vec![42]);
        }
        other => panic!("expected a move, got {:?}", other),
    }
    assert!(!bob.has_potato());
    // Alice receives the move and reports it upward.
    alice.received_message(&mut ea, encode_message(&msgs[0])).expect("should work");
    let mut saw_opponent_move = false;
    for e in ea.drain(..) {
        if let Effect::OpponentMoved(id, readable) = e {
            assert_eq!(id, GameID(vec![1]));
            assert_eq!(readable.0, vec![42]);
            saw_opponent_move = true;
        }
    }
    assert!(saw_opponent_move);
    assert!(alice.has_potato());
}

#[test]
fn test_accept_reports_game_finished() {
    let (mut alice, mut bob) = finished_pair();
    let mut ea: Vec<Effect> = Vec::new();
    let mut eb: Vec<Effect> = Vec::new();
    // Alice holds the potato, so her accept goes out at once.
    alice.accept(&mut ea, &GameID(vec![5])).expect("should work");
    let mut saw_local_report = false;
    let mut msgs = Vec::new();
    for e in ea.drain(..) {
        match e {
            Effect::SendMessage(m) => msgs.push(m),
            Effect::GameFinished(id, _amount) => {
                assert_eq!(id, GameID(vec![5]));
                saw_local_report = true;
            }
            _ => panic!("unexpected effect"),
        }
    }
    assert!(saw_local_report);
    assert_eq!(msgs.len(), 1);
    assert!(matches!(msgs[0], PeerMessage::Accept(_, _, _)));
    // Bob takes the accept and reports the finished game too.
    bob.received_message(&mut eb, encode_message(&msgs[0])).expect("should work");
    let mut saw_peer_report = false;
    for e in eb.drain(..) {
        if let Effect::GameFinished(id, _amount) = e {
            assert_eq!(id, GameID(vec![5]));
            saw_peer_report = true;
        }
    }
    assert!(saw_peer_report);
}

#[test]
fn test_shutdown_spends_through_wallet() {
    let (mut alice, _bob) = finished_pair();
    let mut ea: Vec<Effect> = Vec::new();
    alice.shut_down(&mut ea).expect("should work");
    assert!(!alice.has_potato());
    let mut saw_spend = false;
    for e in ea.drain(..) {
        if let Effect::SpendTransactionAndAddFee(bundle) = e {
            assert_eq!(bundle.spends.len(), 1);
            assert_eq!(bundle.spends[0].coin, parent_coin());
            assert!(!bundle.spends[0].bundle.solution.0.is_empty());
            saw_spend = true;
        }
    }
    assert!(saw_spend);
}

#[test]
fn test_request_potato_answered() {
    // A RequestPotato that reaches the holder is answered with a Nil
    // pass; one that reaches a non-holder is a protocol error.
    let (mut alice, mut bob) = finished_pair();
    let mut ea: Vec<Effect> = Vec::new();
    let mut eb: Vec<Effect> = Vec::new();
    let frame = encode_message(&PeerMessage::RequestPotato(()));
    alice.received_message(&mut ea, frame.clone()).expect("should work");
    assert!(!alice.has_potato());
    let msgs = take_messages(&mut ea);
    assert_eq!(msgs.len(), 1);
    assert!(matches!(msgs[0], PeerMessage::Nil(_)));
    let r = bob.received_message(&mut eb, frame);
    assert!(matches!(r, Err(Error::PotatoAccounting)));
    assert!(eb.is_empty());
}

#[test]
fn test_coin_spent_goes_on_chain() {
    let (mut alice, _bob) = finished_pair();
    let mut ea: Vec<Effect> = Vec::new();
    let channel_coin = alice.channel_handler().expect("should work").state_channel_coin();
    alice.coin_spent(&mut ea, &channel_coin).expect("should work");
    assert_eq!(ea.len(), 1);
    assert!(matches!(ea[0], Effect::GoingOnChain));
    // A spend of an unrelated coin is ignored.
    let mut ea2: Vec<Effect> = Vec::new();
    alice.coin_spent(&mut ea2, &parent_coin()).expect("should work");
    assert!(ea2.is_empty());
}

#[test]
fn test_accessors_before_handshake() {
    let alice = new_handler(true);
    assert!(matches!(alice.parent_coin(), Err(Error::NoHandshake)));
    assert!(matches!(alice.channel_handler(), Err(Error::NoChannelHandler)));
}

#[test]
fn test_joint_stake_overflow() {
    let init = ChannelHandlerInitiationData {
        launcher_coin_id: CoinID(vec![1; 32]),
        we_start_with_potato: false,
        their_channel_pubkey: PublicKey(vec![2; 32]),
        their_unroll_pubkey: PublicKey(vec![3; 32]),
        their_referee_puzzle_hash: PuzzleHash(vec![4; 32]),
        my_contribution: Amount(u64::MAX),
        their_contribution: Amount(1),
    };
    let r = ChannelHandler::new(&keys(1), &init);
    assert!(matches!(r, Err(Error::AmountOverflow)));
}

#[test]
fn test_bad_factory_output() {
    // A factory whose output is a bare atom is not a pair of lists.
    let mut handler = PotatoHandler::new(
        true,
        keys(0xa1),
        poker_collection(Program(vec![0xff, 0x01, 0x01])),
        Amount(100),
        Amount(100),
        Timeout(10),
        PuzzleHash(vec![0xaa; 32]),
    );
    let mut bob = PotatoHandler::new(
        false,
        keys(0xb1),
        poker_collection(Program(vec![0xff, 0x01, 0x01])),
        Amount(100),
        Amount(100),
        Timeout(10),
        PuzzleHash(vec![0xbb; 32]),
    );
    let mut ea: Vec<Effect> = Vec::new();
    let mut eb: Vec<Effect> = Vec::new();
    handler.start(&mut ea, parent_coin()).expect("should send");
    deliver(&mut ea, &mut bob, &mut eb);
    deliver(&mut eb, &mut handler, &mut ea);
    deliver(&mut ea, &mut bob, &mut eb);
    deliver(&mut eb, &mut handler, &mut ea);
    handler.channel_offer(&mut ea, offer_bundle()).expect("should work");
    assert!(handler.handshake_finished());
    let mut allocator = clvmr::Allocator::new();
    let r = handler.start_games(&mut allocator, &mut ea, true, &calpoker_start());
    assert!(matches!(r, Err(Error::BadFactoryOutput)));
}

#[test]
fn test_mismatched_game_starts() {
    // A factory returning sides of different lengths is rejected.
    let mut handler = PotatoHandler::new(
        true,
        keys(0xa1),
        poker_collection(Program(vec![0xff, 0x01, 0xff, 0xff, 0x61, 0x80, 0xff, 0x80, 0x80])),
        Amount(100),
        Amount(100),
        Timeout(10),
        PuzzleHash(vec![0xaa; 32]),
    );
    let mut bob = PotatoHandler::new(
        false,
        keys(0xb1),
        GameTypeMap::new(),
        Amount(100),
        Amount(100),
        Timeout(10),
        PuzzleHash(vec![0xbb; 32]),
    );
    let mut ea: Vec<Effect> = Vec::new();
    let mut eb: Vec<Effect> = Vec::new();
    handler.start(&mut ea, parent_coin()).expect("should send");
    deliver(&mut ea, &mut bob, &mut eb);
    deliver(&mut eb, &mut handler, &mut ea);
    deliver(&mut ea, &mut bob, &mut eb);
    deliver(&mut eb, &mut handler, &mut ea);
    handler.channel_offer(&mut ea, offer_bundle()).expect("should work");
    let mut allocator = clvmr::Allocator::new();
    let r = handler.start_games(&mut allocator, &mut ea, true, &calpoker_start());
    assert!(matches!(r, Err(Error::MismatchedGameStarts)));
}

#[test]
fn test_unreadable_parameters() {
    // Truncated CLVM in the request's parameters fails the evaluator.
    let (mut alice, _bob) = finished_pair();
    let mut ea: Vec<Effect> = Vec::new();
    let mut allocator = clvmr::Allocator::new();
    let mut start = calpoker_start();
    start.parameters = vec![0xff];
    let r = alice.start_games(&mut allocator, &mut ea, true, &start);
    assert!(matches!(r, Err(Error::Clvm)));
    assert!(ea.is_empty());
}

#[test]
fn test_empty_offer_bundle_rejected() {
    // The channel offer must hold the spends that draw the channel coin.
    let mut alice = new_handler(true);
    let mut bob = new_handler(false);
    let mut ea: Vec<Effect> = Vec::new();
    let mut eb: Vec<Effect> = Vec::new();
    alice.start(&mut ea, parent_coin()).expect("should send");
    deliver(&mut ea, &mut bob, &mut eb);
    deliver(&mut eb, &mut alice, &mut ea);
    deliver(&mut ea, &mut bob, &mut eb);
    deliver(&mut eb, &mut alice, &mut ea);
    // Bob stands in StepF; an offer with no spends is rejected.
    let empty = SpendBundle { spends: Vec::new() };
    let frame = encode_message(&PeerMessage::HandshakeE { bundle: empty });
    let r = bob.received_message(&mut eb, frame);
    assert!(matches!(r, Err(Error::EmptyBundle)));
    assert!(eb.is_empty());
    assert!(!bob.handshake_finished());
}
