// The codec: every message kind survives the wire, and malformed frames
// are rejected.

use potato_handler::codec::{decode_message, encode_message};
use potato_handler::game_start::FlatGameStartInfo;
use potato_handler::messages::{HandshakeA, HandshakeB, PeerMessage};
use potato_handler::types::{
    Aggsig, Amount, CoinID, CoinSpend, CoinString, GameID, MoveResult, PotatoSignatures, Program,
    PuzzleHash, Spend, SpendBundle,
};

fn sigs() -> PotatoSignatures {
    PotatoSignatures {
        my_channel_half_signature_peer: Aggsig(vec![1, 2]),
        my_unroll_half_signature_peer: Aggsig(vec![3]),
    }
}

fn coin() -> CoinString {
    CoinString {
        parent: CoinID(vec![9; 4]),
        puzzle_hash: PuzzleHash(vec![8; 3]),
        amount: Amount(0xdead_beef),
    }
}

fn hs_b() -> HandshakeB {
    HandshakeB {
        channel_public_key: potato_handler::types::PublicKey(vec![1; 5]),
        unroll_public_key: potato_handler::types::PublicKey(vec![2; 5]),
        reward_puzzle_hash: PuzzleHash(vec![3; 2]),
        referee_puzzle_hash: PuzzleHash(vec![4]),
    }
}

fn bundle() -> SpendBundle {
    SpendBundle {
        spends: vec![
            CoinSpend {
                coin: coin(),
                bundle: Spend {
                    puzzle: Program(vec![5, 6]),
                    solution: Program(vec![]),
                    signature: Aggsig(vec![7]),
                },
            },
            CoinSpend {
                coin: coin(),
                bundle: Spend {
                    puzzle: Program(vec![]),
                    solution: Program(vec![1]),
                    signature: Aggsig(vec![]),
                },
            },
        ],
    }
}

fn round_trip(m: PeerMessage) {
    let frame = encode_message(&m);
    let back = decode_message(&frame).expect("should decode");
    assert_eq!(back, m);
}

#[test]
fn test_codec_round_trip_all_kinds() {
    round_trip(PeerMessage::HandshakeA(HandshakeA { parent: coin(), simple: hs_b() }));
    round_trip(PeerMessage::HandshakeB(hs_b()));
    round_trip(PeerMessage::HandshakeE { bundle: bundle() });
    round_trip(PeerMessage::HandshakeF { bundle: bundle() });
    round_trip(PeerMessage::Nil(sigs()));
    round_trip(PeerMessage::Move(GameID(vec![1, 2, 3]), MoveResult(vec![4, 5])));
    round_trip(PeerMessage::Accept(GameID(vec![]), Amount(77), sigs()));
    round_trip(PeerMessage::Shutdown(Aggsig(vec![1; 10])));
    round_trip(PeerMessage::RequestPotato(()));
    round_trip(PeerMessage::StartGames(
        sigs(),
        vec![
            FlatGameStartInfo {
                game_id: GameID(vec![0xff, 0x00]),
                timeout: potato_handler::types::Timeout(99),
                my_turn: true,
                rule_data: Program(vec![0xff, 0x01, 0x80]),
            },
            FlatGameStartInfo {
                game_id: GameID(vec![]),
                timeout: potato_handler::types::Timeout(0),
                my_turn: false,
                rule_data: Program(vec![]),
            },
        ],
    ));
}

#[test]
fn test_codec_exact_frame() {
    // A RequestPotato is exactly its tag byte; an Accept of an empty id
    // spells its length prefix and amount little-endian.
    assert_eq!(encode_message(&PeerMessage::RequestPotato(())), vec![8u8]);
    let frame = encode_message(&PeerMessage::Move(GameID(vec![0xab]), MoveResult(vec![])));
    assert_eq!(
        frame,
        vec![5u8, 1, 0, 0, 0, 0, 0, 0, 0, 0xab, 0, 0, 0, 0, 0, 0, 0, 0],
    );
}

#[test]
fn test_codec_rejects_malformed() {
    assert!(decode_message(&vec![]).is_err());
    assert!(decode_message(&vec![250]).is_err());
    // Truncated length prefix.
    assert!(decode_message(&vec![5u8, 1, 0, 0]).is_err());
    // Trailing garbage after a well-formed message.
    let mut frame = encode_message(&PeerMessage::RequestPotato(()));
    frame.push(0);
    assert!(decode_message(&frame).is_err());
}
