// The game-id counter and its seed.

use potato_handler::game_id::{increment_game_id, init_game_id};
use potato_handler::game_start::{FlatGameStartInfo, GameStartInfo};
use potato_handler::types::{ChannelHandlerPrivateKeys, GameID, PrivateKey, Program, Timeout};

#[test]
fn test_game_id_increment_carries() {
    // Little-endian byte carry: [0xff, 0x00] counts up to [0x00, 0x01].
    let mut counter = vec![0xffu8, 0x00];
    let first = counter.clone();
    increment_game_id(&mut counter);
    assert_eq!(first, vec![0xff, 0x00]);
    assert_eq!(counter, vec![0x00, 0x01]);
    increment_game_id(&mut counter);
    assert_eq!(counter, vec![0x01, 0x01]);
}

#[test]
fn test_game_id_increment_wraps() {
    let mut counter = vec![0xffu8, 0xff];
    increment_game_id(&mut counter);
    assert_eq!(counter, vec![0x00, 0x00]);
}

#[test]
fn test_init_game_id_is_digest() {
    let keys = ChannelHandlerPrivateKeys {
        my_channel_coin_private_key: PrivateKey(vec![1, 2, 3]),
        my_unroll_coin_private_key: PrivateKey(vec![4]),
        my_referee_private_key: PrivateKey(vec![5, 6]),
    };
    let seed = init_game_id(&keys);
    // A digest: 32 bytes, not the input handed back.
    assert_eq!(seed.len(), 32);
    assert_ne!(seed, vec![1, 2, 3, 4, 5, 6].into_iter().chain(vec![0; 26]).collect::<Vec<u8>>());
    // Stable, and sensitive to the keys.
    assert_eq!(seed, init_game_id(&keys));
    let other_keys = ChannelHandlerPrivateKeys {
        my_channel_coin_private_key: PrivateKey(vec![1, 2, 4]),
        my_unroll_coin_private_key: PrivateKey(vec![4]),
        my_referee_private_key: PrivateKey(vec![5, 6]),
    };
    assert_ne!(seed, init_game_id(&other_keys));
}

#[test]
fn test_successive_ids_distinct() {
    let mut counter = vec![0xfeu8, 0xff, 0x01];
    let mut seen: Vec<Vec<u8>> = Vec::new();
    for _ in 0..5 {
        assert!(!seen.contains(&counter));
        seen.push(counter.clone());
        increment_game_id(&mut counter);
    }
}

#[test]
fn test_game_start_info_round_trip() {
    let info = GameStartInfo {
        game_id: GameID(vec![1, 2]),
        timeout: Timeout(10),
        my_turn: true,
        rule_data: Program(vec![0xff, 0x80]),
    };
    let flat = info.to_serializable();
    let back = GameStartInfo::from_serializable(&flat);
    assert_eq!(back, info);
    let flat2 = FlatGameStartInfo {
        game_id: GameID(vec![]),
        timeout: Timeout(0),
        my_turn: false,
        rule_data: Program(vec![]),
    };
    let re = GameStartInfo::from_serializable(&flat2).to_serializable();
    assert_eq!(re, flat2);
}
