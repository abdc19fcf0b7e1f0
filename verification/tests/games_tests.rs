// The game-type table and the stock collection.

use potato_handler::games::{poker_collection, program_from_hex, GameTypeMap};
use potato_handler::types::{GameType, Program};

#[test]
fn test_load_calpoker() {
    // The stock collection holds the poker factory under its tag; the
    // hex form of a factory loads through the verified decoder.
    let factory = program_from_hex(&b"ff0180".to_vec()).expect("should load");
    assert_eq!(factory, Program(vec![0xff, 0x01, 0x80]));
    let collection = poker_collection(factory);
    let found = collection.get(&GameType(b"calpoker".to_vec())).expect("should convert");
    assert_eq!(found, Program(vec![0xff, 0x01, 0x80]));
    assert!(collection.get(&GameType(b"acey-deucey".to_vec())).is_none());
}

#[test]
fn test_hex_decoding() {
    assert_eq!(program_from_hex(&b"".to_vec()), Some(Program(vec![])));
    assert_eq!(program_from_hex(&b"00ffAb".to_vec()), Some(Program(vec![0, 0xff, 0xab])));
    // Odd length and stray characters fail.
    assert!(program_from_hex(&b"abc".to_vec()).is_none());
    assert!(program_from_hex(&b"zz".to_vec()).is_none());
}

#[test]
fn test_game_type_map_shadowing() {
    let mut map = GameTypeMap::new();
    map.insert(GameType(vec![1]), Program(vec![10]));
    map.insert(GameType(vec![2]), Program(vec![20]));
    assert_eq!(map.get(&GameType(vec![1])), Some(Program(vec![10])));
    assert_eq!(map.get(&GameType(vec![2])), Some(Program(vec![20])));
    assert_eq!(map.get(&GameType(vec![3])), None);
}
