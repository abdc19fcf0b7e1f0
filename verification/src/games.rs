//! The read-only table from game type tags to their rule programs, and
//! the stock collection holding the poker factory.

use vstd::prelude::*;
use crate::types::{bytes_eq, GameType, Program};

verus! {

/// Look a key up in a sequence of entries, later entries shadowed by
/// earlier ones; the table keeps keys unique so the order cannot matter.
pub open spec fn spec_lookup(entries: Seq<(Seq<u8>, Seq<u8>)>, key: Seq<u8>) -> Option<Seq<u8>>
    decreases entries.len(),
{
    if entries.len() == 0 {
        None
    } else if entries[0].0 == key {
        Some(entries[0].1)
    } else {
        spec_lookup(entries.drop_first(), key)
    }
}

/// The immutable table of game rule programs, keyed by game type tag.
pub struct GameTypeMap {
    entries: Vec<(GameType, Program)>,
}

impl View for GameTypeMap {
    type V = Seq<(Seq<u8>, Seq<u8>)>;

    closed spec fn view(&self) -> Seq<(Seq<u8>, Seq<u8>)> {
        self.entries@.map(|i: int, e: (GameType, Program)| (e.0@, e.1@))
    }
}

impl GameTypeMap {
    pub fn new() -> (r: GameTypeMap)
        ensures
            r@ == Seq::<(Seq<u8>, Seq<u8>)>::empty(),
    {
        let r = GameTypeMap { entries: Vec::new() };
        proof {
            assert(r@ =~= Seq::<(Seq<u8>, Seq<u8>)>::empty());
        }
        r
    }

    /// Add one rule program under its tag.
    pub fn insert(&mut self, game_type: GameType, program: Program)
        ensures
            final(self)@ == old(self)@.push((game_type@, program@)),
    {
        let ghost old_view = self@;
        self.entries.push((game_type, program));
        proof {
            assert(self@ =~= old_view.push(
                (self.entries@[self.entries@.len() - 1].0@, self.entries@[self.entries@.len()
                    - 1].1@),
            ));
        }
    }

    /// Find the rule program for a tag.
    pub fn get(&self, game_type: &GameType) -> (r: Option<Program>)
        ensures
            match r {
                Option::Some(p) => spec_lookup(self@, game_type@) == Some(p@),
                Option::None => spec_lookup(self@, game_type@) is None,
            },
    {
        let mut i: usize = 0;
        proof {
            assert(self@.subrange(0, self@.len() as int) =~= self@);
        }
        while i < self.entries.len()
            invariant
                i <= self.entries@.len(),
                spec_lookup(self@, game_type@) == spec_lookup(
                    self@.subrange(i as int, self@.len() as int),
                    game_type@,
                ),
            decreases self.entries@.len() - i,
        {
            proof {
                let rest = self@.subrange(i as int, self@.len() as int);
                assert(rest[0] == self@[i as int]);
                assert(rest.drop_first() =~= self@.subrange(i + 1, self@.len() as int));
            }
            if bytes_eq(&self.entries[i].0.0, &game_type.0) {
                let p = self.entries[i].1.clone();
                return Some(p);
            }
            i = i + 1;
        }
        proof {
            assert(self@.subrange(self@.len() as int, self@.len() as int) =~= Seq::<
                (Seq<u8>, Seq<u8>),
            >::empty());
        }
        None
    }
}

/// The byte tag of the stock poker rule-set.
pub open spec fn spec_calpoker_tag() -> Seq<u8> {
    seq![0x63u8, 0x61u8, 0x6cu8, 0x70u8, 0x6fu8, 0x6bu8, 0x65u8, 0x72u8]
}

/// The stock game collection: the poker factory under its tag.
/// The factory program itself is loaded from disk by the embedding.
pub fn poker_collection(calpoker_factory: Program) -> (r: GameTypeMap)
    ensures
        r@ == seq![(spec_calpoker_tag(), calpoker_factory@)],
{
    let ghost factory_view = calpoker_factory@;
    let tag: Vec<u8> = vec![0x63u8, 0x61u8, 0x6cu8, 0x70u8, 0x6fu8, 0x6bu8, 0x65u8, 0x72u8];
    proof {
        assert(tag@ =~= spec_calpoker_tag());
    }
    let mut map = GameTypeMap::new();
    map.insert(GameType(tag), calpoker_factory);
    proof {
        assert(map@ =~= seq![(spec_calpoker_tag(), factory_view)]);
    }
    map
}

/// The value of one ASCII hex digit.
pub open spec fn hex_digit_value(c: u8) -> Option<u8> {
    if 0x30 <= c <= 0x39 {
        Some((c - 0x30) as u8)
    } else if 0x61 <= c <= 0x66 {
        Some((c - 0x61 + 10) as u8)
    } else if 0x41 <= c <= 0x46 {
        Some((c - 0x41 + 10) as u8)
    } else {
        None
    }
}

/// Decode ASCII hex, two digits per byte; odd length or a stray
/// character is a failure.
pub open spec fn spec_decode_hex(s: Seq<u8>) -> Option<Seq<u8>>
    decreases s.len(),
{
    if s.len() == 0 {
        Some(Seq::empty())
    } else if s.len() == 1 {
        None
    } else {
        match (hex_digit_value(s[0]), hex_digit_value(s[1])) {
            (Option::Some(h), Option::Some(l)) => match spec_decode_hex(s.skip(2)) {
                Option::Some(rest) => Some(seq![((h as int * 16 + l as int) as u8)] + rest),
                Option::None => None,
            },
            _ => None,
        }
    }
}

fn hex_val(c: u8) -> (r: Option<u8>)
    ensures
        r == hex_digit_value(c),
{
    if 0x30 <= c && c <= 0x39 {
        Some(c - 0x30)
    } else if 0x61 <= c && c <= 0x66 {
        Some(c - 0x61 + 10)
    } else if 0x41 <= c && c <= 0x46 {
        Some(c - 0x41 + 10)
    } else {
        None
    }
}

/// Decode a hex text into the serialized rule program it spells.  This is
/// the parsing half of loading a stock rule program; the embedding only
/// reads the file.
pub fn program_from_hex(s: &Vec<u8>) -> (r: Option<Program>)
    ensures
        r is Some ==> spec_decode_hex(s@) == Some(r->Some_0@),
        r is None ==> spec_decode_hex(s@) is None,
{
    let mut out: Vec<u8> = Vec::new();
    let mut i: usize = 0;
    let len = s.len();
    proof {
        assert(s@.skip(0) =~= s@);
    }
    while len - i >= 2
        invariant
            i <= len,
            len == s@.len(),
            i % 2 == 0,
            (match spec_decode_hex(s@.skip(i as int)) {
                Option::None => spec_decode_hex(s@) is None,
                Option::Some(rest) => spec_decode_hex(s@) == Some(out@ + rest),
            }),
        decreases len - i,
    {
        let ghost tail = s@.skip(i as int);
        proof {
            assert(tail[0] == s@[i as int]);
            assert(tail[1] == s@[i + 1]);
            assert(tail.skip(2) =~= s@.skip(i + 2));
        }
        let h = match hex_val(s[i]) {
            Option::Some(h) => h,
            Option::None => {
                return None;
            },
        };
        let l = match hex_val(s[i + 1]) {
            Option::Some(l) => l,
            Option::None => {
                return None;
            },
        };
        let b = h * 16 + l;
        proof {
            if spec_decode_hex(s@.skip(i + 2)) is Some {
                assert(out@ + (seq![b] + spec_decode_hex(s@.skip(i + 2))->Some_0) =~= (out@.push(
                    b,
                )) + spec_decode_hex(s@.skip(i + 2))->Some_0);
            }
        }
        out.push(b);
        i = i + 2;
    }
    if i < len {
        // one stray digit
        return None;
    }
    proof {
        assert(s@.skip(len as int) =~= Seq::<u8>::empty());
        assert(out@ + Seq::<u8>::empty() =~= out@);
    }
    Some(Program(out))
}

} // verus!
