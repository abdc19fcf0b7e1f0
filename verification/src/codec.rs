//! The message codec: peer messages to and from self-delimiting byte
//! frames.
//!
//! Every variable-length field is length-prefixed, numbers are fixed-width
//! little-endian, and a one-byte tag selects the variant, so a frame parses
//! in one pass.  `lemma_message_round_trip` states the codec law: decoding
//! an encoded message gives the message back.

use vstd::prelude::*;
use crate::game_id::{le_bytes, le_value, lemma_le_bytes_value, lemma_le_value_bound, pow256};
use vstd::arithmetic::div_mod::lemma_small_mod;
use crate::types::{
    Aggsig,
    Amount,
    CoinID,
    CoinSpend,
    CoinSpendV,
    CoinString,
    CoinStringV,
    Error,
    GameID,
    MoveResult,
    PotatoSignatures,
    PotatoSignaturesV,
    PublicKey,
    PuzzleHash,
    Program,
    Spend,
    SpendBundle,
    SpendBundleV,
    SpendV,
    Timeout,
};
use crate::game_start::{FlatGameStartInfo, FlatGameStartInfoV};
use crate::messages::{HandshakeA, HandshakeAV, HandshakeB, HandshakeBV, PeerMessage, PeerMessageV};

verus! {

// ---------------------------------------------------------------------------
// Spec-level encoders.
// ---------------------------------------------------------------------------

/// A `u64` as eight little-endian bytes.
pub open spec fn enc_u64(v: u64) -> Seq<u8> {
    le_bytes(8, v as nat)
}

/// A byte string, length-prefixed.
pub open spec fn enc_bytes(b: Seq<u8>) -> Seq<u8> {
    enc_u64(b.len() as u64) + b
}

/// A boolean as one byte.
pub open spec fn enc_bool(b: bool) -> Seq<u8> {
    seq![if b { 1u8 } else { 0u8 }]
}

pub open spec fn enc_coin_string(c: CoinStringV) -> Seq<u8> {
    enc_bytes(c.parent) + enc_bytes(c.puzzle_hash) + enc_u64(c.amount)
}

pub open spec fn enc_handshake_b(b: HandshakeBV) -> Seq<u8> {
    enc_bytes(b.channel_public_key) + enc_bytes(b.unroll_public_key) + enc_bytes(
        b.reward_puzzle_hash,
    ) + enc_bytes(b.referee_puzzle_hash)
}

pub open spec fn enc_handshake_a(a: HandshakeAV) -> Seq<u8> {
    enc_coin_string(a.parent) + enc_handshake_b(a.simple)
}

pub open spec fn enc_spend(sp: SpendV) -> Seq<u8> {
    enc_bytes(sp.puzzle) + enc_bytes(sp.solution) + enc_bytes(sp.signature)
}

pub open spec fn enc_coin_spend(cs: CoinSpendV) -> Seq<u8> {
    enc_coin_string(cs.coin) + enc_spend(cs.bundle)
}

pub open spec fn enc_coin_spend_seq(s: Seq<CoinSpendV>) -> Seq<u8>
    decreases s.len(),
{
    if s.len() == 0 {
        Seq::empty()
    } else {
        enc_coin_spend(s[0]) + enc_coin_spend_seq(s.drop_first())
    }
}

pub open spec fn enc_spend_bundle(b: SpendBundleV) -> Seq<u8> {
    enc_u64(b.spends.len() as u64) + enc_coin_spend_seq(b.spends)
}

pub open spec fn enc_sigs(p: PotatoSignaturesV) -> Seq<u8> {
    enc_bytes(p.channel_half) + enc_bytes(p.unroll_half)
}

pub open spec fn enc_flat_game(f: FlatGameStartInfoV) -> Seq<u8> {
    enc_bytes(f.game_id) + enc_u64(f.timeout) + enc_bool(f.my_turn) + enc_bytes(f.rule_data)
}

pub open spec fn enc_flat_game_seq(s: Seq<FlatGameStartInfoV>) -> Seq<u8>
    decreases s.len(),
{
    if s.len() == 0 {
        Seq::empty()
    } else {
        enc_flat_game(s[0]) + enc_flat_game_seq(s.drop_first())
    }
}

pub open spec fn tag_of(m: PeerMessageV) -> u8 {
    match m {
        PeerMessageV::HandshakeA(_) => 0,
        PeerMessageV::HandshakeB(_) => 1,
        PeerMessageV::HandshakeE { .. } => 2,
        PeerMessageV::HandshakeF { .. } => 3,
        PeerMessageV::Nil(_) => 4,
        PeerMessageV::Move(_, _) => 5,
        PeerMessageV::Accept(_, _, _) => 6,
        PeerMessageV::Shutdown(_) => 7,
        PeerMessageV::RequestPotato => 8,
        PeerMessageV::StartGames(_, _) => 9,
    }
}

pub open spec fn enc_payload(m: PeerMessageV) -> Seq<u8> {
    match m {
        PeerMessageV::HandshakeA(a) => enc_handshake_a(a),
        PeerMessageV::HandshakeB(b) => enc_handshake_b(b),
        PeerMessageV::HandshakeE { bundle } => enc_spend_bundle(bundle),
        PeerMessageV::HandshakeF { bundle } => enc_spend_bundle(bundle),
        PeerMessageV::Nil(sigs) => enc_sigs(sigs),
        PeerMessageV::Move(id, mv) => enc_bytes(id) + enc_bytes(mv),
        PeerMessageV::Accept(id, amount, sigs) => enc_bytes(id) + enc_u64(amount) + enc_sigs(sigs),
        PeerMessageV::Shutdown(sig) => enc_bytes(sig),
        PeerMessageV::RequestPotato => Seq::empty(),
        PeerMessageV::StartGames(sigs, games) => enc_sigs(sigs) + enc_u64(games.len() as u64)
            + enc_flat_game_seq(games),
    }
}

/// The frame of a message: a tag byte, then the variant's payload.
pub open spec fn spec_encode_message(m: PeerMessageV) -> Seq<u8> {
    seq![tag_of(m)] + enc_payload(m)
}

// ---------------------------------------------------------------------------
// Well-formedness: every length fits its 64-bit prefix.  Every message
// built from executable values satisfies this.
// ---------------------------------------------------------------------------

pub open spec fn wf_bytes(b: Seq<u8>) -> bool {
    b.len() < pow256(8)
}

pub open spec fn wf_coin_string(c: CoinStringV) -> bool {
    wf_bytes(c.parent) && wf_bytes(c.puzzle_hash)
}

pub open spec fn wf_handshake_b(b: HandshakeBV) -> bool {
    wf_bytes(b.channel_public_key) && wf_bytes(b.unroll_public_key) && wf_bytes(
        b.reward_puzzle_hash,
    ) && wf_bytes(b.referee_puzzle_hash)
}

pub open spec fn wf_handshake_a(a: HandshakeAV) -> bool {
    wf_coin_string(a.parent) && wf_handshake_b(a.simple)
}

pub open spec fn wf_spend(sp: SpendV) -> bool {
    wf_bytes(sp.puzzle) && wf_bytes(sp.solution) && wf_bytes(sp.signature)
}

pub open spec fn wf_coin_spend(cs: CoinSpendV) -> bool {
    wf_coin_string(cs.coin) && wf_spend(cs.bundle)
}

pub open spec fn wf_spend_bundle(b: SpendBundleV) -> bool {
    b.spends.len() < pow256(8) && forall|i: int|
        0 <= i < b.spends.len() ==> wf_coin_spend(#[trigger] b.spends[i])
}

pub open spec fn wf_sigs(p: PotatoSignaturesV) -> bool {
    wf_bytes(p.channel_half) && wf_bytes(p.unroll_half)
}

pub open spec fn wf_flat_game(f: FlatGameStartInfoV) -> bool {
    wf_bytes(f.game_id) && wf_bytes(f.rule_data)
}

pub open spec fn wf_flat_game_seq(s: Seq<FlatGameStartInfoV>) -> bool {
    s.len() < pow256(8) && forall|i: int| 0 <= i < s.len() ==> wf_flat_game(#[trigger] s[i])
}

pub open spec fn wf_message(m: PeerMessageV) -> bool {
    match m {
        PeerMessageV::HandshakeA(a) => wf_handshake_a(a),
        PeerMessageV::HandshakeB(b) => wf_handshake_b(b),
        PeerMessageV::HandshakeE { bundle } => wf_spend_bundle(bundle),
        PeerMessageV::HandshakeF { bundle } => wf_spend_bundle(bundle),
        PeerMessageV::Nil(sigs) => wf_sigs(sigs),
        PeerMessageV::Move(id, mv) => wf_bytes(id) && wf_bytes(mv),
        PeerMessageV::Accept(id, amount, sigs) => wf_bytes(id) && wf_sigs(sigs),
        PeerMessageV::Shutdown(sig) => wf_bytes(sig),
        PeerMessageV::RequestPotato => true,
        PeerMessageV::StartGames(sigs, games) => wf_sigs(sigs) && wf_flat_game_seq(games),
    }
}

// ---------------------------------------------------------------------------
// Spec-level decoders.  Each takes the whole frame and a position and
// yields the value with the position just past it, or nothing.
// ---------------------------------------------------------------------------

pub open spec fn dec_u64(s: Seq<u8>, pos: int) -> Option<(u64, int)> {
    if 0 <= pos && pos + 8 <= s.len() {
        Some((le_value(s.subrange(pos, pos + 8)) as u64, pos + 8))
    } else {
        None
    }
}

pub open spec fn dec_bytes(s: Seq<u8>, pos: int) -> Option<(Seq<u8>, int)> {
    match dec_u64(s, pos) {
        Option::None => Option::None,
        Option::Some((n, p)) => if p + n <= s.len() {
            Some((s.subrange(p, p + n), p + n))
        } else {
            None
        },
    }
}

pub open spec fn dec_bool(s: Seq<u8>, pos: int) -> Option<(bool, int)> {
    if 0 <= pos && pos + 1 <= s.len() {
        if s[pos] == 1u8 {
            Some((true, pos + 1))
        } else if s[pos] == 0u8 {
            Some((false, pos + 1))
        } else {
            None
        }
    } else {
        None
    }
}

pub open spec fn dec_coin_string(s: Seq<u8>, pos: int) -> Option<(CoinStringV, int)> {
    match dec_bytes(s, pos) {
        Option::None => Option::None,
        Option::Some((parent, p1)) => match dec_bytes(s, p1) {
            Option::None => Option::None,
            Option::Some((puzzle_hash, p2)) => match dec_u64(s, p2) {
                Option::None => Option::None,
                Option::Some((amount, p3)) => Some(
                    (CoinStringV { parent, puzzle_hash, amount }, p3),
                ),
            },
        },
    }
}

pub open spec fn dec_handshake_b(s: Seq<u8>, pos: int) -> Option<(HandshakeBV, int)> {
    match dec_bytes(s, pos) {
        Option::None => Option::None,
        Option::Some((channel_public_key, p1)) => match dec_bytes(s, p1) {
            Option::None => Option::None,
            Option::Some((unroll_public_key, p2)) => match dec_bytes(s, p2) {
                Option::None => Option::None,
                Option::Some((reward_puzzle_hash, p3)) => match dec_bytes(s, p3) {
                    Option::None => Option::None,
                    Option::Some((referee_puzzle_hash, p4)) => Some(
                        (
                            HandshakeBV {
                                channel_public_key,
                                unroll_public_key,
                                reward_puzzle_hash,
                                referee_puzzle_hash,
                            },
                            p4,
                        ),
                    ),
                },
            },
        },
    }
}

pub open spec fn dec_handshake_a(s: Seq<u8>, pos: int) -> Option<(HandshakeAV, int)> {
    match dec_coin_string(s, pos) {
        Option::None => Option::None,
        Option::Some((parent, p1)) => match dec_handshake_b(s, p1) {
            Option::None => Option::None,
            Option::Some((simple, p2)) => Some((HandshakeAV { parent, simple }, p2)),
        },
    }
}

pub open spec fn dec_spend(s: Seq<u8>, pos: int) -> Option<(SpendV, int)> {
    match dec_bytes(s, pos) {
        Option::None => Option::None,
        Option::Some((puzzle, p1)) => match dec_bytes(s, p1) {
            Option::None => Option::None,
            Option::Some((solution, p2)) => match dec_bytes(s, p2) {
                Option::None => Option::None,
                Option::Some((signature, p3)) => Some((SpendV { puzzle, solution, signature }, p3)),
            },
        },
    }
}

pub open spec fn dec_coin_spend(s: Seq<u8>, pos: int) -> Option<(CoinSpendV, int)> {
    match dec_coin_string(s, pos) {
        Option::None => Option::None,
        Option::Some((coin, p1)) => match dec_spend(s, p1) {
            Option::None => Option::None,
            Option::Some((bundle, p2)) => Some((CoinSpendV { coin, bundle }, p2)),
        },
    }
}

pub open spec fn dec_coin_spend_seq(s: Seq<u8>, pos: int, count: nat) -> Option<
    (Seq<CoinSpendV>, int),
>
    decreases count,
{
    if count == 0 {
        Some((Seq::empty(), pos))
    } else {
        match dec_coin_spend(s, pos) {
            Option::None => Option::None,
            Option::Some((first, p1)) => match dec_coin_spend_seq(s, p1, (count - 1) as nat) {
                Option::None => Option::None,
                Option::Some((rest, p2)) => Some((seq![first] + rest, p2)),
            },
        }
    }
}

pub open spec fn dec_spend_bundle(s: Seq<u8>, pos: int) -> Option<(SpendBundleV, int)> {
    match dec_u64(s, pos) {
        Option::None => Option::None,
        Option::Some((count, p1)) => match dec_coin_spend_seq(s, p1, count as nat) {
            Option::None => Option::None,
            Option::Some((spends, p2)) => Some((SpendBundleV { spends }, p2)),
        },
    }
}

pub open spec fn dec_sigs(s: Seq<u8>, pos: int) -> Option<(PotatoSignaturesV, int)> {
    match dec_bytes(s, pos) {
        Option::None => Option::None,
        Option::Some((channel_half, p1)) => match dec_bytes(s, p1) {
            Option::None => Option::None,
            Option::Some((unroll_half, p2)) => Some(
                (PotatoSignaturesV { channel_half, unroll_half }, p2),
            ),
        },
    }
}

pub open spec fn dec_flat_game(s: Seq<u8>, pos: int) -> Option<(FlatGameStartInfoV, int)> {
    match dec_bytes(s, pos) {
        Option::None => Option::None,
        Option::Some((game_id, p1)) => match dec_u64(s, p1) {
            Option::None => Option::None,
            Option::Some((timeout, p2)) => match dec_bool(s, p2) {
                Option::None => Option::None,
                Option::Some((my_turn, p3)) => match dec_bytes(s, p3) {
                    Option::None => Option::None,
                    Option::Some((rule_data, p4)) => Some(
                        (FlatGameStartInfoV { game_id, timeout, my_turn, rule_data }, p4),
                    ),
                },
            },
        },
    }
}

pub open spec fn dec_flat_game_seq(s: Seq<u8>, pos: int, count: nat) -> Option<
    (Seq<FlatGameStartInfoV>, int),
>
    decreases count,
{
    if count == 0 {
        Some((Seq::empty(), pos))
    } else {
        match dec_flat_game(s, pos) {
            Option::None => Option::None,
            Option::Some((first, p1)) => match dec_flat_game_seq(s, p1, (count - 1) as nat) {
                Option::None => Option::None,
                Option::Some((rest, p2)) => Some((seq![first] + rest, p2)),
            },
        }
    }
}

/// Parse a whole frame; trailing bytes make it malformed.
pub open spec fn spec_decode_message(s: Seq<u8>) -> Option<PeerMessageV> {
    if s.len() < 1 {
        None
    } else {
        let tag = s[0];
        if tag == 0 {
            match dec_handshake_a(s, 1) {
                Option::None => Option::None,
                Option::Some((a, p)) => if p == s.len() {
                    Some(PeerMessageV::HandshakeA(a))
                } else {
                    None
                },
            }
        } else if tag == 1 {
            match dec_handshake_b(s, 1) {
                Option::None => Option::None,
                Option::Some((b, p)) => if p == s.len() {
                    Some(PeerMessageV::HandshakeB(b))
                } else {
                    None
                },
            }
        } else if tag == 2 {
            match dec_spend_bundle(s, 1) {
                Option::None => Option::None,
                Option::Some((bundle, p)) => if p == s.len() {
                    Some(PeerMessageV::HandshakeE { bundle })
                } else {
                    None
                },
            }
        } else if tag == 3 {
            match dec_spend_bundle(s, 1) {
                Option::None => Option::None,
                Option::Some((bundle, p)) => if p == s.len() {
                    Some(PeerMessageV::HandshakeF { bundle })
                } else {
                    None
                },
            }
        } else if tag == 4 {
            match dec_sigs(s, 1) {
                Option::None => Option::None,
                Option::Some((sigs, p)) => if p == s.len() {
                    Some(PeerMessageV::Nil(sigs))
                } else {
                    None
                },
            }
        } else if tag == 5 {
            match dec_bytes(s, 1) {
                Option::None => Option::None,
                Option::Some((id, p1)) => match dec_bytes(s, p1) {
                    Option::None => Option::None,
                    Option::Some((mv, p2)) => if p2 == s.len() {
                        Some(PeerMessageV::Move(id, mv))
                    } else {
                        None
                    },
                },
            }
        } else if tag == 6 {
            match dec_bytes(s, 1) {
                Option::None => Option::None,
                Option::Some((id, p1)) => match dec_u64(s, p1) {
                    Option::None => Option::None,
                    Option::Some((amount, p2)) => match dec_sigs(s, p2) {
                        Option::None => Option::None,
                        Option::Some((sigs, p3)) => if p3 == s.len() {
                            Some(PeerMessageV::Accept(id, amount, sigs))
                        } else {
                            None
                        },
                    },
                },
            }
        } else if tag == 7 {
            match dec_bytes(s, 1) {
                Option::None => Option::None,
                Option::Some((sig, p)) => if p == s.len() {
                    Some(PeerMessageV::Shutdown(sig))
                } else {
                    None
                },
            }
        } else if tag == 8 {
            if s.len() == 1 {
                Some(PeerMessageV::RequestPotato)
            } else {
                None
            }
        } else if tag == 9 {
            match dec_sigs(s, 1) {
                Option::None => Option::None,
                Option::Some((sigs, p1)) => match dec_u64(s, p1) {
                    Option::None => Option::None,
                    Option::Some((count, p2)) => match dec_flat_game_seq(s, p2, count as nat) {
                        Option::None => Option::None,
                        Option::Some((games, p3)) => if p3 == s.len() {
                            Some(PeerMessageV::StartGames(sigs, games))
                        } else {
                            None
                        },
                    },
                },
            }
        } else {
            None
        }
    }
}

// ---------------------------------------------------------------------------
// Round-trip lemmas.
// ---------------------------------------------------------------------------

pub proof fn lemma_pow256_8()
    ensures
        pow256(7) == 0x100_0000_0000_0000,
        pow256(8) == 0x1_0000_0000_0000_0000,
{
    assert(pow256(0) == 1);
    assert(pow256(1) == 256);
    assert(pow256(2) == 0x1_0000);
    assert(pow256(3) == 0x100_0000);
    assert(pow256(4) == 0x1_0000_0000);
    assert(pow256(5) == 0x100_0000_0000);
    assert(pow256(6) == 0x1_0000_0000_0000);
    assert(pow256(7) == 0x100_0000_0000_0000);
    assert(pow256(8) == 0x1_0000_0000_0000_0000);
}

/// A concatenation seen through a window splits into its two parts.
pub proof fn lemma_subrange_split(s: Seq<u8>, pos: int, x: Seq<u8>, y: Seq<u8>)
    requires
        0 <= pos,
        pos + x.len() + y.len() <= s.len(),
        s.subrange(pos, pos + x.len() + y.len()) == x + y,
    ensures
        s.subrange(pos, pos + x.len()) == x,
        s.subrange(pos + x.len(), pos + x.len() + y.len()) == y,
{
    let whole = s.subrange(pos, pos + x.len() + y.len());
    assert forall|k: int| 0 <= k < x.len() implies s.subrange(pos, pos + x.len())[k] == x[k] by {
        assert(whole[k] == (x + y)[k]);
    }
    assert(s.subrange(pos, pos + x.len()) =~= x);
    assert forall|k: int| 0 <= k < y.len() implies s.subrange(
        pos + x.len(),
        pos + x.len() + y.len(),
    )[k] == y[k] by {
        assert(whole[x.len() + k] == (x + y)[x.len() + k]);
    }
    assert(s.subrange(pos + x.len(), pos + x.len() + y.len()) =~= y);
}

pub proof fn lemma_enc_u64_len(v: u64)
    ensures
        enc_u64(v).len() == 8,
{
    lemma_le_bytes_value(8, v as nat);
}

pub proof fn lemma_dec_u64_enc(s: Seq<u8>, pos: int, v: u64)
    requires
        0 <= pos,
        pos + 8 <= s.len(),
        s.subrange(pos, pos + 8) == enc_u64(v),
    ensures
        dec_u64(s, pos) == Some((v, pos + 8)),
{
    lemma_pow256_8();
    lemma_le_bytes_value(8, v as nat);
    lemma_small_mod(v as nat, pow256(8));
    assert(le_value(s.subrange(pos, pos + 8)) == v as nat);
}

pub proof fn lemma_dec_bytes_enc(s: Seq<u8>, pos: int, b: Seq<u8>)
    requires
        0 <= pos,
        b.len() < pow256(8),
        pos + enc_bytes(b).len() <= s.len(),
        s.subrange(pos, pos + enc_bytes(b).len()) == enc_bytes(b),
    ensures
        dec_bytes(s, pos) == Some((b, pos + enc_bytes(b).len())),
        enc_bytes(b).len() == 8 + b.len(),
{
    lemma_pow256_8();
    lemma_enc_u64_len(b.len() as u64);
    lemma_subrange_split(s, pos, enc_u64(b.len() as u64), b);
    lemma_dec_u64_enc(s, pos, b.len() as u64);
    assert(s.subrange(pos + 8, pos + 8 + b.len()) == b);
}

pub proof fn lemma_dec_bool_enc(s: Seq<u8>, pos: int, b: bool)
    requires
        0 <= pos,
        pos + 1 <= s.len(),
        s.subrange(pos, pos + 1) == enc_bool(b),
    ensures
        dec_bool(s, pos) == Some((b, pos + 1)),
{
    assert(s[pos] == s.subrange(pos, pos + 1)[0]);
}

/// The window for a two-part encoding splits; each part keeps its window.
pub proof fn lemma_split_two(s: Seq<u8>, pos: int, x: Seq<u8>, y: Seq<u8>)
    requires
        0 <= pos,
        pos + (x + y).len() <= s.len(),
        s.subrange(pos, pos + (x + y).len()) == x + y,
    ensures
        s.subrange(pos, pos + x.len()) == x,
        s.subrange(pos + x.len(), pos + x.len() + y.len()) == y,
{
    lemma_subrange_split(s, pos, x, y);
}

pub proof fn lemma_dec_coin_string_enc(s: Seq<u8>, pos: int, c: CoinStringV)
    requires
        0 <= pos,
        wf_coin_string(c),
        pos + enc_coin_string(c).len() <= s.len(),
        s.subrange(pos, pos + enc_coin_string(c).len()) == enc_coin_string(c),
    ensures
        dec_coin_string(s, pos) == Some((c, pos + enc_coin_string(c).len())),
{
    let e1 = enc_bytes(c.parent);
    let e2 = enc_bytes(c.puzzle_hash);
    let e3 = enc_u64(c.amount);
    lemma_enc_u64_len(c.amount);
    assert(enc_coin_string(c) =~= e1 + (e2 + e3));
    lemma_subrange_split(s, pos, e1, e2 + e3);
    lemma_dec_bytes_enc(s, pos, c.parent);
    let p1 = pos + e1.len();
    lemma_subrange_split(s, p1, e2, e3);
    lemma_dec_bytes_enc(s, p1, c.puzzle_hash);
    let p2 = p1 + e2.len();
    lemma_dec_u64_enc(s, p2, c.amount);
}

pub proof fn lemma_dec_handshake_b_enc(s: Seq<u8>, pos: int, b: HandshakeBV)
    requires
        0 <= pos,
        wf_handshake_b(b),
        pos + enc_handshake_b(b).len() <= s.len(),
        s.subrange(pos, pos + enc_handshake_b(b).len()) == enc_handshake_b(b),
    ensures
        dec_handshake_b(s, pos) == Some((b, pos + enc_handshake_b(b).len())),
{
    let e1 = enc_bytes(b.channel_public_key);
    let e2 = enc_bytes(b.unroll_public_key);
    let e3 = enc_bytes(b.reward_puzzle_hash);
    let e4 = enc_bytes(b.referee_puzzle_hash);
    assert(enc_handshake_b(b) =~= e1 + (e2 + (e3 + e4)));
    lemma_subrange_split(s, pos, e1, e2 + (e3 + e4));
    lemma_dec_bytes_enc(s, pos, b.channel_public_key);
    let p1 = pos + e1.len();
    lemma_subrange_split(s, p1, e2, e3 + e4);
    lemma_dec_bytes_enc(s, p1, b.unroll_public_key);
    let p2 = p1 + e2.len();
    lemma_subrange_split(s, p2, e3, e4);
    lemma_dec_bytes_enc(s, p2, b.reward_puzzle_hash);
    let p3 = p2 + e3.len();
    lemma_dec_bytes_enc(s, p3, b.referee_puzzle_hash);
}

pub proof fn lemma_dec_handshake_a_enc(s: Seq<u8>, pos: int, a: HandshakeAV)
    requires
        0 <= pos,
        wf_handshake_a(a),
        pos + enc_handshake_a(a).len() <= s.len(),
        s.subrange(pos, pos + enc_handshake_a(a).len()) == enc_handshake_a(a),
    ensures
        dec_handshake_a(s, pos) == Some((a, pos + enc_handshake_a(a).len())),
{
    let e1 = enc_coin_string(a.parent);
    let e2 = enc_handshake_b(a.simple);
    lemma_subrange_split(s, pos, e1, e2);
    lemma_dec_coin_string_enc(s, pos, a.parent);
    lemma_dec_handshake_b_enc(s, pos + e1.len(), a.simple);
}

pub proof fn lemma_dec_spend_enc(s: Seq<u8>, pos: int, sp: SpendV)
    requires
        0 <= pos,
        wf_spend(sp),
        pos + enc_spend(sp).len() <= s.len(),
        s.subrange(pos, pos + enc_spend(sp).len()) == enc_spend(sp),
    ensures
        dec_spend(s, pos) == Some((sp, pos + enc_spend(sp).len())),
{
    let e1 = enc_bytes(sp.puzzle);
    let e2 = enc_bytes(sp.solution);
    let e3 = enc_bytes(sp.signature);
    assert(enc_spend(sp) =~= e1 + (e2 + e3));
    lemma_subrange_split(s, pos, e1, e2 + e3);
    lemma_dec_bytes_enc(s, pos, sp.puzzle);
    let p1 = pos + e1.len();
    lemma_subrange_split(s, p1, e2, e3);
    lemma_dec_bytes_enc(s, p1, sp.solution);
    let p2 = p1 + e2.len();
    lemma_dec_bytes_enc(s, p2, sp.signature);
}

pub proof fn lemma_dec_coin_spend_enc(s: Seq<u8>, pos: int, cs: CoinSpendV)
    requires
        0 <= pos,
        wf_coin_spend(cs),
        pos + enc_coin_spend(cs).len() <= s.len(),
        s.subrange(pos, pos + enc_coin_spend(cs).len()) == enc_coin_spend(cs),
    ensures
        dec_coin_spend(s, pos) == Some((cs, pos + enc_coin_spend(cs).len())),
{
    let e1 = enc_coin_string(cs.coin);
    let e2 = enc_spend(cs.bundle);
    lemma_subrange_split(s, pos, e1, e2);
    lemma_dec_coin_string_enc(s, pos, cs.coin);
    lemma_dec_spend_enc(s, pos + e1.len(), cs.bundle);
}

pub proof fn lemma_dec_coin_spend_seq_enc(s: Seq<u8>, pos: int, spends: Seq<CoinSpendV>)
    requires
        0 <= pos,
        forall|i: int| 0 <= i < spends.len() ==> wf_coin_spend(#[trigger] spends[i]),
        pos + enc_coin_spend_seq(spends).len() <= s.len(),
        s.subrange(pos, pos + enc_coin_spend_seq(spends).len()) == enc_coin_spend_seq(spends),
    ensures
        dec_coin_spend_seq(s, pos, spends.len()) == Some(
            (spends, pos + enc_coin_spend_seq(spends).len()),
        ),
    decreases spends.len(),
{
    if spends.len() == 0 {
        assert(spends =~= Seq::<CoinSpendV>::empty());
    } else {
        let e1 = enc_coin_spend(spends[0]);
        let e2 = enc_coin_spend_seq(spends.drop_first());
        lemma_subrange_split(s, pos, e1, e2);
        lemma_dec_coin_spend_enc(s, pos, spends[0]);
        lemma_dec_coin_spend_seq_enc(s, pos + e1.len(), spends.drop_first());
        assert(seq![spends[0]] + spends.drop_first() =~= spends);
    }
}

pub proof fn lemma_dec_spend_bundle_enc(s: Seq<u8>, pos: int, b: SpendBundleV)
    requires
        0 <= pos,
        wf_spend_bundle(b),
        pos + enc_spend_bundle(b).len() <= s.len(),
        s.subrange(pos, pos + enc_spend_bundle(b).len()) == enc_spend_bundle(b),
    ensures
        dec_spend_bundle(s, pos) == Some((b, pos + enc_spend_bundle(b).len())),
{
    let e1 = enc_u64(b.spends.len() as u64);
    let e2 = enc_coin_spend_seq(b.spends);
    lemma_pow256_8();
    assert((b.spends.len() as u64) as nat == b.spends.len());
    lemma_enc_u64_len(b.spends.len() as u64);
    lemma_subrange_split(s, pos, e1, e2);
    lemma_dec_u64_enc(s, pos, b.spends.len() as u64);
    lemma_dec_coin_spend_seq_enc(s, pos + 8, b.spends);
}

pub proof fn lemma_dec_sigs_enc(s: Seq<u8>, pos: int, p: PotatoSignaturesV)
    requires
        0 <= pos,
        wf_sigs(p),
        pos + enc_sigs(p).len() <= s.len(),
        s.subrange(pos, pos + enc_sigs(p).len()) == enc_sigs(p),
    ensures
        dec_sigs(s, pos) == Some((p, pos + enc_sigs(p).len())),
{
    let e1 = enc_bytes(p.channel_half);
    let e2 = enc_bytes(p.unroll_half);
    lemma_subrange_split(s, pos, e1, e2);
    lemma_dec_bytes_enc(s, pos, p.channel_half);
    lemma_dec_bytes_enc(s, pos + e1.len(), p.unroll_half);
}

pub proof fn lemma_dec_flat_game_enc(s: Seq<u8>, pos: int, f: FlatGameStartInfoV)
    requires
        0 <= pos,
        wf_flat_game(f),
        pos + enc_flat_game(f).len() <= s.len(),
        s.subrange(pos, pos + enc_flat_game(f).len()) == enc_flat_game(f),
    ensures
        dec_flat_game(s, pos) == Some((f, pos + enc_flat_game(f).len())),
{
    let e1 = enc_bytes(f.game_id);
    let e2 = enc_u64(f.timeout);
    let e3 = enc_bool(f.my_turn);
    let e4 = enc_bytes(f.rule_data);
    lemma_enc_u64_len(f.timeout);
    assert(enc_flat_game(f) =~= e1 + (e2 + (e3 + e4)));
    lemma_subrange_split(s, pos, e1, e2 + (e3 + e4));
    lemma_dec_bytes_enc(s, pos, f.game_id);
    let p1 = pos + e1.len();
    lemma_subrange_split(s, p1, e2, e3 + e4);
    lemma_dec_u64_enc(s, p1, f.timeout);
    let p2 = p1 + e2.len();
    lemma_subrange_split(s, p2, e3, e4);
    lemma_dec_bool_enc(s, p2, f.my_turn);
    let p3 = p2 + e3.len();
    lemma_dec_bytes_enc(s, p3, f.rule_data);
}

pub proof fn lemma_dec_flat_game_seq_enc(s: Seq<u8>, pos: int, games: Seq<FlatGameStartInfoV>)
    requires
        0 <= pos,
        forall|i: int| 0 <= i < games.len() ==> wf_flat_game(#[trigger] games[i]),
        pos + enc_flat_game_seq(games).len() <= s.len(),
        s.subrange(pos, pos + enc_flat_game_seq(games).len()) == enc_flat_game_seq(games),
    ensures
        dec_flat_game_seq(s, pos, games.len()) == Some(
            (games, pos + enc_flat_game_seq(games).len()),
        ),
    decreases games.len(),
{
    if games.len() == 0 {
        assert(games =~= Seq::<FlatGameStartInfoV>::empty());
    } else {
        let e1 = enc_flat_game(games[0]);
        let e2 = enc_flat_game_seq(games.drop_first());
        lemma_subrange_split(s, pos, e1, e2);
        lemma_dec_flat_game_enc(s, pos, games[0]);
        lemma_dec_flat_game_seq_enc(s, pos + e1.len(), games.drop_first());
        assert(seq![games[0]] + games.drop_first() =~= games);
    }
}

/// The codec law: decoding an encoded message yields the message.
#[verifier::rlimit(100)]
pub proof fn lemma_message_round_trip(m: PeerMessageV)
    requires
        wf_message(m),
    ensures
        spec_decode_message(spec_encode_message(m)) == Some(m),
{
    let s = spec_encode_message(m);
    let payload = enc_payload(m);
    assert(s.len() == 1 + payload.len());
    assert(s[0] == tag_of(m));
    assert(s.subrange(1, 1 + payload.len() as int) =~= payload);
    match m {
        PeerMessageV::HandshakeA(a) => {
            lemma_dec_handshake_a_enc(s, 1, a);
        },
        PeerMessageV::HandshakeB(b) => {
            lemma_dec_handshake_b_enc(s, 1, b);
        },
        PeerMessageV::HandshakeE { bundle } => {
            lemma_dec_spend_bundle_enc(s, 1, bundle);
        },
        PeerMessageV::HandshakeF { bundle } => {
            lemma_dec_spend_bundle_enc(s, 1, bundle);
        },
        PeerMessageV::Nil(sigs) => {
            lemma_dec_sigs_enc(s, 1, sigs);
        },
        PeerMessageV::Move(id, mv) => {
            let e1 = enc_bytes(id);
            let e2 = enc_bytes(mv);
            lemma_subrange_split(s, 1, e1, e2);
            lemma_dec_bytes_enc(s, 1, id);
            lemma_dec_bytes_enc(s, 1 + e1.len() as int, mv);
        },
        PeerMessageV::Accept(id, amount, sigs) => {
            let e1 = enc_bytes(id);
            let e2 = enc_u64(amount);
            let e3 = enc_sigs(sigs);
            lemma_enc_u64_len(amount);
            assert(payload =~= e1 + (e2 + e3));
            lemma_subrange_split(s, 1, e1, e2 + e3);
            lemma_dec_bytes_enc(s, 1, id);
            let p1: int = 1 + e1.len() as int;
            lemma_subrange_split(s, p1, e2, e3);
            lemma_dec_u64_enc(s, p1, amount);
            lemma_dec_sigs_enc(s, p1 + e2.len() as int, sigs);
        },
        PeerMessageV::Shutdown(sig) => {
            lemma_dec_bytes_enc(s, 1, sig);
        },
        PeerMessageV::RequestPotato => {
        },
        PeerMessageV::StartGames(sigs, games) => {
            let e1 = enc_sigs(sigs);
            let e2 = enc_u64(games.len() as u64);
            let e3 = enc_flat_game_seq(games);
            lemma_enc_u64_len(games.len() as u64);
            lemma_pow256_8();
            assert(payload =~= e1 + (e2 + e3));
            lemma_subrange_split(s, 1, e1, e2 + e3);
            lemma_dec_sigs_enc(s, 1, sigs);
            let p1: int = 1 + e1.len() as int;
            lemma_subrange_split(s, p1, e2, e3);
            lemma_dec_u64_enc(s, p1, games.len() as u64);
            assert((games.len() as u64) as nat == games.len());
            lemma_dec_flat_game_seq_enc(s, p1 + 8, games);
        },
    }
}

// ---------------------------------------------------------------------------
// Executable encoder.
// ---------------------------------------------------------------------------

/// Append the eight little-endian bytes of `v`.
pub fn write_u64(out: &mut Vec<u8>, v: u64)
    ensures
        final(out)@ == old(out)@ + enc_u64(v),
{
    let mut tmp = v;
    let mut k: usize = 0;
    proof {
        assert(out@ + le_bytes(8, v as nat) =~= old(out)@ + enc_u64(v));
    }
    while k < 8
        invariant
            k <= 8,
            out@ + le_bytes((8 - k) as nat, tmp as nat) == old(out)@ + enc_u64(v),
        decreases 8 - k,
    {
        let b = (tmp % 256) as u8;
        proof {
            assert(le_bytes((8 - k) as nat, tmp as nat) == seq![(tmp as nat % 256) as u8]
                + le_bytes((8 - (k + 1)) as nat, tmp as nat / 256));
            assert(out@ + le_bytes((8 - k) as nat, tmp as nat) =~= out@.push(b) + le_bytes(
                (8 - (k + 1)) as nat,
                (tmp / 256) as nat,
            ));
        }
        out.push(b);
        tmp = tmp / 256;
        k = k + 1;
    }
    proof {
        assert(out@ + le_bytes(0, tmp as nat) =~= out@);
    }
}

/// Append a byte string with its length prefix.
pub fn write_bytes(out: &mut Vec<u8>, b: &Vec<u8>)
    ensures
        final(out)@ == old(out)@ + enc_bytes(b@),
        wf_bytes(b@),
{
    proof {
        lemma_pow256_8();
    }
    write_u64(out, b.len() as u64);
    crate::game_id::append_bytes(out, b);
    proof {
        assert((old(out)@ + enc_u64(b@.len() as u64)) + b@ =~= old(out)@ + enc_bytes(b@));
    }
}

/// Append a boolean as one byte.
pub fn write_bool(out: &mut Vec<u8>, b: bool)
    ensures
        final(out)@ == old(out)@ + enc_bool(b),
{
    if b {
        out.push(1);
    } else {
        out.push(0);
    }
    proof {
        assert(old(out)@.push(if b { 1u8 } else { 0u8 }) =~= old(out)@ + enc_bool(b));
    }
}

pub fn write_coin_string(out: &mut Vec<u8>, c: &CoinString)
    ensures
        final(out)@ == old(out)@ + enc_coin_string(c@),
        wf_coin_string(c@),
{
    write_bytes(out, &c.parent.0);
    write_bytes(out, &c.puzzle_hash.0);
    write_u64(out, c.amount.0);
    proof {
        assert(((old(out)@ + enc_bytes(c.parent.0@)) + enc_bytes(c.puzzle_hash.0@)) + enc_u64(
            c.amount.0,
        ) =~= old(out)@ + enc_coin_string(c@));
    }
}

pub fn write_handshake_b(out: &mut Vec<u8>, b: &HandshakeB)
    ensures
        final(out)@ == old(out)@ + enc_handshake_b(b@),
        wf_handshake_b(b@),
{
    write_bytes(out, &b.channel_public_key.0);
    write_bytes(out, &b.unroll_public_key.0);
    write_bytes(out, &b.reward_puzzle_hash.0);
    write_bytes(out, &b.referee_puzzle_hash.0);
    proof {
        assert((((old(out)@ + enc_bytes(b.channel_public_key.0@)) + enc_bytes(
            b.unroll_public_key.0@,
        )) + enc_bytes(b.reward_puzzle_hash.0@)) + enc_bytes(b.referee_puzzle_hash.0@) =~= old(
            out,
        )@ + enc_handshake_b(b@));
    }
}

pub fn write_handshake_a(out: &mut Vec<u8>, a: &HandshakeA)
    ensures
        final(out)@ == old(out)@ + enc_handshake_a(a@),
        wf_handshake_a(a@),
{
    write_coin_string(out, &a.parent);
    write_handshake_b(out, &a.simple);
    proof {
        assert((old(out)@ + enc_coin_string(a.parent@)) + enc_handshake_b(a.simple@) =~= old(
            out,
        )@ + enc_handshake_a(a@));
    }
}

pub fn write_spend(out: &mut Vec<u8>, sp: &Spend)
    ensures
        final(out)@ == old(out)@ + enc_spend(sp@),
        wf_spend(sp@),
{
    write_bytes(out, &sp.puzzle.0);
    write_bytes(out, &sp.solution.0);
    write_bytes(out, &sp.signature.0);
    proof {
        assert(((old(out)@ + enc_bytes(sp.puzzle.0@)) + enc_bytes(sp.solution.0@)) + enc_bytes(
            sp.signature.0@,
        ) =~= old(out)@ + enc_spend(sp@));
    }
}

pub fn write_coin_spend(out: &mut Vec<u8>, cs: &CoinSpend)
    ensures
        final(out)@ == old(out)@ + enc_coin_spend(cs@),
        wf_coin_spend(cs@),
{
    write_coin_string(out, &cs.coin);
    write_spend(out, &cs.bundle);
    proof {
        assert((old(out)@ + enc_coin_string(cs.coin@)) + enc_spend(cs.bundle@) =~= old(out)@
            + enc_coin_spend(cs@));
    }
}

pub proof fn lemma_enc_coin_spend_seq_push(s: Seq<CoinSpendV>, x: CoinSpendV)
    ensures
        enc_coin_spend_seq(s.push(x)) == enc_coin_spend_seq(s) + enc_coin_spend(x),
    decreases s.len(),
{
    if s.len() == 0 {
        assert(s.push(x).drop_first() =~= Seq::<CoinSpendV>::empty());
        assert(s.push(x)[0] == x);
        assert(enc_coin_spend_seq(s.push(x)) == enc_coin_spend(x) + enc_coin_spend_seq(
            Seq::<CoinSpendV>::empty(),
        ));
        assert(enc_coin_spend_seq(s.push(x)) =~= enc_coin_spend_seq(s) + enc_coin_spend(x));
    } else {
        assert(s.push(x).drop_first() =~= s.drop_first().push(x));
        assert(s.push(x)[0] == s[0]);
        lemma_enc_coin_spend_seq_push(s.drop_first(), x);
        assert(enc_coin_spend(s[0]) + (enc_coin_spend_seq(s.drop_first()) + enc_coin_spend(x))
            =~= (enc_coin_spend(s[0]) + enc_coin_spend_seq(s.drop_first())) + enc_coin_spend(x));
    }
}

pub proof fn lemma_enc_flat_game_seq_push(s: Seq<FlatGameStartInfoV>, x: FlatGameStartInfoV)
    ensures
        enc_flat_game_seq(s.push(x)) == enc_flat_game_seq(s) + enc_flat_game(x),
    decreases s.len(),
{
    if s.len() == 0 {
        assert(s.push(x).drop_first() =~= Seq::<FlatGameStartInfoV>::empty());
        assert(s.push(x)[0] == x);
        assert(enc_flat_game_seq(s.push(x)) == enc_flat_game(x) + enc_flat_game_seq(
            Seq::<FlatGameStartInfoV>::empty(),
        ));
        assert(enc_flat_game_seq(s.push(x)) =~= enc_flat_game_seq(s) + enc_flat_game(x));
    } else {
        assert(s.push(x).drop_first() =~= s.drop_first().push(x));
        assert(s.push(x)[0] == s[0]);
        lemma_enc_flat_game_seq_push(s.drop_first(), x);
        assert(enc_flat_game(s[0]) + (enc_flat_game_seq(s.drop_first()) + enc_flat_game(x)) =~= (
        enc_flat_game(s[0]) + enc_flat_game_seq(s.drop_first())) + enc_flat_game(x));
    }
}

pub fn write_spend_bundle(out: &mut Vec<u8>, b: &SpendBundle)
    ensures
        final(out)@ == old(out)@ + enc_spend_bundle(b@),
        wf_spend_bundle(b@),
{
    proof {
        lemma_pow256_8();
    }
    write_u64(out, b.spends.len() as u64);
    let ghost views = b.spends@.map(|k: int, cs: CoinSpend| cs@);
    let mut i: usize = 0;
    while i < b.spends.len()
        invariant
            i <= b.spends@.len(),
            views == b.spends@.map(|k: int, cs: CoinSpend| cs@),
            out@ == (old(out)@ + enc_u64(b.spends@.len() as u64)) + enc_coin_spend_seq(
                views.subrange(0, i as int),
            ),
            forall|j: int| 0 <= j < i ==> wf_coin_spend(#[trigger] views[j]),
        decreases b.spends@.len() - i,
    {
        proof {
            assert(views.subrange(0, i as int).push(views[i as int]) =~= views.subrange(
                0,
                (i + 1) as int,
            ));
            lemma_enc_coin_spend_seq_push(views.subrange(0, i as int), views[i as int]);
        }
        write_coin_spend(out, &b.spends[i]);
        i = i + 1;
    }
    proof {
        assert(views.subrange(0, views.len() as int) =~= views);
        assert(b@.spends =~= views);
        assert((old(out)@ + enc_u64(b.spends@.len() as u64)) + enc_coin_spend_seq(views) =~= old(
            out,
        )@ + enc_spend_bundle(b@));
        lemma_pow256_8();
    }
}

pub fn write_sigs(out: &mut Vec<u8>, p: &PotatoSignatures)
    ensures
        final(out)@ == old(out)@ + enc_sigs(p@),
        wf_sigs(p@),
{
    write_bytes(out, &p.my_channel_half_signature_peer.0);
    write_bytes(out, &p.my_unroll_half_signature_peer.0);
    proof {
        assert((old(out)@ + enc_bytes(p.my_channel_half_signature_peer.0@)) + enc_bytes(
            p.my_unroll_half_signature_peer.0@,
        ) =~= old(out)@ + enc_sigs(p@));
    }
}

pub fn write_flat_game(out: &mut Vec<u8>, f: &FlatGameStartInfo)
    ensures
        final(out)@ == old(out)@ + enc_flat_game(f@),
        wf_flat_game(f@),
{
    write_bytes(out, &f.game_id.0);
    write_u64(out, f.timeout.0);
    write_bool(out, f.my_turn);
    write_bytes(out, &f.rule_data.0);
    proof {
        assert((((old(out)@ + enc_bytes(f.game_id.0@)) + enc_u64(f.timeout.0)) + enc_bool(
            f.my_turn,
        )) + enc_bytes(f.rule_data.0@) =~= old(out)@ + enc_flat_game(f@));
    }
}

pub fn write_flat_games(out: &mut Vec<u8>, games: &Vec<FlatGameStartInfo>)
    ensures
        final(out)@ == (old(out)@ + enc_u64(games@.len() as u64)) + enc_flat_game_seq(
            games@.map(|k: int, g: FlatGameStartInfo| g@),
        ),
        wf_flat_game_seq(games@.map(|k: int, g: FlatGameStartInfo| g@)),
{
    proof {
        lemma_pow256_8();
    }
    write_u64(out, games.len() as u64);
    let ghost views = games@.map(|k: int, g: FlatGameStartInfo| g@);
    let mut i: usize = 0;
    while i < games.len()
        invariant
            i <= games@.len(),
            views == games@.map(|k: int, g: FlatGameStartInfo| g@),
            out@ == (old(out)@ + enc_u64(games@.len() as u64)) + enc_flat_game_seq(
                views.subrange(0, i as int),
            ),
            forall|j: int| 0 <= j < i ==> wf_flat_game(#[trigger] views[j]),
        decreases games@.len() - i,
    {
        proof {
            assert(views.subrange(0, i as int).push(views[i as int]) =~= views.subrange(
                0,
                (i + 1) as int,
            ));
            lemma_enc_flat_game_seq_push(views.subrange(0, i as int), views[i as int]);
        }
        write_flat_game(out, &games[i]);
        i = i + 1;
    }
    proof {
        assert(views.subrange(0, views.len() as int) =~= views);
        lemma_pow256_8();
    }
}

/// Encode a peer message as a byte frame.
pub fn encode_message(m: &PeerMessage) -> (r: Vec<u8>)
    ensures
        r@ == spec_encode_message(m@),
        wf_message(m@),
{
    let mut out: Vec<u8> = Vec::new();
    match m {
        PeerMessage::HandshakeA(a) => {
            out.push(0);
            write_handshake_a(&mut out, a);
            proof {
                assert(out@ =~= seq![tag_of(m@)] + enc_payload(m@));
            }
        },
        PeerMessage::HandshakeB(b) => {
            out.push(1);
            write_handshake_b(&mut out, b);
            proof {
                assert(out@ =~= seq![tag_of(m@)] + enc_payload(m@));
            }
        },
        PeerMessage::HandshakeE { bundle } => {
            out.push(2);
            write_spend_bundle(&mut out, bundle);
            proof {
                assert(out@ =~= seq![tag_of(m@)] + enc_payload(m@));
            }
        },
        PeerMessage::HandshakeF { bundle } => {
            out.push(3);
            write_spend_bundle(&mut out, bundle);
            proof {
                assert(out@ =~= seq![tag_of(m@)] + enc_payload(m@));
            }
        },
        PeerMessage::Nil(sigs) => {
            out.push(4);
            write_sigs(&mut out, sigs);
            proof {
                assert(out@ =~= seq![tag_of(m@)] + enc_payload(m@));
            }
        },
        PeerMessage::Move(id, mv) => {
            out.push(5);
            write_bytes(&mut out, &id.0);
            write_bytes(&mut out, &mv.0);
            proof {
                assert(out@ =~= seq![tag_of(m@)] + enc_payload(m@));
            }
        },
        PeerMessage::Accept(id, amount, sigs) => {
            out.push(6);
            write_bytes(&mut out, &id.0);
            write_u64(&mut out, amount.0);
            write_sigs(&mut out, sigs);
            proof {
                assert(out@ =~= seq![tag_of(m@)] + enc_payload(m@));
            }
        },
        PeerMessage::Shutdown(sig) => {
            out.push(7);
            write_bytes(&mut out, &sig.0);
            proof {
                assert(out@ =~= seq![tag_of(m@)] + enc_payload(m@));
            }
        },
        PeerMessage::RequestPotato(_) => {
            out.push(8);
            proof {
                assert(out@ =~= seq![tag_of(m@)] + enc_payload(m@));
            }
        },
        PeerMessage::StartGames(sigs, games) => {
            out.push(9);
            write_sigs(&mut out, sigs);
            write_flat_games(&mut out, games);
            proof {
                assert(out@ =~= seq![tag_of(m@)] + enc_payload(m@));
            }
        },
    }
    out
}

// ---------------------------------------------------------------------------
// Executable decoder.
// ---------------------------------------------------------------------------

pub fn read_u64(s: &Vec<u8>, pos: usize) -> (r: Option<(u64, usize)>)
    requires
        pos <= s@.len(),
    ensures
        r is Some ==> dec_u64(s@, pos as int) == Some((r->Some_0.0, r->Some_0.1 as int))
            && r->Some_0.1 <= s@.len(),
        r is None ==> dec_u64(s@, pos as int) is None,
{
    let slen = s.len();
    if slen - pos < 8 {
        return None;
    }
    proof {
        lemma_pow256_8();
    }
    let mut acc: u64 = 0;
    let mut j: usize = 8;
    while j > 0
        invariant
            j <= 8,
            slen == s@.len(),
            pos + 8 <= slen,
            acc as nat == le_value(s@.subrange((pos + j) as int, (pos + 8) as int)),
            (acc as nat) < pow256((8 - j) as nat),
            pow256(7) == 0x100_0000_0000_0000,
            pow256(8) == 0x1_0000_0000_0000_0000,
        decreases j,
    {
        let b = s[pos + j - 1];
        proof {
            let sub = s@.subrange((pos + j - 1) as int, (pos + 8) as int);
            assert(sub.drop_first() =~= s@.subrange((pos + j) as int, (pos + 8) as int));
            assert(sub[0] == s@[(pos + j - 1) as int]);
            lemma_pow256_mono((8 - j) as nat, 7);
        }
        acc = (b as u64) + 256 * acc;
        j = j - 1;
    }
    proof {
        assert(dec_u64(s@, pos as int) == Some((acc, (pos + 8) as int)));
    }
    Some((acc, pos + 8))
}

pub proof fn lemma_pow256_mono(a: nat, b: nat)
    requires
        a <= b,
    ensures
        pow256(a) <= pow256(b),
    decreases b,
{
    if a < b {
        lemma_pow256_mono(a, (b - 1) as nat);
        crate::game_id::lemma_pow256_pos((b - 1) as nat);
    }
}

pub fn read_bytes(s: &Vec<u8>, pos: usize) -> (r: Option<(Vec<u8>, usize)>)
    requires
        pos <= s@.len(),
    ensures
        r is Some ==> dec_bytes(s@, pos as int) == Some((r->Some_0.0@, r->Some_0.1 as int))
            && r->Some_0.1 <= s@.len(),
        r is None ==> dec_bytes(s@, pos as int) is None,
{
    match read_u64(s, pos) {
        Option::None => None,
        Option::Some((n, p)) => {
            if n <= (s.len() - p) as u64 {
                let cnt = n as usize;
                let slen = s.len();
                let mut v: Vec<u8> = Vec::new();
                let mut i: usize = 0;
                while i < cnt
                    invariant
                        i <= cnt,
                        slen == s@.len(),
                        p + cnt <= slen,
                        v@ == s@.subrange(p as int, (p + i) as int),
                    decreases cnt - i,
                {
                    proof {
                        assert(s@.subrange(p as int, (p + i) as int).push(
                            s@[(p + i) as int],
                        ) =~= s@.subrange(p as int, (p + i + 1) as int));
                    }
                    v.push(s[p + i]);
                    i = i + 1;
                }
                Some((v, p + cnt))
            } else {
                None
            }
        },
    }
}

pub fn read_bool(s: &Vec<u8>, pos: usize) -> (r: Option<(bool, usize)>)
    requires
        pos <= s@.len(),
    ensures
        r is Some ==> dec_bool(s@, pos as int) == Some((r->Some_0.0, r->Some_0.1 as int))
            && r->Some_0.1 <= s@.len(),
        r is None ==> dec_bool(s@, pos as int) is None,
{
    if pos < s.len() {
        let b = s[pos];
        if b == 1 {
            Some((true, pos + 1))
        } else if b == 0 {
            Some((false, pos + 1))
        } else {
            None
        }
    } else {
        None
    }
}

pub fn read_coin_string(s: &Vec<u8>, pos: usize) -> (r: Option<(CoinString, usize)>)
    requires
        pos <= s@.len(),
    ensures
        r is Some ==> dec_coin_string(s@, pos as int) == Some((r->Some_0.0@, r->Some_0.1 as int))
            && r->Some_0.1 <= s@.len(),
        r is None ==> dec_coin_string(s@, pos as int) is None,
{
    match read_bytes(s, pos) {
        Option::None => None,
        Option::Some((parent, p1)) => match read_bytes(s, p1) {
            Option::None => None,
            Option::Some((puzzle_hash, p2)) => match read_u64(s, p2) {
                Option::None => None,
                Option::Some((amount, p3)) => Some(
                    (
                        CoinString {
                            parent: CoinID(parent),
                            puzzle_hash: PuzzleHash(puzzle_hash),
                            amount: Amount(amount),
                        },
                        p3,
                    ),
                ),
            },
        },
    }
}

pub fn read_handshake_b(s: &Vec<u8>, pos: usize) -> (r: Option<(HandshakeB, usize)>)
    requires
        pos <= s@.len(),
    ensures
        r is Some ==> dec_handshake_b(s@, pos as int) == Some((r->Some_0.0@, r->Some_0.1 as int))
            && r->Some_0.1 <= s@.len(),
        r is None ==> dec_handshake_b(s@, pos as int) is None,
{
    match read_bytes(s, pos) {
        Option::None => None,
        Option::Some((channel_public_key, p1)) => match read_bytes(s, p1) {
            Option::None => None,
            Option::Some((unroll_public_key, p2)) => match read_bytes(s, p2) {
                Option::None => None,
                Option::Some((reward_puzzle_hash, p3)) => match read_bytes(s, p3) {
                    Option::None => None,
                    Option::Some((referee_puzzle_hash, p4)) => Some(
                        (
                            HandshakeB {
                                channel_public_key: PublicKey(channel_public_key),
                                unroll_public_key: PublicKey(unroll_public_key),
                                reward_puzzle_hash: PuzzleHash(reward_puzzle_hash),
                                referee_puzzle_hash: PuzzleHash(referee_puzzle_hash),
                            },
                            p4,
                        ),
                    ),
                },
            },
        },
    }
}

pub fn read_handshake_a(s: &Vec<u8>, pos: usize) -> (r: Option<(HandshakeA, usize)>)
    requires
        pos <= s@.len(),
    ensures
        r is Some ==> dec_handshake_a(s@, pos as int) == Some((r->Some_0.0@, r->Some_0.1 as int))
            && r->Some_0.1 <= s@.len(),
        r is None ==> dec_handshake_a(s@, pos as int) is None,
{
    match read_coin_string(s, pos) {
        Option::None => None,
        Option::Some((parent, p1)) => match read_handshake_b(s, p1) {
            Option::None => None,
            Option::Some((simple, p2)) => Some((HandshakeA { parent, simple }, p2)),
        },
    }
}

pub fn read_spend(s: &Vec<u8>, pos: usize) -> (r: Option<(Spend, usize)>)
    requires
        pos <= s@.len(),
    ensures
        r is Some ==> dec_spend(s@, pos as int) == Some((r->Some_0.0@, r->Some_0.1 as int))
            && r->Some_0.1 <= s@.len(),
        r is None ==> dec_spend(s@, pos as int) is None,
{
    match read_bytes(s, pos) {
        Option::None => None,
        Option::Some((puzzle, p1)) => match read_bytes(s, p1) {
            Option::None => None,
            Option::Some((solution, p2)) => match read_bytes(s, p2) {
                Option::None => None,
                Option::Some((signature, p3)) => Some(
                    (
                        Spend {
                            puzzle: Program(puzzle),
                            solution: Program(solution),
                            signature: Aggsig(signature),
                        },
                        p3,
                    ),
                ),
            },
        },
    }
}

pub fn read_coin_spend(s: &Vec<u8>, pos: usize) -> (r: Option<(CoinSpend, usize)>)
    requires
        pos <= s@.len(),
    ensures
        r is Some ==> dec_coin_spend(s@, pos as int) == Some((r->Some_0.0@, r->Some_0.1 as int))
            && r->Some_0.1 <= s@.len(),
        r is None ==> dec_coin_spend(s@, pos as int) is None,
{
    match read_coin_string(s, pos) {
        Option::None => None,
        Option::Some((coin, p1)) => match read_spend(s, p1) {
            Option::None => None,
            Option::Some((bundle, p2)) => Some((CoinSpend { coin, bundle }, p2)),
        },
    }
}

pub fn read_spend_bundle(s: &Vec<u8>, pos: usize) -> (r: Option<(SpendBundle, usize)>)
    requires
        pos <= s@.len(),
    ensures
        r is Some ==> dec_spend_bundle(s@, pos as int) == Some((r->Some_0.0@, r->Some_0.1 as int))
            && r->Some_0.1 <= s@.len(),
        r is None ==> dec_spend_bundle(s@, pos as int) is None,
{
    match read_u64(s, pos) {
        Option::None => None,
        Option::Some((count, p1)) => {
            let mut spends: Vec<CoinSpend> = Vec::new();
            let mut cur: usize = p1;
            let mut i: u64 = 0;
            while i < count
                invariant
                    i <= count,
                    cur <= s@.len(),
                    dec_u64(s@, pos as int) == Some((count, p1 as int)),
                    (match dec_coin_spend_seq(s@, cur as int, (count - i) as nat) {
                        Option::None => dec_coin_spend_seq(s@, p1 as int, count as nat) is None,
                        Option::Some(pr) => dec_coin_spend_seq(s@, p1 as int, count as nat)
                            == Some(
                            (spends@.map(|k: int, cs: CoinSpend| cs@) + pr.0, pr.1),
                        ),
                    }),
                decreases count - i,
            {
                match read_coin_spend(s, cur) {
                    Option::None => {
                        return None;
                    },
                    Option::Some((cs, p2)) => {
                        proof {
                            let views = spends@.map(|k: int, cs2: CoinSpend| cs2@);
                            let stepped = spends@.push(cs).map(|k: int, cs2: CoinSpend| cs2@);
                            assert(stepped =~= views.push(cs@));
                            if dec_coin_spend_seq(s@, p2 as int, (count - (i + 1)) as nat)
                                is Some {
                                let pr = dec_coin_spend_seq(
                                    s@,
                                    p2 as int,
                                    (count - (i + 1)) as nat,
                                )->Some_0;
                                assert(views + (seq![cs@] + pr.0) =~= views.push(cs@) + pr.0);
                            }
                        }
                        spends.push(cs);
                        cur = p2;
                        i = i + 1;
                    },
                }
            }
            proof {
                let views = spends@.map(|k: int, cs2: CoinSpend| cs2@);
                assert(views + Seq::<CoinSpendV>::empty() =~= views);
            }
            Some((SpendBundle { spends }, cur))
        },
    }
}

pub fn read_sigs(s: &Vec<u8>, pos: usize) -> (r: Option<(PotatoSignatures, usize)>)
    requires
        pos <= s@.len(),
    ensures
        r is Some ==> dec_sigs(s@, pos as int) == Some((r->Some_0.0@, r->Some_0.1 as int))
            && r->Some_0.1 <= s@.len(),
        r is None ==> dec_sigs(s@, pos as int) is None,
{
    match read_bytes(s, pos) {
        Option::None => None,
        Option::Some((channel_half, p1)) => match read_bytes(s, p1) {
            Option::None => None,
            Option::Some((unroll_half, p2)) => Some(
                (
                    PotatoSignatures {
                        my_channel_half_signature_peer: Aggsig(channel_half),
                        my_unroll_half_signature_peer: Aggsig(unroll_half),
                    },
                    p2,
                ),
            ),
        },
    }
}

pub fn read_flat_game(s: &Vec<u8>, pos: usize) -> (r: Option<(FlatGameStartInfo, usize)>)
    requires
        pos <= s@.len(),
    ensures
        r is Some ==> dec_flat_game(s@, pos as int) == Some((r->Some_0.0@, r->Some_0.1 as int))
            && r->Some_0.1 <= s@.len(),
        r is None ==> dec_flat_game(s@, pos as int) is None,
{
    match read_bytes(s, pos) {
        Option::None => None,
        Option::Some((game_id, p1)) => match read_u64(s, p1) {
            Option::None => None,
            Option::Some((timeout, p2)) => match read_bool(s, p2) {
                Option::None => None,
                Option::Some((my_turn, p3)) => match read_bytes(s, p3) {
                    Option::None => None,
                    Option::Some((rule_data, p4)) => Some(
                        (
                            FlatGameStartInfo {
                                game_id: GameID(game_id),
                                timeout: Timeout(timeout),
                                my_turn,
                                rule_data: Program(rule_data),
                            },
                            p4,
                        ),
                    ),
                },
            },
        },
    }
}

pub fn read_flat_game_seq(s: &Vec<u8>, pos: usize, count: u64) -> (r: Option<
    (Vec<FlatGameStartInfo>, usize),
>)
    requires
        pos <= s@.len(),
    ensures
        r is Some ==> dec_flat_game_seq(s@, pos as int, count as nat) == Some(
            (r->Some_0.0@.map(|k: int, g: FlatGameStartInfo| g@), r->Some_0.1 as int),
        ) && r->Some_0.1 <= s@.len(),
        r is None ==> dec_flat_game_seq(s@, pos as int, count as nat) is None,
{
    let mut games: Vec<FlatGameStartInfo> = Vec::new();
    let mut cur: usize = pos;
    let mut i: u64 = 0;
    while i < count
        invariant
            i <= count,
            cur <= s@.len(),
            (match dec_flat_game_seq(s@, cur as int, (count - i) as nat) {
                Option::None => dec_flat_game_seq(s@, pos as int, count as nat) is None,
                Option::Some(pr) => dec_flat_game_seq(s@, pos as int, count as nat) == Some(
                    (games@.map(|k: int, g: FlatGameStartInfo| g@) + pr.0, pr.1),
                ),
            }),
        decreases count - i,
    {
        match read_flat_game(s, cur) {
            Option::None => {
                return None;
            },
            Option::Some((g, p2)) => {
                proof {
                    let views = games@.map(|k: int, g2: FlatGameStartInfo| g2@);
                    let stepped = games@.push(g).map(|k: int, g2: FlatGameStartInfo| g2@);
                    assert(stepped =~= views.push(g@));
                    if dec_flat_game_seq(s@, p2 as int, (count - (i + 1)) as nat) is Some {
                        let pr = dec_flat_game_seq(s@, p2 as int, (count - (i + 1)) as nat)->Some_0;
                        assert(views + (seq![g@] + pr.0) =~= views.push(g@) + pr.0);
                    }
                }
                games.push(g);
                cur = p2;
                i = i + 1;
            },
        }
    }
    proof {
        let views = games@.map(|k: int, g2: FlatGameStartInfo| g2@);
        assert(views + Seq::<FlatGameStartInfoV>::empty() =~= views);
    }
    Some((games, cur))
}

/// Decode a byte frame into a peer message; a malformed frame is a
/// protocol error.
pub fn decode_message(s: &Vec<u8>) -> (r: Result<PeerMessage, Error>)
    ensures
        spec_decode_message(s@) is Some ==> r is Ok && r->Ok_0@ == spec_decode_message(s@)->Some_0,
        spec_decode_message(s@) is None ==> r is Err && r->Err_0 is Decode,
{
    if s.len() < 1 {
        return Err(Error::Decode);
    }
    let tag = s[0];
    if tag == 0 {
        match read_handshake_a(s, 1) {
            Option::Some((a, p)) => {
                if p == s.len() {
                    Ok(PeerMessage::HandshakeA(a))
                } else {
                    Err(Error::Decode)
                }
            },
            Option::None => Err(Error::Decode),
        }
    } else if tag == 1 {
        match read_handshake_b(s, 1) {
            Option::Some((b, p)) => {
                if p == s.len() {
                    Ok(PeerMessage::HandshakeB(b))
                } else {
                    Err(Error::Decode)
                }
            },
            Option::None => Err(Error::Decode),
        }
    } else if tag == 2 {
        match read_spend_bundle(s, 1) {
            Option::Some((bundle, p)) => {
                if p == s.len() {
                    Ok(PeerMessage::HandshakeE { bundle })
                } else {
                    Err(Error::Decode)
                }
            },
            Option::None => Err(Error::Decode),
        }
    } else if tag == 3 {
        match read_spend_bundle(s, 1) {
            Option::Some((bundle, p)) => {
                if p == s.len() {
                    Ok(PeerMessage::HandshakeF { bundle })
                } else {
                    Err(Error::Decode)
                }
            },
            Option::None => Err(Error::Decode),
        }
    } else if tag == 4 {
        match read_sigs(s, 1) {
            Option::Some((sigs, p)) => {
                if p == s.len() {
                    Ok(PeerMessage::Nil(sigs))
                } else {
                    Err(Error::Decode)
                }
            },
            Option::None => Err(Error::Decode),
        }
    } else if tag == 5 {
        match read_bytes(s, 1) {
            Option::Some((id, p1)) => match read_bytes(s, p1) {
                Option::Some((mv, p2)) => {
                    if p2 == s.len() {
                        Ok(PeerMessage::Move(GameID(id), MoveResult(mv)))
                    } else {
                        Err(Error::Decode)
                    }
                },
                Option::None => Err(Error::Decode),
            },
            Option::None => Err(Error::Decode),
        }
    } else if tag == 6 {
        match read_bytes(s, 1) {
            Option::Some((id, p1)) => match read_u64(s, p1) {
                Option::Some((amount, p2)) => match read_sigs(s, p2) {
                    Option::Some((sigs, p3)) => {
                        if p3 == s.len() {
                            Ok(PeerMessage::Accept(GameID(id), Amount(amount), sigs))
                        } else {
                            Err(Error::Decode)
                        }
                    },
                    Option::None => Err(Error::Decode),
                },
                Option::None => Err(Error::Decode),
            },
            Option::None => Err(Error::Decode),
        }
    } else if tag == 7 {
        match read_bytes(s, 1) {
            Option::Some((sig, p)) => {
                if p == s.len() {
                    Ok(PeerMessage::Shutdown(Aggsig(sig)))
                } else {
                    Err(Error::Decode)
                }
            },
            Option::None => Err(Error::Decode),
        }
    } else if tag == 8 {
        if s.len() == 1 {
            Ok(PeerMessage::RequestPotato(()))
        } else {
            Err(Error::Decode)
        }
    } else if tag == 9 {
        match read_sigs(s, 1) {
            Option::Some((sigs, p1)) => match read_u64(s, p1) {
                Option::Some((count, p2)) => match read_flat_game_seq(s, p2, count) {
                    Option::Some((games, p3)) => {
                        if p3 == s.len() {
                            Ok(PeerMessage::StartGames(sigs, games))
                        } else {
                            Err(Error::Decode)
                        }
                    },
                    Option::None => Err(Error::Decode),
                },
                Option::None => Err(Error::Decode),
            },
            Option::None => Err(Error::Decode),
        }
    } else {
        Err(Error::Decode)
    }
}

} // verus!
