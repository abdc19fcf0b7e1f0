//! The game-id counter: a byte string read as a little-endian number,
//! incremented with byte carry for each fresh id, wrapping at the top.
//!
//! The counter is seeded from a digest of the party's private keys, so
//! within one channel the first `256^len` ids are pairwise distinct.

use vstd::prelude::*;
use vstd::arithmetic::div_mod::{
    lemma_fundamental_div_mod,
    lemma_fundamental_div_mod_converse,
    lemma_mod_bound,
    lemma_mod_breakdown,
    lemma_small_mod,
};
use crate::types::ChannelHandlerPrivateKeys;
use crate::hashing::{sha256, sha256_of};

verus! {

/// `256^n`, the number of values of an `n`-byte counter.
pub open spec fn pow256(n: nat) -> nat
    decreases n,
{
    if n == 0 {
        1
    } else {
        256 * pow256((n - 1) as nat)
    }
}

/// The number a byte string denotes, little-endian.
pub open spec fn le_value(s: Seq<u8>) -> nat
    decreases s.len(),
{
    if s.len() == 0 {
        0
    } else {
        (s[0] as nat) + 256 * le_value(s.drop_first())
    }
}

/// The `len`-byte little-endian string denoting `v % 256^len`.
pub open spec fn le_bytes(len: nat, v: nat) -> Seq<u8>
    decreases len,
{
    if len == 0 {
        Seq::empty()
    } else {
        seq![(v % 256) as u8] + le_bytes((len - 1) as nat, v / 256)
    }
}

/// The id the counter yields on its `k`-th allocation when it starts at `start`.
pub open spec fn nth_game_id(start: Seq<u8>, k: nat) -> Seq<u8> {
    le_bytes(start.len(), (le_value(start) + k) % pow256(start.len()))
}

pub proof fn lemma_pow256_pos(n: nat)
    ensures
        pow256(n) >= 1,
    decreases n,
{
    if n > 0 {
        lemma_pow256_pos((n - 1) as nat);
    }
}

/// A byte string's value is below the range of its length.
pub proof fn lemma_le_value_bound(s: Seq<u8>)
    ensures
        le_value(s) < pow256(s.len()),
    decreases s.len(),
{
    if s.len() > 0 {
        lemma_le_value_bound(s.drop_first());
    }
}

/// `le_bytes` denotes what it was built from, reduced into range.
pub proof fn lemma_le_bytes_value(len: nat, v: nat)
    ensures
        le_bytes(len, v).len() == len,
        le_value(le_bytes(len, v)) == v % pow256(len),
    decreases len,
{
    if len == 0 {
        assert(v as int % 1int == 0) by {
            lemma_mod_bound(v as int, 1int);
        }
    } else {
        let tail = le_bytes((len - 1) as nat, v / 256);
        lemma_le_bytes_value((len - 1) as nat, v / 256);
        assert((seq![(v % 256) as u8] + tail).drop_first() =~= tail);
        lemma_pow256_pos((len - 1) as nat);
        lemma_mod_breakdown(v as int, 256, pow256((len - 1) as nat) as int);
    }
}

/// Replacing one byte moves the value by the difference at that byte's weight.
pub proof fn lemma_le_value_update(s: Seq<u8>, i: int, x: u8)
    requires
        0 <= i < s.len(),
    ensures
        le_value(s.update(i, x)) as int == le_value(s) as int + (x as int - s[i] as int) * (
        pow256(i as nat) as int),
    decreases i,
{
    let t = s.update(i, x);
    if i == 0 {
        assert(t.drop_first() =~= s.drop_first());
        assert(le_value(t) as int == le_value(s) as int + (x as int - s[0] as int) * (pow256(
            0 as nat,
        ) as int)) by (nonlinear_arith)
            requires
                le_value(t) == (x as nat) + 256 * le_value(s.drop_first()),
                le_value(s) == (s[0] as nat) + 256 * le_value(s.drop_first()),
                pow256(0 as nat) == 1,
        ;
    } else {
        assert(t.drop_first() =~= s.drop_first().update(i - 1, x));
        lemma_le_value_update(s.drop_first(), i - 1, x);
        assert(s.drop_first()[i - 1] == s[i]);
        assert(le_value(t) as int == le_value(s) as int + (x as int - s[i] as int) * (pow256(
            i as nat,
        ) as int)) by (nonlinear_arith)
            requires
                le_value(t) == (s[0] as nat) + 256 * le_value(t.drop_first()),
                le_value(s) == (s[0] as nat) + 256 * le_value(s.drop_first()),
                le_value(t.drop_first()) as int == le_value(s.drop_first()) as int + (x as int
                    - s[i] as int) * (pow256((i - 1) as nat) as int),
                pow256(i as nat) == 256 * pow256((i - 1) as nat),
        ;
    }
}

/// Two distinct allocation indices within the counter's range give distinct ids.
///
/// This is the uniqueness of emitted game ids: within one channel the
/// counter is 32 bytes wide, so no two of the first `256^32` allocations
/// can collide.
pub proof fn lemma_game_id_uniqueness(start: Seq<u8>, i: nat, j: nat)
    requires
        start.len() > 0,
        i < j,
        j < pow256(start.len()),
    ensures
        nth_game_id(start, i) != nth_game_id(start, j),
{
    let n = pow256(start.len()) as int;
    let v0 = le_value(start) as int;
    lemma_pow256_pos(start.len());
    lemma_mod_bound(v0 + i, n);
    lemma_mod_bound(v0 + j, n);
    let ri = ((v0 + i) % n) as nat;
    let rj = ((v0 + j) % n) as nat;
    lemma_le_bytes_value(start.len(), ri);
    lemma_le_bytes_value(start.len(), rj);
    lemma_small_mod(ri, pow256(start.len()));
    lemma_small_mod(rj, pow256(start.len()));
    if nth_game_id(start, i) == nth_game_id(start, j) {
        // Equal byte strings denote equal values, so the two indices are
        // congruent; but their difference is strictly between 0 and 256^len.
        assert(le_value(nth_game_id(start, i)) == ri);
        assert(le_value(nth_game_id(start, j)) == rj);
        assert((v0 + i) % n == (v0 + j) % n);
        lemma_fundamental_div_mod(v0 + i, n);
        lemma_fundamental_div_mod(v0 + j, n);
        let qi = (v0 + i) / n;
        let qj = (v0 + j) / n;
        assert(n * qj - n * qi == n * (qj - qi)) by (nonlinear_arith);
        assert(j - i == n * (qj - qi));
        assert(false) by (nonlinear_arith)
            requires
                j - i == n * (qj - qi),
                0 < j - i < n,
        ;
    }
}

/// A byte string is the canonical little-endian form of its own value.
pub proof fn lemma_le_bytes_id(s: Seq<u8>)
    ensures
        le_bytes(s.len(), le_value(s)) == s,
    decreases s.len(),
{
    if s.len() == 0 {
        assert(le_bytes(0, 0) =~= s);
    } else {
        let v = le_value(s) as int;
        let rest = le_value(s.drop_first()) as int;
        assert(v == rest * 256 + s[0]) by (nonlinear_arith)
            requires
                v == s[0] + 256 * rest,
        ;
        lemma_fundamental_div_mod_converse(v, 256, rest, s[0] as int);
        lemma_le_bytes_id(s.drop_first());
        assert(le_bytes(s.len(), le_value(s)) =~= s);
    }
}

/// Advance the counter by one, little-endian with byte carry; the top wraps.
pub fn increment_game_id(counter: &mut Vec<u8>)
    requires
        old(counter)@.len() > 0,
    ensures
        final(counter)@.len() == old(counter)@.len(),
        le_value(final(counter)@) == (le_value(old(counter)@) + 1) % pow256(old(counter)@.len()),
{
    let ghost orig = counter@;
    let ghost n = pow256(orig.len());
    let len = counter.len();
    let mut i: usize = 0;
    proof {
        lemma_pow256_pos(orig.len());
        lemma_le_value_bound(orig);
    }
    while i < len
        invariant
            orig == old(counter)@,
            len == counter@.len(),
            len == orig.len(),
            i <= len,
            n == pow256(orig.len()),
            le_value(counter@) as int + pow256(i as nat) as int == le_value(orig) as int + 1,
            forall|k: int| i <= k < len ==> counter@[k] == orig[k],
            le_value(orig) < n,
        decreases len - i,
    {
        let b = counter[i];
        if b == 255 {
            proof {
                let cur = counter@;
                lemma_le_value_update(cur, i as int, 0);
                assert(le_value(cur.update(i as int, 0)) as int + pow256((i + 1) as nat) as int
                    == le_value(orig) as int + 1) by (nonlinear_arith)
                    requires
                        le_value(cur.update(i as int, 0)) as int == le_value(cur) as int + (
                        0int - 255int) * (pow256(i as nat) as int),
                        le_value(cur) as int + pow256(i as nat) as int == le_value(orig) as int
                            + 1,
                        pow256((i + 1) as nat) == 256 * pow256(i as nat),
                        cur[i as int] == 255,
                ;
            }
            counter.set(i, 0);
            i = i + 1;
        } else {
            proof {
                let cur = counter@;
                lemma_le_value_update(cur, i as int, (b + 1) as u8);
                // The new value is exactly one more than the starting value.
                assert(le_value(cur.update(i as int, (b + 1) as u8)) as int == le_value(
                    orig,
                ) as int + 1) by (nonlinear_arith)
                    requires
                        le_value(cur.update(i as int, (b + 1) as u8)) as int == le_value(
                        cur,
                        ) as int + ((b + 1) as int - b as int) * (pow256(i as nat) as int),
                        le_value(cur) as int + pow256(i as nat) as int == le_value(orig) as int
                            + 1,
                ;
                // With this byte below its maximum, no wrap can occur: raising
                // it to the maximum still stays inside the range.
                let raised = cur.update(i as int, 255);
                lemma_le_value_update(cur, i as int, 255);
                lemma_le_value_bound(raised);
                lemma_pow256_pos(i as nat);
                assert(le_value(orig) as int + 1 < n as int) by (nonlinear_arith)
                    requires
                        le_value(raised) as int == le_value(cur) as int + (255int - b as int) * (
                        pow256(i as nat) as int),
                        le_value(raised) < n,
                        le_value(cur) as int + pow256(i as nat) as int == le_value(orig) as int
                            + 1,
                        b as int <= 254,
                        pow256(i as nat) >= 1,
                ;
                lemma_small_mod((le_value(orig) + 1) as nat, n);
            }
            counter.set(i, b + 1);
            return ;
        }
    }
    // Every byte carried: the counter wrapped to zero.
    proof {
        assert(le_value(orig) + 1 == n);
        assert(le_value(counter@) == 0);
        assert(n as int % n as int == 0) by {
            lemma_mod_bound(n as int, n as int);
            lemma_fundamental_div_mod(n as int, n as int);
            assert((n as int) / (n as int) == 1) by (nonlinear_arith)
                requires
                    n >= 1,
            ;
        }
    }
}

/// The seed of the game-id counter: a digest of the three private keys,
/// so that the two parties' counters start at unrelated points.
pub fn init_game_id(private_keys: &ChannelHandlerPrivateKeys) -> (r: Vec<u8>)
    ensures
        r@ == sha256_of(private_keys@.channel + private_keys@.unroll + private_keys@.referee),
        r@.len() == 32,
{
    let mut data: Vec<u8> = Vec::new();
    append_bytes(&mut data, &private_keys.my_channel_coin_private_key.0);
    append_bytes(&mut data, &private_keys.my_unroll_coin_private_key.0);
    append_bytes(&mut data, &private_keys.my_referee_private_key.0);
    proof {
        assert(data@ =~= private_keys@.channel + private_keys@.unroll + private_keys@.referee);
    }
    sha256(&data)
}

/// Append a byte vector to another.
pub fn append_bytes(dest: &mut Vec<u8>, src: &Vec<u8>)
    ensures
        final(dest)@ == old(dest)@ + src@,
{
    let mut i: usize = 0;
    while i < src.len()
        invariant
            i <= src@.len(),
            dest@ == old(dest)@ + src@.subrange(0, i as int),
        decreases src@.len() - i,
    {
        dest.push(src[i]);
        proof {
            assert(old(dest)@ + src@.subrange(0, (i + 1) as int) =~= (old(dest)@ + src@.subrange(
                0,
                i as int,
            )).push(src@[i as int]));
        }
        i = i + 1;
    }
    proof {
        assert(old(dest)@ + src@.subrange(0, src@.len() as int) =~= old(dest)@ + src@);
    }
}

} // verus!
