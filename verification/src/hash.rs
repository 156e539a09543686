//! Signature hashing.
//!
//! Every callable is identified by a non-zero 64-bit hash.  Two families
//! exist: the *script-style* hash of a qualifier path, a name and an arity,
//! and the *native-style* hash of a name and a list of argument types.
//! [`combine_hashes`] folds one hash into another.
//!
//! All three are total functions of their arguments: the same inputs give
//! the same hash in every run.

use vstd::prelude::*;
use vstd::arithmetic::div_mod::lemma_mod_add_multiples_vanish;
use vstd::arithmetic::div_mod::lemma_small_mod;
use crate::value::TypeId;

verus! {

/// Starting state of the byte hash (64-bit FNV-1a offset basis).
pub const FNV_OFFSET_BASIS: u64 = 0xcbf2_9ce4_8422_2325;

/// Multiplier of the byte hash (64-bit FNV-1a prime).
pub const FNV_PRIME: u64 = 0x0000_0100_0000_01b3;

/// Word mixed in after the last byte of every string, so that the boundary
/// between two consecutive strings takes part in the hash.
pub const STRING_END: u64 = 0x100;

/// The value that stands in for a natural hash of zero.
pub const ZERO_HASH_REMAP: u64 = 42;

/// `2^64 - 1`, the number of non-zero hashes.
pub const HASH_MODULUS: u64 = 0xffff_ffff_ffff_ffff;

/// One FNV-1a step: xor the word in, then multiply modulo `2^64`.
pub open spec fn mix(h: u64, word: u64) -> u64 {
    (h ^ word).wrapping_mul(FNV_PRIME)
}

/// Folds `bytes` into `h`, first byte first.
pub open spec fn mix_bytes(h: u64, bytes: Seq<u8>) -> u64
    decreases bytes.len(),
{
    if bytes.len() == 0 {
        h
    } else {
        mix(mix_bytes(h, bytes.drop_last()), bytes.last() as u64)
    }
}

/// Folds the UTF-8 encoding of `s` into `h`, followed by [`STRING_END`].
pub open spec fn mix_str(h: u64, s: Seq<char>) -> u64 {
    mix(mix_bytes(h, vstd::utf8::encode_utf8(s)), STRING_END)
}

/// Folds every string of `path` into `h`, first string first.
pub open spec fn mix_path(h: u64, path: Seq<Seq<char>>) -> u64
    decreases path.len(),
{
    if path.len() == 0 {
        h
    } else {
        mix_str(mix_path(h, path.drop_last()), path.last())
    }
}

/// Folds every type identifier of `types` into `h`, first one first.
pub open spec fn mix_types(h: u64, types: Seq<TypeId>) -> u64
    decreases types.len(),
{
    if types.len() == 0 {
        h
    } else {
        mix(mix_types(h, types.drop_last()), types.last().id)
    }
}

/// Maps a natural hash of zero to [`ZERO_HASH_REMAP`]; zero means "absent".
pub open spec fn non_zero(h: u64) -> u64 {
    if h == 0 {
        ZERO_HASH_REMAP
    } else {
        h
    }
}

/// The hash state after the qualifier path.
///
/// The first qualifier names the root of the tree that is searched; it
/// marks the hash as qualified but does not itself take part in it, so a
/// path hashes the same whatever its root is called.
pub open spec fn qualified_seed(qualifiers: Seq<Seq<char>>) -> u64 {
    if qualifiers.len() == 0 {
        mix(FNV_OFFSET_BASIS, 0)
    } else {
        mix_path(mix(FNV_OFFSET_BASIS, 1), qualifiers.skip(1))
    }
}

/// The script-style hash of `(qualifiers, name, arity)`.
pub open spec fn script_hash(qualifiers: Seq<Seq<char>>, name: Seq<char>, arity: usize) -> u64 {
    non_zero(mix(mix_str(qualified_seed(qualifiers), name), arity as u64))
}

/// The native-style hash of `(name, arg_types)`; it has no qualifiers.
pub open spec fn native_hash(name: Seq<char>, arg_types: Seq<TypeId>) -> u64 {
    non_zero(mix_types(mix_str(qualified_seed(Seq::empty()), name), arg_types))
}

/// The hash that folds `b` into `a`: with both taken as residues
/// `a - 1` and `b - 1` modulo `2^64 - 1`, it is `2 * (a - 1) + (b - 1)`,
/// moved back into `1 ..= 2^64 - 1`.
pub open spec fn combined_hash(a: u64, b: u64) -> u64 {
    ((2 * (a - 1) + (b - 1)) % (HASH_MODULUS as int) + 1) as u64
}

/// The views of a slice of string slices.
pub open spec fn str_views(strings: Seq<&str>) -> Seq<Seq<char>> {
    strings.map_values(|s: &str| s@)
}

fn mix_word(h: u64, word: u64) -> (r: u64)
    ensures
        r == mix(h, word),
{
    (h ^ word).wrapping_mul(FNV_PRIME)
}

fn mix_in_str(h: u64, s: &str) -> (r: u64)
    ensures
        r == mix_str(h, s@),
{
    let bytes = s.as_bytes();
    let mut state: u64 = h;
    let mut i: usize = 0;
    while i < bytes.len()
        invariant
            i <= bytes@.len(),
            state == mix_bytes(h, bytes@.take(i as int)),
        decreases bytes@.len() - i,
    {
        assert(bytes@.take(i + 1).drop_last() == bytes@.take(i as int));
        state = mix_word(state, bytes[i] as u64);
        i += 1;
    }
    assert(bytes@.take(i as int) == bytes@);
    mix_word(state, STRING_END)
}

fn remap_zero(h: u64) -> (r: u64)
    ensures
        r == non_zero(h),
        r != 0,
{
    if h == 0 {
        ZERO_HASH_REMAP
    } else {
        h
    }
}

fn seed_of(qualifiers: &[&str]) -> (r: u64)
    ensures
        r == qualified_seed(str_views(qualifiers@)),
{
    if qualifiers.len() == 0 {
        return mix_word(FNV_OFFSET_BASIS, 0);
    }
    let ghost path = str_views(qualifiers@).skip(1);
    let mut state: u64 = mix_word(FNV_OFFSET_BASIS, 1);
    let mut i: usize = 1;
    while i < qualifiers.len()
        invariant
            1 <= i <= qualifiers@.len(),
            path == str_views(qualifiers@).skip(1),
            state == mix_path(mix(FNV_OFFSET_BASIS, 1), path.take(i - 1)),
        decreases qualifiers@.len() - i,
    {
        assert(path.take(i as int).drop_last() == path.take(i - 1));
        assert(path.take(i as int).last() == qualifiers@[i as int]@);
        state = mix_in_str(state, qualifiers[i]);
        i += 1;
    }
    assert(path.take(i - 1) == path);
    state
}

/// Computes the script-style hash of a function or variable: of its
/// qualifier path, its name and its number of parameters (zero for a
/// variable).  The result is never zero.
pub fn hash_script(qualifiers: &[&str], name: &str, arity: usize) -> (h: u64)
    ensures
        h == script_hash(str_views(qualifiers@), name@, arity),
        h != 0,
{
    let seed = seed_of(qualifiers);
    let named = mix_in_str(seed, name);
    remap_zero(mix_word(named, arity as u64))
}

/// Computes the native-style hash of a function: of its name and the
/// identifiers of its argument types, in order.  The result is never zero.
pub fn hash_native_args(name: &str, arg_types: &[TypeId]) -> (h: u64)
    ensures
        h == native_hash(name@, arg_types@),
        h != 0,
{
    let named = mix_in_str(mix_word(FNV_OFFSET_BASIS, 0), name);
    let mut state: u64 = named;
    let mut i: usize = 0;
    while i < arg_types.len()
        invariant
            i <= arg_types@.len(),
            state == mix_types(named, arg_types@.take(i as int)),
        decreases arg_types@.len() - i,
    {
        assert(arg_types@.take(i + 1).drop_last() == arg_types@.take(i as int));
        state = mix_word(state, arg_types[i].id);
        i += 1;
    }
    assert(arg_types@.take(i as int) == arg_types@);
    remap_zero(state)
}

/// Folds the hash `b` into the hash `a`.  The result is never zero, and the
/// order of the two arguments matters.
pub fn combine_hashes(a: u64, b: u64) -> (h: u64)
    ensures
        h == combined_hash(a, b),
        h != 0,
{
    let modulus: u128 = HASH_MODULUS as u128;
    let sum: u128 = 2 * (a as u128) + (b as u128) + (2 * modulus - 3);
    let residue: u128 = sum % modulus;
    proof {
        let m = HASH_MODULUS as int;
        let x = 2 * (a - 1) + (b - 1);
        assert(sum == x + 2 * m);
        lemma_mod_add_multiples_vanish(x + m, m);
        lemma_mod_add_multiples_vanish(x, m);
    }
    (residue as u64) + 1
}

/// The hashes are functions of the texts hashed: two lists of qualifiers
/// that read the same, with two names that read the same, hash alike,
/// whenever and wherever they are hashed.
pub proof fn lemma_hashes_depend_on_the_text_alone(
    qualifiers: Seq<&str>,
    same_qualifiers: Seq<&str>,
    name: &str,
    same_name: &str,
    arity: usize,
    arg_types: Seq<TypeId>,
)
    requires
        str_views(qualifiers) == str_views(same_qualifiers),
        name@ == same_name@,
    ensures
        script_hash(str_views(qualifiers), name@, arity) == script_hash(
            str_views(same_qualifiers),
            same_name@,
            arity,
        ),
        native_hash(name@, arg_types) == native_hash(same_name@, arg_types),
{
}

/// A combined hash is never zero.
pub proof fn lemma_combined_hash_non_zero(a: u64, b: u64)
    ensures
        combined_hash(a, b) != 0,
{
}

/// Folding two different non-zero hashes into the same hash gives two
/// different results: overloads that differ in their argument-type hash
/// never share a combined key.
pub proof fn lemma_combined_hash_separates_second(a: u64, b1: u64, b2: u64)
    requires
        b1 != 0,
        b2 != 0,
        b1 != b2,
    ensures
        combined_hash(a, b1) != combined_hash(a, b2),
{
    let m = HASH_MODULUS as int;
    let x = 2 * (a - 1);
    let r1 = (x + (b1 - 1)) % m;
    let r2 = (x + (b2 - 1)) % m;
    if r1 == r2 {
        lemma_same_residue_shift(x, b1 - 1, b2 - 1, m);
    }
}

/// Folding the same non-zero hash into two different non-zero hashes gives
/// two different results.
pub proof fn lemma_combined_hash_separates_first(a1: u64, a2: u64, b: u64)
    requires
        a1 != 0,
        a2 != 0,
        a1 != a2,
    ensures
        combined_hash(a1, b) != combined_hash(a2, b),
{
    let m = HASH_MODULUS as int;
    let y = b - 1;
    let r1 = (2 * (a1 - 1) + y) % m;
    let r2 = (2 * (a2 - 1) + y) % m;
    if r1 == r2 {
        lemma_same_residue_shift(y, 2 * (a1 - 1), 2 * (a2 - 1), m);
    }
}

/// The order of the arguments matters: there are hashes whose two
/// combinations differ.
pub proof fn lemma_combined_hash_not_commutative()
    ensures
        combined_hash(1, 2) != combined_hash(2, 1),
{
    lemma_small_mod(1, HASH_MODULUS as nat);
    lemma_small_mod(2, HASH_MODULUS as nat);
}

/// The root qualifier is not part of a script-style hash: two paths that
/// agree after their first element hash alike.
pub proof fn lemma_script_hash_ignores_root(
    q1: Seq<Seq<char>>,
    q2: Seq<Seq<char>>,
    name: Seq<char>,
    arity: usize,
)
    requires
        q1.len() > 0,
        q2.len() > 0,
        q1.skip(1) == q2.skip(1),
    ensures
        script_hash(q1, name, arity) == script_hash(q2, name, arity),
{
}

/// If `x + u` and `x + v` leave the same residue modulo `m`, and `u` and
/// `v` are less than `2 * m` apart with an even difference or less than `m`
/// apart, then `u == v`.
proof fn lemma_same_residue_shift(x: int, u: int, v: int, m: int)
    requires
        m == HASH_MODULUS as int,
        (x + u) % m == (x + v) % m,
        -m < u - v < m || (-2 * m < u - v < 2 * m && (u - v) % 2 == 0),
    ensures
        u == v,
{
    let d = u - v;
    assert((x + u) - (x + v) == d);
    assert(d % m == 0) by {
        vstd::arithmetic::div_mod::lemma_fundamental_div_mod(x + u, m);
        vstd::arithmetic::div_mod::lemma_fundamental_div_mod(x + v, m);
        let k = (x + u) / m - (x + v) / m;
        assert(d == m * ((x + u) / m) - m * ((x + v) / m));
        assert(d == m * k) by (nonlinear_arith)
            requires
                d == m * ((x + u) / m) - m * ((x + v) / m),
                k == (x + u) / m - (x + v) / m,
        ;
        vstd::arithmetic::div_mod::lemma_mod_multiples_basic(k, m);
        assert(k * m == m * k) by (nonlinear_arith);
    }
    vstd::arithmetic::div_mod::lemma_fundamental_div_mod(d, m);
    let q = d / m;
    assert(d == m * q);
    assert(-2 < q < 2) by (nonlinear_arith)
        requires
            d == m * q,
            -2 * m < d < 2 * m,
            m > 0,
    ;
    if q == 1 {
        assert(d == m);
    } else if q == -1 {
        assert(d == -m);
    } else {
        assert(q == 0);
    }
}

} // verus!
