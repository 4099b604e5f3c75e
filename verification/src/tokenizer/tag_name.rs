//! Tag-name hashing.
//!
//! A tag name made of ASCII letters and digits (at most ten of them,
//! upper case folded to lower case) is packed into a `u64`, six bits
//! per character.  The packing is injective — two hashable names with
//! the same hash are the same name — which is what lets the raw-text
//! scanner compare a candidate end-tag name against the name of the
//! most recently opened element by hash alone, with no risk that a
//! collision terminates raw-text content at the wrong place.  Longer
//! names, or names with other characters, have no hash and never
//! match.

use vstd::prelude::*;

verus! {

/// Upper bound on the length of a hashable name.
pub const MAX_HASHABLE_NAME_LEN: usize = 10;

/// The packed code of one name byte: `1..=10` for digits,
/// `11..=36` for lower-case letters, nothing for any other byte.
pub open spec fn char_value(b: u8) -> Option<int> {
    if 48 <= b && b <= 57 {
        Some(b - 47 as int)
    } else if 97 <= b && b <= 122 {
        Some(b - 86 as int)
    } else {
        None
    }
}

/// The hash of the first `i` bytes of `name`, over unbounded integers.
pub open spec fn hash_prefix(name: Seq<u8>, i: int) -> Option<int>
    decreases i,
{
    if i <= 0 {
        Some(0)
    } else {
        match hash_prefix(name, i - 1) {
            None => None,
            Some(h) => match char_value(name[i - 1]) {
                None => None,
                Some(v) => Some(h * 64 + v),
            },
        }
    }
}

/// The hash of a whole name, if it is hashable.
pub open spec fn name_hash(name: Seq<u8>) -> Option<u64> {
    if name.len() <= MAX_HASHABLE_NAME_LEN {
        match hash_prefix(name, name.len() as int) {
            None => None,
            Some(h) => Some(h as u64),
        }
    } else {
        None
    }
}

pub open spec fn pow64(n: nat) -> int
    decreases n,
{
    if n == 0 {
        1
    } else {
        64 * pow64((n - 1) as nat)
    }
}

pub proof fn lemma_hash_prefix_bound(name: Seq<u8>, i: int)
    requires
        0 <= i,
        hash_prefix(name, i) is Some,
    ensures
        0 <= hash_prefix(name, i)->Some_0 < pow64(i as nat),
    decreases i,
{
    if i > 0 {
        lemma_hash_prefix_bound(name, i - 1);
        let h = hash_prefix(name, i - 1)->Some_0;
        let v = char_value(name[i - 1])->Some_0;
        assert(1 <= v <= 36);
        assert(h * 64 + v < pow64(i as nat)) by (nonlinear_arith)
            requires
                0 <= h,
                h < pow64((i - 1) as nat),
                v <= 36,
                pow64(i as nat) == 64 * pow64((i - 1) as nat);
    }
}

pub proof fn lemma_pow64_mono(a: nat, b: nat)
    requires
        a <= b,
    ensures
        pow64(a) <= pow64(b),
    decreases b,
{
    if a < b {
        lemma_pow64_mono(a, (b - 1) as nat);
        lemma_pow64_pos((b - 1) as nat);
    }
}

pub proof fn lemma_pow64_pos(n: nat)
    ensures
        pow64(n) >= 1,
    decreases n,
{
    if n > 0 {
        lemma_pow64_pos((n - 1) as nat);
    }
}

/// The concrete ceiling of every hashable name's hash: `64^10`.
pub proof fn lemma_pow64_ten()
    ensures
        pow64(10) == 0x1000000000000000,
{
    reveal_with_fuel(pow64, 11);
}

proof fn lemma_hash_prefix_none(name: Seq<u8>, i: int, j: int)
    requires
        0 <= i < j,
        char_value(name[i]) is None,
    ensures
        hash_prefix(name, j) is None,
    decreases j,
{
    if j > i + 1 {
        lemma_hash_prefix_none(name, i, j - 1);
    }
}

proof fn lemma_hash_prefix_injective(a: Seq<u8>, b: Seq<u8>, i: int, j: int)
    requires
        0 <= i <= a.len(),
        0 <= j <= b.len(),
        hash_prefix(a, i) is Some,
        hash_prefix(a, i) == hash_prefix(b, j),
    ensures
        i == j,
        a.subrange(0, i) == b.subrange(0, j),
    decreases i + j,
{
    if i == 0 {
        if j > 0 {
            lemma_hash_prefix_bound(b, j - 1);
            assert(false);
        }
        assert(a.subrange(0, 0) =~= b.subrange(0, 0));
    } else if j == 0 {
        lemma_hash_prefix_bound(a, i - 1);
        assert(false);
    } else {
        let ha = hash_prefix(a, i - 1)->Some_0;
        let hb = hash_prefix(b, j - 1)->Some_0;
        let va = char_value(a[i - 1])->Some_0;
        let vb = char_value(b[j - 1])->Some_0;
        lemma_hash_prefix_bound(a, i - 1);
        lemma_hash_prefix_bound(b, j - 1);
        assert(va == vb && ha == hb) by (nonlinear_arith)
            requires
                ha * 64 + va == hb * 64 + vb,
                0 <= ha,
                0 <= hb,
                1 <= va <= 36,
                1 <= vb <= 36;
        assert(a[i - 1] == b[j - 1]);
        lemma_hash_prefix_injective(a, b, i - 1, j - 1);
        assert(a.subrange(0, i) =~= a.subrange(0, i - 1).push(a[i - 1]));
        assert(b.subrange(0, j) =~= b.subrange(0, j - 1).push(b[j - 1]));
    }
}

/// The hash is injective: two hashable names with the same hash are
/// byte-for-byte the same name.  This is what makes the cached-hash
/// comparison in raw-text scanning an exact check rather than a mere
/// optimization.
pub proof fn lemma_name_hash_injective(a: Seq<u8>, b: Seq<u8>)
    requires
        name_hash(a) is Some,
        name_hash(a) == name_hash(b),
    ensures
        a == b,
{
    let ha = hash_prefix(a, a.len() as int)->Some_0;
    let hb = hash_prefix(b, b.len() as int)->Some_0;
    lemma_hash_prefix_bound(a, a.len() as int);
    lemma_hash_prefix_bound(b, b.len() as int);
    lemma_pow64_mono(a.len(), 10);
    lemma_pow64_mono(b.len(), 10);
    lemma_pow64_ten();
    assert(ha == hb);
    lemma_hash_prefix_injective(a, b, a.len() as int, b.len() as int);
    assert(a.subrange(0, a.len() as int) =~= a);
    assert(b.subrange(0, b.len() as int) =~= b);
}

/// An upper-case ASCII letter folded to lower case; any other byte is
/// kept as it is.  Tag names are matched case-insensitively.
pub open spec fn fold_byte_spec(b: u8) -> u8 {
    if 65 <= b && b <= 90 {
        (b + 32) as u8
    } else {
        b
    }
}

pub fn fold_byte(b: u8) -> (r: u8)
    ensures
        r == fold_byte_spec(b),
{
    if 65 <= b && b <= 90 {
        b + 32
    } else {
        b
    }
}

/// Computes the packed hash of a (case-folded) name.
pub fn tag_name_hash(name: &Vec<u8>) -> (r: Option<u64>)
    ensures
        r == name_hash(name@),
{
    if name.len() > MAX_HASHABLE_NAME_LEN {
        return None;
    }
    let mut h: u64 = 0;
    let mut i: usize = 0;
    proof {
        lemma_pow64_ten();
    }
    while i < name.len()
        invariant
            i <= name@.len() <= 10,
            hash_prefix(name@, i as int) == Some(h as int),
            h < pow64(i as nat),
            pow64(10) == 0x1000000000000000,
        decreases name@.len() - i,
    {
        let b = name[i];
        let v: u64 = if 48 <= b && b <= 57 {
            (b - 47) as u64
        } else if 97 <= b && b <= 122 {
            (b - 86) as u64
        } else {
            proof {
                lemma_hash_prefix_none(name@, i as int, name@.len() as int);
            }
            return None;
        };
        proof {
            lemma_pow64_mono((i + 1) as nat, 10);
            assert(h * 64 + v < pow64((i + 1) as nat)) by (nonlinear_arith)
                requires
                    0 <= h,
                    h < pow64(i as nat),
                    v <= 36,
                    pow64((i + 1) as nat) == 64 * pow64(i as nat);
        }
        h = h * 64 + v;
        i = i + 1;
    }
    Some(h)
}

} // verus!
