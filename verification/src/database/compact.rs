//! Compact length prefixes.
//!
//! Every variable-length field of an encoded trie node is preceded by its
//! length as a SCALE compact unsigned integer. The bytes are produced and
//! read by `parity_scale_codec`; this module states what they are and proves
//! the facts about them that the node codec relies on.

use parity_scale_codec::{Compact, Decode, Encode};
use vstd::prelude::*;

verus! {

/// The decoding error of `parity_scale_codec`, carried through as an opaque value.
#[verifier::external_type_specification]
#[verifier::external_body]
pub struct ExScaleError(parity_scale_codec::Error);

/// Number of bytes of the compact encoding of `n`.
pub open spec fn compact_len(n: u32) -> nat {
    if n < 0x40 {
        1
    } else if n < 0x4000 {
        2
    } else if n < 0x4000_0000 {
        4
    } else {
        5
    }
}

/// The compact encoding of `n`: the two low bits of the first byte select
/// the width, the value follows little-endian, shifted left by two bits in
/// the one-, two- and four-byte modes and unshifted after a `0b11` byte in
/// the five-byte mode.
pub open spec fn compact_u32_bytes(n: u32) -> Seq<u8> {
    if n < 0x40 {
        seq![(4 * n) as u8]
    } else if n < 0x4000 {
        seq![((4 * n + 1) % 256) as u8, ((4 * n + 1) / 256) as u8]
    } else if n < 0x4000_0000 {
        seq![
            ((4 * n + 2) % 256) as u8,
            ((4 * n + 2) / 0x100 % 256) as u8,
            ((4 * n + 2) / 0x1_0000 % 256) as u8,
            ((4 * n + 2) / 0x100_0000) as u8,
        ]
    } else {
        seq![
            3u8,
            (n % 256) as u8,
            (n / 0x100 % 256) as u8,
            (n / 0x1_0000 % 256) as u8,
            (n / 0x100_0000) as u8,
        ]
    }
}

/// A field as it stands in an encoded node: its length as a compact
/// integer, then its bytes.
pub open spec fn length_prefixed(field: Seq<u8>) -> Seq<u8>
    recommends
        field.len() <= u32::MAX,
{
    compact_u32_bytes(field.len() as u32) + field
}

/// Calls `Compact::<u32>::encode` of `parity_scale_codec`. The contract
/// claims that the bytes returned are the compact encoding as
/// [`compact_u32_bytes`] spells it out.
#[verifier::external_body]
pub(crate) fn compact_encode(n: u32) -> (out: Vec<u8>)
    ensures
        out@ == compact_u32_bytes(n),
{
    Compact(n).encode()
}

/// Calls `Compact::<u32>::decode` of `parity_scale_codec` on a byte slice.
/// The contract claims that the decoder accepts exactly the inputs that
/// begin with the compact encoding of some `n`, and returns that `n`; an
/// encoding that is wider than its value needs is rejected like a
/// truncated one.
#[verifier::external_body]
pub(crate) fn compact_decode(data: &[u8]) -> (res: Result<u32, parity_scale_codec::Error>)
    ensures
        res matches Ok(n) ==> compact_u32_bytes(n).is_prefix_of(data@),
        res is Err ==> forall|n: u32| !(#[trigger] compact_u32_bytes(n)).is_prefix_of(data@),
{
    let mut input: &[u8] = data;
    Compact::<u32>::decode(&mut input).map(|c| c.0)
}

/// The encoding of `n` has [`compact_len`] bytes.
pub proof fn lemma_compact_len(n: u32)
    ensures
        compact_u32_bytes(n).len() == compact_len(n),
        1 <= compact_len(n) <= 5,
{
}

/// The number that an encoding stands for, read back from its bytes.
pub open spec fn compact_value(e: Seq<u8>) -> int
    recommends
        e.len() >= 1,
{
    if e[0] % 4 == 0 {
        e[0] as int / 4
    } else if e[0] % 4 == 1 {
        (e[0] as int + 256 * e[1] as int) / 4
    } else if e[0] % 4 == 2 {
        (e[0] as int + 0x100 * e[1] as int + 0x1_0000 * e[2] as int + 0x100_0000 * e[3] as int) / 4
    } else {
        e[1] as int + 0x100 * e[2] as int + 0x1_0000 * e[3] as int + 0x100_0000 * e[4] as int
    }
}

/// The width of an encoding, read from its first byte.
pub open spec fn width_of_first(first: u8) -> nat {
    if first % 4 == 0 {
        1
    } else if first % 4 == 1 {
        2
    } else if first % 4 == 2 {
        4
    } else {
        5
    }
}

/// The first byte of an encoding tells its width, and its bytes give the number back.
pub proof fn lemma_compact_value(n: u32)
    ensures
        width_of_first(compact_u32_bytes(n)[0]) == compact_len(n),
        compact_value(compact_u32_bytes(n)) == n,
{
    let e = compact_u32_bytes(n);
    if n < 0x40 {
        assert(e[0] == 4 * n);
    } else if n < 0x4000 {
        let x: int = 4 * n + 1;
        assert(e[0] == x % 256);
        assert(e[1] == x / 256);
        assert(x == 256 * (x / 256) + x % 256);
        assert((x % 256) % 4 == 1);
    } else if n < 0x4000_0000 {
        let x: int = 4 * n + 2;
        let b0 = x % 256;
        let r1 = x / 0x100;
        let b1 = r1 % 256;
        let r2 = r1 / 0x100;
        let b2 = r2 % 256;
        let b3 = r2 / 0x100;
        assert(x / 0x1_0000 == r2);
        assert(x / 0x100_0000 == b3);
        assert(e[0] == b0);
        assert(e[1] == b1);
        assert(e[2] == b2);
        assert(e[3] == b3);
        assert(x == b0 + 0x100 * b1 + 0x1_0000 * b2 + 0x100_0000 * b3);
        assert(b0 % 4 == 2);
    } else {
        let x: int = n as int;
        let b0 = x % 256;
        let r1 = x / 0x100;
        let b1 = r1 % 256;
        let r2 = r1 / 0x100;
        let b2 = r2 % 256;
        let b3 = r2 / 0x100;
        assert(x / 0x1_0000 == r2);
        assert(x / 0x100_0000 == b3);
        assert(e[0] == 3);
        assert(e[1] == b0);
        assert(e[2] == b1);
        assert(e[3] == b2);
        assert(e[4] == b3);
        assert(x == b0 + 0x100 * b1 + 0x1_0000 * b2 + 0x100_0000 * b3);
    }
}

/// No two numbers have encodings of which both begin the same byte string.
pub proof fn lemma_compact_prefix_unique(a: u32, b: u32, s: Seq<u8>)
    requires
        compact_u32_bytes(a).is_prefix_of(s),
        compact_u32_bytes(b).is_prefix_of(s),
    ensures
        a == b,
{
    let ea = compact_u32_bytes(a);
    let eb = compact_u32_bytes(b);
    lemma_compact_len(a);
    lemma_compact_len(b);
    lemma_compact_value(a);
    lemma_compact_value(b);
    assert(ea[0] == s.subrange(0, ea.len() as int)[0]);
    assert(eb[0] == s.subrange(0, eb.len() as int)[0]);
    assert(ea.len() == eb.len());
    assert(ea =~= eb);
}

/// Two length-prefixed fields that begin the same byte string are the same field.
pub proof fn lemma_length_prefixed_unique(f: Seq<u8>, g: Seq<u8>, s: Seq<u8>)
    requires
        f.len() <= u32::MAX,
        g.len() <= u32::MAX,
        length_prefixed(f).is_prefix_of(s),
        length_prefixed(g).is_prefix_of(s),
    ensures
        f == g,
{
    let cf = compact_u32_bytes(f.len() as u32);
    let cg = compact_u32_bytes(g.len() as u32);
    let lf = length_prefixed(f);
    let lg = length_prefixed(g);
    assert(cf.is_prefix_of(s)) by {
        assert(cf =~= lf.subrange(0, cf.len() as int));
        assert forall|i: int| 0 <= i < cf.len() implies cf[i] == s[i] by {
            assert(lf[i] == s.subrange(0, lf.len() as int)[i]);
        }
    }
    assert(cg.is_prefix_of(s)) by {
        assert(cg =~= lg.subrange(0, cg.len() as int));
        assert forall|i: int| 0 <= i < cg.len() implies cg[i] == s[i] by {
            assert(lg[i] == s.subrange(0, lg.len() as int)[i]);
        }
    }
    lemma_compact_prefix_unique(f.len() as u32, g.len() as u32, s);
    assert(f.len() == g.len());
    assert forall|i: int| 0 <= i < f.len() implies f[i] == g[i] by {
        let k = cf.len() + i;
        assert(lf[k] == s.subrange(0, lf.len() as int)[k]);
        assert(lg[k] == s.subrange(0, lg.len() as int)[k]);
        assert(lf[k] == f[i]);
        assert(lg[k] == g[i]);
    }
    assert(f =~= g);
}

/// The number whose compact encoding `s` begins with, if it begins with one.
pub open spec fn compact_prefix(s: Seq<u8>) -> Option<u32> {
    if exists|n: u32| (#[trigger] compact_u32_bytes(n)).is_prefix_of(s) {
        Some(choose|n: u32| (#[trigger] compact_u32_bytes(n)).is_prefix_of(s))
    } else {
        None
    }
}

/// A byte string that begins with the encoding of `n` begins with that of no other number.
pub proof fn lemma_compact_prefix(n: u32, s: Seq<u8>)
    requires
        compact_u32_bytes(n).is_prefix_of(s),
    ensures
        compact_prefix(s) == Some(n),
{
    let m = choose|m: u32| (#[trigger] compact_u32_bytes(m)).is_prefix_of(s);
    lemma_compact_prefix_unique(m, n, s);
}

/// A byte string that begins with `a + b` begins with `a`, and goes on with `b`.
pub proof fn lemma_prefix_split(a: Seq<u8>, b: Seq<u8>, s: Seq<u8>)
    requires
        (a + b).is_prefix_of(s),
    ensures
        a.is_prefix_of(s),
        b.is_prefix_of(s.skip(a.len() as int)),
{
    let ab = a + b;
    assert forall|i: int| 0 <= i < a.len() implies a[i] == s[i] by {
        assert(ab[i] == s.subrange(0, ab.len() as int)[i]);
    }
    assert(a =~= s.subrange(0, a.len() as int));
    let t = s.skip(a.len() as int);
    assert forall|i: int| 0 <= i < b.len() implies b[i] == t[i] by {
        assert(ab[a.len() + i] == s.subrange(0, ab.len() as int)[a.len() + i]);
    }
    assert(b =~= t.subrange(0, b.len() as int));
}

/// A byte string that begins with `a` and goes on with `b` begins with `a + b`.
pub proof fn lemma_prefix_join(a: Seq<u8>, b: Seq<u8>, s: Seq<u8>)
    requires
        a.is_prefix_of(s),
        b.is_prefix_of(s.skip(a.len() as int)),
    ensures
        (a + b).is_prefix_of(s),
{
    let ab = a + b;
    let t = s.skip(a.len() as int);
    assert forall|i: int| 0 <= i < ab.len() implies ab[i] == s[i] by {
        if i < a.len() {
            assert(a[i] == s.subrange(0, a.len() as int)[i]);
        } else {
            assert(b[i - a.len()] == t.subrange(0, b.len() as int)[i - a.len()]);
        }
    }
    assert(ab =~= s.subrange(0, ab.len() as int));
}

/// The width of the compact encoding of `n`.
pub fn compact_width(n: u32) -> (w: usize)
    ensures
        w == compact_len(n),
{
    if n < 0x40 {
        1
    } else if n < 0x4000 {
        2
    } else if n < 0x4000_0000 {
        4
    } else {
        5
    }
}

} // verus!
