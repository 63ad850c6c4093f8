//! The canonical binary encoding that signed bytes are made of.
//!
//! Integers are written little-endian at a fixed width, variable-length
//! sequences carry a four-byte length prefix, and fixed-size byte arrays are
//! written as they are. A sequence longer than a four-byte length can count
//! cannot be encoded: the writers below report that instead of truncating.
use vstd::prelude::*;
use vstd::utf8::encode_utf8;

verus! {

/// The largest length a four-byte prefix can hold.
pub const MAX_PREFIXED_LEN: usize = 0xffff_ffff;

/// The `n` low-order bytes of `v`, least significant first.
pub open spec fn le_bytes(v: nat, n: nat) -> Seq<u8>
    decreases n,
{
    if n == 0 {
        Seq::empty()
    } else {
        seq![(v % 256) as u8] + le_bytes(v / 256, (n - 1) as nat)
    }
}

pub open spec fn enc_u32(v: nat) -> Seq<u8> {
    le_bytes(v, 4)
}

pub open spec fn enc_u64(v: nat) -> Seq<u8> {
    le_bytes(v, 8)
}

pub open spec fn enc_u128(v: nat) -> Seq<u8> {
    le_bytes(v, 16)
}

/// Whether a sequence of `len` elements can carry a length prefix.
pub open spec fn prefixable(len: nat) -> bool {
    len <= MAX_PREFIXED_LEN
}

/// A byte sequence behind its length prefix.
pub open spec fn enc_bytes(b: Seq<u8>) -> Seq<u8> {
    enc_u32(b.len()) + b
}

/// A string's UTF-8 bytes behind their length prefix.
pub open spec fn enc_str(s: Seq<char>) -> Seq<u8> {
    enc_bytes(encode_utf8(s))
}

/// Whether a string's UTF-8 bytes can carry a length prefix.
pub open spec fn str_prefixable(s: Seq<char>) -> bool {
    prefixable(encode_utf8(s).len())
}

/// An optional value: a zero byte when absent, a one byte and the value when present.
pub open spec fn enc_option(present: bool, value: Seq<u8>) -> Seq<u8> {
    if present {
        seq![1u8] + value
    } else {
        seq![0u8]
    }
}

/// The strings of `ss` one after the other, each behind its own prefix.
pub open spec fn enc_str_items(ss: Seq<Seq<char>>) -> Seq<u8>
    decreases ss.len(),
{
    if ss.len() == 0 {
        Seq::empty()
    } else {
        enc_str_items(ss.drop_last()) + enc_str(ss.last())
    }
}

/// A list of strings: its count, then each string.
pub open spec fn enc_str_list(ss: Seq<Seq<char>>) -> Seq<u8> {
    enc_u32(ss.len()) + enc_str_items(ss)
}

pub open spec fn strs_prefixable(ss: Seq<Seq<char>>) -> bool {
    prefixable(ss.len()) && forall|i: int| 0 <= i < ss.len() ==> str_prefixable(#[trigger] ss[i])
}

/// Appends the `n` low-order bytes of `v`, least significant first.
pub fn put_le(out: &mut Vec<u8>, v: u128, n: usize)
    requires
        n <= 16,
    ensures
        final(out)@ == old(out)@ + le_bytes(v as nat, n as nat),
{
    let ghost start = out@;
    let mut x: u128 = v;
    let mut i: usize = 0;
    while i < n
        invariant
            i <= n,
            start + le_bytes(v as nat, n as nat) == out@ + le_bytes(x as nat, (n - i) as nat),
        decreases n - i,
    {
        let ghost before = out@;
        out.push((x % 256) as u8);
        proof {
            let rest = le_bytes((x / 256) as nat, (n - i - 1) as nat);
            assert(le_bytes(x as nat, (n - i) as nat) == seq![(x as nat % 256) as u8] + rest);
            assert(out@ + rest =~= before + (seq![(x as nat % 256) as u8] + rest));
        }
        x = x / 256;
        i = i + 1;
    }
    assert(le_bytes(x as nat, 0) =~= Seq::<u8>::empty());
    assert(out@ + Seq::<u8>::empty() =~= out@);
}

pub fn put_u8(out: &mut Vec<u8>, v: u8)
    ensures
        final(out)@ == old(out)@.push(v),
{
    out.push(v);
}

pub fn put_u32(out: &mut Vec<u8>, v: u32)
    ensures
        final(out)@ == old(out)@ + enc_u32(v as nat),
{
    put_le(out, v as u128, 4);
}

pub fn put_u64(out: &mut Vec<u8>, v: u64)
    ensures
        final(out)@ == old(out)@ + enc_u64(v as nat),
{
    put_le(out, v as u128, 8);
}

pub fn put_u128(out: &mut Vec<u8>, v: u128)
    ensures
        final(out)@ == old(out)@ + enc_u128(v as nat),
{
    put_le(out, v, 16);
}

/// Appends the bytes of `b` as they are, with no prefix.
pub fn put_raw(out: &mut Vec<u8>, b: &[u8])
    ensures
        final(out)@ == old(out)@ + b@,
{
    let ghost start = out@;
    let mut i: usize = 0;
    while i < b.len()
        invariant
            i <= b@.len(),
            out@ == start + b@.subrange(0, i as int),
        decreases b@.len() - i,
    {
        out.push(b[i]);
        proof {
            assert(b@.subrange(0, i + 1) =~= b@.subrange(0, i as int).push(b@[i as int]));
        }
        i = i + 1;
    }
    assert(b@.subrange(0, b@.len() as int) =~= b@);
}

/// Appends `b` behind its length prefix; returns false, leaving `out` as it
/// was, when `b` is too long for the prefix.
pub fn put_bytes(out: &mut Vec<u8>, b: &[u8]) -> (ok: bool)
    ensures
        ok == prefixable(b@.len()),
        ok ==> final(out)@ == old(out)@ + enc_bytes(b@),
        !ok ==> final(out)@ == old(out)@,
{
    if b.len() > MAX_PREFIXED_LEN {
        return false;
    }
    put_u32(out, b.len() as u32);
    put_raw(out, b);
    assert(out@ =~= old(out)@ + enc_bytes(b@));
    true
}

/// Appends a string's UTF-8 bytes behind their length prefix; returns false,
/// leaving `out` as it was, when they are too long for the prefix.
pub fn put_str(out: &mut Vec<u8>, s: &str) -> (ok: bool)
    ensures
        ok == str_prefixable(s@),
        ok ==> final(out)@ == old(out)@ + enc_str(s@),
        !ok ==> final(out)@ == old(out)@,
{
    put_bytes(out, s.as_bytes())
}

/// Appends a list of strings; returns false, leaving `out` as it was, when
/// the list or one of its strings is too long for a prefix.
pub fn put_str_list(out: &mut Vec<u8>, ss: &Vec<String>) -> (ok: bool)
    ensures
        ok == strs_prefixable(ss@.map_values(|s: String| s@)),
        ok ==> final(out)@ == old(out)@ + enc_str_list(ss@.map_values(|s: String| s@)),
        !ok ==> final(out)@ == old(out)@,
{
    let ghost views = ss@.map_values(|s: String| s@);
    if ss.len() > MAX_PREFIXED_LEN {
        return false;
    }
    let mut j: usize = 0;
    while j < ss.len()
        invariant
            j <= ss@.len(),
            views == ss@.map_values(|s: String| s@),
            forall|k: int| 0 <= k < j ==> str_prefixable(#[trigger] views[k]),
        decreases ss@.len() - j,
    {
        assert(views[j as int] == ss@[j as int]@);
        if ss[j].as_str().as_bytes().len() > MAX_PREFIXED_LEN {
            assert(!str_prefixable(views[j as int]));
            return false;
        }
        assert(str_prefixable(views[j as int]));
        j = j + 1;
    }
    let mut body: Vec<u8> = Vec::new();
    put_u32(&mut body, ss.len() as u32);
    let mut i: usize = 0;
    while i < ss.len()
        invariant
            i <= ss@.len(),
            views == ss@.map_values(|s: String| s@),
            forall|k: int| 0 <= k < ss@.len() ==> str_prefixable(#[trigger] views[k]),
            body@ == enc_u32(ss@.len() as nat) + enc_str_items(views.subrange(0, i as int)),
        decreases ss@.len() - i,
    {
        assert(views[i as int] == ss@[i as int]@);
        let ok = put_str(&mut body, ss[i].as_str());
        assert(ok);
        proof {
            let pre = views.subrange(0, i + 1);
            assert(pre.drop_last() =~= views.subrange(0, i as int));
            assert(pre.last() == views[i as int]);
            assert(body@ =~= enc_u32(ss@.len() as nat) + enc_str_items(pre));
        }
        i = i + 1;
    }
    assert(views.subrange(0, ss@.len() as int) =~= views);
    put_raw(out, body.as_slice());
    true
}

} // verus!
