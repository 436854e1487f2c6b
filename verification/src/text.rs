//! Byte-string utilities shared by the rewriters and the materializer.
//!
//! All template payloads are handled as raw bytes, so that documents in any
//! encoding pass through unchanged except where a rewrite applies.

use vstd::prelude::*;
use vstd::string::StringSliceAdditionalSpecFns;
use vstd::utf8::{encode_utf8_valid_utf8, valid_utf8};

verus! {

/// The path separator used when composing file paths.
pub open spec fn sep() -> Seq<u8> {
    seq![47u8]  // "/"
}

/// `base`/`rel`: the two components joined by the path separator.
pub open spec fn joined(base: Seq<u8>, rel: Seq<u8>) -> Seq<u8> {
    base + sep() + rel
}

/// Convert a string literal to its byte payload (always valid UTF-8).
pub fn bytes_of(s: &str) -> (r: Vec<u8>)
    ensures
        r@ == s.spec_bytes(),
        valid_utf8(r@),
{
    proof {
        encode_utf8_valid_utf8(s@);
    }
    s.as_bytes_vec()
}

/// Byte-for-byte equality of two buffers.
pub fn bytes_eq(a: &Vec<u8>, b: &Vec<u8>) -> (r: bool)
    ensures
        r == (a@ == b@),
{
    if a.len() != b.len() {
        assert(a@ != b@);
        return false;
    }
    let mut i: usize = 0;
    while i < a.len()
        invariant
            i <= a.len(),
            a@.len() == b@.len(),
            forall|k: int| 0 <= k < i ==> a@[k] == b@[k],
        decreases a.len() - i,
    {
        if a[i] != b[i] {
            return false;
        }
        i += 1;
    }
    assert(a@ =~= b@);
    true
}

/// A fresh copy of a byte buffer.
pub fn copy_bytes(v: &Vec<u8>) -> (r: Vec<u8>)
    ensures
        r@ == v@,
{
    let mut r: Vec<u8> = Vec::new();
    push_all(&mut r, v);
    assert(r@ =~= v@);
    r
}

/// Append all of `v` to `out`.
pub fn push_all(out: &mut Vec<u8>, v: &Vec<u8>)
    ensures
        final(out)@ == old(out)@ + v@,
{
    let mut i: usize = 0;
    while i < v.len()
        invariant
            i <= v.len(),
            out@ == old(out)@ + v@.take(i as int),
        decreases v.len() - i,
    {
        out.push(v[i]);
        assert(old(out)@ + v@.take(i as int) + seq![v@[i as int]] =~= old(out)@ + v@.take(
            i as int + 1,
        ));
        i += 1;
    }
    assert(old(out)@ + v@.take(v@.len() as int) =~= old(out)@ + v@);
}

/// Append the bytes `v[from..to]` to `out`.
pub fn push_range(out: &mut Vec<u8>, v: &Vec<u8>, from: usize, to: usize)
    requires
        from <= to <= v@.len(),
    ensures
        final(out)@ == old(out)@ + v@.subrange(from as int, to as int),
{
    let mut i: usize = from;
    while i < to
        invariant
            from <= i <= to <= v@.len(),
            out@ == old(out)@ + v@.subrange(from as int, i as int),
        decreases to - i,
    {
        out.push(v[i]);
        assert(old(out)@ + v@.subrange(from as int, i as int) + seq![v@[i as int]] =~= old(out)@
            + v@.subrange(from as int, i as int + 1));
        i += 1;
    }
}

/// Join a base path and a relative component with the path separator.
pub fn join_path(base: &Vec<u8>, rel: &Vec<u8>) -> (r: Vec<u8>)
    ensures
        r@ == joined(base@, rel@),
{
    let mut r = copy_bytes(base);
    r.push(47);  // "/"
    push_all(&mut r, rel);
    assert(r@ =~= joined(base@, rel@));
    r
}

/// Whether `pat` occurs in `text` starting at index `i`.
pub fn matches_at(text: &Vec<u8>, pat: &Vec<u8>, i: usize) -> (r: bool)
    requires
        i + pat@.len() <= text@.len(),
    ensures
        r == (text@.subrange(i as int, i + pat@.len()) == pat@),
{
    let n = text.len();
    let mut k: usize = 0;
    while k < pat.len()
        invariant
            k <= pat@.len(),
            i + pat@.len() <= text@.len(),
            n == text@.len(),
            forall|k2: int| 0 <= k2 < k ==> text@[i + k2] == pat@[k2],
        decreases pat.len() - k,
    {
        if text[i + k] != pat[k] {
            assert(text@.subrange(i as int, i + pat@.len())[k as int] != pat@[k as int]);
            return false;
        }
        k += 1;
    }
    assert(text@.subrange(i as int, i + pat@.len()) =~= pat@);
    true
}

} // verus!
