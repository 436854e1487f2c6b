//! Pure text transforms used when materializing templates: capitalization
//! of the project name, literal placeholder substitution, and anchored
//! field replacement in LaTeX documents.

use crate::text::{copy_bytes, matches_at, push_all, push_range};
use vstd::prelude::*;

verus! {

/// The ASCII-uppercase of a single byte: lower-case letters are shifted,
/// everything else (including bytes of multi-byte UTF-8 sequences) is kept.
pub open spec fn ascii_upper(b: u8) -> u8 {
    if 97 <= b && b <= 122 {
        (b - 32) as u8
    } else {
        b
    }
}

/// Text with only the first byte ASCII-uppercased.
pub open spec fn uppercase_first_spec(s: Seq<u8>) -> Seq<u8> {
    if s.len() == 0 {
        s
    } else {
        seq![ascii_upper(s[0])] + s.drop_first()
    }
}

/// Uppercase the first letter of `data`, leaving the rest unchanged.
pub fn uppercase_first(data: &Vec<u8>) -> (r: Vec<u8>)
    ensures
        r@ == uppercase_first_spec(data@),
{
    let mut r: Vec<u8> = Vec::new();
    let mut i: usize = 0;
    while i < data.len()
        invariant
            i <= data.len(),
            r@.len() == i,
            forall|k: int| 0 <= k < i ==> r@[k] == uppercase_first_spec(data@)[k],
        decreases data.len() - i,
    {
        let b = data[i];
        if i == 0 && 97 <= b && b <= 122 {
            r.push(b - 32);
        } else {
            r.push(b);
        }
        i += 1;
    }
    assert(r@ =~= uppercase_first_spec(data@));
    r
}

/// The text with every occurrence of `pat` replaced by `val`, scanning left
/// to right without rescanning replaced text. An empty pattern matches
/// nothing and leaves the text unchanged.
pub open spec fn replace_all_spec(t: Seq<u8>, pat: Seq<u8>, val: Seq<u8>) -> Seq<u8>
    decreases t.len(),
{
    if pat.len() == 0 || t.len() < pat.len() {
        t
    } else if t.take(pat.len() as int) == pat {
        val + replace_all_spec(t.skip(pat.len() as int), pat, val)
    } else {
        seq![t[0]] + replace_all_spec(t.drop_first(), pat, val)
    }
}

/// Replace every occurrence of the placeholder `pat` in `text` by `val`.
pub fn replace_all_literal(text: &Vec<u8>, pat: &Vec<u8>, val: &Vec<u8>) -> (r: Vec<u8>)
    ensures
        r@ == replace_all_spec(text@, pat@, val@),
{
    if pat.len() == 0 {
        return copy_bytes(text);
    }
    let n = text.len();
    let mut out: Vec<u8> = Vec::new();
    let mut i: usize = 0;
    proof {
        assert(text@.skip(0) =~= text@);
        assert(Seq::<u8>::empty() + replace_all_spec(text@, pat@, val@) =~= replace_all_spec(
            text@,
            pat@,
            val@,
        ));
    }
    while i < n
        invariant
            pat@.len() >= 1,
            i <= n,
            n == text@.len(),
            replace_all_spec(text@, pat@, val@) == out@ + replace_all_spec(
                text@.skip(i as int),
                pat@,
                val@,
            ),
        decreases n - i,
    {
        let ghost rest = text@.skip(i as int);
        if pat.len() <= n - i && matches_at(text, pat, i) {
            proof {
                assert(rest.take(pat@.len() as int) =~= text@.subrange(i as int, i + pat@.len()));
                assert(rest.skip(pat@.len() as int) =~= text@.skip(i + pat@.len()));
                assert(out@ + (val@ + replace_all_spec(text@.skip(i + pat@.len()), pat@, val@))
                    =~= (out@ + val@) + replace_all_spec(text@.skip(i + pat@.len()), pat@, val@));
            }
            push_all(&mut out, val);
            i = i + pat.len();
        } else {
            proof {
                if pat@.len() <= rest.len() {
                    assert(rest.take(pat@.len() as int) =~= text@.subrange(
                        i as int,
                        i + pat@.len(),
                    ));
                    assert(rest.take(pat@.len() as int) != pat@);
                } else {
                    // too little text is left for a match: the spec keeps it as is
                    assert(rest =~= seq![rest[0]] + rest.drop_first());
                }
                assert(rest.drop_first() =~= text@.skip(i + 1));
                assert(rest[0] == text@[i as int]);
                assert(out@ + (seq![text@[i as int]] + replace_all_spec(
                    text@.skip(i + 1),
                    pat@,
                    val@,
                )) =~= (out@ + seq![text@[i as int]]) + replace_all_spec(
                    text@.skip(i + 1),
                    pat@,
                    val@,
                ));
            }
            out.push(text[i]);
            i = i + 1;
        }
    }
    proof {
        assert(text@.skip(n as int) =~= Seq::<u8>::empty());
        assert(out@ + Seq::<u8>::empty() =~= out@);
    }
    out
}

/// The anchor that introduces a rewritable field: a backslash, the field
/// name, and an opening brace.
pub open spec fn anchor_pat(field: Seq<u8>) -> Seq<u8> {
    seq![92u8] + field + seq![123u8]  // "\" field "{"
}

/// A complete `\field{...}` construct sits in `t` at `i`, with its closing
/// brace at `j` and no brace inside the braces.
pub open spec fn anchor_match_at(t: Seq<u8>, field: Seq<u8>, i: int, j: int) -> bool {
    let p = anchor_pat(field);
    &&& 0 <= i
    &&& i + p.len() <= j < t.len()
    &&& t.subrange(i, i + p.len()) == p
    &&& t[j] == 125u8  // "}"
    &&& forall|k: int| i + p.len() <= k < j ==> t[k] != 125u8
}

/// A complete `\field{...}` construct starts in `t` at `i`.
pub open spec fn anchor_starts_at(t: Seq<u8>, field: Seq<u8>, i: int) -> bool {
    exists|j: int| anchor_match_at(t, field, i, j)
}

/// Some complete `\field{...}` construct occurs in `t`.
pub open spec fn has_anchor(t: Seq<u8>, field: Seq<u8>) -> bool {
    exists|i: int| anchor_starts_at(t, field, i)
}

/// The construct at `(i, j)` is the leftmost one in `t`.
pub open spec fn is_first_anchor(t: Seq<u8>, field: Seq<u8>, i: int, j: int) -> bool {
    &&& anchor_match_at(t, field, i, j)
    &&& forall|i2: int| 0 <= i2 < i ==> !anchor_starts_at(t, field, i2)
}

/// `t` with the construct at `(i, j)` rewritten to `\field{value}`; all
/// text before and after the construct is kept.
pub open spec fn anchor_replaced(t: Seq<u8>, field: Seq<u8>, value: Seq<u8>, i: int, j: int) -> Seq<
    u8,
> {
    t.take(i) + anchor_pat(field) + value + seq![125u8] + t.skip(j + 1)
}

/// Two constructs that are both leftmost are the same construct.
pub proof fn lemma_first_anchor_unique(
    t: Seq<u8>,
    field: Seq<u8>,
    i1: int,
    j1: int,
    i2: int,
    j2: int,
)
    requires
        is_first_anchor(t, field, i1, j1),
        is_first_anchor(t, field, i2, j2),
    ensures
        i1 == i2,
        j1 == j2,
{
    if i1 < i2 {
        assert(anchor_starts_at(t, field, i1));
        assert(false);
    }
    if i2 < i1 {
        assert(anchor_starts_at(t, field, i2));
        assert(false);
    }
    if j1 < j2 {
        assert(t[j1] == 125u8);
        assert(false);
    }
    if j2 < j1 {
        assert(t[j2] == 125u8);
        assert(false);
    }
}

/// The result of rewriting the first `\field{...}` construct to carry
/// `value`: the text unchanged when there is no such construct, else the
/// text with only that construct's content replaced.
pub open spec fn anchored_result(t: Seq<u8>, field: Seq<u8>, value: Seq<u8>) -> Seq<u8> {
    if has_anchor(t, field) {
        let (i, j) = choose|i: int, j: int| is_first_anchor(t, field, i, j);
        anchor_replaced(t, field, value, i, j)
    } else {
        t
    }
}

/// `pat` occurs in `t` starting at `i`.
pub open spec fn starts_with_at(t: Seq<u8>, pat: Seq<u8>, i: int) -> bool {
    &&& 0 <= i
    &&& i + pat.len() <= t.len()
    &&& t.subrange(i, i + pat.len()) == pat
}

/// Position of the first occurrence of `pat` in `text`, if any.
fn find_pattern(text: &Vec<u8>, pat: &Vec<u8>) -> (r: Option<usize>)
    requires
        pat@.len() >= 1,
    ensures
        match r {
            Some(i) => {
                &&& starts_with_at(text@, pat@, i as int)
                &&& forall|i2: int| 0 <= i2 < i ==> !starts_with_at(text@, pat@, i2)
            },
            None => forall|i2: int| !starts_with_at(text@, pat@, i2),
        },
{
    let n = text.len();
    let plen = pat.len();
    if plen > n {
        return None;
    }
    let mut i: usize = 0;
    while i <= n - plen
        invariant
            1 <= plen <= n,
            n == text@.len(),
            plen == pat@.len(),
            i <= n - plen + 1,
            forall|i2: int| 0 <= i2 < i ==> !starts_with_at(text@, pat@, i2),
        decreases n - plen - i + 1,
    {
        if matches_at(text, pat, i) {
            return Some(i);
        }
        proof {
            assert(!starts_with_at(text@, pat@, i as int));
        }
        i += 1;
    }
    None
}

/// Position of the first occurrence of byte `b` in `text` at or after
/// `from`, if any.
fn find_byte(text: &Vec<u8>, b: u8, from: usize) -> (r: Option<usize>)
    requires
        from <= text@.len(),
    ensures
        match r {
            Some(j) => {
                &&& from <= j < text@.len()
                &&& text@[j as int] == b
                &&& forall|k: int| from <= k < j ==> text@[k] != b
            },
            None => forall|k: int| from <= k < text@.len() ==> text@[k] != b,
        },
{
    let n = text.len();
    let mut j: usize = from;
    while j < n
        invariant
            from <= j <= n,
            n == text@.len(),
            forall|k: int| from <= k < j ==> text@[k] != b,
        decreases n - j,
    {
        if text[j] == b {
            return Some(j);
        }
        j += 1;
    }
    None
}

/// Replace the first complete `\field{...}` construct in `text` by
/// `\field{value}`. Later constructs, and all other text, are untouched;
/// a document without such a construct comes back unchanged.
pub fn replace_first_anchored(text: &Vec<u8>, field: &Vec<u8>, value: &Vec<u8>) -> (r: Vec<u8>)
    ensures
        r@ == anchored_result(text@, field@, value@),
        !has_anchor(text@, field@) ==> r@ == text@,
        has_anchor(text@, field@) ==> exists|i: int, j: int|
            #![trigger anchor_replaced(text@, field@, value@, i, j)]
            is_first_anchor(text@, field@, i, j) && r@ == anchor_replaced(
                text@,
                field@,
                value@,
                i,
                j,
            ),
{
    let mut pat: Vec<u8> = Vec::new();
    pat.push(92);  // "\"
    push_all(&mut pat, field);
    pat.push(123);  // "{"
    assert(pat@ =~= anchor_pat(field@));
    let n = text.len();
    match find_pattern(text, &pat) {
        None => {
            proof {
                assert(!has_anchor(text@, field@)) by {
                    if has_anchor(text@, field@) {
                        let i = choose|i: int| anchor_starts_at(text@, field@, i);
                        let j = choose|j: int| anchor_match_at(text@, field@, i, j);
                        assert(starts_with_at(text@, pat@, i));
                        assert(false);
                    }
                }
            }
            copy_bytes(text)
        },
        Some(i0) => {
            let plen = pat.len();
            match find_byte(text, 125, i0 + plen) {
                None => {
                    proof {
                        assert(!has_anchor(text@, field@)) by {
                            if has_anchor(text@, field@) {
                                let i = choose|i: int| anchor_starts_at(text@, field@, i);
                                let j = choose|j: int| anchor_match_at(text@, field@, i, j);
                                if i < i0 {
                                    assert(starts_with_at(text@, pat@, i));
                                } else {
                                    assert(text@[j] == 125u8 && i0 + plen <= j < text@.len());
                                }
                                assert(false);
                            }
                        }
                    }
                    copy_bytes(text)
                },
                Some(j0) => {
                    proof {
                        assert(anchor_match_at(text@, field@, i0 as int, j0 as int));
                        assert forall|i2: int| 0 <= i2 < i0 implies !anchor_starts_at(
                            text@,
                            field@,
                            i2,
                        ) by {
                            if anchor_starts_at(text@, field@, i2) {
                                let j2 = choose|j2: int|
                                    anchor_match_at(text@, field@, i2, j2);
                                assert(starts_with_at(text@, pat@, i2));
                            }
                        }
                        assert(is_first_anchor(text@, field@, i0 as int, j0 as int));
                        assert(anchor_starts_at(text@, field@, i0 as int));
                        assert(has_anchor(text@, field@));
                    }
                    let mut out: Vec<u8> = Vec::new();
                    push_range(&mut out, text, 0, i0);
                    push_all(&mut out, &pat);
                    push_all(&mut out, value);
                    out.push(125);  // "}"
                    push_range(&mut out, text, j0 + 1, n);
                    proof {
                        assert(text@.take(i0 as int) =~= text@.subrange(0, i0 as int));
                        assert(text@.skip(j0 + 1) =~= text@.subrange(j0 + 1, n as int));
                        assert(out@ =~= anchor_replaced(
                            text@,
                            field@,
                            value@,
                            i0 as int,
                            j0 as int,
                        ));
                        let (ic, jc) = choose|ic: int, jc: int|
                            is_first_anchor(text@, field@, ic, jc);
                        lemma_first_anchor_unique(
                            text@,
                            field@,
                            ic,
                            jc,
                            i0 as int,
                            j0 as int,
                        );
                    }
                    out
                },
            }
        },
    }
}

} // verus!
