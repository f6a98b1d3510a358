//! Byte-sequence primitives: search, replacement and UTF-8 "ignore" decoding.
use vstd::prelude::*;

verus! {

/// `needle` occurs in `hay` at index `i`.
pub open spec fn occurs_at(hay: Seq<u8>, needle: Seq<u8>, i: int) -> bool {
    &&& 0 <= i
    &&& i + needle.len() <= hay.len()
    &&& hay.subrange(i, i + needle.len()) == needle
}

/// `needle` occurs somewhere in `hay`.
pub open spec fn contains_seq(hay: Seq<u8>, needle: Seq<u8>) -> bool {
    exists|i: int| occurs_at(hay, needle, i)
}

/// Every non-overlapping occurrence of `old` replaced by `new`, scanning from the
/// left (an empty `old` leaves `s` as it is).
pub open spec fn replace_all(s: Seq<u8>, old: Seq<u8>, new: Seq<u8>) -> Seq<u8>
    decreases s.len(),
{
    if old.len() == 0 || s.len() < old.len() {
        s
    } else if s.subrange(0, old.len() as int) == old {
        new + replace_all(s.skip(old.len() as int), old, new)
    } else {
        seq![s[0]] + replace_all(s.skip(1), old, new)
    }
}

/// A sequence shorter than `old` is left as it is.
proof fn lemma_replace_short(s: Seq<u8>, old: Seq<u8>, new: Seq<u8>)
    requires
        s.len() < old.len(),
    ensures
        replace_all(s, old, new) == s,
{
}

/// Whether `needle` occurs in `hay` at index `i`.
pub fn matches_at(hay: &[u8], needle: &[u8], i: usize) -> (r: bool)
    requires
        i <= hay@.len(),
    ensures
        r == occurs_at(hay@, needle@, i as int),
{
    if needle.len() > hay.len() - i {
        return false;
    }
    let mut k: usize = 0;
    while k < needle.len()
        invariant
            k <= needle@.len(),
            i + needle@.len() <= hay@.len(),
            hay@.len() == hay.len(),
            forall|j: int| 0 <= j < k ==> hay@[i + j] == needle@[j],
        decreases needle@.len() - k,
    {
        if hay[i + k] != needle[k] {
            assert(hay@.subrange(i as int, i + needle@.len())[k as int] != needle@[k as int]);
            return false;
        }
        k = k + 1;
    }
    assert(hay@.subrange(i as int, i + needle@.len()) =~= needle@);
    true
}

/// Whether `needle` occurs anywhere in `hay`.
pub fn contains(hay: &[u8], needle: &[u8]) -> (r: bool)
    ensures
        r == contains_seq(hay@, needle@),
{
    if needle.len() > hay.len() {
        return false;
    }
    let last = hay.len() - needle.len();
    let mut i: usize = 0;
    while i < last
        invariant
            i <= last,
            last + needle@.len() == hay@.len(),
            forall|j: int| 0 <= j < i ==> !occurs_at(hay@, needle@, j),
        decreases last - i,
    {
        if matches_at(hay, needle, i) {
            return true;
        }
        i = i + 1;
    }
    let r = matches_at(hay, needle, last);
    assert(r ==> occurs_at(hay@, needle@, last as int));
    assert(!r ==> forall|j: int| !occurs_at(hay@, needle@, j));
    r
}

/// Appends `src[from..to]` to `out`.
pub fn push_range(out: &mut Vec<u8>, src: &[u8], from: usize, to: usize)
    requires
        from <= to <= src@.len(),
    ensures
        final(out)@ == old(out)@ + src@.subrange(from as int, to as int),
{
    let mut i = from;
    while i < to
        invariant
            from <= i <= to <= src@.len(),
            out@ == old(out)@ + src@.subrange(from as int, i as int),
        decreases to - i,
    {
        out.push(src[i]);
        i = i + 1;
        assert(out@ =~= old(out)@ + src@.subrange(from as int, i as int));
    }
}

/// Appends all of `src` to `out`.
pub fn push_all(out: &mut Vec<u8>, src: &[u8])
    ensures
        final(out)@ == old(out)@ + src@,
{
    push_range(out, src, 0, src.len());
    assert(src@.subrange(0, src@.len() as int) =~= src@);
}

/// `s` with every non-overlapping occurrence of `old` replaced by `new`.
pub fn replace_bytes(s: &[u8], old: &[u8], new: &[u8]) -> (r: Vec<u8>)
    ensures
        r@ == replace_all(s@, old@, new@),
{
    let mut out: Vec<u8> = Vec::new();
    if old.len() == 0 {
        push_all(&mut out, s);
        return out;
    }
    let mut i: usize = 0;
    assert(s@.skip(0) =~= s@);
    while i < s.len()
        invariant
            i <= s@.len(),
            old@.len() > 0,
            out@ + replace_all(s@.skip(i as int), old@, new@) == replace_all(s@, old@, new@),
        decreases s@.len() - i,
    {
        let ghost rest = s@.skip(i as int);
        if old.len() <= s.len() - i && matches_at(s, old, i) {
            assert(rest.subrange(0, old@.len() as int) =~= old@);
            assert(rest.skip(old@.len() as int) =~= s@.skip(i + old@.len()));
            push_all(&mut out, new);
            i = i + old.len();
            assert(out@ + replace_all(s@.skip(i as int), old@, new@) =~= replace_all(
                s@,
                old@,
                new@,
            ));
        } else {
            assert(rest.skip(1) =~= s@.skip(i + 1));
            if s.len() - i < old.len() {
                proof {
                    lemma_replace_short(rest, old@, new@);
                    lemma_replace_short(rest.skip(1), old@, new@);
                }
                assert(rest =~= seq![rest[0]] + rest.skip(1));
            } else {
                assert(rest.subrange(0, old@.len() as int) =~= s@.subrange(
                    i as int,
                    i + old@.len(),
                ));
            }
            out.push(s[i]);
            i = i + 1;
            assert(out@ + replace_all(s@.skip(i as int), old@, new@) =~= replace_all(
                s@,
                old@,
                new@,
            ));
        }
    }
    assert(s@.skip(i as int) =~= Seq::<u8>::empty());
    assert(out@ =~= out@ + replace_all(Seq::<u8>::empty(), old@, new@));
    out
}

/// A UTF-8 continuation byte.
pub open spec fn is_cont(b: u8) -> bool {
    0x80 <= b <= 0xBF
}

/// Length of the well-formed UTF-8 sequence that lead byte `b` announces
/// (0 when `b` cannot start one).
pub open spec fn lead_width(b: u8) -> nat {
    if b < 0x80 {
        1
    } else if 0xC2 <= b <= 0xDF {
        2
    } else if 0xE0 <= b <= 0xEF {
        3
    } else if 0xF0 <= b <= 0xF4 {
        4
    } else {
        0
    }
}

/// Whether `b1` may follow lead byte `b0` in a well-formed UTF-8 sequence
/// (this excludes overlong forms, surrogates and values above U+10FFFF).
pub open spec fn second_ok(b0: u8, b1: u8) -> bool {
    if b0 == 0xE0 {
        0xA0 <= b1 <= 0xBF
    } else if b0 == 0xED {
        0x80 <= b1 <= 0x9F
    } else if b0 == 0xF0 {
        0x90 <= b1 <= 0xBF
    } else if b0 == 0xF4 {
        0x80 <= b1 <= 0x8F
    } else {
        is_cont(b1)
    }
}

/// Number of bytes that the decoder consumes at the start of the nonempty `s`:
/// a whole well-formed sequence, or else the maximal prefix of one (at least 1).
pub open spec fn unit_len(s: Seq<u8>) -> nat {
    let w = lead_width(s[0]);
    if w <= 1 {
        1
    } else if s.len() < 2 || !second_ok(s[0], s[1]) {
        1
    } else if w == 2 || s.len() < 3 || !is_cont(s[2]) {
        2
    } else if w == 3 || s.len() < 4 || !is_cont(s[3]) {
        3
    } else {
        4
    }
}

/// Whether the unit at the start of the nonempty `s` is a well-formed sequence.
pub open spec fn unit_valid(s: Seq<u8>) -> bool {
    lead_width(s[0]) >= 1 && unit_len(s) == lead_width(s[0])
}

/// The bytes kept when `s` is decoded as UTF-8 with invalid parts dropped:
/// the well-formed sequences of `s`, in order (the UTF-8 of the decoded text).
pub open spec fn valid_utf8_parts(s: Seq<u8>) -> Seq<u8>
    decreases s.len(),
{
    if s.len() == 0 {
        s
    } else {
        let k = unit_len(s) as int;
        (if unit_valid(s) {
            s.subrange(0, k)
        } else {
            Seq::<u8>::empty()
        }) + valid_utf8_parts(s.skip(k))
    }
}

/// `s` without its trailing zero bytes.
pub open spec fn trim_trailing_nuls(s: Seq<u8>) -> Seq<u8>
    decreases s.len(),
{
    if s.len() > 0 && s.last() == 0 {
        trim_trailing_nuls(s.drop_last())
    } else {
        s
    }
}

fn lead_width_of(b: u8) -> (w: usize)
    ensures
        w == lead_width(b),
{
    if b < 0x80 {
        1
    } else if 0xC2 <= b && b <= 0xDF {
        2
    } else if 0xE0 <= b && b <= 0xEF {
        3
    } else if 0xF0 <= b && b <= 0xF4 {
        4
    } else {
        0
    }
}

fn second_ok_of(b0: u8, b1: u8) -> (r: bool)
    ensures
        r == second_ok(b0, b1),
{
    if b0 == 0xE0 {
        0xA0 <= b1 && b1 <= 0xBF
    } else if b0 == 0xED {
        0x80 <= b1 && b1 <= 0x9F
    } else if b0 == 0xF0 {
        0x90 <= b1 && b1 <= 0xBF
    } else if b0 == 0xF4 {
        0x80 <= b1 && b1 <= 0x8F
    } else {
        0x80 <= b1 && b1 <= 0xBF
    }
}

/// The decoder's unit at `s[i..]`: its length and whether it is well-formed.
fn unit_at(s: &[u8], i: usize) -> (r: (usize, bool))
    requires
        i < s@.len(),
    ensures
        r.0 == unit_len(s@.skip(i as int)),
        r.1 == unit_valid(s@.skip(i as int)),
{
    let ghost t = s@.skip(i as int);
    let n = s.len() - i;
    let w = lead_width_of(s[i]);
    let k: usize = if w <= 1 {
        1
    } else if n < 2 || !second_ok_of(s[i], s[i + 1]) {
        1
    } else if w == 2 || n < 3 || !(0x80 <= s[i + 2] && s[i + 2] <= 0xBF) {
        2
    } else if w == 3 || n < 4 || !(0x80 <= s[i + 3] && s[i + 3] <= 0xBF) {
        3
    } else {
        4
    };
    (k, w >= 1 && k == w)
}

/// The UTF-8 bytes of `s` decoded with invalid parts dropped.
pub fn valid_utf8_bytes(s: &[u8]) -> (r: Vec<u8>)
    ensures
        r@ == valid_utf8_parts(s@),
{
    let mut out: Vec<u8> = Vec::new();
    let mut i: usize = 0;
    assert(s@.skip(0) =~= s@);
    while i < s.len()
        invariant
            i <= s@.len(),
            out@ + valid_utf8_parts(s@.skip(i as int)) == valid_utf8_parts(s@),
        decreases s@.len() - i,
    {
        let (k, valid) = unit_at(s, i);
        let ghost rest = s@.skip(i as int);
        assert(rest.skip(k as int) =~= s@.skip(i + k));
        if valid {
            assert(rest.subrange(0, k as int) =~= s@.subrange(i as int, i + k));
            push_range(&mut out, s, i, i + k);
        }
        i = i + k;
        assert(out@ + valid_utf8_parts(s@.skip(i as int)) =~= valid_utf8_parts(s@));
    }
    assert(s@.skip(i as int) =~= Seq::<u8>::empty());
    assert(out@ + valid_utf8_parts(s@.skip(i as int)) =~= out@);
    out
}

/// Length of `s` once its trailing zero bytes are dropped.
pub fn trimmed_len(s: &[u8]) -> (n: usize)
    ensures
        n <= s@.len(),
        s@.subrange(0, n as int) == trim_trailing_nuls(s@),
{
    let mut n = s.len();
    assert(s@.subrange(0, n as int) =~= s@);
    while n > 0 && s[n - 1] == 0
        invariant
            n <= s@.len(),
            trim_trailing_nuls(s@.subrange(0, n as int)) == trim_trailing_nuls(s@),
        decreases n,
    {
        assert(s@.subrange(0, n as int).drop_last() =~= s@.subrange(0, n - 1));
        n = n - 1;
    }
    n
}

} // verus!
