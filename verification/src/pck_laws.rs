//! What a rewritten archive reads back as.
use vstd::prelude::*;
use crate::pck::{
    EntryView, IndexView, ParseView, HEADER_LEN, PCK_MAGIC, u32_at, i64_at, u32_le, u64_le,
    empty_md5, record_len, record_bytes, index_len, index_bytes, blocks_len, blocks_bytes,
    block_offset, data_start, header_bytes, rebuilt, zeros, pad_len, parse_entries, parse_pck,
    stored_data, entry_readable, layout_fits, blocks_fit, block_fits, lemma_index_len_step,
    lemma_blocks_len_step, lemma_index_bytes_step, lemma_blocks_bytes_step,
};

verus! {

/// The little-endian bytes of a `u32` value read back as that value.
proof fn lemma_u32_le_roundtrip(n: int)
    requires
        0 <= n < 0x1_0000_0000,
    ensures
        u32_le(n).len() == 4,
        u32_at(u32_le(n), 0) == n,
{
    let v = n as u32;
    assert(v as int == (v % 256) as int + ((v / 256) % 256) as int * 256 + ((v / 65536) % 256) as int * 65536
        + ((v / 16777216) % 256) as int * 16777216) by (bit_vector);
}

/// The bytes of `s` from `p` on are those of `x`.
pub open spec fn holds_at(s: Seq<u8>, p: int, x: Seq<u8>) -> bool {
    0 <= p && p + x.len() <= s.len() && s.subrange(p, p + x.len()) == x
}

/// A `u32` read inside a copy of `x` reads as in `x`.
proof fn lemma_u32_at_holds(s: Seq<u8>, p: int, x: Seq<u8>, q: int)
    requires
        holds_at(s, p, x),
        0 <= q,
        q + 4 <= x.len(),
    ensures
        u32_at(s, p + q) == u32_at(x, q),
{
    assert(s[p + q] == s.subrange(p, p + x.len())[q]);
    assert(s[p + q + 1] == s.subrange(p, p + x.len())[q + 1]);
    assert(s[p + q + 2] == s.subrange(p, p + x.len())[q + 2]);
    assert(s[p + q + 3] == s.subrange(p, p + x.len())[q + 3]);
}

/// The little-endian bytes of a nonnegative `i64` value read back as that value.
proof fn lemma_u64_le_roundtrip(n: int)
    requires
        0 <= n < 0x8000_0000_0000_0000,
    ensures
        u64_le(n).len() == 8,
        i64_at(u64_le(n), 0) == n,
{
    let lo = n % 0x1_0000_0000;
    let hi = n / 0x1_0000_0000;
    assert(n == hi * 0x1_0000_0000 + lo && 0 <= lo < 0x1_0000_0000 && 0 <= hi < 0x1_0000_0000)
        by (nonlinear_arith)
        requires
            0 <= n < 0x8000_0000_0000_0000,
            lo == n % 0x1_0000_0000,
            hi == n / 0x1_0000_0000,
    ;
    lemma_u32_le_roundtrip(lo);
    lemma_u32_le_roundtrip(hi);
    let s = u64_le(n);
    assert(holds_at(s, 4, u32_le(hi))) by {
        assert(s.subrange(4, 8) =~= u32_le(hi));
    }
    assert(holds_at(s, 0, u32_le(lo))) by {
        assert(s.subrange(0, 4) =~= u32_le(lo));
    }
    lemma_u32_at_holds(s, 4, u32_le(hi), 0);
    lemma_u32_at_holds(s, 0, u32_le(lo), 0);
}

/// An `i64` read inside a copy of `x` reads as in `x`.
proof fn lemma_i64_at_holds(s: Seq<u8>, p: int, x: Seq<u8>, q: int)
    requires
        holds_at(s, p, x),
        0 <= q,
        q + 8 <= x.len(),
    ensures
        i64_at(s, p + q) == i64_at(x, q),
{
    lemma_u32_at_holds(s, p, x, q);
    lemma_u32_at_holds(s, p, x, q + 4);
}

/// A copy of `x` at `p` holds every part of `x` at the matching place.
proof fn lemma_holds_part(s: Seq<u8>, p: int, x: Seq<u8>, a: int, b: int)
    requires
        holds_at(s, p, x),
        0 <= a <= b <= x.len(),
    ensures
        holds_at(s, p + a, x.subrange(a, b)),
{
    assert(s.subrange(p + a, p + b) =~= x.subrange(a, b));
}

/// Parts of a record: the path length, the path, the offset and the size.
#[verifier::rlimit(40)]
proof fn lemma_record_parts(e: EntryView, off: int, size: int)
    requires
        e.path.len() <= u32::MAX,
        0 <= off < 0x8000_0000_0000_0000,
        0 <= size < 0x8000_0000_0000_0000,
    ensures
        record_bytes(e, off, size).len() == record_len(e),
        record_bytes(e, off, size).subrange(0, 4) == u32_le(e.path.len() as int),
        record_bytes(e, off, size).subrange(4, 4 + e.path.len() as int) == e.path,
        record_bytes(e, off, size).subrange(4 + e.path.len() as int, 12 + e.path.len() as int) == u64_le(off),
        record_bytes(e, off, size).subrange(12 + e.path.len() as int, 20 + e.path.len() as int) == u64_le(size),
{
    let n = e.path.len() as int;
    lemma_u32_le_roundtrip(n);
    lemma_u64_le_roundtrip(off);
    lemma_u64_le_roundtrip(size);
    let a = u32_le(n);
    let b = u64_le(off);
    let c = u64_le(size);
    let r = record_bytes(e, off, size);
    assert(r == a + e.path + b + c + empty_md5());
    assert(r.subrange(0, 4) =~= a);
    assert(r.subrange(4, 4 + n) =~= e.path);
    assert(r.subrange(4 + n, 12 + n) =~= b);
    assert(r.subrange(12 + n, 20 + n) =~= c);
}

/// Reading a record written by `record_bytes` at `p` gives back its path, offset and size.
pub proof fn lemma_read_record(s: Seq<u8>, p: int, e: EntryView, off: int, size: int)
    requires
        holds_at(s, p, record_bytes(e, off, size)),
        e.path.len() <= u32::MAX,
        0 <= off < 0x8000_0000_0000_0000,
        0 <= size < 0x8000_0000_0000_0000,
    ensures
        record_bytes(e, off, size).len() == record_len(e),
        u32_at(s, p) == e.path.len(),
        s.subrange(p + 4, p + 4 + e.path.len() as int) == e.path,
        i64_at(s, p + 4 + e.path.len() as int) == off,
        i64_at(s, p + 12 + e.path.len() as int) == size,
{
    let r = record_bytes(e, off, size);
    let n = e.path.len() as int;
    lemma_record_parts(e, off, size);
    lemma_u32_le_roundtrip(n);
    lemma_u64_le_roundtrip(off);
    lemma_u64_le_roundtrip(size);
    lemma_holds_part(s, p, r, 0, 4);
    lemma_u32_at_holds(s, p, u32_le(n), 0);
    lemma_holds_part(s, p, r, 4, 4 + n);
    lemma_holds_part(s, p, r, 4 + n, 12 + n);
    lemma_i64_at_holds(s, p + 4 + n, u64_le(off), 0);
    lemma_holds_part(s, p, r, 12 + n, 20 + n);
    lemma_i64_at_holds(s, p + 12 + n, u64_le(size), 0);
}

/// A record is as long as `record_len` says.
proof fn lemma_record_len(e: EntryView, off: int, size: int)
    ensures
        record_bytes(e, off, size).len() == record_len(e),
{
}

/// The index bytes of the first `i` records are `index_len` long.
proof fn lemma_index_bytes_len(es: Seq<EntryView>, cs: Seq<Seq<u8>>, start: int, i: int)
    requires
        0 <= i <= es.len(),
        es.len() == cs.len(),
    ensures
        index_bytes(es.take(i), cs.take(i), start).len() == index_len(es.take(i)),
    decreases i,
{
    if i == 0 {
        if es.len() > 0 {
            lemma_index_bytes_step(es, cs, start, 0);
            lemma_index_len_step(es, 0);
        } else {
            reveal(index_bytes);
            reveal(index_len);
        }
    } else {
        lemma_index_bytes_len(es, cs, start, i - 1);
        lemma_index_bytes_step(es, cs, start, i - 1);
        lemma_index_len_step(es, i - 1);
        lemma_record_len(es[i - 1], start + blocks_len(cs.take(i - 1)), cs[i - 1].len() as int);
    }
}

/// Record `k` of `es`, with its offset and size in the rebuilt index.
pub open spec fn record_of(es: Seq<EntryView>, cs: Seq<Seq<u8>>, start: int, k: int) -> Seq<u8> {
    record_bytes(es[k], block_offset(start, cs, k), cs[k].len() as int)
}

/// Record `k` lies in the index bytes of the first `m` records, at `index_len` of the first `k`.
proof fn lemma_index_record_at(es: Seq<EntryView>, cs: Seq<Seq<u8>>, start: int, k: int, m: int)
    requires
        0 <= k < m <= es.len(),
        es.len() == cs.len(),
    ensures
        holds_at(index_bytes(es.take(m), cs.take(m), start), index_len(es.take(k)), record_of(es, cs, start, k)),
    decreases m,
{
    lemma_index_bytes_step(es, cs, start, m - 1);
    lemma_index_bytes_len(es, cs, start, m - 1);
    let prev = index_bytes(es.take(m - 1), cs.take(m - 1), start);
    let whole = index_bytes(es.take(m), cs.take(m), start);
    if k == m - 1 {
        let r = record_of(es, cs, start, k);
        assert(whole.subrange(prev.len() as int, prev.len() + r.len() as int) =~= r);
    } else {
        lemma_index_record_at(es, cs, start, k, m - 1);
        let r = record_of(es, cs, start, k);
        let p = index_len(es.take(k));
        assert(whole.subrange(p, p + r.len()) =~= prev.subrange(p, p + r.len()));
    }
}

/// The data blocks of the first `i` files are `blocks_len` long.
proof fn lemma_blocks_bytes_len(cs: Seq<Seq<u8>>, i: int)
    requires
        0 <= i <= cs.len(),
    ensures
        blocks_bytes(cs.take(i)).len() == blocks_len(cs.take(i)),
    decreases i,
{
    if i == 0 {
        reveal(blocks_bytes);
        reveal(blocks_len);
    } else {
        lemma_blocks_bytes_len(cs, i - 1);
        lemma_blocks_bytes_step(cs, i - 1);
        lemma_blocks_len_step(cs, i - 1);
    }
}

/// Block `k` lies in the data of the first `m` files, at `blocks_len` of the first `k`.
proof fn lemma_block_at(cs: Seq<Seq<u8>>, k: int, m: int)
    requires
        0 <= k < m <= cs.len(),
    ensures
        holds_at(blocks_bytes(cs.take(m)), blocks_len(cs.take(k)), cs[k]),
    decreases m,
{
    lemma_blocks_bytes_step(cs, m - 1);
    lemma_blocks_bytes_len(cs, m - 1);
    let prev = blocks_bytes(cs.take(m - 1));
    let whole = blocks_bytes(cs.take(m));
    if k == m - 1 {
        assert(whole.subrange(prev.len() as int, prev.len() + cs[k].len() as int) =~= cs[k]);
    } else {
        lemma_block_at(cs, k, m - 1);
        let p = blocks_len(cs.take(k));
        assert(whole.subrange(p, p + cs[k].len()) =~= prev.subrange(p, p + cs[k].len()));
    }
}

/// A copy of `y` inside a copy of `x` is a copy of `y` in the outer sequence.
proof fn lemma_holds_nested(s: Seq<u8>, p: int, x: Seq<u8>, q: int, y: Seq<u8>)
    requires
        holds_at(s, p, x),
        holds_at(x, q, y),
    ensures
        holds_at(s, p + q, y),
{
    assert(s.subrange(p + q, p + q + y.len()) =~= x.subrange(q, q + y.len()));
}

/// Blocks never take a negative number of bytes.
proof fn lemma_blocks_len_nonneg(cs: Seq<Seq<u8>>, k: int)
    requires
        0 <= k <= cs.len(),
    ensures
        blocks_len(cs.take(k)) >= 0,
    decreases k,
{
    if k == 0 {
        reveal(blocks_len);
    } else {
        lemma_blocks_len_nonneg(cs, k - 1);
        lemma_blocks_len_step(cs, k - 1);
    }
}

/// The entries that a rebuilt index reads back as: same paths, the new
/// offsets, and the sizes of the new contents.
pub open spec fn rebuilt_entries(es: Seq<EntryView>, cs: Seq<Seq<u8>>, start: int) -> Seq<EntryView> {
    Seq::new(
        es.len(),
        |k: int| EntryView { path: es[k].path, offset: block_offset(start, cs, k), size: cs[k].len() as int },
    )
}

/// Record `k` sits where the rebuilt index puts it.
pub open spec fn record_in_place(out: Seq<u8>, es: Seq<EntryView>, cs: Seq<Seq<u8>>, start: int, k: int) -> bool {
    holds_at(out, HEADER_LEN + index_len(es.take(k)), record_of(es, cs, start, k))
}

/// The index records from `i` on read back as `rebuilt_entries`.
proof fn lemma_parse_rebuilt_entries(out: Seq<u8>, es: Seq<EntryView>, cs: Seq<Seq<u8>>, start: int, i: int)
    requires
        0 <= i <= es.len(),
        es.len() == cs.len(),
        0 <= start,
        forall|k: int| 0 <= k < es.len() ==> #[trigger] es[k].path.len() <= u32::MAX,
        blocks_fit(start, cs),
        forall|k: int| 0 <= k < es.len() ==> #[trigger] record_in_place(out, es, cs, start, k),
    ensures
        parse_entries(out, HEADER_LEN + index_len(es.take(i)), (es.len() - i) as nat) == Some(
            rebuilt_entries(es, cs, start).subrange(i, es.len() as int),
        ),
    decreases es.len() - i,
{
    let want = rebuilt_entries(es, cs, start);
    if i < es.len() {
        let pos = HEADER_LEN + index_len(es.take(i));
        let off = block_offset(start, cs, i);
        let size = cs[i].len() as int;
        assert(record_in_place(out, es, cs, start, i));
        assert(block_fits(start, cs, i));
        lemma_blocks_len_nonneg(cs, i);
        lemma_read_record(out, pos, es[i], off, size);
        lemma_index_len_step(es, i);
        lemma_parse_rebuilt_entries(out, es, cs, start, i + 1);
        let n = es[i].path.len() as int;
        let e = EntryView { path: out.subrange(pos + 4, pos + 4 + n), offset: i64_at(out, pos + 4 + n), size: i64_at(out, pos + 12 + n) };
        assert(e == want[i]);
        assert(want.subrange(i, es.len() as int) =~= seq![want[i]] + want.subrange(i + 1, es.len() as int));
    } else {
        assert(want.subrange(i, es.len() as int) =~= Seq::<EntryView>::empty());
    }
}

/// The index that a rebuilt archive reads back as.
pub open spec fn rebuilt_index(h: IndexView, cs: Seq<Seq<u8>>) -> IndexView {
    IndexView {
        version: h.version,
        engine_major: h.engine_major,
        engine_minor: h.engine_minor,
        engine_patch: h.engine_patch,
        reserved: h.reserved,
        entries: rebuilt_entries(h.entries, cs, data_start(h.entries)),
    }
}

/// The header of a rebuilt archive reads back as its fields.
#[verifier::rlimit(40)]
proof fn lemma_header_reads_back(out: Seq<u8>, h: IndexView)
    requires
        h.reserved.len() == 64,
        h.entries.len() <= u32::MAX,
        holds_at(out, 0, header_bytes(h)),
    ensures
        header_bytes(h).len() == HEADER_LEN,
        u32_at(out, 0) == PCK_MAGIC,
        u32_at(out, 4) == h.version,
        u32_at(out, 8) == h.engine_major,
        u32_at(out, 12) == h.engine_minor,
        u32_at(out, 16) == h.engine_patch,
        out.subrange(20, 84) == h.reserved,
        u32_at(out, 84) == h.entries.len(),
{
    let hb = header_bytes(h);
    lemma_u32_le_roundtrip(PCK_MAGIC as int);
    lemma_u32_le_roundtrip(h.version as int);
    lemma_u32_le_roundtrip(h.engine_major as int);
    lemma_u32_le_roundtrip(h.engine_minor as int);
    lemma_u32_le_roundtrip(h.engine_patch as int);
    lemma_u32_le_roundtrip(h.entries.len() as int);
    assert(hb.subrange(0, 4) =~= u32_le(PCK_MAGIC as int));
    assert(hb.subrange(4, 8) =~= u32_le(h.version as int));
    assert(hb.subrange(8, 12) =~= u32_le(h.engine_major as int));
    assert(hb.subrange(12, 16) =~= u32_le(h.engine_minor as int));
    assert(hb.subrange(16, 20) =~= u32_le(h.engine_patch as int));
    assert(hb.subrange(20, 84) =~= h.reserved);
    assert(hb.subrange(84, 88) =~= u32_le(h.entries.len() as int));
    lemma_holds_part(out, 0, hb, 0, 4);
    lemma_holds_part(out, 0, hb, 4, 8);
    lemma_holds_part(out, 0, hb, 8, 12);
    lemma_holds_part(out, 0, hb, 12, 16);
    lemma_holds_part(out, 0, hb, 16, 20);
    lemma_holds_part(out, 0, hb, 20, 84);
    lemma_holds_part(out, 0, hb, 84, 88);
    lemma_u32_at_holds(out, 0, u32_le(PCK_MAGIC as int), 0);
    lemma_u32_at_holds(out, 4, u32_le(h.version as int), 0);
    lemma_u32_at_holds(out, 8, u32_le(h.engine_major as int), 0);
    lemma_u32_at_holds(out, 12, u32_le(h.engine_minor as int), 0);
    lemma_u32_at_holds(out, 16, u32_le(h.engine_patch as int), 0);
    lemma_u32_at_holds(out, 84, u32_le(h.entries.len() as int), 0);
}

/// A rebuilt archive reads back as an archive with the same header fields and
/// reserved bytes, the same paths in the same order, each file at its new offset
/// with its new size, and the data stored there for file `k` is `cs[k]`.
pub proof fn lemma_rebuilt_reads_back(h: IndexView, cs: Seq<Seq<u8>>)
    requires
        h.reserved.len() == 64,
        h.entries.len() == cs.len(),
        h.entries.len() <= u32::MAX,
        forall|k: int| 0 <= k < h.entries.len() ==> #[trigger] h.entries[k].path.len() <= u32::MAX,
        layout_fits(h.entries, cs),
    ensures
        parse_pck(rebuilt(h, cs)) == ParseView::Parsed(rebuilt_index(h, cs)),
        forall|k: int|
            0 <= k < cs.len() ==> stored_data(
                rebuilt(h, cs),
                #[trigger] rebuilt_index(h, cs).entries[k],
            ) == cs[k] && entry_readable(rebuilt_index(h, cs).entries[k]),
{
    let es = h.entries;
    let n = es.len() as int;
    let start = data_start(es);
    let out = rebuilt(h, cs);
    let hb = header_bytes(h);
    let ib = index_bytes(es, cs, start);
    let il = index_len(es);
    let pad = pad_len(HEADER_LEN + il, 64);
    let bb = blocks_bytes(cs);
    assert(es.take(n) =~= es);
    assert(cs.take(n) =~= cs);
    lemma_index_bytes_len(es, cs, start, n);
    lemma_blocks_bytes_len(cs, n);
    assert(hb.len() == HEADER_LEN);
    assert(out == hb + ib + zeros(pad) + bb);
    assert(0 <= pad < 64);
    assert(start == HEADER_LEN + il + pad);
    assert(holds_at(out, 0, hb)) by {
        assert(out.subrange(0, hb.len() as int) =~= hb);
    }
    assert(holds_at(out, HEADER_LEN as int, ib)) by {
        assert(out.subrange(HEADER_LEN as int, HEADER_LEN + ib.len()) =~= ib);
    }
    assert(holds_at(out, start, bb)) by {
        assert(out.subrange(start, start + bb.len()) =~= bb);
    }
    lemma_header_reads_back(out, h);
    assert forall|k: int| 0 <= k < n implies #[trigger] record_in_place(out, es, cs, start, k) by {
        lemma_index_record_at(es, cs, start, k, n);
        lemma_holds_nested(out, HEADER_LEN as int, ib, index_len(es.take(k)), record_of(es, cs, start, k));
    }
    assert(start >= 0) by {
        reveal(index_len);
        lemma_index_len_nonneg(es, n);
    }
    lemma_index_len_zero(es);
    lemma_parse_rebuilt_entries(out, es, cs, start, 0);
    let want = rebuilt_entries(es, cs, start);
    assert(want.subrange(0, n) =~= want);
    assert(parse_pck(out) == ParseView::Parsed(rebuilt_index(h, cs)));
    assert forall|k: int| 0 <= k < cs.len() implies stored_data(out, #[trigger] rebuilt_index(h, cs).entries[k])
        == cs[k] && entry_readable(rebuilt_index(h, cs).entries[k]) by {
        lemma_block_at(cs, k, n);
        lemma_holds_nested(out, start, bb, blocks_len(cs.take(k)), cs[k]);
        lemma_blocks_len_nonneg(cs, k);
        let e = want[k];
        assert(e.offset == start + blocks_len(cs.take(k)));
        assert(out.subrange(e.offset, e.offset + cs[k].len()) == cs[k]);
    }
}

/// The index of the first `k` records is never negative in length.
proof fn lemma_index_len_nonneg(es: Seq<EntryView>, k: int)
    requires
        0 <= k <= es.len(),
    ensures
        index_len(es.take(k)) >= 0,
    decreases k,
{
    if k == 0 {
        reveal(index_len);
    } else {
        lemma_index_len_nonneg(es, k - 1);
        lemma_index_len_step(es, k - 1);
    }
}

/// No records take no index bytes.
proof fn lemma_index_len_zero(es: Seq<EntryView>)
    ensures
        index_len(es.take(0)) == 0,
{
    reveal(index_len);
}

/// A length padded with `pad_len` is a multiple of the alignment.
proof fn lemma_pad_aligns(n: int, align: int)
    requires
        n >= 0,
        align > 0,
    ensures
        (n + pad_len(n, align)) % align == 0,
        0 <= pad_len(n, align) < align,
{
    let r = n % align;
    let q = n / align;
    assert(n == q * align + r && 0 <= r < align) by (nonlinear_arith)
        requires
            align > 0,
            r == n % align,
            q == n / align,
    ;
    if r == 0 {
        assert(align % align == 0) by (nonlinear_arith)
            requires
                align > 0,
        ;
        assert(pad_len(n, align) == 0);
        assert(n % align == 0);
    } else {
        assert((align - r) % align == align - r) by (nonlinear_arith)
            requires
                0 < align - r < align,
        ;
        assert(pad_len(n, align) == align - r);
        assert(n + align - r == (q + 1) * align) by (nonlinear_arith)
            requires
                n == q * align + r,
        ;
        assert(((q + 1) * align) % align == 0) by (nonlinear_arith)
            requires
                align > 0,
        ;
    }
}

/// The data blocks of a rebuilt archive start at a multiple of 64 bytes, and
/// every block starts at a multiple of 4 bytes.
pub proof fn lemma_rebuilt_alignment(es: Seq<EntryView>, cs: Seq<Seq<u8>>, k: int)
    requires
        0 <= k <= cs.len(),
    ensures
        data_start(es) % 64 == 0,
        block_offset(data_start(es), cs, k) % 4 == 0,
    decreases k,
{
    lemma_index_len_nonneg(es, es.len() as int);
    assert(es.take(es.len() as int) =~= es);
    lemma_pad_aligns(HEADER_LEN + index_len(es), 64);
    let start = data_start(es);
    if k == 0 {
        reveal(blocks_len);
        assert(cs.take(0) =~= Seq::<Seq<u8>>::empty());
        assert(start % 4 == 0) by (nonlinear_arith)
            requires
                start % 64 == 0,
        ;
    } else {
        lemma_rebuilt_alignment(es, cs, k - 1);
        lemma_blocks_len_step(cs, k - 1);
        lemma_pad_aligns(cs[k - 1].len() as int, 4);
        let a = block_offset(start, cs, k - 1);
        let l = cs[k - 1].len() + pad_len(cs[k - 1].len() as int, 4);
        assert((a + l) % 4 == 0) by (nonlinear_arith)
            requires
                a % 4 == 0,
                l % 4 == 0,
        ;
    }
}

} // verus!
