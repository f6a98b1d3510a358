//! The Godot PCK archive: reading its index and writing it back with patched files.
use vstd::prelude::*;

verus! {

/// First four bytes of every PCK archive ("GDPC" read as a little-endian `u32`).
pub const PCK_MAGIC: u32 = 0x43504447;

/// Bytes before the file index: magic, format version, three engine version
/// numbers, 64 reserved bytes and the file count.
pub const HEADER_LEN: usize = 88;

/// The little-endian `u32` at `b[p..p + 4]`.
pub open spec fn u32_at(b: Seq<u8>, p: int) -> int {
    b[p] + b[p + 1] * 256 + b[p + 2] * 65536 + b[p + 3] * 16777216
}

/// The little-endian `u64` at `b[p..p + 8]`.
pub open spec fn u64_at(b: Seq<u8>, p: int) -> int {
    u32_at(b, p) + u32_at(b, p + 4) * 4294967296
}

/// The little-endian two's-complement `i64` at `b[p..p + 8]`.
pub open spec fn i64_at(b: Seq<u8>, p: int) -> int {
    let u = u64_at(b, p);
    if u < 0x8000_0000_0000_0000 {
        u
    } else {
        u - 0x1_0000_0000_0000_0000
    }
}

/// One file of the index as it is read: raw path bytes, data offset and size.
pub struct EntryView {
    pub path: Seq<u8>,
    pub offset: int,
    pub size: int,
}

/// The archive header and file index as they are read.
pub struct IndexView {
    pub version: u32,
    pub engine_major: u32,
    pub engine_minor: u32,
    pub engine_patch: u32,
    pub reserved: Seq<u8>,
    pub entries: Seq<EntryView>,
}

/// What reading an archive's index gives.
pub enum ParseView {
    /// The archive ends before its header or index does.
    Truncated,
    /// The first four bytes are not the PCK magic.
    NotPck,
    /// The header and index.
    Parsed(IndexView),
}

/// The `count` index records that start at `pos`: each is a `u32` path length,
/// the path, an `i64` offset, an `i64` size and up to 16 checksum bytes, which
/// are skipped (the last record may end the archive early within them).
pub open spec fn parse_entries(b: Seq<u8>, pos: int, count: nat) -> Option<Seq<EntryView>>
    decreases count,
{
    if count == 0 {
        Some(Seq::<EntryView>::empty())
    } else if pos + 4 > b.len() {
        None
    } else {
        let after_path = pos + 4 + u32_at(b, pos);
        if after_path + 16 > b.len() {
            None
        } else {
            let e = EntryView {
                path: b.subrange(pos + 4, after_path),
                offset: i64_at(b, after_path),
                size: i64_at(b, after_path + 8),
            };
            let next = if after_path + 32 <= b.len() {
                after_path + 32
            } else {
                b.len() as int
            };
            match parse_entries(b, next, (count - 1) as nat) {
                Some(rest) => Some(seq![e] + rest),
                None => None,
            }
        }
    }
}

/// The header and index of the archive `b`.
pub open spec fn parse_pck(b: Seq<u8>) -> ParseView {
    if b.len() < 4 {
        ParseView::Truncated
    } else if u32_at(b, 0) != PCK_MAGIC {
        ParseView::NotPck
    } else if b.len() < HEADER_LEN {
        ParseView::Truncated
    } else {
        match parse_entries(b, HEADER_LEN as int, u32_at(b, 84) as nat) {
            None => ParseView::Truncated,
            Some(entries) => ParseView::Parsed(
                IndexView {
                    version: u32_at(b, 4) as u32,
                    engine_major: u32_at(b, 8) as u32,
                    engine_minor: u32_at(b, 12) as u32,
                    engine_patch: u32_at(b, 16) as u32,
                    reserved: b.subrange(20, 84),
                    entries,
                },
            ),
        }
    }
}

/// One file of the index.
pub struct IndexEntry {
    /// Path bytes as stored (Godot pads them with zero bytes).
    pub path: Vec<u8>,
    /// Where the file's data starts.
    pub offset: i64,
    /// How many bytes of data the file has.
    pub size: i64,
}

impl View for IndexEntry {
    type V = EntryView;

    open spec fn view(&self) -> EntryView {
        EntryView { path: self.path@, offset: self.offset as int, size: self.size as int }
    }
}

/// The archive header and file index.
pub struct PckIndex {
    pub version: u32,
    pub engine_major: u32,
    pub engine_minor: u32,
    pub engine_patch: u32,
    /// The 64 reserved header bytes.
    pub reserved: Vec<u8>,
    pub entries: Vec<IndexEntry>,
}

impl View for PckIndex {
    type V = IndexView;

    open spec fn view(&self) -> IndexView {
        IndexView {
            version: self.version,
            engine_major: self.engine_major,
            engine_minor: self.engine_minor,
            engine_patch: self.engine_patch,
            reserved: self.reserved@,
            entries: self.entries@.map_values(|e: IndexEntry| e@),
        }
    }
}

/// What reading an archive's index gives.
pub enum PckParse {
    /// The archive ends before its header or index does.
    Truncated,
    /// The first four bytes are not the PCK magic.
    NotPck,
    /// The header and index.
    Parsed(PckIndex),
}

impl View for PckParse {
    type V = ParseView;

    open spec fn view(&self) -> ParseView {
        match self {
            PckParse::Truncated => ParseView::Truncated,
            PckParse::NotPck => ParseView::NotPck,
            PckParse::Parsed(i) => ParseView::Parsed(i@),
        }
    }
}

/// The little-endian `u32` at `b[p..p + 4]`.
pub fn read_u32(b: &[u8], p: usize) -> (r: u32)
    requires
        p + 4 <= b@.len(),
    ensures
        r == u32_at(b@, p as int),
{
    b[p] as u32 + (b[p + 1] as u32) * 256 + (b[p + 2] as u32) * 65536 + (b[p + 3] as u32)
        * 16777216
}

/// The little-endian `i64` at `b[p..p + 8]`.
pub fn read_i64(b: &[u8], p: usize) -> (r: i64)
    requires
        p + 8 <= b@.len(),
    ensures
        r == i64_at(b@, p as int),
{
    let n = b.len();
    let lo = read_u32(b, p) as u64;
    let hi = read_u32(b, p + 4) as u64;
    let u: u64 = lo + hi * 4294967296;
    if u < 0x8000_0000_0000_0000 {
        u as i64
    } else {
        (u - 0x8000_0000_0000_0000) as i64 + i64::MIN
    }
}

/// `Some(acc + rest)` where the rest parsed, else `None`.
pub open spec fn prepend_entries(acc: Seq<EntryView>, rest: Option<Seq<EntryView>>) -> Option<
    Seq<EntryView>,
> {
    match rest {
        Some(r) => Some(acc + r),
        None => None,
    }
}

/// The header and index of the archive `b`.
pub fn parse_index(b: &[u8]) -> (r: PckParse)
    ensures
        r@ == parse_pck(b@),
{
    if b.len() < 4 {
        return PckParse::Truncated;
    }
    if read_u32(b, 0) != PCK_MAGIC {
        return PckParse::NotPck;
    }
    if b.len() < HEADER_LEN {
        return PckParse::Truncated;
    }
    let count = read_u32(b, 84);
    let mut entries: Vec<IndexEntry> = Vec::new();
    let mut pos: usize = HEADER_LEN;
    let mut i: u32 = 0;
    while i < count
        invariant
            i <= count,
            count == u32_at(b@, 84),
            u32_at(b@, 0) == PCK_MAGIC,
            b@.len() >= HEADER_LEN,
            pos <= b@.len(),
            parse_entries(b@, HEADER_LEN as int, count as nat) == prepend_entries(
                entries@.map_values(|e: IndexEntry| e@),
                parse_entries(b@, pos as int, (count - i) as nat),
            ),
        decreases count - i,
    {
        if b.len() - pos < 4 {
            assert(parse_entries(b@, pos as int, (count - i) as nat) is None);
            return PckParse::Truncated;
        }
        let path_len = read_u32(b, pos) as usize;
        if path_len > b.len() - pos - 4 || b.len() - pos - 4 - path_len < 16 {
            assert(parse_entries(b@, pos as int, (count - i) as nat) is None);
            return PckParse::Truncated;
        }
        let after_path = pos + 4 + path_len;
        let path = vstd::slice::slice_to_vec(vstd::slice::slice_subrange(b, pos + 4, after_path));
        let offset = read_i64(b, after_path);
        let size = read_i64(b, after_path + 8);
        let entry = IndexEntry { path, offset, size };
        let ghost old_views = entries@.map_values(|e: IndexEntry| e@);
        entries.push(entry);
        assert(entries@.map_values(|e: IndexEntry| e@) =~= old_views + seq![entry@]);
        pos = if b.len() - after_path >= 32 {
            after_path + 32
        } else {
            b.len()
        };
        i = i + 1;
        assert(entries@.map_values(|e: IndexEntry| e@) + Seq::<EntryView>::empty()
            =~= entries@.map_values(|e: IndexEntry| e@));
    }
    assert(entries@.map_values(|e: IndexEntry| e@) + Seq::<EntryView>::empty()
        =~= entries@.map_values(|e: IndexEntry| e@));
    let reserved = vstd::slice::slice_to_vec(vstd::slice::slice_subrange(b, 20, 84));
    PckParse::Parsed(
        PckIndex {
            version: read_u32(b, 4),
            engine_major: read_u32(b, 8),
            engine_minor: read_u32(b, 12),
            engine_patch: read_u32(b, 16),
            reserved,
            entries,
        },
    )
}

/// The data of an index entry can be read: a negative offset
/// cannot be sought to, and a size below -1 cannot be read.
pub open spec fn entry_readable(e: EntryView) -> bool {
    e.offset >= 0 && e.size >= -1
}

/// The stored data of entry `e` in archive `b`: `e.size` bytes from `e.offset`
/// (all remaining bytes when the size is -1), cut short at the end of the archive.
pub open spec fn stored_data(b: Seq<u8>, e: EntryView) -> Seq<u8> {
    let start = if e.offset < b.len() {
        e.offset
    } else {
        b.len() as int
    };
    let stop = if e.size == -1 || e.offset + e.size > b.len() {
        b.len() as int
    } else {
        e.offset + e.size
    };
    b.subrange(start, stop)
}

/// Length of `n` zero bytes needed after a block of `n` bytes to reach a multiple of `align`.
pub open spec fn pad_len(n: int, align: int) -> int {
    (align - n % align) % align
}

/// `n` zero bytes.
pub open spec fn zeros(n: int) -> Seq<u8> {
    Seq::new(n as nat, |i: int| 0u8)
}

/// Little-endian bytes of `n` as a `u32`.
pub open spec fn u32_le(n: int) -> Seq<u8> {
    seq![
        (n % 256) as u8,
        (n / 256 % 256) as u8,
        (n / 65536 % 256) as u8,
        (n / 16777216 % 256) as u8,
    ]
}

/// Little-endian bytes of `n` as a `u64`.
pub open spec fn u64_le(n: int) -> Seq<u8> {
    u32_le(n % 4294967296) + u32_le(n / 4294967296)
}

/// MD5 digest of the empty input, which the rewritten index stores for every file.
pub open spec fn empty_md5() -> Seq<u8> {
    seq![
        0xd4u8, 0x1d, 0x8c, 0xd9, 0x8f, 0x00, 0xb2, 0x04,
        0xe9, 0x80, 0x09, 0x98, 0xec, 0xf8, 0x42, 0x7e,
    ]
}

/// Bytes of one index record.
pub open spec fn record_len(e: EntryView) -> int {
    4 + e.path.len() as int + 32
}

/// Bytes of the index records of `es`.
#[verifier::opaque]
pub open spec fn index_len(es: Seq<EntryView>) -> int
    decreases es.len(),
{
    if es.len() == 0 {
        0
    } else {
        index_len(es.drop_last()) + record_len(es.last())
    }
}

/// Where the rewritten archive's file data starts: after header and index,
/// padded to a multiple of 64.
pub open spec fn data_start(es: Seq<EntryView>) -> int {
    let n = HEADER_LEN + index_len(es);
    n + pad_len(n, 64)
}

/// Bytes taken by the data blocks `cs`, each padded to a multiple of 4.
#[verifier::opaque]
pub open spec fn blocks_len(cs: Seq<Seq<u8>>) -> int
    decreases cs.len(),
{
    if cs.len() == 0 {
        0
    } else {
        blocks_len(cs.drop_last()) + cs.last().len() + pad_len(cs.last().len() as int, 4)
    }
}

/// Offset of block `i` of `cs` in an archive whose data starts at `start`.
pub open spec fn block_offset(start: int, cs: Seq<Seq<u8>>, i: int) -> int {
    start + blocks_len(cs.take(i))
}

/// Header of the rewritten archive.
pub open spec fn header_bytes(h: IndexView) -> Seq<u8> {
    u32_le(PCK_MAGIC as int) + u32_le(h.version as int) + u32_le(h.engine_major as int) + u32_le(
        h.engine_minor as int,
    ) + u32_le(h.engine_patch as int) + h.reserved + u32_le(h.entries.len() as int)
}

/// One rewritten index record.
pub open spec fn record_bytes(e: EntryView, offset: int, size: int) -> Seq<u8> {
    u32_le(e.path.len() as int) + e.path + u64_le(offset) + u64_le(size) + empty_md5()
}

/// The rewritten index records of `es`, whose data blocks are `cs` from `start` on.
#[verifier::opaque]
pub open spec fn index_bytes(es: Seq<EntryView>, cs: Seq<Seq<u8>>, start: int) -> Seq<u8>
    decreases es.len(),
{
    if es.len() == 0 || cs.len() == 0 {
        Seq::<u8>::empty()
    } else {
        index_bytes(es.drop_last(), cs.drop_last(), start) + record_bytes(
            es.last(),
            start + blocks_len(cs.drop_last()),
            cs.last().len() as int,
        )
    }
}

/// The data blocks `cs`, each followed by zeros up to a multiple of 4 bytes.
#[verifier::opaque]
pub open spec fn blocks_bytes(cs: Seq<Seq<u8>>) -> Seq<u8>
    decreases cs.len(),
{
    if cs.len() == 0 {
        Seq::<u8>::empty()
    } else {
        blocks_bytes(cs.drop_last()) + cs.last() + zeros(pad_len(cs.last().len() as int, 4))
    }
}

/// The archive rebuilt from index `h` with file contents `cs`.
pub open spec fn rebuilt(h: IndexView, cs: Seq<Seq<u8>>) -> Seq<u8> {
    let n = HEADER_LEN + index_len(h.entries);
    header_bytes(h) + index_bytes(h.entries, cs, data_start(h.entries)) + zeros(pad_len(n, 64))
        + blocks_bytes(cs)
}

/// Every offset and size recorded for blocks `cs` placed from `start` on fits in an `i64`.
pub open spec fn blocks_fit(start: int, cs: Seq<Seq<u8>>) -> bool {
    forall|i: int| 0 <= i < cs.len() ==> #[trigger] block_fits(start, cs, i)
}

/// The offset and size recorded for block `i` of `cs` (placed from `start` on) fit in an `i64`.
pub open spec fn block_fits(start: int, cs: Seq<Seq<u8>>, i: int) -> bool {
    block_offset(start, cs, i) < 0x8000_0000_0000_0000 && cs[i].len() < 0x8000_0000_0000_0000
}

/// Every offset and size that the rebuilt index records fits in an `i64`.
pub open spec fn layout_fits(es: Seq<EntryView>, cs: Seq<Seq<u8>>) -> bool {
    blocks_fit(data_start(es), cs)
}

/// The records that `parse_entries` reads number `count`, and each path length fits in a `u32`.
pub proof fn lemma_parse_entries_shape(b: Seq<u8>, pos: int, count: nat)
    requires
        0 <= pos,
        parse_entries(b, pos, count) is Some,
    ensures
        parse_entries(b, pos, count).unwrap().len() == count,
        forall|j: int|
            0 <= j < count ==> #[trigger] parse_entries(b, pos, count).unwrap()[j].path.len()
                <= u32::MAX,
    decreases count,
{
    if count > 0 {
        let after_path = pos + 4 + u32_at(b, pos);
        let next = if after_path + 32 <= b.len() {
            after_path + 32
        } else {
            b.len() as int
        };
        lemma_parse_entries_shape(b, next, (count - 1) as nat);
        let rest = parse_entries(b, next, (count - 1) as nat).unwrap();
        let all = parse_entries(b, pos, count).unwrap();
        assert forall|j: int| 0 <= j < count implies #[trigger] all[j].path.len() <= u32::MAX by {
            if j > 0 {
                assert(all[j] == rest[j - 1]);
            } else {
                assert(u32_at(b, pos) <= u32::MAX);
                assert(all[0].path.len() == u32_at(b, pos));
            }
        }
    }
}

/// Appends the little-endian bytes of `v`.
pub fn push_u32_le(out: &mut Vec<u8>, v: u32)
    ensures
        final(out)@ == old(out)@ + u32_le(v as int),
{
    out.push((v % 256) as u8);
    out.push((v / 256 % 256) as u8);
    out.push((v / 65536 % 256) as u8);
    out.push((v / 16777216 % 256) as u8);
    assert(final(out)@ =~= old(out)@ + u32_le(v as int));
}

/// Appends the little-endian bytes of `v`.
pub fn push_u64_le(out: &mut Vec<u8>, v: u64)
    ensures
        final(out)@ == old(out)@ + u64_le(v as int),
{
    push_u32_le(out, (v % 4294967296) as u32);
    push_u32_le(out, (v / 4294967296) as u32);
    assert(final(out)@ =~= old(out)@ + u64_le(v as int));
}

/// Appends `n` zero bytes.
pub fn push_zeros(out: &mut Vec<u8>, n: usize)
    ensures
        final(out)@ == old(out)@ + zeros(n as int),
{
    let mut i: usize = 0;
    while i < n
        invariant
            i <= n,
            out@ == old(out)@ + zeros(i as int),
        decreases n - i,
    {
        out.push(0u8);
        i = i + 1;
        assert(out@ =~= old(out)@ + zeros(i as int));
    }
}

/// Appends the empty-input MD5 digest.
pub fn push_empty_md5(out: &mut Vec<u8>)
    ensures
        final(out)@ == old(out)@ + empty_md5(),
{
    out.push(0xd4u8);
    out.push(0x1du8);
    out.push(0x8cu8);
    out.push(0xd9u8);
    out.push(0x8fu8);
    out.push(0x00u8);
    out.push(0xb2u8);
    out.push(0x04u8);
    out.push(0xe9u8);
    out.push(0x80u8);
    out.push(0x09u8);
    out.push(0x98u8);
    out.push(0xecu8);
    out.push(0xf8u8);
    out.push(0x42u8);
    out.push(0x7eu8);
    assert(final(out)@ =~= old(out)@ + empty_md5());
}

/// The stored data of entry `e` in archive `b`.
pub fn stored_bytes(b: &[u8], e: &IndexEntry) -> (r: Vec<u8>)
    requires
        entry_readable(e@),
    ensures
        r@ == stored_data(b@, e@),
{
    let len = b.len() as u128;
    let off = e.offset as u128;
    let start: usize = if off < len {
        e.offset as usize
    } else {
        b.len()
    };
    let stop: usize = if e.size == -1 || off + e.size as u128 > len {
        b.len()
    } else {
        (off + e.size as u128) as usize
    };
    let mut out: Vec<u8> = Vec::new();
    crate::byteseq::push_range(&mut out, b, start, stop);
    assert(out@ =~= stored_data(b@, e@));
    out
}

/// `index_len` of an empty index, and of one more record.
pub proof fn lemma_index_len_step(es: Seq<EntryView>, i: int)
    requires
        0 <= i < es.len(),
    ensures
        index_len(es.take(0)) == 0,
        index_len(es.take(i + 1)) == index_len(es.take(i)) + record_len(es[i]),
{
    reveal(index_len);
    assert(es.take(i + 1).drop_last() =~= es.take(i));
    assert(es.take(i + 1).last() == es[i]);
}

/// `blocks_len` of no blocks, and of one more block.
pub proof fn lemma_blocks_len_step(cs: Seq<Seq<u8>>, i: int)
    requires
        0 <= i < cs.len(),
    ensures
        blocks_len(cs.take(0)) == 0,
        blocks_len(cs.take(i + 1)) == blocks_len(cs.take(i)) + cs[i].len() + pad_len(
            cs[i].len() as int,
            4,
        ),
{
    reveal(blocks_len);
    assert(cs.take(i + 1).drop_last() =~= cs.take(i));
    assert(cs.take(i + 1).last() == cs[i]);
}

/// `blocks_len` of no blocks is zero.
pub proof fn lemma_blocks_len_empty(cs: Seq<Seq<u8>>)
    ensures
        blocks_len(cs.take(0)) == 0,
{
    reveal(blocks_len);
}

/// `index_len` of no records is zero.
pub proof fn lemma_index_len_empty(es: Seq<EntryView>)
    ensures
        index_len(es.take(0)) == 0,
{
    reveal(index_len);
}

/// `index_bytes` of no records, and of one more record.
pub proof fn lemma_index_bytes_step(es: Seq<EntryView>, cs: Seq<Seq<u8>>, start: int, i: int)
    requires
        0 <= i < es.len(),
        i < cs.len(),
    ensures
        index_bytes(es.take(0), cs.take(0), start) == Seq::<u8>::empty(),
        index_bytes(es.take(i + 1), cs.take(i + 1), start) == index_bytes(
            es.take(i),
            cs.take(i),
            start,
        ) + record_bytes(es[i], start + blocks_len(cs.take(i)), cs[i].len() as int),
{
    reveal(index_bytes);
    assert(es.take(i + 1).drop_last() =~= es.take(i));
    assert(cs.take(i + 1).drop_last() =~= cs.take(i));
    assert(es.take(i + 1).last() == es[i]);
    assert(cs.take(i + 1).last() == cs[i]);
}

/// `blocks_bytes` of no blocks, and of one more block.
pub proof fn lemma_blocks_bytes_step(cs: Seq<Seq<u8>>, i: int)
    requires
        0 <= i < cs.len(),
    ensures
        blocks_bytes(cs.take(0)) == Seq::<u8>::empty(),
        blocks_bytes(cs.take(i + 1)) == blocks_bytes(cs.take(i)) + cs[i] + zeros(
            pad_len(cs[i].len() as int, 4),
        ),
{
    reveal(blocks_bytes);
    assert(cs.take(i + 1).drop_last() =~= cs.take(i));
    assert(cs.take(i + 1).last() == cs[i]);
}

} // verus!
