//! Rewriting a PCK archive with the selected patches applied to its files.
use vstd::prelude::*;
use crate::edits::{patched_file, patch_file};
use crate::options::PatchOptions;
use crate::pck::{
    EntryView, ParseView, PckParse, PckIndex, HEADER_LEN, PCK_MAGIC, parse_pck, parse_index,
    entry_readable, stored_data, stored_bytes, pad_len, index_len, data_start,
    blocks_len, block_offset, rebuilt, layout_fits, blocks_fit, block_fits, header_bytes, index_bytes, blocks_bytes,
    record_bytes, zeros, u32_at, lemma_index_len_step, lemma_blocks_len_step, lemma_index_bytes_step,
    lemma_blocks_bytes_step, lemma_blocks_len_empty, lemma_index_len_empty, lemma_parse_entries_shape, push_u32_le, push_u64_le, push_zeros,
    push_empty_md5,
};
use crate::byteseq::push_all;
use crate::pck_laws::{rebuilt_index, lemma_rebuilt_reads_back};
use crate::edits::{selects_nothing, lemma_no_patch_keeps_content};

verus! {

/// The file contents of the rewritten archive: each entry's stored data of
/// archive `b` with the selected patches applied.
pub open spec fn file_contents(b: Seq<u8>, es: Seq<EntryView>, o: PatchOptions, limit: Seq<u8>) -> Seq<Seq<u8>> {
    Seq::new(es.len(), |i: int| patched_file(es[i].path, stored_data(b, es[i]), o, limit))
}

/// What rewriting an archive gives.
pub enum RewriteView {
    /// The rewritten archive.
    Rewritten(Seq<u8>),
    /// The input does not start with the PCK magic; nothing is written.
    NotPck,
    /// The input cannot be rewritten (truncated, unreadable entry, or an offset
    /// or size that does not fit in an `i64`).
    Failed,
}

/// The archive `b` rewritten with the patches `o` (FOV limit text `limit`).
pub open spec fn rewrite_archive(b: Seq<u8>, o: PatchOptions, limit: Seq<u8>) -> RewriteView {
    match parse_pck(b) {
        ParseView::Truncated => RewriteView::Failed,
        ParseView::NotPck => RewriteView::NotPck,
        ParseView::Parsed(h) => {
            let cs = file_contents(b, h.entries, o, limit);
            if !(forall|i: int| 0 <= i < h.entries.len() ==> #[trigger] entry_readable(h.entries[i])) {
                RewriteView::Failed
            } else if !layout_fits(h.entries, cs) {
                RewriteView::Failed
            } else {
                RewriteView::Rewritten(rebuilt(h, cs))
            }
        },
    }
}

/// What rewriting an archive gives.
pub enum PckRewrite {
    /// The rewritten archive.
    Rewritten(Vec<u8>),
    /// The input does not start with the PCK magic; nothing is written.
    NotPck,
    /// The input cannot be rewritten.
    Failed,
}

impl View for PckRewrite {
    type V = RewriteView;

    open spec fn view(&self) -> RewriteView {
        match self {
            PckRewrite::Rewritten(v) => RewriteView::Rewritten(v@),
            PckRewrite::NotPck => RewriteView::NotPck,
            PckRewrite::Failed => RewriteView::Failed,
        }
    }
}

/// `index_len` grows with the prefix it is taken over.
proof fn lemma_index_len_prefix(es: Seq<EntryView>, k: int)
    requires
        0 <= k <= es.len(),
    ensures
        index_len(es.take(k)) <= index_len(es),
    decreases es.len() - k,
{
    if k < es.len() {
        lemma_index_len_step(es, k);
        lemma_index_len_prefix(es, k + 1);
    } else {
        assert(es.take(k) =~= es);
    }
}

/// Every entry of `es` can be read.
pub open spec fn all_readable(es: Seq<EntryView>) -> bool {
    forall|i: int| 0 <= i < es.len() ==> #[trigger] entry_readable(es[i])
}

/// Whether every entry of `idx` can be read.
fn entries_readable(idx: &PckIndex) -> (r: bool)
    ensures
        r == all_readable(idx@.entries),
{
    let n = idx.entries.len();
    let mut i: usize = 0;
    while i < n
        invariant
            n == idx@.entries.len(),
            i <= n,
            forall|j: int| 0 <= j < i ==> #[trigger] entry_readable(idx@.entries[j]),
        decreases n - i,
    {
        let e = &idx.entries[i];
        if e.offset < 0 || e.size < -1 {
            assert(!entry_readable(idx@.entries[i as int]));
            return false;
        }
        i = i + 1;
    }
    true
}

/// The length of each file of `idx` once patched.
fn content_lengths(archive: &[u8], idx: &PckIndex, o: &PatchOptions, fov_limit: &[u8]) -> (lens: Vec<usize>)
    requires
        all_readable(idx@.entries),
    ensures
        lens@.len() == idx@.entries.len(),
        forall|j: int|
            0 <= j < lens@.len() ==> #[trigger] lens@[j] == file_contents(
                archive@,
                idx@.entries,
                *o,
                fov_limit@,
            )[j].len(),
{
    let ghost cs = file_contents(archive@, idx@.entries, *o, fov_limit@);
    let n = idx.entries.len();
    let mut lens: Vec<usize> = Vec::new();
    let mut i: usize = 0;
    while i < n
        invariant
            n == idx@.entries.len(),
            cs == file_contents(archive@, idx@.entries, *o, fov_limit@),
            i <= n,
            all_readable(idx@.entries),
            lens@.len() == i,
            forall|j: int| 0 <= j < i ==> #[trigger] lens@[j] == cs[j].len(),
        decreases n - i,
    {
        let e = &idx.entries[i];
        assert(e@ == idx@.entries[i as int]);
        assert(entry_readable(idx@.entries[i as int]));
        let stored = stored_bytes(archive, e);
        let content = patch_file(e.path.as_slice(), stored, o, fov_limit);
        lens.push(content.len());
        i = i + 1;
    }
    lens
}

/// Where the data of the rewritten archive starts, or `None` when the index
/// alone reaches past the largest `i64`.
fn data_start_of(idx: &PckIndex) -> (r: Option<(u128, u128)>)
    ensures
        r matches Some((n, s)) ==> n == HEADER_LEN + index_len(idx@.entries) && s == data_start(
            idx@.entries,
        ) && n <= s < 0x8000_0000_0000_0000 + 256,
        r is None ==> idx@.entries.len() > 0 && data_start(idx@.entries) >= 0x8000_0000_0000_0000,
{
    let ghost es = idx@.entries;
    let n = idx.entries.len();
    let mut total: u128 = 0;
    let mut i: usize = 0;
    proof {
        lemma_index_len_empty(es);
    }
    while i < n
        invariant
            n == es.len(),
            es == idx@.entries,
            i <= n,
            total == index_len(es.take(i as int)),
            total < 0x8000_0000_0000_0000,
        decreases n - i,
    {
        proof {
            lemma_index_len_step(es, i as int);
        }
        total = total + 36 + idx.entries[i].path.len() as u128;
        i = i + 1;
        if total >= 0x8000_0000_0000_0000 {
            proof {
                lemma_index_len_prefix(es, i as int);
            }
            return None;
        }
    }
    assert(es.take(n as int) =~= es);
    let before_pad = 88 + total;
    assert(before_pad == HEADER_LEN + index_len(es));
    let pad = (64 - before_pad % 64) % 64;
    assert(pad == pad_len(before_pad as int, 64));
    assert(0 <= pad < 64);
    Some((before_pad, before_pad + (64 - before_pad % 64) % 64))
}

/// Offsets of the data blocks whose lengths are `lens`, from `start` on, or
/// `None` when some offset or length does not fit in an `i64`.
fn block_offsets(start: u128, lens: &Vec<usize>, cs: Ghost<Seq<Seq<u8>>>) -> (r: Option<Vec<u64>>)
    requires
        start < 0x8000_0000_0000_0000 + 256,
        lens@.len() == cs@.len(),
        forall|j: int| 0 <= j < lens@.len() ==> #[trigger] lens@[j] == cs@[j].len(),
    ensures
        r is Some <==> blocks_fit(start as int, cs@),
        r matches Some(offs) ==> offs@.len() == cs@.len() && forall|j: int|
            0 <= j < offs@.len() ==> #[trigger] offs@[j] == block_offset(start as int, cs@, j),
{
    let n = lens.len();
    let mut offsets: Vec<u64> = Vec::new();
    let mut off: u128 = start;
    let mut i: usize = 0;
    proof {
        lemma_blocks_len_empty(cs@);
    }
    while i < n
        invariant
            n == lens@.len(),
            lens@.len() == cs@.len(),
            forall|j: int| 0 <= j < lens@.len() ==> #[trigger] lens@[j] == cs@[j].len(),
            i <= n,
            off == block_offset(start as int, cs@, i as int),
            off < 0x2_0000_0000_0000_0000,
            offsets@.len() == i,
            forall|j: int| 0 <= j < i ==> #[trigger] offsets@[j] == block_offset(start as int, cs@, j),
            forall|j: int| 0 <= j < i ==> #[trigger] block_fits(start as int, cs@, j),
        decreases n - i,
    {
        let len = lens[i] as u128;
        if off >= 0x8000_0000_0000_0000 || len >= 0x8000_0000_0000_0000 {
            assert(!block_fits(start as int, cs@, i as int));
            return None;
        }
        let ghost prev = offsets@;
        assert(block_fits(start as int, cs@, i as int));
        offsets.push(off as u64);
        proof {
            lemma_blocks_len_step(cs@, i as int);
            assert forall|j: int| 0 <= j < i + 1 implies #[trigger] offsets@[j] == block_offset(
                start as int,
                cs@,
                j,
            ) by {
                if j < i {
                    assert(offsets@[j] == prev[j]);
                }
            }
        }
        let pad = (4 - len % 4) % 4;
        assert(pad == pad_len(cs@[i as int].len() as int, 4));
        off = off + len + pad;
        i = i + 1;
    }
    assert(blocks_fit(start as int, cs@));
    Some(offsets)
}

/// The header and index of the rewritten archive.
fn write_index(idx: &PckIndex, lens: &Vec<usize>, offsets: &Vec<u64>, start: u128, cs: Ghost<Seq<Seq<u8>>>) -> (out: Vec<u8>)
    requires
        idx@.entries.len() <= u32::MAX,
        forall|j: int| 0 <= j < idx@.entries.len() ==> #[trigger] idx@.entries[j].path.len() <= u32::MAX,
        lens@.len() == idx@.entries.len(),
        offsets@.len() == idx@.entries.len(),
        cs@.len() == idx@.entries.len(),
        forall|j: int| 0 <= j < lens@.len() ==> #[trigger] lens@[j] == cs@[j].len(),
        forall|j: int| 0 <= j < offsets@.len() ==> #[trigger] offsets@[j] == block_offset(start as int, cs@, j),
    ensures
        out@ == header_bytes(idx@) + index_bytes(idx@.entries, cs@, start as int),
{
    let ghost h = idx@;
    let ghost es = h.entries;
    let n = idx.entries.len();
    let mut out: Vec<u8> = Vec::new();
    push_u32_le(&mut out, PCK_MAGIC);
    push_u32_le(&mut out, idx.version);
    push_u32_le(&mut out, idx.engine_major);
    push_u32_le(&mut out, idx.engine_minor);
    push_u32_le(&mut out, idx.engine_patch);
    push_all(&mut out, idx.reserved.as_slice());
    push_u32_le(&mut out, n as u32);
    assert(out@ =~= header_bytes(h));
    proof {
        if n > 0 {
            lemma_index_bytes_step(es, cs@, start as int, 0);
        } else {
            assert(es =~= Seq::<EntryView>::empty());
            reveal(index_bytes);
        }
    }
    assert(out@ =~= header_bytes(h) + index_bytes(es.take(0), cs@.take(0), start as int));
    let mut i: usize = 0;
    while i < n
        invariant
            n == es.len(),
            es == idx@.entries,
            h == idx@,
            n == lens@.len(),
            n == offsets@.len(),
            cs@.len() == n,
            forall|j: int| 0 <= j < n ==> #[trigger] lens@[j] == cs@[j].len(),
            forall|j: int| 0 <= j < n ==> #[trigger] offsets@[j] == block_offset(start as int, cs@, j),
            forall|j: int| 0 <= j < n ==> #[trigger] es[j].path.len() <= u32::MAX,
            i <= n,
            out@ == header_bytes(h) + index_bytes(es.take(i as int), cs@.take(i as int), start as int),
        decreases n - i,
    {
        let e = &idx.entries[i];
        assert(e@ == es[i as int]);
        let ghost before = out@;
        push_u32_le(&mut out, e.path.len() as u32);
        push_all(&mut out, e.path.as_slice());
        push_u64_le(&mut out, offsets[i]);
        push_u64_le(&mut out, lens[i] as u64);
        push_empty_md5(&mut out);
        proof {
            lemma_index_bytes_step(es, cs@, start as int, i as int);
            assert(out@ =~= before + record_bytes(
                es[i as int],
                start + blocks_len(cs@.take(i as int)),
                cs@[i as int].len() as int,
            ));
        }
        i = i + 1;
    }
    assert(es.take(n as int) =~= es);
    assert(cs@.take(n as int) =~= cs@);
    out
}

/// Appends the patched data blocks of `idx`, each padded to a multiple of 4.
fn write_blocks(out: &mut Vec<u8>, archive: &[u8], idx: &PckIndex, o: &PatchOptions, fov_limit: &[u8])
    requires
        all_readable(idx@.entries),
    ensures
        final(out)@ == old(out)@ + blocks_bytes(file_contents(archive@, idx@.entries, *o, fov_limit@)),
{
    let ghost cs = file_contents(archive@, idx@.entries, *o, fov_limit@);
    let n = idx.entries.len();
    let mut i: usize = 0;
    proof {
        if n > 0 {
            lemma_blocks_bytes_step(cs, 0);
        } else {
            assert(cs.take(0) =~= cs);
            reveal(blocks_bytes);
        }
    }
    assert(old(out)@ + blocks_bytes(cs.take(0)) =~= old(out)@);
    while i < n
        invariant
            n == idx@.entries.len(),
            cs == file_contents(archive@, idx@.entries, *o, fov_limit@),
            all_readable(idx@.entries),
            i <= n,
            out@ == old(out)@ + blocks_bytes(cs.take(i as int)),
        decreases n - i,
    {
        let e = &idx.entries[i];
        assert(e@ == idx@.entries[i as int]);
        assert(entry_readable(idx@.entries[i as int]));
        let stored = stored_bytes(archive, e);
        let content = patch_file(e.path.as_slice(), stored, o, fov_limit);
        let len = content.len();
        let ghost before = out@;
        push_all(out, content.as_slice());
        push_zeros(out, (4 - len % 4) % 4);
        proof {
            lemma_blocks_bytes_step(cs, i as int);
            assert(out@ =~= before + cs[i as int] + zeros(pad_len(cs[i as int].len() as int, 4)));
        }
        i = i + 1;
    }
    assert(cs.take(n as int) =~= cs);
}

/// The archive `archive` rewritten with the patches that `o` selects; `fov_limit`
/// is the text of the new FOV limit. The header fields and reserved bytes are
/// kept, every file keeps its path, its data is the stored data with the patches
/// applied, data starts at a multiple of 64 and each block is padded to 4 bytes.
pub fn patch_pck(archive: &[u8], o: &PatchOptions, fov_limit: &[u8]) -> (r: PckRewrite)
    ensures
        r@ == rewrite_archive(archive@, *o, fov_limit@),
{
    let idx = match parse_index(archive) {
        PckParse::Truncated => {
            return PckRewrite::Failed;
        },
        PckParse::NotPck => {
            return PckRewrite::NotPck;
        },
        PckParse::Parsed(idx) => idx,
    };
    let ghost h = idx@;
    let ghost es = h.entries;
    let ghost cs = file_contents(archive@, es, *o, fov_limit@);
    assert(parse_pck(archive@) == ParseView::Parsed(h));
    proof {
        lemma_parse_entries_shape(archive@, HEADER_LEN as int, u32_at(archive@, 84) as nat);
    }
    if !entries_readable(&idx) {
        return PckRewrite::Failed;
    }
    let lens = content_lengths(archive, &idx, o, fov_limit);
    let (before_pad, start) = match data_start_of(&idx) {
        Some(ns) => ns,
        None => {
            proof {
                lemma_blocks_len_empty(cs);
            }
            assert(block_offset(data_start(es), cs, 0) >= 0x8000_0000_0000_0000);
            assert(!block_fits(data_start(es), cs, 0));
            return PckRewrite::Failed;
        },
    };
    let offsets = match block_offsets(start, &lens, Ghost(cs)) {
        Some(offs) => offs,
        None => {
            return PckRewrite::Failed;
        },
    };
    let mut out = write_index(&idx, &lens, &offsets, start, Ghost(cs));
    push_zeros(&mut out, (start - before_pad) as usize);
    write_blocks(&mut out, archive, &idx, o, fov_limit);
    assert(out@ =~= rebuilt(h, cs));
    PckRewrite::Rewritten(out)
}

/// A rewritten archive reads back as an archive with the input archive's header
/// fields and reserved bytes and the same paths in the same order, and the data
/// stored for each file is that file's stored data in the input with the selected patches applied.
pub proof fn lemma_rewrite_reads_back(b: Seq<u8>, o: PatchOptions, limit: Seq<u8>)
    requires
        rewrite_archive(b, o, limit) is Rewritten,
    ensures
        parse_pck(b) is Parsed,
        ({
            let h = parse_pck(b)->Parsed_0;
            let out = rewrite_archive(b, o, limit)->Rewritten_0;
            let back = rebuilt_index(h, file_contents(b, h.entries, o, limit));
            &&& parse_pck(out) == ParseView::Parsed(back)
            &&& back.version == h.version && back.engine_major == h.engine_major
            &&& back.engine_minor == h.engine_minor && back.engine_patch == h.engine_patch
            &&& back.reserved == h.reserved
            &&& back.entries.len() == h.entries.len()
            &&& forall|k: int|
                0 <= k < h.entries.len() ==> (#[trigger] back.entries[k]).path == h.entries[k].path
                    && stored_data(out, back.entries[k]) == patched_file(
                    h.entries[k].path,
                    stored_data(b, h.entries[k]),
                    o,
                    limit,
                )
        }),
{
    lemma_parse_entries_shape(b, HEADER_LEN as int, u32_at(b, 84) as nat);
    let h = parse_pck(b)->Parsed_0;
    let cs = file_contents(b, h.entries, o, limit);
    lemma_rebuilt_reads_back(h, cs);
}

/// With no patch selected, a rewritten archive stores every file's data as the input stores it.
pub proof fn lemma_rewrite_without_patches(b: Seq<u8>, o: PatchOptions, limit: Seq<u8>)
    requires
        rewrite_archive(b, o, limit) is Rewritten,
        selects_nothing(o),
    ensures
        parse_pck(b) is Parsed,
        ({
            let h = parse_pck(b)->Parsed_0;
            let out = rewrite_archive(b, o, limit)->Rewritten_0;
            let back = rebuilt_index(h, file_contents(b, h.entries, o, limit));
            &&& parse_pck(out) == ParseView::Parsed(back)
            &&& forall|k: int|
                0 <= k < h.entries.len() ==> stored_data(out, #[trigger] back.entries[k])
                    == stored_data(b, h.entries[k])
        }),
{
    lemma_rewrite_reads_back(b, o, limit);
    let h = parse_pck(b)->Parsed_0;
    assert forall|k: int| 0 <= k < h.entries.len() implies patched_file(
        h.entries[k].path,
        stored_data(b, h.entries[k]),
        o,
        limit,
    ) == stored_data(b, h.entries[k]) by {
        lemma_no_patch_keeps_content(h.entries[k].path, stored_data(b, h.entries[k]), o, limit);
    }
}

} // verus!
