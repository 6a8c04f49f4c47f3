//! Position-independent relocation over a word-granular image.
//!
//! The loaded program is modelled as a vector of machine words; an address is
//! a word index.  Two relocation engines exist, one per executable format:
//! the ELF engine writes `base + addend` into every listed word, the PE
//! engine adds the load delta to every word listed by a base-relocation
//! block with the 64-bit-pointer kind.  Either pass must run exactly once,
//! strictly before anything reads a relocated word; the `relocated` flag of
//! [`Image`] carries that ordering guarantee through the call graph.  Making
//! the patched pages writable for the pass's duration — the engine marks the
//! whole image read-write-execute rather than computing precise section
//! bounds — is host work outside this model, where every word is writable.

use vstd::prelude::*;

use crate::machine::{wadd, word_add, wsub};

verus! {

/// The loaded program's words, together with the one-shot relocation state.
/// `relocated` is false from load until the single relocation pass completes;
/// no word that the relocation table lists may be read before then.
pub struct Image {
    pub words: Vec<u64>,
    pub relocated: bool,
}

impl Image {
    /// A freshly loaded image: its words as the loader placed them, the
    /// relocation pass still owed.
    pub fn new(words: Vec<u64>) -> (img: Image)
        ensures
            img.words@ == words@,
            !img.relocated,
    {
        Image { words, relocated: false }
    }

    pub fn len(&self) -> (n: usize)
        ensures
            n == self.words@.len(),
    {
        self.words.len()
    }

    /// Reads a pointer-sized word.  Reading is only allowed once the
    /// relocation pass has run: before that, an address-valued word may
    /// still hold its link-time value.
    pub fn read_word(&self, at: usize) -> (w: u64)
        requires
            self.relocated,
            at < self.words@.len(),
        ensures
            w == self.words@[at as int],
    {
        self.words[at]
    }
}

/// One entry of an ELF relocation table: the word it patches and the explicit
/// addend.  A non-preemptible position-independent executable only ever emits
/// the absolute-address kind, so the kind is not carried.
pub struct ElfRelocEntry {
    pub offset: usize,
    pub addend: u64,
}

/// An ELF relocation table is well formed for an image of `image_len` words
/// when every entry patches a word of the image and no two entries patch the
/// same word (the linker lists each location once).
pub open spec fn elf_table_wf(t: Seq<ElfRelocEntry>, image_len: int) -> bool {
    &&& forall|k: int| 0 <= k < t.len() ==> (#[trigger] t[k]).offset < image_len
    &&& forall|k1: int, k2: int|
        0 <= k1 < k2 < t.len() ==> t[k1].offset != t[k2].offset
}

/// Whether one of the first `n` entries of the table patches word `i`.
pub open spec fn elf_lists_within(t: Seq<ElfRelocEntry>, n: int, i: int) -> bool {
    exists|k: int| 0 <= k < n && (#[trigger] t[k]).offset == i
}

/// Whether the table patches word `i` at all.
pub open spec fn elf_lists(t: Seq<ElfRelocEntry>, i: int) -> bool {
    elf_lists_within(t, t.len() as int, i)
}

/// The ELF relocation pass: walks the table in order and writes
/// `base + addend` (wrapping, as the hardware adds) into each listed word.
/// Afterwards every listed word holds its link-time value (the addend, since
/// the image links at base zero) plus the actual load address, and every
/// other word is untouched.
pub fn relocate_elf(image: &mut Image, base: u64, table: &Vec<ElfRelocEntry>)
    requires
        !old(image).relocated,
        elf_table_wf(table@, old(image).words@.len() as int),
    ensures
        final(image).relocated,
        final(image).words@.len() == old(image).words@.len(),
        forall|k: int|
            0 <= k < table@.len() ==> final(image).words@[(#[trigger] table@[k]).offset as int]
                == wadd(base, table@[k].addend),
        forall|i: int|
            0 <= i < old(image).words@.len() && !elf_lists(table@, i)
                ==> final(image).words@[i] == old(image).words@[i],
{
    let ghost orig = image.words@;
    let n = table.len();
    let mut j: usize = 0;
    while j < n
        invariant
            n == table@.len(),
            j <= n,
            image.words@.len() == orig.len(),
            elf_table_wf(table@, orig.len() as int),
            forall|k: int|
                0 <= k < j ==> image.words@[(#[trigger] table@[k]).offset as int]
                    == wadd(base, table@[k].addend),
            forall|i: int|
                0 <= i < orig.len() && !elf_lists_within(table@, j as int, i)
                    ==> image.words@[i] == orig[i],
        decreases n - j,
    {
        let off = table[j].offset;
        let v = word_add(base, table[j].addend);
        image.words.set(off, v);
        proof {
            assert forall|i: int|
                0 <= i < orig.len() && !elf_lists_within(table@, j + 1, i)
                    implies image.words@[i] == orig[i] by {
                assert(table@[j as int].offset != i);
                assert(!elf_lists_within(table@, j as int, i));
            }
        }
        j += 1;
    }
    image.relocated = true;
}

/// The relocation kind the build emits: the base-relative absolute-address
/// kind, the only kind a non-preemptible position-independent executable
/// ever carries.
pub const ELF_KIND_RELATIVE: u64 = 8;

/// The target offset of the `k`-th metadata entry of a table that starts at
/// word `t` of the image `w`: entries are (offset, kind, addend) word
/// triples, as the dynamic metadata lays them down.
pub open spec fn rela_offset(w: Seq<u64>, t: int, k: int) -> int {
    w[t + 3 * k] as int
}

/// The kind word of the `k`-th metadata entry.
pub open spec fn rela_kind(w: Seq<u64>, t: int, k: int) -> u64 {
    w[t + 3 * k + 1]
}

/// The addend of the `k`-th metadata entry.
pub open spec fn rela_addend(w: Seq<u64>, t: int, k: int) -> u64 {
    w[t + 3 * k + 2]
}

/// In-image ELF relocation metadata of `count` entries at word `t` is well
/// formed when the table lies inside the image, every entry carries the
/// absolute-address kind (any other kind is outside the contract of the
/// build, excluded here rather than checked at run time), every target is a
/// word of the image but not a word of the table itself, and no two entries
/// patch the same word.
pub open spec fn rela_metadata_wf(w: Seq<u64>, t: int, count: int, image_len: int) -> bool {
    &&& t >= 0
    &&& t + 3 * count <= image_len
    &&& forall|k: int| 0 <= k < count ==> #[trigger] rela_kind(w, t, k) == ELF_KIND_RELATIVE
    &&& forall|k: int|
        0 <= k < count ==> 0 <= #[trigger] rela_offset(w, t, k) < image_len && !(t <= rela_offset(
            w,
            t,
            k,
        ) < t + 3 * count)
    &&& forall|k1: int, k2: int|
        0 <= k1 < k2 < count ==> rela_offset(w, t, k1) != rela_offset(w, t, k2)
}

/// Whether one of the first `n` metadata entries patches word `i`.
pub open spec fn rela_lists_within(w: Seq<u64>, t: int, n: int, i: int) -> bool {
    exists|k: int| 0 <= k < n && #[trigger] rela_offset(w, t, k) == i
}

/// The ELF relocation pass as the entry stub invokes it: the table is not
/// handed over as values but walked inside the image itself, `count`
/// (offset, kind, addend) word triples from word `t` — the dynamic metadata
/// the stub's second argument points at.  Every target lies outside the
/// table, so the walk always reads unpatched metadata; afterwards every
/// listed word holds `base + addend` computed from the metadata as it was
/// placed, and every other word, the table included, is untouched.
pub fn relocate_elf_in_image(image: &mut Image, base: u64, t: usize, count: usize)
    requires
        !old(image).relocated,
        rela_metadata_wf(old(image).words@, t as int, count as int, old(image).words@.len() as int),
    ensures
        final(image).relocated,
        final(image).words@.len() == old(image).words@.len(),
        forall|k: int|
            0 <= k < count ==> final(image).words@[#[trigger] rela_offset(
                old(image).words@,
                t as int,
                k,
            )] == wadd(base, rela_addend(old(image).words@, t as int, k)),
        forall|i: int|
            0 <= i < old(image).words@.len() && !rela_lists_within(
                old(image).words@,
                t as int,
                count as int,
                i,
            ) ==> final(image).words@[i] == old(image).words@[i],
{
    let ghost orig = image.words@;
    let mut j: usize = 0;
    while j < count
        invariant
            j <= count,
            image.words@.len() == orig.len(),
            rela_metadata_wf(orig, t as int, count as int, orig.len() as int),
            forall|k: int|
                0 <= k < j ==> image.words@[#[trigger] rela_offset(orig, t as int, k)] == wadd(
                    base,
                    rela_addend(orig, t as int, k),
                ),
            forall|i: int|
                0 <= i < orig.len() && !rela_lists_within(orig, t as int, j as int, i)
                    ==> image.words@[i] == orig[i],
        decreases count - j,
    {
        let image_len = image.words.len();
        proof {
            assert(rela_offset(orig, t as int, j as int) < orig.len() as int);
            assert(!rela_lists_within(orig, t as int, j as int, t + 3 * j));
            assert(!rela_lists_within(orig, t as int, j as int, t + 3 * j + 2));
        }
        let off_word = image.words[t + 3 * j];
        let addend = image.words[t + 3 * j + 2];
        assert(off_word == orig[t + 3 * j as int]);
        assert(off_word < image_len);
        let target = off_word as usize;
        let v = word_add(base, addend);
        image.words.set(target, v);
        proof {
            assert forall|i: int|
                0 <= i < orig.len() && !rela_lists_within(orig, t as int, j + 1, i)
                    implies image.words@[i] == orig[i] by {
                assert(rela_offset(orig, t as int, j as int) != i);
                assert(!rela_lists_within(orig, t as int, j as int, i));
            }
        }
        j += 1;
    }
    image.relocated = true;
}

/// Law: a relocated word tracks the load address proportionally.  Take one
/// image, patched by the ELF pass once while loaded at base `b1` (giving the
/// words `w1`) and once while loaded at base `b2` (giving `w2`).  Then every
/// word the table lists differs between the two loads by exactly the
/// distance of the two bases.
pub proof fn lemma_elf_reloc_tracks_base(
    t: Seq<ElfRelocEntry>,
    b1: u64,
    b2: u64,
    w1: Seq<u64>,
    w2: Seq<u64>,
)
    requires
        forall|k: int|
            0 <= k < t.len() ==> w1[(#[trigger] t[k]).offset as int] == wadd(b1, t[k].addend),
        forall|k: int|
            0 <= k < t.len() ==> w2[(#[trigger] t[k]).offset as int] == wadd(b2, t[k].addend),
    ensures
        forall|k: int|
            0 <= k < t.len() ==> w2[(#[trigger] t[k]).offset as int] == wadd(
                w1[t[k].offset as int],
                wsub(b2, b1),
            ),
{
    assert forall|k: int|
        0 <= k < t.len() implies w2[(#[trigger] t[k]).offset as int] == wadd(
        w1[t[k].offset as int],
        wsub(b2, b1),
    ) by {
        crate::machine::lemma_wadd_tracks_base(t[k].addend, b1, b2);
    }
}

/// The kind field of a packed PE base-relocation entry: its top four bits.
pub open spec fn pe_kind(e: u16) -> u16 {
    e >> 12
}

/// The within-page offset of a packed PE base-relocation entry: its low
/// twelve bits, here a word offset from the block's page base.
pub open spec fn pe_page_off(e: u16) -> u16 {
    e & 0xfff
}

/// Whether an entry patches anything: kind 10 is the 64-bit-pointer kind,
/// the only kind this engine applies; kind 0 is the block-alignment padding
/// entry, which patches nothing.
pub open spec fn pe_applies(e: u16) -> bool {
    pe_kind(e) == 10
}

/// The word a packed entry of a block based at page `page` patches.
pub open spec fn pe_target(page: int, e: u16) -> int {
    page + pe_page_off(e)
}

/// A PE base-relocation region is well formed for an image of `image_len`
/// words when every entry carries the 64-bit-pointer kind or the padding
/// kind, every applied entry patches a word of the image, and no two applied
/// entries patch the same word.
pub open spec fn pe_region_wf(page: int, entries: Seq<u16>, image_len: int) -> bool {
    &&& forall|k: int|
        0 <= k < entries.len() ==> pe_kind(#[trigger] entries[k]) == 10 || pe_kind(
            entries[k],
        ) == 0
    &&& forall|k: int|
        0 <= k < entries.len() && pe_applies(#[trigger] entries[k]) ==> pe_target(
            page,
            entries[k],
        ) < image_len
    &&& forall|k1: int, k2: int|
        0 <= k1 < k2 < entries.len() && pe_applies(entries[k1]) && pe_applies(entries[k2])
            ==> pe_target(page, entries[k1]) != pe_target(page, entries[k2])
}

/// Whether one of the first `n` entries applies to word `i`.
pub open spec fn pe_lists_within(page: int, entries: Seq<u16>, n: int, i: int) -> bool {
    exists|k: int|
        0 <= k < n && pe_applies(#[trigger] entries[k]) && pe_target(page, entries[k]) == i
}

/// Whether the region applies to word `i` at all.
pub open spec fn pe_lists(page: int, entries: Seq<u16>, i: int) -> bool {
    pe_lists_within(page, entries, entries.len() as int, i)
}

/// The PE relocation pass over one base-relocation region: each packed entry
/// holds its kind in the top four bits and a page offset in the low twelve;
/// every 64-bit-pointer entry has the load delta added onto the word it
/// names, padding entries patch nothing.  An entry of any other kind is
/// outside the contract of the build and therefore excluded by precondition
/// rather than checked at run time.  Afterwards every applied word holds its
/// link-time value plus the delta, and every other word is untouched.
pub fn relocate_pe(image: &mut Image, delta: u64, page: usize, entries: &Vec<u16>)
    requires
        !old(image).relocated,
        pe_region_wf(page as int, entries@, old(image).words@.len() as int),
    ensures
        final(image).relocated,
        final(image).words@.len() == old(image).words@.len(),
        forall|k: int|
            0 <= k < entries@.len() && pe_applies(#[trigger] entries@[k])
                ==> final(image).words@[pe_target(page as int, entries@[k])] == wadd(
                old(image).words@[pe_target(page as int, entries@[k])],
                delta,
            ),
        forall|i: int|
            0 <= i < old(image).words@.len() && !pe_lists(page as int, entries@, i)
                ==> final(image).words@[i] == old(image).words@[i],
{
    apply_pe_region(image, delta, page, entries);
    image.relocated = true;
}

/// One base-relocation region applied to the image's words, stated word by
/// word: every word the region applies to gains the delta, every other word
/// stays.  The relocation state is not touched; the public passes wrap this.
fn apply_pe_region(image: &mut Image, delta: u64, page: usize, entries: &Vec<u16>)
    requires
        pe_region_wf(page as int, entries@, old(image).words@.len() as int),
    ensures
        final(image).relocated == old(image).relocated,
        final(image).words@.len() == old(image).words@.len(),
        forall|k: int|
            0 <= k < entries@.len() && pe_applies(#[trigger] entries@[k])
                ==> final(image).words@[pe_target(page as int, entries@[k])] == wadd(
                old(image).words@[pe_target(page as int, entries@[k])],
                delta,
            ),
        forall|i: int|
            0 <= i < old(image).words@.len() && pe_lists(page as int, entries@, i)
                ==> final(image).words@[i] == wadd(old(image).words@[i], delta),
        forall|i: int|
            0 <= i < old(image).words@.len() && !pe_lists(page as int, entries@, i)
                ==> final(image).words@[i] == old(image).words@[i],
{
    let ghost orig = image.words@;
    let ghost was_relocated = image.relocated;
    let n = entries.len();
    let mut j: usize = 0;
    while j < n
        invariant
            n == entries@.len(),
            j <= n,
            image.relocated == was_relocated,
            image.words@.len() == orig.len(),
            pe_region_wf(page as int, entries@, orig.len() as int),
            forall|k: int|
                0 <= k < j && pe_applies(#[trigger] entries@[k])
                    ==> image.words@[pe_target(page as int, entries@[k])] == wadd(
                    orig[pe_target(page as int, entries@[k])],
                    delta,
                ),
            forall|i: int|
                0 <= i < orig.len() && !pe_lists_within(page as int, entries@, j as int, i)
                    ==> image.words@[i] == orig[i],
        decreases n - j,
    {
        let e = entries[j];
        let kind = e >> 12u16;
        if kind == 10 {
            assert(pe_applies(entries@[j as int]));
            let off = (e & 0xfff) as usize;
            assert(off == pe_page_off(entries@[j as int]));
            assert(pe_target(page as int, entries@[j as int]) < orig.len() as int);
            let image_len = image.words.len();
            assert(page + off < image_len);
            let at = page + off;
            assert(at == pe_target(page as int, entries@[j as int]));
            assert(!pe_lists_within(page as int, entries@, j as int, at as int));
            let patched = word_add(image.words[at], delta);
            image.words.set(at, patched);
            proof {
                assert forall|i: int|
                    0 <= i < orig.len() && !pe_lists_within(page as int, entries@, j + 1, i)
                        implies image.words@[i] == orig[i] by {
                    assert(pe_target(page as int, entries@[j as int]) != i);
                    assert(!pe_lists_within(page as int, entries@, j as int, i));
                }
            }
        } else {
            proof {
                assert forall|i: int|
                    0 <= i < orig.len() && !pe_lists_within(page as int, entries@, j + 1, i)
                        implies image.words@[i] == orig[i] by {
                    assert(!pe_lists_within(page as int, entries@, j as int, i));
                }
            }
        }
        j += 1;
    }
    proof {
        assert forall|i: int|
            0 <= i < orig.len() && pe_lists(page as int, entries@, i) implies image.words@[i]
            == wadd(orig[i], delta) by {
            let k = choose|k: int|
                0 <= k < entries@.len() && pe_applies(#[trigger] entries@[k]) && pe_target(
                    page as int,
                    entries@[k],
                ) == i;
            assert(image.words@[pe_target(page as int, entries@[k])] == wadd(
                orig[pe_target(page as int, entries@[k])],
                delta,
            ));
        }
    }
}

/// One 16-bit lane of a machine word, counted from the low end: packed PE
/// base-relocation entries sit four to a word, little-endian, so lane 0 is
/// the first entry of the word.
pub open spec fn u16_lane(w: u64, lane: int) -> u16 {
    ((w >> (16 * lane) as u64) & 0xffff) as u16
}

/// The packed entries of a base-relocation region, unpacked in order: four
/// 16-bit entries out of every region word.
pub open spec fn unpacked_entries(region: Seq<u64>) -> Seq<u16> {
    Seq::new(region.len() * 4, |i: int| u16_lane(region[i / 4], i % 4))
}

/// Splits a base-relocation region, read out of the image as whole words,
/// into its packed 16-bit entries, in order.
pub fn unpack_entries(region: &Vec<u64>) -> (entries: Vec<u16>)
    ensures
        entries@ =~= unpacked_entries(region@),
{
    let mut entries: Vec<u16> = Vec::new();
    let n = region.len();
    let mut i: usize = 0;
    while i < n
        invariant
            n == region@.len(),
            i <= n,
            entries@ =~= unpacked_entries(region@.take(i as int)),
        decreases n - i,
    {
        let w = region[i];
        proof {
            assert(w & 0xffff < 0x10000 && (w >> 16) & 0xffff < 0x10000 && (w >> 32) & 0xffff
                < 0x10000 && (w >> 48) & 0xffff < 0x10000) by (bit_vector);
            assert((w >> (16 * 0) as u64) == w && (w >> (16 * 1) as u64) == (w >> 16) && (w >> (16
                * 2) as u64) == (w >> 32) && (w >> (16 * 3) as u64) == (w >> 48)) by (bit_vector);
        }
        entries.push((w & 0xffff) as u16);
        entries.push(((w >> 16) & 0xffff) as u16);
        entries.push(((w >> 32) & 0xffff) as u16);
        entries.push(((w >> 48) & 0xffff) as u16);
        proof {
            assert forall|k: int|
                0 <= k < (i + 1) * 4 implies entries@[k] == unpacked_entries(
                region@.take(i + 1),
            )[k] by {
                assert(unpacked_entries(region@.take(i + 1))[k] == u16_lane(
                    region@[k / 4],
                    k % 4,
                ));
                if k < i * 4 {
                    assert(entries@[k] == unpacked_entries(region@.take(i as int))[k]);
                }
            }
            assert(entries@ =~= unpacked_entries(region@.take(i + 1)));
        }
        i += 1;
    }
    proof {
        assert(region@.take(n as int) =~= region@);
    }
    entries
}

/// The PE relocation pass as the image carries it: the region is handed over
/// as the whole words read from the explicit (offset, size) span, each word
/// packing four 16-bit entries.  The pass unpacks them in order and applies
/// every 64-bit-pointer entry exactly as [`relocate_pe`] does.
pub fn relocate_pe_packed(image: &mut Image, delta: u64, page: usize, region: &Vec<u64>)
    requires
        !old(image).relocated,
        pe_region_wf(page as int, unpacked_entries(region@), old(image).words@.len() as int),
    ensures
        final(image).relocated,
        final(image).words@.len() == old(image).words@.len(),
        forall|k: int|
            0 <= k < unpacked_entries(region@).len() && pe_applies(
                #[trigger] unpacked_entries(region@)[k],
            ) ==> final(image).words@[pe_target(page as int, unpacked_entries(region@)[k])] == wadd(
                old(image).words@[pe_target(page as int, unpacked_entries(region@)[k])],
                delta,
            ),
        forall|i: int|
            0 <= i < old(image).words@.len() && !pe_lists(page as int, unpacked_entries(region@), i)
                ==> final(image).words@[i] == old(image).words@[i],
{
    let entries = unpack_entries(region);
    relocate_pe(image, delta, page, &entries);
}

/// One PE base-relocation block: the page it covers and its packed entries.
/// A block's twelve-bit entry offsets reach only the 4096 words from its
/// page base, so blocks of distinct pages never patch the same word.
pub struct PeBlock {
    pub page: usize,
    pub entries: Vec<u16>,
}

/// Whether a block applies to word `i`.
pub open spec fn pe_block_lists(b: PeBlock, i: int) -> bool {
    pe_lists(b.page as int, b.entries@, i)
}

/// Whether one of the first `n` blocks applies to word `i`.
pub open spec fn pe_blocks_list_within(blocks: Seq<PeBlock>, n: int, i: int) -> bool {
    exists|b: int| 0 <= b < n && pe_block_lists(#[trigger] blocks[b], i)
}

/// A sequence of base-relocation blocks is well formed for the image when
/// every block's region is, and the blocks walk the image one page after
/// another, each page base at least 4096 words past the one before.
pub open spec fn pe_blocks_wf(blocks: Seq<PeBlock>, image_len: int) -> bool {
    &&& forall|b: int|
        0 <= b < blocks.len() ==> pe_region_wf(
            (#[trigger] blocks[b]).page as int,
            blocks[b].entries@,
            image_len,
        )
    &&& forall|b1: int, b2: int|
        0 <= b1 < b2 < blocks.len() ==> blocks[b1].page + 4096 <= blocks[b2].page
}

/// A word a region applies to lies within the 4096 words of the region's
/// page: entry offsets carry only twelve bits.
proof fn lemma_pe_lists_in_page(page: int, entries: Seq<u16>, i: int)
    requires
        pe_lists(page, entries, i),
    ensures
        page <= i < page + 4096,
{
    let k = choose|k: int|
        0 <= k < entries.len() && pe_applies(#[trigger] entries[k]) && pe_target(page, entries[k])
            == i;
    let e = entries[k];
    assert(e & 0xfff < 4096) by (bit_vector);
}

/// The PE relocation pass over a whole base-relocation table: the blocks are
/// walked in order and every 64-bit-pointer entry of every block has the
/// load delta added onto the word it names.  Afterwards every word any block
/// applies to holds its link-time value plus the delta, and every other word
/// is untouched.
pub fn relocate_pe_blocks(image: &mut Image, delta: u64, blocks: &Vec<PeBlock>)
    requires
        !old(image).relocated,
        pe_blocks_wf(blocks@, old(image).words@.len() as int),
    ensures
        final(image).relocated,
        final(image).words@.len() == old(image).words@.len(),
        forall|i: int|
            0 <= i < old(image).words@.len() && pe_blocks_list_within(
                blocks@,
                blocks@.len() as int,
                i,
            ) ==> final(image).words@[i] == wadd(old(image).words@[i], delta),
        forall|i: int|
            0 <= i < old(image).words@.len() && !pe_blocks_list_within(
                blocks@,
                blocks@.len() as int,
                i,
            ) ==> final(image).words@[i] == old(image).words@[i],
{
    let ghost orig = image.words@;
    let nb = blocks.len();
    let mut b: usize = 0;
    while b < nb
        invariant
            nb == blocks@.len(),
            b <= nb,
            !image.relocated,
            image.words@.len() == orig.len(),
            pe_blocks_wf(blocks@, orig.len() as int),
            forall|i: int|
                0 <= i < orig.len() && pe_blocks_list_within(blocks@, b as int, i)
                    ==> image.words@[i] == wadd(orig[i], delta),
            forall|i: int|
                0 <= i < orig.len() && !pe_blocks_list_within(blocks@, b as int, i)
                    ==> image.words@[i] == orig[i],
        decreases nb - b,
    {
        let ghost pre = image.words@;
        let page = blocks[b].page;
        apply_pe_region(image, delta, page, &blocks[b].entries);
        proof {
            assert forall|i: int|
                0 <= i < orig.len() && pe_blocks_list_within(blocks@, b + 1, i)
                    implies image.words@[i] == wadd(orig[i], delta) by {
                if pe_block_lists(blocks@[b as int], i) {
                    // No earlier block reaches this block's page, so the
                    // word still held its link-time value.
                    lemma_pe_lists_in_page(page as int, blocks@[b as int].entries@, i);
                    assert forall|b0: int|
                        0 <= b0 < b implies !pe_block_lists(#[trigger] blocks@[b0], i) by {
                        if pe_block_lists(blocks@[b0], i) {
                            lemma_pe_lists_in_page(blocks@[b0].page as int, blocks@[b0].entries@, i);
                        }
                    }
                    assert(!pe_blocks_list_within(blocks@, b as int, i));
                    assert(pre[i] == orig[i]);
                } else {
                    // Listed by an earlier block and untouched by this one.
                    let b0 = choose|b0: int|
                        0 <= b0 < b + 1 && pe_block_lists(#[trigger] blocks@[b0], i);
                    assert(pe_blocks_list_within(blocks@, b as int, i));
                    assert(image.words@[i] == pre[i]);
                }
            }
            assert forall|i: int|
                0 <= i < orig.len() && !pe_blocks_list_within(blocks@, b + 1, i)
                    implies image.words@[i] == orig[i] by {
                assert(!pe_block_lists(blocks@[b as int], i));
                assert(!pe_blocks_list_within(blocks@, b as int, i));
            }
        }
        b += 1;
    }
    image.relocated = true;
}

/// Law: a PE-relocated word tracks the load address proportionally.  Take
/// one image, whose words were `w0` at link time, patched by the PE pass
/// once with load delta `d1` (giving `w1`) and once with load delta `d2`
/// (giving `w2`).  Then every word the region applies to differs between the
/// two loads by exactly the distance of the two deltas.
pub proof fn lemma_pe_reloc_tracks_delta(
    w0: Seq<u64>,
    w1: Seq<u64>,
    w2: Seq<u64>,
    d1: u64,
    d2: u64,
    page: int,
    entries: Seq<u16>,
)
    requires
        forall|k: int|
            0 <= k < entries.len() && pe_applies(#[trigger] entries[k]) ==> w1[pe_target(
                page,
                entries[k],
            )] == wadd(w0[pe_target(page, entries[k])], d1),
        forall|k: int|
            0 <= k < entries.len() && pe_applies(#[trigger] entries[k]) ==> w2[pe_target(
                page,
                entries[k],
            )] == wadd(w0[pe_target(page, entries[k])], d2),
    ensures
        forall|k: int|
            0 <= k < entries.len() && pe_applies(#[trigger] entries[k]) ==> w2[pe_target(
                page,
                entries[k],
            )] == wadd(w1[pe_target(page, entries[k])], wsub(d2, d1)),
{
    assert forall|k: int|
        0 <= k < entries.len() && pe_applies(#[trigger] entries[k]) implies w2[pe_target(
        page,
        entries[k],
    )] == wadd(w1[pe_target(page, entries[k])], wsub(d2, d1)) by {
        crate::machine::lemma_wadd_tracks_base(w0[pe_target(page, entries[k])], d1, d2);
    }
}

/// Law: the relocation pass is deliberately not idempotent, so running it
/// exactly once is load-bearing.  Take an image whose words were `w0` at
/// link time, `w1` after one PE pass with a nonzero load delta, and `w2`
/// after a second pass over the same region.  Then every word the region
/// applies to has moved away from its correctly relocated value: the second
/// pass corrupts the image.
pub proof fn lemma_pe_second_pass_corrupts(
    w0: Seq<u64>,
    w1: Seq<u64>,
    w2: Seq<u64>,
    delta: u64,
    page: int,
    entries: Seq<u16>,
)
    requires
        delta != 0,
        forall|k: int|
            0 <= k < entries.len() && pe_applies(#[trigger] entries[k]) ==> w1[pe_target(
                page,
                entries[k],
            )] == wadd(w0[pe_target(page, entries[k])], delta),
        forall|k: int|
            0 <= k < entries.len() && pe_applies(#[trigger] entries[k]) ==> w2[pe_target(
                page,
                entries[k],
            )] == wadd(w1[pe_target(page, entries[k])], delta),
    ensures
        forall|k: int|
            0 <= k < entries.len() && pe_applies(#[trigger] entries[k]) ==> w2[pe_target(
                page,
                entries[k],
            )] != wadd(w0[pe_target(page, entries[k])], delta),
{
    assert forall|k: int|
        0 <= k < entries.len() && pe_applies(#[trigger] entries[k]) implies w2[pe_target(
        page,
        entries[k],
    )] != wadd(w0[pe_target(page, entries[k])], delta) by {
        crate::machine::lemma_wadd_again_moves(w0[pe_target(page, entries[k])], delta);
    }
}

} // verus!
