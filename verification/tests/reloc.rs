use selfboot::reloc::{relocate_elf, relocate_elf_in_image, relocate_pe, ElfRelocEntry, Image, PeBlock};

fn entry(offset: usize, addend: u64) -> ElfRelocEntry {
    ElfRelocEntry { offset, addend }
}

#[test]
fn elf_relocation_patches_listed_words() {
    let words = vec![0xaa, 0xbb, 0xcc, 0xdd, 0xee];
    let mut img = Image::new(words);
    let table = vec![entry(1, 0x10), entry(3, 0x20)];
    relocate_elf(&mut img, 0x1000, &table);
    assert!(img.relocated);
    assert_eq!(img.words, vec![0xaa, 0x1010, 0xcc, 0x1020, 0xee]);
    assert_eq!(img.read_word(3), 0x1020);
}

#[test]
fn elf_relocation_leaves_unlisted_words_alone() {
    let mut img = Image::new(vec![1, 2, 3, 4]);
    let table = vec![entry(0, 7)];
    relocate_elf(&mut img, 0x4000, &table);
    assert_eq!(img.words, vec![0x4007, 2, 3, 4]);
}

#[test]
fn elf_relocation_tracks_two_bases() {
    // Loading the same image at two distinct base addresses must change
    // every listed word by exactly the distance of the bases.
    let table = vec![entry(0, 0x100), entry(2, 0x238)];
    let mut low = Image::new(vec![0, 0, 0]);
    let mut high = Image::new(vec![0, 0, 0]);
    relocate_elf(&mut low, 0x1_0000, &table);
    relocate_elf(&mut high, 0x3_0000, &table);
    let delta = 0x3_0000 - 0x1_0000;
    for k in [0usize, 2] {
        assert_eq!(high.words[k], low.words[k] + delta);
    }
    assert_eq!(low.words[0], 0x1_0100);
    assert_eq!(high.words[0], 0x3_0100);
}

#[test]
fn elf_relocation_wraps_like_hardware() {
    let mut img = Image::new(vec![0]);
    let table = vec![entry(0, 2)];
    relocate_elf(&mut img, u64::MAX, &table);
    assert_eq!(img.words[0], 1);
}

#[test]
fn elf_relocation_walks_metadata_inside_the_image() {
    // Two (offset, kind, addend) word triples at word 4 of the image, the
    // kind being the absolute-address kind (8); targets at words 1 and 11.
    let words = vec![
        0xaa, 0, 0, 0, // leading words, word 1 is a target
        1, 8, 0x100, // first metadata entry
        11, 8, 0x200, // second metadata entry
        0, 0, // word 11 is a target
    ];
    let mut img = Image::new(words.clone());
    relocate_elf_in_image(&mut img, 0x7000, 4, 2);
    assert!(img.relocated);
    assert_eq!(img.words[1], 0x7100);
    assert_eq!(img.words[11], 0x7200);
    // Everything else, the metadata itself included, is untouched.
    for i in [0usize, 2, 3, 4, 5, 6, 7, 8, 9, 10] {
        assert_eq!(img.words[i], words[i]);
    }
}

#[test]
fn pe_relocation_applies_only_pointer_entries() {
    // Two 64-bit-pointer entries (kind 10) and one padding entry (kind 0).
    let entries: Vec<u16> = vec![(10 << 12) | 0, (10 << 12) | 3, 0];
    let mut img = Image::new(vec![0x1000, 7, 0x2000, 8, 9, 0x3000]);
    relocate_pe(&mut img, 0x40, 2, &entries);
    assert!(img.relocated);
    assert_eq!(img.words, vec![0x1000, 7, 0x2040, 8, 9, 0x3040]);
}

#[test]
fn pe_relocation_unpacks_four_entries_per_region_word() {
    // One region word packing, low lane first: a pointer entry for page
    // offset 0, a pointer entry for page offset 3, and two padding entries.
    let region: Vec<u64> = vec![0xA000 | (0xA003 << 16)];
    let mut img = Image::new(vec![9, 0x500, 9, 9, 0x900]);
    selfboot::reloc::relocate_pe_packed(&mut img, 0x30, 1, &region);
    assert_eq!(img.words, vec![9, 0x530, 9, 9, 0x930]);
}

#[test]
fn pe_relocation_walks_blocks_page_by_page() {
    let mut words = vec![0u64; 4100];
    words[1] = 0x700;
    words[4098] = 0x800;
    let mut img = Image::new(words);
    let blocks = vec![
        PeBlock { page: 0, entries: vec![(10 << 12) | 1] },
        PeBlock { page: 4096, entries: vec![(10 << 12) | 2, 0] },
    ];
    selfboot::reloc::relocate_pe_blocks(&mut img, 0x50, &blocks);
    assert!(img.relocated);
    assert_eq!(img.words[1], 0x750);
    assert_eq!(img.words[4098], 0x850);
    assert_eq!(img.words[0], 0);
    assert_eq!(img.words[4097], 0);
}

#[test]
fn pe_second_pass_corrupts_image() {
    // The pass must run exactly once: a second pass over the same region
    // moves every applied word away from its correctly relocated value.
    let entries: Vec<u16> = vec![(10 << 12) | 1];
    let delta = 0x7000;
    let link_value = 0x2000;
    let mut img = Image::new(vec![0, link_value, 0]);
    relocate_pe(&mut img, delta, 0, &entries);
    let correct = link_value + delta;
    assert_eq!(img.words[1], correct);
    let mut again = Image::new(img.words.clone());
    relocate_pe(&mut again, delta, 0, &entries);
    assert_ne!(again.words[1], correct);
    assert_eq!(again.words[1], link_value + 2 * delta);
}

#[test]
fn pe_relocation_tracks_two_deltas() {
    // Loading the same image with two distinct load deltas must change
    // every applied word by exactly the distance of the deltas.
    let entries: Vec<u16> = vec![(10 << 12) | 0, (10 << 12) | 2];
    let link_words = vec![0x1000u64, 5, 0x2000];
    let mut low = Image::new(link_words.clone());
    let mut high = Image::new(link_words);
    relocate_pe(&mut low, 0x1_0000, 0, &entries);
    relocate_pe(&mut high, 0x5_0000, 0, &entries);
    for k in [0usize, 2] {
        assert_eq!(high.words[k], low.words[k] + (0x5_0000 - 0x1_0000));
    }
    assert_eq!(low.words[1], 5);
    assert_eq!(high.words[1], 5);
}

#[test]
fn image_length_is_kept() {
    let mut img = Image::new(vec![0; 16]);
    assert_eq!(img.len(), 16);
    relocate_elf(&mut img, 0x8000, &vec![entry(15, 1)]);
    assert_eq!(img.len(), 16);
}
