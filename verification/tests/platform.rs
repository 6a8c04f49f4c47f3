use selfboot::platform::{
    fabricate_descriptor, fabricate_service_table, load_descriptor, probe_disabled,
    read_descriptor_address, PlatformState, DESCRIPTOR_SLOT,
};

#[test]
fn descriptor_address_comes_from_the_fixed_slot() {
    // A service table placed at word 2 of memory; its tenth word (byte
    // offset 72) carries the descriptor's address.
    let mut mem = vec![0u64; 24];
    mem[2 + DESCRIPTOR_SLOT] = 14;
    assert_eq!(read_descriptor_address(&mem, 2), 14);
}

#[test]
fn descriptor_fields_come_from_fixed_offsets() {
    // The binding layout contract: byte offsets 0, 8, 16, 24, 32, 40.
    let mut mem = vec![0u64; 24];
    mem[14] = 0x111; // relocation-table base carrier
    mem[15] = 0x1; // flags
    mem[16] = 0x20; // leading unused bytes
    mem[17] = 0x14_0000; // image base
    mem[18] = 0x3_0000; // relocation-table offset
    mem[19] = 0x180; // relocation-table size
    let d = load_descriptor(&mem, 14);
    assert_eq!(d.reloc_table_base, 0x111);
    assert_eq!(d.flags, 0x1);
    assert_eq!(d.leading_unused, 0x20);
    assert_eq!(d.image_base, 0x14_0000);
    assert_eq!(d.reloc_offset, 0x3_0000);
    assert_eq!(d.reloc_size, 0x180);
}

#[test]
fn probe_flag_is_bit_zero() {
    assert!(probe_disabled(1));
    assert!(probe_disabled(3));
    assert!(!probe_disabled(0));
    assert!(!probe_disabled(2));
}

#[test]
fn fabricated_descriptor_uses_local_defaults() {
    let d = fabricate_descriptor(0x40_0000, 0x2000, 0x90);
    assert_eq!(d.reloc_table_base, 0);
    assert_eq!(d.flags, 0);
    assert_eq!(d.leading_unused, 0);
    assert_eq!(d.image_base, 0x40_0000);
    assert_eq!(d.reloc_offset, 0x2000);
    assert_eq!(d.reloc_size, 0x90);
    assert!(!probe_disabled(d.flags));
}

#[test]
fn fabricated_table_routes_the_descriptor_through_the_same_slot() {
    let t = fabricate_service_table(0xabcd);
    assert_eq!(t.len(), DESCRIPTOR_SLOT + 1);
    assert_eq!(t[DESCRIPTOR_SLOT], 0xabcd);
    for i in 0..DESCRIPTOR_SLOT {
        assert_eq!(t[i], 0);
    }
}

#[test]
fn platform_state_is_written_once_then_read() {
    let mut state = PlatformState::new();
    assert!(!state.initialized);
    state.init(0x7f00_0000_1000);
    assert!(state.initialized);
    assert_eq!(state.service_table_address(), 0x7f00_0000_1000);
}
