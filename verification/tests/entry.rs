use selfboot::entry::{
    amd64_linux_entry, amd64_linux_static_entry, amd64_windows_entry, bootstrap_actions,
    i686_image_base, i686_linux_entry, Action, ExitVia, Mode, Os,
};
use selfboot::platform::DESCRIPTOR_SLOT;
use selfboot::{fatal_outcome, FatalKind, FatalOutcome};

#[test]
fn standalone_linux_runs_the_application_then_exits_zero() {
    // End to end for (x86-64, Linux, standalone): relocate, initialize the
    // platform, run application logic, then the raw process-exit system
    // call numbered 231 with status zero — and nothing else before it.
    let plan = amd64_linux_entry(0x7fff_ffff_e8b8, 0, 0x40_0000, 0x40_3e00, Mode::Standalone);
    assert_eq!(plan.sp_at_calls % 16, 0);
    assert_eq!(
        plan.actions,
        vec![
            Action::RelocateElf { base: 0x40_0000, dynamic: 0x40_3e00 },
            Action::PlatformInit(0),
            Action::CallApplication,
            Action::Exit { via: ExitVia::RawSyscall(231), status: 0 },
        ]
    );
}

#[test]
fn static_entry_only_realigns_runs_and_exits() {
    let plan = amd64_linux_static_entry(0x7fff_ffff_d547);
    assert_eq!(plan.sp_at_calls, 0x7fff_ffff_d540);
    assert_eq!(plan.sp_at_calls % 16, 0);
    assert_eq!(
        plan.actions,
        vec![
            Action::CallApplication,
            Action::Exit { via: ExitVia::RawSyscall(231), status: 0 },
        ]
    );
}

#[test]
fn loader_linux_entry_preserves_the_service_table_argument() {
    let table_addr = 0x7f12_3456_7000;
    let plan = amd64_linux_entry(0x7fff_ffff_e8b7, table_addr, 0x40_0000, 0x40_3e00, Mode::Loader);
    assert_eq!(plan.actions[1], Action::PlatformInit(table_addr));
    assert_eq!(
        plan.actions[3],
        Action::Exit { via: ExitVia::HostService, status: 0 }
    );
}

fn loader_memory(flags: u64) -> Vec<u64> {
    let mut mem = vec![0u64; 24];
    // The service table sits at word 2; word 2 holds the placement address.
    mem[2] = 0x5000;
    mem[2 + DESCRIPTOR_SLOT] = 14;
    // The descriptor at word 14.
    mem[14] = 0x111; // relocation-table base carrier
    mem[15] = flags;
    mem[16] = 0x20; // leading unused bytes
    mem[17] = 0x14_0000; // link-time image base
    mem[18] = 0x3_0000; // relocation-table offset
    mem[19] = 0x180; // relocation-table size
    mem
}

#[test]
fn loader_windows_entry_computes_the_relocation_arguments() {
    let mem = loader_memory(0);
    let plan = amd64_windows_entry(0x8000_0137, &mem, 2);
    assert_eq!(plan.sp_at_calls % 32, 0);
    assert_eq!(
        plan.actions,
        vec![
            Action::RelocatePe {
                image_base: 0x14_0000,
                load_base: 0x5000 - 0x20,
                table_offset: 0x3_0000 + 0x20,
                table_size: 0x180,
            },
            Action::PlatformInit(2),
            Action::CallApplication,
            Action::Exit { via: ExitVia::HostService, status: 0 },
        ]
    );
}

#[test]
fn loader_flag_bit_neutralizes_the_stack_probe() {
    let with_flag = amd64_windows_entry(0x8000_0137, &loader_memory(1), 2);
    assert_eq!(with_flag.actions[1], Action::DisableStackProbe);
    let without_flag = amd64_windows_entry(0x8000_0137, &loader_memory(0), 2);
    assert!(!without_flag
        .actions
        .iter()
        .any(|a| *a == Action::DisableStackProbe));
}

#[test]
fn i686_base_is_derived_from_the_return_address() {
    // return address = base + entry offset + 13 opcode bytes.
    assert_eq!(i686_image_base(0x804_80ad, 0xa0), 0x804_8000);
}

#[test]
fn i686_entry_relocates_from_the_derived_base() {
    let plan = i686_linux_entry(0xbfff_f73c, 7, 0x804_80ad, 0xa0, 0x1f14, Mode::Standalone);
    assert_eq!(plan.sp_at_calls % 16, 0);
    assert_eq!(plan.sp_at_calls, 0xbfff_f730 - 16);
    assert_eq!(
        plan.actions[0],
        Action::RelocateElf { base: 0x804_8000, dynamic: 0x804_8000 + 0x1f14 }
    );
    assert_eq!(plan.actions[1], Action::PlatformInit(7));
}

#[test]
fn both_modes_route_the_application_through_one_call_signature() {
    // A loader-supplied table and a locally fabricated one lead to the same
    // downstream shape: one table address into platform initialization, the
    // identical application call, then termination with status zero.
    let loader = bootstrap_actions(0x7f00_0000_2000, Os::Windows, Mode::Loader);
    let standalone = bootstrap_actions(0x60_0000, Os::Windows, Mode::Standalone);
    assert_eq!(loader.len(), standalone.len());
    assert_eq!(loader[0], Action::PlatformInit(0x7f00_0000_2000));
    assert_eq!(standalone[0], Action::PlatformInit(0x60_0000));
    assert_eq!(loader[1], standalone[1]);
    assert_eq!(loader[1], Action::CallApplication);
    assert!(matches!(loader[2], Action::Exit { status: 0, .. }));
    assert!(matches!(standalone[2], Action::Exit { status: 0, .. }));
}

#[test]
fn no_mode_reports_a_nonzero_status() {
    for os in [Os::Linux, Os::Windows] {
        for mode in [Mode::Standalone, Mode::Loader] {
            let actions = bootstrap_actions(0x1234, os, mode);
            assert!(matches!(actions[2], Action::Exit { status: 0, .. }));
        }
    }
}

#[test]
fn every_fatal_hook_traps() {
    for kind in [
        FatalKind::Panic,
        FatalKind::AllocFailure,
        FatalKind::ForcedUnwind,
        FatalKind::ExceptionPersonality,
    ] {
        assert_eq!(fatal_outcome(kind), FatalOutcome::Trap);
    }
}
