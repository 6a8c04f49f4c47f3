//! The ABI entry stubs and the bootstrap, as verified plans.
//!
//! Each supported (architecture, operating system) pair has one entry stub:
//! the first code executed, with no assumed stack frame.  A stub aligns the
//! stack per the target ABI, preserves the architecture-defined entry
//! argument across the relocation call, computes the relocator's arguments,
//! and transfers to the bootstrap, which initializes the platform layer,
//! invokes application logic and then the termination service.  Each stub is
//! modelled as a function from the incoming register and memory state to an
//! [`EntryPlan`]: the stack pointer every call is issued under and the exact
//! sequence of actions performed, in order.  Nothing follows the final
//! termination action; the entry path never returns.

use vstd::prelude::*;

use crate::platform::{
    load_descriptor, read_descriptor_address, probe_disabled, spec_probe_disabled,
    PlatformDescriptor, DESCRIPTOR_SLOT, DESC_WORDS,
};
use crate::machine::{wadd, word_add, word_sub, wsub};
use crate::stack::{align_ms_amd64, align_sysv_amd64, align_sysv_i686};

verus! {

/// Supported instruction-set architectures.
#[derive(Clone, Copy, PartialEq, Eq, Structural, Debug)]
pub enum Arch {
    X86,
    Amd64,
}

/// Supported target operating systems.
#[derive(Clone, Copy, PartialEq, Eq, Structural, Debug)]
pub enum Os {
    Linux,
    Windows,
}

/// Deployment modes: launched directly by the operating system, or launched
/// by a custom external loader that hands the program a service table.
#[derive(Clone, Copy, PartialEq, Eq, Structural, Debug)]
pub enum Mode {
    Standalone,
    Loader,
}

/// How the termination service leaves the process.
#[derive(Clone, Copy, PartialEq, Eq, Structural, Debug)]
pub enum ExitVia {
    /// The raw process-exit system call of the given number.
    RawSyscall(u64),
    /// The abstracted exit service of the initialized platform layer.
    HostService,
}

/// One observable step of the entry path, in the order performed.
#[derive(Clone, Copy, PartialEq, Eq, Structural, Debug)]
pub enum Action {
    /// Run the ELF relocation engine over the image placed at `base`, with
    /// the dynamic-section metadata at address `dynamic`.
    RelocateElf { base: u64, dynamic: u64 },
    /// Run the PE relocation engine: the image links at `image_base` and
    /// was placed at `load_base`; its relocation table spans
    /// `table_size` bytes from `table_offset`.
    RelocatePe { image_base: u64, load_base: u64, table_offset: u64, table_size: u64 },
    /// Overwrite the stack-probe shim with an immediate return.
    DisableStackProbe,
    /// Initialize the platform layer from the service table at the given
    /// address; written exactly once, before any reader exists.
    PlatformInit(u64),
    /// Invoke application logic.
    CallApplication,
    /// Invoke the termination service; it never returns.
    Exit { via: ExitVia, status: u64 },
}

/// How the termination service is reached: a standalone Linux launch issues
/// the raw process-exit system call numbered 231; every other combination
/// exits through the initialized platform layer's service.
pub open spec fn spec_exit_via(os: Os, mode: Mode) -> ExitVia {
    if os == Os::Linux && mode == Mode::Standalone {
        ExitVia::RawSyscall(231)
    } else {
        ExitVia::HostService
    }
}

/// The bootstrap's actions after the relocation pass, for a service table at
/// `service_table`: initialize the platform layer from that one address,
/// invoke application logic, terminate with status zero.
pub open spec fn spec_bootstrap_actions(service_table: u64, os: Os, mode: Mode) -> Seq<Action> {
    seq![
        Action::PlatformInit(service_table),
        Action::CallApplication,
        Action::Exit { via: spec_exit_via(os, mode), status: 0 },
    ]
}

/// The bootstrap: platform initialization from one service-table address,
/// the application call, then the termination service with status zero.
/// The exit action never carries any status but zero: this layer has no
/// mechanism to report another.
pub fn bootstrap_actions(service_table: u64, os: Os, mode: Mode) -> (a: Vec<Action>)
    ensures
        a@ =~= spec_bootstrap_actions(service_table, os, mode),
        a@[2] matches Action::Exit { via: _, status } && status == 0,
{
    let via = if matches!(os, Os::Linux) && matches!(mode, Mode::Standalone) {
        ExitVia::RawSyscall(231)
    } else {
        ExitVia::HostService
    };
    let mut a: Vec<Action> = Vec::new();
    a.push(Action::PlatformInit(service_table));
    a.push(Action::CallApplication);
    a.push(Action::Exit { via, status: 0 });
    a
}

/// What one entry stub does: the stack pointer all its calls are issued
/// under, and its actions in order.
pub struct EntryPlan {
    pub sp_at_calls: u64,
    pub actions: Vec<Action>,
}

/// The AMD64 Linux entry stub.  It clears the low four bits of the incoming
/// stack pointer, so every call it performs sees a 16-byte-aligned stack per
/// the System V ABI; it moves the architecture-defined entry argument (the
/// service-table address under a loader; the kernel's initial-stack
/// convention standalone) into a register the relocation routine is
/// guaranteed not to clobber; it relocates the image placed at the running
/// program's header address with the dynamic-section metadata, and only then
/// hands the preserved argument to the bootstrap.
pub fn amd64_linux_entry(sp: u64, entry_arg: u64, ehdr_start: u64, dynamic: u64, mode: Mode) -> (p:
    EntryPlan)
    ensures
        p.sp_at_calls == sp & 0xffff_ffff_ffff_fff0,
        p.sp_at_calls % 16 == 0,
        p.actions@ =~= seq![Action::RelocateElf { base: ehdr_start, dynamic }]
            + spec_bootstrap_actions(entry_arg, Os::Linux, mode),
{
    let sp_at_calls = align_sysv_amd64(sp);
    let preserved = entry_arg;
    let mut actions: Vec<Action> = Vec::new();
    actions.push(Action::RelocateElf { base: ehdr_start, dynamic });
    let mut rest = bootstrap_actions(preserved, Os::Linux, mode);
    actions.append(&mut rest);
    EntryPlan { sp_at_calls, actions }
}

/// The reduced AMD64 Linux entry stub of a build with neither loader support
/// nor self-relocation: it realigns the stack per the System V ABI, ignores
/// the kernel-provided argument area, runs application logic, and issues the
/// raw process-exit system call with status zero.
pub fn amd64_linux_static_entry(sp: u64) -> (p: EntryPlan)
    ensures
        p.sp_at_calls == sp & 0xffff_ffff_ffff_fff0,
        p.sp_at_calls % 16 == 0,
        p.actions@ =~= seq![
            Action::CallApplication,
            Action::Exit { via: ExitVia::RawSyscall(231), status: 0 },
        ],
{
    let sp_at_calls = align_sysv_amd64(sp);
    let mut actions: Vec<Action> = Vec::new();
    actions.push(Action::CallApplication);
    actions.push(Action::Exit { via: ExitVia::RawSyscall(231), status: 0 });
    EntryPlan { sp_at_calls, actions }
}

/// The AMD64 Windows-ABI entry stub, used under a custom loader.  It aligns
/// the stack to a 32-byte boundary and reserves the 32-byte shadow space the
/// Microsoft x64 ABI demands; it reads the platform descriptor address from
/// the service table's fixed slot and the descriptor's fields from their
/// fixed offsets; it hands the PE relocation engine the image's link-time
/// base, the placement address less the leading unused bytes, and the
/// relocation-table offset moved up by the same count; it neutralizes the
/// stack-probe shim exactly when the descriptor's flag bit says the host
/// cannot support it; and it hands the preserved service-table address to
/// the bootstrap.  Memory is word-granular: `table_at` is the service
/// table's word index, and the descriptor slot holds the descriptor's word
/// index.
pub fn amd64_windows_entry(sp: u64, mem: &Vec<u64>, table_at: usize) -> (p: EntryPlan)
    requires
        sp >= 64,
        table_at + DESCRIPTOR_SLOT < mem@.len(),
        mem@[table_at + DESCRIPTOR_SLOT] + DESC_WORDS <= mem@.len(),
        mem@[table_at + DESCRIPTOR_SLOT] <= usize::MAX,
    ensures
        p.sp_at_calls == (sp & 0xffff_ffff_ffff_ffe0) - 32,
        p.sp_at_calls % 32 == 0,
        ({
            let desc_at = mem@[table_at + DESCRIPTOR_SLOT] as int;
            let d = PlatformDescriptor {
                reloc_table_base: mem@[desc_at],
                flags: mem@[desc_at + 1],
                leading_unused: mem@[desc_at + 2],
                image_base: mem@[desc_at + 3],
                reloc_offset: mem@[desc_at + 4],
                reloc_size: mem@[desc_at + 5],
            };
            let relocate = Action::RelocatePe {
                image_base: d.image_base,
                load_base: wsub(mem@[table_at as int], d.leading_unused),
                table_offset: wadd(d.reloc_offset, d.leading_unused),
                table_size: d.reloc_size,
            };
            let tail = spec_bootstrap_actions(table_at as u64, Os::Windows, Mode::Loader);
            if spec_probe_disabled(d.flags) {
                p.actions@ =~= seq![relocate, Action::DisableStackProbe] + tail
            } else {
                p.actions@ =~= seq![relocate] + tail
            }
        }),
{
    let sp_at_calls = align_ms_amd64(sp);
    let desc_addr = read_descriptor_address(mem, table_at);
    let desc_at = desc_addr as usize;
    let d = load_descriptor(mem, desc_at);
    let table_base = mem[table_at];
    let load_base = word_sub(table_base, d.leading_unused);
    let table_offset = word_add(d.reloc_offset, d.leading_unused);
    let mut actions: Vec<Action> = Vec::new();
    actions.push(
        Action::RelocatePe {
            image_base: d.image_base,
            load_base,
            table_offset,
            table_size: d.reloc_size,
        },
    );
    if probe_disabled(d.flags) {
        actions.push(Action::DisableStackProbe);
    }
    let mut rest = bootstrap_actions(table_at as u64, Os::Windows, Mode::Loader);
    actions.append(&mut rest);
    EntryPlan { sp_at_calls, actions }
}

/// The image base the i386 entry stub derives when no address table is
/// usable yet: a local call leaves its return address on the stack, thirteen
/// opcode bytes past the entry point; subtracting those thirteen bytes and
/// the entry point's link-time offset (returned by a leaf routine placed in
/// writable memory) yields the in-memory image base.
pub fn i686_image_base(return_addr: u32, start_offset: u32) -> (base: u32)
    requires
        start_offset + 13 <= return_addr,
    ensures
        base == return_addr - 13 - start_offset,
{
    return_addr - start_offset - 13
}

/// The i386 Linux entry stub.  It captures the entry argument from the
/// initial stack, clears the low four bits of the stack pointer, derives the
/// image base from a local call's return address and the two leaf routines
/// that return link-time offsets, pushes two relocation arguments after an
/// eight-byte adjustment — so the stack stays 16-byte aligned at the
/// relocation call — and hands the preserved argument to the bootstrap with
/// that same alignment.
pub fn i686_linux_entry(
    sp: u32,
    entry_arg: u32,
    return_addr: u32,
    start_offset: u32,
    dynamic_offset: u32,
    mode: Mode,
) -> (p: EntryPlan)
    requires
        sp & 0xffff_fff0 >= 16,
        start_offset + 13 <= return_addr,
        return_addr - 13 - start_offset + dynamic_offset <= u32::MAX,
    ensures
        p.sp_at_calls == (sp & 0xffff_fff0) - 16,
        p.sp_at_calls % 16 == 0,
        ({
            let base = (return_addr - 13 - start_offset) as u32;
            p.actions@ =~= seq![
                Action::RelocateElf { base: base as u64, dynamic: (base + dynamic_offset) as u64 },
            ] + spec_bootstrap_actions(entry_arg as u64, Os::Linux, mode)
        }),
{
    let aligned = align_sysv_i686(sp);
    let sp_at_calls = aligned - 16;
    proof {
        assert((sp & 0xffff_fff0) % 16 == 0 ==> ((sp & 0xffff_fff0) >= 16 ==> ((sp & 0xffff_fff0)
            - 16) % 16 == 0)) by (bit_vector);
    }
    let base = i686_image_base(return_addr, start_offset);
    let dynamic = base + dynamic_offset;
    let mut actions: Vec<Action> = Vec::new();
    actions.push(Action::RelocateElf { base: base as u64, dynamic: dynamic as u64 });
    let mut rest = bootstrap_actions(entry_arg as u64, Os::Linux, mode);
    actions.append(&mut rest);
    EntryPlan { sp_at_calls: sp_at_calls as u64, actions }
}

/// Law: mode transparency.  Whatever service table each launch mode
/// produced — handed over by a loader, or fabricated locally standalone —
/// the bootstrap routes application logic through an identical call
/// signature: platform initialization from exactly one table address,
/// then the very same application-call action, then termination with
/// status zero.
pub proof fn lemma_mode_transparency(loader_table: u64, standalone_table: u64, os: Os)
    ensures
        spec_bootstrap_actions(loader_table, os, Mode::Loader)[0] == Action::PlatformInit(
            loader_table,
        ),
        spec_bootstrap_actions(standalone_table, os, Mode::Standalone)[0] == Action::PlatformInit(
            standalone_table,
        ),
        spec_bootstrap_actions(loader_table, os, Mode::Loader)[1] == spec_bootstrap_actions(
            standalone_table,
            os,
            Mode::Standalone,
        )[1],
        spec_bootstrap_actions(loader_table, os, Mode::Loader)[1] == Action::CallApplication,
        spec_bootstrap_actions(loader_table, os, Mode::Loader)[2] matches Action::Exit {
            via: _,
            status,
        } && status == 0,
        spec_bootstrap_actions(standalone_table, os, Mode::Standalone)[2] matches Action::Exit {
            via: _,
            status,
        } && status == 0,
        spec_bootstrap_actions(loader_table, os, Mode::Loader).len() == spec_bootstrap_actions(
            standalone_table,
            os,
            Mode::Standalone,
        ).len(),
{
}

} // verus!
