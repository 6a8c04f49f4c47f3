//! A freestanding bootstrap and self-relocation layer, stated over plain
//! values.
//!
//! The library models everything a no-runtime binary must do before ordinary
//! program logic runs: align the call stack per the target ABI, apply
//! position-independent relocations to the loaded image, discover or
//! fabricate a table of host services, and transfer control to application
//! logic followed by a termination service.  The machine image is held at
//! word granularity (`Vec<u64>`), addresses are word indexes, and every
//! register-level computation of the entry stubs is written out as a
//! verified function over those values.

use vstd::prelude::*;

pub mod entry;
pub mod machine;
pub mod platform;
pub mod reloc;
pub mod stack;

verus! {

/// The build-time fatal hooks a freestanding binary must define: panic,
/// allocation failure, forced unwind, and the exception personality.
#[derive(Clone, Copy, PartialEq, Eq, Structural, Debug)]
pub enum FatalKind {
    Panic,
    AllocFailure,
    ForcedUnwind,
    ExceptionPersonality,
}

/// The only behaviour a fatal hook may show: an unrecoverable trap, with no
/// unwinding, no destructor execution, and no cleanup.  Reaching a trap
/// forfeits every invariant of the process.
#[derive(Clone, Copy, PartialEq, Eq, Structural, Debug)]
pub enum FatalOutcome {
    Trap,
}

/// Every fatal hook shares one externally observable behaviour: the process
/// reaches an unrecoverable trap immediately, whatever the kind of failure.
pub fn fatal_outcome(kind: FatalKind) -> (r: FatalOutcome)
    ensures
        r == FatalOutcome::Trap,
{
    let _ = kind;
    FatalOutcome::Trap
}

} // verus!
