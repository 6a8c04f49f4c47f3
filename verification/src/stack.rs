//! Stack discipline of the entry path: ABI alignment of the stack pointer,
//! and the stack-probe shim that commits guard-protected pages ahead of a
//! large stack frame.
//!
//! The probe walks backward from the current stack pointer in 4096-byte
//! strides, touching one byte per stride, until fewer than 4096 bytes of the
//! requested frame remain, then touches the final partial stride.  When a
//! binary built for the Windows ABI runs on a host that neither requires nor
//! safely supports incremental stack commit, the shim is neutralized in
//! place — overwritten with an immediate return — at most once, during
//! bootstrap, strictly before any large-frame code can run.

use vstd::prelude::*;

use crate::machine::{word_sub, wsub};

verus! {

/// One probe stride: the page granularity the shim walks in.
pub const PROBE_STRIDE: u64 = 4096;

/// Stack-pointer alignment of the System V AMD64 entry stub: the low four
/// bits are cleared, so the pointer lands on the 16-byte boundary the ABI
/// demands before a call, moving down by less than one boundary.
pub fn align_sysv_amd64(sp: u64) -> (r: u64)
    ensures
        r == sp & 0xffff_ffff_ffff_fff0,
        r % 16 == 0,
        r <= sp,
        sp - r < 16,
{
    proof {
        assert((sp & 0xffff_ffff_ffff_fff0) % 16 == 0 && (sp & 0xffff_ffff_ffff_fff0) <= sp && sp
            - (sp & 0xffff_ffff_ffff_fff0) < 16) by (bit_vector);
    }
    sp & 0xffff_ffff_ffff_fff0
}

/// Stack-pointer alignment of the Microsoft x64 entry stub: the low five
/// bits are cleared and a 32-byte shadow space is reserved below the
/// boundary, so the pointer stays 32-byte aligned and the shadow space lies
/// wholly below the incoming pointer.
pub fn align_ms_amd64(sp: u64) -> (r: u64)
    requires
        sp >= 64,
    ensures
        r == (sp & 0xffff_ffff_ffff_ffe0) - 32,
        r % 32 == 0,
        r + 32 <= sp,
{
    proof {
        assert((sp & 0xffff_ffff_ffff_ffe0) % 32 == 0 && (sp & 0xffff_ffff_ffff_ffe0) <= sp && sp
            - (sp & 0xffff_ffff_ffff_ffe0) < 32 && (sp >= 64 ==> (sp & 0xffff_ffff_ffff_ffe0)
            >= 32)) by (bit_vector);
    }
    (sp & 0xffff_ffff_ffff_ffe0) - 32
}

/// Stack-pointer alignment of the i386 System V entry stub: the low four
/// bits of the 32-bit pointer are cleared.
pub fn align_sysv_i686(sp: u32) -> (r: u32)
    ensures
        r == sp & 0xffff_fff0,
        r % 16 == 0,
        r <= sp,
        sp - r < 16,
{
    proof {
        assert((sp & 0xffff_fff0) % 16 == 0 && (sp & 0xffff_fff0) <= sp && sp - (sp & 0xffff_fff0)
            < 16) by (bit_vector);
    }
    sp & 0xffff_fff0
}

/// The addresses the probe loop touches once fewer than one stride of the
/// requested frame may remain: while more than one stride remains, step one
/// stride down and touch; then touch the final partial stride.
pub open spec fn probe_loop_touches(sp: u64, remaining: u64) -> Seq<u64>
    decreases remaining,
{
    if remaining > PROBE_STRIDE {
        seq![wsub(sp, PROBE_STRIDE)] + probe_loop_touches(
            wsub(sp, PROBE_STRIDE),
            (remaining - PROBE_STRIDE) as u64,
        )
    } else {
        seq![wsub(sp, remaining)]
    }
}

/// The addresses an enabled probe touches for a requested frame of `frame`
/// bytes below the stack pointer `sp`: nothing but the final partial stride
/// for a small frame, else one touch per full stride and one for the rest.
pub open spec fn probe_touches(sp: u64, frame: u64) -> Seq<u64> {
    if frame < PROBE_STRIDE {
        seq![wsub(sp, frame)]
    } else {
        seq![wsub(sp, PROBE_STRIDE)] + probe_loop_touches(
            wsub(sp, PROBE_STRIDE),
            (frame - PROBE_STRIDE) as u64,
        )
    }
}

/// The stack-probe shim.  `disabled` records whether the in-place patch that
/// turns the shim into an immediate return has been applied.
pub struct StackProbe {
    pub disabled: bool,
}

impl StackProbe {
    /// The shim as the build emits it: probing enabled.
    pub fn new() -> (p: StackProbe)
        ensures
            !p.disabled,
    {
        StackProbe { disabled: false }
    }

    /// The in-place neutralization: the shim's first byte is overwritten
    /// with a return instruction.  Applied at most once, during bootstrap.
    pub fn disable(&mut self)
        requires
            !old(self).disabled,
        ensures
            final(self).disabled,
    {
        self.disabled = true;
    }

    /// Runs the shim for a frame of `frame` bytes below the stack pointer
    /// `sp` and returns the addresses it touched, in order.  A disabled shim
    /// returns at once and touches no address at all; an enabled shim walks
    /// the strides of [`probe_touches`].
    pub fn probe(&self, sp: u64, frame: u64) -> (touched: Vec<u64>)
        ensures
            self.disabled ==> touched@ =~= Seq::<u64>::empty(),
            !self.disabled ==> touched@ =~= probe_touches(sp, frame),
    {
        let mut touched: Vec<u64> = Vec::new();
        if self.disabled {
            return touched;
        }
        let mut at = sp;
        let mut remaining = frame;
        if remaining >= PROBE_STRIDE {
            at = word_sub(at, PROBE_STRIDE);
            touched.push(at);
            remaining = remaining - PROBE_STRIDE;
            while remaining > PROBE_STRIDE
                invariant
                    touched@ + probe_loop_touches(at, remaining) =~= probe_touches(sp, frame),
                decreases remaining,
            {
                at = word_sub(at, PROBE_STRIDE);
                touched.push(at);
                remaining = remaining - PROBE_STRIDE;
            }
        }
        let last = word_sub(at, remaining);
        touched.push(last);
        touched
    }
}

/// Helper: an element of a sequence is an element of any sequence that
/// extends it on the left by one.
proof fn lemma_cons_contains(h: u64, s: Seq<u64>, x: u64)
    requires
        h == x || s.contains(x),
    ensures
        (seq![h] + s).contains(x),
{
    if h == x {
        assert((seq![h] + s)[0] == x);
    } else {
        let i = choose|i: int| 0 <= i < s.len() && s[i] == x;
        assert((seq![h] + s)[i + 1] == x);
    }
}

/// The address `i` full strides below the stack pointer `sp`.
pub open spec fn stride_below(sp: u64, i: int) -> u64 {
    wsub(sp, (PROBE_STRIDE * i) as u64)
}

/// Induction step of the coverage law, over the probe loop: starting at
/// stack pointer `sp` with `remaining` bytes of frame left (and the frame
/// wholly below `sp`), the loop touches every full stride below `sp`,
/// touches the bottom of the remaining frame, and touches nothing outside
/// the remaining frame.
proof fn lemma_probe_loop_covers(sp: u64, remaining: u64)
    requires
        remaining <= sp,
    ensures
        probe_loop_touches(sp, remaining).contains(wsub(sp, remaining)),
        forall|i: int|
            1 <= i && PROBE_STRIDE * i <= remaining ==> probe_loop_touches(sp, remaining).contains(
                #[trigger] stride_below(sp, i),
            ),
        forall|k: int|
            0 <= k < probe_loop_touches(sp, remaining).len() ==> sp - remaining <= #[trigger] (
            probe_loop_touches(sp, remaining)[k]) <= sp,
    decreases remaining,
{
    if remaining > PROBE_STRIDE {
        let next = wsub(sp, PROBE_STRIDE);
        let rest = (remaining - PROBE_STRIDE) as u64;
        lemma_probe_loop_covers(next, rest);
        lemma_cons_contains(next, probe_loop_touches(next, rest), wsub(sp, remaining));
        assert forall|k: int|
            0 <= k < probe_loop_touches(sp, remaining).len() implies sp - remaining <= #[trigger] (
        probe_loop_touches(sp, remaining)[k]) <= sp by {
            if k >= 1 {
                assert(probe_loop_touches(sp, remaining)[k] == probe_loop_touches(next, rest)[k
                    - 1]);
            }
        }
        assert forall|i: int|
            1 <= i && PROBE_STRIDE * i <= remaining implies probe_loop_touches(
            sp,
            remaining,
        ).contains(#[trigger] stride_below(sp, i)) by {
            if i == 1 {
                assert(stride_below(sp, 1) == next);
                lemma_cons_contains(next, probe_loop_touches(next, rest), next);
            } else {
                assert(PROBE_STRIDE * i == PROBE_STRIDE * (i - 1) + PROBE_STRIDE);
                assert(probe_loop_touches(next, rest).contains(stride_below(next, i - 1)));
                assert(stride_below(next, i - 1) == stride_below(sp, i));
                lemma_cons_contains(next, probe_loop_touches(next, rest), stride_below(sp, i));
            }
        }
    } else {
        assert(probe_loop_touches(sp, remaining)[0] == wsub(sp, remaining));
        assert forall|i: int|
            1 <= i && PROBE_STRIDE * i <= remaining implies probe_loop_touches(
            sp,
            remaining,
        ).contains(#[trigger] stride_below(sp, i)) by {
            assert(PROBE_STRIDE * i >= PROBE_STRIDE) by (nonlinear_arith)
                requires
                    i >= 1,
            ;
            assert(i == 1 && remaining == PROBE_STRIDE);
            assert(probe_loop_touches(sp, remaining)[0] == wsub(sp, PROBE_STRIDE));
            assert(stride_below(sp, 1) == wsub(sp, PROBE_STRIDE));
        }
    }
}

/// Law: an enabled probe for a frame that lies within the stack commits
/// every page the frame can reach.  It touches one address in every full
/// 4096-byte stride below the stack pointer, touches the bottom of the
/// frame, and touches no address outside the requested frame.
pub proof fn lemma_probe_covers_every_stride(sp: u64, frame: u64)
    requires
        frame <= sp,
    ensures
        probe_touches(sp, frame).contains(wsub(sp, frame)),
        forall|i: int|
            1 <= i && PROBE_STRIDE * i <= frame ==> probe_touches(sp, frame).contains(
                #[trigger] stride_below(sp, i),
            ),
        forall|k: int|
            0 <= k < probe_touches(sp, frame).len() ==> sp - frame <= #[trigger] (
            probe_touches(sp, frame)[k]) <= sp,
{
    if frame < PROBE_STRIDE {
        assert(probe_touches(sp, frame)[0] == wsub(sp, frame));
        assert forall|i: int|
            1 <= i && PROBE_STRIDE * i <= frame implies probe_touches(sp, frame).contains(
            #[trigger] stride_below(sp, i),
        ) by {
            assert(PROBE_STRIDE * i >= PROBE_STRIDE) by (nonlinear_arith)
                requires
                    i >= 1,
            ;
        }
    } else {
        let next = wsub(sp, PROBE_STRIDE);
        let rest = (frame - PROBE_STRIDE) as u64;
        lemma_probe_loop_covers(next, rest);
        lemma_cons_contains(next, probe_loop_touches(next, rest), wsub(sp, frame));
        assert forall|k: int|
            0 <= k < probe_touches(sp, frame).len() implies sp - frame <= #[trigger] (
        probe_touches(sp, frame)[k]) <= sp by {
            if k >= 1 {
                assert(probe_touches(sp, frame)[k] == probe_loop_touches(next, rest)[k - 1]);
            }
        }
        assert forall|i: int|
            1 <= i && PROBE_STRIDE * i <= frame implies probe_touches(sp, frame).contains(
            #[trigger] stride_below(sp, i),
        ) by {
            if i == 1 {
                assert(stride_below(sp, 1) == next);
                lemma_cons_contains(next, probe_loop_touches(next, rest), next);
            } else {
                assert(PROBE_STRIDE * i == PROBE_STRIDE * (i - 1) + PROBE_STRIDE);
                assert(probe_loop_touches(next, rest).contains(stride_below(next, i - 1)));
                assert(stride_below(next, i - 1) == stride_below(sp, i));
                lemma_cons_contains(next, probe_loop_touches(next, rest), stride_below(sp, i));
            }
        }
    }
}

/// The conditional patch the loader-mode entry stub applies during
/// bootstrap: exactly when the platform descriptor's flag bit says the host
/// neither requires nor safely supports incremental stack commit, the shim
/// is neutralized in place, so a later large-frame path touches no page and
/// cannot fault even over unmapped pages.
pub fn apply_probe_policy(probe: &mut StackProbe, flags: u64)
    requires
        !old(probe).disabled,
    ensures
        final(probe).disabled == crate::platform::spec_probe_disabled(flags),
{
    if crate::platform::probe_disabled(flags) {
        probe.disable();
    }
}

/// The stack-probe hook of a build whose probe is compiled out entirely:
/// it does nothing and touches no page.
pub fn __rust_probestack() {
}

} // verus!
