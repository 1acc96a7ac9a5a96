//! The CPU control family: the carry-flag instructions CCF and SCF, NOP,
//! the interrupt master switches DI and EI, and the HALT/STOP stubs.

use vstd::prelude::*;

use crate::cpu::{CpuView, CPU};

verus! {

/// CCF: complement the carry; flags - 0 0 ~C.
pub open spec fn spec_ccf(s: CpuView) -> CpuView {
    s.with_regs(s.regs.with_flags(s.regs.flags.z, false, false, !s.regs.flags.c))
}

/// SCF: set the carry; flags - 0 0 1.
pub open spec fn spec_scf(s: CpuView) -> CpuView {
    s.with_regs(s.regs.with_flags(s.regs.flags.z, false, false, true))
}

/// DI: clear the interrupt master enable.
pub open spec fn spec_di(s: CpuView) -> CpuView {
    s.with_ime(false)
}

/// EI: set the interrupt master enable. Applied at once, without the
/// one-instruction delay of the real hardware.
pub open spec fn spec_ei(s: CpuView) -> CpuView {
    s.with_ime(true)
}

pub fn ccf(cpu: &mut CPU)
    requires
        old(cpu)@.wf(),
    ensures
        final(cpu)@ == spec_ccf(old(cpu)@),
        final(cpu)@.wf(),
{
    cpu.registers.write_s_flag(false);
    cpu.registers.write_hc_flag(false);
    let c = cpu.registers.read_c_flag();
    cpu.registers.write_c_flag(!c);
}

pub fn scf(cpu: &mut CPU)
    requires
        old(cpu)@.wf(),
    ensures
        final(cpu)@ == spec_scf(old(cpu)@),
        final(cpu)@.wf(),
{
    cpu.registers.write_s_flag(false);
    cpu.registers.write_hc_flag(false);
    cpu.registers.write_c_flag(true);
}

pub fn nop() {
}

/// HALT is recognised but treated as a no-op at this layer; a full
/// implementation would freeze the CPU until an enabled interrupt becomes
/// pending.
pub fn halt() {
}

/// STOP is recognised but treated as a no-op at this layer.
pub fn stop() {
}

pub fn di(cpu: &mut CPU)
    requires
        old(cpu)@.wf(),
    ensures
        final(cpu)@ == spec_di(old(cpu)@),
        final(cpu)@.wf(),
{
    cpu.interrupts_enabled = false;
}

pub fn ei(cpu: &mut CPU)
    requires
        old(cpu)@.wf(),
    ensures
        final(cpu)@ == spec_ei(old(cpu)@),
        final(cpu)@.wf(),
{
    cpu.interrupts_enabled = true;
}

} // verus!
