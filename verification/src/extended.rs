use crate::alu::{flag, Shift};
use crate::cpu::{Flags, Reg16, Reg8, CPU};
use crate::instructions::{retire, StagePassThrough};
use vstd::prelude::*;

verus! {

/// The byte with only the bit set that an extended opcode names in its bits 3 to 5.
pub open spec fn spec_bit_mask(n: u8) -> u8 {
    1u8 << (((n / 8) % 8) as u8)
}

/// The mask of the bit that an extended opcode names.
#[verifier::when_used_as_spec(spec_bit_mask)]
pub fn bit_mask(n: u8) -> (mask: u8)
    ensures
        mask == spec_bit_mask(n),
{
    1u8 << ((n / 8) % 8)
}

/// What the extended instruction with second byte `cb_op` may hand on: it has at most
/// three cycles after the one that reads the second byte, a cycle past the first only
/// where it works on the byte at HL, and a third only where it writes that byte back,
/// which `BIT` does not.
pub open spec fn cb_stage_ok(passed: StagePassThrough) -> bool {
    &&& passed.instruction_stage <= 3
    &&& passed.instruction_stage >= 2 ==> passed.cb_op % 8 == 6
    &&& passed.instruction_stage == 3 ==> !(0x40 <= passed.cb_op < 0x80)
}

/// The rotations and shifts, on operand `n % 8`. With a register the instruction
/// completes in cycle 1. With the byte at HL, cycle 1 reads, computes and sets the
/// flags, cycle 2 writes the byte back, cycle 3 completes.
pub open spec fn spec_cb_shift(cpu: CPU, n: u8, passed: StagePassThrough) -> (
    CPU,
    StagePassThrough,
) {
    let result = Shift::spec_of_opcode(n).spec_apply(cpu.source(n % 8), cpu.reg_file.flags.C);
    if passed.instruction_stage == 1 {
        if n % 8 == 6 {
            (
                cpu.after_source(6).with_flags(result.1),
                StagePassThrough { data: result.0, ..StagePassThrough::at(2) },
            )
        } else {
            retire(cpu.with_reg8(Reg8::spec_operand(n % 8), result.0).with_flags(result.1))
        }
    } else if passed.instruction_stage == 2 {
        (cpu.at(cpu.hl()).spec_write_at(cpu.hl(), passed.data), StagePassThrough::at(3))
    } else {
        retire(cpu)
    }
}

/// The two cycles that end an extended instruction on the byte at HL: write the byte
/// back, complete.
fn write_back(cpu: &mut CPU, passed: StagePassThrough) -> (next: StagePassThrough)
    requires
        2 <= passed.instruction_stage <= 3,
    ensures
        passed.instruction_stage == 2 ==> (*final(cpu), next) == (
            old(cpu).at(old(cpu).hl()).spec_write_at(old(cpu).hl(), passed.data),
            StagePassThrough::at(3),
        ),
        passed.instruction_stage == 3 ==> (*final(cpu), next) == retire(*old(cpu)),
        final(cpu).same_control(*old(cpu)),
        old(cpu).regs_wf() ==> final(cpu).regs_wf(),
{
    let mut pass_to_next_stage = StagePassThrough::default();
    if passed.instruction_stage == 2 {
        let hl: u16 = cpu.reg_file.get16(Reg16::HL);
        cpu.write_at(hl, passed.data);
        pass_to_next_stage.instruction_stage = 3;
    } else {
        cpu.advance_pc();
    }
    pass_to_next_stage
}

fn shift_operand(cpu: &mut CPU, n: u8, passed: StagePassThrough, shift: Shift) -> (next:
    StagePassThrough)
    requires
        old(cpu).regs_wf(),
        n < 0x40,
        shift == Shift::spec_of_opcode(n),
        1 <= passed.instruction_stage <= (if n % 8 == 6 { 3int } else { 1int }),
    ensures
        (*final(cpu), next) == spec_cb_shift(*old(cpu), n, passed),
        final(cpu).same_control(*old(cpu)),
        final(cpu).regs_wf(),
        next.instruction_stage == 0 || (n % 8 == 6 && next.instruction_stage
            == passed.instruction_stage + 1),
        next.flags.wf(),
{
    match passed.instruction_stage {
        1 => {
            let mut pass_to_next_stage = StagePassThrough::default();
            let carry: u8 = cpu.reg_file.flags.C;
            let operand: u8 = cpu.read_source(n % 8);
            let (val, flags) = shift.apply(operand, carry);
            if n % 8 == 6 {
                pass_to_next_stage.instruction_stage = 2;
                pass_to_next_stage.data = val;
            } else {
                cpu.reg_file.set8(Reg8::operand(n % 8), val);
                cpu.advance_pc();
            }
            cpu.reg_file.flags = flags;
            pass_to_next_stage
        },
        _ => write_back(cpu, passed),
    }
}

/// `RLC`
pub(crate) fn rlc(cpu: &mut CPU, n: u8, passed: StagePassThrough) -> (next: StagePassThrough)
    requires
        old(cpu).regs_wf(),
        n / 8 == 0,
        1 <= passed.instruction_stage <= (if n % 8 == 6 { 3int } else { 1int }),
    ensures
        (*final(cpu), next) == spec_cb_shift(*old(cpu), n, passed),
        final(cpu).same_control(*old(cpu)),
        final(cpu).regs_wf(),
        next.instruction_stage == 0 || (n % 8 == 6 && next.instruction_stage
            == passed.instruction_stage + 1),
        next.flags.wf(),
{
    shift_operand(cpu, n, passed, Shift::Rlc)
}

/// `RRC`
pub(crate) fn rrc(cpu: &mut CPU, n: u8, passed: StagePassThrough) -> (next: StagePassThrough)
    requires
        old(cpu).regs_wf(),
        n / 8 == 1,
        1 <= passed.instruction_stage <= (if n % 8 == 6 { 3int } else { 1int }),
    ensures
        (*final(cpu), next) == spec_cb_shift(*old(cpu), n, passed),
        final(cpu).same_control(*old(cpu)),
        final(cpu).regs_wf(),
        next.instruction_stage == 0 || (n % 8 == 6 && next.instruction_stage
            == passed.instruction_stage + 1),
        next.flags.wf(),
{
    shift_operand(cpu, n, passed, Shift::Rrc)
}

/// `RL`
pub(crate) fn rl(cpu: &mut CPU, n: u8, passed: StagePassThrough) -> (next: StagePassThrough)
    requires
        old(cpu).regs_wf(),
        n / 8 == 2,
        1 <= passed.instruction_stage <= (if n % 8 == 6 { 3int } else { 1int }),
    ensures
        (*final(cpu), next) == spec_cb_shift(*old(cpu), n, passed),
        final(cpu).same_control(*old(cpu)),
        final(cpu).regs_wf(),
        next.instruction_stage == 0 || (n % 8 == 6 && next.instruction_stage
            == passed.instruction_stage + 1),
        next.flags.wf(),
{
    shift_operand(cpu, n, passed, Shift::Rl)
}

/// `RR`
pub(crate) fn rr(cpu: &mut CPU, n: u8, passed: StagePassThrough) -> (next: StagePassThrough)
    requires
        old(cpu).regs_wf(),
        n / 8 == 3,
        1 <= passed.instruction_stage <= (if n % 8 == 6 { 3int } else { 1int }),
    ensures
        (*final(cpu), next) == spec_cb_shift(*old(cpu), n, passed),
        final(cpu).same_control(*old(cpu)),
        final(cpu).regs_wf(),
        next.instruction_stage == 0 || (n % 8 == 6 && next.instruction_stage
            == passed.instruction_stage + 1),
        next.flags.wf(),
{
    shift_operand(cpu, n, passed, Shift::Rr)
}

/// `SLA`
pub(crate) fn sla(cpu: &mut CPU, n: u8, passed: StagePassThrough) -> (next: StagePassThrough)
    requires
        old(cpu).regs_wf(),
        n / 8 == 4,
        1 <= passed.instruction_stage <= (if n % 8 == 6 { 3int } else { 1int }),
    ensures
        (*final(cpu), next) == spec_cb_shift(*old(cpu), n, passed),
        final(cpu).same_control(*old(cpu)),
        final(cpu).regs_wf(),
        next.instruction_stage == 0 || (n % 8 == 6 && next.instruction_stage
            == passed.instruction_stage + 1),
        next.flags.wf(),
{
    shift_operand(cpu, n, passed, Shift::Sla)
}

/// `SRA`
pub(crate) fn sra(cpu: &mut CPU, n: u8, passed: StagePassThrough) -> (next: StagePassThrough)
    requires
        old(cpu).regs_wf(),
        n / 8 == 5,
        1 <= passed.instruction_stage <= (if n % 8 == 6 { 3int } else { 1int }),
    ensures
        (*final(cpu), next) == spec_cb_shift(*old(cpu), n, passed),
        final(cpu).same_control(*old(cpu)),
        final(cpu).regs_wf(),
        next.instruction_stage == 0 || (n % 8 == 6 && next.instruction_stage
            == passed.instruction_stage + 1),
        next.flags.wf(),
{
    shift_operand(cpu, n, passed, Shift::Sra)
}

/// `SWAP`
pub(crate) fn swap(cpu: &mut CPU, n: u8, passed: StagePassThrough) -> (next: StagePassThrough)
    requires
        old(cpu).regs_wf(),
        n / 8 == 6,
        1 <= passed.instruction_stage <= (if n % 8 == 6 { 3int } else { 1int }),
    ensures
        (*final(cpu), next) == spec_cb_shift(*old(cpu), n, passed),
        final(cpu).same_control(*old(cpu)),
        final(cpu).regs_wf(),
        next.instruction_stage == 0 || (n % 8 == 6 && next.instruction_stage
            == passed.instruction_stage + 1),
        next.flags.wf(),
{
    shift_operand(cpu, n, passed, Shift::Swap)
}

/// `SRL`
pub(crate) fn srl(cpu: &mut CPU, n: u8, passed: StagePassThrough) -> (next: StagePassThrough)
    requires
        old(cpu).regs_wf(),
        n / 8 == 7,
        1 <= passed.instruction_stage <= (if n % 8 == 6 { 3int } else { 1int }),
    ensures
        (*final(cpu), next) == spec_cb_shift(*old(cpu), n, passed),
        final(cpu).same_control(*old(cpu)),
        final(cpu).regs_wf(),
        next.instruction_stage == 0 || (n % 8 == 6 && next.instruction_stage
            == passed.instruction_stage + 1),
        next.flags.wf(),
{
    shift_operand(cpu, n, passed, Shift::Srl)
}

/// `BIT b,r`: Z tells whether bit `(n / 8) % 8` of operand `n % 8` is zero, N is
/// cleared, H is set, C is kept. With a register the instruction completes in cycle 1.
/// With the byte at HL, cycle 1 reads and tests, cycle 2 completes.
pub open spec fn spec_cb_bit(cpu: CPU, n: u8, passed: StagePassThrough) -> (
    CPU,
    StagePassThrough,
) {
    let flags = Flags {
        Z: flag(cpu.source(n % 8) & spec_bit_mask(n) == 0),
        N: 0,
        H: 1,
        C: cpu.reg_file.flags.C,
    };
    if passed.instruction_stage == 1 {
        if n % 8 == 6 {
            (cpu.after_source(6).with_flags(flags), StagePassThrough::at(2))
        } else {
            retire(cpu.with_flags(flags))
        }
    } else {
        retire(cpu)
    }
}

pub(crate) fn bit(cpu: &mut CPU, n: u8, passed: StagePassThrough) -> (next: StagePassThrough)
    requires
        old(cpu).regs_wf(),
        0x40 <= n < 0x80,
        1 <= passed.instruction_stage <= (if n % 8 == 6 { 2int } else { 1int }),
    ensures
        (*final(cpu), next) == spec_cb_bit(*old(cpu), n, passed),
        final(cpu).same_control(*old(cpu)),
        final(cpu).regs_wf(),
        next.instruction_stage == 0 || (n % 8 == 6 && next.instruction_stage == 2),
        next.flags.wf(),
{
    let mut pass_to_next_stage = StagePassThrough::default();
    match passed.instruction_stage {
        1 => {
            let mask: u8 = bit_mask(n);
            let carry: u8 = cpu.reg_file.flags.C;
            let val: u8 = cpu.read_source(n % 8);
            let flags = Flags { Z: if (val & mask) == 0 { 1 } else { 0 }, N: 0, H: 1, C: carry };
            if n % 8 == 6 {
                pass_to_next_stage.instruction_stage = 2;
            } else {
                cpu.advance_pc();
            }
            cpu.reg_file.flags = flags;
        },
        _ => {
            cpu.advance_pc();
        },
    }
    pass_to_next_stage
}

/// `RES b,r` clears and `SET b,r` (opcodes from `0xC0`) sets bit `(n / 8) % 8` of
/// operand `n % 8`; no flag changes. With a register the instruction completes in
/// cycle 1. With the byte at HL, cycle 1 reads and computes, cycle 2 writes the byte
/// back, cycle 3 completes.
pub open spec fn spec_cb_res_set(cpu: CPU, n: u8, passed: StagePassThrough) -> (
    CPU,
    StagePassThrough,
) {
    let value = if n < 0xC0 {
        cpu.source(n % 8) & !spec_bit_mask(n)
    } else {
        cpu.source(n % 8) | spec_bit_mask(n)
    };
    if passed.instruction_stage == 1 {
        if n % 8 == 6 {
            (cpu.after_source(6), StagePassThrough { data: value, ..StagePassThrough::at(2) })
        } else {
            retire(cpu.with_reg8(Reg8::spec_operand(n % 8), value))
        }
    } else if passed.instruction_stage == 2 {
        (cpu.at(cpu.hl()).spec_write_at(cpu.hl(), passed.data), StagePassThrough::at(3))
    } else {
        retire(cpu)
    }
}

pub(crate) fn res(cpu: &mut CPU, n: u8, passed: StagePassThrough) -> (next: StagePassThrough)
    requires
        old(cpu).regs_wf(),
        0x80 <= n < 0xC0,
        1 <= passed.instruction_stage <= (if n % 8 == 6 { 3int } else { 1int }),
    ensures
        (*final(cpu), next) == spec_cb_res_set(*old(cpu), n, passed),
        final(cpu).same_control(*old(cpu)),
        final(cpu).regs_wf(),
        next.instruction_stage == 0 || (n % 8 == 6 && next.instruction_stage
            == passed.instruction_stage + 1),
        next.flags.wf(),
{
    match passed.instruction_stage {
        1 => {
            let mut pass_to_next_stage = StagePassThrough::default();
            let mask: u8 = !bit_mask(n);
            let val: u8 = cpu.read_source(n % 8);
            if n % 8 == 6 {
                pass_to_next_stage.data = val & mask;
                pass_to_next_stage.instruction_stage = 2;
            } else {
                cpu.reg_file.set8(Reg8::operand(n % 8), val & mask);
                cpu.advance_pc();
            }
            pass_to_next_stage
        },
        _ => write_back(cpu, passed),
    }
}

pub(crate) fn set(cpu: &mut CPU, n: u8, passed: StagePassThrough) -> (next: StagePassThrough)
    requires
        old(cpu).regs_wf(),
        0xC0 <= n,
        1 <= passed.instruction_stage <= (if n % 8 == 6 { 3int } else { 1int }),
    ensures
        (*final(cpu), next) == spec_cb_res_set(*old(cpu), n, passed),
        final(cpu).same_control(*old(cpu)),
        final(cpu).regs_wf(),
        next.instruction_stage == 0 || (n % 8 == 6 && next.instruction_stage
            == passed.instruction_stage + 1),
        next.flags.wf(),
{
    match passed.instruction_stage {
        1 => {
            let mut pass_to_next_stage = StagePassThrough::default();
            let mask: u8 = bit_mask(n);
            let val: u8 = cpu.read_source(n % 8);
            if n % 8 == 6 {
                pass_to_next_stage.data = val | mask;
                pass_to_next_stage.instruction_stage = 2;
            } else {
                cpu.reg_file.set8(Reg8::operand(n % 8), val | mask);
                cpu.advance_pc();
            }
            pass_to_next_stage
        },
        _ => write_back(cpu, passed),
    }
}

/// What the extended instruction with second byte `n` does in a cycle after the one
/// that read `n`.
pub open spec fn spec_cb_family(cpu: CPU, n: u8, passed: StagePassThrough) -> (
    CPU,
    StagePassThrough,
) {
    if n < 0x40 {
        spec_cb_shift(cpu, n, passed)
    } else if n < 0x80 {
        spec_cb_bit(cpu, n, passed)
    } else {
        spec_cb_res_set(cpu, n, passed)
    }
}

/// The extended instructions (first byte `0xCB`). Cycle 0 reads the second byte; the
/// later cycles are those of the instruction that this byte names, and hand the byte
/// on.
pub open spec fn spec_cb_op(cpu: CPU, passed: StagePassThrough) -> (CPU, StagePassThrough) {
    if passed.instruction_stage == 0 {
        (cpu.fetch(), StagePassThrough { cb_op: cpu.operand(), ..StagePassThrough::at(1) })
    } else {
        (
            spec_cb_family(cpu, passed.cb_op, passed).0,
            StagePassThrough {
                cb_op: passed.cb_op,
                ..spec_cb_family(cpu, passed.cb_op, passed).1
            },
        )
    }
}

pub(crate) fn cb_op(cpu: &mut CPU, passed: StagePassThrough) -> (next: StagePassThrough)
    requires
        old(cpu).regs_wf(),
        cb_stage_ok(passed),
    ensures
        (*final(cpu), next) == spec_cb_op(*old(cpu), passed),
        final(cpu).same_control(*old(cpu)),
        final(cpu).regs_wf(),
        cb_stage_ok(next),
        next.flags.wf(),
{
    let mut pass_to_next_stage = StagePassThrough::default();
    match passed.instruction_stage {
        0 => {
            pass_to_next_stage.cb_op = cpu.fetch_operand();
            pass_to_next_stage.instruction_stage = 1;
        },
        _ => {
            pass_to_next_stage = match passed.cb_op {
                0x00..=0x07 => rlc(cpu, passed.cb_op, passed),
                0x08..=0x0F => rrc(cpu, passed.cb_op, passed),
                0x10..=0x17 => rl(cpu, passed.cb_op, passed),
                0x18..=0x1F => rr(cpu, passed.cb_op, passed),
                0x20..=0x27 => sla(cpu, passed.cb_op, passed),
                0x28..=0x2F => sra(cpu, passed.cb_op, passed),
                0x30..=0x37 => swap(cpu, passed.cb_op, passed),
                0x38..=0x3F => srl(cpu, passed.cb_op, passed),
                0x40..=0x7F => bit(cpu, passed.cb_op, passed),
                0x80..=0xBF => res(cpu, passed.cb_op, passed),
                _ => set(cpu, passed.cb_op, passed),
            };
            pass_to_next_stage.cb_op = passed.cb_op;
        },
    }
    pass_to_next_stage
}

} // verus!
