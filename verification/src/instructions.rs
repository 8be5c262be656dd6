use crate::alu::{
    adc, add_16, add_signed, and_calc, decrement, flag, increment, lemma_complement, or, spec_adc, spec_add, spec_add_16,
    spec_add_signed, spec_and, spec_daa, spec_dec, spec_inc, spec_or, spec_sub, spec_subc,
    spec_xor, subc, xor, Shift,
};
use crate::bits::{high_byte, low_byte, make_word, signed, split_word, word};
use crate::cpu::{Flags, Reg16, Reg8, RegFile, CPU};
use crate::extended::{cb_op, cb_stage_ok, spec_cb_op};
use vstd::prelude::*;

verus! {

/// What a started instruction hands from one machine cycle to the next.
#[derive(Clone, Copy, Debug, PartialEq, Eq, Structural)]
pub struct StagePassThrough {
    /// A byte that an earlier cycle read or computed.
    pub data: u8,
    /// A word that an earlier cycle read or computed.
    pub data16: u16,
    /// The second byte of an extended instruction.
    pub cb_op: u8,
    /// Flags that an earlier cycle computed and a later one stores.
    pub flags: Flags,
    /// `EI` has run: interrupts are enabled when the next instruction is fetched.
    pub ei: bool,
    /// `DI` has run: interrupts are disabled as the instruction completes.
    pub di: bool,
    /// Zero before an instruction is fetched; otherwise the number of the cycle at
    /// which the started instruction resumes.
    pub instruction_stage: u8,
}

impl StagePassThrough {
    /// The value between two instructions: nothing pending, stage zero.
    pub open spec fn fresh() -> StagePassThrough {
        StagePassThrough {
            data: 0,
            data16: 0,
            cb_op: 0,
            flags: Flags { Z: 0, N: 0, H: 0, C: 0 },
            ei: false,
            di: false,
            instruction_stage: 0,
        }
    }

    /// The value that resumes an instruction at cycle `stage` with nothing else pending.
    pub open spec fn at(stage: u8) -> StagePassThrough {
        StagePassThrough { instruction_stage: stage, ..StagePassThrough::fresh() }
    }
}

impl Default for StagePassThrough {
    fn default() -> (r: StagePassThrough)
        ensures
            r == StagePassThrough::fresh(),
    {
        StagePassThrough {
            data: 0,
            data16: 0,
            cb_op: 0,
            flags: Flags { Z: 0, N: 0, H: 0, C: 0 },
            ei: false,
            di: false,
            instruction_stage: 0,
        }
    }
}

/// The condition of a conditional jump, call or return.
#[derive(Clone, Copy, Debug, PartialEq, Eq, Structural)]
pub enum CC {
    /// No condition: always taken.
    UC,
    NZ,
    NC,
    Z,
    C,
}

impl CC {
    /// The condition that the two-bit selector `sel` of an opcode names.
    pub open spec fn spec_of(sel: u8) -> CC {
        if sel == 0 {
            CC::NZ
        } else if sel == 1 {
            CC::Z
        } else if sel == 2 {
            CC::NC
        } else {
            CC::C
        }
    }

    /// The condition that a two-bit selector names.
    #[verifier::when_used_as_spec(spec_of)]
    pub fn of(sel: u8) -> (cc: CC)
        requires
            sel < 4,
        ensures
            cc == CC::spec_of(sel),
    {
        match sel {
            0 => CC::NZ,
            1 => CC::Z,
            2 => CC::NC,
            _ => CC::C,
        }
    }
}

/// An opcode that the processor has no instruction for, and where it was fetched.
#[derive(Clone, Copy, Debug, PartialEq, Eq, Structural)]
pub struct InvalidInstruction {
    pub opcode: u8,
    pub pc: u16,
}

/// `RLCA`, `RRCA`, `RLA`, `RRA`: rotate the accumulator as the extended instructions
/// do, but clear Z.
pub open spec fn spec_rotate_a(cpu: CPU, shift: Shift) -> (CPU, StagePassThrough) {
    (
        cpu.with_regs(
            RegFile {
                A: shift.value(cpu.reg_file.A, cpu.reg_file.flags.C),
                flags: Flags { Z: 0, N: 0, H: 0, C: shift.carry(cpu.reg_file.A) },
                ..cpu.reg_file
            },
        ).advance(),
        StagePassThrough::fresh(),
    )
}

fn rotate_a(cpu: &mut CPU, shift: Shift) -> (next: StagePassThrough)
    requires
        old(cpu).regs_wf(),
    ensures
        (*final(cpu), next) == spec_rotate_a(*old(cpu), shift),
        final(cpu).same_control(*old(cpu)),
        final(cpu).regs_wf(),
{
    let (val, flags) = shift.apply(cpu.reg_file.A, cpu.reg_file.flags.C);
    cpu.reg_file.flags = Flags { Z: 0, N: 0, H: 0, C: flags.C };
    cpu.reg_file.A = val;
    cpu.advance_pc();
    StagePassThrough::default()
}

fn rlca(cpu: &mut CPU, _passed: StagePassThrough) -> (next: StagePassThrough)
    requires
        old(cpu).regs_wf(),
    ensures
        (*final(cpu), next) == spec_rotate_a(*old(cpu), Shift::Rlc),
        final(cpu).same_control(*old(cpu)),
        final(cpu).regs_wf(),
{
    rotate_a(cpu, Shift::Rlc)
}

fn rrca(cpu: &mut CPU, _passed: StagePassThrough) -> (next: StagePassThrough)
    requires
        old(cpu).regs_wf(),
    ensures
        (*final(cpu), next) == spec_rotate_a(*old(cpu), Shift::Rrc),
        final(cpu).same_control(*old(cpu)),
        final(cpu).regs_wf(),
{
    rotate_a(cpu, Shift::Rrc)
}

fn rla(cpu: &mut CPU, _passed: StagePassThrough) -> (next: StagePassThrough)
    requires
        old(cpu).regs_wf(),
    ensures
        (*final(cpu), next) == spec_rotate_a(*old(cpu), Shift::Rl),
        final(cpu).same_control(*old(cpu)),
        final(cpu).regs_wf(),
{
    rotate_a(cpu, Shift::Rl)
}

fn rra(cpu: &mut CPU, _passed: StagePassThrough) -> (next: StagePassThrough)
    requires
        old(cpu).regs_wf(),
    ensures
        (*final(cpu), next) == spec_rotate_a(*old(cpu), Shift::Rr),
        final(cpu).same_control(*old(cpu)),
        final(cpu).regs_wf(),
{
    rotate_a(cpu, Shift::Rr)
}

/// `DAA`: correct the accumulator to packed decimal digits.
pub open spec fn spec_daa_step(cpu: CPU) -> (CPU, StagePassThrough) {
    (
        cpu.with_regs(
            RegFile {
                A: spec_daa(cpu.reg_file.A, cpu.reg_file.flags).0,
                flags: spec_daa(cpu.reg_file.A, cpu.reg_file.flags).1,
                ..cpu.reg_file
            },
        ).advance(),
        StagePassThrough::fresh(),
    )
}

fn daa(cpu: &mut CPU, passed: StagePassThrough) -> (next: StagePassThrough)
    requires
        old(cpu).regs_wf(),
        passed.instruction_stage == 0,
    ensures
        (*final(cpu), next) == spec_daa_step(*old(cpu)),
        final(cpu).same_control(*old(cpu)),
        final(cpu).regs_wf(),
{
    let mut a: u8 = cpu.reg_file.A;
    let mut carry: u8 = cpu.reg_file.flags.C;
    if cpu.reg_file.flags.N == 0 {
        if cpu.reg_file.flags.C == 1 || a > 0x99 {
            a = a.wrapping_add(0x60);
            carry = 1;
        }
        if cpu.reg_file.flags.H == 1 || a % 16 > 0x09 {
            a = a.wrapping_add(0x06);
        }
    } else if cpu.reg_file.flags.C == 1 {
        a = a.wrapping_add(if cpu.reg_file.flags.H == 1 { 0x9A } else { 0xA0 });
    } else if cpu.reg_file.flags.H == 1 {
        a = a.wrapping_add(0xFA);
    }
    cpu.reg_file.A = a;
    cpu.reg_file.flags = Flags {
        Z: if a == 0 { 1 } else { 0 },
        N: cpu.reg_file.flags.N,
        H: 0,
        C: carry,
    };
    cpu.advance_pc();
    StagePassThrough::default()
}

/// `DI`: interrupts are disabled as the instruction completes.
pub open spec fn spec_di(cpu: CPU) -> (CPU, StagePassThrough) {
    (cpu.advance(), StagePassThrough { di: true, ..StagePassThrough::fresh() })
}

fn di(cpu: &mut CPU, _passed: StagePassThrough) -> (next: StagePassThrough)
    ensures
        (*final(cpu), next) == spec_di(*old(cpu)),
        final(cpu).same_control(*old(cpu)),
{
    cpu.advance_pc();
    let mut next = StagePassThrough::default();
    next.di = true;
    next
}

/// `EI`: interrupts are enabled when the instruction after this one has been fetched.
pub open spec fn spec_ei(cpu: CPU) -> (CPU, StagePassThrough) {
    (cpu.advance(), StagePassThrough { ei: true, ..StagePassThrough::fresh() })
}

fn ei(cpu: &mut CPU, _passed: StagePassThrough) -> (next: StagePassThrough)
    ensures
        (*final(cpu), next) == spec_ei(*old(cpu)),
        final(cpu).same_control(*old(cpu)),
{
    cpu.advance_pc();
    let mut next = StagePassThrough::default();
    next.ei = true;
    next
}

/// The condition of the relative jump with opcode `n`: none for `0x18`.
pub open spec fn jr_condition(n: u8) -> CC {
    if n == 0x18 {
        CC::UC
    } else {
        CC::spec_of((n / 8 - 4) as u8)
    }
}

/// The address `offset` bytes from `pc`, the offset read as a signed byte, modulo
/// `0x10000`.
pub open spec fn relative(pc: u16, offset: u8) -> u16 {
    ((pc + signed(offset)) % 0x10000) as u16
}

/// `JR e` and `JR cc,e`. Cycle 0 reads the offset. Cycle 1 tests the condition and
/// moves past the instruction. Cycle 2, only where the jump is taken, adds the offset.
pub open spec fn spec_jr_cc_e(cpu: CPU, n: u8, passed: StagePassThrough) -> (
    CPU,
    StagePassThrough,
) {
    if passed.instruction_stage == 0 {
        (cpu.fetch(), StagePassThrough { data: cpu.operand(), ..StagePassThrough::at(1) })
    } else if passed.instruction_stage == 1 {
        if cpu.reg_file.spec_check_condition(jr_condition(n)) {
            (cpu.advance(), StagePassThrough { data: passed.data, ..StagePassThrough::at(2) })
        } else {
            (cpu.advance(), StagePassThrough::fresh())
        }
    } else {
        (cpu.jump(relative(cpu.pc, passed.data)), StagePassThrough::fresh())
    }
}

fn jr_cc_e(cpu: &mut CPU, n: u8, passed: StagePassThrough) -> (next: StagePassThrough)
    requires
        n == 0x18 || n == 0x20 || n == 0x28 || n == 0x30 || n == 0x38,
        passed.instruction_stage <= 2,
    ensures
        (*final(cpu), next) == spec_jr_cc_e(*old(cpu), n, passed),
        final(cpu).same_control(*old(cpu)),
        next.instruction_stage <= 2,
{
    let mut pass_to_next_stage = StagePassThrough::default();
    match passed.instruction_stage {
        0 => {
            pass_to_next_stage.data = cpu.fetch_operand();
            pass_to_next_stage.instruction_stage = 1;
        },
        1 => {
            let cc = if n == 0x18 {
                CC::UC
            } else {
                CC::of(n / 8 - 4)
            };
            if cpu.reg_file.check_condition(cc) {
                pass_to_next_stage.instruction_stage = 2;
                pass_to_next_stage.data = passed.data;
            }
            cpu.advance_pc();
        },
        _ => {
            cpu.pc = if passed.data < 128 {
                cpu.pc.wrapping_add(passed.data as u16)
            } else {
                cpu.pc.wrapping_sub(256 - (passed.data as u16))
            };
        },
    }
    pass_to_next_stage
}

/// The instruction is complete: the program counter moves past it.
pub open spec fn retire(cpu: CPU) -> (CPU, StagePassThrough) {
    (cpu.advance(), StagePassThrough::fresh())
}

/// The word that a cycle makes of the byte it reads after the program counter (high)
/// and the byte that the cycle before read (low).
pub open spec fn operand_word(cpu: CPU, passed: StagePassThrough) -> u16 {
    word(cpu.operand(), passed.data)
}

/// Writes an eight-bit register other than `F`.
fn load8(reg_file: &mut RegFile, reg: Reg8, value: u8, _passed: StagePassThrough) -> (next:
    StagePassThrough)
    requires
        reg != Reg8::F,
    ensures
        *final(reg_file) == old(reg_file).spec_set8(reg, value),
        next == StagePassThrough::fresh(),
{
    reg_file.set8(reg, value);
    StagePassThrough::default()
}

/// Writes a register pair.
fn load16(cpu: &mut CPU, reg: Reg16, value: u16)
    ensures
        *final(cpu) == old(cpu).with_reg16(reg, value),
        final(cpu).same_control(*old(cpu)),
        old(cpu).regs_wf() ==> final(cpu).regs_wf(),
{
    cpu.reg_file.set16(reg, value);
}

/// `LD r,r'`: copy register `n % 8` into register `(n / 8) % 8`.
pub open spec fn spec_ld_r_r(cpu: CPU, n: u8) -> (CPU, StagePassThrough) {
    retire(
        cpu.with_reg8(
            Reg8::spec_operand(((n / 8) % 8) as u8),
            cpu.reg_file.spec_get8(Reg8::spec_operand(n % 8)),
        ),
    )
}

fn ld_r_r(cpu: &mut CPU, n: u8, passed: StagePassThrough) -> (next: StagePassThrough)
    requires
        n / 64 == 1,
        n % 8 != 6,
        (n / 8) % 8 != 6,
    ensures
        (*final(cpu), next) == spec_ld_r_r(*old(cpu), n),
        final(cpu).same_control(*old(cpu)),
        old(cpu).regs_wf() ==> final(cpu).regs_wf(),
{
    cpu.advance_pc();
    let value: u8 = cpu.reg_file.get8(Reg8::operand(n % 8));
    load8(&mut cpu.reg_file, Reg8::operand((n / 8) % 8), value, passed)
}

/// `LD r,(HL)`. Cycle 0 reads the byte at HL, cycle 1 stores it in register
/// `(n / 8) % 8`.
pub open spec fn spec_ld_r_hl(cpu: CPU, n: u8, passed: StagePassThrough) -> (
    CPU,
    StagePassThrough,
) {
    if passed.instruction_stage == 0 {
        (
            cpu.at(cpu.hl()),
            StagePassThrough { data: cpu.spec_read_at(cpu.hl()), ..StagePassThrough::at(1) },
        )
    } else {
        retire(cpu.with_reg8(Reg8::spec_operand(((n / 8) % 8) as u8), passed.data))
    }
}

fn ld_r_hl(cpu: &mut CPU, n: u8, passed: StagePassThrough) -> (next: StagePassThrough)
    requires
        n / 64 == 1,
        n % 8 == 6,
        n != 0x76,
        passed.instruction_stage <= 1,
    ensures
        (*final(cpu), next) == spec_ld_r_hl(*old(cpu), n, passed),
        final(cpu).same_control(*old(cpu)),
        old(cpu).regs_wf() ==> final(cpu).regs_wf(),
        next.instruction_stage <= 1,
{
    let mut pass_to_next_stage = StagePassThrough::default();
    match passed.instruction_stage {
        0 => {
            let hl: u16 = cpu.reg_file.get16(Reg16::HL);
            pass_to_next_stage.data = cpu.read_at(hl);
            pass_to_next_stage.instruction_stage = 1;
        },
        _ => {
            cpu.reg_file.set8(Reg8::operand((n / 8) % 8), passed.data);
            cpu.advance_pc();
        },
    }
    pass_to_next_stage
}

/// `LD rr,nn`. Cycle 0 reads the low byte. Cycle 1 reads the high byte and stores the
/// word in pair `n / 16`. Cycle 2 completes.
pub open spec fn spec_ld_rr_nn(cpu: CPU, n: u8, passed: StagePassThrough) -> (
    CPU,
    StagePassThrough,
) {
    if passed.instruction_stage == 0 {
        (cpu.fetch(), StagePassThrough { data: cpu.operand(), ..StagePassThrough::at(1) })
    } else if passed.instruction_stage == 1 {
        (
            cpu.fetch().with_reg16(Reg16::spec_pair(n / 16), operand_word(cpu, passed)),
            StagePassThrough::at(2),
        )
    } else {
        retire(cpu)
    }
}

fn ld_rr_nn(cpu: &mut CPU, n: u8, passed: StagePassThrough) -> (next: StagePassThrough)
    requires
        n == 0x01 || n == 0x11 || n == 0x21 || n == 0x31,
        passed.instruction_stage <= 2,
    ensures
        (*final(cpu), next) == spec_ld_rr_nn(*old(cpu), n, passed),
        final(cpu).same_control(*old(cpu)),
        old(cpu).regs_wf() ==> final(cpu).regs_wf(),
        next.instruction_stage <= 2,
{
    let mut pass_to_next_stage = StagePassThrough::default();
    match passed.instruction_stage {
        0 => {
            pass_to_next_stage.data = cpu.fetch_operand();
            pass_to_next_stage.instruction_stage = 1;
        },
        1 => {
            let val: u16 = make_word(cpu.fetch_operand(), passed.data);
            load16(cpu, Reg16::pair(n / 16), val);
            pass_to_next_stage.instruction_stage = 2;
        },
        _ => {
            cpu.advance_pc();
        },
    }
    pass_to_next_stage
}

/// The pair that holds the address of `LD (rr),A` and `LD A,(rr)`: BC, DE, and HL for
/// the two forms that then step HL.
pub open spec fn indirect_pair(n: u8) -> Reg16 {
    if n / 16 == 0 {
        Reg16::BC
    } else if n / 16 == 1 {
        Reg16::DE
    } else {
        Reg16::HL
    }
}

/// HL after `LD (HL+),A` and its kin: one more for `n / 16 == 2`, one less for
/// `n / 16 == 3`, wrapping; otherwise unchanged.
pub open spec fn stepped_hl(cpu: CPU, n: u8) -> CPU {
    if n / 16 == 2 {
        cpu.with_reg16(Reg16::HL, cpu.hl().wrapping_add(1))
    } else if n / 16 == 3 {
        cpu.with_reg16(Reg16::HL, cpu.hl().wrapping_sub(1))
    } else {
        cpu
    }
}

fn indirect(n: u8) -> (reg: Reg16)
    requires
        n / 16 < 4,
    ensures
        reg == indirect_pair(n),
{
    match n / 16 {
        0 => Reg16::BC,
        1 => Reg16::DE,
        _ => Reg16::HL,
    }
}

fn step_hl(cpu: &mut CPU, n: u8)
    ensures
        *final(cpu) == stepped_hl(*old(cpu), n),
        final(cpu).same_control(*old(cpu)),
        old(cpu).regs_wf() ==> final(cpu).regs_wf(),
{
    if n / 16 == 2 {
        let hl: u16 = cpu.reg_file.get16(Reg16::HL);
        cpu.reg_file.set16(Reg16::HL, hl.wrapping_add(1));
    } else if n / 16 == 3 {
        let hl: u16 = cpu.reg_file.get16(Reg16::HL);
        cpu.reg_file.set16(Reg16::HL, hl.wrapping_sub(1));
    }
}

/// `LD (BC),A`, `LD (DE),A`, `LD (HL+),A`, `LD (HL-),A`. Cycle 0 writes the
/// accumulator, cycle 1 steps HL and completes.
pub open spec fn spec_ld_16_a(cpu: CPU, n: u8, passed: StagePassThrough) -> (
    CPU,
    StagePassThrough,
) {
    if passed.instruction_stage == 0 {
        (
            cpu.at(cpu.reg_file.spec_get16(indirect_pair(n))).spec_write_at(
                cpu.reg_file.spec_get16(indirect_pair(n)),
                cpu.reg_file.A,
            ),
            StagePassThrough::at(1),
        )
    } else {
        (stepped_hl(cpu.advance(), n), StagePassThrough::fresh())
    }
}

fn ld_16_a(cpu: &mut CPU, n: u8, passed: StagePassThrough) -> (next: StagePassThrough)
    requires
        n == 0x02 || n == 0x12 || n == 0x22 || n == 0x32,
        passed.instruction_stage <= 1,
    ensures
        (*final(cpu), next) == spec_ld_16_a(*old(cpu), n, passed),
        final(cpu).same_control(*old(cpu)),
        old(cpu).regs_wf() ==> final(cpu).regs_wf(),
        next.instruction_stage <= 1,
{
    let mut pass_to_next_stage = StagePassThrough::default();
    match passed.instruction_stage {
        0 => {
            let addr: u16 = cpu.reg_file.get16(indirect(n));
            cpu.write_at(addr, cpu.reg_file.A);
            pass_to_next_stage.instruction_stage = 1;
        },
        _ => {
            cpu.advance_pc();
            step_hl(cpu, n);
        },
    }
    pass_to_next_stage
}

/// `LD A,(BC)`, `LD A,(DE)`, `LD A,(HL+)`, `LD A,(HL-)`. Cycle 0 reads into the
/// accumulator, cycle 1 steps HL and completes.
pub open spec fn spec_ld_a_16(cpu: CPU, n: u8, passed: StagePassThrough) -> (
    CPU,
    StagePassThrough,
) {
    if passed.instruction_stage == 0 {
        (
            cpu.at(cpu.reg_file.spec_get16(indirect_pair(n))).with_reg8(
                Reg8::A,
                cpu.spec_read_at(cpu.reg_file.spec_get16(indirect_pair(n))),
            ),
            StagePassThrough::at(1),
        )
    } else {
        (stepped_hl(cpu.advance(), n), StagePassThrough::fresh())
    }
}

fn ld_a_16(cpu: &mut CPU, n: u8, passed: StagePassThrough) -> (next: StagePassThrough)
    requires
        n == 0x0A || n == 0x1A || n == 0x2A || n == 0x3A,
        passed.instruction_stage <= 1,
    ensures
        (*final(cpu), next) == spec_ld_a_16(*old(cpu), n, passed),
        final(cpu).same_control(*old(cpu)),
        old(cpu).regs_wf() ==> final(cpu).regs_wf(),
        next.instruction_stage <= 1,
{
    let mut pass_to_next_stage = StagePassThrough::default();
    match passed.instruction_stage {
        0 => {
            let addr: u16 = cpu.reg_file.get16(indirect(n));
            cpu.reg_file.A = cpu.read_at(addr);
            pass_to_next_stage.instruction_stage = 1;
        },
        _ => {
            cpu.advance_pc();
            step_hl(cpu, n);
        },
    }
    pass_to_next_stage
}

/// `LD r,n`. Cycle 0 reads the byte, cycle 1 stores it in register `n / 8`.
pub open spec fn spec_ld_r_n(cpu: CPU, n: u8, passed: StagePassThrough) -> (CPU, StagePassThrough) {
    if passed.instruction_stage == 0 {
        (cpu.fetch(), StagePassThrough { data: cpu.operand(), ..StagePassThrough::at(1) })
    } else {
        retire(cpu.with_reg8(Reg8::spec_operand(n / 8), passed.data))
    }
}

fn ld_r_n(cpu: &mut CPU, n: u8, passed: StagePassThrough) -> (next: StagePassThrough)
    requires
        n / 64 == 0,
        n % 8 == 6,
        n != 0x36,
        passed.instruction_stage <= 1,
    ensures
        (*final(cpu), next) == spec_ld_r_n(*old(cpu), n, passed),
        final(cpu).same_control(*old(cpu)),
        old(cpu).regs_wf() ==> final(cpu).regs_wf(),
        next.instruction_stage <= 1,
{
    let mut pass_to_next_stage = StagePassThrough::default();
    match passed.instruction_stage {
        0 => {
            pass_to_next_stage.data = cpu.fetch_operand();
            pass_to_next_stage.instruction_stage = 1;
        },
        _ => {
            cpu.reg_file.set8(Reg8::operand(n / 8), passed.data);
            cpu.advance_pc();
        },
    }
    pass_to_next_stage
}

/// `LD (HL),n`. Cycle 0 reads the byte. Cycle 1 writes it at HL and moves past the
/// instruction. Cycle 2 completes.
pub open spec fn spec_ld_hl_n(cpu: CPU, passed: StagePassThrough) -> (CPU, StagePassThrough) {
    if passed.instruction_stage == 0 {
        (cpu.fetch(), StagePassThrough { data: cpu.operand(), ..StagePassThrough::at(1) })
    } else if passed.instruction_stage == 1 {
        (
            cpu.at(cpu.hl()).spec_write_at(cpu.hl(), passed.data).advance(),
            StagePassThrough::at(2),
        )
    } else {
        (cpu, StagePassThrough::fresh())
    }
}

fn ld_hl_n(cpu: &mut CPU, passed: StagePassThrough) -> (next: StagePassThrough)
    requires
        passed.instruction_stage <= 2,
    ensures
        (*final(cpu), next) == spec_ld_hl_n(*old(cpu), passed),
        final(cpu).same_control(*old(cpu)),
        old(cpu).regs_wf() ==> final(cpu).regs_wf(),
        next.instruction_stage <= 2,
{
    let mut pass_to_next_stage = StagePassThrough::default();
    match passed.instruction_stage {
        0 => {
            pass_to_next_stage.data = cpu.fetch_operand();
            pass_to_next_stage.instruction_stage = 1;
        },
        1 => {
            let hl: u16 = cpu.reg_file.get16(Reg16::HL);
            cpu.write_at(hl, passed.data);
            cpu.advance_pc();
            pass_to_next_stage.instruction_stage = 2;
        },
        _ => {},
    }
    pass_to_next_stage
}

/// `CPL`: complement the accumulator; N and H are set.
pub open spec fn spec_cpl(cpu: CPU) -> (CPU, StagePassThrough) {
    retire(
        cpu.with_regs(
            RegFile {
                A: (255 - cpu.reg_file.A) as u8,
                flags: Flags { N: 1, H: 1, ..cpu.reg_file.flags },
                ..cpu.reg_file
            },
        ),
    )
}

fn cpl(cpu: &mut CPU, passed: StagePassThrough) -> (next: StagePassThrough)
    ensures
        (*final(cpu), next) == spec_cpl(*old(cpu)),
        final(cpu).same_control(*old(cpu)),
        old(cpu).regs_wf() ==> final(cpu).regs_wf(),
{
    proof {
        lemma_complement(cpu.reg_file.A);
    }
    let value: u8 = !cpu.reg_file.A;
    let pass_to_next_stage = load8(&mut cpu.reg_file, Reg8::A, value, passed);
    cpu.advance_pc();
    cpu.reg_file.flags.N = 1;
    cpu.reg_file.flags.H = 1;
    pass_to_next_stage
}

/// `CCF`: flip the carry flag; N and H are cleared.
pub open spec fn spec_ccf(cpu: CPU) -> (CPU, StagePassThrough) {
    retire(
        cpu.with_flags(
            Flags { N: 0, H: 0, C: flag(cpu.reg_file.flags.C != 1), ..cpu.reg_file.flags },
        ),
    )
}

fn ccf(cpu: &mut CPU, _passed: StagePassThrough) -> (next: StagePassThrough)
    ensures
        (*final(cpu), next) == spec_ccf(*old(cpu)),
        final(cpu).same_control(*old(cpu)),
        old(cpu).regs_wf() ==> final(cpu).regs_wf(),
{
    cpu.advance_pc();
    cpu.reg_file.flags.C = if cpu.reg_file.flags.C == 1 { 0 } else { 1 };
    cpu.reg_file.flags.N = 0;
    cpu.reg_file.flags.H = 0;
    StagePassThrough::default()
}

/// `SCF`: set the carry flag; N and H are cleared.
pub open spec fn spec_scf(cpu: CPU) -> (CPU, StagePassThrough) {
    retire(cpu.with_flags(Flags { N: 0, H: 0, C: 1, ..cpu.reg_file.flags }))
}

fn scf(cpu: &mut CPU, _passed: StagePassThrough) -> (next: StagePassThrough)
    ensures
        (*final(cpu), next) == spec_scf(*old(cpu)),
        final(cpu).same_control(*old(cpu)),
        old(cpu).regs_wf() ==> final(cpu).regs_wf(),
{
    cpu.advance_pc();
    cpu.reg_file.flags.C = 1;
    cpu.reg_file.flags.N = 0;
    cpu.reg_file.flags.H = 0;
    StagePassThrough::default()
}

/// `LD (HL),r`. Cycle 0 takes register `n % 8`, cycle 1 writes it at HL.
pub open spec fn spec_ld_hl_r(cpu: CPU, n: u8, passed: StagePassThrough) -> (
    CPU,
    StagePassThrough,
) {
    if passed.instruction_stage == 0 {
        (
            cpu,
            StagePassThrough {
                data: cpu.reg_file.spec_get8(Reg8::spec_operand(n % 8)),
                ..StagePassThrough::at(1)
            },
        )
    } else {
        retire(cpu.at(cpu.hl()).spec_write_at(cpu.hl(), passed.data))
    }
}

fn ld_hl_r(cpu: &mut CPU, passed: StagePassThrough, n: u8) -> (next: StagePassThrough)
    requires
        n / 8 == 14,
        n != 0x76,
        passed.instruction_stage <= 1,
    ensures
        (*final(cpu), next) == spec_ld_hl_r(*old(cpu), n, passed),
        final(cpu).same_control(*old(cpu)),
        old(cpu).regs_wf() ==> final(cpu).regs_wf(),
        next.instruction_stage <= 1,
{
    let mut pass_to_next_stage = StagePassThrough::default();
    match passed.instruction_stage {
        0 => {
            pass_to_next_stage.instruction_stage = 1;
            pass_to_next_stage.data = cpu.reg_file.get8(Reg8::operand(n % 8));
        },
        _ => {
            let hl: u16 = cpu.reg_file.get16(Reg16::HL);
            cpu.write_at(hl, passed.data);
            cpu.advance_pc();
        },
    }
    pass_to_next_stage
}

/// `ADD HL,rr`. Cycle 0 idles. Cycle 1 adds pair `n / 16` to HL; Z is kept.
pub open spec fn spec_add_hl_nn(cpu: CPU, n: u8, passed: StagePassThrough) -> (
    CPU,
    StagePassThrough,
) {
    if passed.instruction_stage == 0 {
        (cpu, StagePassThrough::at(1))
    } else {
        retire(
            cpu.with_flags(
                Flags {
                    Z: cpu.reg_file.flags.Z,
                    ..spec_add_16(cpu.hl(), cpu.reg_file.spec_get16(Reg16::spec_pair(n / 16))).1
                },
            ).with_reg16(
                Reg16::HL,
                spec_add_16(cpu.hl(), cpu.reg_file.spec_get16(Reg16::spec_pair(n / 16))).0,
            ),
        )
    }
}

fn add_hl_nn(cpu: &mut CPU, passed: StagePassThrough, n: u8) -> (next: StagePassThrough)
    requires
        old(cpu).regs_wf(),
        n == 0x09 || n == 0x19 || n == 0x29 || n == 0x39,
        passed.instruction_stage <= 1,
    ensures
        (*final(cpu), next) == spec_add_hl_nn(*old(cpu), n, passed),
        final(cpu).same_control(*old(cpu)),
        final(cpu).regs_wf(),
        next.instruction_stage <= 1,
{
    let mut pass_to_next_stage = StagePassThrough::default();
    let nn = Reg16::pair(n / 16);
    match passed.instruction_stage {
        0 => {
            pass_to_next_stage.instruction_stage = 1;
        },
        _ => {
            let (val, mut flags) = add_16(cpu.reg_file.get16(Reg16::HL), cpu.reg_file.get16(nn));
            flags.Z = cpu.reg_file.flags.Z;
            cpu.advance_pc();
            cpu.reg_file.flags = flags;
            cpu.reg_file.set16(Reg16::HL, val);
        },
    }
    pass_to_next_stage
}

/// What the arithmetic unit makes of the accumulator `a`, the operand `b` and the
/// carry flag `c`, for the operation that the selector `op` names: `ADD`, `ADC`,
/// `SUB`, `SBC`, `AND`, `XOR`, `OR`, `CP` for zero to seven.
pub open spec fn alu_result(op: u8, a: u8, b: u8, c: u8) -> (u8, Flags) {
    if op == 0 {
        spec_add(a, b)
    } else if op == 1 {
        spec_adc(a, b, c)
    } else if op == 3 {
        spec_subc(a, b, c)
    } else if op == 4 {
        spec_and(a, b)
    } else if op == 5 {
        spec_xor(a, b)
    } else if op == 6 {
        spec_or(a, b)
    } else {
        spec_sub(a, b)
    }
}

/// The register file after the operation `op` gave `value` and `flags`: the flags are
/// stored, and so is the value, but for `CP`, which keeps the accumulator.
pub open spec fn alu_stored(regs: RegFile, op: u8, value: u8, flags: Flags) -> RegFile {
    RegFile {
        A: if op == 7 {
            regs.A
        } else {
            value
        },
        flags,
        ..regs
    }
}

/// The arithmetic and logic instructions on the accumulator and operand `n % 8`, the
/// operation being `(n / 8) % 8`. With a register the instruction completes in cycle 0.
/// With the byte at HL, cycle 0 reads and computes and cycle 1 stores.
pub open spec fn spec_alu(cpu: CPU, n: u8, passed: StagePassThrough) -> (CPU, StagePassThrough) {
    let op = ((n / 8) % 8) as u8;
    let result = alu_result(op, cpu.reg_file.A, cpu.source(n % 8), cpu.reg_file.flags.C);
    if passed.instruction_stage != 0 {
        retire(cpu.with_regs(alu_stored(cpu.reg_file, op, passed.data, passed.flags)))
    } else if n % 8 == 6 {
        (
            cpu.after_source(6),
            StagePassThrough { data: result.0, flags: result.1, ..StagePassThrough::at(1) },
        )
    } else {
        retire(cpu.with_regs(alu_stored(cpu.reg_file, op, result.0, result.1)))
    }
}

fn add_adc(cpu: &mut CPU, passed: StagePassThrough, n: u8) -> (next: StagePassThrough)
    requires
        old(cpu).regs_wf(),
        passed.flags.wf(),
        0x80 <= n <= 0x8F,
        passed.instruction_stage <= (if n % 8 == 6 { 1int } else { 0int }),
    ensures
        (*final(cpu), next) == spec_alu(*old(cpu), n, passed),
        final(cpu).same_control(*old(cpu)),
        final(cpu).regs_wf(),
        next.flags.wf(),
        next.instruction_stage <= (if n % 8 == 6 { 1int } else { 0int }),
{
    let a: u8 = cpu.reg_file.A;
    let mut pass_to_next_stage = StagePassThrough::default();
    match passed.instruction_stage {
        0 => {
            let b: u8 = cpu.read_source(n % 8);
            let (val, flags) = if n < 0x88 {
                crate::alu::add(a, b)
            } else {
                adc(a, b, cpu.reg_file.flags.C)
            };
            if n % 8 == 6 {
                pass_to_next_stage.instruction_stage = 1;
                pass_to_next_stage.data = val;
                pass_to_next_stage.flags = flags;
            } else {
                load8(&mut cpu.reg_file, Reg8::A, val, passed);
                cpu.reg_file.flags = flags;
                cpu.advance_pc();
            }
        },
        _ => {
            load8(&mut cpu.reg_file, Reg8::A, passed.data, passed);
            cpu.reg_file.flags = passed.flags;
            cpu.advance_pc();
        },
    };
    pass_to_next_stage
}

fn sub_sbc_cp(cpu: &mut CPU, passed: StagePassThrough, n: u8) -> (next: StagePassThrough)
    requires
        old(cpu).regs_wf(),
        passed.flags.wf(),
        0x90 <= n <= 0x9F || 0xB8 <= n <= 0xBF,
        passed.instruction_stage <= (if n % 8 == 6 { 1int } else { 0int }),
    ensures
        (*final(cpu), next) == spec_alu(*old(cpu), n, passed),
        final(cpu).same_control(*old(cpu)),
        final(cpu).regs_wf(),
        next.flags.wf(),
        next.instruction_stage <= (if n % 8 == 6 { 1int } else { 0int }),
{
    let a: u8 = cpu.reg_file.A;
    let mut pass_to_next_stage = StagePassThrough::default();
    match passed.instruction_stage {
        0 => {
            let b: u8 = cpu.read_source(n % 8);
            let (val, flags) = if 0x98 <= n && n <= 0x9F {
                subc(a, b, cpu.reg_file.flags.C)
            } else {
                crate::alu::sub(a, b)
            };
            if n % 8 == 6 {
                pass_to_next_stage.instruction_stage = 1;
                pass_to_next_stage.data = val;
                pass_to_next_stage.flags = flags;
            } else {
                if n <= 0x9F {
                    cpu.reg_file.A = val;
                }
                cpu.reg_file.flags = flags;
                cpu.advance_pc();
            }
        },
        _ => {
            if n != 0xBE {
                load8(&mut cpu.reg_file, Reg8::A, passed.data, passed);
            }
            cpu.reg_file.flags = passed.flags;
            cpu.advance_pc();
        },
    }
    pass_to_next_stage
}

fn xor_or(cpu: &mut CPU, passed: StagePassThrough, n: u8) -> (next: StagePassThrough)
    requires
        old(cpu).regs_wf(),
        passed.flags.wf(),
        0xA8 <= n <= 0xB7,
        passed.instruction_stage <= (if n % 8 == 6 { 1int } else { 0int }),
    ensures
        (*final(cpu), next) == spec_alu(*old(cpu), n, passed),
        final(cpu).same_control(*old(cpu)),
        final(cpu).regs_wf(),
        next.flags.wf(),
        next.instruction_stage <= (if n % 8 == 6 { 1int } else { 0int }),
{
    let mut pass_to_next_stage = StagePassThrough::default();
    match passed.instruction_stage {
        0 => {
            let a: u8 = cpu.reg_file.A;
            let b: u8 = cpu.read_source(n % 8);
            let (val, flags) = if n < 0xB0 {
                xor(a, b)
            } else {
                or(a, b)
            };
            if n % 8 == 6 {
                pass_to_next_stage.instruction_stage = 1;
                pass_to_next_stage.data = val;
                pass_to_next_stage.flags = flags;
            } else {
                load8(&mut cpu.reg_file, Reg8::A, val, passed);
                cpu.reg_file.flags = flags;
                cpu.advance_pc();
            }
        },
        _ => {
            cpu.advance_pc();
            load8(&mut cpu.reg_file, Reg8::A, passed.data, passed);
            cpu.reg_file.flags = passed.flags;
        },
    }
    pass_to_next_stage
}

fn and(cpu: &mut CPU, passed: StagePassThrough, n: u8) -> (next: StagePassThrough)
    requires
        old(cpu).regs_wf(),
        passed.flags.wf(),
        0xA0 <= n <= 0xA7,
        passed.instruction_stage <= (if n % 8 == 6 { 1int } else { 0int }),
    ensures
        (*final(cpu), next) == spec_alu(*old(cpu), n, passed),
        final(cpu).same_control(*old(cpu)),
        final(cpu).regs_wf(),
        next.flags.wf(),
        next.instruction_stage <= (if n % 8 == 6 { 1int } else { 0int }),
{
    let mut pass_to_next_stage = StagePassThrough::default();
    match passed.instruction_stage {
        0 => {
            let a: u8 = cpu.reg_file.A;
            let b: u8 = cpu.read_source(n % 8);
            let (val, flags) = and_calc(a, b);
            if n == 0xA6 {
                pass_to_next_stage.instruction_stage = 1;
                pass_to_next_stage.data = val;
                pass_to_next_stage.flags = flags;
            } else {
                load8(&mut cpu.reg_file, Reg8::A, val, passed);
                cpu.reg_file.flags = flags;
                cpu.advance_pc();
            }
        },
        _ => {
            cpu.advance_pc();
            load8(&mut cpu.reg_file, Reg8::A, passed.data, passed);
            cpu.reg_file.flags = passed.flags;
        },
    }
    pass_to_next_stage
}

/// `INC r` and `DEC r` (`down`) on operand `n / 8`; the carry flag is kept. With a
/// register the instruction completes in cycle 0. With the byte at HL, cycle 0 reads
/// and computes, cycle 1 writes the byte back and stores the flags, cycle 2 completes.
pub open spec fn spec_inc_dec(cpu: CPU, n: u8, passed: StagePassThrough, down: bool) -> (
    CPU,
    StagePassThrough,
) {
    let result = if down {
        spec_dec(cpu.source(n / 8), cpu.reg_file.flags.C)
    } else {
        spec_inc(cpu.source(n / 8), cpu.reg_file.flags.C)
    };
    if passed.instruction_stage == 0 {
        if n / 8 == 6 {
            (
                cpu.after_source(6),
                StagePassThrough { data: result.0, flags: result.1, ..StagePassThrough::at(1) },
            )
        } else {
            retire(cpu.with_reg8(Reg8::spec_operand(n / 8), result.0).with_flags(result.1))
        }
    } else if passed.instruction_stage == 1 {
        (
            cpu.at(cpu.hl()).spec_write_at(cpu.hl(), passed.data).with_flags(passed.flags),
            StagePassThrough::at(2),
        )
    } else {
        retire(cpu)
    }
}

fn inc(cpu: &mut CPU, passed: StagePassThrough, n: u8) -> (next: StagePassThrough)
    requires
        old(cpu).regs_wf(),
        passed.flags.wf(),
        n / 64 == 0,
        n % 8 == 4,
        passed.instruction_stage <= (if n == 0x34 { 2int } else { 0int }),
    ensures
        (*final(cpu), next) == spec_inc_dec(*old(cpu), n, passed, false),
        final(cpu).same_control(*old(cpu)),
        final(cpu).regs_wf(),
        next.flags.wf(),
        next.instruction_stage <= (if n == 0x34 { 2int } else { 0int }),
        final(cpu).reg_file.flags.C == old(cpu).reg_file.flags.C || passed.instruction_stage == 1,
{
    let mut pass_to_next_stage = StagePassThrough::default();
    match passed.instruction_stage {
        0 => {
            let carry: u8 = cpu.reg_file.flags.C;
            let a: u8 = cpu.read_source(n / 8);
            let (val, flags) = increment(a, carry);
            if n == 0x34 {
                pass_to_next_stage.instruction_stage = 1;
                pass_to_next_stage.data = val;
                pass_to_next_stage.flags = flags;
            } else {
                cpu.reg_file.set8(Reg8::operand(n / 8), val);
                cpu.reg_file.flags = flags;
                cpu.advance_pc();
            }
        },
        1 => {
            let hl: u16 = cpu.reg_file.get16(Reg16::HL);
            cpu.write_at(hl, passed.data);
            pass_to_next_stage.instruction_stage = 2;
            cpu.reg_file.flags = passed.flags;
        },
        _ => {
            cpu.advance_pc();
        },
    }
    pass_to_next_stage
}

fn dec(cpu: &mut CPU, passed: StagePassThrough, n: u8) -> (next: StagePassThrough)
    requires
        old(cpu).regs_wf(),
        passed.flags.wf(),
        n / 64 == 0,
        n % 8 == 5,
        passed.instruction_stage <= (if n == 0x35 { 2int } else { 0int }),
    ensures
        (*final(cpu), next) == spec_inc_dec(*old(cpu), n, passed, true),
        final(cpu).same_control(*old(cpu)),
        final(cpu).regs_wf(),
        next.flags.wf(),
        next.instruction_stage <= (if n == 0x35 { 2int } else { 0int }),
        final(cpu).reg_file.flags.C == old(cpu).reg_file.flags.C || passed.instruction_stage == 1,
{
    let mut pass_to_next_stage = StagePassThrough::default();
    match passed.instruction_stage {
        0 => {
            let carry: u8 = cpu.reg_file.flags.C;
            let a: u8 = cpu.read_source(n / 8);
            let (val, flags) = decrement(a, carry);
            if n == 0x35 {
                pass_to_next_stage.instruction_stage = 1;
                pass_to_next_stage.data = val;
                pass_to_next_stage.flags = flags;
            } else {
                cpu.reg_file.set8(Reg8::operand(n / 8), val);
                cpu.reg_file.flags = flags;
                cpu.advance_pc();
            }
        },
        1 => {
            let hl: u16 = cpu.reg_file.get16(Reg16::HL);
            cpu.write_at(hl, passed.data);
            pass_to_next_stage.instruction_stage = 2;
            cpu.reg_file.flags = passed.flags;
        },
        _ => {
            cpu.advance_pc();
        },
    }
    pass_to_next_stage
}

/// `INC rr` and `DEC rr` (`down`) on pair `n / 16`, wrapping; no flag changes. Cycle 0
/// takes the pair, cycle 1 stores it one up or down.
pub open spec fn spec_inc_dec_rr(cpu: CPU, n: u8, passed: StagePassThrough, down: bool) -> (
    CPU,
    StagePassThrough,
) {
    if passed.instruction_stage == 0 {
        (
            cpu,
            StagePassThrough {
                data16: cpu.reg_file.spec_get16(Reg16::spec_pair(n / 16)),
                ..StagePassThrough::at(1)
            },
        )
    } else {
        retire(
            cpu.with_reg16(
                Reg16::spec_pair(n / 16),
                if down {
                    passed.data16.wrapping_sub(1)
                } else {
                    passed.data16.wrapping_add(1)
                },
            ),
        )
    }
}

fn inc_rr(cpu: &mut CPU, n: u8, passed: StagePassThrough) -> (next: StagePassThrough)
    requires
        n == 0x03 || n == 0x13 || n == 0x23 || n == 0x33,
        passed.instruction_stage <= 1,
    ensures
        (*final(cpu), next) == spec_inc_dec_rr(*old(cpu), n, passed, false),
        final(cpu).same_control(*old(cpu)),
        old(cpu).regs_wf() ==> final(cpu).regs_wf(),
        next.instruction_stage <= 1,
{
    let mut pass_to_next_stage = StagePassThrough::default();
    let reg16 = Reg16::pair(n / 16);
    match passed.instruction_stage {
        0 => {
            pass_to_next_stage.data16 = cpu.reg_file.get16(reg16);
            pass_to_next_stage.instruction_stage = 1;
        },
        _ => {
            cpu.reg_file.set16(reg16, passed.data16.wrapping_add(1));
            cpu.advance_pc();
        },
    }
    pass_to_next_stage
}

fn dec_rr(cpu: &mut CPU, n: u8, passed: StagePassThrough) -> (next: StagePassThrough)
    requires
        n == 0x0B || n == 0x1B || n == 0x2B || n == 0x3B,
        passed.instruction_stage <= 1,
    ensures
        (*final(cpu), next) == spec_inc_dec_rr(*old(cpu), n, passed, true),
        final(cpu).same_control(*old(cpu)),
        old(cpu).regs_wf() ==> final(cpu).regs_wf(),
        next.instruction_stage <= 1,
{
    let mut pass_to_next_stage = StagePassThrough::default();
    let reg16 = Reg16::pair(n / 16);
    match passed.instruction_stage {
        0 => {
            pass_to_next_stage.data16 = cpu.reg_file.get16(reg16);
            pass_to_next_stage.instruction_stage = 1;
        },
        _ => {
            cpu.reg_file.set16(reg16, passed.data16.wrapping_sub(1));
            cpu.advance_pc();
        },
    }
    pass_to_next_stage
}

/// `POP rr` into the pair `(n / 16) % 4`, which for three is AF. Cycle 0 pops the low
/// register, cycle 1 the high one, cycle 2 completes. Of a byte popped into F only
/// the four flags are kept.
pub open spec fn spec_pop(cpu: CPU, n: u8, passed: StagePassThrough) -> (CPU, StagePassThrough) {
    let pair = Reg16::spec_stack_pair(((n / 16) % 4) as u8);
    if passed.instruction_stage == 0 {
        (
            cpu.spec_pop().with_reg8(pair.spec_low(), cpu.spec_read_at(cpu.reg_file.SP)),
            StagePassThrough::at(1),
        )
    } else if passed.instruction_stage == 1 {
        (
            cpu.spec_pop().with_reg8(pair.spec_high(), cpu.spec_read_at(cpu.reg_file.SP)),
            StagePassThrough::at(2),
        )
    } else {
        retire(cpu)
    }
}

fn pop(cpu: &mut CPU, passed: StagePassThrough, n: u8) -> (next: StagePassThrough)
    requires
        old(cpu).regs_wf(),
        n == 0xC1 || n == 0xD1 || n == 0xE1 || n == 0xF1,
        passed.instruction_stage <= 2,
    ensures
        (*final(cpu), next) == spec_pop(*old(cpu), n, passed),
        final(cpu).same_control(*old(cpu)),
        final(cpu).regs_wf(),
        next.instruction_stage <= 2,
{
    let mut pass_to_next_stage = StagePassThrough::default();
    let pair = Reg16::stack_pair((n / 16) % 4);
    match passed.instruction_stage {
        0 => {
            let lsb_reg = pair.low();
            let value: u8 = cpu.pop();
            match lsb_reg {
                Reg8::F => cpu.reg_file.flags = value.into(),
                _ => cpu.reg_file.set8(lsb_reg, value),
            }
            pass_to_next_stage.instruction_stage = 1;
        },
        1 => {
            let value: u8 = cpu.pop();
            cpu.reg_file.set8(pair.high(), value);
            pass_to_next_stage.instruction_stage = 2;
        },
        _ => {
            cpu.advance_pc();
        },
    }
    pass_to_next_stage
}

/// `PUSH rr` of the pair `(n / 16) % 4`, which for three is AF. Cycle 0 puts the
/// stack pointer on the bus, cycle 1 pushes the high register, cycle 2 the low one,
/// cycle 3 completes.
pub open spec fn spec_push(cpu: CPU, n: u8, passed: StagePassThrough) -> (CPU, StagePassThrough) {
    let pair = Reg16::spec_stack_pair(((n / 16) % 4) as u8);
    if passed.instruction_stage == 0 {
        (cpu.at(cpu.reg_file.SP), StagePassThrough::at(1))
    } else if passed.instruction_stage == 1 {
        (cpu.spec_push_val(cpu.reg_file.spec_get8(pair.spec_high())), StagePassThrough::at(2))
    } else if passed.instruction_stage == 2 {
        (cpu.spec_push_val(cpu.reg_file.spec_get8(pair.spec_low())), StagePassThrough::at(3))
    } else {
        retire(cpu)
    }
}

fn push(cpu: &mut CPU, passed: StagePassThrough, n: u8) -> (next: StagePassThrough)
    requires
        old(cpu).regs_wf(),
        n == 0xC5 || n == 0xD5 || n == 0xE5 || n == 0xF5,
        passed.instruction_stage <= 3,
    ensures
        (*final(cpu), next) == spec_push(*old(cpu), n, passed),
        final(cpu).same_control(*old(cpu)),
        final(cpu).regs_wf(),
        next.instruction_stage <= 3,
{
    let mut pass_to_next_stage = StagePassThrough::default();
    let pair = Reg16::stack_pair((n / 16) % 4);
    match passed.instruction_stage {
        0 => {
            cpu.addr_bus = cpu.reg_file.SP;
            pass_to_next_stage.instruction_stage = 1;
        },
        1 => {
            cpu.push(pair.high());
            pass_to_next_stage.instruction_stage = 2;
        },
        2 => {
            cpu.push(pair.low());
            pass_to_next_stage.instruction_stage = 3;
        },
        _ => {
            cpu.advance_pc();
        },
    }
    pass_to_next_stage
}

/// `JP (HL)`: the program counter takes the content of HL.
pub open spec fn spec_jp_hl(cpu: CPU) -> (CPU, StagePassThrough) {
    (cpu.jump(cpu.hl()), StagePassThrough::fresh())
}

fn jp_hl(cpu: &mut CPU) -> (next: StagePassThrough)
    ensures
        (*final(cpu), next) == spec_jp_hl(*old(cpu)),
        final(cpu).same_control(*old(cpu)),
{
    cpu.pc = cpu.reg_file.get16(Reg16::HL);
    StagePassThrough::default()
}

/// `LD SP,HL`. Cycle 0 takes HL, cycle 1 stores it in the stack pointer.
pub open spec fn spec_ld_sp_hl(cpu: CPU, passed: StagePassThrough) -> (CPU, StagePassThrough) {
    if passed.instruction_stage == 0 {
        (cpu, StagePassThrough { data16: cpu.hl(), ..StagePassThrough::at(1) })
    } else {
        retire(cpu.with_reg16(Reg16::SP, passed.data16))
    }
}

fn ld_sp_hl(cpu: &mut CPU, passed: StagePassThrough) -> (next: StagePassThrough)
    requires
        passed.instruction_stage <= 1,
    ensures
        (*final(cpu), next) == spec_ld_sp_hl(*old(cpu), passed),
        final(cpu).same_control(*old(cpu)),
        old(cpu).regs_wf() ==> final(cpu).regs_wf(),
        next.instruction_stage <= 1,
{
    let mut pass_to_next_stage = StagePassThrough::default();
    match passed.instruction_stage {
        0 => {
            pass_to_next_stage.data16 = cpu.reg_file.get16(Reg16::HL);
            pass_to_next_stage.instruction_stage = 1;
        },
        _ => {
            load16(cpu, Reg16::SP, passed.data16);
            cpu.advance_pc();
        },
    }
    pass_to_next_stage
}

/// The three cycles in which a return takes the address off the stack, the first of
/// them numbered `first`: pop the low byte, pop the high byte, idle.
pub open spec fn spec_pop_address(cpu: CPU, passed: StagePassThrough, first: u8) -> (
    CPU,
    StagePassThrough,
) {
    if passed.instruction_stage == first {
        (
            cpu.spec_pop(),
            StagePassThrough {
                data: cpu.spec_read_at(cpu.reg_file.SP),
                ..StagePassThrough::at((first + 1) as u8)
            },
        )
    } else if passed.instruction_stage == first + 1 {
        (
            cpu.spec_pop(),
            StagePassThrough {
                data16: word(cpu.spec_read_at(cpu.reg_file.SP), passed.data),
                ..StagePassThrough::at((first + 2) as u8)
            },
        )
    } else {
        (cpu, StagePassThrough { data16: passed.data16, ..StagePassThrough::at((first + 3) as u8) })
    }
}

fn pop_address(cpu: &mut CPU, passed: StagePassThrough, first: u8) -> (next: StagePassThrough)
    requires
        first <= 1,
        first <= passed.instruction_stage <= first + 2,
    ensures
        (*final(cpu), next) == spec_pop_address(*old(cpu), passed, first),
        final(cpu).same_control(*old(cpu)),
        old(cpu).regs_wf() ==> final(cpu).regs_wf(),
        next.instruction_stage == passed.instruction_stage + 1,
{
    let mut pass_to_next_stage = StagePassThrough::default();
    if passed.instruction_stage == first {
        pass_to_next_stage.data = cpu.pop();
    } else if passed.instruction_stage == first + 1 {
        pass_to_next_stage.data16 = make_word(cpu.pop(), passed.data);
    } else {
        pass_to_next_stage.data16 = passed.data16;
    }
    pass_to_next_stage.instruction_stage = passed.instruction_stage + 1;
    pass_to_next_stage
}

/// `RET`. Cycles 0 to 2 take the address off the stack, cycle 3 jumps.
pub open spec fn spec_ret(cpu: CPU, passed: StagePassThrough) -> (CPU, StagePassThrough) {
    if passed.instruction_stage <= 2 {
        spec_pop_address(cpu, passed, 0)
    } else {
        (cpu.jump(passed.data16), StagePassThrough::fresh())
    }
}

fn ret(cpu: &mut CPU, passed: StagePassThrough) -> (next: StagePassThrough)
    requires
        passed.instruction_stage <= 3,
    ensures
        (*final(cpu), next) == spec_ret(*old(cpu), passed),
        final(cpu).same_control(*old(cpu)),
        old(cpu).regs_wf() ==> final(cpu).regs_wf(),
        next.instruction_stage <= 3,
{
    match passed.instruction_stage {
        0 | 1 | 2 => pop_address(cpu, passed, 0),
        _ => {
            cpu.pc = passed.data16;
            StagePassThrough::default()
        },
    }
}

/// `RETI`: as `RET`, and the last cycle enables interrupts.
pub open spec fn spec_reti(cpu: CPU, passed: StagePassThrough) -> (CPU, StagePassThrough) {
    if passed.instruction_stage <= 2 {
        spec_pop_address(cpu, passed, 0)
    } else {
        (CPU { ime: true, ..cpu.jump(passed.data16) }, StagePassThrough::fresh())
    }
}

fn reti(cpu: &mut CPU, passed: StagePassThrough) -> (next: StagePassThrough)
    requires
        passed.instruction_stage <= 3,
    ensures
        (*final(cpu), next) == spec_reti(*old(cpu), passed),
        final(cpu).same_control(*old(cpu)),
        old(cpu).regs_wf() ==> final(cpu).regs_wf(),
        next.instruction_stage <= 3,
{
    match passed.instruction_stage {
        0 | 1 | 2 => pop_address(cpu, passed, 0),
        _ => {
            cpu.pc = passed.data16;
            cpu.ime = true;
            StagePassThrough::default()
        },
    }
}

/// `RET cc` with condition `(n / 8) % 4`. Cycle 0 idles. Cycle 1 tests the condition:
/// where it fails the instruction completes, where it holds the low byte of the
/// address is popped. Cycles 2 and 3 take the rest, cycle 4 jumps.
pub open spec fn spec_ret_cc(cpu: CPU, n: u8, passed: StagePassThrough) -> (
    CPU,
    StagePassThrough,
) {
    if passed.instruction_stage == 0 {
        (cpu, StagePassThrough::at(1))
    } else if passed.instruction_stage == 1 && !cpu.reg_file.spec_check_condition(
        CC::spec_of(((n / 8) % 4) as u8),
    ) {
        retire(cpu)
    } else if passed.instruction_stage <= 3 {
        spec_pop_address(cpu, passed, 1)
    } else {
        (cpu.jump(passed.data16), StagePassThrough::fresh())
    }
}

fn ret_cc(cpu: &mut CPU, n: u8, passed: StagePassThrough) -> (next: StagePassThrough)
    requires
        n == 0xC0 || n == 0xD0 || n == 0xC8 || n == 0xD8,
        passed.instruction_stage <= 4,
    ensures
        (*final(cpu), next) == spec_ret_cc(*old(cpu), n, passed),
        final(cpu).same_control(*old(cpu)),
        old(cpu).regs_wf() ==> final(cpu).regs_wf(),
        next.instruction_stage <= 4,
{
    let cc = CC::of((n / 8) % 4);
    match passed.instruction_stage {
        0 => {
            let mut pass_to_next_stage = StagePassThrough::default();
            pass_to_next_stage.instruction_stage = 1;
            pass_to_next_stage
        },
        1 => {
            if cpu.reg_file.check_condition(cc) {
                pop_address(cpu, passed, 1)
            } else {
                cpu.advance_pc();
                StagePassThrough::default()
            }
        },
        2 | 3 => pop_address(cpu, passed, 1),
        _ => {
            cpu.pc = passed.data16;
            StagePassThrough::default()
        },
    }
}

/// The address in the last page that the byte `low` selects.
pub open spec fn high_page(low: u8) -> u16 {
    (0xFF00 + low) as u16
}

/// `LDH (n),A`. Cycle 0 reads the byte `n`, cycle 1 writes the accumulator at
/// `0xFF00 + n`, cycle 2 completes.
pub open spec fn spec_ldh_n_a(cpu: CPU, passed: StagePassThrough) -> (CPU, StagePassThrough) {
    if passed.instruction_stage == 0 {
        (cpu.fetch(), StagePassThrough { data: cpu.operand(), ..StagePassThrough::at(1) })
    } else if passed.instruction_stage == 1 {
        (
            cpu.at(high_page(passed.data)).spec_write_at(high_page(passed.data), cpu.reg_file.A),
            StagePassThrough::at(2),
        )
    } else {
        retire(cpu)
    }
}

fn ldh_n_a(cpu: &mut CPU, passed: StagePassThrough) -> (next: StagePassThrough)
    requires
        passed.instruction_stage <= 2,
    ensures
        (*final(cpu), next) == spec_ldh_n_a(*old(cpu), passed),
        final(cpu).same_control(*old(cpu)),
        old(cpu).regs_wf() ==> final(cpu).regs_wf(),
        next.instruction_stage <= 2,
{
    let mut pass_to_next_stage = StagePassThrough::default();
    match passed.instruction_stage {
        0 => {
            pass_to_next_stage.data = cpu.fetch_operand();
            pass_to_next_stage.instruction_stage = 1;
        },
        1 => {
            cpu.write_at(0xFF00 + (passed.data as u16), cpu.reg_file.A);
            pass_to_next_stage.instruction_stage = 2;
        },
        _ => {
            cpu.advance_pc();
        },
    }
    pass_to_next_stage
}

/// `LDH A,(n)`. Cycle 0 reads the byte `n`, cycle 1 reads the accumulator from
/// `0xFF00 + n`, cycle 2 completes.
pub open spec fn spec_ldh_a_n(cpu: CPU, passed: StagePassThrough) -> (CPU, StagePassThrough) {
    if passed.instruction_stage == 0 {
        (cpu.fetch(), StagePassThrough { data: cpu.operand(), ..StagePassThrough::at(1) })
    } else if passed.instruction_stage == 1 {
        (
            cpu.at(high_page(passed.data)).with_reg8(
                Reg8::A,
                cpu.spec_read_at(high_page(passed.data)),
            ),
            StagePassThrough::at(2),
        )
    } else {
        retire(cpu)
    }
}

fn ldh_a_n(cpu: &mut CPU, passed: StagePassThrough) -> (next: StagePassThrough)
    requires
        passed.instruction_stage <= 2,
    ensures
        (*final(cpu), next) == spec_ldh_a_n(*old(cpu), passed),
        final(cpu).same_control(*old(cpu)),
        old(cpu).regs_wf() ==> final(cpu).regs_wf(),
        next.instruction_stage <= 2,
{
    let mut pass_to_next_stage = StagePassThrough::default();
    match passed.instruction_stage {
        0 => {
            pass_to_next_stage.data = cpu.fetch_operand();
            pass_to_next_stage.instruction_stage = 1;
        },
        1 => {
            cpu.reg_file.A = cpu.read_at(0xFF00 + (passed.data as u16));
            pass_to_next_stage.instruction_stage = 2;
        },
        _ => {
            cpu.advance_pc();
        },
    }
    pass_to_next_stage
}

/// The condition of the jump or call with opcode `n`: none where the opcode's low bit
/// is set (`JP nn`, `CALL nn`), else the one that `(n / 8) % 4` names.
pub open spec fn branch_condition(n: u8) -> CC {
    if n % 2 == 1 {
        CC::UC
    } else {
        CC::spec_of(((n / 8) % 4) as u8)
    }
}

fn branch_cc(n: u8) -> (cc: CC)
    ensures
        cc == branch_condition(n),
{
    if n % 2 == 1 {
        CC::UC
    } else {
        CC::of((n / 8) % 4)
    }
}

/// The two cycles in which an instruction reads the word that follows its opcode:
/// cycle 0 reads the low byte, cycle 1 the high byte.
pub open spec fn spec_fetch_word(cpu: CPU, passed: StagePassThrough) -> (CPU, StagePassThrough) {
    if passed.instruction_stage == 0 {
        (cpu.fetch(), StagePassThrough { data: cpu.operand(), ..StagePassThrough::at(1) })
    } else {
        (
            cpu.fetch(),
            StagePassThrough { data16: operand_word(cpu, passed), ..StagePassThrough::at(2) },
        )
    }
}

fn fetch_word(cpu: &mut CPU, passed: StagePassThrough) -> (next: StagePassThrough)
    requires
        passed.instruction_stage <= 1,
    ensures
        (*final(cpu), next) == spec_fetch_word(*old(cpu), passed),
        final(cpu).same_control(*old(cpu)),
        next.instruction_stage == passed.instruction_stage + 1,
{
    let mut pass_to_next_stage = StagePassThrough::default();
    if passed.instruction_stage == 0 {
        pass_to_next_stage.data = cpu.fetch_operand();
        pass_to_next_stage.instruction_stage = 1;
    } else {
        pass_to_next_stage.data16 = make_word(cpu.fetch_operand(), passed.data);
        pass_to_next_stage.instruction_stage = 2;
    }
    pass_to_next_stage
}

/// `JP nn` and `JP cc,nn`. Cycles 0 and 1 read the address. Cycle 2 tests the
/// condition: where it fails the instruction completes. Cycle 3 jumps.
pub open spec fn spec_jp_nn(cpu: CPU, n: u8, passed: StagePassThrough) -> (CPU, StagePassThrough) {
    if passed.instruction_stage <= 1 {
        spec_fetch_word(cpu, passed)
    } else if passed.instruction_stage == 2 {
        if cpu.reg_file.spec_check_condition(branch_condition(n)) {
            (cpu, StagePassThrough { data16: passed.data16, ..StagePassThrough::at(3) })
        } else {
            retire(cpu)
        }
    } else {
        (cpu.jump(passed.data16), StagePassThrough::fresh())
    }
}

fn jp_nn(cpu: &mut CPU, n: u8, passed: StagePassThrough) -> (next: StagePassThrough)
    requires
        n == 0xC2 || n == 0xD2 || n == 0xC3 || n == 0xCA || n == 0xDA,
        passed.instruction_stage <= 3,
    ensures
        (*final(cpu), next) == spec_jp_nn(*old(cpu), n, passed),
        final(cpu).same_control(*old(cpu)),
        next.instruction_stage <= 3,
{
    let mut pass_to_next_stage = StagePassThrough::default();
    match passed.instruction_stage {
        0 | 1 => {
            pass_to_next_stage = fetch_word(cpu, passed);
        },
        2 => {
            if cpu.reg_file.check_condition(branch_cc(n)) {
                pass_to_next_stage.data16 = passed.data16;
                pass_to_next_stage.instruction_stage = 3;
            } else {
                cpu.advance_pc();
            }
        },
        _ => {
            cpu.pc = passed.data16;
        },
    }
    pass_to_next_stage
}

/// `LD (C),A`. Cycle 0 writes the accumulator at `0xFF00 + C`, cycle 1 completes.
pub open spec fn spec_ldh_c_a(cpu: CPU, passed: StagePassThrough) -> (CPU, StagePassThrough) {
    if passed.instruction_stage == 0 {
        (
            cpu.at(high_page(cpu.reg_file.C)).spec_write_at(
                high_page(cpu.reg_file.C),
                cpu.reg_file.A,
            ),
            StagePassThrough::at(1),
        )
    } else {
        retire(cpu)
    }
}

fn ldh_c_a(cpu: &mut CPU, passed: StagePassThrough) -> (next: StagePassThrough)
    requires
        passed.instruction_stage <= 1,
    ensures
        (*final(cpu), next) == spec_ldh_c_a(*old(cpu), passed),
        final(cpu).same_control(*old(cpu)),
        old(cpu).regs_wf() ==> final(cpu).regs_wf(),
        next.instruction_stage <= 1,
{
    let mut pass_to_next_stage = StagePassThrough::default();
    match passed.instruction_stage {
        0 => {
            cpu.write_at(0xFF00 + (cpu.reg_file.C as u16), cpu.reg_file.A);
            pass_to_next_stage.instruction_stage = 1;
        },
        _ => {
            cpu.advance_pc();
        },
    }
    pass_to_next_stage
}

/// `LD A,(C)`. Cycle 0 reads the accumulator from `0xFF00 + C`, cycle 1 completes.
pub open spec fn spec_ldh_a_c(cpu: CPU, passed: StagePassThrough) -> (CPU, StagePassThrough) {
    if passed.instruction_stage == 0 {
        (
            cpu.at(high_page(cpu.reg_file.C)).with_reg8(
                Reg8::A,
                cpu.spec_read_at(high_page(cpu.reg_file.C)),
            ),
            StagePassThrough::at(1),
        )
    } else {
        retire(cpu)
    }
}

fn ldh_a_c(cpu: &mut CPU, passed: StagePassThrough) -> (next: StagePassThrough)
    requires
        passed.instruction_stage <= 1,
    ensures
        (*final(cpu), next) == spec_ldh_a_c(*old(cpu), passed),
        final(cpu).same_control(*old(cpu)),
        old(cpu).regs_wf() ==> final(cpu).regs_wf(),
        next.instruction_stage <= 1,
{
    let mut pass_to_next_stage = StagePassThrough::default();
    match passed.instruction_stage {
        0 => {
            cpu.reg_file.A = cpu.read_at(0xFF00 + (cpu.reg_file.C as u16));
            pass_to_next_stage.instruction_stage = 1;
        },
        _ => {
            cpu.advance_pc();
        },
    }
    pass_to_next_stage
}

/// `CALL nn` and `CALL cc,nn`. Cycles 0 and 1 read the address. Cycle 2 moves past the
/// instruction and tests the condition: where it fails the instruction completes.
/// Cycles 3 and 4 push the program counter, high byte first. Cycle 5 jumps.
pub open spec fn spec_call_nn(cpu: CPU, n: u8, passed: StagePassThrough) -> (
    CPU,
    StagePassThrough,
) {
    if passed.instruction_stage <= 1 {
        spec_fetch_word(cpu, passed)
    } else if passed.instruction_stage == 2 {
        if cpu.reg_file.spec_check_condition(branch_condition(n)) {
            (cpu.advance(), StagePassThrough { data16: passed.data16, ..StagePassThrough::at(3) })
        } else {
            retire(cpu)
        }
    } else if passed.instruction_stage == 3 {
        (
            cpu.spec_push_val(high_byte(cpu.pc)),
            StagePassThrough { data16: passed.data16, ..StagePassThrough::at(4) },
        )
    } else if passed.instruction_stage == 4 {
        (
            cpu.spec_push_val(low_byte(cpu.pc)),
            StagePassThrough { data16: passed.data16, ..StagePassThrough::at(5) },
        )
    } else {
        (cpu.jump(passed.data16), StagePassThrough::fresh())
    }
}

fn call_nn(cpu: &mut CPU, n: u8, passed: StagePassThrough) -> (next: StagePassThrough)
    requires
        n == 0xC4 || n == 0xD4 || n == 0xCC || n == 0xDC || n == 0xCD,
        passed.instruction_stage <= 5,
    ensures
        (*final(cpu), next) == spec_call_nn(*old(cpu), n, passed),
        final(cpu).same_control(*old(cpu)),
        old(cpu).regs_wf() ==> final(cpu).regs_wf(),
        next.instruction_stage <= 5,
{
    let mut pass_to_next_stage = StagePassThrough::default();
    match passed.instruction_stage {
        0 | 1 => {
            pass_to_next_stage = fetch_word(cpu, passed);
        },
        2 => {
            cpu.advance_pc();
            if cpu.reg_file.check_condition(branch_cc(n)) {
                pass_to_next_stage.data16 = passed.data16;
                pass_to_next_stage.instruction_stage = 3;
            }
        },
        3 => {
            cpu.push_val(split_word(cpu.pc).0);
            pass_to_next_stage.instruction_stage = 4;
            pass_to_next_stage.data16 = passed.data16;
        },
        4 => {
            cpu.push_val(split_word(cpu.pc).1);
            pass_to_next_stage.instruction_stage = 5;
            pass_to_next_stage.data16 = passed.data16;
        },
        _ => {
            cpu.pc = passed.data16;
        },
    }
    pass_to_next_stage
}

/// `RST`. Cycle 0 moves past the instruction. Cycles 1 and 2 push the program counter,
/// high byte first. Cycle 3 jumps to the address that the opcode holds in bits 3 to 5.
pub open spec fn spec_rst(cpu: CPU, n: u8, passed: StagePassThrough) -> (CPU, StagePassThrough) {
    if passed.instruction_stage == 0 {
        (cpu.advance(), StagePassThrough::at(1))
    } else if passed.instruction_stage == 1 {
        (cpu.spec_push_val(high_byte(cpu.pc)), StagePassThrough::at(2))
    } else if passed.instruction_stage == 2 {
        (cpu.spec_push_val(low_byte(cpu.pc)), StagePassThrough::at(3))
    } else {
        (cpu.jump((n - 0xC7) as u16), StagePassThrough::fresh())
    }
}

fn rst(cpu: &mut CPU, n: u8, passed: StagePassThrough) -> (next: StagePassThrough)
    requires
        n / 64 == 3,
        n % 8 == 7,
        passed.instruction_stage <= 3,
    ensures
        (*final(cpu), next) == spec_rst(*old(cpu), n, passed),
        final(cpu).same_control(*old(cpu)),
        old(cpu).regs_wf() ==> final(cpu).regs_wf(),
        next.instruction_stage <= 3,
{
    let mut pass_to_next_stage = StagePassThrough::default();
    match passed.instruction_stage {
        0 => {
            cpu.advance_pc();
            pass_to_next_stage.instruction_stage = 1;
        },
        1 => {
            pass_to_next_stage.instruction_stage = 2;
            cpu.push_val(split_word(cpu.pc).0);
        },
        2 => {
            pass_to_next_stage.instruction_stage = 3;
            cpu.push_val(split_word(cpu.pc).1);
        },
        _ => {
            cpu.pc = match n {
                0xC7 => 0x00,
                0xD7 => 0x10,
                0xE7 => 0x20,
                0xF7 => 0x30,
                0xCF => 0x08,
                0xDF => 0x18,
                0xEF => 0x28,
                _ => 0x38,
            };
        },
    }
    pass_to_next_stage
}

/// The arithmetic and logic instructions on the accumulator and the byte after the
/// opcode, the operation being `(n / 8) % 8`. Cycle 0 reads the byte, cycle 1 computes
/// and stores.
pub open spec fn spec_alu_imm(cpu: CPU, n: u8, passed: StagePassThrough) -> (
    CPU,
    StagePassThrough,
) {
    let op = ((n / 8) % 8) as u8;
    let result = alu_result(op, cpu.reg_file.A, passed.data, cpu.reg_file.flags.C);
    if passed.instruction_stage == 0 {
        (cpu.fetch(), StagePassThrough { data: cpu.operand(), ..StagePassThrough::at(1) })
    } else {
        retire(cpu.with_regs(alu_stored(cpu.reg_file, op, result.0, result.1)))
    }
}

fn alu_imm(cpu: &mut CPU, n: u8, passed: StagePassThrough) -> (next: StagePassThrough)
    requires
        old(cpu).regs_wf(),
        n / 64 == 3,
        n % 8 == 6,
        passed.instruction_stage <= 1,
    ensures
        (*final(cpu), next) == spec_alu_imm(*old(cpu), n, passed),
        final(cpu).same_control(*old(cpu)),
        final(cpu).regs_wf(),
        next.instruction_stage <= 1,
{
    let mut pass_to_next_stage = StagePassThrough::default();
    match passed.instruction_stage {
        0 => {
            pass_to_next_stage.data = cpu.fetch_operand();
            pass_to_next_stage.instruction_stage = 1;
        },
        _ => {
            let imm: u8 = passed.data;
            let a: u8 = cpu.reg_file.A;
            let tup = match n {
                0xC6 => crate::alu::add(a, imm),
                0xD6 => crate::alu::sub(a, imm),
                0xE6 => and_calc(a, imm),
                0xF6 => or(a, imm),
                0xCE => adc(a, imm, cpu.reg_file.flags.C),
                0xDE => subc(a, imm, cpu.reg_file.flags.C),
                0xEE => xor(a, imm),
                _ => crate::alu::sub(a, imm),
            };
            if n != 0xFE {
                cpu.reg_file.A = tup.0;
            }
            cpu.reg_file.flags = tup.1;
            cpu.advance_pc();
        },
    }
    pass_to_next_stage
}

/// `ADD SP,e`. Cycle 0 reads the signed byte, cycle 1 idles, cycle 2 adds it to the
/// stack pointer and sets the flags, cycle 3 completes.
pub open spec fn spec_add_sp_e(cpu: CPU, passed: StagePassThrough) -> (CPU, StagePassThrough) {
    if passed.instruction_stage == 0 {
        (cpu.fetch(), StagePassThrough { data: cpu.operand(), ..StagePassThrough::at(1) })
    } else if passed.instruction_stage == 1 {
        (cpu, StagePassThrough { data: passed.data, ..StagePassThrough::at(2) })
    } else if passed.instruction_stage == 2 {
        (
            cpu.with_flags(spec_add_signed(cpu.reg_file.SP, passed.data).1).with_reg16(
                Reg16::SP,
                spec_add_signed(cpu.reg_file.SP, passed.data).0,
            ),
            StagePassThrough::at(3),
        )
    } else {
        retire(cpu)
    }
}

fn add_sp_e(cpu: &mut CPU, passed: StagePassThrough) -> (next: StagePassThrough)
    requires
        old(cpu).regs_wf(),
        passed.instruction_stage <= 3,
    ensures
        (*final(cpu), next) == spec_add_sp_e(*old(cpu), passed),
        final(cpu).same_control(*old(cpu)),
        final(cpu).regs_wf(),
        next.instruction_stage <= 3,
{
    let mut pass_to_next_stage = StagePassThrough::default();
    match passed.instruction_stage {
        0 => {
            pass_to_next_stage.data = cpu.fetch_operand();
            pass_to_next_stage.instruction_stage = 1;
        },
        1 => {
            pass_to_next_stage.data = passed.data;
            pass_to_next_stage.instruction_stage = 2;
        },
        2 => {
            let (val, flags) = add_signed(cpu.reg_file.get16(Reg16::SP), passed.data);
            cpu.reg_file.flags = flags;
            cpu.reg_file.set16(Reg16::SP, val);
            pass_to_next_stage.instruction_stage = 3;
        },
        _ => {
            cpu.advance_pc();
        },
    }
    pass_to_next_stage
}

/// `LD HL,SP+e`. Cycle 0 reads the signed byte, cycle 1 adds it to the stack pointer
/// and sets the flags, cycle 2 stores the sum in HL.
pub open spec fn spec_ld_hl_sp_e(cpu: CPU, passed: StagePassThrough) -> (CPU, StagePassThrough) {
    if passed.instruction_stage == 0 {
        (cpu.fetch(), StagePassThrough { data: cpu.operand(), ..StagePassThrough::at(1) })
    } else if passed.instruction_stage == 1 {
        (
            cpu.with_flags(spec_add_signed(cpu.reg_file.SP, passed.data).1),
            StagePassThrough {
                data16: spec_add_signed(cpu.reg_file.SP, passed.data).0,
                ..StagePassThrough::at(2)
            },
        )
    } else {
        retire(cpu.with_reg16(Reg16::HL, passed.data16))
    }
}

fn ld_hl_sp_e(cpu: &mut CPU, passed: StagePassThrough) -> (next: StagePassThrough)
    requires
        old(cpu).regs_wf(),
        passed.instruction_stage <= 2,
    ensures
        (*final(cpu), next) == spec_ld_hl_sp_e(*old(cpu), passed),
        final(cpu).same_control(*old(cpu)),
        final(cpu).regs_wf(),
        next.instruction_stage <= 2,
{
    let mut pass_to_next_stage = StagePassThrough::default();
    match passed.instruction_stage {
        0 => {
            pass_to_next_stage.data = cpu.fetch_operand();
            pass_to_next_stage.instruction_stage = 1;
        },
        1 => {
            let (val, flags) = add_signed(cpu.reg_file.get16(Reg16::SP), passed.data);
            cpu.reg_file.flags = flags;
            pass_to_next_stage.data16 = val;
            pass_to_next_stage.instruction_stage = 2;
        },
        _ => {
            cpu.reg_file.set16(Reg16::HL, passed.data16);
            cpu.advance_pc();
        },
    }
    pass_to_next_stage
}

/// `LD (nn),SP`. Cycle 0 idles. Cycles 1 and 2 read the address. Cycle 3 writes the
/// stack pointer's low byte there, cycle 4 its high byte at the next address.
pub open spec fn spec_ld_nn_sp(cpu: CPU, passed: StagePassThrough) -> (CPU, StagePassThrough) {
    if passed.instruction_stage == 0 {
        (cpu, StagePassThrough::at(1))
    } else if passed.instruction_stage == 1 {
        (cpu.fetch(), StagePassThrough { data16: cpu.operand() as u16, ..StagePassThrough::at(2) })
    } else if passed.instruction_stage == 2 {
        (
            cpu.fetch(),
            StagePassThrough {
                data16: word(cpu.operand(), low_byte(passed.data16)),
                ..StagePassThrough::at(3)
            },
        )
    } else if passed.instruction_stage == 3 {
        (
            cpu.at(passed.data16).spec_write_at(passed.data16, low_byte(cpu.reg_file.SP)),
            StagePassThrough { data16: passed.data16.wrapping_add(1), ..StagePassThrough::at(4) },
        )
    } else {
        retire(cpu.at(passed.data16).spec_write_at(passed.data16, high_byte(cpu.reg_file.SP)))
    }
}

fn ld_nn_sp(cpu: &mut CPU, passed: StagePassThrough) -> (next: StagePassThrough)
    requires
        passed.instruction_stage <= 4,
    ensures
        (*final(cpu), next) == spec_ld_nn_sp(*old(cpu), passed),
        final(cpu).same_control(*old(cpu)),
        old(cpu).regs_wf() ==> final(cpu).regs_wf(),
        next.instruction_stage <= 4,
{
    let mut pass_to_next_stage = StagePassThrough::default();
    match passed.instruction_stage {
        0 => {
            pass_to_next_stage.instruction_stage = 1;
        },
        1 => {
            pass_to_next_stage.data16 = cpu.fetch_operand() as u16;
            pass_to_next_stage.instruction_stage = 2;
        },
        2 => {
            pass_to_next_stage.data16 = make_word(cpu.fetch_operand(), split_word(passed.data16).1);
            pass_to_next_stage.instruction_stage = 3;
        },
        3 => {
            cpu.write_at(passed.data16, split_word(cpu.reg_file.get16(Reg16::SP)).1);
            pass_to_next_stage.data16 = passed.data16.wrapping_add(1);
            pass_to_next_stage.instruction_stage = 4;
        },
        _ => {
            cpu.write_at(passed.data16, split_word(cpu.reg_file.get16(Reg16::SP)).0);
            cpu.advance_pc();
        },
    }
    pass_to_next_stage
}

/// `LD (nn),A`. Cycles 0 and 1 read the address, cycle 2 writes the accumulator there,
/// cycle 3 completes.
pub open spec fn spec_ld_nn_a(cpu: CPU, passed: StagePassThrough) -> (CPU, StagePassThrough) {
    if passed.instruction_stage <= 1 {
        spec_fetch_word(cpu, passed)
    } else if passed.instruction_stage == 2 {
        (
            cpu.at(passed.data16).spec_write_at(passed.data16, cpu.reg_file.A),
            StagePassThrough::at(3),
        )
    } else {
        retire(cpu)
    }
}

fn ld_nn_a(cpu: &mut CPU, passed: StagePassThrough) -> (next: StagePassThrough)
    requires
        passed.instruction_stage <= 3,
    ensures
        (*final(cpu), next) == spec_ld_nn_a(*old(cpu), passed),
        final(cpu).same_control(*old(cpu)),
        old(cpu).regs_wf() ==> final(cpu).regs_wf(),
        next.instruction_stage <= 3,
{
    let mut pass_to_next_stage = StagePassThrough::default();
    match passed.instruction_stage {
        0 | 1 => {
            pass_to_next_stage = fetch_word(cpu, passed);
        },
        2 => {
            cpu.write_at(passed.data16, cpu.reg_file.A);
            pass_to_next_stage.instruction_stage = 3;
        },
        _ => {
            cpu.advance_pc();
        },
    }
    pass_to_next_stage
}

/// `LD A,(nn)`. Cycles 0 and 1 read the address, cycle 2 reads the accumulator from
/// there, cycle 3 completes.
pub open spec fn spec_ld_a_nn(cpu: CPU, passed: StagePassThrough) -> (CPU, StagePassThrough) {
    if passed.instruction_stage <= 1 {
        spec_fetch_word(cpu, passed)
    } else if passed.instruction_stage == 2 {
        (
            cpu.at(passed.data16).with_reg8(Reg8::A, cpu.spec_read_at(passed.data16)),
            StagePassThrough::at(3),
        )
    } else {
        retire(cpu)
    }
}

fn ld_a_nn(cpu: &mut CPU, passed: StagePassThrough) -> (next: StagePassThrough)
    requires
        passed.instruction_stage <= 3,
    ensures
        (*final(cpu), next) == spec_ld_a_nn(*old(cpu), passed),
        final(cpu).same_control(*old(cpu)),
        old(cpu).regs_wf() ==> final(cpu).regs_wf(),
        next.instruction_stage <= 3,
{
    let mut pass_to_next_stage = StagePassThrough::default();
    match passed.instruction_stage {
        0 | 1 => {
            pass_to_next_stage = fetch_word(cpu, passed);
        },
        2 => {
            cpu.reg_file.A = cpu.read_at(passed.data16);
            pass_to_next_stage.instruction_stage = 3;
        },
        _ => {
            cpu.advance_pc();
        },
    }
    pass_to_next_stage
}

/// The opcode names an instruction. Eleven opcodes are holes in the instruction set,
/// and `0x10` (`STOP`) is not provided.
pub open spec fn is_defined(opcode: u8) -> bool {
    !(opcode == 0x10 || opcode == 0xD3 || opcode == 0xDB || opcode == 0xDD || opcode == 0xE3
        || opcode == 0xE4 || opcode == 0xEB || opcode == 0xEC || opcode == 0xED || opcode == 0xF4
        || opcode == 0xFC || opcode == 0xFD)
}

/// The number of the last cycle of the instruction with this opcode, its first cycle
/// being cycle 0. For a conditional jump, call or return it is that of the taken path.
///
/// The opcode is read as three fields: `x` its two high bits, `y` the next three, `z`
/// the low three.
#[verifier::opaque]
pub open spec fn last_stage(opcode: u8) -> u8 {
    let x = opcode / 64;
    let y = (opcode / 8) % 8;
    let z = opcode % 8;
    if x == 1 {
        if opcode != 0x76 && (y == 6 || z == 6) {
            1
        } else {
            0
        }
    } else if x == 2 {
        if z == 6 {
            1
        } else {
            0
        }
    } else if x == 0 {
        if z == 0 {
            if y == 1 {
                4
            } else if y >= 3 {
                2
            } else {
                0
            }
        } else if z == 1 {
            if y % 2 == 0 {
                2
            } else {
                1
            }
        } else if z == 2 || z == 3 {
            1
        } else if z == 4 || z == 5 {
            if y == 6 {
                2
            } else {
                0
            }
        } else if z == 6 {
            if y == 6 {
                2
            } else {
                1
            }
        } else {
            0
        }
    } else if z == 0 {
        if y < 4 {
            4
        } else if y == 5 {
            3
        } else {
            2
        }
    } else if z == 1 {
        if y % 2 == 0 {
            2
        } else if y == 1 || y == 3 {
            3
        } else if y == 5 {
            0
        } else {
            1
        }
    } else if z == 2 {
        if y == 4 || y == 6 {
            1
        } else {
            3
        }
    } else if z == 3 {
        if y <= 1 {
            3
        } else {
            0
        }
    } else if z == 4 {
        if y < 4 {
            5
        } else {
            0
        }
    } else if z == 5 {
        if y % 2 == 0 {
            3
        } else if y == 1 {
            5
        } else {
            0
        }
    } else if z == 6 {
        1
    } else {
        3
    }
}

/// `NOP` and `HALT` take a single cycle.
pub proof fn lemma_single_cycle()
    ensures
        last_stage(0x00) == 0,
        last_stage(0x76) == 0,
{
    reveal(last_stage);
}

/// What the instruction with this opcode may hand from one cycle to the next: flags of
/// one bit each, and the number of a cycle that the instruction has.
pub open spec fn stage_ok(opcode: u8, passed: StagePassThrough) -> bool {
    &&& passed.flags.wf()
    &&& passed.instruction_stage <= last_stage(opcode)
    &&& opcode == 0xCB ==> cb_stage_ok(passed)
}

/// What one machine cycle of the instruction with this opcode makes of the processor,
/// and what it hands to the next cycle: the state machine of the whole instruction
/// set. `passed.instruction_stage` is the number of the cycle. The result's stage is
/// zero where the instruction is complete.
///
/// The opcode is read as three fields: `x` its two high bits, `y` the next three, `z`
/// the low three. For an opcode that names no instruction the processor is unchanged.
#[verifier::opaque]
pub open spec fn spec_decode(cpu: CPU, opcode: u8, passed: StagePassThrough) -> (
    CPU,
    StagePassThrough,
) {
    let x = opcode / 64;
    let y = (opcode / 8) % 8;
    let z = opcode % 8;
    if !is_defined(opcode) || opcode == 0x76 {
        (cpu, StagePassThrough::fresh())
    } else if x == 1 {
        if z == 6 {
            spec_ld_r_hl(cpu, opcode, passed)
        } else if y == 6 {
            spec_ld_hl_r(cpu, opcode, passed)
        } else {
            spec_ld_r_r(cpu, opcode)
        }
    } else if x == 2 {
        spec_alu(cpu, opcode, passed)
    } else if x == 0 {
        if z == 0 {
            if y == 0 {
                retire(cpu)
            } else if y == 1 {
                spec_ld_nn_sp(cpu, passed)
            } else {
                spec_jr_cc_e(cpu, opcode, passed)
            }
        } else if z == 1 {
            if y % 2 == 0 {
                spec_ld_rr_nn(cpu, opcode, passed)
            } else {
                spec_add_hl_nn(cpu, opcode, passed)
            }
        } else if z == 2 {
            if y % 2 == 0 {
                spec_ld_16_a(cpu, opcode, passed)
            } else {
                spec_ld_a_16(cpu, opcode, passed)
            }
        } else if z == 3 {
            spec_inc_dec_rr(cpu, opcode, passed, y % 2 == 1)
        } else if z == 4 {
            spec_inc_dec(cpu, opcode, passed, false)
        } else if z == 5 {
            spec_inc_dec(cpu, opcode, passed, true)
        } else if z == 6 {
            if y == 6 {
                spec_ld_hl_n(cpu, passed)
            } else {
                spec_ld_r_n(cpu, opcode, passed)
            }
        } else if y == 0 {
            spec_rotate_a(cpu, Shift::Rlc)
        } else if y == 1 {
            spec_rotate_a(cpu, Shift::Rrc)
        } else if y == 2 {
            spec_rotate_a(cpu, Shift::Rl)
        } else if y == 3 {
            spec_rotate_a(cpu, Shift::Rr)
        } else if y == 4 {
            spec_daa_step(cpu)
        } else if y == 5 {
            spec_cpl(cpu)
        } else if y == 6 {
            spec_scf(cpu)
        } else {
            spec_ccf(cpu)
        }
    } else if z == 0 {
        if y < 4 {
            spec_ret_cc(cpu, opcode, passed)
        } else if y == 4 {
            spec_ldh_n_a(cpu, passed)
        } else if y == 5 {
            spec_add_sp_e(cpu, passed)
        } else if y == 6 {
            spec_ldh_a_n(cpu, passed)
        } else {
            spec_ld_hl_sp_e(cpu, passed)
        }
    } else if z == 1 {
        if y % 2 == 0 {
            spec_pop(cpu, opcode, passed)
        } else if y == 1 {
            spec_ret(cpu, passed)
        } else if y == 3 {
            spec_reti(cpu, passed)
        } else if y == 5 {
            spec_jp_hl(cpu)
        } else {
            spec_ld_sp_hl(cpu, passed)
        }
    } else if z == 2 {
        if y < 4 {
            spec_jp_nn(cpu, opcode, passed)
        } else if y == 4 {
            spec_ldh_c_a(cpu, passed)
        } else if y == 5 {
            spec_ld_nn_a(cpu, passed)
        } else if y == 6 {
            spec_ldh_a_c(cpu, passed)
        } else {
            spec_ld_a_nn(cpu, passed)
        }
    } else if z == 3 {
        if y == 0 {
            spec_jp_nn(cpu, opcode, passed)
        } else if y == 1 {
            spec_cb_op(cpu, passed)
        } else if y == 6 {
            spec_di(cpu)
        } else {
            spec_ei(cpu)
        }
    } else if z == 4 {
        spec_call_nn(cpu, opcode, passed)
    } else if z == 5 {
        if y % 2 == 0 {
            spec_push(cpu, opcode, passed)
        } else {
            spec_call_nn(cpu, opcode, passed)
        }
    } else if z == 6 {
        spec_alu_imm(cpu, opcode, passed)
    } else {
        spec_rst(cpu, opcode, passed)
    }
}

/// The instructions with opcodes below `0x40`, as the decoder's table lists them.
proof fn lemma_decode_low(cpu: CPU, opcode: u8, passed: StagePassThrough)
    requires
        opcode < 0x40,
    ensures
        opcode == 0x00 ==> spec_decode(cpu, opcode, passed) == retire(cpu) && last_stage(opcode)
            == 0,
        opcode == 0x08 ==> spec_decode(cpu, opcode, passed) == spec_ld_nn_sp(cpu, passed)
            && last_stage(opcode) == 4,
        opcode == 0x10 ==> !is_defined(opcode),
        opcode == 0x18 || opcode == 0x20 || opcode == 0x28 || opcode == 0x30 || opcode == 0x38
            ==> spec_decode(cpu, opcode, passed) == spec_jr_cc_e(cpu, opcode, passed)
            && last_stage(opcode) == 2,
        opcode % 16 == 0x01 ==> spec_decode(cpu, opcode, passed) == spec_ld_rr_nn(
            cpu,
            opcode,
            passed,
        ) && last_stage(opcode) == 2,
        opcode % 16 == 0x09 ==> spec_decode(cpu, opcode, passed) == spec_add_hl_nn(
            cpu,
            opcode,
            passed,
        ) && last_stage(opcode) == 1,
        opcode % 16 == 0x02 ==> spec_decode(cpu, opcode, passed) == spec_ld_16_a(
            cpu,
            opcode,
            passed,
        ) && last_stage(opcode) == 1,
        opcode % 16 == 0x0A ==> spec_decode(cpu, opcode, passed) == spec_ld_a_16(
            cpu,
            opcode,
            passed,
        ) && last_stage(opcode) == 1,
        opcode % 16 == 0x03 ==> spec_decode(cpu, opcode, passed) == spec_inc_dec_rr(
            cpu,
            opcode,
            passed,
            false,
        ) && last_stage(opcode) == 1,
        opcode % 16 == 0x0B ==> spec_decode(cpu, opcode, passed) == spec_inc_dec_rr(
            cpu,
            opcode,
            passed,
            true,
        ) && last_stage(opcode) == 1,
        opcode % 8 == 4 ==> spec_decode(cpu, opcode, passed) == spec_inc_dec(
            cpu,
            opcode,
            passed,
            false,
        ) && last_stage(opcode) == (if opcode == 0x34 {
            2int
        } else {
            0int
        }),
        opcode % 8 == 5 ==> spec_decode(cpu, opcode, passed) == spec_inc_dec(
            cpu,
            opcode,
            passed,
            true,
        ) && last_stage(opcode) == (if opcode == 0x35 {
            2int
        } else {
            0int
        }),
        opcode % 8 == 6 && opcode != 0x36 ==> spec_decode(cpu, opcode, passed) == spec_ld_r_n(
            cpu,
            opcode,
            passed,
        ) && last_stage(opcode) == 1,
        opcode == 0x36 ==> spec_decode(cpu, opcode, passed) == spec_ld_hl_n(cpu, passed)
            && last_stage(opcode) == 2,
        opcode % 8 == 7 ==> last_stage(opcode) == 0,
        opcode == 0x07 ==> spec_decode(cpu, opcode, passed) == spec_rotate_a(cpu, Shift::Rlc),
        opcode == 0x0F ==> spec_decode(cpu, opcode, passed) == spec_rotate_a(cpu, Shift::Rrc),
        opcode == 0x17 ==> spec_decode(cpu, opcode, passed) == spec_rotate_a(cpu, Shift::Rl),
        opcode == 0x1F ==> spec_decode(cpu, opcode, passed) == spec_rotate_a(cpu, Shift::Rr),
        opcode == 0x27 ==> spec_decode(cpu, opcode, passed) == spec_daa_step(cpu),
        opcode == 0x2F ==> spec_decode(cpu, opcode, passed) == spec_cpl(cpu),
        opcode == 0x37 ==> spec_decode(cpu, opcode, passed) == spec_scf(cpu),
        opcode == 0x3F ==> spec_decode(cpu, opcode, passed) == spec_ccf(cpu),
{
    reveal(last_stage);
    reveal(spec_decode);
}

/// The instructions with opcodes from `0x40` to `0xBF`, as the decoder's table lists
/// them.
proof fn lemma_decode_middle(cpu: CPU, opcode: u8, passed: StagePassThrough)
    requires
        0x40 <= opcode < 0xC0,
    ensures
        opcode == 0x76 ==> spec_decode(cpu, opcode, passed) == (cpu, StagePassThrough::fresh())
            && last_stage(opcode) == 0,
        opcode < 0x80 && opcode % 8 == 6 && opcode != 0x76 ==> spec_decode(cpu, opcode, passed)
            == spec_ld_r_hl(cpu, opcode, passed) && last_stage(opcode) == 1,
        0x70 <= opcode < 0x78 && opcode != 0x76 ==> spec_decode(cpu, opcode, passed)
            == spec_ld_hl_r(cpu, opcode, passed) && last_stage(opcode) == 1,
        opcode < 0x80 && opcode % 8 != 6 && !(0x70 <= opcode < 0x78) ==> spec_decode(
            cpu,
            opcode,
            passed,
        ) == spec_ld_r_r(cpu, opcode) && last_stage(opcode) == 0,
        0x80 <= opcode ==> spec_decode(cpu, opcode, passed) == spec_alu(cpu, opcode, passed)
            && last_stage(opcode) == (if opcode % 8 == 6 {
            1int
        } else {
            0int
        }),
{
    reveal(last_stage);
    reveal(spec_decode);
}

/// The instructions with opcodes from `0xC0` whose low three bits are below four, as
/// the decoder's table lists them.
proof fn lemma_decode_high_first(cpu: CPU, opcode: u8, passed: StagePassThrough)
    requires
        0xC0 <= opcode,
        opcode % 8 < 4,
    ensures
        opcode == 0xC0 || opcode == 0xC8 || opcode == 0xD0 || opcode == 0xD8 ==> spec_decode(
            cpu,
            opcode,
            passed,
        ) == spec_ret_cc(cpu, opcode, passed) && last_stage(opcode) == 4,
        opcode == 0xE0 ==> spec_decode(cpu, opcode, passed) == spec_ldh_n_a(cpu, passed)
            && last_stage(opcode) == 2,
        opcode == 0xE8 ==> spec_decode(cpu, opcode, passed) == spec_add_sp_e(cpu, passed)
            && last_stage(opcode) == 3,
        opcode == 0xF0 ==> spec_decode(cpu, opcode, passed) == spec_ldh_a_n(cpu, passed)
            && last_stage(opcode) == 2,
        opcode == 0xF8 ==> spec_decode(cpu, opcode, passed) == spec_ld_hl_sp_e(cpu, passed)
            && last_stage(opcode) == 2,
        opcode % 16 == 0x01 ==> spec_decode(cpu, opcode, passed) == spec_pop(cpu, opcode, passed)
            && last_stage(opcode) == 2,
        opcode == 0xC9 ==> spec_decode(cpu, opcode, passed) == spec_ret(cpu, passed)
            && last_stage(opcode) == 3,
        opcode == 0xD9 ==> spec_decode(cpu, opcode, passed) == spec_reti(cpu, passed)
            && last_stage(opcode) == 3,
        opcode == 0xE9 ==> spec_decode(cpu, opcode, passed) == spec_jp_hl(cpu) && last_stage(
            opcode,
        ) == 0,
        opcode == 0xF9 ==> spec_decode(cpu, opcode, passed) == spec_ld_sp_hl(cpu, passed)
            && last_stage(opcode) == 1,
        opcode == 0xC2 || opcode == 0xCA || opcode == 0xD2 || opcode == 0xDA || opcode == 0xC3
            ==> spec_decode(cpu, opcode, passed) == spec_jp_nn(cpu, opcode, passed) && last_stage(
            opcode,
        ) == 3,
        opcode == 0xE2 ==> spec_decode(cpu, opcode, passed) == spec_ldh_c_a(cpu, passed)
            && last_stage(opcode) == 1,
        opcode == 0xEA ==> spec_decode(cpu, opcode, passed) == spec_ld_nn_a(cpu, passed)
            && last_stage(opcode) == 3,
        opcode == 0xF2 ==> spec_decode(cpu, opcode, passed) == spec_ldh_a_c(cpu, passed)
            && last_stage(opcode) == 1,
        opcode == 0xFA ==> spec_decode(cpu, opcode, passed) == spec_ld_a_nn(cpu, passed)
            && last_stage(opcode) == 3,
        opcode == 0xCB ==> spec_decode(cpu, opcode, passed) == spec_cb_op(cpu, passed)
            && last_stage(opcode) == 3,
        opcode == 0xF3 ==> spec_decode(cpu, opcode, passed) == spec_di(cpu) && last_stage(opcode)
            == 0,
        opcode == 0xFB ==> spec_decode(cpu, opcode, passed) == spec_ei(cpu) && last_stage(opcode)
            == 0,
{
    reveal(last_stage);
    reveal(spec_decode);
    assert(opcode == 0xC0 + 8 * ((opcode / 8) % 8) + opcode % 8);
}

/// The instructions with opcodes from `0xC0` whose low three bits are four or more,
/// as the decoder's table lists them.
proof fn lemma_decode_high_second(cpu: CPU, opcode: u8, passed: StagePassThrough)
    requires
        0xC0 <= opcode,
        opcode % 8 >= 4,
    ensures
        opcode == 0xC4 || opcode == 0xCC || opcode == 0xD4 || opcode == 0xDC || opcode == 0xCD
            ==> spec_decode(cpu, opcode, passed) == spec_call_nn(cpu, opcode, passed)
            && last_stage(opcode) == 5,
        opcode % 16 == 0x05 ==> spec_decode(cpu, opcode, passed) == spec_push(
            cpu,
            opcode,
            passed,
        ) && last_stage(opcode) == 3,
        opcode % 8 == 6 ==> spec_decode(cpu, opcode, passed) == spec_alu_imm(cpu, opcode, passed)
            && last_stage(opcode) == 1,
        opcode % 8 == 7 ==> spec_decode(cpu, opcode, passed) == spec_rst(cpu, opcode, passed)
            && last_stage(opcode) == 3,
{
    reveal(last_stage);
    reveal(spec_decode);
    assert(opcode == 0xC0 + 8 * ((opcode / 8) % 8) + opcode % 8);
}

/// Runs one machine cycle of the instruction with this opcode: cycle
/// `passed.instruction_stage`, with what the cycle before handed on. Returns what to
/// hand to the next cycle, or the opcode and the program counter where the opcode names
/// no instruction; the processor is then unchanged.
pub fn instruction_decode(opcode: u8, cpu: &mut CPU, passed: StagePassThrough) -> (result: Result<
    StagePassThrough,
    InvalidInstruction,
>)
    requires
        old(cpu).regs_wf(),
        stage_ok(opcode, passed),
    ensures
        result is Ok <==> is_defined(opcode),
        result is Ok ==> (*final(cpu), result->Ok_0) == spec_decode(*old(cpu), opcode, passed),
        result is Ok ==> stage_ok(opcode, result->Ok_0),
        result is Err ==> *final(cpu) == *old(cpu) && result->Err_0 == (InvalidInstruction {
            opcode,
            pc: old(cpu).pc,
        }),
        final(cpu).regs_wf(),
        final(cpu).same_control(*old(cpu)),
{
    proof {
        if opcode < 0x40 {
            lemma_decode_low(*cpu, opcode, passed);
        } else if opcode < 0xC0 {
            lemma_decode_middle(*cpu, opcode, passed);
        } else if opcode % 8 < 4 {
            lemma_decode_high_first(*cpu, opcode, passed);
        } else {
            lemma_decode_high_second(*cpu, opcode, passed);
        }
    }
    let next = match opcode {
        0x00 => {
            cpu.advance_pc();
            StagePassThrough::default()
        },
        0x08 => ld_nn_sp(cpu, passed),
        0x20 | 0x30 | 0x18 | 0x28 | 0x38 => jr_cc_e(cpu, opcode, passed),
        0x01 | 0x11 | 0x21 | 0x31 => ld_rr_nn(cpu, opcode, passed),
        0x02 | 0x12 | 0x22 | 0x32 => ld_16_a(cpu, opcode, passed),
        0x04 | 0x14 | 0x24 | 0x34 | 0x0C | 0x1C | 0x2C | 0x3C => inc(cpu, passed, opcode),
        0x03 | 0x13 | 0x23 | 0x33 => inc_rr(cpu, opcode, passed),
        0x05 | 0x15 | 0x25 | 0x35 | 0x0D | 0x1D | 0x2D | 0x3D => dec(cpu, passed, opcode),
        0x0B | 0x1B | 0x2B | 0x3B => dec_rr(cpu, opcode, passed),
        0x06 | 0x16 | 0x26 | 0x0E | 0x1E | 0x2E | 0x3E => ld_r_n(cpu, opcode, passed),
        0x46 | 0x56 | 0x66 | 0x4E | 0x5E | 0x6E | 0x7E => ld_r_hl(cpu, opcode, passed),
        0x0A | 0x1A | 0x2A | 0x3A => ld_a_16(cpu, opcode, passed),
        0x07 => rlca(cpu, passed),
        0x17 => rla(cpu, passed),
        0x27 => daa(cpu, passed),
        0x0F => rrca(cpu, passed),
        0x1F => rra(cpu, passed),
        0x2F => cpl(cpu, passed),
        0x3F => ccf(cpu, passed),
        0x36 => ld_hl_n(cpu, passed),
        0x37 => scf(cpu, passed),
        0x40..=0x45 | 0x47..=0x4D | 0x4F..=0x55 | 0x57..=0x5D | 0x5F..=0x65 | 0x67..=0x6D | 0x6F
        | 0x78..=0x7D | 0x7F => ld_r_r(cpu, opcode, passed),
        0x76 => StagePassThrough::default(),
        0x70..=0x75 | 0x77 => ld_hl_r(cpu, passed, opcode),
        0x09 | 0x19 | 0x29 | 0x39 => add_hl_nn(cpu, passed, opcode),
        0x80..=0x8F => add_adc(cpu, passed, opcode),
        0x90..=0x9F | 0xB8..=0xBF => sub_sbc_cp(cpu, passed, opcode),
        0xA0..=0xA7 => and(cpu, passed, opcode),
        0xA8..=0xB7 => xor_or(cpu, passed, opcode),
        0xC0 | 0xD0 | 0xC8 | 0xD8 => ret_cc(cpu, opcode, passed),
        0xC9 => ret(cpu, passed),
        0xC1 | 0xD1 | 0xE1 | 0xF1 => pop(cpu, passed, opcode),
        0xC5 | 0xD5 | 0xE5 | 0xF5 => push(cpu, passed, opcode),
        0xC6 | 0xD6 | 0xE6 | 0xF6 | 0xCE | 0xDE | 0xEE | 0xFE => alu_imm(cpu, opcode, passed),
        0xC7 | 0xD7 | 0xE7 | 0xF7 | 0xCF | 0xDF | 0xEF | 0xFF => rst(cpu, opcode, passed),
        0xE8 => add_sp_e(cpu, passed),
        0xC2 | 0xD2 | 0xC3 | 0xCA | 0xDA => jp_nn(cpu, opcode, passed),
        0xC4 | 0xD4 | 0xCC | 0xDC | 0xCD => call_nn(cpu, opcode, passed),
        0xCB => cb_op(cpu, passed),
        0xE0 => ldh_n_a(cpu, passed),
        0xF0 => ldh_a_n(cpu, passed),
        0xE2 => ldh_c_a(cpu, passed),
        0xF2 => ldh_a_c(cpu, passed),
        0xE9 => jp_hl(cpu),
        0xEA => ld_nn_a(cpu, passed),
        0xF8 => ld_hl_sp_e(cpu, passed),
        0xF9 => ld_sp_hl(cpu, passed),
        0xFA => ld_a_nn(cpu, passed),
        0xF3 => di(cpu, passed),
        0xFB => ei(cpu, passed),
        0xD9 => reti(cpu, passed),
        _ => {
            return Err(InvalidInstruction { opcode, pc: cpu.pc });
        },
    };
    Ok(next)
}

} // verus!
