use crate::alu::lemma_low_nibble;
use crate::bits::signed;
use crate::cpu::{Reg8, CPU};
use crate::instructions::{jr_condition, spec_decode, StagePassThrough};
use vstd::prelude::*;

verus! {

/// `NOP` moves the program counter on by one, wrapping at `0xFFFF`, and changes nothing
/// else: no register, no flag, no memory.
pub proof fn lemma_nop(cpu: CPU, passed: StagePassThrough)
    ensures
        spec_decode(cpu, 0x00, passed) == (
            CPU { pc: ((cpu.pc + 1) % 0x10000) as u16, ..cpu },
            StagePassThrough::fresh(),
        ),
{
    reveal(spec_decode);
}

/// `ADD A,r` on a register: the accumulator takes the sum modulo 256, Z tells a zero
/// result, C a sum above 255, H a carry out of the low nibbles, N is cleared, and the
/// instruction completes in its first cycle.
pub proof fn lemma_add_register(cpu: CPU, n: u8)
    requires
        0x80 <= n <= 0x87,
        n != 0x86,
    ensures
        ({
            let a = cpu.reg_file.A;
            let b = cpu.reg_file.spec_get8(Reg8::spec_operand(n % 8));
            let after = spec_decode(cpu, n, StagePassThrough::fresh());
            &&& after.1 == StagePassThrough::fresh()
            &&& after.0.pc == cpu.pc.wrapping_add(1)
            &&& after.0.reg_file.A == (a + b) % 256
            &&& after.0.reg_file.flags.Z == 1 <==> (a + b) % 256 == 0
            &&& after.0.reg_file.flags.C == 1 <==> a + b > 255
            &&& after.0.reg_file.flags.H == 1 <==> (a & 0x0F) + (b & 0x0F) > 0x0F
            &&& after.0.reg_file.flags.N == 0
            &&& after.0.reg_file.flags.wf()
        }),
{
    reveal(spec_decode);
    lemma_low_nibble(cpu.reg_file.A);
    lemma_low_nibble(cpu.reg_file.spec_get8(Reg8::spec_operand(n % 8)));
}

/// `INC r` and `DEC r` on a register complete in their first cycle and leave the carry
/// flag as it was.
pub proof fn lemma_inc_dec_register_keeps_carry(cpu: CPU, n: u8)
    requires
        n / 64 == 0,
        n % 8 == 4 || n % 8 == 5,
        n / 8 != 6,
    ensures
        spec_decode(cpu, n, StagePassThrough::fresh()).1 == StagePassThrough::fresh(),
        spec_decode(cpu, n, StagePassThrough::fresh()).0.reg_file.flags.C
            == cpu.reg_file.flags.C,
{
    reveal(spec_decode);
}

/// `INC (HL)` and `DEC (HL)` take three cycles and leave the carry flag as it was.
pub proof fn lemma_inc_dec_memory_keeps_carry(cpu: CPU, n: u8)
    requires
        n == 0x34 || n == 0x35,
    ensures
        ({
            let first = spec_decode(cpu, n, StagePassThrough::fresh());
            let second = spec_decode(first.0, n, first.1);
            let third = spec_decode(second.0, n, second.1);
            &&& first.1.instruction_stage == 1
            &&& second.1.instruction_stage == 2
            &&& third.1 == StagePassThrough::fresh()
            &&& first.0.reg_file.flags.C == cpu.reg_file.flags.C
            &&& second.0.reg_file.flags.C == cpu.reg_file.flags.C
            &&& third.0.reg_file.flags.C == cpu.reg_file.flags.C
        }),
{
    reveal(spec_decode);
    let first = spec_decode(cpu, n, StagePassThrough::fresh());
    first.0.at(first.0.hl()).lemma_write_frame(first.0.hl(), first.1.data);
}

/// `JR e` and `JR cc,e`. Where the condition fails the instruction takes two cycles
/// and leaves the program counter two bytes on. Where it holds, or there is none, the
/// instruction takes three cycles and leaves the program counter two bytes on plus the
/// offset `e`, the byte after the opcode read as a signed number. Addresses wrap at
/// `0x10000`. Nothing else changes but the address on the bus.
pub proof fn lemma_jr(cpu: CPU, n: u8)
    requires
        n == 0x18 || n == 0x20 || n == 0x28 || n == 0x30 || n == 0x38,
    ensures
        ({
            let first = spec_decode(cpu, n, StagePassThrough::fresh());
            let second = spec_decode(first.0, n, first.1);
            let third = spec_decode(second.0, n, second.1);
            let e = cpu.spec_read_at(((cpu.pc + 1) % 0x10000) as u16);
            &&& first.1.instruction_stage == 1
            &&& !cpu.reg_file.spec_check_condition(jr_condition(n)) ==> second == (
                CPU {
                    pc: ((cpu.pc + 2) % 0x10000) as u16,
                    addr_bus: ((cpu.pc + 1) % 0x10000) as u16,
                    ..cpu
                },
                StagePassThrough::fresh(),
            )
            &&& cpu.reg_file.spec_check_condition(jr_condition(n)) ==> second.1.instruction_stage
                == 2 && third == (
                CPU {
                    pc: ((cpu.pc + 2 + signed(e)) % 0x10000) as u16,
                    addr_bus: ((cpu.pc + 1) % 0x10000) as u16,
                    ..cpu
                },
                StagePassThrough::fresh(),
            )
        }),
{
    reveal(spec_decode);
}

/// `EI` does not enable interrupts by itself: the master enable keeps its value
/// through the cycle that runs `EI`, and the instruction hands on the request to set it
/// when the next instruction is fetched.
pub proof fn lemma_ei_is_delayed(cpu: CPU)
    requires
        cpu.interrupt_wait == 0,
        !cpu.spec_halted(),
        cpu.pass_in.1.instruction_stage == 0,
        !cpu.pass_in.1.ei,
        !cpu.ime,
        cpu.ticked().spec_read_at(cpu.pc) == 0xFB,
    ensures
        cpu.spec_step().1 is Ok,
        !cpu.spec_step().0.ime,
        cpu.spec_step().0.pc == cpu.pc.wrapping_add(1),
        cpu.spec_step().0.pass_in == (
            0xFBu8,
            StagePassThrough { ei: true, ..StagePassThrough::fresh() },
        ),
{
    reveal(spec_decode);
}

} // verus!
