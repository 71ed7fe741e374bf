//! The SM83 instruction interpreter: the 256 base opcodes and the 256
//! CB-prefixed ones.
use vstd::prelude::*;

use crate::cpu::{
    add_sp_flags, add_sp_value, alu_result, cf, daa_adjust, daa_value, flags_byte, nf, rl_value, rlc_value, rr_value, rrc_value,
    shift_flags, signed_addend, sla_value, sra_value, srl_value, swap_value, zf, Cycles, CPU,
    Registers,
};
use crate::utils::bit;
use crate::gb::{above, below, GameBoy};
use crate::mmu::{is_ram, MMU};
use crate::utils::{high_byte, low_byte};

verus! {

/// What running `opcode`, fetched at PC, does to the machine `before`,
/// giving `after` in `r` T-cycles.
pub open spec fn executed(before: GameBoy, after: GameBoy, opcode: u8, r: Cycles) -> bool {
    &&& opcode == 0x00 ==> r == 4 && after == before.with_pc(
        pc_plus(before.cpu.registers.pc, 1),
    )
    &&& opcode < 0x40 ==> low_step(before, after, opcode, r)
    &&& opcode == 0xCB ==> cb_step(before, after, r)
    &&& opcode >= 0xC0 && opcode != 0xCB && !is_illegal(opcode) && opcode % 16 != 1 && opcode
        % 16 != 5 ==> high_step(before, after, opcode, r)
    &&& 0x40 <= opcode <= 0x7F && opcode != 0x76 && (opcode / 8) % 8 != 6 ==> r == (if opcode
        % 8 == 6 {
        8int
    } else {
        4int
    }) && after == before.with_registers(
        Registers {
            pc: pc_plus(before.cpu.registers.pc, 1),
            ..before.cpu.registers.with_r8(
                ((opcode / 8) % 8) as u8,
                before.r8_value(opcode % 8),
            )
        },
    )
    &&& 0x70 <= opcode <= 0x77 && opcode != 0x76 ==> r == 8 && after.cpu == before.with_pc(
        pc_plus(before.cpu.registers.pc, 1),
    ).cpu && after.mmu.wrote_byte(
        before.mmu,
        before.cpu.registers.hl_spec(),
        before.r8_value(opcode % 8),
    )
    &&& 0x80 <= opcode <= 0xBF ==> r == (if opcode % 8 == 6 {
        8int
    } else {
        4int
    }) && after.mmu == before.mmu && after.cpu == alu_result(
        before.with_pc(pc_plus(before.cpu.registers.pc, 1)).cpu,
        ((opcode / 8) % 8) as u8,
        before.r8_value(opcode % 8),
    )
    &&& opcode == 0x76 ==> r == 4 && after.mmu == before.mmu && after.cpu.registers == (Registers {
        pc: pc_plus(before.cpu.registers.pc, 1),
        ..before.cpu.registers
    }) && after.cpu.ime == before.cpu.ime && after.cpu.ei == before.cpu.ei && after.cpu.locked
        == before.cpu.locked && (!before.cpu.ime && before.mmu.interrupt_flag & before.mmu.interrupt_enable & 0x1F
        != 0 ==> after.cpu.halt_bug && after.cpu.halted == before.cpu.halted) && (before.cpu.ime
        || before.mmu.interrupt_flag & before.mmu.interrupt_enable & 0x1F == 0
        ==> after.cpu.halted)
    &&& opcode == 0xC5 || opcode == 0xD5 || opcode == 0xE5 || opcode == 0xF5 ==> r == 16
        && after.pushed(
        before.with_pc(pc_plus(before.cpu.registers.pc, 1)),
        push_value(before.cpu.registers, opcode),
    )
    &&& opcode == 0xC1 || opcode == 0xD1 || opcode == 0xE1 || opcode == 0xF1 ==> r == 12
        && after.mmu == before.mmu && after.cpu == (CPU {
        registers: popped_registers(
            before.cpu.registers,
            opcode,
            before.mmu.spec_read_word(before.cpu.registers.sp),
        ),
        ..before.cpu
    })
    &&& is_illegal(opcode) ==> r == 0 && after.cpu.locked && after.mmu == before.mmu
}

/// The opcodes that the SM83 leaves undefined.
pub open spec fn is_illegal(opcode: u8) -> bool {
    opcode == 0xD3 || opcode == 0xDB || opcode == 0xDD || opcode == 0xE3 || opcode == 0xE4
        || opcode == 0xEB || opcode == 0xEC || opcode == 0xED || opcode == 0xF4 || opcode == 0xFC
        || opcode == 0xFD
}

/// Condition `cc` of the opcode table on the flags `f`: 0 NZ, 1 Z, 2 NC, 3 C.
pub open spec fn condition_holds(f: u8, cc: u8) -> bool {
    if cc == 0 {
        !zf(f)
    } else if cc == 1 {
        zf(f)
    } else if cc == 2 {
        !cf(f)
    } else {
        cf(f)
    }
}

/// The target of a relative jump of `length` bytes at `pc` with signed offset `e`.
pub open spec fn relative_spec(pc: u16, length: int, e: u8) -> u16 {
    ((pc + length + signed_addend(e)) % 65536) as u16
}

/// `pc` advanced by `n` bytes, wrapping.
pub open spec fn pc_plus(pc: u16, n: int) -> u16 {
    ((pc + n) % 65536) as u16
}

impl GameBoy {
    /// The value of operand `idx` (6: the byte at HL).
    pub open spec fn r8_value(self, idx: u8) -> u8 {
        if idx == 6 {
            self.mmu.spec_read(self.cpu.registers.hl_spec())
        } else {
            self.cpu.registers.r8(idx)
        }
    }

    /// The same machine with PC replaced.
    pub open spec fn with_pc(self, pc: u16) -> GameBoy {
        self.with_registers(Registers { pc: pc, ..self.cpu.registers })
    }

    fn read_r8(&self, idx: u8) -> (r: u8)
        requires
            self.wf(),
            idx < 8,
        ensures
            r == self.r8_value(idx),
    {
        if idx == 0 {
            self.cpu.registers.b
        } else if idx == 1 {
            self.cpu.registers.c
        } else if idx == 2 {
            self.cpu.registers.d
        } else if idx == 3 {
            self.cpu.registers.e
        } else if idx == 4 {
            self.cpu.registers.h
        } else if idx == 5 {
            self.cpu.registers.l
        } else if idx == 6 {
            self.mmu.read_byte(self.cpu.registers.hl())
        } else {
            self.cpu.registers.a
        }
    }

    fn write_r8(&mut self, idx: u8, v: u8)
        requires
            old(self).wf(),
            idx < 8,
        ensures
            final(self).wf(),
            idx != 6 ==> *final(self) == old(self).with_registers(
                old(self).cpu.registers.with_r8(idx, v),
            ),
            idx == 6 ==> final(self).cpu == old(self).cpu,
            idx == 6 ==> final(self).mmu.wrote_byte(old(self).mmu, old(self).cpu.registers.hl_spec(), v),
    {
        if idx == 0 {
            self.cpu.registers.b = v;
        } else if idx == 1 {
            self.cpu.registers.c = v;
        } else if idx == 2 {
            self.cpu.registers.d = v;
        } else if idx == 3 {
            self.cpu.registers.e = v;
        } else if idx == 4 {
            self.cpu.registers.h = v;
        } else if idx == 5 {
            self.cpu.registers.l = v;
        } else if idx == 6 {
            let hl = self.cpu.registers.hl();
            self.mmu.write_byte(hl, v);
        } else {
            self.cpu.registers.a = v;
        }
    }

    /// The 16-bit operand `idx`: 0 BC, 1 DE, 2 HL, 3 SP.
    fn read_r16(&self, idx: u8) -> (r: u16)
        requires
            idx < 4,
        ensures
            r == self.cpu.registers.r16(idx),
    {
        if idx == 0 {
            self.cpu.registers.bc()
        } else if idx == 1 {
            self.cpu.registers.de()
        } else if idx == 2 {
            self.cpu.registers.hl()
        } else {
            self.cpu.registers.sp
        }
    }

    fn write_r16(&mut self, idx: u8, v: u16)
        requires
            old(self).wf(),
            idx < 4,
        ensures
            final(self).wf(),
            *final(self) == old(self).with_registers(old(self).cpu.registers.with_r16(idx, v)),
    {
        if idx == 0 {
            self.cpu.registers.set_bc(v);
        } else if idx == 1 {
            self.cpu.registers.set_de(v);
        } else if idx == 2 {
            self.cpu.registers.set_hl(v);
        } else {
            self.cpu.registers.sp = v;
        }
    }

    fn advance_pc(&mut self, n: u16)
        ensures
            *final(self) == old(self).with_pc(pc_plus(old(self).cpu.registers.pc, n as int)),
    {
        self.cpu.registers.pc = ((self.cpu.registers.pc as u32 + n as u32) % 65536) as u16;
    }

    /// The byte after the opcode.
    fn imm8(&self) -> (r: u8)
        requires
            self.wf(),
        ensures
            r == self.mmu.spec_read(pc_plus(self.cpu.registers.pc, 1)),
    {
        self.mmu.read_byte(((self.cpu.registers.pc as u32 + 1) % 65536) as u16)
    }

    /// The little-endian word after the opcode.
    fn imm16(&self) -> (r: u16)
        requires
            self.wf(),
        ensures
            r == self.mmu.spec_read_word(pc_plus(self.cpu.registers.pc, 1)),
    {
        self.mmu.read_word(((self.cpu.registers.pc as u32 + 1) % 65536) as u16)
    }

    /// Condition `cc` of the opcode table: 0 NZ, 1 Z, 2 NC, 3 C.
    fn condition(&self, cc: u8) -> (r: bool)
        ensures
            r == condition_holds(self.cpu.registers.f, cc),
    {
        let z = self.cpu.registers.f & 0x80 != 0;
        let c = self.cpu.registers.f & 0x10 != 0;
        if cc == 0 {
            !z
        } else if cc == 1 {
            z
        } else if cc == 2 {
            !c
        } else {
            c
        }
    }

    /// PC plus `length` plus the signed offset `e`, wrapping.
    fn relative_target(pc: u16, length: u16, e: u8) -> (r: u16)
        ensures
            r == relative_spec(pc, length as int, e),
    {
        let addend: u32 = if e < 128 {
            e as u32
        } else {
            e as u32 + 0xFF00
        };
        ((pc as u32 + length as u32 + addend) % 65536) as u16
    }

    /// HALT: the CPU waits for an interrupt, or, with IME clear and an
    /// interrupt already pending, does not halt and the next fetch repeats
    /// (the halt bug).
    fn halt(&mut self) -> (r: Cycles)
        requires
            old(self).wf(),
        ensures
            final(self).wf(),
            r == 4,
            final(self).mmu == old(self).mmu,
            final(self).cpu.registers == (Registers {
                pc: pc_plus(old(self).cpu.registers.pc, 1),
                ..old(self).cpu.registers
            }),
            old(self).cpu.ime || old(self).mmu.interrupt_flag & old(self).mmu.interrupt_enable
                & 0x1F == 0 ==> final(self).cpu == (CPU {
                halted: true,
                registers: final(self).cpu.registers,
                ..old(self).cpu
            }),
            !old(self).cpu.ime && old(self).mmu.interrupt_flag & old(self).mmu.interrupt_enable
                & 0x1F != 0 ==> final(self).cpu == (CPU {
                halt_bug: true,
                registers: final(self).cpu.registers,
                ..old(self).cpu
            }),
    {
        let pending = self.mmu.interrupt_flag & self.mmu.interrupt_enable & 0x1F != 0;
        if self.cpu.ime || !pending {
            self.cpu.halted = true;
        } else {
            self.cpu.halt_bug = true;
        }
        self.advance_pc(1);
        4
    }

    /// Runs one opcode whose byte has been fetched at PC, and returns its
    /// cost in T-cycles. PC moves past the instruction, or to the target of
    /// a jump, call or return.
    #[verifier::spinoff_prover]
    #[verifier::rlimit(100)]
    pub fn execute_opcode(&mut self, opcode: u8) -> (r: Cycles)
        requires
            old(self).wf(),
        ensures
            final(self).cpu.ei == (old(self).cpu.ei || opcode == 0xFB),
            final(self).wf(),
            r <= 24,
            executed(*old(self), *final(self), opcode, r),
    {
        if opcode == 0x00 {
            self.advance_pc(1);
            proof {
                reveal(low_misc_step);
            }
            return 4;
        }
        if 0x40 <= opcode && opcode <= 0x7F {
            if opcode == 0x76 {
                return self.halt();
            }
            let v = self.read_r8(opcode % 8);
            self.write_r8((opcode / 8) % 8, v);
            self.advance_pc(1);
            return if opcode % 8 == 6 || (opcode / 8) % 8 == 6 {
                8
            } else {
                4
            };
        }
        if 0x80 <= opcode && opcode <= 0xBF {
            let v = self.read_r8(opcode % 8);
            self.advance_pc(1);
            self.cpu.alu_op((opcode / 8) % 8, v);
            return if opcode % 8 == 6 {
                8
            } else {
                4
            };
        }
        if opcode == 0xC5 || opcode == 0xD5 || opcode == 0xE5 || opcode == 0xF5 {
            let v = if opcode == 0xC5 {
                self.cpu.registers.bc()
            } else if opcode == 0xD5 {
                self.cpu.registers.de()
            } else if opcode == 0xE5 {
                self.cpu.registers.hl()
            } else {
                self.cpu.registers.af()
            };
            self.advance_pc(1);
            self.stack_push_word(v);
            return 16;
        }
        if opcode == 0xC1 || opcode == 0xD1 || opcode == 0xE1 || opcode == 0xF1 {
            let v = self.stack_pop_word();
            if opcode == 0xC1 {
                self.cpu.registers.set_bc(v);
            } else if opcode == 0xD1 {
                self.cpu.registers.set_de(v);
            } else if opcode == 0xE1 {
                self.cpu.registers.set_hl(v);
            } else {
                self.cpu.registers.set_af(v);
            }
            self.advance_pc(1);
            return 12;
        }
        if opcode == 0xD3 || opcode == 0xDB || opcode == 0xDD || opcode == 0xE3 || opcode == 0xE4
            || opcode == 0xEB || opcode == 0xEC || opcode == 0xED || opcode == 0xF4 || opcode
            == 0xFC || opcode == 0xFD {
            self.cpu.locked = true;
            return 0;
        }
        if opcode < 0x40 {
            self.execute_low(opcode)
        } else if opcode == 0xCB {
            self.execute_cb()
        } else {
            self.execute_high(opcode)
        }
    }
}

impl GameBoy {
    /// Opcodes 0x00..=0x3F.
    fn execute_low(&mut self, opcode: u8) -> (r: Cycles)
        requires
            old(self).wf(),
            opcode < 0x40,
        ensures
            final(self).cpu.ei == old(self).cpu.ei,
            final(self).wf(),
            r <= 24,
            low_step(*old(self), *final(self), opcode, r),
    {
        let column = opcode % 8;
        if opcode % 16 == 0x01 || opcode % 16 == 0x09 {
            self.execute_low_pairs(opcode)
        } else if opcode % 16 == 0x03 || opcode % 16 == 0x0B {
            self.execute_inc_dec_pair(opcode)
        } else if column == 2 || opcode % 16 == 0x0A || opcode == 0x08 {
            self.execute_low_indirect(opcode)
        } else if column == 4 || column == 5 || column == 6 {
            self.execute_low_r8(opcode)
        } else {
            self.execute_low_misc(opcode)
        }
    }

    /// LD rr,n16, ADD HL,rr, INC rr, DEC rr, the loads through BC, DE and
    /// HL, and LD [a16],SP.
    #[verifier::spinoff_prover]
    fn execute_low_pairs(&mut self, opcode: u8) -> (r: Cycles)
        requires
            old(self).wf(),
            opcode < 0x40,
            opcode % 16 == 0x01 || opcode % 16 == 0x09,
        ensures
            final(self).cpu.ei == old(self).cpu.ei,
            final(self).wf(),
            r <= 24,
            low_pairs_step(*old(self), *final(self), opcode, r),
    {
        proof {
            reveal(low_pairs_step);
        }
        if opcode % 16 == 0x01 {
            // LD rr,n16
            let v = self.imm16();
            self.write_r16(opcode / 16, v);
            self.advance_pc(3);
            12
        } else {
            // ADD HL,rr
            let v = self.read_r16(opcode / 16);
            self.cpu.alu_add_hl(v);
            self.advance_pc(1);
            8
        }
    }

    /// INC rr and DEC rr.
    #[verifier::spinoff_prover]
    fn execute_inc_dec_pair(&mut self, opcode: u8) -> (r: Cycles)
        requires
            old(self).wf(),
            opcode < 0x40,
            opcode % 16 == 0x03 || opcode % 16 == 0x0B,
        ensures
            final(self).cpu.ei == old(self).cpu.ei,
            final(self).wf(),
            r <= 24,
            low_pairs_step(*old(self), *final(self), opcode, r),
    {
        proof {
            reveal(low_pairs_step);
        }
        {
            let v = self.read_r16(opcode / 16);
            let n = if opcode % 16 == 0x03 {
                if v == 0xFFFF {
                    0
                } else {
                    v + 1
                }
            } else if v == 0 {
                0xFFFF
            } else {
                v - 1
            };
            proof {
                if opcode % 16 == 0x03 {
                    assert(n == ((v + 1) % 65536) as u16);
                } else {
                    assert(n == ((v + 65535) % 65536) as u16);
                }
            }
            let ghost before = *self;
            self.write_r16(opcode / 16, n);
            self.advance_pc(1);
            proof {
                let pair = opcode / 16;
                let regs = before.cpu.registers;
                assert(self.cpu.registers == (Registers {
                    pc: pc_plus(regs.pc, 1),
                    ..regs.with_r16(pair, n)
                }));
            }
            8
        }
    }

    /// The loads through BC, DE and HL, and LD [a16],SP.
    #[verifier::spinoff_prover]
    fn execute_low_indirect(&mut self, opcode: u8) -> (r: Cycles)
        requires
            old(self).wf(),
            opcode < 0x40,
            opcode % 16 == 0x02 || opcode % 16 == 0x0A || opcode == 0x08,
        ensures
            final(self).cpu.ei == old(self).cpu.ei,
            final(self).wf(),
            r <= 24,
            low_indirect_step(*old(self), *final(self), opcode, r),
    {
        proof {
            reveal(low_indirect_step);
        }
        if opcode % 16 == 0x02 {
            // LD [BC],A / LD [DE],A / LD [HL+],A / LD [HL-],A
            let address = self.indirect_address(opcode / 16);
            let a = self.cpu.registers.a;
            self.mmu.write_byte(address, a);
            self.advance_pc(1);
            8
        } else if opcode % 16 == 0x0A {
            // LD A,[BC] / LD A,[DE] / LD A,[HL+] / LD A,[HL-]
            let address = self.indirect_address(opcode / 16);
            let v = self.mmu.read_byte(address);
            self.cpu.registers.a = v;
            self.advance_pc(1);
            8
        } else {
            // LD [a16],SP
            let address = self.imm16();
            let sp = self.cpu.registers.sp;
            let ghost m0 = self.mmu;
            self.mmu.write_word(address, sp);
            proof {
                let mid = choose|mid: MMU|
                    #[trigger] mid.wrote_byte(m0, address, (sp % 256) as u8) && self.mmu.wrote_byte(
                        mid,
                        ((address + 1) % 65536) as u16,
                        (sp / 256) as u8,
                    );
                assert(mid.wrote_byte(m0, address, low_byte(sp)));
                assert(above(address) == ((address + 1) % 65536) as u16);
            }
            self.advance_pc(3);
            20
        }
    }

    /// INC r, DEC r and LD r,n8.
    #[verifier::spinoff_prover]
    fn execute_low_r8(&mut self, opcode: u8) -> (r: Cycles)
        requires
            old(self).wf(),
            opcode < 0x40,
            opcode % 8 == 4 || opcode % 8 == 5 || opcode % 8 == 6,
        ensures
            final(self).cpu.ei == old(self).cpu.ei,
            final(self).wf(),
            r <= 24,
            low_r8_step(*old(self), *final(self), opcode, r),
    {
        proof {
            reveal(low_r8_step);
        }
        let row = opcode / 8;
        if opcode % 8 == 6 {
            let v = self.imm8();
            self.write_r8(row, v);
            self.advance_pc(2);
            if row == 6 {
                12
            } else {
                8
            }
        } else {
            let v = self.read_r8(row);
            let n = if opcode % 8 == 4 {
                self.cpu.alu_inc(v)
            } else {
                self.cpu.alu_dec(v)
            };
            self.write_r8(row, n);
            self.advance_pc(1);
            if row == 6 {
                12
            } else {
                4
            }
        }
    }

    /// The accumulator rotates, DAA, CPL, SCF, CCF, the relative jumps, NOP
    /// and STOP.
    #[verifier::spinoff_prover]
    fn execute_low_misc(&mut self, opcode: u8) -> (r: Cycles)
        requires
            old(self).wf(),
            opcode < 0x40,
            opcode % 8 == 0 || opcode % 8 == 7,
        ensures
            final(self).cpu.ei == old(self).cpu.ei,
            final(self).wf(),
            r <= 24,
            low_misc_step(*old(self), *final(self), opcode, r),
    {
        proof {
            reveal(low_misc_step);
        }
        if opcode == 0x07 {
            self.cpu.alu_rlca();
            self.advance_pc(1);
            4
        } else if opcode == 0x0F {
            self.cpu.alu_rrca();
            self.advance_pc(1);
            4
        } else if opcode == 0x17 {
            self.cpu.alu_rla();
            self.advance_pc(1);
            4
        } else if opcode == 0x1F {
            self.cpu.alu_rra();
            self.advance_pc(1);
            4
        } else if opcode == 0x27 {
            self.cpu.alu_daa();
            self.advance_pc(1);
            4
        } else if opcode == 0x2F {
            self.cpu.alu_cpl();
            self.advance_pc(1);
            4
        } else if opcode == 0x37 {
            self.cpu.alu_scf();
            self.advance_pc(1);
            4
        } else if opcode == 0x3F {
            self.cpu.alu_ccf();
            self.advance_pc(1);
            4
        } else if opcode == 0x18 {
            // JR e8
            let e = self.imm8();
            self.cpu.registers.pc = GameBoy::relative_target(self.cpu.registers.pc, 2, e);
            12
        } else if opcode == 0x20 || opcode == 0x28 || opcode == 0x30 || opcode == 0x38 {
            // JR cc,e8
            let e = self.imm8();
            if self.condition((opcode - 0x20) / 8) {
                self.cpu.registers.pc = GameBoy::relative_target(self.cpu.registers.pc, 2, e);
                12
            } else {
                self.advance_pc(2);
                8
            }
        } else {
            // NOP, and STOP, which runs as a one-byte NOP
            self.advance_pc(1);
            4
        }
    }

    /// The address of LD [rr],A and LD A,[rr]: BC, DE, HL then HL+1, HL then
    /// HL-1.
    fn indirect_address(&mut self, group: u8) -> (r: u16)
        requires
            old(self).wf(),
            group < 4,
        ensures
            final(self).cpu.ei == old(self).cpu.ei,
            final(self).wf(),
            r == indirect_spec(old(self).cpu.registers, group),
            *final(self) == old(self).with_registers(indirect_after(old(self).cpu.registers, group)),
    {
        if group == 0 {
            self.cpu.registers.bc()
        } else if group == 1 {
            self.cpu.registers.de()
        } else {
            let hl = self.cpu.registers.hl();
            let next = if group == 2 {
                if hl == 0xFFFF {
                    0
                } else {
                    hl + 1
                }
            } else if hl == 0 {
                0xFFFF
            } else {
                hl - 1
            };
            self.cpu.registers.set_hl(next);
            hl
        }
    }

    /// Opcodes 0xC0..=0xFF other than PUSH, POP and the undefined ones.
    #[verifier::spinoff_prover]
    #[verifier::rlimit(60)]
    fn execute_high(&mut self, opcode: u8) -> (r: Cycles)
        requires
            old(self).wf(),
            opcode >= 0xC0,
        ensures
            final(self).cpu.ei == (old(self).cpu.ei || opcode == 0xFB),
            final(self).wf(),
            high_step(*old(self), *final(self), opcode, r),
            r <= 24,
    {
        proof {
            reveal(high_step);
        }
        let column = opcode % 8;
        let row = (opcode / 8) % 8;
        if column == 6 {
            // ALU A,n8
            let v = self.imm8();
            self.advance_pc(2);
            self.cpu.alu_op(row, v);
            8
        } else if column == 7 {
            // RST
            self.advance_pc(1);
            let pc = self.cpu.registers.pc;
            self.stack_push_word(pc);
            self.cpu.registers.pc = (row * 8) as u16;
            16
        } else if opcode == 0xC0 || opcode == 0xC8 || opcode == 0xD0 || opcode == 0xD8 {
            // RET cc
            if self.condition(row) {
                let target = self.stack_pop_word();
                self.cpu.registers.pc = target;
                20
            } else {
                self.advance_pc(1);
                8
            }
        } else if opcode == 0xC9 || opcode == 0xD9 {
            // RET / RETI
            let target = self.stack_pop_word();
            self.cpu.registers.pc = target;
            if opcode == 0xD9 {
                self.cpu.ime = true;
            }
            16
        } else if opcode == 0xC2 || opcode == 0xCA || opcode == 0xD2 || opcode == 0xDA {
            // JP cc,a16
            let target = self.imm16();
            if self.condition(row) {
                self.cpu.registers.pc = target;
                16
            } else {
                self.advance_pc(3);
                12
            }
        } else if opcode == 0xC3 {
            let target = self.imm16();
            self.cpu.registers.pc = target;
            16
        } else if opcode == 0xC4 || opcode == 0xCC || opcode == 0xD4 || opcode == 0xDC {
            // CALL cc,a16
            let target = self.imm16();
            self.advance_pc(3);
            if self.condition(row) {
                let pc = self.cpu.registers.pc;
                self.stack_push_word(pc);
                self.cpu.registers.pc = target;
                24
            } else {
                12
            }
        } else if opcode == 0xCD {
            let target = self.imm16();
            self.advance_pc(3);
            let pc = self.cpu.registers.pc;
            self.stack_push_word(pc);
            self.cpu.registers.pc = target;
            24
        } else if opcode == 0xE0 || opcode == 0xF0 {
            // LDH [a8],A / LDH A,[a8]
            let offset = self.imm8();
            let address = 0xFF00u16 + offset as u16;
            if opcode == 0xE0 {
                let a = self.cpu.registers.a;
                self.mmu.write_byte(address, a);
            } else {
                let v = self.mmu.read_byte(address);
                self.cpu.registers.a = v;
            }
            self.advance_pc(2);
            12
        } else if opcode == 0xE2 || opcode == 0xF2 {
            // LDH [C],A / LDH A,[C]
            let address = 0xFF00u16 + self.cpu.registers.c as u16;
            if opcode == 0xE2 {
                let a = self.cpu.registers.a;
                self.mmu.write_byte(address, a);
            } else {
                let v = self.mmu.read_byte(address);
                self.cpu.registers.a = v;
            }
            self.advance_pc(1);
            8
        } else if opcode == 0xEA || opcode == 0xFA {
            // LD [a16],A / LD A,[a16]
            let address = self.imm16();
            if opcode == 0xEA {
                let a = self.cpu.registers.a;
                self.mmu.write_byte(address, a);
            } else {
                let v = self.mmu.read_byte(address);
                self.cpu.registers.a = v;
            }
            self.advance_pc(3);
            16
        } else if opcode == 0xE8 {
            // ADD SP,e8
            let e = self.imm8();
            let sp = self.cpu.alu_add_sp(e);
            self.cpu.registers.sp = sp;
            self.advance_pc(2);
            16
        } else if opcode == 0xF8 {
            // LD HL,SP+e8
            let e = self.imm8();
            let v = self.cpu.alu_add_sp(e);
            self.cpu.registers.set_hl(v);
            self.advance_pc(2);
            12
        } else if opcode == 0xE9 {
            // JP HL
            self.cpu.registers.pc = self.cpu.registers.hl();
            4
        } else if opcode == 0xF9 {
            // LD SP,HL
            self.cpu.registers.sp = self.cpu.registers.hl();
            self.advance_pc(1);
            8
        } else if opcode == 0xF3 {
            // DI
            self.cpu.ime = false;
            self.advance_pc(1);
            4
        } else if opcode == 0xFB {
            // EI: IME is set after the next instruction
            self.cpu.ei = true;
            self.advance_pc(1);
            4
        } else {
            // PUSH, POP, the CB prefix and the undefined opcodes are dispatched
            // before here.
            self.advance_pc(1);
            4
        }
    }

    /// A CB-prefixed opcode: rotates and shifts, BIT, RES and SET on operand
    /// `cb % 8`, in 8 T-cycles for a register, 16 for [HL] (12 for BIT).
    #[verifier::spinoff_prover]
    #[verifier::rlimit(60)]
    fn execute_cb(&mut self) -> (r: Cycles)
        requires
            old(self).wf(),
        ensures
            final(self).cpu.ei == old(self).cpu.ei,
            final(self).wf(),
            r <= 24,
            cb_step(*old(self), *final(self), r),
    {
        proof {
            reveal(cb_step);
        }
        let cb = self.imm8();
        self.advance_pc(2);
        let target = cb % 8;
        let op = cb / 8;
        let v = self.read_r8(target);
        if op >= 8 && op < 16 {
            self.cpu.alu_bit(op - 8, v);
            return if target == 6 {
                12
            } else {
                8
            };
        }
        let result = if op == 0 {
            self.cpu.alu_rlc(v)
        } else if op == 1 {
            self.cpu.alu_rrc(v)
        } else if op == 2 {
            self.cpu.alu_rl(v)
        } else if op == 3 {
            self.cpu.alu_rr(v)
        } else if op == 4 {
            self.cpu.alu_sla(v)
        } else if op == 5 {
            self.cpu.alu_sra(v)
        } else if op == 6 {
            self.cpu.alu_swap(v)
        } else if op == 7 {
            self.cpu.alu_srl(v)
        } else if op < 24 {
            crate::utils::reset_bit(v, op - 16)
        } else {
            crate::utils::set_bit(v, op - 24)
        };
        self.write_r8(target, result);
        if target == 6 {
            16
        } else {
            8
        }
    }
}

/// What LD rr,n16, INC rr, DEC rr and ADD HL,rr do to the machine `before`, giving `after` in `r`
/// T-cycles.
#[verifier::opaque]
pub open spec fn low_pairs_step(before: GameBoy, after: GameBoy, opcode: u8, r: Cycles) -> bool {
    let regs = before.cpu.registers;
    let pc = regs.pc;
    let a = regs.a;
    let f = regs.f;
    let imm8 = before.mmu.spec_read(pc_plus(pc, 1));
    let imm16 = before.mmu.spec_read_word(pc_plus(pc, 1));
    let row = opcode / 8;
    let pair = opcode / 16;
    let next = before.with_pc(pc_plus(pc, 1)).cpu;
    &&& opcode % 16 == 0x01 ==> r == 12 && after == before.with_registers(
        Registers { pc: pc_plus(pc, 3), ..regs.with_r16(pair, imm16) },
    )
    &&& opcode % 16 == 0x03 ==> r == 8 && after == before.with_registers(
        Registers { pc: pc_plus(pc, 1), ..regs.with_r16(pair, ((regs.r16(pair) + 1) % 65536) as u16) },
    )
    &&& opcode % 16 == 0x0B ==> r == 8 && after == before.with_registers(
        Registers {
            pc: pc_plus(pc, 1),
            ..regs.with_r16(pair, ((regs.r16(pair) + 65535) % 65536) as u16)
        },
    )
    &&& opcode % 16 == 0x09 ==> r == 8 && after == before.with_registers(
        Registers {
            h: high_byte(((regs.hl_spec() + regs.r16(pair)) % 65536) as u16),
            l: low_byte(((regs.hl_spec() + regs.r16(pair)) % 65536) as u16),
            f: flags_byte(
                zf(f),
                false,
                regs.hl_spec() % 4096 + regs.r16(pair) % 4096 > 4095,
                regs.hl_spec() + regs.r16(pair) > 65535,
            ),
            pc: pc_plus(pc, 1),
            ..regs
        },
    )
}

/// What INC r, DEC r and LD r,n8, with [HL] as an operand do to the machine `before`, giving `after` in `r`
/// T-cycles.
#[verifier::opaque]
pub open spec fn low_r8_step(before: GameBoy, after: GameBoy, opcode: u8, r: Cycles) -> bool {
    let regs = before.cpu.registers;
    let pc = regs.pc;
    let a = regs.a;
    let f = regs.f;
    let imm8 = before.mmu.spec_read(pc_plus(pc, 1));
    let imm16 = before.mmu.spec_read_word(pc_plus(pc, 1));
    let row = opcode / 8;
    let pair = opcode / 16;
    let next = before.with_pc(pc_plus(pc, 1)).cpu;
    &&& opcode % 8 == 4 && row != 6 ==> r == 4 && after == before.with_registers(
        Registers {
            f: flags_byte(
                (regs.r8(row) + 1) % 256 == 0,
                false,
                regs.r8(row) % 16 == 15,
                cf(f),
            ),
            pc: pc_plus(pc, 1),
            ..regs.with_r8(row, ((regs.r8(row) + 1) % 256) as u8)
        },
    )
    &&& opcode % 8 == 5 && row != 6 ==> r == 4 && after == before.with_registers(
        Registers {
            f: flags_byte(
                (regs.r8(row) + 255) % 256 == 0,
                true,
                regs.r8(row) % 16 == 0,
                cf(f),
            ),
            pc: pc_plus(pc, 1),
            ..regs.with_r8(row, ((regs.r8(row) + 255) % 256) as u8)
        },
    )
    &&& opcode % 8 == 6 && row != 6 ==> r == 8 && after == before.with_registers(
        Registers { pc: pc_plus(pc, 2), ..regs.with_r8(row, imm8) },
    )
    &&& opcode == 0x34 ==> r == 12 && after.cpu == (CPU {
        registers: Registers {
            f: flags_byte(
                (before.r8_value(6) + 1) % 256 == 0,
                false,
                before.r8_value(6) % 16 == 15,
                cf(f),
            ),
            pc: pc_plus(pc, 1),
            ..regs
        },
        ..before.cpu
    }) && after.mmu.wrote_byte(
        before.mmu,
        regs.hl_spec(),
        ((before.r8_value(6) + 1) % 256) as u8,
    )
    &&& opcode == 0x35 ==> r == 12 && after.cpu == (CPU {
        registers: Registers {
            f: flags_byte(
                (before.r8_value(6) + 255) % 256 == 0,
                true,
                before.r8_value(6) % 16 == 0,
                cf(f),
            ),
            pc: pc_plus(pc, 1),
            ..regs
        },
        ..before.cpu
    }) && after.mmu.wrote_byte(
        before.mmu,
        regs.hl_spec(),
        ((before.r8_value(6) + 255) % 256) as u8,
    )
    &&& opcode == 0x36 ==> r == 12 && after.cpu == before.with_pc(pc_plus(pc, 2)).cpu
        && after.mmu.wrote_byte(before.mmu, regs.hl_spec(), imm8)
}

/// What the loads and stores through BC, DE and HL, and LD [a16],SP do to the machine `before`, giving `after` in `r`
/// T-cycles.
#[verifier::opaque]
pub open spec fn low_indirect_step(before: GameBoy, after: GameBoy, opcode: u8, r: Cycles) -> bool {
    let regs = before.cpu.registers;
    let pc = regs.pc;
    let a = regs.a;
    let f = regs.f;
    let imm8 = before.mmu.spec_read(pc_plus(pc, 1));
    let imm16 = before.mmu.spec_read_word(pc_plus(pc, 1));
    let row = opcode / 8;
    let pair = opcode / 16;
    let next = before.with_pc(pc_plus(pc, 1)).cpu;
    &&& opcode % 16 == 0x0A ==> r == 8 && after == before.with_registers(
        Registers {
            a: before.mmu.spec_read(indirect_spec(regs, pair)),
            pc: pc_plus(pc, 1),
            ..indirect_after(regs, pair)
        },
    )
    &&& opcode % 16 == 0x02 ==> r == 8 && after.cpu == before.with_registers(
        Registers { pc: pc_plus(pc, 1), ..indirect_after(regs, pair) },
    ).cpu && after.mmu.wrote_byte(before.mmu, indirect_spec(regs, pair), a)
    &&& opcode == 0x08 ==> r == 20 && after.cpu == before.with_pc(pc_plus(pc, 3)).cpu && exists|
        mid: MMU,
    |
        #[trigger] mid.wrote_byte(before.mmu, imm16, low_byte(regs.sp)) && after.mmu.wrote_byte(
            mid,
            above(imm16),
            high_byte(regs.sp),
        )
}

/// What NOP, STOP, the relative jumps, the accumulator rotates, DAA, CPL, SCF and CCF do to the machine `before`, giving `after` in `r`
/// T-cycles.
#[verifier::opaque]
pub open spec fn low_misc_step(before: GameBoy, after: GameBoy, opcode: u8, r: Cycles) -> bool {
    let regs = before.cpu.registers;
    let pc = regs.pc;
    let a = regs.a;
    let f = regs.f;
    let imm8 = before.mmu.spec_read(pc_plus(pc, 1));
    let imm16 = before.mmu.spec_read_word(pc_plus(pc, 1));
    let row = opcode / 8;
    let pair = opcode / 16;
    let next = before.with_pc(pc_plus(pc, 1)).cpu;
    &&& opcode == 0x00 || opcode == 0x10 ==> r == 4 && after == before.with_pc(pc_plus(pc, 1))
    &&& opcode == 0x18 ==> r == 12 && after == before.with_pc(relative_spec(pc, 2, imm8))
    &&& (opcode == 0x20 || opcode == 0x28 || opcode == 0x30 || opcode == 0x38) ==> if condition_holds(
        f,
        (row - 4) as u8,
    ) {
        r == 12 && after == before.with_pc(relative_spec(pc, 2, imm8))
    } else {
        r == 8 && after == before.with_pc(pc_plus(pc, 2))
    }
    &&& opcode == 0x07 ==> r == 4 && after.mmu == before.mmu && after.cpu == next.with_af(
        rlc_value(a),
        flags_byte(false, false, false, a >= 128),
    )
    &&& opcode == 0x0F ==> r == 4 && after.mmu == before.mmu && after.cpu == next.with_af(
        rrc_value(a),
        flags_byte(false, false, false, a % 2 == 1),
    )
    &&& opcode == 0x17 ==> r == 4 && after.mmu == before.mmu && after.cpu == next.with_af(
        rl_value(a, cf(f)),
        flags_byte(false, false, false, a >= 128),
    )
    &&& opcode == 0x1F ==> r == 4 && after.mmu == before.mmu && after.cpu == next.with_af(
        rr_value(a, cf(f)),
        flags_byte(false, false, false, a % 2 == 1),
    )
    &&& opcode == 0x27 ==> r == 4 && after.mmu == before.mmu && after.cpu == next.with_af(
        daa_value(a, f),
        flags_byte(daa_value(a, f) == 0, nf(f), false, daa_adjust(a, f) >= 0x60),
    )
    &&& opcode == 0x2F ==> r == 4 && after.mmu == before.mmu && after.cpu == next.with_af(
        (255 - a) as u8,
        flags_byte(zf(f), true, true, cf(f)),
    )
    &&& opcode == 0x37 ==> r == 4 && after.mmu == before.mmu && after.cpu == next.with_f(
        flags_byte(zf(f), false, false, true),
    )
    &&& opcode == 0x3F ==> r == 4 && after.mmu == before.mmu && after.cpu == next.with_f(
        flags_byte(zf(f), false, false, !cf(f)),
    )
}

/// What an opcode of 0x00..=0x3F does to the machine `before`, giving
/// `after` in `r` T-cycles.
pub open spec fn low_step(before: GameBoy, after: GameBoy, opcode: u8, r: Cycles) -> bool {
    &&& opcode % 16 == 0x01 || opcode % 16 == 0x03 || opcode % 16 == 0x09 || opcode % 16 == 0x0B ==> low_pairs_step(before, after, opcode, r)
    &&& opcode % 8 == 4 || opcode % 8 == 5 || opcode % 8 == 6 ==> low_r8_step(before, after, opcode, r)
    &&& opcode % 16 == 0x02 || opcode % 16 == 0x0A || opcode == 0x08 ==> low_indirect_step(before, after, opcode, r)
    &&& (opcode % 8 == 0 || opcode % 8 == 7) && opcode != 0x08 ==> low_misc_step(before, after, opcode, r)
}

/// The result of the rotate or shift `op` (0 RLC, 1 RRC, 2 RL, 3 RR, 4 SLA,
/// 5 SRA, 6 SWAP, 7 SRL) of the CB table, with carry in `cin`.
pub open spec fn cb_shift_value(op: u8, v: u8, cin: bool) -> u8 {
    if op == 0 {
        rlc_value(v)
    } else if op == 1 {
        rrc_value(v)
    } else if op == 2 {
        rl_value(v, cin)
    } else if op == 3 {
        rr_value(v, cin)
    } else if op == 4 {
        sla_value(v)
    } else if op == 5 {
        sra_value(v)
    } else if op == 6 {
        swap_value(v)
    } else {
        srl_value(v)
    }
}

/// The bit shifted out by the rotate or shift `op` of the CB table (none for SWAP).
pub open spec fn cb_shift_carry(op: u8, v: u8) -> bool {
    if op == 0 || op == 2 || op == 4 {
        v >= 128
    } else if op == 6 {
        false
    } else {
        v % 2 == 1
    }
}

/// What the CB-prefixed opcode after PC does to the machine `before`,
/// giving `after` in `r` T-cycles. Memory operands are left to the bus
/// contracts.
#[verifier::opaque]
pub open spec fn cb_step(before: GameBoy, after: GameBoy, r: Cycles) -> bool {
    let regs = before.cpu.registers;
    let cb = before.mmu.spec_read(pc_plus(regs.pc, 1));
    let target = cb % 8;
    let op = cb / 8;
    let v = before.r8_value(target);
    let moved = before.with_pc(pc_plus(regs.pc, 2));
    &&& 8 <= op < 16 ==> r == (if target == 6 { 12int } else { 8int }) && after.mmu == before.mmu
        && after.cpu == moved.cpu.with_f(
        flags_byte(!bit(v, (op - 8) as u8), false, true, cf(regs.f)),
    )
    &&& op < 8 && target != 6 ==> r == 8 && after == moved.with_registers(
        Registers {
            f: shift_flags(cb_shift_value(op, v, cf(regs.f)), cb_shift_carry(op, v)),
            ..moved.cpu.registers.with_r8(target, cb_shift_value(op, v, cf(regs.f)))
        },
    )
    &&& 16 <= op < 24 && target != 6 ==> r == 8 && after == moved.with_registers(
        moved.cpu.registers.with_r8(target, v & !(1u8 << ((op - 16) as u8))),
    )
    &&& 24 <= op && target != 6 ==> r == 8 && after == moved.with_registers(
        moved.cpu.registers.with_r8(target, v | (1u8 << ((op - 24) as u8))),
    )
    &&& op < 8 && target == 6 ==> r == 16 && after.cpu == moved.cpu.with_f(
        shift_flags(cb_shift_value(op, v, cf(regs.f)), cb_shift_carry(op, v)),
    ) && after.mmu.wrote_byte(before.mmu, regs.hl_spec(), cb_shift_value(op, v, cf(regs.f)))
    &&& 16 <= op < 24 && target == 6 ==> r == 16 && after.cpu == moved.cpu && after.mmu.wrote_byte(
        before.mmu,
        regs.hl_spec(),
        v & !(1u8 << ((op - 16) as u8)),
    )
    &&& 24 <= op && target == 6 ==> r == 16 && after.cpu == moved.cpu && after.mmu.wrote_byte(
        before.mmu,
        regs.hl_spec(),
        v | (1u8 << ((op - 24) as u8)),
    )
}

/// What an opcode of 0xC0..=0xFF other than PUSH, POP and the undefined
/// ones does to the machine `before`, giving `after` in `r` T-cycles.
#[verifier::opaque]
pub open spec fn high_step(before: GameBoy, after: GameBoy, opcode: u8, r: Cycles) -> bool {
    let regs = before.cpu.registers;
    let pc = regs.pc;
    let imm8 = before.mmu.spec_read(pc_plus(pc, 1));
    let imm16 = before.mmu.spec_read_word(pc_plus(pc, 1));
    let row = ((opcode / 8) % 8) as u8;
    let cc = condition_holds(regs.f, row);
    let top = before.mmu.spec_read_word(regs.sp);
    &&& opcode % 8 == 6 ==> r == 8 && after.mmu == before.mmu && after.cpu == alu_result(
        before.with_pc(pc_plus(pc, 2)).cpu,
        row,
        imm8,
    )
    &&& opcode % 8 == 7 ==> r == 16 && after.cpu.registers.pc == row * 8 && after.with_pc(
        pc_plus(pc, 1),
    ).pushed(before.with_pc(pc_plus(pc, 1)), pc_plus(pc, 1))
    &&& opcode == 0xCD || ((opcode == 0xC4 || opcode == 0xCC || opcode == 0xD4 || opcode == 0xDC)
        && cc) ==> r == 24 && after.cpu.registers.pc == imm16 && after.with_pc(
        pc_plus(pc, 3),
    ).pushed(before.with_pc(pc_plus(pc, 3)), pc_plus(pc, 3))
    &&& (opcode == 0xC4 || opcode == 0xCC || opcode == 0xD4 || opcode == 0xDC) && !cc ==> r == 12
        && after == before.with_pc(pc_plus(pc, 3))
    &&& opcode == 0xC9 || ((opcode == 0xC0 || opcode == 0xC8 || opcode == 0xD0 || opcode == 0xD8)
        && cc) ==> r == (if opcode == 0xC9 { 16int } else { 20int }) && after.cpu.registers.pc
        == top && after.with_pc(pc).popped(before, top)
    &&& (opcode == 0xC0 || opcode == 0xC8 || opcode == 0xD0 || opcode == 0xD8) && !cc ==> r == 8
        && after == before.with_pc(pc_plus(pc, 1))
    &&& opcode == 0xD9 ==> r == 16 && after.mmu == before.mmu && after.cpu == (CPU {
        ime: true,
        registers: Registers { sp: above(above(regs.sp)), pc: top, ..regs },
        ..before.cpu
    })
    &&& opcode == 0xE8 ==> r == 16 && after == before.with_registers(
        Registers {
            sp: add_sp_value(regs.sp, imm8),
            f: add_sp_flags(regs.sp, imm8),
            pc: pc_plus(pc, 2),
            ..regs
        },
    )
    &&& opcode == 0xF8 ==> r == 12 && after == before.with_registers(
        Registers {
            h: high_byte(add_sp_value(regs.sp, imm8)),
            l: low_byte(add_sp_value(regs.sp, imm8)),
            f: add_sp_flags(regs.sp, imm8),
            pc: pc_plus(pc, 2),
            ..regs
        },
    )
    &&& opcode == 0xF2 ==> r == 8 && after == before.with_registers(
        Registers { a: before.mmu.spec_read((0xFF00 + regs.c) as u16), pc: pc_plus(pc, 1), ..regs },
    )
    &&& opcode == 0xE2 ==> r == 8 && after.cpu == before.with_pc(pc_plus(pc, 1)).cpu
        && after.mmu.wrote_byte(before.mmu, (0xFF00 + regs.c) as u16, regs.a)
    &&& opcode == 0xE0 ==> r == 12 && after.cpu == before.with_pc(pc_plus(pc, 2)).cpu
        && after.mmu.wrote_byte(before.mmu, (0xFF00 + imm8) as u16, regs.a)
    &&& opcode == 0xEA ==> r == 16 && after.cpu == before.with_pc(pc_plus(pc, 3)).cpu
        && after.mmu.wrote_byte(before.mmu, imm16, regs.a)
    &&& opcode == 0xC3 || ((opcode == 0xC2 || opcode == 0xCA || opcode == 0xD2 || opcode == 0xDA)
        && cc) ==> r == 16 && after == before.with_pc(imm16)
    &&& (opcode == 0xC2 || opcode == 0xCA || opcode == 0xD2 || opcode == 0xDA) && !cc ==> r == 12
        && after == before.with_pc(pc_plus(pc, 3))
    &&& opcode == 0xE9 ==> r == 4 && after == before.with_pc(regs.hl_spec())
    &&& opcode == 0xF9 ==> r == 8 && after == before.with_registers(
        Registers { sp: regs.hl_spec(), pc: pc_plus(pc, 1), ..regs },
    )
    &&& opcode == 0xF3 ==> r == 4 && after == (GameBoy {
        cpu: CPU { ime: false, ..before.with_pc(pc_plus(pc, 1)).cpu },
        ..before
    })
    &&& opcode == 0xFB ==> r == 4 && after == (GameBoy {
        cpu: CPU { ei: true, ..before.with_pc(pc_plus(pc, 1)).cpu },
        ..before
    })
    &&& opcode == 0xF0 ==> r == 12 && after == before.with_registers(
        Registers {
            a: before.mmu.spec_read((0xFF00 + imm8) as u16),
            pc: pc_plus(pc, 2),
            ..regs
        },
    )
    &&& opcode == 0xFA ==> r == 16 && after == before.with_registers(
        Registers { a: before.mmu.spec_read(imm16), pc: pc_plus(pc, 3), ..regs },
    )
}

/// The pair that PUSH rr (opcode 0xC5, 0xD5, 0xE5 or 0xF5) puts on the stack.
pub open spec fn push_value(regs: Registers, opcode: u8) -> u16 {
    if opcode == 0xC5 {
        regs.bc_spec()
    } else if opcode == 0xD5 {
        regs.de_spec()
    } else if opcode == 0xE5 {
        regs.hl_spec()
    } else {
        regs.af_spec()
    }
}

/// PUSH rr followed by POP rr (the opcode 4 below) gives rr back, F's low
/// nibble being clear already, and leaves SP as it was, when the two stack
/// bytes are RAM.
pub proof fn lemma_push_pop_opcodes(s0: GameBoy, s1: GameBoy, s2: GameBoy, push: u8)
    requires
        s0.wf(),
        push == 0xC5 || push == 0xD5 || push == 0xE5 || push == 0xF5,
        s1.pushed(
            s0.with_pc(pc_plus(s0.cpu.registers.pc, 1)),
            push_value(s0.cpu.registers, push),
        ),
        s2.mmu == s1.mmu,
        s2.cpu == (CPU {
            registers: popped_registers(
                s1.cpu.registers,
                (push - 4) as u8,
                s1.mmu.spec_read_word(s1.cpu.registers.sp),
            ),
            ..s1.cpu
        }),
        is_ram(below(s0.cpu.registers.sp)),
        is_ram(below(below(s0.cpu.registers.sp))),
    ensures
        s2.cpu.registers == (Registers {
            pc: pc_plus(s0.cpu.registers.pc, 2),
            ..s0.cpu.registers
        }),
{
    let m0 = s0.with_pc(pc_plus(s0.cpu.registers.pc, 1));
    let v = push_value(s0.cpu.registers, push);
    let sp = s0.cpu.registers.sp;
    let mid = choose|mid: MMU|
        #[trigger] mid.wrote_ram(m0.mmu, below(sp), high_byte(v)) && s1.mmu.wrote_ram(
            mid,
            below(below(sp)),
            low_byte(v),
        );
    let lo_addr = below(below(sp));
    assert(above(lo_addr) == below(sp));
    assert(s1.mmu.spec_read(lo_addr) == low_byte(v));
    assert(s1.mmu.spec_read(below(sp)) == high_byte(v));
    assert(s1.mmu.spec_read_word(s1.cpu.registers.sp) == v) by {
        crate::utils::lemma_compose_round_trip(v, 0, 0);
    }
    let regs = s0.cpu.registers;
    crate::utils::lemma_compose_round_trip(0, regs.a, regs.f);
    crate::utils::lemma_compose_round_trip(0, regs.b, regs.c);
    crate::utils::lemma_compose_round_trip(0, regs.d, regs.e);
    crate::utils::lemma_compose_round_trip(0, regs.h, regs.l);
    let f = regs.f;
    assert(f & 0xF0 == f) by (bit_vector)
        requires
            f & 0x0F == 0,
    ;
    assert(above(above(lo_addr)) == sp);
}

/// The address of LD [rr],A and LD A,[rr] for `group` 0..=3 of the opcode
/// table: BC, DE, HL (then incremented), HL (then decremented).
pub open spec fn indirect_spec(regs: Registers, group: u8) -> u16 {
    if group == 0 {
        regs.bc_spec()
    } else if group == 1 {
        regs.de_spec()
    } else {
        regs.hl_spec()
    }
}

/// The registers after the address of `group` is taken: HL moves for
/// groups 2 and 3.
pub open spec fn indirect_after(regs: Registers, group: u8) -> Registers {
    if group == 2 {
        regs.with_r16(2, ((regs.hl_spec() + 1) % 65536) as u16)
    } else if group == 3 {
        regs.with_r16(2, ((regs.hl_spec() + 65535) % 65536) as u16)
    } else {
        regs
    }
}

/// The registers after POP rr (opcode 0xC1, 0xD1, 0xE1 or 0xF1) took `v` from
/// the stack: the pair set (F's low nibble cleared), SP up by two, PC past
/// the opcode.
pub open spec fn popped_registers(regs: Registers, opcode: u8, v: u16) -> Registers {
    let moved = Registers {
        sp: above(above(regs.sp)),
        pc: pc_plus(regs.pc, 1),
        ..regs
    };
    if opcode == 0xC1 {
        Registers { b: high_byte(v), c: low_byte(v), ..moved }
    } else if opcode == 0xD1 {
        Registers { d: high_byte(v), e: low_byte(v), ..moved }
    } else if opcode == 0xE1 {
        Registers { h: high_byte(v), l: low_byte(v), ..moved }
    } else {
        Registers { a: high_byte(v), f: low_byte(v) & 0xF0, ..moved }
    }
}

} // verus!
