//! The whole machine: the CPU on its bus, and the step that runs one
//! instruction with its interrupt servicing and peripheral updates.
use vstd::prelude::*;

use crate::cartridge::Cartridge;
use crate::cpu::{Cycles, CPU, Registers};
use crate::joypad::GBButton;
use crate::mmu::{is_ram, InterruptFlag, MMU};
use crate::instructions::{executed, high_step, low_pairs_step, low_r8_step, pc_plus};
use crate::utils::{bit, high_byte, low_byte, reset_bit};

verus! {

pub struct GameBoy {
    pub cpu: CPU,
    pub mmu: MMU,
}

/// The address one below `a`, wrapping.
pub open spec fn below(a: u16) -> u16 {
    ((a + 65535) % 65536) as u16
}

/// The address one above `a`, wrapping.
pub open spec fn above(a: u16) -> u16 {
    ((a + 1) % 65536) as u16
}

/// NOP, or a load or ALU operation between registers: one byte long, it
/// leaves PC just past itself.
pub open spec fn one_byte_register_op(opcode: u8) -> bool {
    opcode == 0x00 || (0x40 <= opcode <= 0xBF && opcode != 0x76 && opcode % 8 != 6 && (opcode
        >= 0x80 || (opcode / 8) % 8 != 6))
}

/// What servicing interrupts does to `before`, giving `after` in `r`
/// T-cycles: with IME set and an enabled source pending, IME and the
/// source's IF bit are cleared, PC is pushed and PC jumps to the source's
/// vector, in 20 T-cycles; otherwise nothing happens, in none.
pub open spec fn serviced(before: GameBoy, after: GameBoy, r: Cycles) -> bool {
    let pending = first_pending(before.mmu.interrupt_flag, before.mmu.interrupt_enable);
    &&& !before.cpu.ime || pending is None ==> after == before && r == 0
    &&& before.cpu.ime && pending is Some ==> ({
        let i = pending->Some_0;
        let cleared = GameBoy {
            cpu: CPU { ime: false, ..before.cpu },
            mmu: MMU { interrupt_flag: before.mmu.interrupt_flag & !(1u8 << i), ..before.mmu },
        };
        &&& r == 20
        &&& after.cpu.registers.pc == (0x40 + 8 * i) as u16
        &&& after.with_registers(
            Registers { pc: before.cpu.registers.pc, ..after.cpu.registers },
        ).pushed(cleared, before.cpu.registers.pc)
    })
}

/// What one step does to `before`, through the intermediate machines of
/// `t`: `t.0` after waking and servicing interrupts (in `t.2` T-cycles),
/// `t.1` after the instruction at PC ran (in `t.3`); then a pending EI is
/// promoted and the peripherals run for the `r` T-cycles spent, giving
/// `after`.
#[verifier::opaque]
pub open spec fn tick_chain(
    before: GameBoy,
    t: (GameBoy, GameBoy, Cycles, Cycles),
    after: GameBoy,
    r: Cycles,
) -> bool {
    let s = t.0;
    let e = t.1;
    let opcode = s.mmu.spec_read(s.cpu.registers.pc);
    &&& serviced(before.woken(), s, t.2)
    &&& s.cpu.halted ==> e == s && t.3 == 0
    &&& !s.cpu.halted ==> executed(s.fetched(), e, opcode, t.3)
    &&& r == before.wait_cycles() + t.2 + t.3
    &&& after.cpu == (if !s.cpu.halted && e.cpu.ei && opcode != 0xFB {
        CPU { ime: true, ei: false, ..e.cpu }
    } else {
        e.cpu
    })
    &&& after.mmu.ticked(e.mmu, r)
}

/// The source serviced first among those pending in `flags & enable`, by
/// bit number (0 VBlank .. 4 Joypad), if any.
pub open spec fn first_pending(flags: u8, enable: u8) -> Option<u8> {
    if bit(flags, 0) && bit(enable, 0) {
        Some(0u8)
    } else if bit(flags, 1) && bit(enable, 1) {
        Some(1u8)
    } else if bit(flags, 2) && bit(enable, 2) {
        Some(2u8)
    } else if bit(flags, 3) && bit(enable, 3) {
        Some(3u8)
    } else if bit(flags, 4) && bit(enable, 4) {
        Some(4u8)
    } else {
        None
    }
}

impl GameBoy {
    pub open spec fn wf(self) -> bool {
        self.cpu.wf() && self.mmu.wf()
    }

    /// A halted CPU wakes when IME is set or an enabled interrupt is pending.
    pub open spec fn woken(self) -> GameBoy {
        if self.cpu.halted && (self.cpu.ime || self.mmu.interrupt_flag & self.mmu.interrupt_enable
            & 0x1F != 0) {
            GameBoy { cpu: CPU { halted: false, ..self.cpu }, ..self }
        } else {
            self
        }
    }

    /// The T-cycles a halted CPU that stays halted waits.
    pub open spec fn wait_cycles(self) -> int {
        if self.cpu.halted && !self.cpu.ime && self.mmu.interrupt_flag & self.mmu.interrupt_enable
            & 0x1F == 0 {
            4
        } else {
            0
        }
    }

    /// The machine as the instruction at PC runs: after a halt bug PC is one
    /// back, so that the fetched byte is fetched again.
    pub open spec fn fetched(self) -> GameBoy {
        if self.cpu.halt_bug {
            GameBoy {
                cpu: CPU {
                    halt_bug: false,
                    registers: Registers { pc: below(self.cpu.registers.pc), ..self.cpu.registers },
                    ..self.cpu
                },
                ..self
            }
        } else {
            self
        }
    }

    /// The same machine with other registers.
    pub open spec fn with_registers(self, r: Registers) -> GameBoy {
        GameBoy { cpu: CPU { registers: r, ..self.cpu }, ..self }
    }

    /// `self` is `before` with `v` pushed: SP down by two, the high byte at
    /// the upper address and the low byte below it when both are RAM.
    pub open spec fn pushed(self, before: GameBoy, v: u16) -> bool {
        let sp = before.cpu.registers.sp;
        &&& self.cpu == (CPU {
            registers: Registers { sp: below(below(sp)), ..before.cpu.registers },
            ..before.cpu
        })
        &&& is_ram(below(sp)) && is_ram(below(below(sp))) ==> exists|mid: MMU|
            #[trigger] mid.wrote_ram(before.mmu, below(sp), high_byte(v)) && self.mmu.wrote_ram(
                mid,
                below(below(sp)),
                low_byte(v),
            )
    }

    /// `v` is the word on top of the stack of `before`, and `self` is `before`
    /// with SP up by two.
    pub open spec fn popped(self, before: GameBoy, v: u16) -> bool {
        let sp = before.cpu.registers.sp;
        &&& v == before.mmu.spec_read_word(sp)
        &&& self.mmu == before.mmu
        &&& self.cpu == (CPU {
            registers: Registers { sp: above(above(sp)), ..before.cpu.registers },
            ..before.cpu
        })
    }

    pub fn new(cartridge: Cartridge, print_serial: bool) -> (r: GameBoy)
        requires
            cartridge.wf(),
        ensures
            r.wf(),
            r.cpu == CPU::new_spec(),
            r.mmu.cartridge == cartridge,
    {
        GameBoy { cpu: CPU::new(), mmu: MMU::new(cartridge, print_serial) }
    }

    /// The last finished frame: 160 x 144 pixels, four RGBA bytes each.
    pub fn pixel_data(&self) -> (r: &[u8])
        ensures
            r@ == self.mmu.ppu.display@,
    {
        self.mmu.ppu.pixel_data()
    }

    /// A button went down: the joypad records it and raises its interrupt.
    pub fn on_button_press(&mut self, button: GBButton)
        ensures
            final(self).cpu == old(self).cpu,
            final(self).mmu == (MMU {
                joypad: old(self).mmu.joypad.pressed(button),
                interrupt_flag: old(self).mmu.interrupt_flag | 0x10,
                ..old(self).mmu
            }),
    {
        self.mmu.joypad.on_button_press(button, &mut self.mmu.interrupt_flag);
    }

    /// A button went up: the joypad records it and raises its interrupt.
    pub fn on_button_release(&mut self, button: GBButton)
        ensures
            final(self).cpu == old(self).cpu,
            final(self).mmu == (MMU {
                joypad: old(self).mmu.joypad.released(button),
                interrupt_flag: old(self).mmu.interrupt_flag | 0x10,
                ..old(self).mmu
            }),
    {
        self.mmu.joypad.on_button_release(button, &mut self.mmu.interrupt_flag);
    }

    /// The bytes the game sent out on the serial port since the last call.
    pub fn take_serial_output(&mut self) -> (r: Vec<u8>)
        ensures
            r@ == old(self).mmu.serial.output@,
            final(self).mmu.serial.output@.len() == 0,
            final(self).cpu == old(self).cpu,
    {
        self.mmu.serial.take_output()
    }

    pub fn stack_push_byte(&mut self, value: u8) -> (r: Cycles)
        requires
            old(self).wf(),
        ensures
            final(self).wf(),
            r == 4,
            final(self).cpu == (CPU {
                registers: Registers {
                    sp: below(old(self).cpu.registers.sp),
                    ..old(self).cpu.registers
                },
                ..old(self).cpu
            }),
            is_ram(below(old(self).cpu.registers.sp)) ==> final(self).mmu.wrote_ram(
                old(self).mmu,
                below(old(self).cpu.registers.sp),
                value,
            ),
    {
        let sp = self.cpu.registers.sp;
        let sp = if sp == 0 {
            0xFFFF
        } else {
            sp - 1
        };
        self.cpu.registers.sp = sp;
        self.mmu.write_byte(sp, value);
        4
    }

    /// Pushes a word: the high byte first, at SP-1, then the low byte at SP-2.
    pub fn stack_push_word(&mut self, value: u16) -> (r: Cycles)
        requires
            old(self).wf(),
        ensures
            final(self).wf(),
            r == 8,
            final(self).pushed(*old(self), value),
    {
        let c1 = self.stack_push_byte((value / 256) as u8);
        let ghost mid = self.mmu;
        let c2 = self.stack_push_byte((value % 256) as u8);
        proof {
            let sp = old(self).cpu.registers.sp;
            if is_ram(below(sp)) && is_ram(below(below(sp))) {
                assert(mid.wrote_ram(old(self).mmu, below(sp), high_byte(value)));
            }
        }
        c1 + c2
    }

    /// Pops a word: the low byte at SP, the high byte at SP+1.
    pub fn stack_pop_word(&mut self) -> (r: u16)
        requires
            old(self).wf(),
        ensures
            final(self).wf(),
            final(self).popped(*old(self), r),
    {
        let sp = self.cpu.registers.sp;
        let r = self.mmu.read_word(sp);
        let next = if sp >= 0xFFFE {
            sp - 0xFFFE
        } else {
            sp + 2
        };
        self.cpu.registers.sp = next;
        r
    }

    /// Services the first pending, enabled interrupt when IME is set: clears
    /// IME and the source's IF bit, pushes PC and jumps to the source's
    /// vector, in 20 T-cycles. Otherwise nothing happens, in none.
    pub fn handle_interrupts(&mut self) -> (r: Cycles)
        requires
            old(self).wf(),
        ensures
            final(self).wf(),
            serviced(*old(self), *final(self), r),
    {
        if !self.cpu.ime {
            return 0;
        }
        let sources = InterruptFlag::iter();
        let mut k: usize = 0;
        while k < 5
            invariant
                k <= 5,
                sources@ == seq![
                    InterruptFlag::VBlank,
                    InterruptFlag::LCD,
                    InterruptFlag::Timer,
                    InterruptFlag::Serial,
                    InterruptFlag::Joypad,
                ],
                *self == *old(self),
                self.cpu.ime,
                self.wf(),
                forall|j: u8|
                    j < k ==> !(bit(self.mmu.interrupt_flag, j) && bit(self.mmu.interrupt_enable, j)),
            decreases 5 - k,
        {
            let source = sources[k];
            let b = source.bit();
            let flags = self.mmu.interrupt_flag;
            if crate::utils::is_set(flags, b) && crate::utils::is_set(self.mmu.interrupt_enable, b) {
                let ghost before = *self;
                self.cpu.ime = false;
                self.mmu.interrupt_flag = reset_bit(flags, b);
                let ghost cleared = *self;
                let pc = self.cpu.registers.pc;
                let pushed = self.stack_push_word(pc);
                let vector = source.vector();
                self.cpu.registers.pc = vector;
                proof {
                    assert(first_pending(before.mmu.interrupt_flag, before.mmu.interrupt_enable) == Some(b));
                    assert(self.with_registers(
                        Registers { pc: pc, ..self.cpu.registers },
                    ).cpu == cleared.with_registers(
                        Registers { sp: self.cpu.registers.sp, ..cleared.cpu.registers },
                    ).cpu);
                }
                return 8 + pushed + 4;
            }
            k = k + 1;
        }
        proof {
            assert(first_pending(self.mmu.interrupt_flag, self.mmu.interrupt_enable) is None);
        }
        0
    }

    /// Runs one step: wakes a halted CPU when it may, services a pending
    /// interrupt, runs the instruction at PC (re-reading its byte after a
    /// halt bug), promotes a pending EI, then runs the PPU and timer for the
    /// T-cycles spent, which it returns.
    #[verifier::spinoff_prover]
    #[verifier::rlimit(100)]
    pub fn tick(&mut self) -> (r: Cycles)
        requires
            old(self).wf(),
        ensures
            final(self).wf(),
            old(self).cpu.halted && !old(self).cpu.ime && old(self).mmu.interrupt_flag & old(
                self).mmu.interrupt_enable & 0x1F == 0 ==> r == 4 && final(self).cpu == old(
                self).cpu,
            old(self).cpu.locked ==> r == 4 && final(self).cpu == old(self).cpu,
            !old(self).cpu.locked && !old(self).cpu.halted && !old(self).cpu.ime && !old(
                self).cpu.ei && old(self).mmu.spec_read(old(self).cpu.registers.pc) == 0x00 ==> r
                == 4 && final(self).cpu.registers == (Registers {
                pc: if old(self).cpu.halt_bug {
                    old(self).cpu.registers.pc
                } else {
                    above(old(self).cpu.registers.pc)
                },
                ..old(self).cpu.registers
            }) && !final(self).cpu.halt_bug,
            !old(self).cpu.locked && !old(self).cpu.halted && !old(self).cpu.ime && old(
                self).cpu.halt_bug && one_byte_register_op(
                old(self).mmu.spec_read(old(self).cpu.registers.pc),
            ) ==> final(self).cpu.registers.pc == old(self).cpu.registers.pc && !final(
                self).cpu.halt_bug,
            !old(self).cpu.locked && !old(self).cpu.halted && !old(self).cpu.ime && old(self).cpu.ei
                && old(self).mmu.spec_read(old(self).cpu.registers.pc) != 0xFB ==> final(
                self).cpu.ime && !final(self).cpu.ei,
            old(self).cpu.locked ==> final(self).mmu.ticked(old(self).mmu, 4),
            !old(self).cpu.locked ==> exists|t: (GameBoy, GameBoy, Cycles, Cycles)|
                #[trigger] tick_chain(*old(self), t, *final(self), r),
    {
        if self.cpu.locked {
            self.mmu.tick(4);
            return 4;
        }
        let mut cycles: Cycles = 0;
        let ghost start = *self;
        if self.cpu.halted {
            if self.cpu.ime {
                self.cpu.halted = false;
            } else if self.mmu.interrupt_flag & self.mmu.interrupt_enable & 0x1F != 0 {
                self.cpu.halted = false;
            } else {
                cycles = 4;
            }
        }
        assert(*self == start.woken());
        assert(cycles == start.wait_cycles());
        let c1 = self.handle_interrupts();
        cycles = cycles + c1;
        let ghost s1 = *self;
        let ghost mut e = *self;
        let ghost mut c2: Cycles = 0;
        if !self.cpu.halted {
            let pc = self.cpu.registers.pc;
            let opcode = self.mmu.read_byte(pc);
            if self.cpu.halt_bug {
                self.cpu.registers.pc = if pc == 0 {
                    0xFFFF
                } else {
                    pc - 1
                };
                self.cpu.halt_bug = false;
            }
            assert(*self == s1.fetched());
            let c = self.execute_opcode(opcode);
            cycles = cycles + c;
            proof {
                e = *self;
                c2 = c;
            }
            if self.cpu.ei && opcode != 0xFB {
                self.cpu.ime = true;
                self.cpu.ei = false;
            }
        }
        self.mmu.tick(cycles);
        proof {
            reveal(tick_chain);
            assert(tick_chain(start, (s1, e, c1, c2), *self, cycles));
        }
        cycles
    }
}

/// Pushing a word and popping it again gives the word back and leaves the
/// CPU as it was, when the two stack bytes are RAM.
pub proof fn lemma_push_pop(s0: GameBoy, s1: GameBoy, s2: GameBoy, v: u16, w: u16)
    requires
        s0.wf(),
        s1.pushed(s0, v),
        s2.popped(s1, w),
        is_ram(below(s0.cpu.registers.sp)),
        is_ram(below(below(s0.cpu.registers.sp))),
    ensures
        w == v,
        s2.cpu == s0.cpu,
{
    let sp = s0.cpu.registers.sp;
    let mid = choose|mid: MMU|
        #[trigger] mid.wrote_ram(s0.mmu, below(sp), high_byte(v)) && s1.mmu.wrote_ram(
            mid,
            below(below(sp)),
            low_byte(v),
        );
    let hi_addr = below(sp);
    let lo_addr = below(below(sp));
    assert(above(lo_addr) == hi_addr);
    assert(s1.mmu.spec_read(lo_addr) == low_byte(v));
    assert(s1.mmu.spec_read(hi_addr) == high_byte(v));
    crate::utils::lemma_compose_round_trip(v, 0, 0);
    assert(above(above(lo_addr)) == sp);
    assert(s2.cpu.registers =~= s0.cpu.registers);
}

/// Through a step of `tick`, LD BC,n16, LD DE,n16 or LD HL,n16 loads the
/// pair with the word after the opcode, leaves the flags, and moves PC
/// past the three bytes, in 12 T-cycles; the CPU running, with IME and EI
/// clear and no halt bug pending.
pub proof fn lemma_tick_loads_pair(
    before: GameBoy,
    t: (GameBoy, GameBoy, Cycles, Cycles),
    after: GameBoy,
    r: Cycles,
)
    requires
        before.wf(),
        !before.cpu.locked,
        !before.cpu.halted,
        !before.cpu.ime,
        !before.cpu.ei,
        !before.cpu.halt_bug,
        before.mmu.spec_read(before.cpu.registers.pc) == 0x01 || before.mmu.spec_read(
            before.cpu.registers.pc,
        ) == 0x11 || before.mmu.spec_read(before.cpu.registers.pc) == 0x21,
        tick_chain(before, t, after, r),
    ensures
        ({
            let regs = before.cpu.registers;
            let op = before.mmu.spec_read(regs.pc);
            let v = before.mmu.spec_read_word(pc_plus(regs.pc, 1));
            &&& r == 12
            &&& after.cpu.registers == (Registers {
                pc: pc_plus(regs.pc, 3),
                ..regs.with_r16(op / 16, v)
            })
            &&& after.cpu.registers.r16(op / 16) == v
            &&& after.cpu.registers.f == regs.f
        }),
{
    reveal(tick_chain);
    reveal(low_pairs_step);
    let regs = before.cpu.registers;
    let op = before.mmu.spec_read(regs.pc);
    let v = before.mmu.spec_read_word(pc_plus(regs.pc, 1));
    assert(before.woken() == before);
    assert(t.0 == before);
    assert(before.fetched() == before);
    crate::utils::lemma_compose_round_trip(v, 0, 0);
}

/// A step of `tick` on HALT with IME clear and an enabled interrupt pending
/// does not halt: it sets the halt bug and moves PC past the HALT.
proof fn lemma_halt_step(
    s0: GameBoy,
    t: (GameBoy, GameBoy, Cycles, Cycles),
    s1: GameBoy,
    r: Cycles,
)
    requires
        s0.wf(),
        !s0.cpu.locked,
        !s0.cpu.halted,
        !s0.cpu.ime,
        !s0.cpu.ei,
        !s0.cpu.halt_bug,
        s0.mmu.interrupt_flag & s0.mmu.interrupt_enable & 0x1F != 0,
        s0.mmu.spec_read(s0.cpu.registers.pc) == 0x76,
        tick_chain(s0, t, s1, r),
    ensures
        s1.cpu == (CPU {
            halt_bug: true,
            registers: Registers {
                pc: pc_plus(s0.cpu.registers.pc, 1),
                ..s0.cpu.registers
            },
            ..s0.cpu
        }),
        s1.mmu.cartridge == s0.mmu.cartridge,
{
    reveal(tick_chain);
    assert(s0.woken() == s0);
    assert(t.0 == s0);
    assert(s0.fetched() == s0);
}

/// A step of `tick` on INC A, the CPU running with IME and EI clear,
/// increments A and leaves PC past the byte it fetched, one back after a
/// halt bug.
proof fn lemma_inc_a_step(
    s0: GameBoy,
    t: (GameBoy, GameBoy, Cycles, Cycles),
    s1: GameBoy,
    r: Cycles,
)
    requires
        s0.wf(),
        !s0.cpu.locked,
        !s0.cpu.halted,
        !s0.cpu.ime,
        !s0.cpu.ei,
        s0.mmu.spec_read(s0.cpu.registers.pc) == 0x3C,
        tick_chain(s0, t, s1, r),
    ensures
        s1.cpu.registers.a == (s0.cpu.registers.a + 1) % 256,
        s1.cpu.registers.pc == pc_plus(s0.fetched().cpu.registers.pc, 1),
        !s1.cpu.halted && !s1.cpu.halt_bug && !s1.cpu.ime && !s1.cpu.ei && !s1.cpu.locked,
        s1.mmu.cartridge == s0.mmu.cartridge,
{
    reveal(tick_chain);
    reveal(low_r8_step);
    assert(s0.woken() == s0);
    assert(t.0 == s0);
}

/// The HALT bug: with IME clear and an enabled interrupt pending, HALT does
/// not halt, and the byte after it runs twice. Shown for INC A after HALT in
/// cartridge ROM, over the three steps of `tick` that follow.
pub proof fn lemma_halt_bug_repeats(
    s0: GameBoy,
    t1: (GameBoy, GameBoy, Cycles, Cycles),
    s1: GameBoy,
    r1: Cycles,
    t2: (GameBoy, GameBoy, Cycles, Cycles),
    s2: GameBoy,
    r2: Cycles,
    t3: (GameBoy, GameBoy, Cycles, Cycles),
    s3: GameBoy,
    r3: Cycles,
)
    requires
        s0.wf(),
        s1.wf(),
        s2.wf(),
        !s0.cpu.locked,
        !s0.cpu.halted,
        !s0.cpu.ime,
        !s0.cpu.ei,
        !s0.cpu.halt_bug,
        s0.mmu.interrupt_flag & s0.mmu.interrupt_enable & 0x1F != 0,
        s0.cpu.registers.pc <= 0x7FFE,
        s0.mmu.spec_read(s0.cpu.registers.pc) == 0x76,
        s0.mmu.spec_read((s0.cpu.registers.pc + 1) as u16) == 0x3C,
        tick_chain(s0, t1, s1, r1),
        tick_chain(s1, t2, s2, r2),
        tick_chain(s2, t3, s3, r3),
    ensures
        !s1.cpu.halted && s1.cpu.halt_bug,
        s1.cpu.registers.pc == s0.cpu.registers.pc + 1,
        s2.cpu.registers.pc == s0.cpu.registers.pc + 1,
        s2.cpu.registers.a == (s0.cpu.registers.a + 1) % 256,
        s3.cpu.registers.pc == s0.cpu.registers.pc + 2,
        s3.cpu.registers.a == (s0.cpu.registers.a + 2) % 256,
        !s3.cpu.halted,
{
    let pc = s0.cpu.registers.pc;
    let next = (pc + 1) as u16;
    lemma_halt_step(s0, t1, s1, r1);
    assert(s1.mmu.spec_read(next) == s0.mmu.spec_read(next));
    assert(s1.fetched().cpu.registers.pc == pc);
    lemma_inc_a_step(s1, t2, s2, r2);
    assert(s2.mmu.spec_read(next) == s0.mmu.spec_read(next));
    assert(s2.fetched() == s2);
    lemma_inc_a_step(s2, t3, s3, r3);
}

/// A step of `tick` on EI sets the pending flag and leaves IME clear.
proof fn lemma_ei_step(s0: GameBoy, t: (GameBoy, GameBoy, Cycles, Cycles), s1: GameBoy, r: Cycles)
    requires
        s0.wf(),
        !s0.cpu.locked,
        !s0.cpu.halted,
        !s0.cpu.ime,
        !s0.cpu.halt_bug,
        s0.mmu.spec_read(s0.cpu.registers.pc) == 0xFB,
        tick_chain(s0, t, s1, r),
    ensures
        !s1.cpu.ime && s1.cpu.ei && !s1.cpu.halted && !s1.cpu.halt_bug && !s1.cpu.locked,
        s1.cpu.registers.pc == pc_plus(s0.cpu.registers.pc, 1),
        s1.mmu.cartridge == s0.mmu.cartridge,
{
    reveal(tick_chain);
    reveal(high_step);
    assert(s0.woken() == s0);
    assert(t.0 == s0);
    assert(s0.fetched() == s0);
}

/// A step of `tick` on NOP with EI pending sets IME and clears the pending flag.
proof fn lemma_promote_step(
    s0: GameBoy,
    t: (GameBoy, GameBoy, Cycles, Cycles),
    s1: GameBoy,
    r: Cycles,
)
    requires
        s0.wf(),
        !s0.cpu.locked,
        !s0.cpu.halted,
        !s0.cpu.ime,
        s0.cpu.ei,
        !s0.cpu.halt_bug,
        s0.mmu.spec_read(s0.cpu.registers.pc) == 0x00,
        tick_chain(s0, t, s1, r),
    ensures
        s1.cpu.ime && !s1.cpu.ei,
        s1.cpu.registers.pc == pc_plus(s0.cpu.registers.pc, 1),
{
    reveal(tick_chain);
    assert(s0.woken() == s0);
    assert(t.0 == s0);
    assert(s0.fetched() == s0);
}

/// EI takes effect after the instruction that follows it: shown for EI then
/// NOP in cartridge ROM, IME is still clear after the step that runs EI and
/// set after the next one.
pub proof fn lemma_ei_delay(
    s0: GameBoy,
    t1: (GameBoy, GameBoy, Cycles, Cycles),
    s1: GameBoy,
    r1: Cycles,
    t2: (GameBoy, GameBoy, Cycles, Cycles),
    s2: GameBoy,
    r2: Cycles,
)
    requires
        s0.wf(),
        s1.wf(),
        !s0.cpu.locked,
        !s0.cpu.halted,
        !s0.cpu.ime,
        !s0.cpu.halt_bug,
        s0.cpu.registers.pc <= 0x7FFE,
        s0.mmu.spec_read(s0.cpu.registers.pc) == 0xFB,
        s0.mmu.spec_read((s0.cpu.registers.pc + 1) as u16) == 0x00,
        tick_chain(s0, t1, s1, r1),
        tick_chain(s1, t2, s2, r2),
    ensures
        !s1.cpu.ime && s1.cpu.ei,
        s2.cpu.ime && !s2.cpu.ei,
        s2.cpu.registers.pc == s0.cpu.registers.pc + 2,
{
    let next = (s0.cpu.registers.pc + 1) as u16;
    lemma_ei_step(s0, t1, s1, r1);
    assert(s1.mmu.spec_read(next) == s0.mmu.spec_read(next));
    lemma_promote_step(s1, t2, s2, r2);
}

} // verus!
