use vstd::prelude::*;
use crate::decode::{decode, decode_spec, lemma_word_fields, Instruction};
use crate::display::{
    blank, composite, erases, sprite_pixels, Display, Sprite, FLAG_REG, NUM_PIXELS,
};
use crate::input::{Input, NUM_KEYS};
use crate::memory::{Memory, MEM_SIZE, NUM_REGS};
use crate::sound::{countdown, cycles_per_tick, Sound};

verus! {

/// Address of the first instruction executed.
pub const START_PC: u16 = 512;

/// Instruction rate, in Hz, of a machine that has not been given another.
pub const DEFAULT_HZ: u32 = 60;

/// Why execution stopped.
#[derive(Clone, Copy, PartialEq, Eq, Structural, Debug)]
pub enum Fault {
    /// The instruction word matches no instruction.
    BadOpcode,
    /// A memory or keypad access falls outside its extent.
    AddressOutOfRange,
    /// A call with every stack slot in use.
    StackOverflow,
    /// A return with no call pending.
    StackUnderflow,
}

/// The fault, the offending instruction word (0 when the word itself could
/// not be fetched) and the program counter at which it stood.
#[derive(Clone, Copy, PartialEq, Eq, Structural, Debug)]
pub struct Crash {
    pub fault: Fault,
    pub op: u16,
    pub pc: u16,
}

/// The whole machine as the contracts see it.
pub struct MachineState {
    pub pc: u16,
    /// General registers V0..=VF.
    pub v: Seq<u8>,
    /// Index register I.
    pub i: u16,
    pub ram: Seq<u8>,
    pub sp: u8,
    pub stack: Seq<u16>,
    pub pixels: Seq<bool>,
    pub dt: u8,
    pub st: u8,
    pub dt_lu: u32,
    pub st_lu: u32,
    pub keys: Seq<bool>,
    pub last_key: u8,
    pub new_press: bool,
    /// A key-wait instruction is waiting for a press.
    pub waiting: bool,
    /// The shift instructions read Vy (else they shift Vx in place).
    pub shift_vy: bool,
    /// Instruction rate in Hz, which paces the timers.
    pub freq: u32,
    pub crash: Option<Crash>,
}

impl MachineState {
    /// Every component has the size of the machine's: sixteen registers,
    /// stack slots and keys, 4096 bytes, 2048 pixels; no more calls
    /// pending than the stack has slots.
    pub open spec fn wf(self) -> bool {
        &&& self.v.len() == NUM_REGS
        &&& self.ram.len() == MEM_SIZE
        &&& self.stack.len() == NUM_REGS
        &&& self.pixels.len() == NUM_PIXELS
        &&& self.keys.len() == NUM_KEYS
        &&& self.sp <= NUM_REGS
    }
}

/// Address of the instruction after the current one, or after the next one
/// when `skip` holds.
pub open spec fn next_pc(s: MachineState, skip: bool) -> u16 {
    if skip {
        ((s.pc + 4) % 0x10000) as u16
    } else {
        ((s.pc + 2) % 0x10000) as u16
    }
}

/// The operand that a shift instruction shifts.
pub open spec fn shift_source(s: MachineState, x: u8, y: u8) -> u8 {
    if s.shift_vy {
        s.v[y as int]
    } else {
        s.v[x as int]
    }
}

/// Registers after an arithmetic instruction: both results are computed
/// from the registers before it, the flag is written first and `Vx` last.
pub open spec fn with_flag(s: MachineState, x: u8, value: u8, flag: bool) -> Seq<u8> {
    s.v.update(FLAG_REG as int, if flag { 1u8 } else { 0u8 }).update(x as int, value)
}

/// The fault, if any, that executing `ins` in state `s` raises.
pub open spec fn fault_spec(s: MachineState, ins: Instruction) -> Option<Fault> {
    match ins {
        Instruction::Ret => if s.sp == 0 { Some(Fault::StackUnderflow) } else { None },
        Instruction::Call(_) => if s.sp >= NUM_REGS {
            Some(Fault::StackOverflow)
        } else {
            None
        },
        Instruction::Drw(_, _, n) => if s.i + n > MEM_SIZE {
            Some(Fault::AddressOutOfRange)
        } else {
            None
        },
        Instruction::Skp(x) => if s.v[x as int] >= NUM_KEYS {
            Some(Fault::AddressOutOfRange)
        } else {
            None
        },
        Instruction::Sknp(x) => if s.v[x as int] >= NUM_KEYS {
            Some(Fault::AddressOutOfRange)
        } else {
            None
        },
        Instruction::Bcd(_) => if s.i + 3 > MEM_SIZE { Some(Fault::AddressOutOfRange) } else { None },
        Instruction::Stseq(x) => if s.i + x + 1 > MEM_SIZE {
            Some(Fault::AddressOutOfRange)
        } else {
            None
        },
        Instruction::Ldseq(x) => if s.i + x + 1 > MEM_SIZE {
            Some(Fault::AddressOutOfRange)
        } else {
            None
        },
        _ => None,
    }
}

/// The state after executing `ins` in state `s`, which raises no fault;
/// `rnd` is the random byte that the random instruction draws.
pub open spec fn effect(s: MachineState, ins: Instruction, rnd: u8) -> MachineState {
    match ins {
        Instruction::Cls => MachineState { pixels: blank(), pc: next_pc(s, false), ..s },
        Instruction::Ret => MachineState {
            pc: s.stack[s.sp - 1],
            sp: (s.sp - 1) as u8,
            ..s
        },
        Instruction::Jp(nnn) => MachineState { pc: nnn, ..s },
        Instruction::Call(nnn) => MachineState {
            sp: (s.sp + 1) as u8,
            stack: s.stack.update(s.sp as int, next_pc(s, false)),
            pc: nnn,
            ..s
        },
        Instruction::Sei(x, kk) => MachineState { pc: next_pc(s, s.v[x as int] == kk), ..s },
        Instruction::Snei(x, kk) => MachineState { pc: next_pc(s, s.v[x as int] != kk), ..s },
        Instruction::Ser(x, y) => MachineState {
            pc: next_pc(s, s.v[x as int] == s.v[y as int]),
            ..s
        },
        Instruction::Ldi(x, kk) => MachineState {
            v: s.v.update(x as int, kk),
            pc: next_pc(s, false),
            ..s
        },
        Instruction::Addi(x, kk) => MachineState {
            v: s.v.update(x as int, ((s.v[x as int] + kk) % 256) as u8),
            pc: next_pc(s, false),
            ..s
        },
        Instruction::Ldr(x, y) => MachineState {
            v: s.v.update(x as int, s.v[y as int]),
            pc: next_pc(s, false),
            ..s
        },
        Instruction::Or(x, y) => MachineState {
            v: s.v.update(x as int, s.v[x as int] | s.v[y as int]),
            pc: next_pc(s, false),
            ..s
        },
        Instruction::And(x, y) => MachineState {
            v: s.v.update(x as int, s.v[x as int] & s.v[y as int]),
            pc: next_pc(s, false),
            ..s
        },
        Instruction::Xor(x, y) => MachineState {
            v: s.v.update(x as int, s.v[x as int] ^ s.v[y as int]),
            pc: next_pc(s, false),
            ..s
        },
        Instruction::Addr(x, y) => MachineState {
            v: with_flag(
                s,
                x,
                ((s.v[x as int] + s.v[y as int]) % 256) as u8,
                s.v[x as int] + s.v[y as int] > 255,
            ),
            pc: next_pc(s, false),
            ..s
        },
        Instruction::Subr(x, y) => MachineState {
            v: with_flag(
                s,
                x,
                ((s.v[x as int] - s.v[y as int] + 256) % 256) as u8,
                s.v[x as int] >= s.v[y as int],
            ),
            pc: next_pc(s, false),
            ..s
        },
        Instruction::Shr(x, y) => MachineState {
            v: with_flag(
                s,
                x,
                shift_source(s, x, y) >> 1u8,
                shift_source(s, x, y) & 1u8 == 1u8,
            ),
            pc: next_pc(s, false),
            ..s
        },
        Instruction::Subn(x, y) => MachineState {
            v: with_flag(
                s,
                x,
                ((s.v[y as int] - s.v[x as int] + 256) % 256) as u8,
                s.v[y as int] >= s.v[x as int],
            ),
            pc: next_pc(s, false),
            ..s
        },
        Instruction::Shl(x, y) => MachineState {
            v: with_flag(
                s,
                x,
                shift_source(s, x, y) << 1u8,
                shift_source(s, x, y) & 0x80u8 != 0u8,
            ),
            pc: next_pc(s, false),
            ..s
        },
        Instruction::Sner(x, y) => MachineState {
            pc: next_pc(s, s.v[x as int] != s.v[y as int]),
            ..s
        },
        Instruction::Ldireg(nnn) => MachineState { i: nnn, pc: next_pc(s, false), ..s },
        Instruction::Jpv(nnn) => MachineState { pc: (s.v[0] + nnn) as u16, ..s },
        Instruction::Rnd(x, kk) => MachineState {
            v: s.v.update(x as int, rnd & kk),
            pc: next_pc(s, false),
            ..s
        },
        Instruction::Drw(x, y, n) => {
            let sp = sprite_pixels(
                s.ram.subrange(s.i as int, s.i + n),
                s.v[x as int] as int,
                s.v[y as int] as int,
            );
            MachineState {
                pixels: composite(s.pixels, sp),
                v: s.v.update(FLAG_REG as int, if erases(s.pixels, sp) { 1u8 } else { 0u8 }),
                pc: next_pc(s, false),
                ..s
            }
        },
        Instruction::Skp(x) => MachineState { pc: next_pc(s, s.keys[s.v[x as int] as int]), ..s },
        Instruction::Sknp(x) => MachineState {
            pc: next_pc(s, !s.keys[s.v[x as int] as int]),
            ..s
        },
        Instruction::Ldd(x) => MachineState {
            v: s.v.update(x as int, s.dt),
            pc: next_pc(s, false),
            ..s
        },
        Instruction::Ldk(x) => if s.waiting && s.new_press {
            MachineState {
                v: s.v.update(x as int, s.last_key),
                waiting: false,
                new_press: false,
                pc: next_pc(s, false),
                ..s
            }
        } else if !s.waiting {
            MachineState { waiting: true, new_press: false, ..s }
        } else {
            s
        },
        Instruction::Sd(x) => MachineState {
            dt: s.v[x as int],
            dt_lu: 0,
            pc: next_pc(s, false),
            ..s
        },
        Instruction::Ss(x) => MachineState {
            st: s.v[x as int],
            st_lu: 0,
            pc: next_pc(s, false),
            ..s
        },
        Instruction::Addireg(x) => MachineState {
            i: ((s.i + s.v[x as int]) % 0x10000) as u16,
            pc: next_pc(s, false),
            ..s
        },
        Instruction::Ldsprite(x) => MachineState {
            i: (5 * (s.v[x as int] % 16)) as u16,
            pc: next_pc(s, false),
            ..s
        },
        Instruction::Bcd(x) => MachineState {
            ram: s.ram.update(s.i as int, (s.v[x as int] / 100) as u8).update(
                s.i + 1,
                ((s.v[x as int] / 10) % 10) as u8,
            ).update(s.i + 2, (s.v[x as int] % 10) as u8),
            pc: next_pc(s, false),
            ..s
        },
        Instruction::Stseq(x) => MachineState {
            ram: Seq::new(
                s.ram.len(),
                |a: int|
                    if s.i <= a <= s.i + x {
                        s.v[a - s.i]
                    } else {
                        s.ram[a]
                    },
            ),
            pc: next_pc(s, false),
            ..s
        },
        Instruction::Ldseq(x) => MachineState {
            v: Seq::new(
                s.v.len(),
                |r: int|
                    if r <= x {
                        s.ram[s.i + r]
                    } else {
                        s.v[r]
                    },
            ),
            pc: next_pc(s, false),
            ..s
        },
    }
}

/// State `s` stopped by `fault` while at instruction word `op`; nothing
/// else changes.
pub open spec fn crashed(s: MachineState, fault: Fault, op: u16) -> MachineState {
    MachineState { crash: Some(Crash { fault, op, pc: s.pc }), ..s }
}

/// The state after executing instruction word `op` in state `s`: once
/// execution has stopped on a fault, nothing changes any more.
pub open spec fn execute_spec(s: MachineState, op: u16, rnd: u8) -> MachineState {
    if s.crash is Some {
        s
    } else {
        match decode_spec(op) {
            None => crashed(s, Fault::BadOpcode, op),
            Some(ins) => match fault_spec(s, ins) {
                Some(f) => crashed(s, f, op),
                None => effect(s, ins, rnd),
            },
        }
    }
}

/// The instruction word at the program counter, most significant byte first.
pub open spec fn fetch_spec(s: MachineState) -> u16 {
    (s.ram[s.pc as int] * 256 + s.ram[s.pc + 1]) as u16
}

/// Both timers after one executed instruction.
pub open spec fn ticked(s: MachineState) -> MachineState {
    let d = countdown(s.dt, s.dt_lu, cycles_per_tick(s.freq));
    let t = countdown(s.st, s.st_lu, cycles_per_tick(s.freq));
    MachineState { dt: d.0, dt_lu: d.1, st: t.0, st_lu: t.1, ..s }
}

/// One cycle: nothing once crashed (not even the timers); a fault when the instruction word does
/// not lie in memory; else the fetched word executed and the timers paced.
pub open spec fn cycle_spec(s: MachineState, rnd: u8) -> MachineState {
    if s.crash is Some {
        s
    } else if s.pc + 1 >= MEM_SIZE {
        crashed(s, Fault::AddressOutOfRange, 0)
    } else {
        ticked(execute_spec(s, fetch_spec(s), rnd))
    }
}

/// The machine: program counter, memory and registers, display, timers,
/// keypad, and the execution state.
pub struct CPU {
    pub pc: u16,
    /// Instruction rate in Hz; the timers are paced against it.
    pub freq: u32,
    pub mem: Memory,
    pub disp: Display,
    pub sound: Sound,
    pub input: Input,
    /// Whether the shift instructions read Vy, or shift Vx in place.
    pub shift_uses_vy: bool,
    /// A key-wait instruction is waiting for a press.
    pub waiting_for_key: bool,
    /// Set once execution has stopped on a fault.
    pub crash: Option<Crash>,
}

impl View for CPU {
    type V = MachineState;

    open spec fn view(&self) -> MachineState {
        MachineState {
            pc: self.pc,
            v: self.mem.v_regs@,
            i: self.mem.i,
            ram: self.mem.mem@,
            sp: self.mem.sp,
            stack: self.mem.stack@,
            pixels: self.disp.pixels@,
            dt: self.sound.dt,
            st: self.sound.st,
            dt_lu: self.sound.dt_lu,
            st_lu: self.sound.st_lu,
            keys: self.input.keys@,
            last_key: self.input.last_key,
            new_press: self.input.new_press,
            waiting: self.waiting_for_key,
            shift_vy: self.shift_uses_vy,
            freq: self.freq,
            crash: self.crash,
        }
    }
}

impl CPU {
    /// The stack pointer stays within the stack.
    pub open spec fn wf(&self) -> bool {
        self.mem.wf()
    }

    /// A machine about to execute the program at the program base, at the
    /// default instruction rate, with shifts that read Vy.
    pub fn new(mem: Memory, disp: Display, sound: Sound, input: Input) -> (r: CPU)
        requires
            mem.wf(),
        ensures
            r.wf(),
            r.pc == START_PC,
            r.freq == DEFAULT_HZ,
            r.mem == mem,
            r.disp == disp,
            r.sound == sound,
            r.input == input,
            r.shift_uses_vy,
            !r.waiting_for_key,
            r.crash is None,
    {
        CPU {
            pc: START_PC,
            freq: DEFAULT_HZ,
            mem,
            disp,
            sound,
            input,
            shift_uses_vy: true,
            waiting_for_key: false,
            crash: None,
        }
    }

    /// The instruction word at the program counter.
    pub fn fetch(&self) -> (r: u16)
        requires
            self.pc + 1 < MEM_SIZE,
        ensures
            r == fetch_spec(self@),
    {
        let hi = self.mem.mem[self.pc as usize] as u16;
        let lo = self.mem.mem[self.pc as usize + 1] as u16;
        assert((hi << 8) | lo == hi * 256 + lo) by (bit_vector)
            requires hi < 256u16, lo < 256u16;
        (hi << 8) | lo
    }

    /// Moves the program counter past the current instruction, and past the
    /// next one too when `skip` holds.
    fn advance(&mut self, skip: bool)
        ensures
            final(self)@ == (MachineState { pc: next_pc(old(self)@, skip), ..old(self)@ }),
            final(self).mem == old(self).mem,
            final(self).disp == old(self).disp,
    {
        let step: u32 = if skip { 4 } else { 2 };
        self.pc = ((self.pc as u32 + step) % 0x10000) as u16;
    }

    fn cls(&mut self)
        ensures
            final(self)@ == effect(old(self)@, Instruction::Cls, 0),
    {
        self.disp.clear_disp();
        self.advance(false);
    }

    fn ret(&mut self)
        requires
            old(self).wf(),
            fault_spec(old(self)@, Instruction::Ret) is None,
        ensures
            final(self).wf(),
            final(self)@ == effect(old(self)@, Instruction::Ret, 0),
    {
        self.mem.sp = self.mem.sp - 1;
        self.pc = self.mem.stack[self.mem.sp as usize];
    }

    fn jp(&mut self, addr: u16)
        ensures
            final(self)@ == effect(old(self)@, Instruction::Jp(addr), 0),
    {
        self.pc = addr;
    }

    fn call(&mut self, addr: u16)
        requires
            old(self).wf(),
            fault_spec(old(self)@, Instruction::Call(addr)) is None,
        ensures
            final(self).wf(),
            final(self)@ == effect(old(self)@, Instruction::Call(addr), 0),
    {
        let ret_to = ((self.pc as u32 + 2) % 0x10000) as u16;
        self.mem.stack[self.mem.sp as usize] = ret_to;
        self.mem.sp = self.mem.sp + 1;
        self.pc = addr;
    }

    fn sei(&mut self, x: u8, kk: u8)
        requires
            x < NUM_REGS,
        ensures
            final(self)@ == effect(old(self)@, Instruction::Sei(x, kk), 0),
    {
        let c = self.mem.v_regs[x as usize] == kk;
        self.advance(c);
    }

    fn snei(&mut self, x: u8, kk: u8)
        requires
            x < NUM_REGS,
        ensures
            final(self)@ == effect(old(self)@, Instruction::Snei(x, kk), 0),
    {
        let c = self.mem.v_regs[x as usize] != kk;
        self.advance(c);
    }

    fn ser(&mut self, x: u8, y: u8)
        requires
            x < NUM_REGS,
            y < NUM_REGS,
        ensures
            final(self)@ == effect(old(self)@, Instruction::Ser(x, y), 0),
    {
        let c = self.mem.v_regs[x as usize] == self.mem.v_regs[y as usize];
        self.advance(c);
    }

    fn sner(&mut self, x: u8, y: u8)
        requires
            x < NUM_REGS,
            y < NUM_REGS,
        ensures
            final(self)@ == effect(old(self)@, Instruction::Sner(x, y), 0),
    {
        let c = self.mem.v_regs[x as usize] != self.mem.v_regs[y as usize];
        self.advance(c);
    }

    fn ldi(&mut self, x: u8, kk: u8)
        requires
            x < NUM_REGS,
        ensures
            final(self)@ == effect(old(self)@, Instruction::Ldi(x, kk), 0),
    {
        self.mem.v_regs[x as usize] = kk;
        self.advance(false);
    }

    fn addi(&mut self, x: u8, kk: u8)
        requires
            x < NUM_REGS,
        ensures
            final(self)@ == effect(old(self)@, Instruction::Addi(x, kk), 0),
    {
        let sum = (self.mem.v_regs[x as usize] as u16 + kk as u16) % 256;
        self.mem.v_regs[x as usize] = sum as u8;
        self.advance(false);
    }

    fn ldr(&mut self, x: u8, y: u8)
        requires
            x < NUM_REGS,
            y < NUM_REGS,
        ensures
            final(self)@ == effect(old(self)@, Instruction::Ldr(x, y), 0),
    {
        self.mem.v_regs[x as usize] = self.mem.v_regs[y as usize];
        self.advance(false);
    }

    fn or(&mut self, x: u8, y: u8)
        requires
            x < NUM_REGS,
            y < NUM_REGS,
        ensures
            final(self)@ == effect(old(self)@, Instruction::Or(x, y), 0),
    {
        self.mem.v_regs[x as usize] = self.mem.v_regs[x as usize] | self.mem.v_regs[y as usize];
        self.advance(false);
    }

    fn and(&mut self, x: u8, y: u8)
        requires
            x < NUM_REGS,
            y < NUM_REGS,
        ensures
            final(self)@ == effect(old(self)@, Instruction::And(x, y), 0),
    {
        self.mem.v_regs[x as usize] = self.mem.v_regs[x as usize] & self.mem.v_regs[y as usize];
        self.advance(false);
    }

    fn xor(&mut self, x: u8, y: u8)
        requires
            x < NUM_REGS,
            y < NUM_REGS,
        ensures
            final(self)@ == effect(old(self)@, Instruction::Xor(x, y), 0),
    {
        self.mem.v_regs[x as usize] = self.mem.v_regs[x as usize] ^ self.mem.v_regs[y as usize];
        self.advance(false);
    }

    /// Writes an arithmetic result and its flag: the flag first, `Vx` last.
    fn write_with_flag(&mut self, x: u8, value: u8, flag: bool)
        requires
            x < NUM_REGS,
        ensures
            final(self)@ == (MachineState {
                v: with_flag(old(self)@, x, value, flag),
                ..old(self)@
            }),
    {
        self.mem.v_regs[FLAG_REG] = if flag { 1 } else { 0 };
        self.mem.v_regs[x as usize] = value;
    }

    fn addr(&mut self, x: u8, y: u8)
        requires
            x < NUM_REGS,
            y < NUM_REGS,
        ensures
            final(self)@ == effect(old(self)@, Instruction::Addr(x, y), 0),
    {
        let a = self.mem.v_regs[x as usize] as u16;
        let b = self.mem.v_regs[y as usize] as u16;
        self.write_with_flag(x, ((a + b) % 256) as u8, a + b > 255);
        self.advance(false);
    }

    fn subr(&mut self, x: u8, y: u8)
        requires
            x < NUM_REGS,
            y < NUM_REGS,
        ensures
            final(self)@ == effect(old(self)@, Instruction::Subr(x, y), 0),
    {
        let a = self.mem.v_regs[x as usize] as u16;
        let b = self.mem.v_regs[y as usize] as u16;
        self.write_with_flag(x, ((a + 256 - b) % 256) as u8, a >= b);
        self.advance(false);
    }

    fn subn(&mut self, x: u8, y: u8)
        requires
            x < NUM_REGS,
            y < NUM_REGS,
        ensures
            final(self)@ == effect(old(self)@, Instruction::Subn(x, y), 0),
    {
        let a = self.mem.v_regs[x as usize] as u16;
        let b = self.mem.v_regs[y as usize] as u16;
        self.write_with_flag(x, ((b + 256 - a) % 256) as u8, b >= a);
        self.advance(false);
    }

    fn shr(&mut self, x: u8, y: u8)
        requires
            x < NUM_REGS,
            y < NUM_REGS,
        ensures
            final(self)@ == effect(old(self)@, Instruction::Shr(x, y), 0),
    {
        let src = if self.shift_uses_vy {
            self.mem.v_regs[y as usize]
        } else {
            self.mem.v_regs[x as usize]
        };
        self.write_with_flag(x, src >> 1u8, src & 1u8 == 1u8);
        self.advance(false);
    }

    fn shl(&mut self, x: u8, y: u8)
        requires
            x < NUM_REGS,
            y < NUM_REGS,
        ensures
            final(self)@ == effect(old(self)@, Instruction::Shl(x, y), 0),
    {
        let src = if self.shift_uses_vy {
            self.mem.v_regs[y as usize]
        } else {
            self.mem.v_regs[x as usize]
        };
        self.write_with_flag(x, src << 1u8, src & 0x80u8 != 0u8);
        self.advance(false);
    }

    fn ldireg(&mut self, addr: u16)
        ensures
            final(self)@ == effect(old(self)@, Instruction::Ldireg(addr), 0),
    {
        self.mem.i = addr;
        self.advance(false);
    }

    fn jpv(&mut self, addr: u16)
        requires
            addr < 0x1000,
        ensures
            final(self)@ == effect(old(self)@, Instruction::Jpv(addr), 0),
    {
        self.pc = self.mem.v_regs[0] as u16 + addr;
    }

    fn rnd(&mut self, x: u8, kk: u8, random: u8)
        requires
            x < NUM_REGS,
        ensures
            final(self)@ == effect(old(self)@, Instruction::Rnd(x, kk), random),
    {
        self.mem.v_regs[x as usize] = random & kk;
        self.advance(false);
    }

    fn drw(&mut self, x: u8, y: u8, n: u8)
        requires
            x < NUM_REGS,
            y < NUM_REGS,
            n < 16,
            fault_spec(old(self)@, Instruction::Drw(x, y, n)) is None,
        ensures
            final(self)@ == effect(old(self)@, Instruction::Drw(x, y, n), 0),
    {
        let base = self.mem.i as usize;
        let mut lines: Vec<u8> = Vec::new();
        let mut k: usize = 0;
        while k < n as usize
            invariant
                k <= n,
                base + n <= MEM_SIZE,
                base == self.mem.i,
                lines@ == self.mem.mem@.subrange(base as int, base + k),
            decreases n - k,
        {
            lines.push(self.mem.mem[base + k]);
            assert(lines@ =~= self.mem.mem@.subrange(base as int, base + k + 1));
            k = k + 1;
        }
        let vx = self.mem.v_regs[x as usize];
        let vy = self.mem.v_regs[y as usize];
        let sprite = Sprite::new(lines, vx as i32, vy as i32);
        self.disp.push_sprite(sprite, &mut self.mem);
        self.advance(false);
    }

    fn skp(&mut self, x: u8)
        requires
            x < NUM_REGS,
            fault_spec(old(self)@, Instruction::Skp(x)) is None,
        ensures
            final(self)@ == effect(old(self)@, Instruction::Skp(x), 0),
    {
        let c = self.input.is_down(self.mem.v_regs[x as usize]);
        self.advance(c);
    }

    fn sknp(&mut self, x: u8)
        requires
            x < NUM_REGS,
            fault_spec(old(self)@, Instruction::Sknp(x)) is None,
        ensures
            final(self)@ == effect(old(self)@, Instruction::Sknp(x), 0),
    {
        let c = !self.input.is_down(self.mem.v_regs[x as usize]);
        self.advance(c);
    }

    fn ldd(&mut self, x: u8)
        requires
            x < NUM_REGS,
        ensures
            final(self)@ == effect(old(self)@, Instruction::Ldd(x), 0),
    {
        self.mem.v_regs[x as usize] = self.sound.dt;
        self.advance(false);
    }

    /// Waits for a key press: the first execution starts waiting and forgets
    /// earlier presses; later ones complete once a key has gone down.
    fn ldk(&mut self, x: u8)
        requires
            x < NUM_REGS,
        ensures
            final(self)@ == effect(old(self)@, Instruction::Ldk(x), 0),
    {
        if self.waiting_for_key && self.input.new_press {
            self.mem.v_regs[x as usize] = self.input.last_key;
            self.waiting_for_key = false;
            self.input.new_press = false;
            self.advance(false);
        } else if !self.waiting_for_key {
            self.waiting_for_key = true;
            self.input.new_press = false;
        }
    }

    fn sd(&mut self, x: u8)
        requires
            x < NUM_REGS,
        ensures
            final(self)@ == effect(old(self)@, Instruction::Sd(x), 0),
    {
        self.sound.set_delay(self.mem.v_regs[x as usize]);
        self.advance(false);
    }

    fn ss(&mut self, x: u8)
        requires
            x < NUM_REGS,
        ensures
            final(self)@ == effect(old(self)@, Instruction::Ss(x), 0),
    {
        self.sound.set_sound(self.mem.v_regs[x as usize]);
        self.advance(false);
    }

    fn addireg(&mut self, x: u8)
        requires
            x < NUM_REGS,
        ensures
            final(self)@ == effect(old(self)@, Instruction::Addireg(x), 0),
    {
        let sum = (self.mem.i as u32 + self.mem.v_regs[x as usize] as u32) % 0x10000;
        self.mem.i = sum as u16;
        self.advance(false);
    }

    fn ldsprite(&mut self, x: u8)
        requires
            x < NUM_REGS,
        ensures
            final(self)@ == effect(old(self)@, Instruction::Ldsprite(x), 0),
    {
        self.mem.i = 5 * (self.mem.v_regs[x as usize] % 16) as u16;
        self.advance(false);
    }

    fn bcd(&mut self, x: u8)
        requires
            x < NUM_REGS,
            fault_spec(old(self)@, Instruction::Bcd(x)) is None,
        ensures
            final(self)@ == effect(old(self)@, Instruction::Bcd(x), 0),
    {
        let value = self.mem.v_regs[x as usize];
        let at = self.mem.i as usize;
        self.mem.mem[at] = value / 100;
        self.mem.mem[at + 1] = (value / 10) % 10;
        self.mem.mem[at + 2] = value % 10;
        self.advance(false);
    }

    fn stseq(&mut self, x: u8)
        requires
            x < NUM_REGS,
            fault_spec(old(self)@, Instruction::Stseq(x)) is None,
        ensures
            final(self)@ == effect(old(self)@, Instruction::Stseq(x), 0),
    {
        let ghost s = self@;
        let base = self.mem.i as usize;
        let mut r: usize = 0;
        assert(s.ram =~= Seq::new(
            s.ram.len(),
            |a: int|
                if base <= a < base + 0 {
                    s.v[a - base]
                } else {
                    s.ram[a]
                },
        ));
        while r <= x as usize
            invariant
                x < NUM_REGS,
                r <= x + 1,
                base == s.i,
                base + x + 1 <= MEM_SIZE,
                self@ == (MachineState {
                    ram: Seq::new(
                        s.ram.len(),
                        |a: int|
                            if base <= a < base + r {
                                s.v[a - base]
                            } else {
                                s.ram[a]
                            },
                    ),
                    ..s
                }),
            decreases x + 1 - r,
        {
            self.mem.mem[base + r] = self.mem.v_regs[r];
            proof {
                let r1 = (r + 1) as int;
                assert(self.mem.mem@ =~= Seq::new(
                    s.ram.len(),
                    |a: int|
                        if base <= a < base + r1 {
                            s.v[a - base]
                        } else {
                            s.ram[a]
                        },
                ));
            }
            r = r + 1;
        }
        assert(self.mem.mem@ =~= effect(s, Instruction::Stseq(x), 0).ram);
        self.advance(false);
    }

    fn ldseq(&mut self, x: u8)
        requires
            x < NUM_REGS,
            fault_spec(old(self)@, Instruction::Ldseq(x)) is None,
        ensures
            final(self)@ == effect(old(self)@, Instruction::Ldseq(x), 0),
    {
        let ghost s = self@;
        let base = self.mem.i as usize;
        let mut r: usize = 0;
        assert(s.v =~= Seq::new(
            s.v.len(),
            |q: int|
                if q < 0 {
                    s.ram[base + q]
                } else {
                    s.v[q]
                },
        ));
        while r <= x as usize
            invariant
                x < NUM_REGS,
                r <= x + 1,
                base == s.i,
                base + x + 1 <= MEM_SIZE,
                self@ == (MachineState {
                    v: Seq::new(
                        s.v.len(),
                        |q: int|
                            if q < r {
                                s.ram[base + q]
                            } else {
                                s.v[q]
                            },
                    ),
                    ..s
                }),
            decreases x + 1 - r,
        {
            self.mem.v_regs[r] = self.mem.mem[base + r];
            proof {
                let r1 = (r + 1) as int;
                assert(self.mem.v_regs@ =~= Seq::new(
                    s.v.len(),
                    |q: int|
                        if q < r1 {
                            s.ram[base + q]
                        } else {
                            s.v[q]
                        },
                ));
            }
            r = r + 1;
        }
        assert(self.mem.v_regs@ =~= effect(s, Instruction::Ldseq(x), 0).v);
        self.advance(false);
    }

    /// Stops execution on `fault` at instruction word `op`.
    fn bad_op(&mut self, op: u16, fault: Fault)
        ensures
            final(self)@ == crashed(old(self)@, fault, op),
            final(self).mem == old(self).mem,
    {
        self.crash = Some(Crash { fault, op, pc: self.pc });
    }

    /// The fault, if any, that executing `ins` now would raise.
    fn fault_of(&self, ins: Instruction) -> (r: Option<Fault>)
        requires
            ins.wf(),
        ensures
            r == fault_spec(self@, ins),
    {
        let i = self.mem.i as usize;
        match ins {
            Instruction::Ret => if self.mem.sp == 0 {
                Some(Fault::StackUnderflow)
            } else {
                None
            },
            Instruction::Call(_) => if self.mem.sp as usize >= NUM_REGS {
                Some(Fault::StackOverflow)
            } else {
                None
            },
            Instruction::Drw(_, _, n) => if i + n as usize > MEM_SIZE {
                Some(Fault::AddressOutOfRange)
            } else {
                None
            },
            Instruction::Skp(x) | Instruction::Sknp(x) => if self.mem.v_regs[x as usize]
                >= NUM_KEYS as u8 {
                Some(Fault::AddressOutOfRange)
            } else {
                None
            },
            Instruction::Bcd(_) => if i + 3 > MEM_SIZE {
                Some(Fault::AddressOutOfRange)
            } else {
                None
            },
            Instruction::Stseq(x) | Instruction::Ldseq(x) => if i + x as usize + 1 > MEM_SIZE {
                Some(Fault::AddressOutOfRange)
            } else {
                None
            },
            _ => None,
        }
    }

    /// Executes instruction word `op`; `random` is the byte that the random
    /// instruction draws. An unknown word, a stack overflow or underflow, or
    /// an access outside memory or the keypad stops execution instead,
    /// leaving the rest of the machine as it was. A machine that has stopped
    /// stays as it is.
    pub fn execute_op(&mut self, op: u16, random: u8)
        requires
            old(self).wf(),
        ensures
            final(self).wf(),
            final(self)@ == execute_spec(old(self)@, op, random),
    {
        match self.crash {
            Some(_) => {
                return;
            },
            None => {},
        }
        let ins = match decode(op) {
            None => {
                self.bad_op(op, Fault::BadOpcode);
                return;
            },
            Some(ins) => ins,
        };
        match self.fault_of(ins) {
            Some(fault) => {
                self.bad_op(op, fault);
                return;
            },
            None => {},
        }
        match ins {
            Instruction::Cls => self.cls(),
            Instruction::Ret => self.ret(),
            Instruction::Jp(a) => self.jp(a),
            Instruction::Call(a) => self.call(a),
            Instruction::Sei(x, kk) => self.sei(x, kk),
            Instruction::Snei(x, kk) => self.snei(x, kk),
            Instruction::Ser(x, y) => self.ser(x, y),
            Instruction::Ldi(x, kk) => self.ldi(x, kk),
            Instruction::Addi(x, kk) => self.addi(x, kk),
            Instruction::Ldr(x, y) => self.ldr(x, y),
            Instruction::Or(x, y) => self.or(x, y),
            Instruction::And(x, y) => self.and(x, y),
            Instruction::Xor(x, y) => self.xor(x, y),
            Instruction::Addr(x, y) => self.addr(x, y),
            Instruction::Subr(x, y) => self.subr(x, y),
            Instruction::Shr(x, y) => self.shr(x, y),
            Instruction::Subn(x, y) => self.subn(x, y),
            Instruction::Shl(x, y) => self.shl(x, y),
            Instruction::Sner(x, y) => self.sner(x, y),
            Instruction::Ldireg(a) => self.ldireg(a),
            Instruction::Jpv(a) => self.jpv(a),
            Instruction::Rnd(x, kk) => self.rnd(x, kk, random),
            Instruction::Drw(x, y, n) => self.drw(x, y, n),
            Instruction::Skp(x) => self.skp(x),
            Instruction::Sknp(x) => self.sknp(x),
            Instruction::Ldd(x) => self.ldd(x),
            Instruction::Ldk(x) => self.ldk(x),
            Instruction::Sd(x) => self.sd(x),
            Instruction::Ss(x) => self.ss(x),
            Instruction::Addireg(x) => self.addireg(x),
            Instruction::Ldsprite(x) => self.ldsprite(x),
            Instruction::Bcd(x) => self.bcd(x),
            Instruction::Stseq(x) => self.stseq(x),
            Instruction::Ldseq(x) => self.ldseq(x),
        }
    }

    /// Executes instruction word `op` with a byte drawn from the random
    /// source for the random instruction.
    pub fn decode_and_execute(&mut self, op: u16)
        requires
            old(self).wf(),
        ensures
            final(self).wf(),
            exists|random: u8| final(self)@ == execute_spec(old(self)@, op, random),
    {
        let random = random_byte();
        self.execute_op(op, random);
    }

    /// One cycle with `random` as the random source's byte: unless execution
    /// has stopped, fetches the instruction word at the program counter
    /// (stopping if it does not lie in memory), executes it, and paces the
    /// timers.
    pub fn cycle_with(&mut self, random: u8)
        requires
            old(self).wf(),
        ensures
            final(self).wf(),
            final(self)@ == cycle_spec(old(self)@, random),
    {
        match self.crash {
            Some(_) => {
                return;
            },
            None => {},
        }
        if self.pc as usize + 1 >= MEM_SIZE {
            self.bad_op(0, Fault::AddressOutOfRange);
            return;
        }
        let op = self.fetch();
        self.execute_op(op, random);
        self.sound.tick(self.freq);
    }

    /// One cycle with a byte drawn from the random source.
    pub fn cycle(&mut self)
        requires
            old(self).wf(),
        ensures
            final(self).wf(),
            exists|random: u8| final(self)@ == cycle_spec(old(self)@, random),
    {
        let random = random_byte();
        self.cycle_with(random);
    }

    /// Least time, in nanoseconds, between the starts of two cycles at the
    /// instruction rate.
    pub fn cycle_period_ns(&self) -> (r: u64)
        requires
            self.freq > 0,
        ensures
            r == 1_000_000_000int / (self.freq as int),
    {
        1_000_000_000u64 / self.freq as u64
    }

    /// Whether execution has stopped on a fault.
    pub fn crashed(&self) -> (r: bool)
        ensures
            r == (self.crash is Some),
    {
        match self.crash {
            Some(_) => true,
            None => false,
        }
    }
}

/// Relies on `rand::random::<u8>`, which draws a byte from the thread-local
/// generator; nothing is known of its value.
#[verifier::external_body]
fn random_byte() -> (r: u8) {
    rand::random::<u8>()
}

/// The state of a well-formed machine has the machine's sizes, so the laws
/// below apply to it.
pub proof fn lemma_view_wf(cpu: &CPU)
    requires
        cpu.wf(),
    ensures
        cpu@.wf(),
{
}

/// The word of `LD Vx, kk`.
pub open spec fn ld_word(x: u8, kk: u8) -> u16 {
    (0x6000 + x * 256 + kk) as u16
}

/// The word of `ADD Vx, Vy`.
pub open spec fn add_word(x: u8, y: u8) -> u16 {
    (0x8004 + x * 256 + y * 16) as u16
}

/// The word of `SUB Vx, Vy`.
pub open spec fn sub_word(x: u8, y: u8) -> u16 {
    (0x8005 + x * 256 + y * 16) as u16
}

/// On a running machine, loading an immediate into a register and reading
/// the register back yields the immediate.
pub proof fn lemma_load_round_trip(s: MachineState, r: u8, kk: u8, random: u8)
    requires
        s.wf(),
        s.crash is None,
        r < 16,
    ensures
        execute_spec(s, ld_word(r, kk), random).v[r as int] == kk,
        execute_spec(s, ld_word(r, kk), random).crash is None,
        execute_spec(s, ld_word(r, kk), random).v == s.v.update(r as int, kk),
        execute_spec(s, ld_word(r, kk), random).pc == next_pc(s, false),
{
    lemma_word_fields(ld_word(r, kk), 6, r as u16, (kk / 16) as u16, (kk % 16) as u16);
}

/// On a running machine, loading `a` into Vx and `b` into Vy and adding Vy to Vx leaves
/// `(a + b) mod 256` in Vx and sets VF exactly when `a + b > 255`.
pub proof fn lemma_add_carry(s: MachineState, x: u8, y: u8, a: u8, b: u8, r1: u8, r2: u8, r3: u8)
    requires
        s.wf(),
        s.crash is None,
        x < 15,
        y < 16,
        x != y,
    ensures
        ({
            let s1 = execute_spec(s, ld_word(x, a), r1);
            let s2 = execute_spec(s1, ld_word(y, b), r2);
            let s3 = execute_spec(s2, add_word(x, y), r3);
            &&& s3.v[x as int] == (a + b) % 256
            &&& s3.v[15] == (if a + b > 255 { 1u8 } else { 0u8 })
            &&& s3.crash is None
        }),
{
    lemma_word_fields(ld_word(x, a), 6, x as u16, (a / 16) as u16, (a % 16) as u16);
    lemma_word_fields(ld_word(y, b), 6, y as u16, (b / 16) as u16, (b % 16) as u16);
    lemma_word_fields(add_word(x, y), 8, x as u16, y as u16, 4);
    let s1 = execute_spec(s, ld_word(x, a), r1);
    let s2 = execute_spec(s1, ld_word(y, b), r2);
    assert(s1 == effect(s, Instruction::Ldi(x, a), r1));
    assert(s2 == effect(s1, Instruction::Ldi(y, b), r2));
    assert(s2.v[x as int] == a && s2.v[y as int] == b && s2.v.len() == 16 && s2.crash is None);
    assert(execute_spec(s2, add_word(x, y), r3) == effect(s2, Instruction::Addr(x, y), r3));
}

/// On a running machine, loading `a` into Vx and `b` into Vy and subtracting Vy from Vx leaves
/// `(a - b) mod 256` in Vx and sets VF exactly when `a >= b`.
pub proof fn lemma_sub_borrow(s: MachineState, x: u8, y: u8, a: u8, b: u8, r1: u8, r2: u8, r3: u8)
    requires
        s.wf(),
        s.crash is None,
        x < 15,
        y < 16,
        x != y,
    ensures
        ({
            let s1 = execute_spec(s, ld_word(x, a), r1);
            let s2 = execute_spec(s1, ld_word(y, b), r2);
            let s3 = execute_spec(s2, sub_word(x, y), r3);
            &&& s3.v[x as int] == (a - b + 256) % 256
            &&& s3.v[15] == (if a >= b { 1u8 } else { 0u8 })
            &&& s3.crash is None
        }),
{
    lemma_word_fields(ld_word(x, a), 6, x as u16, (a / 16) as u16, (a % 16) as u16);
    lemma_word_fields(ld_word(y, b), 6, y as u16, (b / 16) as u16, (b % 16) as u16);
    lemma_word_fields(sub_word(x, y), 8, x as u16, y as u16, 5);
    let s1 = execute_spec(s, ld_word(x, a), r1);
    let s2 = execute_spec(s1, ld_word(y, b), r2);
    assert(s1 == effect(s, Instruction::Ldi(x, a), r1));
    assert(s2 == effect(s1, Instruction::Ldi(y, b), r2));
    assert(s2.v[x as int] == a && s2.v[y as int] == b && s2.v.len() == 16 && s2.crash is None);
    assert(execute_spec(s2, sub_word(x, y), r3) == effect(s2, Instruction::Subr(x, y), r3));
}

} // verus!
