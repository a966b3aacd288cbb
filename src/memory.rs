use vstd::prelude::*;
use crate::rom::ROM;

verus! {

/// Number of addressable bytes.
pub const MEM_SIZE: usize = 4096;

/// Address at which the program image starts.
pub const PROGRAM_BASE: usize = 512;

/// Number of bytes of the built-in font (sixteen glyphs of five rows).
pub const FONT_SIZE: usize = 80;

/// Largest program image that fits between the program base and the end of memory.
pub const MAX_PROGRAM: usize = 3584;

/// Number of general registers, and of call stack slots.
pub const NUM_REGS: usize = 16;

/// The built-in hexadecimal font: glyph `d` occupies bytes `5 * d .. 5 * d + 5`.
pub open spec fn font_spec() -> Seq<u8> {
    seq![
        0xF0u8, 0x90, 0x90, 0x90, 0xF0, 0x20, 0x60, 0x20, 0x20, 0x70,
        0xF0, 0x10, 0xF0, 0x80, 0xF0, 0xF0, 0x10, 0xF0, 0x10, 0xF0,
        0x90, 0x90, 0xF0, 0x10, 0x10, 0xF0, 0x80, 0xF0, 0x10, 0xF0,
        0xF0, 0x80, 0xF0, 0x90, 0xF0, 0xF0, 0x10, 0x20, 0x40, 0x40,
        0xF0, 0x90, 0xF0, 0x90, 0xF0, 0xF0, 0x90, 0xF0, 0x10, 0xF0,
        0xF0, 0x90, 0xF0, 0x90, 0x90, 0xE0, 0x90, 0xE0, 0x90, 0xE0,
        0xF0, 0x80, 0x80, 0x80, 0xF0, 0xE0, 0x90, 0x90, 0x90, 0xE0,
        0xF0, 0x80, 0xF0, 0x80, 0xF0, 0xF0, 0x80, 0xF0, 0x80, 0x80,
    ]
}

/// Memory image after loading: the font at the bottom, the program at the
/// program base, and every other byte as it was.
pub open spec fn loaded_spec(before: Seq<u8>, program: Seq<u8>) -> Seq<u8> {
    Seq::new(
        before.len(),
        |a: int|
            if a < FONT_SIZE {
                font_spec()[a]
            } else if PROGRAM_BASE <= a < PROGRAM_BASE + program.len() {
                program[a - PROGRAM_BASE]
            } else {
                before[a]
            },
    )
}

/// Flat memory, general registers, index register and call stack.
///
/// The stack pointer counts the pending calls: slots `0 .. sp` hold their
/// return addresses, oldest first, so up to sixteen calls can be pending.
pub struct Memory {
    pub mem: [u8; 4096],
    pub v_regs: [u8; 16],
    pub i: u16,
    pub sp: u8,
    pub stack: [u16; 16],
}

impl Memory {
    /// No more calls are pending than the stack has slots.
    pub open spec fn wf(&self) -> bool {
        self.sp <= NUM_REGS
    }

    /// All-zero memory, registers and stack.
    pub fn new() -> (r: Memory)
        ensures
            r.wf(),
            forall|a: int| 0 <= a < MEM_SIZE ==> r.mem@[a] == 0,
            forall|k: int| 0 <= k < NUM_REGS ==> r.v_regs@[k] == 0 && r.stack@[k] == 0,
            r.i == 0,
            r.sp == 0,
    {
        Memory { mem: [0u8; 4096], v_regs: [0u8; 16], i: 0, sp: 0, stack: [0u16; 16] }
    }

    /// Writes the built-in font at address 0 and copies the program image
    /// verbatim from the program base on.
    pub fn init(&mut self, rom: &ROM)
        requires
            rom.buffer@.len() <= MAX_PROGRAM,
        ensures
            final(self).mem@ == loaded_spec(old(self).mem@, rom.buffer@),
            final(self).v_regs == old(self).v_regs,
            final(self).i == old(self).i,
            final(self).sp == old(self).sp,
            final(self).stack == old(self).stack,
    {
        let font: [u8; 80] = [
            0xF0, 0x90, 0x90, 0x90, 0xF0, 0x20, 0x60, 0x20, 0x20, 0x70,
            0xF0, 0x10, 0xF0, 0x80, 0xF0, 0xF0, 0x10, 0xF0, 0x10, 0xF0,
            0x90, 0x90, 0xF0, 0x10, 0x10, 0xF0, 0x80, 0xF0, 0x10, 0xF0,
            0xF0, 0x80, 0xF0, 0x90, 0xF0, 0xF0, 0x10, 0x20, 0x40, 0x40,
            0xF0, 0x90, 0xF0, 0x90, 0xF0, 0xF0, 0x90, 0xF0, 0x10, 0xF0,
            0xF0, 0x90, 0xF0, 0x90, 0x90, 0xE0, 0x90, 0xE0, 0x90, 0xE0,
            0xF0, 0x80, 0x80, 0x80, 0xF0, 0xE0, 0x90, 0x90, 0x90, 0xE0,
            0xF0, 0x80, 0xF0, 0x80, 0xF0, 0xF0, 0x80, 0xF0, 0x80, 0x80,
        ];
        assert(font@ =~= font_spec());
        let ghost before = self.mem@;
        let n = rom.buffer.len();
        let mut k: usize = 0;
        while k < n
            invariant
                k <= n,
                n == rom.buffer@.len(),
                n <= MAX_PROGRAM,
                self.v_regs == old(self).v_regs,
                self.i == old(self).i,
                self.sp == old(self).sp,
                self.stack == old(self).stack,
                forall|a: int|
                    0 <= a < MEM_SIZE ==> self.mem@[a] == (if PROGRAM_BASE <= a < PROGRAM_BASE + k {
                        rom.buffer@[a - PROGRAM_BASE]
                    } else {
                        before[a]
                    }),
            decreases n - k,
        {
            self.mem[PROGRAM_BASE + k] = rom.buffer[k];
            k = k + 1;
        }
        let mut f: usize = 0;
        while f < FONT_SIZE
            invariant
                f <= FONT_SIZE,
                font@ == font_spec(),
                n == rom.buffer@.len(),
                n <= MAX_PROGRAM,
                self.v_regs == old(self).v_regs,
                self.i == old(self).i,
                self.sp == old(self).sp,
                self.stack == old(self).stack,
                forall|a: int|
                    0 <= a < MEM_SIZE ==> self.mem@[a] == (if a < f {
                        font_spec()[a]
                    } else if PROGRAM_BASE <= a < PROGRAM_BASE + n {
                        rom.buffer@[a - PROGRAM_BASE]
                    } else {
                        before[a]
                    }),
            decreases FONT_SIZE - f,
        {
            self.mem[f] = font[f];
            f = f + 1;
        }
        assert(self.mem@ =~= loaded_spec(before, rom.buffer@));
    }
}

} // verus!
