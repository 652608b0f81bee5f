use vstd::prelude::*;

use crate::binary_parser::{copy_binary_to_memory, LoadError};
use crate::chip8_display::CHIP8Display;
use crate::model::{
    blank_video, decode, execute, handled, initial_state, step, written_at, Chip8State, Fault,
    Outcome, FLAG_REGISTER, LAST_ADDRESS, MEMORY_SIZE, PROGRAM_START, REGISTER_COUNT, STACK_DEPTH,
};

verus! {

/// Relies on rand::random: one byte drawn from the thread-local generator.
/// Nothing is known of its value.
#[verifier::external_body]
fn random_byte() -> u8 {
    rand::random::<u8>()
}

/// A timer value after one tick: one less, stopping at zero.
pub open spec fn count_down(t: u8) -> u8 {
    if t > 0 {
        (t - 1) as u8
    } else {
        0
    }
}

/// A CHIP-8 machine that shows its framebuffer on `display`.
pub struct CHIP8<'a, D: CHIP8Display> {
    v: [u8; 16],
    i: u16,
    stack: [usize; 16],
    sp: usize,
    delay_timer: u8,
    sound_timer: u8,
    ram: Vec<u8>,
    ca: usize,
    video_memory: [[u8; 4]; 8],
    display: &'a mut D,
}

impl<'a, D: CHIP8Display> View for CHIP8<'a, D> {
    type V = Chip8State;

    closed spec fn view(&self) -> Chip8State {
        Chip8State {
            v: self.v@,
            i: self.i,
            stack: self.stack@,
            sp: self.sp,
            delay_timer: self.delay_timer,
            sound_timer: self.sound_timer,
            ram: self.ram@,
            ca: self.ca,
            video: self.video_memory@.map_values(|row: [u8; 4]| row@),
        }
    }
}

impl<'a, D: CHIP8Display> CHIP8<'a, D> {
    pub open spec fn wf(&self) -> bool {
        self@.wf()
    }

    /// A machine with every register, timer, stack slot and memory byte zero,
    /// a blank screen, and `ca` at the program start.
    pub fn new(display: &'a mut D) -> (r: Self)
        ensures
            r.wf(),
            r@ == initial_state(),
    {
        let r = CHIP8 {
            v: [0u8; 16],
            i: 0,
            stack: [0usize; 16],
            sp: 0,
            delay_timer: 0,
            sound_timer: 0,
            ram: vec![0u8; MEMORY_SIZE],
            ca: PROGRAM_START,
            video_memory: [[0u8; 4]; 8],
            display,
        };
        proof {
            assert(r@.v =~= initial_state().v);
            assert(r@.stack =~= initial_state().stack);
            assert(r@.ram =~= initial_state().ram);
            assert(r@.video =~~= blank_video());
        }
        r
    }

    /// Places `memory_slice` in memory from the program start on, then clears
    /// the display and paints the framebuffer. A program that does not fit
    /// is refused and nothing changes.
    pub fn load_from_memory(&mut self, memory_slice: &[u8]) -> (r: Result<(), LoadError>)
        requires
            old(self).wf(),
        ensures
            final(self).wf(),
            r is Ok <==> memory_slice@.len() <= MEMORY_SIZE - PROGRAM_START,
            r is Ok ==> final(self)@ == (Chip8State {
                ram: written_at(old(self)@.ram, memory_slice@, PROGRAM_START as int),
                ..old(self)@
            }),
            r is Err ==> final(self)@ == old(self)@,
    {
        let r = copy_binary_to_memory(memory_slice, self.ram.as_mut_slice(), PROGRAM_START);
        if r.is_ok() {
            self.display.clear();
            self.display.update(&self.video_memory);
        }
        r
    }

    /// Address of the next instruction to run.
    pub fn ca(&self) -> (r: usize)
        ensures
            r == self@.ca,
    {
        self.ca
    }

    /// The value of register `Vx`.
    pub fn register(&self, x: usize) -> (r: u8)
        requires
            self.wf(),
            x < REGISTER_COUNT,
        ensures
            r == self@.v[x as int],
    {
        self.v[x]
    }

    /// The memory byte at `address`.
    pub fn ram_byte(&self, address: usize) -> (r: u8)
        requires
            self.wf(),
            address < MEMORY_SIZE,
        ensures
            r == self@.ram[address as int],
    {
        self.ram[address]
    }

    /// The index register `I`.
    pub fn index(&self) -> (r: u16)
        ensures
            r == self@.i,
    {
        self.i
    }

    /// The number of return addresses on the stack.
    pub fn stack_pointer(&self) -> (r: usize)
        ensures
            r == self@.sp,
    {
        self.sp
    }

    pub fn delay_timer(&self) -> (r: u8)
        ensures
            r == self@.delay_timer,
    {
        self.delay_timer
    }

    pub fn sound_timer(&self) -> (r: u8)
        ensures
            r == self@.sound_timer,
    {
        self.sound_timer
    }

    /// A copy of the framebuffer.
    pub fn video_memory(&self) -> (r: [[u8; 4]; 8])
        ensures
            r@.map_values(|row: [u8; 4]| row@) == self@.video,
    {
        self.video_memory
    }

    /// Counts both timers down by one, stopping at zero.
    pub fn tick_timers(&mut self)
        requires
            old(self).wf(),
        ensures
            final(self).wf(),
            final(self)@ == (Chip8State {
                delay_timer: count_down(old(self)@.delay_timer),
                sound_timer: count_down(old(self)@.sound_timer),
                ..old(self)@
            }),
    {
        if self.delay_timer > 0 {
            self.delay_timer = self.delay_timer - 1;
        }
        if self.sound_timer > 0 {
            self.sound_timer = self.sound_timer - 1;
        }
    }

    /// Runs the instruction at `ca`, drawing a byte from the random source
    /// when the instruction asks for one.
    pub fn execute_opcode(&mut self) -> (r: Outcome)
        requires
            old(self).wf(),
        ensures
            final(self).wf(),
            exists|random: u8| (final(self)@, r) == step(old(self)@, random),
            old(self)@.can_fetch() ==> final(self)@.ca != old(self)@.ca,
            !(old(self)@.can_fetch() && old(self)@.b0() / 16 == 0xC) ==> (final(self)@, r) == step(
                old(self)@,
                0,
            ),
    {
        let random = if self.ca < MEMORY_SIZE - 1 && self.ram[self.ca] / 16 == 0xC {
            random_byte()
        } else {
            0
        };
        let r = self.execute_opcode_with(random);
        proof {
            assert((self@, r) == step(old(self)@, random));
        }
        r
    }

    /// Runs the instruction at `ca`, with `random` as the byte a random load
    /// receives.
    pub fn execute_opcode_with(&mut self, random: u8) -> (r: Outcome)
        requires
            old(self).wf(),
        ensures
            final(self).wf(),
            (final(self)@, r) == step(old(self)@, random),
    {
        if self.ca >= MEMORY_SIZE - 1 {
            return Outcome::Halted { address: self.ca };
        }
        let b0 = self.ram[self.ca];
        let b1 = self.ram[self.ca + 1];
        let class = b0 / 16;
        let result = if class == 0x0 {
            self.execute_0_opcode(b0, b1)
        } else if class == 0x1 {
            self.execute_1_opcode(b0, b1)
        } else if class == 0x2 {
            self.execute_2_opcode(b0, b1)
        } else if class == 0x3 {
            self.execute_3_opcode(b0, b1)
        } else if class == 0x4 {
            self.execute_4_opcode(b0, b1)
        } else if class == 0x5 {
            self.execute_5_opcode(b0, b1)
        } else if class == 0x6 {
            self.execute_6_opcode(b0, b1)
        } else if class == 0x7 {
            self.execute_7_opcode(b0, b1)
        } else if class == 0x8 {
            self.execute_8_opcode(b0, b1)
        } else if class == 0x9 {
            self.execute_9_opcode(b0, b1)
        } else if class == 0xA {
            self.execute_a_opcode(b0, b1)
        } else if class == 0xB {
            self.execute_b_opcode(b0, b1)
        } else if class == 0xC {
            self.execute_c_opcode(b0, b1, random)
        } else if class == 0xD {
            self.execute_d_opcode(b0, b1)
        } else if class == 0xE {
            self.execute_e_opcode(b0, b1)
        } else {
            self.execute_f_opcode(b0, b1)
        };
        match result {
            Ok(next) => {
                self.ca = next;
                Outcome::Executed
            },
            Err(fault) => {
                let address = self.ca;
                self.ca = self.ca + 2;
                Outcome::Skipped { opcode: (b0 as u16) * 256 + (b1 as u16), address, fault }
            },
        }
    }

    /// Clear screen, return, and the machine-code calls left unimplemented.
    fn execute_0_opcode(&mut self, b0: u8, b1: u8) -> (r: Result<usize, Fault>)
        requires
            old(self).wf(),
            old(self)@.can_fetch(),
            b0 / 16 == 0x0,
        ensures
            final(self).wf(),
            handled(old(self)@, final(self)@, r, execute(old(self)@, decode(b0, b1), 0)),
    {
        if b0 % 16 != 0 {
            return Err(Fault::NotImplemented);
        }
        if b1 == 0xE0 {
            self.video_memory = [[0u8; 4]; 8];
            self.display.clear();
            proof {
                assert(self@.video =~~= blank_video());
            }
            Ok(self.ca + 2)
        } else if b1 == 0xEE {
            if self.sp == 0 {
                return Err(Fault::StackUnderflow);
            }
            let target = self.stack[self.sp - 1] + 2;
            if target == self.ca {
                return Err(Fault::EndlessLoop);
            }
            self.sp = self.sp - 1;
            Ok(target)
        } else {
            Err(Fault::IllegalOpcode)
        }
    }

    /// Where a jump to `target` lands, or why it is refused.
    fn jump_target(&self, target: usize) -> (r: Result<usize, Fault>)
        requires
            self.wf(),
        ensures
            handled(self@, self@, r, self@.jump(target as int)),
    {
        if target >= MEMORY_SIZE {
            Err(Fault::JumpOutsideMemory)
        } else if target == self.ca {
            Err(Fault::EndlessLoop)
        } else {
            Ok(target)
        }
    }

    /// Jump to `nnn`.
    fn execute_1_opcode(&mut self, b0: u8, b1: u8) -> (r: Result<usize, Fault>)
        requires
            old(self).wf(),
            old(self)@.can_fetch(),
            b0 / 16 == 0x1,
        ensures
            final(self).wf(),
            handled(old(self)@, final(self)@, r, execute(old(self)@, decode(b0, b1), 0)),
    {
        let address = ((b0 % 16) as usize) * 256 + (b1 as usize);
        self.jump_target(address)
    }

    /// Call the subroutine at `nnn`.
    fn execute_2_opcode(&mut self, b0: u8, b1: u8) -> (r: Result<usize, Fault>)
        requires
            old(self).wf(),
            old(self)@.can_fetch(),
            b0 / 16 == 0x2,
        ensures
            final(self).wf(),
            handled(old(self)@, final(self)@, r, execute(old(self)@, decode(b0, b1), 0)),
    {
        let address = ((b0 % 16) as usize) * 256 + (b1 as usize);
        if address == self.ca {
            return Err(Fault::EndlessLoop);
        }
        if self.sp >= STACK_DEPTH {
            return Err(Fault::StackOverflow);
        }
        self.stack[self.sp] = self.ca;
        self.sp = self.sp + 1;
        Ok(address)
    }

    /// Skip if `Vx` equals `kk`.
    fn execute_3_opcode(&mut self, b0: u8, b1: u8) -> (r: Result<usize, Fault>)
        requires
            old(self).wf(),
            old(self)@.can_fetch(),
            b0 / 16 == 0x3,
        ensures
            final(self).wf(),
            handled(old(self)@, final(self)@, r, execute(old(self)@, decode(b0, b1), 0)),
    {
        let x = (b0 % 16) as usize;
        if self.v[x] == b1 {
            Ok(self.ca + 4)
        } else {
            Ok(self.ca + 2)
        }
    }

    /// Skip if `Vx` differs from `kk`.
    fn execute_4_opcode(&mut self, b0: u8, b1: u8) -> (r: Result<usize, Fault>)
        requires
            old(self).wf(),
            old(self)@.can_fetch(),
            b0 / 16 == 0x4,
        ensures
            final(self).wf(),
            handled(old(self)@, final(self)@, r, execute(old(self)@, decode(b0, b1), 0)),
    {
        let x = (b0 % 16) as usize;
        if self.v[x] != b1 {
            Ok(self.ca + 4)
        } else {
            Ok(self.ca + 2)
        }
    }

    /// Skip if `Vx` equals `Vy`; the last nibble must be zero.
    fn execute_5_opcode(&mut self, b0: u8, b1: u8) -> (r: Result<usize, Fault>)
        requires
            old(self).wf(),
            old(self)@.can_fetch(),
            b0 / 16 == 0x5,
        ensures
            final(self).wf(),
            handled(old(self)@, final(self)@, r, execute(old(self)@, decode(b0, b1), 0)),
    {
        if b1 % 16 != 0 {
            return Err(Fault::IllegalOpcode);
        }
        let x = (b0 % 16) as usize;
        let y = (b1 / 16) as usize;
        if self.v[x] == self.v[y] {
            Ok(self.ca + 4)
        } else {
            Ok(self.ca + 2)
        }
    }

    /// `Vx = kk`.
    fn execute_6_opcode(&mut self, b0: u8, b1: u8) -> (r: Result<usize, Fault>)
        requires
            old(self).wf(),
            old(self)@.can_fetch(),
            b0 / 16 == 0x6,
        ensures
            final(self).wf(),
            handled(old(self)@, final(self)@, r, execute(old(self)@, decode(b0, b1), 0)),
    {
        let x = (b0 % 16) as usize;
        self.v[x] = b1;
        Ok(self.ca + 2)
    }

    /// `Vx += kk`, wrapping, with `VF` untouched.
    fn execute_7_opcode(&mut self, b0: u8, b1: u8) -> (r: Result<usize, Fault>)
        requires
            old(self).wf(),
            old(self)@.can_fetch(),
            b0 / 16 == 0x7,
        ensures
            final(self).wf(),
            handled(old(self)@, final(self)@, r, execute(old(self)@, decode(b0, b1), 0)),
    {
        let x = (b0 % 16) as usize;
        self.v[x] = ((self.v[x] as u16 + b1 as u16) % 256) as u8;
        Ok(self.ca + 2)
    }

    /// Register-to-register arithmetic and logic, picked by the last nibble.
    /// Results and flags are computed from the values before any write, and
    /// `VF` is written last.
    fn execute_8_opcode(&mut self, b0: u8, b1: u8) -> (r: Result<usize, Fault>)
        requires
            old(self).wf(),
            old(self)@.can_fetch(),
            b0 / 16 == 0x8,
        ensures
            final(self).wf(),
            handled(old(self)@, final(self)@, r, execute(old(self)@, decode(b0, b1), 0)),
    {
        let n = b1 % 16;
        let x = (b0 % 16) as usize;
        let y = (b1 / 16) as usize;
        let a = self.v[x];
        let b = self.v[y];
        if n == 0x0 {
            self.v[x] = b;
        } else if n == 0x1 {
            self.v[x] = a | b;
        } else if n == 0x2 {
            self.v[x] = a & b;
        } else if n == 0x3 {
            self.v[x] = a ^ b;
        } else if n == 0x4 {
            let sum: u16 = a as u16 + b as u16;
            self.v[x] = (sum % 256) as u8;
            self.v[FLAG_REGISTER] = if sum > 255 {
                1
            } else {
                0
            };
        } else if n == 0x5 {
            self.v[x] = ((a as u16 + 256 - b as u16) % 256) as u8;
            self.v[FLAG_REGISTER] = if a < b {
                0
            } else {
                1
            };
        } else if n == 0x6 {
            self.v[x] = a / 2;
            self.v[FLAG_REGISTER] = a % 2;
        } else if n == 0x7 {
            self.v[x] = ((b as u16 + 256 - a as u16) % 256) as u8;
            self.v[FLAG_REGISTER] = if b < a {
                0
            } else {
                1
            };
        } else if n == 0xE {
            self.v[x] = ((a as u16 * 2) % 256) as u8;
            self.v[FLAG_REGISTER] = a / 128;
        } else {
            return Err(Fault::IllegalOpcode);
        }
        Ok(self.ca + 2)
    }

    /// Skip if `Vx` differs from `Vy`.
    fn execute_9_opcode(&mut self, b0: u8, b1: u8) -> (r: Result<usize, Fault>)
        requires
            old(self).wf(),
            old(self)@.can_fetch(),
            b0 / 16 == 0x9,
        ensures
            final(self).wf(),
            handled(old(self)@, final(self)@, r, execute(old(self)@, decode(b0, b1), 0)),
    {
        let x = (b0 % 16) as usize;
        let y = (b1 / 16) as usize;
        if self.v[x] != self.v[y] {
            Ok(self.ca + 4)
        } else {
            Ok(self.ca + 2)
        }
    }

    /// `I = nnn`.
    fn execute_a_opcode(&mut self, b0: u8, b1: u8) -> (r: Result<usize, Fault>)
        requires
            old(self).wf(),
            old(self)@.can_fetch(),
            b0 / 16 == 0xA,
        ensures
            final(self).wf(),
            handled(old(self)@, final(self)@, r, execute(old(self)@, decode(b0, b1), 0)),
    {
        let address = ((b0 % 16) as u16) * 256 + (b1 as u16);
        self.i = address;
        Ok(self.ca + 2)
    }

    /// Jump to `nnn + V0`.
    fn execute_b_opcode(&mut self, b0: u8, b1: u8) -> (r: Result<usize, Fault>)
        requires
            old(self).wf(),
            old(self)@.can_fetch(),
            b0 / 16 == 0xB,
        ensures
            final(self).wf(),
            handled(old(self)@, final(self)@, r, execute(old(self)@, decode(b0, b1), 0)),
    {
        let address = ((b0 % 16) as usize) * 256 + (b1 as usize);
        self.jump_target(address + self.v[0] as usize)
    }

    /// `Vx = random & kk`.
    fn execute_c_opcode(&mut self, b0: u8, b1: u8, random: u8) -> (r: Result<usize, Fault>)
        requires
            old(self).wf(),
            old(self)@.can_fetch(),
            b0 / 16 == 0xC,
        ensures
            final(self).wf(),
            handled(old(self)@, final(self)@, r, execute(old(self)@, decode(b0, b1), random)),
    {
        let x = (b0 % 16) as usize;
        self.v[x] = random & b1;
        Ok(self.ca + 2)
    }

    /// Sprite drawing, not carried out yet.
    fn execute_d_opcode(&mut self, b0: u8, b1: u8) -> (r: Result<usize, Fault>)
        requires
            old(self).wf(),
            old(self)@.can_fetch(),
            b0 / 16 == 0xD,
        ensures
            final(self).wf(),
            handled(old(self)@, final(self)@, r, execute(old(self)@, decode(b0, b1), 0)),
    {
        Err(Fault::NotImplemented)
    }

    /// Keyboard tests, not carried out yet.
    fn execute_e_opcode(&mut self, b0: u8, b1: u8) -> (r: Result<usize, Fault>)
        requires
            old(self).wf(),
            old(self)@.can_fetch(),
            b0 / 16 == 0xE,
        ensures
            final(self).wf(),
            handled(old(self)@, final(self)@, r, execute(old(self)@, decode(b0, b1), 0)),
    {
        if b1 == 0x9E || b1 == 0xA1 {
            Err(Fault::NotImplemented)
        } else {
            Err(Fault::IllegalOpcode)
        }
    }

    /// Timers, index arithmetic and register block transfers, picked by the
    /// second byte.
    fn execute_f_opcode(&mut self, b0: u8, b1: u8) -> (r: Result<usize, Fault>)
        requires
            old(self).wf(),
            old(self)@.can_fetch(),
            b0 / 16 == 0xF,
        ensures
            final(self).wf(),
            handled(old(self)@, final(self)@, r, execute(old(self)@, decode(b0, b1), 0)),
    {
        let x = (b0 % 16) as usize;
        if b1 == 0x07 {
            self.v[x] = self.delay_timer;
        } else if b1 == 0x15 {
            self.delay_timer = self.v[x];
        } else if b1 == 0x18 {
            self.sound_timer = self.v[x];
        } else if b1 == 0x1E {
            let sum = self.i as usize + self.v[x] as usize;
            if sum > LAST_ADDRESS {
                self.i = LAST_ADDRESS as u16;
                self.v[FLAG_REGISTER] = 1;
            } else {
                self.i = sum as u16;
            }
        } else if b1 == 0x55 {
            if self.i as usize + x >= MEMORY_SIZE {
                return Err(Fault::TransferOutsideMemory);
            }
            self.store_registers(x);
        } else if b1 == 0x65 {
            if self.i as usize + x >= MEMORY_SIZE {
                return Err(Fault::TransferOutsideMemory);
            }
            self.load_registers(x);
        } else if b1 == 0x0A || b1 == 0x29 || b1 == 0x33 {
            return Err(Fault::NotImplemented);
        } else {
            return Err(Fault::IllegalOpcode);
        }
        Ok(self.ca + 2)
    }

    /// Writes `V0..=Vx` to memory from `I` on.
    fn store_registers(&mut self, x: usize)
        requires
            old(self).wf(),
            x < REGISTER_COUNT,
            old(self)@.i + x < MEMORY_SIZE,
        ensures
            final(self).wf(),
            final(self)@ == (Chip8State {
                ram: written_at(
                    old(self)@.ram,
                    old(self)@.v.subrange(0, x + 1),
                    old(self)@.i as int,
                ),
                ..old(self)@
            }),
    {
        let base = self.i as usize;
        let mut k: usize = 0;
        proof {
            assert(written_at(old(self)@.ram, old(self)@.v.subrange(0, 0), base as int)
                =~= old(self)@.ram);
        }
        while k <= x
            invariant
                old(self).wf(),
                k <= x + 1,
                x < REGISTER_COUNT,
                base == old(self)@.i,
                base + x < MEMORY_SIZE,
                self@ == (Chip8State {
                    ram: written_at(old(self)@.ram, old(self)@.v.subrange(0, k as int), base as int),
                    ..old(self)@
                }),
            decreases x + 1 - k,
        {
            self.ram.set(base + k, self.v[k]);
            k = k + 1;
            proof {
                assert(self@.ram =~= written_at(
                    old(self)@.ram,
                    old(self)@.v.subrange(0, k as int),
                    base as int,
                ));
            }
        }
    }

    /// Reads `V0..=Vx` from memory from `I` on.
    fn load_registers(&mut self, x: usize)
        requires
            old(self).wf(),
            x < REGISTER_COUNT,
            old(self)@.i + x < MEMORY_SIZE,
        ensures
            final(self).wf(),
            final(self)@ == (Chip8State {
                v: written_at(
                    old(self)@.v,
                    old(self)@.ram.subrange(old(self)@.i as int, old(self)@.i + x + 1),
                    0,
                ),
                ..old(self)@
            }),
    {
        let base = self.i as usize;
        let mut k: usize = 0;
        proof {
            assert(written_at(old(self)@.v, old(self)@.ram.subrange(base as int, base as int), 0)
                =~= old(self)@.v);
        }
        while k <= x
            invariant
                old(self).wf(),
                k <= x + 1,
                x < REGISTER_COUNT,
                base == old(self)@.i,
                base + x < MEMORY_SIZE,
                self@ == (Chip8State {
                    v: written_at(
                        old(self)@.v,
                        old(self)@.ram.subrange(base as int, base + k),
                        0,
                    ),
                    ..old(self)@
                }),
            decreases x + 1 - k,
        {
            self.v[k] = self.ram[base + k];
            k = k + 1;
            proof {
                assert(self@.v =~= written_at(
                    old(self)@.v,
                    old(self)@.ram.subrange(base as int, base + k),
                    0,
                ));
            }
        }
    }
}

} // verus!
