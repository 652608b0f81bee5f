use vstd::prelude::*;

verus! {

/// Bytes of addressable memory: the 4KB address space.
pub const MEMORY_SIZE: usize = 0x1000;

/// The highest address, and the ceiling the index register is held to.
pub const LAST_ADDRESS: usize = 0xFFF;

/// Address at which a program is loaded and execution starts.
pub const PROGRAM_START: usize = 0x200;

/// Number of general registers `V0`..`VF`.
pub const REGISTER_COUNT: usize = 16;

/// Number of return addresses the call stack holds.
pub const STACK_DEPTH: usize = 16;

/// Register that receives carry, borrow and shifted-out bits.
pub const FLAG_REGISTER: usize = 0xF;

/// Rows of the framebuffer.
pub const SCREEN_ROWS: usize = 8;

/// Bytes in one framebuffer row.
pub const SCREEN_ROW_BYTES: usize = 4;

/// Why an instruction was not carried out. The machine then only moves on
/// to the next instruction.
#[derive(Clone, Copy, Debug, PartialEq, Eq, Structural)]
pub enum Fault {
    /// A defined instruction that this machine does not carry out yet.
    NotImplemented,
    /// An encoding outside the instruction set.
    IllegalOpcode,
    /// A jump whose target lies outside memory.
    JumpOutsideMemory,
    /// A jump, call or return to the instruction's own address.
    EndlessLoop,
    /// A call with every stack slot in use.
    StackOverflow,
    /// A return with an empty stack.
    StackUnderflow,
    /// A register dump or load that would reach past the end of memory.
    TransferOutsideMemory,
}

/// What one step of the machine did.
#[derive(Clone, Copy, Debug, PartialEq, Eq, Structural)]
pub enum Outcome {
    /// The instruction was carried out.
    Executed,
    /// The instruction `opcode` at `address` was passed over for `fault`.
    Skipped { opcode: u16, address: usize, fault: Fault },
    /// No instruction could be fetched at `address`: the machine stays put.
    Halted { address: usize },
}

/// One decoded instruction word. `x` and `y` name registers, `byte` is an
/// immediate value and `address` a 12-bit address.
#[derive(Clone, Copy, Debug, PartialEq, Eq, Structural)]
pub enum Instruction {
    ClearScreen,
    Return,
    Jump { address: u16 },
    Call { address: u16 },
    SkipIfEqual { x: u8, byte: u8 },
    SkipIfNotEqual { x: u8, byte: u8 },
    SkipIfRegistersEqual { x: u8, y: u8 },
    Load { x: u8, byte: u8 },
    AddByte { x: u8, byte: u8 },
    Copy { x: u8, y: u8 },
    Or { x: u8, y: u8 },
    And { x: u8, y: u8 },
    Xor { x: u8, y: u8 },
    Add { x: u8, y: u8 },
    Sub { x: u8, y: u8 },
    ShiftRight { x: u8 },
    SubReversed { x: u8, y: u8 },
    ShiftLeft { x: u8 },
    SkipIfRegistersDiffer { x: u8, y: u8 },
    SetIndex { address: u16 },
    JumpPlusV0 { address: u16 },
    RandomMask { x: u8, byte: u8 },
    ReadDelay { x: u8 },
    SetDelay { x: u8 },
    SetSound { x: u8 },
    AddToIndex { x: u8 },
    StoreRegisters { x: u8 },
    LoadRegisters { x: u8 },
    /// Draw, keyboard, font, BCD and machine-code calls.
    Unimplemented,
    Illegal,
}

/// The whole machine state as mathematical values.
pub struct Chip8State {
    pub v: Seq<u8>,
    pub i: u16,
    pub stack: Seq<usize>,
    pub sp: usize,
    pub delay_timer: u8,
    pub sound_timer: u8,
    pub ram: Seq<u8>,
    pub ca: usize,
    pub video: Seq<Seq<u8>>,
}

/// A framebuffer with every pixel byte unset.
pub open spec fn blank_video() -> Seq<Seq<u8>> {
    Seq::new(SCREEN_ROWS as nat, |r: int| Seq::new(SCREEN_ROW_BYTES as nat, |c: int| 0u8))
}

/// The state a machine starts in.
pub open spec fn initial_state() -> Chip8State {
    Chip8State {
        v: Seq::new(REGISTER_COUNT as nat, |k: int| 0u8),
        i: 0,
        stack: Seq::new(STACK_DEPTH as nat, |k: int| 0usize),
        sp: 0,
        delay_timer: 0,
        sound_timer: 0,
        ram: Seq::new(MEMORY_SIZE as nat, |k: int| 0u8),
        ca: PROGRAM_START,
        video: blank_video(),
    }
}

/// Memory after `program` is written into it from `offset` on.
pub open spec fn written_at(memory: Seq<u8>, program: Seq<u8>, offset: int) -> Seq<u8> {
    Seq::new(
        memory.len(),
        |k: int|
            if offset <= k < offset + program.len() {
                program[k - offset]
            } else {
                memory[k]
            },
    )
}

/// The 12-bit address held in the low nibble of `b0` and all of `b1`.
pub open spec fn address_of(b0: u8, b1: u8) -> u16 {
    ((b0 % 16) as int * 256 + b1 as int) as u16
}

/// The instruction word made of `b0` and `b1`, big-endian.
pub open spec fn word_of(b0: u8, b1: u8) -> u16 {
    (b0 as int * 256 + b1 as int) as u16
}

pub open spec fn decode_class_0(b0: u8, b1: u8) -> Instruction {
    if b0 % 16 != 0 {
        Instruction::Unimplemented
    } else if b1 == 0xE0 {
        Instruction::ClearScreen
    } else if b1 == 0xEE {
        Instruction::Return
    } else {
        Instruction::Illegal
    }
}

pub open spec fn decode_class_8(x: u8, y: u8, n: u8) -> Instruction {
    if n == 0x0 {
        Instruction::Copy { x, y }
    } else if n == 0x1 {
        Instruction::Or { x, y }
    } else if n == 0x2 {
        Instruction::And { x, y }
    } else if n == 0x3 {
        Instruction::Xor { x, y }
    } else if n == 0x4 {
        Instruction::Add { x, y }
    } else if n == 0x5 {
        Instruction::Sub { x, y }
    } else if n == 0x6 {
        Instruction::ShiftRight { x }
    } else if n == 0x7 {
        Instruction::SubReversed { x, y }
    } else if n == 0xE {
        Instruction::ShiftLeft { x }
    } else {
        Instruction::Illegal
    }
}

pub open spec fn decode_class_e(b1: u8) -> Instruction {
    if b1 == 0x9E || b1 == 0xA1 {
        Instruction::Unimplemented
    } else {
        Instruction::Illegal
    }
}

pub open spec fn decode_class_f(x: u8, b1: u8) -> Instruction {
    if b1 == 0x07 {
        Instruction::ReadDelay { x }
    } else if b1 == 0x15 {
        Instruction::SetDelay { x }
    } else if b1 == 0x18 {
        Instruction::SetSound { x }
    } else if b1 == 0x1E {
        Instruction::AddToIndex { x }
    } else if b1 == 0x55 {
        Instruction::StoreRegisters { x }
    } else if b1 == 0x65 {
        Instruction::LoadRegisters { x }
    } else if b1 == 0x0A || b1 == 0x29 || b1 == 0x33 {
        Instruction::Unimplemented
    } else {
        Instruction::Illegal
    }
}

/// The instruction that the two bytes `b0 b1` encode. The high nibble of
/// `b0` picks the class; `x` is the low nibble of `b0`, `y` the high nibble
/// of `b1`, and the low nibble of `b1` picks among register operations.
pub open spec fn decode(b0: u8, b1: u8) -> Instruction {
    let class = b0 / 16;
    let x = b0 % 16;
    let y = b1 / 16;
    let n = b1 % 16;
    let address = address_of(b0, b1);
    if class == 0x0 {
        decode_class_0(b0, b1)
    } else if class == 0x1 {
        Instruction::Jump { address }
    } else if class == 0x2 {
        Instruction::Call { address }
    } else if class == 0x3 {
        Instruction::SkipIfEqual { x, byte: b1 }
    } else if class == 0x4 {
        Instruction::SkipIfNotEqual { x, byte: b1 }
    } else if class == 0x5 {
        if n == 0 {
            Instruction::SkipIfRegistersEqual { x, y }
        } else {
            Instruction::Illegal
        }
    } else if class == 0x6 {
        Instruction::Load { x, byte: b1 }
    } else if class == 0x7 {
        Instruction::AddByte { x, byte: b1 }
    } else if class == 0x8 {
        decode_class_8(x, y, n)
    } else if class == 0x9 {
        Instruction::SkipIfRegistersDiffer { x, y }
    } else if class == 0xA {
        Instruction::SetIndex { address }
    } else if class == 0xB {
        Instruction::JumpPlusV0 { address }
    } else if class == 0xC {
        Instruction::RandomMask { x, byte: b1 }
    } else if class == 0xD {
        Instruction::Unimplemented
    } else if class == 0xE {
        decode_class_e(b1)
    } else {
        decode_class_f(x, b1)
    }
}

/// `a + b` wrapped to a byte.
pub open spec fn wrapping_add_u8(a: u8, b: u8) -> u8 {
    ((a as int + b as int) % 256) as u8
}

/// `a - b` wrapped to a byte.
pub open spec fn wrapping_sub_u8(a: u8, b: u8) -> u8 {
    ((a as int - b as int + 256) % 256) as u8
}

impl Chip8State {
    /// The shape and bounds every reachable state keeps.
    pub open spec fn wf(self) -> bool {
        &&& self.v.len() == REGISTER_COUNT
        &&& self.stack.len() == STACK_DEPTH
        &&& self.sp <= STACK_DEPTH
        &&& self.ram.len() == MEMORY_SIZE
        &&& self.i <= LAST_ADDRESS
        &&& forall|k: int| 0 <= k < STACK_DEPTH ==> #[trigger] self.stack[k] < MEMORY_SIZE
        &&& self.video.len() == SCREEN_ROWS
        &&& forall|r: int| 0 <= r < SCREEN_ROWS ==> (#[trigger] self.video[r]).len() == SCREEN_ROW_BYTES
    }

    /// Both bytes of the instruction at `ca` lie in memory.
    pub open spec fn can_fetch(self) -> bool {
        self.ca + 1 < MEMORY_SIZE
    }

    /// First byte of the instruction at `ca`.
    pub open spec fn b0(self) -> u8 {
        self.ram[self.ca as int]
    }

    /// Second byte of the instruction at `ca`.
    pub open spec fn b1(self) -> u8 {
        self.ram[self.ca + 1]
    }

    /// The instruction at `ca`.
    pub open spec fn current(self) -> Instruction {
        decode(self.b0(), self.b1())
    }

    pub open spec fn reg(self, x: u8) -> u8 {
        self.v[x as int]
    }

    /// The address of the following instruction.
    pub open spec fn next(self) -> usize {
        (self.ca + 2) as usize
    }

    /// The address after the following instruction.
    pub open spec fn after_next(self) -> usize {
        (self.ca + 4) as usize
    }

    pub open spec fn with_ca(self, ca: usize) -> Chip8State {
        Chip8State { ca, ..self }
    }

    pub open spec fn with_v(self, v: Seq<u8>) -> Chip8State {
        Chip8State { v, ..self }
    }

    /// Moves on to the next instruction, or the one after when `skip` holds.
    pub open spec fn skip_if(self, skip: bool) -> Result<Chip8State, Fault> {
        Ok(self.with_ca(if skip { self.after_next() } else { self.next() }))
    }

    /// Sets `V[x]` to `value` and moves on.
    pub open spec fn set_reg(self, x: u8, value: u8) -> Result<Chip8State, Fault> {
        Ok(self.with_v(self.v.update(x as int, value)).with_ca(self.next()))
    }

    /// Sets `V[x]` to `value`, then `VF` to `flag`, and moves on.
    pub open spec fn set_reg_flag(self, x: u8, value: u8, flag: u8) -> Result<Chip8State, Fault> {
        Ok(
            self.with_v(self.v.update(x as int, value).update(FLAG_REGISTER as int, flag)).with_ca(
                self.next(),
            ),
        )
    }

    /// A jump to `target`, refused when it leaves memory or stays in place.
    pub open spec fn jump(self, target: int) -> Result<Chip8State, Fault> {
        if target >= MEMORY_SIZE {
            Err(Fault::JumpOutsideMemory)
        } else if target == self.ca {
            Err(Fault::EndlessLoop)
        } else {
            Ok(self.with_ca(target as usize))
        }
    }

    /// A call of `address`, refused when it would stay in place or the stack
    /// is full.
    pub open spec fn call(self, address: u16) -> Result<Chip8State, Fault> {
        if address == self.ca {
            Err(Fault::EndlessLoop)
        } else if self.sp >= STACK_DEPTH {
            Err(Fault::StackOverflow)
        } else {
            Ok(
                Chip8State {
                    stack: self.stack.update(self.sp as int, self.ca),
                    sp: (self.sp + 1) as usize,
                    ca: address as usize,
                    ..self
                },
            )
        }
    }

    /// A return after the latest call site, refused when the stack is empty
    /// or it would stay in place.
    pub open spec fn ret(self) -> Result<Chip8State, Fault> {
        if self.sp == 0 {
            Err(Fault::StackUnderflow)
        } else if self.stack[self.sp - 1] + 2 == self.ca {
            Err(Fault::EndlessLoop)
        } else {
            Ok(
                Chip8State {
                    sp: (self.sp - 1) as usize,
                    ca: (self.stack[self.sp - 1] + 2) as usize,
                    ..self
                },
            )
        }
    }

    pub open spec fn add_to_index(self, x: u8) -> Result<Chip8State, Fault> {
        let sum = self.i + self.reg(x);
        if sum > LAST_ADDRESS {
            Ok(
                Chip8State {
                    i: LAST_ADDRESS as u16,
                    v: self.v.update(FLAG_REGISTER as int, 1),
                    ca: self.next(),
                    ..self
                },
            )
        } else {
            Ok(Chip8State { i: sum as u16, ca: self.next(), ..self })
        }
    }

    /// Writes `V0..=Vx` to memory from `I` on.
    pub open spec fn store_registers(self, x: u8) -> Result<Chip8State, Fault> {
        if self.i + x >= MEMORY_SIZE {
            Err(Fault::TransferOutsideMemory)
        } else {
            Ok(
                Chip8State {
                    ram: written_at(self.ram, self.v.subrange(0, x + 1), self.i as int),
                    ca: self.next(),
                    ..self
                },
            )
        }
    }

    /// Reads `V0..=Vx` from memory from `I` on.
    pub open spec fn load_registers(self, x: u8) -> Result<Chip8State, Fault> {
        if self.i + x >= MEMORY_SIZE {
            Err(Fault::TransferOutsideMemory)
        } else {
            Ok(
                Chip8State {
                    v: written_at(self.v, self.ram.subrange(self.i as int, self.i + x + 1), 0),
                    ca: self.next(),
                    ..self
                },
            )
        }
    }
}

/// What carrying out `ins` does to `s`: the state that follows, with `ca`
/// at the next instruction to run, or the fault for which it is passed over.
/// `random` is the byte the random source supplied.
pub open spec fn execute(s: Chip8State, ins: Instruction, random: u8) -> Result<Chip8State, Fault> {
    match ins {
        Instruction::ClearScreen => Ok(Chip8State { video: blank_video(), ca: s.next(), ..s }),
        Instruction::Return => s.ret(),
        Instruction::Jump { address } => s.jump(address as int),
        Instruction::Call { address } => s.call(address),
        Instruction::SkipIfEqual { x, byte } => s.skip_if(s.reg(x) == byte),
        Instruction::SkipIfNotEqual { x, byte } => s.skip_if(s.reg(x) != byte),
        Instruction::SkipIfRegistersEqual { x, y } => s.skip_if(s.reg(x) == s.reg(y)),
        Instruction::Load { x, byte } => s.set_reg(x, byte),
        Instruction::AddByte { x, byte } => s.set_reg(x, wrapping_add_u8(s.reg(x), byte)),
        Instruction::Copy { x, y } => s.set_reg(x, s.reg(y)),
        Instruction::Or { x, y } => s.set_reg(x, s.reg(x) | s.reg(y)),
        Instruction::And { x, y } => s.set_reg(x, s.reg(x) & s.reg(y)),
        Instruction::Xor { x, y } => s.set_reg(x, s.reg(x) ^ s.reg(y)),
        Instruction::Add { x, y } => s.set_reg_flag(
            x,
            wrapping_add_u8(s.reg(x), s.reg(y)),
            if s.reg(x) + s.reg(y) > 255 { 1 } else { 0 },
        ),
        Instruction::Sub { x, y } => s.set_reg_flag(
            x,
            wrapping_sub_u8(s.reg(x), s.reg(y)),
            if s.reg(x) < s.reg(y) { 0 } else { 1 },
        ),
        Instruction::ShiftRight { x } => s.set_reg_flag(x, s.reg(x) / 2, s.reg(x) % 2),
        Instruction::SubReversed { x, y } => s.set_reg_flag(
            x,
            wrapping_sub_u8(s.reg(y), s.reg(x)),
            if s.reg(y) < s.reg(x) { 0 } else { 1 },
        ),
        Instruction::ShiftLeft { x } => s.set_reg_flag(
            x,
            ((s.reg(x) as int * 2) % 256) as u8,
            s.reg(x) / 128,
        ),
        Instruction::SkipIfRegistersDiffer { x, y } => s.skip_if(s.reg(x) != s.reg(y)),
        Instruction::SetIndex { address } => Ok(Chip8State { i: address, ca: s.next(), ..s }),
        Instruction::JumpPlusV0 { address } => s.jump(address + s.reg(0)),
        Instruction::RandomMask { x, byte } => s.set_reg(x, random & byte),
        Instruction::ReadDelay { x } => s.set_reg(x, s.delay_timer),
        Instruction::SetDelay { x } => Ok(Chip8State { delay_timer: s.reg(x), ca: s.next(), ..s }),
        Instruction::SetSound { x } => Ok(Chip8State { sound_timer: s.reg(x), ca: s.next(), ..s }),
        Instruction::AddToIndex { x } => s.add_to_index(x),
        Instruction::StoreRegisters { x } => s.store_registers(x),
        Instruction::LoadRegisters { x } => s.load_registers(x),
        Instruction::Unimplemented => Err(Fault::NotImplemented),
        Instruction::Illegal => Err(Fault::IllegalOpcode),
    }
}

/// One fetch-decode-execute step from `s`, given the byte the random source
/// would supply. A refused instruction leaves everything but `ca`, which
/// moves on by one instruction; a failed fetch changes nothing.
pub open spec fn step(s: Chip8State, random: u8) -> (Chip8State, Outcome) {
    if !s.can_fetch() {
        (s, Outcome::Halted { address: s.ca })
    } else {
        match execute(s, s.current(), random) {
            Ok(t) => (t, Outcome::Executed),
            Err(fault) => (
                s.with_ca(s.next()),
                Outcome::Skipped { opcode: word_of(s.b0(), s.b1()), address: s.ca, fault },
            ),
        }
    }
}

/// How a class handler's result `r` and the state `new` it left relate to
/// the expected effect: on success the handler returns the next `ca`, leaves
/// `ca` itself alone and has made every other change; on a fault it has
/// changed nothing.
pub open spec fn handled(
    old: Chip8State,
    new: Chip8State,
    r: Result<usize, Fault>,
    expected: Result<Chip8State, Fault>,
) -> bool {
    match r {
        Ok(next) => new.ca == old.ca && expected == Ok::<Chip8State, Fault>(new.with_ca(next)),
        Err(fault) => expected == Err::<Chip8State, Fault>(fault) && new == old,
    }
}

} // verus!
