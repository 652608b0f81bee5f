use vstd::prelude::*;

use crate::model::{
    address_of, step, written_at, Chip8State, Instruction, FLAG_REGISTER, MEMORY_SIZE,
    PROGRAM_START, REGISTER_COUNT, STACK_DEPTH,
};

verus! {

/// Whether the instruction at `ca` is one of the conditional skips
/// `3xkk`, `4xkk`, `5xy0` or `9xy0`.
pub open spec fn is_skip(s: Chip8State) -> bool {
    let class = s.b0() / 16;
    class == 0x3 || class == 0x4 || (class == 0x5 && s.b1() % 16 == 0) || class == 0x9
}

/// Whether the skip at `ca` is taken: `Vx` against `kk` for `3xkk` and
/// `4xkk`, `Vx` against `Vy` for `5xy0` and `9xy0`.
pub open spec fn skip_taken(s: Chip8State) -> bool {
    let class = s.b0() / 16;
    let vx = s.v[(s.b0() % 16) as int];
    let vy = s.v[(s.b1() / 16) as int];
    if class == 0x3 {
        vx == s.b1()
    } else if class == 0x4 {
        vx != s.b1()
    } else if class == 0x5 {
        vx == vy
    } else {
        vx != vy
    }
}

/// After `8xy4`, `Vx` holds `(a + b) mod 256` for the old values `a` of `Vx`
/// and `b` of `Vy`, and `VF` holds 1 exactly when `a + b > 255`, else 0.
/// `x` is not `F`: there the flag is written over the sum.
pub proof fn law_add_sets_carry(s: Chip8State, x: u8, y: u8, random: u8)
    requires
        s.wf(),
        s.can_fetch(),
        x < REGISTER_COUNT,
        y < REGISTER_COUNT,
        x != FLAG_REGISTER,
        s.b0() == 0x80 + x,
        s.b1() == y * 16 + 0x4,
    ensures
        ({
            let t = step(s, random).0;
            let a = s.v[x as int];
            let b = s.v[y as int];
            &&& t.v[x as int] == (a + b) % 256
            &&& t.v[FLAG_REGISTER as int] == (if a + b > 255 { 1u8 } else { 0u8 })
            &&& forall|r: int|
                0 <= r < REGISTER_COUNT && r != x && r != FLAG_REGISTER ==> #[trigger] t.v[r]
                    == s.v[r]
            &&& t.ca == s.ca + 2
        }),
{
    assert(s.b0() / 16 == 8 && s.b0() % 16 == x);
    assert(s.b1() / 16 == y && s.b1() % 16 == 4);
}

/// After `8xy5`, `Vx` holds `(a - b) mod 256` for the old values `a` of `Vx`
/// and `b` of `Vy`, and `VF` holds 0 exactly when `a < b` (a borrow), else 1.
/// `x` is not `F`: there the flag is written over the difference.
pub proof fn law_sub_sets_borrow(s: Chip8State, x: u8, y: u8, random: u8)
    requires
        s.wf(),
        s.can_fetch(),
        x < REGISTER_COUNT,
        y < REGISTER_COUNT,
        x != FLAG_REGISTER,
        s.b0() == 0x80 + x,
        s.b1() == y * 16 + 0x5,
    ensures
        ({
            let t = step(s, random).0;
            let a = s.v[x as int];
            let b = s.v[y as int];
            &&& t.v[x as int] == (a - b) % 256
            &&& t.v[FLAG_REGISTER as int] == (if a < b { 0u8 } else { 1u8 })
            &&& forall|r: int|
                0 <= r < REGISTER_COUNT && r != x && r != FLAG_REGISTER ==> #[trigger] t.v[r]
                    == s.v[r]
            &&& t.ca == s.ca + 2
        }),
{
    assert(s.b0() / 16 == 8 && s.b0() % 16 == x);
    assert(s.b1() / 16 == y && s.b1() % 16 == 5);
}

/// With `VF` itself as the target, `8Fy4` and `8Fy5` leave the flag in `VF`:
/// the flag is written after the result, which is lost.
pub proof fn law_flag_wins_in_flag_register(s: Chip8State, y: u8, n: u8, random: u8)
    requires
        s.wf(),
        s.can_fetch(),
        y < REGISTER_COUNT,
        n == 4 || n == 5,
        s.b0() == 0x8F,
        s.b1() == y * 16 + n,
    ensures
        ({
            let t = step(s, random).0;
            let a = s.v[FLAG_REGISTER as int];
            let b = s.v[y as int];
            &&& n == 4 ==> t.v[FLAG_REGISTER as int] == (if a + b > 255 { 1u8 } else { 0u8 })
            &&& n == 5 ==> t.v[FLAG_REGISTER as int] == (if a < b { 0u8 } else { 1u8 })
            &&& t.ca == s.ca + 2
        }),
{
    assert(s.b0() / 16 == 8 && s.b0() % 16 == 15);
    assert(s.b1() / 16 == y && s.b1() % 16 == n);
}

/// A conditional skip moves `ca` on by exactly 4 when its condition holds and
/// by exactly 2 when it does not, and changes nothing else.
pub proof fn law_skip_advances_two_or_four(s: Chip8State, random: u8)
    requires
        s.wf(),
        s.can_fetch(),
        is_skip(s),
    ensures
        step(s, random).0 == s.with_ca((s.ca + if skip_taken(s) { 4int } else { 2int }) as usize),
        step(s, random).0.ca == s.ca + 4 || step(s, random).0.ca == s.ca + 2,
{
}

/// A call (`2nnn`) with a free stack slot whose target holds a return
/// (`00EE`) comes back, after the two steps, to the instruction after the
/// call, with the stack pointer as it was before the call. Left out are a
/// call of its own address and a call of the very next address, whose
/// return would land on itself: both are refused as endless loops.
pub proof fn law_call_then_return(s: Chip8State, r1: u8, r2: u8)
    requires
        s.wf(),
        s.can_fetch(),
        s.b0() / 16 == 0x2,
        s.sp < STACK_DEPTH,
        address_of(s.b0(), s.b1()) != s.ca,
        address_of(s.b0(), s.b1()) != s.ca + 2,
        step(s, r1).0.can_fetch(),
        step(s, r1).0.b0() == 0x00,
        step(s, r1).0.b1() == 0xEE,
    ensures
        step(step(s, r1).0, r2).0.ca == s.ca + 2,
        step(step(s, r1).0, r2).0.sp == s.sp,
{
    let address = address_of(s.b0(), s.b1());
    let t = s.call(address)->Ok_0;
    assert(s.current() == (Instruction::Call { address }));
    assert(step(s, r1).0 == t);
    assert(t.stack[t.sp - 1] == s.ca);
    assert(t.current() == Instruction::Return);
}

/// Every step that fetches an instruction moves `ca`: no instruction leaves
/// the machine where it was.
pub proof fn law_step_moves_ca(s: Chip8State, random: u8)
    requires
        s.wf(),
        s.can_fetch(),
    ensures
        step(s, random).0.ca != s.ca,
{
}

/// A jump (`1nnn`, or `Bnnn` with `V0` added) whose target lies at or past
/// the end of memory is not taken: `ca` moves on by the usual 2 and nothing
/// else changes.
pub proof fn law_jump_outside_memory_is_refused(s: Chip8State, random: u8)
    requires
        s.wf(),
        s.can_fetch(),
        (s.b0() / 16 == 0x1 && address_of(s.b0(), s.b1()) >= MEMORY_SIZE) || (s.b0() / 16 == 0xB
            && address_of(s.b0(), s.b1()) + s.v[0] >= MEMORY_SIZE),
    ensures
        step(s, random).0 == s.with_ca((s.ca + 2) as usize),
{
}

/// Once a program that fits has been written from the program start on,
/// the bytes read back from there are the program, byte for byte.
pub proof fn law_load_then_read(ram: Seq<u8>, program: Seq<u8>)
    requires
        ram.len() == MEMORY_SIZE,
        program.len() <= MEMORY_SIZE - PROGRAM_START,
    ensures
        written_at(ram, program, PROGRAM_START as int).subrange(
            PROGRAM_START as int,
            PROGRAM_START + program.len(),
        ) == program,
{
    assert(written_at(ram, program, PROGRAM_START as int).subrange(
        PROGRAM_START as int,
        PROGRAM_START + program.len(),
    ) =~= program);
}

} // verus!
