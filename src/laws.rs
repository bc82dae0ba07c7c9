//! Laws of the instruction set, stated over the state model and proved.
use vstd::prelude::*;
use crate::instruction::{Instruction, decode_spec};
use crate::model::{
    MachineView, MEMORY_SIZE, SCREEN_SIZE, FLAG, STACK_DEPTH, execute, cycle, sprite_covers,
    lemma_toggle,
};

verus! {

/// `s` is a reachable state that is about to fetch and run an instruction.
pub open spec fn ready(s: MachineView) -> bool {
    &&& s.wf()
    &&& s.waiting_for_key is None
    &&& s.pc + 1 < MEMORY_SIZE
}

/// Adding register `y` into register `x` leaves `(Vx + Vy) mod 256` in `x`
/// (unless `x` is the flag register itself, which the carry overwrites) and
/// sets the flag to 1 exactly when the sum exceeds 255.
pub proof fn lemma_add_registers(s: MachineView, random: u8, x: usize, y: usize)
    requires
        ready(s),
        decode_spec(s.fetch()) == Some(Instruction::AddRegs(x, y)),
        x < 16,
        y < 16,
    ensures
        cycle(s, random) is Ok,
        x != FLAG ==> cycle(s, random)->Ok_0.reg(x) == (s.reg(x) + s.reg(y)) % 256,
        cycle(s, random)->Ok_0.reg(FLAG as usize) == 1 <==> s.reg(x) + s.reg(y) > 255,
        cycle(s, random)->Ok_0.reg(FLAG as usize) <= 1,
        cycle(s, random)->Ok_0.pc == s.pc + 2,
{
}

/// Subtracting register `y` from register `x` leaves `(Vx - Vy) mod 256` in
/// `x` (unless `x` is the flag register) and sets the flag to 1 exactly when
/// no borrow occurs, that is when `Vx >= Vy`.
pub proof fn lemma_subtract(s: MachineView, random: u8, x: usize, y: usize)
    requires
        ready(s),
        decode_spec(s.fetch()) == Some(Instruction::Sub(x, y)),
        x < 16,
        y < 16,
    ensures
        cycle(s, random) is Ok,
        x != FLAG ==> cycle(s, random)->Ok_0.reg(x) == (s.reg(x) - s.reg(y)) % 256,
        cycle(s, random)->Ok_0.reg(FLAG as usize) == 1 <==> s.reg(x) >= s.reg(y),
        cycle(s, random)->Ok_0.reg(FLAG as usize) <= 1,
{
}

/// Drawing the same sprite twice at the same place restores the framebuffer,
/// and the second draw sets the flag exactly when the first left a pixel of
/// the sprite lit. The coordinates must not sit in the flag register, which
/// the first draw overwrites.
pub proof fn lemma_draw_twice(s: MachineView, random: u8, x: usize, y: usize, n: u8)
    requires
        s.wf(),
        x < 16,
        y < 16,
        n < 16,
        x != FLAG,
        y != FLAG,
        s.index + n <= MEMORY_SIZE,
    ensures
        execute(s, Instruction::Draw(x, y, n), random) is Ok,
        execute(execute(s, Instruction::Draw(x, y, n), random)->Ok_0, Instruction::Draw(x, y, n), random) is Ok,
        ({
            let once = execute(s, Instruction::Draw(x, y, n), random)->Ok_0;
            let twice = execute(once, Instruction::Draw(x, y, n), random)->Ok_0;
            &&& twice.gfx == s.gfx
            &&& twice.reg(FLAG as usize) == 1 <==> exists|p: int|
                0 <= p < SCREEN_SIZE && #[trigger] sprite_covers(
                    s.memory,
                    s.index,
                    n,
                    s.reg(x),
                    s.reg(y),
                    p,
                ) && once.gfx[p] != 0
        }),
{
    let once = execute(s, Instruction::Draw(x, y, n), random)->Ok_0;
    let twice = execute(once, Instruction::Draw(x, y, n), random)->Ok_0;
    assert(once.reg(x) == s.reg(x));
    assert(once.reg(y) == s.reg(y));
    assert forall|p: int| 0 <= p < SCREEN_SIZE implies #[trigger] twice.gfx[p] == s.gfx[p] by {
        lemma_toggle(s.gfx[p]);
    }
    assert(twice.gfx =~= s.gfx);
}

/// A jump, a call with a free stack slot, and a jump with offset each leave
/// the program counter at their target; a return goes to the instruction
/// after the call it returns from.
pub proof fn lemma_jump_targets(s: MachineView, random: u8)
    requires
        ready(s),
    ensures
        decode_spec(s.fetch()) matches Some(Instruction::Jump(a)) ==> cycle(s, random)
            matches Ok(t) && t.pc == a,
        decode_spec(s.fetch()) matches Some(Instruction::Call(a)) ==> (s.stack_pointer
            < STACK_DEPTH ==> (cycle(s, random) matches Ok(t) && t.pc == a && t.stack[s.stack_pointer]
            == s.pc)),
        decode_spec(s.fetch()) matches Some(Instruction::JumpOffset(a)) ==> cycle(s, random)
            matches Ok(t) && t.pc == a + s.reg(0),
        decode_spec(s.fetch()) matches Some(Instruction::Return) ==> (s.stack_pointer > 0
            ==> (cycle(s, random) matches Ok(t) && t.pc == s.stack[s.stack_pointer - 1] + 2)),
{
}

/// A call followed by a return comes back to the instruction after the call.
pub proof fn lemma_call_return(s: MachineView, random: u8, a: u16)
    requires
        ready(s),
        s.stack_pointer < STACK_DEPTH,
    ensures
        execute(s, Instruction::Call(a), random) is Ok,
        execute(execute(s, Instruction::Call(a), random)->Ok_0, Instruction::Return, random)
            matches Ok(t) && t.pc == s.pc + 2 && t.stack_pointer == s.stack_pointer,
{
}

/// The skip-if-equal instructions move the program counter on by 4 when the
/// operands are equal and by 2 otherwise.
pub proof fn lemma_skip_equal(s: MachineView, random: u8)
    requires
        ready(s),
    ensures
        decode_spec(s.fetch()) matches Some(Instruction::SkipEqualByte(x, kk)) ==> cycle(s, random)
            matches Ok(t) && t.pc == s.pc + if s.reg(x) == kk { 4int } else { 2int },
        decode_spec(s.fetch()) matches Some(Instruction::SkipEqualRegs(x, y)) ==> cycle(s, random)
            matches Ok(t) && t.pc == s.pc + if s.reg(x) == s.reg(y) { 4int } else { 2int },
{
}

/// Storing registers `0..=x` to memory and loading them back from the same
/// address gives back the registers as they were.
pub proof fn lemma_store_load(s: MachineView, random: u8, x: usize)
    requires
        s.wf(),
        x < 16,
        s.index + x + 1 <= MEMORY_SIZE,
    ensures
        execute(s, Instruction::StoreRegs(x), random) is Ok,
        execute(execute(s, Instruction::StoreRegs(x), random)->Ok_0, Instruction::LoadRegs(x), random)
            matches Ok(t) && t.registers == s.registers,
{
    let stored = execute(s, Instruction::StoreRegs(x), random)->Ok_0;
    let loaded = execute(stored, Instruction::LoadRegs(x), random)->Ok_0;
    assert(loaded.registers =~= s.registers);
}

/// The three bytes that the BCD instruction stores are decimal digits whose
/// value, hundreds first, is the register's value.
pub proof fn lemma_bcd_digits(s: MachineView, random: u8, x: usize)
    requires
        s.wf(),
        x < 16,
        s.index + 3 <= MEMORY_SIZE,
    ensures
        execute(s, Instruction::StoreBcd(x), random) matches Ok(t) && {
            let i = s.index as int;
            &&& t.memory[i] < 10 && t.memory[i + 1] < 10 && t.memory[i + 2] < 10
            &&& t.memory[i] * 100 + t.memory[i + 1] * 10 + t.memory[i + 2] == s.reg(x)
        },
{
}

} // verus!
