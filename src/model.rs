use vstd::prelude::*;
use crate::font::{FONT_BASE, FONT_LEN, font};
use crate::instruction::{Instruction, decode_spec};
use vstd::arithmetic::div_mod::{lemma_fundamental_div_mod, lemma_fundamental_div_mod_converse};

verus! {

/// Bytes of addressable memory.
pub const MEMORY_SIZE: usize = 4096;

/// Address at which a program image is loaded and execution starts.
pub const PROGRAM_START: usize = 0x200;

/// Largest program image: everything from `PROGRAM_START` to the end of memory.
pub const MAX_IMAGE_LEN: usize = 3584;

/// Framebuffer width in pixels.
pub const SCREEN_WIDTH: usize = 64;

/// Framebuffer height in pixels.
pub const SCREEN_HEIGHT: usize = 32;

/// Pixels in the framebuffer, stored row by row.
pub const SCREEN_SIZE: usize = 2048;

/// Index of the flag register `VF`.
pub const FLAG: usize = 15;

/// Depth of the call stack.
pub const STACK_DEPTH: usize = 16;

/// A condition that stops execution.
#[derive(Clone, Copy, Debug, PartialEq, Eq, Structural)]
pub enum Fault {
    /// The word at the program counter is not an instruction.
    UnknownInstruction(u16),
    /// The program counter does not leave room for a two-byte instruction.
    ProgramCounterOutOfRange,
    /// A call with all sixteen stack slots in use.
    StackOverflow,
    /// A return with an empty stack.
    StackUnderflow,
    /// A memory access through the index register runs past the end of memory.
    AddressOutOfRange,
    /// A program image longer than `MAX_IMAGE_LEN` bytes.
    ImageTooLarge,
}

/// The whole state of a machine, as mathematical values.
pub struct MachineView {
    pub memory: Seq<u8>,
    pub registers: Seq<u8>,
    pub index: u16,
    pub pc: int,
    pub gfx: Seq<u8>,
    pub delay_timer: u8,
    pub sound_timer: u8,
    /// Return addresses; the slots below `stack_pointer` are in use.
    pub stack: Seq<u16>,
    pub stack_pointer: int,
    pub keys: Seq<u8>,
    /// The register that the next key press goes to, while the machine waits
    /// for one.
    pub waiting_for_key: Option<usize>,
}

impl MachineView {
    /// Sizes of the parts, and the bounds that every reachable state keeps:
    /// pixels and keys are 0 or 1, return addresses are 12-bit, the program
    /// counter stays below 0x1100.
    pub open spec fn wf(self) -> bool {
        &&& self.memory.len() == MEMORY_SIZE
        &&& self.registers.len() == 16
        &&& self.gfx.len() == SCREEN_SIZE
        &&& self.stack.len() == STACK_DEPTH
        &&& self.keys.len() == 16
        &&& 0 <= self.pc < 0x1100
        &&& 0 <= self.stack_pointer <= STACK_DEPTH
        &&& forall|i: int| 0 <= i < STACK_DEPTH ==> #[trigger] self.stack[i] < 0x1000
        &&& forall|p: int| 0 <= p < SCREEN_SIZE ==> #[trigger] self.gfx[p] <= 1
        &&& forall|k: int| 0 <= k < 16 ==> #[trigger] self.keys[k] <= 1
        &&& self.waiting_for_key matches Some(x) ==> x < 16
    }

    pub open spec fn reg(self, x: usize) -> u8 {
        self.registers[x as int]
    }

    pub open spec fn set_reg(self, x: usize, v: u8) -> MachineView {
        MachineView { registers: self.registers.update(x as int, v), ..self }
    }

    /// Moves the program counter on by `k` bytes.
    pub open spec fn advance(self, k: int) -> MachineView {
        MachineView { pc: self.pc + k, ..self }
    }

    /// Moves on past the next instruction when `c` holds, else to it.
    pub open spec fn skip_if(self, c: bool) -> MachineView {
        self.advance(if c { 4 } else { 2 })
    }

    /// The instruction word at the program counter, high byte first.
    pub open spec fn fetch(self) -> u16 {
        (self.memory[self.pc] * 256 + self.memory[self.pc + 1]) as u16
    }

    /// Key `v` exists and is held down.
    pub open spec fn key_pressed(self, v: u8) -> bool {
        v < 16 && self.keys[v as int] == 1
    }
}

/// Row of the sprite that covers pixel `p` when the sprite's top row is at `y`.
pub open spec fn sprite_row_at(p: int, y: u8) -> int {
    (p / SCREEN_WIDTH as int - (y % 32) as int) % 32
}

/// Column of the sprite that covers pixel `p` when its left column is at `x`.
pub open spec fn sprite_col_at(p: int, x: u8) -> int {
    (p % SCREEN_WIDTH as int - (x % 64) as int) % 64
}

/// Bit `j` (from the left) of a sprite row is set.
pub open spec fn sprite_bit(row: u8, j: int) -> bool {
    row & (0x80u8 >> (j as u8)) != 0
}

/// The `n`-row sprite at `index`, drawn with its top left corner at `(x, y)`
/// and wrapping at the edges, flips pixel `p`.
pub open spec fn sprite_covers(mem: Seq<u8>, index: u16, n: u8, x: u8, y: u8, p: int) -> bool {
    let r = sprite_row_at(p, y);
    let j = sprite_col_at(p, x);
    r < n && j < 8 && sprite_bit(mem[index + r], j)
}

/// The framebuffer after XOR-ing the sprite onto it.
pub open spec fn drawn(gfx: Seq<u8>, mem: Seq<u8>, index: u16, n: u8, x: u8, y: u8) -> Seq<u8> {
    Seq::new(
        gfx.len(),
        |p: int|
            if sprite_covers(mem, index, n, x, y, p) {
                gfx[p] ^ 1u8
            } else {
                gfx[p]
            },
    )
}

/// Drawing the sprite turns off a lit pixel.
pub open spec fn collides(gfx: Seq<u8>, mem: Seq<u8>, index: u16, n: u8, x: u8, y: u8) -> bool {
    exists|p: int| 0 <= p < SCREEN_SIZE && #[trigger] sprite_covers(mem, index, n, x, y, p) && gfx[p] != 0
}

/// Pixel `p` is flipped by the sprite, at a sprite row before `r`, or at
/// row `r` and a column before `j`.
pub open spec fn drawn_before(mem: Seq<u8>, index: u16, n: u8, x: u8, y: u8, p: int, r: int, j: int) -> bool {
    &&& sprite_covers(mem, index, n, x, y, p)
    &&& (sprite_row_at(p, y) < r || (sprite_row_at(p, y) == r && sprite_col_at(p, x) < j))
}

/// The framebuffer index of sprite row `r`, column `j`.
pub open spec fn pixel_index(x: u8, y: u8, r: int, j: int) -> int {
    ((y % 32) as int + r) % 32 * 64 + ((x % 64) as int + j) % 64
}

/// Sprite row `r` and column `j` land on exactly one pixel, and that pixel
/// maps back to them.
pub proof fn lemma_pixel_index(x: u8, y: u8, r: int, j: int)
    requires
        0 <= r < 32,
        0 <= j < 64,
    ensures
        0 <= pixel_index(x, y, r, j) < SCREEN_SIZE,
        sprite_row_at(pixel_index(x, y, r, j), y) == r,
        sprite_col_at(pixel_index(x, y, r, j), x) == j,
        forall|q: int|
            0 <= q < SCREEN_SIZE && sprite_row_at(q, y) == r && #[trigger] sprite_col_at(q, x) == j
                ==> q == pixel_index(x, y, r, j),
{
    let a = ((y % 32) as int + r) % 32;
    let b = ((x % 64) as int + j) % 64;
    let p = pixel_index(x, y, r, j);
    assert(p == a * 64 + b);
    lemma_fundamental_div_mod_converse(p, 64, a, b);
    assert forall|q: int|
        0 <= q < SCREEN_SIZE && sprite_row_at(q, y) == r && #[trigger] sprite_col_at(q, x) == j
            implies q == p by {
        lemma_fundamental_div_mod(q, 64);
        assert(q / 64 == a);
        assert(q % 64 == b);
    }
}

/// The state after the draw instruction with coordinates `(x, y)`.
pub open spec fn draw_spec(s: MachineView, x: u8, y: u8, n: u8) -> MachineView {
    MachineView {
        gfx: drawn(s.gfx, s.memory, s.index, n, x, y),
        registers: s.registers.update(
            FLAG as int,
            if collides(s.gfx, s.memory, s.index, n, x, y) { 1u8 } else { 0u8 },
        ),
        ..s
    }
}

/// Memory with `V0..=Vx` written from the index register on.
pub open spec fn stored_regs(s: MachineView, x: usize) -> Seq<u8> {
    Seq::new(
        s.memory.len(),
        |a: int| if s.index <= a <= s.index + x { s.registers[a - s.index] } else { s.memory[a] },
    )
}

/// Registers with `V0..=Vx` read from the index register on.
pub open spec fn loaded_regs(s: MachineView, x: usize) -> Seq<u8> {
    Seq::new(
        s.registers.len(),
        |r: int| if r <= x { s.memory[s.index + r] } else { s.registers[r] },
    )
}

/// Memory with the decimal digits of `v` at the index register.
pub open spec fn stored_bcd(s: MachineView, v: u8) -> Seq<u8> {
    s.memory.update(s.index as int, v / 100).update(s.index + 1, (v / 10) % 10).update(
        s.index + 2,
        v % 10,
    )
}

/// Memory of a fresh machine: the font table at `FONT_BASE`, the program
/// image at `PROGRAM_START`, zero elsewhere.
pub open spec fn initial_memory(image: Seq<u8>) -> Seq<u8> {
    Seq::new(
        MEMORY_SIZE as nat,
        |a: int|
            if FONT_BASE <= a < FONT_BASE + FONT_LEN {
                font()[a - FONT_BASE]
            } else if PROGRAM_START <= a < PROGRAM_START + image.len() {
                image[a - PROGRAM_START]
            } else {
                0u8
            },
    )
}

/// A fresh machine with `image` loaded: everything zero but memory, and the
/// program counter at `PROGRAM_START`.
pub open spec fn initial(image: Seq<u8>) -> MachineView {
    MachineView {
        memory: initial_memory(image),
        registers: Seq::new(16, |i: int| 0u8),
        index: 0,
        pc: PROGRAM_START as int,
        gfx: Seq::new(SCREEN_SIZE as nat, |p: int| 0u8),
        delay_timer: 0,
        sound_timer: 0,
        stack: Seq::new(STACK_DEPTH as nat, |i: int| 0u16),
        stack_pointer: 0,
        keys: Seq::new(16, |k: int| 0u8),
        waiting_for_key: None,
    }
}

/// `mem` with `image` written from `PROGRAM_START` on.
pub open spec fn with_image(mem: Seq<u8>, image: Seq<u8>) -> Seq<u8> {
    Seq::new(
        mem.len(),
        |a: int|
            if PROGRAM_START <= a < PROGRAM_START + image.len() {
                image[a - PROGRAM_START]
            } else {
                mem[a]
            },
    )
}

/// `mem` with the font table written at `FONT_BASE`.
pub open spec fn with_font(mem: Seq<u8>) -> Seq<u8> {
    Seq::new(
        mem.len(),
        |a: int| if FONT_BASE <= a < FONT_BASE + FONT_LEN { font()[a - FONT_BASE] } else { mem[a] },
    )
}

/// The state after a keypad update with key `key` (`None`: no key held).
/// All keys are released, then `key` is held; a machine that waits for a
/// key gets it in the waiting register and stops waiting.
pub open spec fn keypad_update(s: MachineView, key: Option<u8>) -> MachineView {
    match key {
        None => MachineView { keys: Seq::new(16, |k: int| 0u8), ..s },
        Some(k) => {
            let held = MachineView { keys: Seq::new(16, |i: int| if i == k { 1u8 } else { 0u8 }), ..s };
            match s.waiting_for_key {
                Some(w) => MachineView { waiting_for_key: None, ..held.set_reg(w, k) },
                None => held,
            }
        },
    }
}

/// The state after one timer tick: each timer above zero goes down by one.
pub open spec fn timers_ticked(s: MachineView) -> MachineView {
    MachineView {
        delay_timer: if s.delay_timer > 0 { (s.delay_timer - 1) as u8 } else { 0 },
        sound_timer: if s.sound_timer > 0 { (s.sound_timer - 1) as u8 } else { 0 },
        ..s
    }
}

/// The outcome of executing instruction `ins` in state `s`, program counter
/// included; `random` is the byte that the random instruction draws.
pub open spec fn execute(s: MachineView, ins: Instruction, random: u8) -> Result<MachineView, Fault> {
    match ins {
        Instruction::ClearScreen => Ok(
            MachineView { gfx: Seq::new(SCREEN_SIZE as nat, |p: int| 0u8), ..s }.advance(2),
        ),
        Instruction::Return => if s.stack_pointer == 0 {
            Err(Fault::StackUnderflow)
        } else {
            Ok(
                MachineView {
                    stack_pointer: s.stack_pointer - 1,
                    pc: s.stack[s.stack_pointer - 1] + 2,
                    ..s
                },
            )
        },
        Instruction::Jump(a) => Ok(MachineView { pc: a as int, ..s }),
        Instruction::Call(a) => if s.stack_pointer == STACK_DEPTH {
            Err(Fault::StackOverflow)
        } else {
            Ok(
                MachineView {
                    stack: s.stack.update(s.stack_pointer, s.pc as u16),
                    stack_pointer: s.stack_pointer + 1,
                    pc: a as int,
                    ..s
                },
            )
        },
        Instruction::SkipEqualByte(x, kk) => Ok(s.skip_if(s.reg(x) == kk)),
        Instruction::SkipNotEqualByte(x, kk) => Ok(s.skip_if(s.reg(x) != kk)),
        Instruction::SkipEqualRegs(x, y) => Ok(s.skip_if(s.reg(x) == s.reg(y))),
        Instruction::LoadByte(x, kk) => Ok(s.set_reg(x, kk).advance(2)),
        Instruction::AddByte(x, kk) => Ok(s.set_reg(x, ((s.reg(x) + kk) % 256) as u8).advance(2)),
        Instruction::Move(x, y) => Ok(s.set_reg(x, s.reg(y)).advance(2)),
        Instruction::Or(x, y) => Ok(s.set_reg(x, s.reg(x) | s.reg(y)).advance(2)),
        Instruction::And(x, y) => Ok(s.set_reg(x, s.reg(x) & s.reg(y)).advance(2)),
        Instruction::Xor(x, y) => Ok(s.set_reg(x, s.reg(x) ^ s.reg(y)).advance(2)),
        Instruction::AddRegs(x, y) => {
            let sum = s.reg(x) + s.reg(y);
            Ok(
                s.set_reg(x, (sum % 256) as u8).set_reg(FLAG, if sum > 255 { 1u8 } else { 0u8 }).advance(2),
            )
        },
        Instruction::Sub(x, y) => Ok(
            s.set_reg(x, ((s.reg(x) - s.reg(y)) % 256) as u8).set_reg(
                FLAG,
                if s.reg(x) >= s.reg(y) { 1u8 } else { 0u8 },
            ).advance(2),
        ),
        Instruction::ShiftRight(x) => Ok(
            s.set_reg(x, s.reg(x) / 2).set_reg(FLAG, s.reg(x) % 2).advance(2),
        ),
        Instruction::SubReverse(x, y) => Ok(
            s.set_reg(x, ((s.reg(y) - s.reg(x)) % 256) as u8).set_reg(
                FLAG,
                if s.reg(y) >= s.reg(x) { 1u8 } else { 0u8 },
            ).advance(2),
        ),
        Instruction::ShiftLeft(x) => Ok(
            s.set_reg(x, ((s.reg(x) * 2) % 256) as u8).set_reg(FLAG, s.reg(x) / 128).advance(2),
        ),
        Instruction::SkipNotEqualRegs(x, y) => Ok(s.skip_if(s.reg(x) != s.reg(y))),
        Instruction::LoadIndex(a) => Ok(MachineView { index: a, ..s }.advance(2)),
        Instruction::JumpOffset(a) => Ok(MachineView { pc: a + s.reg(0), ..s }),
        Instruction::Random(x, kk) => Ok(s.set_reg(x, random & kk).advance(2)),
        Instruction::Draw(x, y, n) => if s.index + n > MEMORY_SIZE {
            Err(Fault::AddressOutOfRange)
        } else {
            Ok(draw_spec(s, s.reg(x), s.reg(y), n).advance(2))
        },
        Instruction::SkipKeyPressed(x) => Ok(s.skip_if(s.key_pressed(s.reg(x)))),
        Instruction::SkipKeyNotPressed(x) => Ok(s.skip_if(!s.key_pressed(s.reg(x)))),
        Instruction::LoadDelay(x) => Ok(s.set_reg(x, s.delay_timer).advance(2)),
        Instruction::WaitKey(x) => Ok(MachineView { waiting_for_key: Some(x), ..s }.advance(2)),
        Instruction::SetDelay(x) => Ok(MachineView { delay_timer: s.reg(x), ..s }.advance(2)),
        Instruction::SetSound(x) => Ok(MachineView { sound_timer: s.reg(x), ..s }.advance(2)),
        Instruction::AddIndex(x) => Ok(
            MachineView { index: ((s.index + s.reg(x)) % 0x10000) as u16, ..s }.advance(2),
        ),
        Instruction::LoadFont(x) => Ok(
            MachineView { index: (FONT_BASE + 5 * s.reg(x)) as u16, ..s }.advance(2),
        ),
        Instruction::StoreBcd(x) => if s.index + 3 > MEMORY_SIZE {
            Err(Fault::AddressOutOfRange)
        } else {
            Ok(MachineView { memory: stored_bcd(s, s.reg(x)), ..s }.advance(2))
        },
        Instruction::StoreRegs(x) => if s.index + x + 1 > MEMORY_SIZE {
            Err(Fault::AddressOutOfRange)
        } else {
            Ok(MachineView { memory: stored_regs(s, x), ..s }.advance(2))
        },
        Instruction::LoadRegs(x) => if s.index + x + 1 > MEMORY_SIZE {
            Err(Fault::AddressOutOfRange)
        } else {
            Ok(MachineView { registers: loaded_regs(s, x), ..s }.advance(2))
        },
    }
}

/// Flipping a pixel that is 0 or 1 leaves it 0 or 1, and flipping it twice
/// restores it.
pub proof fn lemma_toggle(g: u8)
    requires
        g <= 1,
    ensures
        g ^ 1u8 <= 1,
        (g ^ 1u8) ^ 1u8 == g,
        (g ^ 1u8 != 0) == (g == 0),
{
    assert(g <= 1 ==> g ^ 1u8 <= 1 && (g ^ 1u8) ^ 1u8 == g && (g ^ 1u8 != 0) == (g == 0)) by (bit_vector);
}

/// Executing an instruction from a state that can fetch one keeps the
/// state's bounds.
pub proof fn lemma_execute_wf(s: MachineView, ins: Instruction, random: u8)
    requires
        s.wf(),
        ins.wf(),
        s.pc + 1 < MEMORY_SIZE,
    ensures
        execute(s, ins, random) matches Ok(t) ==> t.wf(),
{
    match ins {
        Instruction::Draw(x, y, n) => {
            if s.index + n <= MEMORY_SIZE {
                let t = draw_spec(s, s.reg(x), s.reg(y), n);
                assert forall|p: int| 0 <= p < SCREEN_SIZE implies #[trigger] t.gfx[p] <= 1 by {
                    lemma_toggle(s.gfx[p]);
                }
            }
        },
        Instruction::Call(a) => {
            if s.stack_pointer < STACK_DEPTH {
                let t = s.stack.update(s.stack_pointer, s.pc as u16);
                assert forall|i: int| 0 <= i < STACK_DEPTH implies #[trigger] t[i] < 0x1000 by {}
            }
        },
        _ => {},
    }
}

/// The outcome of one cycle: nothing happens while the machine waits for a
/// key; otherwise the word at the program counter is fetched, decoded and
/// executed.
pub open spec fn cycle(s: MachineView, random: u8) -> Result<MachineView, Fault> {
    if s.waiting_for_key is Some {
        Ok(s)
    } else if s.pc + 1 >= MEMORY_SIZE {
        Err(Fault::ProgramCounterOutOfRange)
    } else {
        match decode_spec(s.fetch()) {
            None => Err(Fault::UnknownInstruction(s.fetch())),
            Some(ins) => execute(s, ins, random),
        }
    }
}

/// `t` and `r` are what a step with outcome `o` from `s` leaves: the new
/// state on success, `s` unchanged beside the fault otherwise.
pub open spec fn settles(o: Result<MachineView, Fault>, s: MachineView, r: Result<(), Fault>, t: MachineView) -> bool {
    match o {
        Ok(u) => r is Ok && t == u,
        Err(e) => r == Err::<(), Fault>(e) && t == s,
    }
}

} // verus!
