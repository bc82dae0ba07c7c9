use vstd::prelude::*;
use crate::font::{FONT_BASE, FONT_LEN, fontset};
use crate::instruction::{Instruction, decode};
use crate::model::{
    Fault, MachineView, MEMORY_SIZE, PROGRAM_START, MAX_IMAGE_LEN, SCREEN_SIZE, FLAG,
    STACK_DEPTH, initial, with_image, with_font, keypad_update, timers_ticked, execute, cycle,
    settles, drawn, collides, drawn_before, sprite_covers, sprite_bit, sprite_row_at, sprite_col_at,
    pixel_index, lemma_pixel_index, lemma_execute_wf,
};

verus! {

/// A machine: memory, registers, call stack, timers, keypad and framebuffer.
pub struct Chip8 {
    memory: [u8; 4096],
    registers: [u8; 16],
    indexing: u16,
    program_counter: usize,
    gfx: [u8; 2048],
    delay_timer: u8,
    sound_timer: u8,
    stack: [u16; 16],
    stack_pointer: usize,
    keys: [u8; 16],
    wait_index: Option<usize>,
}

impl View for Chip8 {
    type V = MachineView;

    closed spec fn view(&self) -> MachineView {
        MachineView {
            memory: self.memory@,
            registers: self.registers@,
            index: self.indexing,
            pc: self.program_counter as int,
            gfx: self.gfx@,
            delay_timer: self.delay_timer,
            sound_timer: self.sound_timer,
            stack: self.stack@,
            stack_pointer: self.stack_pointer as int,
            keys: self.keys@,
            waiting_for_key: self.wait_index,
        }
    }
}

/// The pairs (sum modulo 256, carry) of two bytes.
pub open spec fn add_carry_spec(a: u8, b: u8) -> (u8, u8) {
    (((a + b) % 256) as u8, if a + b > 255 { 1u8 } else { 0u8 })
}

impl Chip8 {
    pub open spec fn wf(&self) -> bool {
        self@.wf()
    }

    /// A machine with the font table in place and `image` loaded at
    /// `PROGRAM_START`; an image longer than `MAX_IMAGE_LEN` is refused.
    pub fn new(image: &[u8]) -> (r: Result<Chip8, Fault>)
        ensures
            image@.len() <= MAX_IMAGE_LEN <==> r is Ok,
            r matches Ok(m) ==> m@ == initial(image@) && m.wf(),
            r matches Err(e) ==> e == Fault::ImageTooLarge,
    {
        let mut chip8 = Chip8 {
            memory: [0u8; 4096],
            registers: [0u8; 16],
            indexing: 0,
            program_counter: PROGRAM_START,
            gfx: [0u8; 2048],
            delay_timer: 0,
            sound_timer: 0,
            stack: [0u16; 16],
            stack_pointer: 0,
            keys: [0u8; 16],
            wait_index: None,
        };
        proof {
            assert(chip8.gfx@ =~= Seq::new(SCREEN_SIZE as nat, |p: int| 0u8));
            assert(chip8.registers@ =~= Seq::new(16, |i: int| 0u8));
            assert(chip8.keys@ =~= Seq::new(16, |i: int| 0u8));
            assert(chip8.stack@ =~= Seq::new(STACK_DEPTH as nat, |i: int| 0u16));
        }
        match chip8.load_game(image) {
            Err(e) => {
                return Err(e);
            },
            Ok(()) => {},
        }
        chip8.load_fontset();
        assert(chip8.memory@ =~= initial(image@).memory);
        Ok(chip8)
    }

    /// Writes the font table at `FONT_BASE`.
    fn load_fontset(&mut self)
        requires
            old(self)@.memory.len() == MEMORY_SIZE,
        ensures
            final(self)@ == (MachineView { memory: with_font(old(self)@.memory), ..old(self)@ }),
    {
        let fontset = fontset();
        let mut memory = self.memory;
        let mut i: usize = 0;
        while i < FONT_LEN
            invariant
                0 <= i <= FONT_LEN,
                fontset@ == crate::font::font(),
                memory@.len() == MEMORY_SIZE,
                forall|a: int|
                    0 <= a < MEMORY_SIZE ==> #[trigger] memory@[a] == if FONT_BASE <= a < FONT_BASE + i {
                        fontset@[a - FONT_BASE]
                    } else {
                        self.memory@[a]
                    },
            decreases FONT_LEN - i,
        {
            memory[FONT_BASE + i] = fontset[i];
            i = i + 1;
        }
        assert(memory@ =~= with_font(self.memory@));
        self.memory = memory;
    }

    /// Copies a program image to memory from `PROGRAM_START` on; an image
    /// longer than `MAX_IMAGE_LEN` is refused and nothing is written.
    pub fn load_game(&mut self, image: &[u8]) -> (r: Result<(), Fault>)
        requires
            old(self)@.memory.len() == MEMORY_SIZE,
        ensures
            image@.len() <= MAX_IMAGE_LEN <==> r is Ok,
            r is Ok ==> final(self)@ == (MachineView {
                memory: with_image(old(self)@.memory, image@),
                ..old(self)@
            }),
            r matches Err(e) ==> e == Fault::ImageTooLarge && final(self)@ == old(self)@,
    {
        if image.len() > MAX_IMAGE_LEN {
            return Err(Fault::ImageTooLarge);
        }
        let mut memory = self.memory;
        let mut i: usize = 0;
        while i < image.len()
            invariant
                0 <= i <= image@.len() <= MAX_IMAGE_LEN,
                memory@.len() == MEMORY_SIZE,
                forall|a: int|
                    0 <= a < MEMORY_SIZE ==> #[trigger] memory@[a] == if PROGRAM_START <= a
                        < PROGRAM_START + i {
                        image@[a - PROGRAM_START]
                    } else {
                        self.memory@[a]
                    },
            decreases image@.len() - i,
        {
            memory[PROGRAM_START + i] = image[i];
            i = i + 1;
        }
        assert(memory@ =~= with_image(self.memory@, image@));
        self.memory = memory;
        Ok(())
    }

    /// Sum of two bytes modulo 256, and the carry out of it.
    fn add_with_carry(a: u8, b: u8) -> (r: (u8, u8))
        ensures
            r == add_carry_spec(a, b),
    {
        let s: u16 = a as u16 + b as u16;
        ((s % 256) as u8, if s > 255 { 1u8 } else { 0u8 })
    }

    /// The instruction word at the program counter, high byte first.
    fn fetch(&self) -> (w: u16)
        requires
            self.wf(),
            self@.pc + 1 < MEMORY_SIZE,
        ensures
            w == self@.fetch(),
    {
        let hi = self.memory[self.program_counter] as u16;
        let lo = self.memory[self.program_counter + 1] as u16;
        hi * 256 + lo
    }

    fn op_cls(&mut self)
        requires
            old(self).wf(),
        ensures
            execute(old(self)@, Instruction::ClearScreen, 0) == Ok::<MachineView, Fault>(final(self)@),
    {
        self.gfx = [0u8; 2048];
        assert(self.gfx@ =~= Seq::new(SCREEN_SIZE as nat, |p: int| 0u8));
        self.program_counter = self.program_counter + 2;
    }

    fn op_ret(&mut self) -> (r: Result<(), Fault>)
        requires
            old(self).wf(),
        ensures
            settles(execute(old(self)@, Instruction::Return, 0), old(self)@, r, final(self)@),
    {
        if self.stack_pointer == 0 {
            return Err(Fault::StackUnderflow);
        }
        self.stack_pointer = self.stack_pointer - 1;
        self.program_counter = self.stack[self.stack_pointer] as usize + 2;
        Ok(())
    }

    fn op_jmp(&mut self, a: u16)
        requires
            old(self).wf(),
        ensures
            execute(old(self)@, Instruction::Jump(a), 0) == Ok::<MachineView, Fault>(final(self)@),
    {
        self.program_counter = a as usize;
    }

    fn op_call(&mut self, a: u16) -> (r: Result<(), Fault>)
        requires
            old(self).wf(),
            old(self)@.pc + 1 < MEMORY_SIZE,
        ensures
            settles(execute(old(self)@, Instruction::Call(a), 0), old(self)@, r, final(self)@),
    {
        if self.stack_pointer == STACK_DEPTH {
            return Err(Fault::StackOverflow);
        }
        self.stack[self.stack_pointer] = self.program_counter as u16;
        self.stack_pointer = self.stack_pointer + 1;
        self.program_counter = a as usize;
        Ok(())
    }

    /// Moves on past the next instruction when `skip` holds, else to it.
    fn skip_if(&mut self, skip: bool)
        requires
            old(self).wf(),
        ensures
            final(self)@ == old(self)@.skip_if(skip),
    {
        if skip {
            self.program_counter = self.program_counter + 4;
        } else {
            self.program_counter = self.program_counter + 2;
        }
    }

    fn op_se_vx_byte(&mut self, x: usize, kk: u8)
        requires
            old(self).wf(),
            x < 16,
        ensures
            execute(old(self)@, Instruction::SkipEqualByte(x, kk), 0) == Ok::<MachineView, Fault>(final(self)@),
    {
        let skip = self.registers[x] == kk;
        self.skip_if(skip);
    }

    fn op_sne_vx_byte(&mut self, x: usize, kk: u8)
        requires
            old(self).wf(),
            x < 16,
        ensures
            execute(old(self)@, Instruction::SkipNotEqualByte(x, kk), 0) == Ok::<MachineView, Fault>(final(self)@),
    {
        let skip = self.registers[x] != kk;
        self.skip_if(skip);
    }

    fn op_se_vx_vy(&mut self, x: usize, y: usize)
        requires
            old(self).wf(),
            x < 16,
            y < 16,
        ensures
            execute(old(self)@, Instruction::SkipEqualRegs(x, y), 0) == Ok::<MachineView, Fault>(final(self)@),
    {
        let skip = self.registers[x] == self.registers[y];
        self.skip_if(skip);
    }

    fn op_sne_vx_vy(&mut self, x: usize, y: usize)
        requires
            old(self).wf(),
            x < 16,
            y < 16,
        ensures
            execute(old(self)@, Instruction::SkipNotEqualRegs(x, y), 0) == Ok::<MachineView, Fault>(final(self)@),
    {
        let skip = self.registers[x] != self.registers[y];
        self.skip_if(skip);
    }

    /// Sets register `x` to `v` and moves on to the next instruction.
    fn set_register(&mut self, x: usize, v: u8)
        requires
            old(self).wf(),
            x < 16,
        ensures
            final(self)@ == old(self)@.set_reg(x, v).advance(2),
    {
        self.registers[x] = v;
        self.program_counter = self.program_counter + 2;
    }

    /// Sets register `x` to `v`, then the flag register to `flag`, and moves
    /// on to the next instruction.
    fn set_register_and_flag(&mut self, x: usize, v: u8, flag: u8)
        requires
            old(self).wf(),
            x < 16,
        ensures
            final(self)@ == old(self)@.set_reg(x, v).set_reg(FLAG, flag).advance(2),
    {
        self.registers[x] = v;
        self.registers[FLAG] = flag;
        self.program_counter = self.program_counter + 2;
    }

    fn op_ld_vx_byte(&mut self, x: usize, kk: u8)
        requires
            old(self).wf(),
            x < 16,
        ensures
            execute(old(self)@, Instruction::LoadByte(x, kk), 0) == Ok::<MachineView, Fault>(final(self)@),
    {
        self.set_register(x, kk);
    }

    fn op_add_vx_byte(&mut self, x: usize, kk: u8)
        requires
            old(self).wf(),
            x < 16,
        ensures
            execute(old(self)@, Instruction::AddByte(x, kk), 0) == Ok::<MachineView, Fault>(final(self)@),
    {
        let (sum, _) = Self::add_with_carry(self.registers[x], kk);
        self.set_register(x, sum);
    }

    fn op_ld_vx_vy(&mut self, x: usize, y: usize)
        requires
            old(self).wf(),
            x < 16,
            y < 16,
        ensures
            execute(old(self)@, Instruction::Move(x, y), 0) == Ok::<MachineView, Fault>(final(self)@),
    {
        let v = self.registers[y];
        self.set_register(x, v);
    }

    fn op_or_vx_vy(&mut self, x: usize, y: usize)
        requires
            old(self).wf(),
            x < 16,
            y < 16,
        ensures
            execute(old(self)@, Instruction::Or(x, y), 0) == Ok::<MachineView, Fault>(final(self)@),
    {
        let v = self.registers[x] | self.registers[y];
        self.set_register(x, v);
    }

    fn op_and_vx_vy(&mut self, x: usize, y: usize)
        requires
            old(self).wf(),
            x < 16,
            y < 16,
        ensures
            execute(old(self)@, Instruction::And(x, y), 0) == Ok::<MachineView, Fault>(final(self)@),
    {
        let v = self.registers[x] & self.registers[y];
        self.set_register(x, v);
    }

    fn op_xor_vx_vy(&mut self, x: usize, y: usize)
        requires
            old(self).wf(),
            x < 16,
            y < 16,
        ensures
            execute(old(self)@, Instruction::Xor(x, y), 0) == Ok::<MachineView, Fault>(final(self)@),
    {
        let v = self.registers[x] ^ self.registers[y];
        self.set_register(x, v);
    }

    fn op_add_vx_vy(&mut self, x: usize, y: usize)
        requires
            old(self).wf(),
            x < 16,
            y < 16,
        ensures
            execute(old(self)@, Instruction::AddRegs(x, y), 0) == Ok::<MachineView, Fault>(final(self)@),
    {
        let (sum, carry) = Self::add_with_carry(self.registers[x], self.registers[y]);
        self.set_register_and_flag(x, sum, carry);
    }

    /// `a - b` modulo 256, and 1 when no borrow occurs (`a >= b`), else 0.
    fn sub_with_borrow(a: u8, b: u8) -> (r: (u8, u8))
        ensures
            r.0 == ((a - b) % 256) as u8,
            r.1 == if a >= b { 1u8 } else { 0u8 },
    {
        if a >= b {
            (a - b, 1)
        } else {
            ((256u16 + a as u16 - b as u16) as u8, 0)
        }
    }

    fn op_sub_vx_vy(&mut self, x: usize, y: usize)
        requires
            old(self).wf(),
            x < 16,
            y < 16,
        ensures
            execute(old(self)@, Instruction::Sub(x, y), 0) == Ok::<MachineView, Fault>(final(self)@),
    {
        let (diff, no_borrow) = Self::sub_with_borrow(self.registers[x], self.registers[y]);
        self.set_register_and_flag(x, diff, no_borrow);
    }

    fn op_subn_vx_vy(&mut self, x: usize, y: usize)
        requires
            old(self).wf(),
            x < 16,
            y < 16,
        ensures
            execute(old(self)@, Instruction::SubReverse(x, y), 0) == Ok::<MachineView, Fault>(final(self)@),
    {
        let (diff, no_borrow) = Self::sub_with_borrow(self.registers[y], self.registers[x]);
        self.set_register_and_flag(x, diff, no_borrow);
    }

    fn op_shr_vx_vy(&mut self, x: usize)
        requires
            old(self).wf(),
            x < 16,
        ensures
            execute(old(self)@, Instruction::ShiftRight(x), 0) == Ok::<MachineView, Fault>(final(self)@),
    {
        let v = self.registers[x];
        self.set_register_and_flag(x, v / 2, v % 2);
    }

    fn op_shl_vx_vy(&mut self, x: usize)
        requires
            old(self).wf(),
            x < 16,
        ensures
            execute(old(self)@, Instruction::ShiftLeft(x), 0) == Ok::<MachineView, Fault>(final(self)@),
    {
        let v = self.registers[x];
        let shifted = ((v as u16 * 2) % 256) as u8;
        self.set_register_and_flag(x, shifted, v / 128);
    }

    fn op_ld_i(&mut self, a: u16)
        requires
            old(self).wf(),
        ensures
            execute(old(self)@, Instruction::LoadIndex(a), 0) == Ok::<MachineView, Fault>(final(self)@),
    {
        self.indexing = a;
        self.program_counter = self.program_counter + 2;
    }

    fn op_jmp_v0(&mut self, a: u16)
        requires
            old(self).wf(),
        ensures
            execute(old(self)@, Instruction::JumpOffset(a), 0) == Ok::<MachineView, Fault>(final(self)@),
    {
        self.program_counter = a as usize + self.registers[0] as usize;
    }

    fn op_rnd(&mut self, x: usize, kk: u8, random: u8)
        requires
            old(self).wf(),
            x < 16,
        ensures
            execute(old(self)@, Instruction::Random(x, kk), random) == Ok::<MachineView, Fault>(final(self)@),
    {
        self.set_register(x, random & kk);
    }

    /// Key `v` exists and is held down.
    fn key_pressed(&self, v: u8) -> (r: bool)
        requires
            self.wf(),
        ensures
            r == self@.key_pressed(v),
    {
        v < 16 && self.keys[v as usize] == 1
    }

    fn op_skp(&mut self, x: usize)
        requires
            old(self).wf(),
            x < 16,
        ensures
            execute(old(self)@, Instruction::SkipKeyPressed(x), 0) == Ok::<MachineView, Fault>(final(self)@),
    {
        let skip = self.key_pressed(self.registers[x]);
        self.skip_if(skip);
    }

    fn op_sknp(&mut self, x: usize)
        requires
            old(self).wf(),
            x < 16,
        ensures
            execute(old(self)@, Instruction::SkipKeyNotPressed(x), 0) == Ok::<MachineView, Fault>(final(self)@),
    {
        let skip = !self.key_pressed(self.registers[x]);
        self.skip_if(skip);
    }

    fn op_ld_vx_dt(&mut self, x: usize)
        requires
            old(self).wf(),
            x < 16,
        ensures
            execute(old(self)@, Instruction::LoadDelay(x), 0) == Ok::<MachineView, Fault>(final(self)@),
    {
        let dt = self.delay_timer;
        self.set_register(x, dt);
    }

    /// Waits for a key: no instruction runs until a keypad update with a key
    /// writes that key to `Vx`.
    fn op_ld_vx_k(&mut self, x: usize)
        requires
            old(self).wf(),
            x < 16,
        ensures
            execute(old(self)@, Instruction::WaitKey(x), 0) == Ok::<MachineView, Fault>(final(self)@),
    {
        self.wait_index = Some(x);
        self.program_counter = self.program_counter + 2;
    }

    fn op_ld_dt_vx(&mut self, x: usize)
        requires
            old(self).wf(),
            x < 16,
        ensures
            execute(old(self)@, Instruction::SetDelay(x), 0) == Ok::<MachineView, Fault>(final(self)@),
    {
        self.delay_timer = self.registers[x];
        self.program_counter = self.program_counter + 2;
    }

    fn op_ld_st_vx(&mut self, x: usize)
        requires
            old(self).wf(),
            x < 16,
        ensures
            execute(old(self)@, Instruction::SetSound(x), 0) == Ok::<MachineView, Fault>(final(self)@),
    {
        self.sound_timer = self.registers[x];
        self.program_counter = self.program_counter + 2;
    }

    fn op_add_i_vx(&mut self, x: usize)
        requires
            old(self).wf(),
            x < 16,
        ensures
            execute(old(self)@, Instruction::AddIndex(x), 0) == Ok::<MachineView, Fault>(final(self)@),
    {
        self.indexing = ((self.indexing as u32 + self.registers[x] as u32) % 0x10000) as u16;
        self.program_counter = self.program_counter + 2;
    }

    fn op_ld_f_vx(&mut self, x: usize)
        requires
            old(self).wf(),
            x < 16,
        ensures
            execute(old(self)@, Instruction::LoadFont(x), 0) == Ok::<MachineView, Fault>(final(self)@),
    {
        self.indexing = (FONT_BASE + 5 * (self.registers[x] as usize)) as u16;
        self.program_counter = self.program_counter + 2;
    }

    fn op_ld_b_vx(&mut self, x: usize) -> (r: Result<(), Fault>)
        requires
            old(self).wf(),
            x < 16,
        ensures
            settles(execute(old(self)@, Instruction::StoreBcd(x), 0), old(self)@, r, final(self)@),
    {
        let i = self.indexing as usize;
        if i + 3 > MEMORY_SIZE {
            return Err(Fault::AddressOutOfRange);
        }
        let v = self.registers[x];
        self.memory[i] = v / 100;
        self.memory[i + 1] = (v / 10) % 10;
        self.memory[i + 2] = v % 10;
        self.program_counter = self.program_counter + 2;
        Ok(())
    }

    fn op_ld_i_vx(&mut self, x: usize) -> (r: Result<(), Fault>)
        requires
            old(self).wf(),
            x < 16,
        ensures
            settles(execute(old(self)@, Instruction::StoreRegs(x), 0), old(self)@, r, final(self)@),
    {
        let base = self.indexing as usize;
        if base + x + 1 > MEMORY_SIZE {
            return Err(Fault::AddressOutOfRange);
        }
        let mut memory = self.memory;
        let mut i: usize = 0;
        while i <= x
            invariant
                0 <= i <= x + 1,
                x < 16,
                base == self.indexing,
                base + x + 1 <= MEMORY_SIZE,
                self.registers@.len() == 16,
                memory@.len() == MEMORY_SIZE,
                forall|a: int|
                    0 <= a < MEMORY_SIZE ==> #[trigger] memory@[a] == if base <= a < base + i {
                        self.registers@[a - base]
                    } else {
                        self.memory@[a]
                    },
            decreases x + 1 - i,
        {
            memory[base + i] = self.registers[i];
            i = i + 1;
        }
        assert(memory@ =~= crate::model::stored_regs(self@, x));
        self.memory = memory;
        self.program_counter = self.program_counter + 2;
        Ok(())
    }

    fn op_ld_vx_i(&mut self, x: usize) -> (r: Result<(), Fault>)
        requires
            old(self).wf(),
            x < 16,
        ensures
            settles(execute(old(self)@, Instruction::LoadRegs(x), 0), old(self)@, r, final(self)@),
    {
        let base = self.indexing as usize;
        if base + x + 1 > MEMORY_SIZE {
            return Err(Fault::AddressOutOfRange);
        }
        let mut registers = self.registers;
        let mut i: usize = 0;
        while i <= x
            invariant
                0 <= i <= x + 1,
                x < 16,
                base == self.indexing,
                base + x + 1 <= MEMORY_SIZE,
                self.memory@.len() == MEMORY_SIZE,
                registers@.len() == 16,
                forall|r: int|
                    0 <= r < 16 ==> #[trigger] registers@[r] == if r < i {
                        self.memory@[base + r]
                    } else {
                        self.registers@[r]
                    },
            decreases x + 1 - i,
        {
            registers[i] = self.memory[base + i];
            i = i + 1;
        }
        assert(registers@ =~= crate::model::loaded_regs(self@, x));
        self.registers = registers;
        self.program_counter = self.program_counter + 2;
        Ok(())
    }

    /// The framebuffer with the `n`-row sprite at the index register XOR-ed
    /// onto it at `(vx, vy)`, and whether a lit pixel was turned off.
    fn xor_sprite(&self, vx: u8, vy: u8, n: u8) -> (r: ([u8; 2048], bool))
        requires
            self.wf(),
            n < 16,
            self@.index + n <= MEMORY_SIZE,
        ensures
            r.0@ == drawn(self@.gfx, self@.memory, self@.index, n, vx, vy),
            r.1 == collides(self@.gfx, self@.memory, self@.index, n, vx, vy),
    {
        let ghost mem = self@.memory;
        let ghost g0 = self@.gfx;
        let index = self.indexing as usize;
        let mut gfx = self.gfx;
        let mut collided = false;
        let mut r: usize = 0;
        while r < n as usize
            invariant
                self.wf(),
                mem == self@.memory,
                g0 == self@.gfx,
                index == self.indexing,
                n < 16,
                index + n <= MEMORY_SIZE,
                0 <= r <= n,
                gfx@.len() == SCREEN_SIZE,
                forall|p: int|
                    0 <= p < SCREEN_SIZE ==> #[trigger] gfx@[p] == if drawn_before(
                        mem,
                        self.indexing,
                        n,
                        vx,
                        vy,
                        p,
                        r as int,
                        0,
                    ) {
                        g0[p] ^ 1u8
                    } else {
                        g0[p]
                    },
                collided == exists|p: int|
                    0 <= p < SCREEN_SIZE && #[trigger] drawn_before(
                        mem,
                        self.indexing,
                        n,
                        vx,
                        vy,
                        p,
                        r as int,
                        0,
                    ) && g0[p] != 0,
            decreases n - r,
        {
            let sprite = self.memory[index + r];
            let row = ((vy % 32) as usize + r) % 32;
            let mut j: usize = 0;
            while j < 8
                invariant
                    self.wf(),
                    mem == self@.memory,
                    g0 == self@.gfx,
                    index == self.indexing,
                    n < 16,
                    index + n <= MEMORY_SIZE,
                    0 <= r < n,
                    0 <= j <= 8,
                    sprite == mem[index + r],
                    row == ((vy % 32) as int + r) % 32,
                    gfx@.len() == SCREEN_SIZE,
                    forall|p: int|
                        0 <= p < SCREEN_SIZE ==> #[trigger] gfx@[p] == if drawn_before(
                            mem,
                            self.indexing,
                            n,
                            vx,
                            vy,
                            p,
                            r as int,
                            j as int,
                        ) {
                            g0[p] ^ 1u8
                        } else {
                            g0[p]
                        },
                    collided == exists|p: int|
                        0 <= p < SCREEN_SIZE && #[trigger] drawn_before(
                            mem,
                            self.indexing,
                            n,
                            vx,
                            vy,
                            p,
                            r as int,
                            j as int,
                        ) && g0[p] != 0,
                decreases 8 - j,
            {
                let pos = row * 64 + ((vx % 64) as usize + j) % 64;
                proof {
                    lemma_pixel_index(vx, vy, r as int, j as int);
                    assert(pos == pixel_index(vx, vy, r as int, j as int));
                }
                let ghost before = gfx@;
                let ghost was_collided = collided;
                let set = sprite & (0x80u8 >> (j as u8)) != 0;
                assert(set == sprite_bit(sprite, j as int));
                if set {
                    if gfx[pos] != 0 {
                        collided = true;
                    }
                    gfx[pos] = gfx[pos] ^ 1;
                }
                proof {
                    assert forall|p: int| 0 <= p < SCREEN_SIZE implies #[trigger] drawn_before(
                        mem,
                        self.indexing,
                        n,
                        vx,
                        vy,
                        p,
                        r as int,
                        j + 1,
                    ) == (drawn_before(mem, self.indexing, n, vx, vy, p, r as int, j as int) || (p
                        == pos && set)) by {
                        if sprite_row_at(p, vy) == r && sprite_col_at(p, vx) == j {
                            assert(p == pos);
                        }
                    }
                    if set && before[pos as int] != 0 {
                        assert(drawn_before(mem, self.indexing, n, vx, vy, pos as int, r as int, j + 1));
                    }
                    if was_collided {
                        let q = choose|q: int|
                            0 <= q < SCREEN_SIZE && #[trigger] drawn_before(
                                mem,
                                self.indexing,
                                n,
                                vx,
                                vy,
                                q,
                                r as int,
                                j as int,
                            ) && g0[q] != 0;
                        assert(drawn_before(mem, self.indexing, n, vx, vy, q, r as int, j + 1));
                    }
                }
                j = j + 1;
            }
            proof {
                assert forall|p: int| 0 <= p < SCREEN_SIZE implies #[trigger] drawn_before(
                    mem,
                    self.indexing,
                    n,
                    vx,
                    vy,
                    p,
                    r + 1,
                    0,
                ) == drawn_before(mem, self.indexing, n, vx, vy, p, r as int, 8) by {}
                if collided {
                    let q = choose|q: int|
                        0 <= q < SCREEN_SIZE && #[trigger] drawn_before(
                            mem,
                            self.indexing,
                            n,
                            vx,
                            vy,
                            q,
                            r as int,
                            8,
                        ) && g0[q] != 0;
                    assert(drawn_before(mem, self.indexing, n, vx, vy, q, r + 1, 0));
                }
            }
            r = r + 1;
        }
        proof {
            assert forall|p: int| 0 <= p < SCREEN_SIZE implies #[trigger] drawn_before(
                mem,
                self.indexing,
                n,
                vx,
                vy,
                p,
                n as int,
                0,
            ) == sprite_covers(mem, self.indexing, n, vx, vy, p) by {}
            assert(gfx@ =~= drawn(g0, mem, self.indexing, n, vx, vy));
            if collided {
                let q = choose|q: int|
                    0 <= q < SCREEN_SIZE && #[trigger] drawn_before(
                        mem,
                        self.indexing,
                        n,
                        vx,
                        vy,
                        q,
                        n as int,
                        0,
                    ) && g0[q] != 0;
                assert(sprite_covers(mem, self.indexing, n, vx, vy, q));
            }
            if collides(g0, mem, self.indexing, n, vx, vy) {
                let q = choose|q: int|
                    0 <= q < SCREEN_SIZE && #[trigger] sprite_covers(mem, self.indexing, n, vx, vy, q)
                        && g0[q] != 0;
                assert(drawn_before(mem, self.indexing, n, vx, vy, q, n as int, 0));
            }
        }
        (gfx, collided)
    }

    /// Draws the sprite: the coordinates are read from `Vx` and `Vy`, then the
    /// flag register is set to 1 when a lit pixel was turned off, else 0.
    fn op_drw(&mut self, x: usize, y: usize, n: u8) -> (r: Result<(), Fault>)
        requires
            old(self).wf(),
            x < 16,
            y < 16,
            n < 16,
        ensures
            settles(execute(old(self)@, Instruction::Draw(x, y, n), 0), old(self)@, r, final(self)@),
    {
        if self.indexing as usize + n as usize > MEMORY_SIZE {
            return Err(Fault::AddressOutOfRange);
        }
        let vx = self.registers[x];
        let vy = self.registers[y];
        let (gfx, collided) = self.xor_sprite(vx, vy, n);
        self.gfx = gfx;
        self.registers[FLAG] = if collided { 1 } else { 0 };
        self.program_counter = self.program_counter + 2;
        Ok(())
    }

    /// Runs a decoded instruction.
    fn execute_decoded(&mut self, ins: Instruction, random: u8) -> (r: Result<(), Fault>)
        requires
            old(self).wf(),
            ins.wf(),
            old(self)@.pc + 1 < MEMORY_SIZE,
        ensures
            settles(execute(old(self)@, ins, random), old(self)@, r, final(self)@),
    {
        match ins {
            Instruction::ClearScreen => {
                self.op_cls();
                Ok(())
            },
            Instruction::Return => self.op_ret(),
            Instruction::Jump(a) => {
                self.op_jmp(a);
                Ok(())
            },
            Instruction::Call(a) => self.op_call(a),
            Instruction::SkipEqualByte(x, kk) => {
                self.op_se_vx_byte(x, kk);
                Ok(())
            },
            Instruction::SkipNotEqualByte(x, kk) => {
                self.op_sne_vx_byte(x, kk);
                Ok(())
            },
            Instruction::SkipEqualRegs(x, y) => {
                self.op_se_vx_vy(x, y);
                Ok(())
            },
            Instruction::LoadByte(x, kk) => {
                self.op_ld_vx_byte(x, kk);
                Ok(())
            },
            Instruction::AddByte(x, kk) => {
                self.op_add_vx_byte(x, kk);
                Ok(())
            },
            Instruction::Move(x, y) => {
                self.op_ld_vx_vy(x, y);
                Ok(())
            },
            Instruction::Or(x, y) => {
                self.op_or_vx_vy(x, y);
                Ok(())
            },
            Instruction::And(x, y) => {
                self.op_and_vx_vy(x, y);
                Ok(())
            },
            Instruction::Xor(x, y) => {
                self.op_xor_vx_vy(x, y);
                Ok(())
            },
            Instruction::AddRegs(x, y) => {
                self.op_add_vx_vy(x, y);
                Ok(())
            },
            Instruction::Sub(x, y) => {
                self.op_sub_vx_vy(x, y);
                Ok(())
            },
            Instruction::ShiftRight(x) => {
                self.op_shr_vx_vy(x);
                Ok(())
            },
            Instruction::SubReverse(x, y) => {
                self.op_subn_vx_vy(x, y);
                Ok(())
            },
            Instruction::ShiftLeft(x) => {
                self.op_shl_vx_vy(x);
                Ok(())
            },
            Instruction::SkipNotEqualRegs(x, y) => {
                self.op_sne_vx_vy(x, y);
                Ok(())
            },
            Instruction::LoadIndex(a) => {
                self.op_ld_i(a);
                Ok(())
            },
            Instruction::JumpOffset(a) => {
                self.op_jmp_v0(a);
                Ok(())
            },
            Instruction::Random(x, kk) => {
                self.op_rnd(x, kk, random);
                Ok(())
            },
            Instruction::Draw(x, y, n) => self.op_drw(x, y, n),
            Instruction::SkipKeyPressed(x) => {
                self.op_skp(x);
                Ok(())
            },
            Instruction::SkipKeyNotPressed(x) => {
                self.op_sknp(x);
                Ok(())
            },
            Instruction::LoadDelay(x) => {
                self.op_ld_vx_dt(x);
                Ok(())
            },
            Instruction::WaitKey(x) => {
                self.op_ld_vx_k(x);
                Ok(())
            },
            Instruction::SetDelay(x) => {
                self.op_ld_dt_vx(x);
                Ok(())
            },
            Instruction::SetSound(x) => {
                self.op_ld_st_vx(x);
                Ok(())
            },
            Instruction::AddIndex(x) => {
                self.op_add_i_vx(x);
                Ok(())
            },
            Instruction::LoadFont(x) => {
                self.op_ld_f_vx(x);
                Ok(())
            },
            Instruction::StoreBcd(x) => self.op_ld_b_vx(x),
            Instruction::StoreRegs(x) => self.op_ld_i_vx(x),
            Instruction::LoadRegs(x) => self.op_ld_vx_i(x),
        }
    }

    /// Runs one cycle with `random` as the byte that a random instruction
    /// draws. While the machine waits for a key nothing happens. Otherwise the
    /// word at the program counter is fetched, decoded and executed; on a
    /// fault the machine is left as it was.
    pub fn emulate_cycle_with(&mut self, random: u8) -> (r: Result<(), Fault>)
        requires
            old(self).wf(),
        ensures
            final(self).wf(),
            settles(cycle(old(self)@, random), old(self)@, r, final(self)@),
    {
        if self.wait_index.is_some() {
            return Ok(());
        }
        if self.program_counter + 1 >= MEMORY_SIZE {
            return Err(Fault::ProgramCounterOutOfRange);
        }
        let word = self.fetch();
        match decode(word) {
            None => Err(Fault::UnknownInstruction(word)),
            Some(ins) => {
                proof {
                    lemma_execute_wf(self@, ins, random);
                }
                self.execute_decoded(ins, random)
            },
        }
    }

    /// Runs one cycle, drawing a fresh random byte for a random instruction.
    pub fn emulate_cycle(&mut self) -> (r: Result<(), Fault>)
        requires
            old(self).wf(),
        ensures
            final(self).wf(),
            exists|b: u8| settles(cycle(old(self)@, b), old(self)@, r, final(self)@),
    {
        let random = rand::random::<u8>();
        self.emulate_cycle_with(random)
    }

    /// One timer tick: the delay and sound timers each go down by one unless
    /// already zero.
    pub fn decrease_dt(&mut self)
        requires
            old(self).wf(),
        ensures
            final(self).wf(),
            final(self)@ == timers_ticked(old(self)@),
    {
        if self.delay_timer > 0 {
            self.delay_timer = self.delay_timer - 1;
        }
        if self.sound_timer > 0 {
            self.sound_timer = self.sound_timer - 1;
        }
    }

    /// The framebuffer, 64 pixels per row, row by row; 1 is lit.
    pub fn get_gfx(&self) -> (r: &[u8; 2048])
        ensures
            r@ == self@.gfx,
    {
        &self.gfx
    }

    /// A keypad update: all keys are released, then `key` (if any) is held.
    /// A machine that waits for a key gets it in the waiting register.
    pub fn press_key(&mut self, key: Option<u8>)
        requires
            old(self).wf(),
            key matches Some(k) ==> k < 16,
        ensures
            final(self).wf(),
            final(self)@ == keypad_update(old(self)@, key),
    {
        self.keys = [0u8; 16];
        match key {
            None => {
                assert(self.keys@ =~= Seq::new(16, |k: int| 0u8));
            },
            Some(k) => {
                self.keys[k as usize] = 1;
                assert(self.keys@ =~= Seq::new(16, |i: int| if i == k { 1u8 } else { 0u8 }));
                match self.wait_index {
                    Some(w) => {
                        self.registers[w] = k;
                        self.wait_index = None;
                    },
                    None => {},
                }
            },
        }
    }

    /// A keypad update from a keyboard character (see `key_for_char`); any
    /// other character releases all keys.
    pub fn update_keys(&mut self, input: char)
        requires
            old(self).wf(),
        ensures
            final(self).wf(),
            final(self)@ == keypad_update(old(self)@, key_of_char(input)),
    {
        let key = key_for_char(input);
        self.press_key(key);
    }

    /// The value of register `x`.
    pub fn register(&self, x: usize) -> (r: u8)
        requires
            self.wf(),
            x < 16,
        ensures
            r == self@.reg(x),
    {
        self.registers[x]
    }

    /// The address of the next instruction to fetch.
    pub fn program_counter(&self) -> (r: usize)
        ensures
            r == self@.pc,
    {
        self.program_counter
    }

    /// The index register.
    pub fn index_register(&self) -> (r: u16)
        ensures
            r == self@.index,
    {
        self.indexing
    }

    /// The byte at address `a`.
    pub fn memory_at(&self, a: usize) -> (r: u8)
        requires
            self.wf(),
            a < MEMORY_SIZE,
        ensures
            r == self@.memory[a as int],
    {
        self.memory[a]
    }

    /// The delay timer.
    pub fn delay_timer(&self) -> (r: u8)
        ensures
            r == self@.delay_timer,
    {
        self.delay_timer
    }

    /// The sound timer.
    pub fn sound_timer(&self) -> (r: u8)
        ensures
            r == self@.sound_timer,
    {
        self.sound_timer
    }

    /// Return addresses on the call stack.
    pub fn stack_depth(&self) -> (r: usize)
        ensures
            r == self@.stack_pointer,
    {
        self.stack_pointer
    }

    /// The register that the next key press goes to, while the machine waits.
    pub fn waiting_for_key(&self) -> (r: Option<usize>)
        ensures
            r == self@.waiting_for_key,
    {
        self.wait_index
    }

    /// Key `k` is held down.
    pub fn key_held(&self, k: u8) -> (r: bool)
        requires
            self.wf(),
        ensures
            r == self@.key_pressed(k),
    {
        self.key_pressed(k)
    }

} // impl Chip8

/// The key that a keyboard character stands for, on a layout whose left
/// four columns of rows `1234`, `qwer`, `asdf` and `yxcv` form the keypad
/// `123C`, `456D`, `789E`, `A0BF`.
pub open spec fn key_of_char(c: char) -> Option<u8> {
    if c == '1' { Some(0x1u8) }
    else if c == '2' { Some(0x2u8) }
    else if c == '3' { Some(0x3u8) }
    else if c == '4' { Some(0xCu8) }
    else if c == 'q' { Some(0x4u8) }
    else if c == 'w' { Some(0x5u8) }
    else if c == 'e' { Some(0x6u8) }
    else if c == 'r' { Some(0xDu8) }
    else if c == 'a' { Some(0x7u8) }
    else if c == 's' { Some(0x8u8) }
    else if c == 'd' { Some(0x9u8) }
    else if c == 'f' { Some(0xEu8) }
    else if c == 'y' { Some(0xAu8) }
    else if c == 'x' { Some(0x0u8) }
    else if c == 'c' { Some(0xBu8) }
    else if c == 'v' { Some(0xFu8) }
    else { None }
}

/// The key that a keyboard character stands for, if any.
pub fn key_for_char(c: char) -> (r: Option<u8>)
    ensures
        r == key_of_char(c),
        r matches Some(k) ==> k < 16,
{
    match c {
        '1' => Some(0x1),
        '2' => Some(0x2),
        '3' => Some(0x3),
        '4' => Some(0xC),
        'q' => Some(0x4),
        'w' => Some(0x5),
        'e' => Some(0x6),
        'r' => Some(0xD),
        'a' => Some(0x7),
        's' => Some(0x8),
        'd' => Some(0x9),
        'f' => Some(0xE),
        'y' => Some(0xA),
        'x' => Some(0x0),
        'c' => Some(0xB),
        'v' => Some(0xF),
        _ => None,
    }
}

} // verus!
