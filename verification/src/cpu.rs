use vstd::prelude::*;

use crate::fault::{Fault, Status};
use crate::instruction::{decode, Instruction};
use crate::keyboard::Keyboard;
use crate::machine::{
    applied, cycled, drawable, executed, fault_of, flag_of, lemma_ran_reads_prefix, ran, restored,
    shown, skip_fault, stepped, stored, Frame, Halt, Machine, FLAG, FONT, GLYPH_BYTES,
    MEMORY_SIZE, PROGRAM_LIMIT, PROGRAM_START, RANDOM_LIMIT, STEPS_PER_TICK, TONE_HZ,
};
use crate::random::random_below;
use crate::renderer::{cell_of, Renderer, DISPLAY_CELLS, DISPLAY_HEIGHT, DISPLAY_WIDTH};
use crate::speaker::{Speaker, Tone};
use crate::sprite::{
    collides, collides_among, covers_among, drawn, lemma_collides_all, lemma_collides_next,
    lemma_covers_all, lemma_covers_fresh, lemma_covers_next, sprite_bit, sprite_covers,
};

verus! {

/// The index of a general register: always below sixteen.
struct Register {
    index: u8,
}

impl Register {
    #[verifier::type_invariant]
    spec fn in_range(self) -> bool {
        self.index < 16
    }

    /// The index. Taken modulo sixteen, which changes nothing of an index
    /// in range and keeps the number in range whatever it is taken of.
    closed spec fn number(self) -> int {
        self.index as int % 16
    }

    fn new(index: u8) -> (register: Register)
        requires
            index < 16,
        ensures
            register.number() == index,
    {
        Register { index }
    }

    fn get(&self) -> (index: usize)
        ensures
            index == self.number(),
            index < 16,
    {
        proof {
            use_type_invariant(self);
        }
        self.index as usize
    }
}

/// Instructions that only move the program counter or the call stack.
spec fn is_flow(instr: Instruction) -> bool {
    match instr {
        Instruction::Return
        | Instruction::Jump { .. }
        | Instruction::Call { .. }
        | Instruction::SkipIfEqual { .. }
        | Instruction::SkipIfNotEqual { .. }
        | Instruction::SkipIfRegistersDiffer { .. }
        | Instruction::JumpOffset { .. }
        | Instruction::SkipIfKeyDown { .. }
        | Instruction::SkipIfKeyUp { .. } => true,
        _ => false,
    }
}

/// Instructions that only write registers.
spec fn is_compute(instr: Instruction) -> bool {
    match instr {
        Instruction::Load { .. }
        | Instruction::AddValue { .. }
        | Instruction::Move { .. }
        | Instruction::Or { .. }
        | Instruction::And { .. }
        | Instruction::Xor { .. }
        | Instruction::AddRegister { .. }
        | Instruction::Subtract { .. }
        | Instruction::ShiftRight { .. }
        | Instruction::SubtractFrom { .. }
        | Instruction::ShiftLeft { .. }
        | Instruction::Random { .. }
        | Instruction::ReadDelay { .. } => true,
        _ => false,
    }
}

/// Instructions that write the index register, the timers, the pause state
/// or memory, and the one that does nothing.
spec fn is_transfer(instr: Instruction) -> bool {
    !is_flow(instr) && !is_compute(instr) && !(instr is ClearScreen) && !(instr is Draw)
}

/// The interpreter: memory, registers, call stack, timers and pause state.
///
/// The call stack has no limit of its own: it grows as deep as calls nest.
pub struct CPU {
    memory: [u8; 4096],
    v: [u8; 16],
    i: u16,
    delayTimer: u8,
    soundTimer: u8,
    pc: u16,
    stack: Vec<u16>,
    paused: bool,
    unpauseVIndex: Register,
}

impl View for CPU {
    type V = Machine;

    closed spec fn view(&self) -> Machine {
        Machine {
            memory: self.memory@,
            v: self.v@,
            i: self.i,
            pc: self.pc,
            stack: self.stack@,
            delay: self.delayTimer,
            sound: self.soundTimer,
            paused: self.paused,
            pending: self.unpauseVIndex.number(),
        }
    }
}

impl CPU {
    /// A machine with memory, registers and timers at zero, an empty call
    /// stack, and the program counter at `PROGRAM_START`.
    pub fn new() -> (cpu: CPU)
        ensures
            cpu@ == Machine::startup(),
            cpu@.wf(),
    {
        let cpu = CPU {
            memory: [0; 4096],
            v: [0; 16],
            i: 0,
            delayTimer: 0,
            soundTimer: 0,
            pc: PROGRAM_START,
            stack: Vec::new(),
            paused: false,
            unpauseVIndex: Register::new(0),
        };
        assert(cpu.memory@ =~= Machine::startup().memory);
        assert(cpu.v@ =~= Machine::startup().v);
        cpu
    }

    /// Copies the built-in font to the first eighty bytes of memory.
    pub fn loadSpritesIntoMemory(&mut self)
        ensures
            final(self)@ == old(self)@.with_font(),
            final(self)@.wf(),
    {
        let mut at: usize = 0;
        while at < 80
            invariant
                at <= 80,
                self@ == (Machine { memory: self.memory@, ..old(self)@ }),
                forall|k: int| 0 <= k < at ==> self.memory@[k] == FONT@[k],
                forall|k: int| at <= k < MEMORY_SIZE ==> self.memory@[k] == old(self).memory@[k],
            decreases 80 - at,
        {
            self.memory[at] = FONT[at];
            at += 1;
        }
        assert(self.memory@ =~= old(self)@.with_font().memory);
    }

    /// Copies `program` to memory from `PROGRAM_START` on. A program that
    /// does not fit is refused with `OutOfBounds`, and memory is left alone.
    pub fn loadProgramIntoMemory(&mut self, program: Vec<u8>) -> (result: Result<(), Fault>)
        ensures
            program@.len() <= PROGRAM_LIMIT ==> result == Ok::<(), Fault>(()) && final(self)@ == old(
                self,
            )@.with_program(program@),
            program@.len() > PROGRAM_LIMIT ==> result == Err::<(), Fault>(Fault::OutOfBounds)
                && final(self)@ == old(self)@,
            final(self)@.wf(),
    {
        if program.len() > PROGRAM_LIMIT {
            return Err(Fault::OutOfBounds);
        }
        let start: usize = PROGRAM_START as usize;
        let mut at: usize = 0;
        while at < program.len()
            invariant
                at <= program.len() <= PROGRAM_LIMIT,
                start == PROGRAM_START,
                self@ == (Machine { memory: self.memory@, ..old(self)@ }),
                forall|k: int| 0 <= k < at ==> self.memory@[start + k] == program@[k],
                forall|k: int|
                    0 <= k < MEMORY_SIZE && !(start <= k < start + at) ==> self.memory@[k] == old(
                        self,
                    ).memory@[k],
            decreases program.len() - at,
        {
            self.memory[start + at] = program[at];
            at += 1;
        }
        assert(self.memory@ =~= old(self)@.with_program(program@).memory);
        Ok(())
    }

    /// Whether the machine is waiting for a key.
    pub fn isPaused(&self) -> (paused: bool)
        ensures
            paused == self@.paused,
            self@.wf(),
    {
        proof {
            self.lemma_wf();
        }
        self.paused
    }

    /// Every machine is well formed: memory and registers have their sizes
    /// and the pending register is one of the sixteen.
    pub proof fn lemma_wf(&self)
        ensures
            self@.wf(),
    {
    }

    /// Accepts a key: writes it to the pending register and lets the
    /// machine run again.
    pub fn unpause(&mut self, keyCode: u8)
        ensures
            final(self)@ == old(self)@.accept_key(keyCode),
            final(self)@.wf(),
    {
        self.paused = false;
        let x: usize = self.unpauseVIndex.get();
        self.v[x] = keyCode;
    }

    /// Lets both timers go down by one, stopping at zero.
    pub fn updateTimers(&mut self)
        ensures
            final(self)@ == old(self)@.decay(),
            final(self)@.wf(),
    {
        if self.delayTimer > 0 {
            self.delayTimer -= 1;
        }
        if self.soundTimer > 0 {
            self.soundTimer -= 1;
        }
    }

    /// Keeps the speaker in step with the sound timer: asks for a tone of
    /// `TONE_HZ` while the timer runs and for silence once it has run out,
    /// and hands back what the host must do to its audio device.
    pub fn playSound(&mut self, speaker: &mut Speaker) -> (action: Tone)
        ensures
            final(self)@ == old(self)@,
            final(self)@.wf(),
            action == old(self)@.tone(old(speaker)@),
            final(speaker)@ == (old(self)@.sound > 0),
    {
        if self.soundTimer > 0 {
            speaker.play(Some(TONE_HZ))
        } else {
            speaker.stop()
        }
    }
}

impl CPU {
    /// The fault that skipping the next instruction would raise.
    fn skip_check(&self, taken: bool) -> (fault: Option<Fault>)
        ensures
            fault == skip_fault(self@, taken),
    {
        if taken && self.pc > 0xFFFB {
            Some(Fault::OutOfBounds)
        } else {
            None
        }
    }

    /// The fault that `instr` would raise now, if any.
    fn detect(&self, instr: Instruction, keyboard: &Keyboard) -> (fault: Option<Fault>)
        requires
            instr.wf(),
        ensures
            fault == fault_of(self@, keyboard@, instr),
    {
        if self.pc > 0xFFFD {
            return Some(Fault::OutOfBounds);
        }
        match instr {
            Instruction::Return => {
                if self.stack.len() == 0 {
                    Some(Fault::StackUnderflow)
                } else {
                    None
                }
            },
            Instruction::SkipIfEqual { x, value } => self.skip_check(self.v[x as usize] == value),
            Instruction::SkipIfNotEqual { x, value } => self.skip_check(
                self.v[x as usize] != value,
            ),
            Instruction::SkipIfRegistersDiffer { x, y } => self.skip_check(
                self.v[x as usize] != self.v[y as usize],
            ),
            Instruction::SubtractFrom { x, y } => {
                if self.v[y as usize] < self.v[x as usize] {
                    Some(Fault::ArithmeticUnderflow)
                } else {
                    None
                }
            },
            Instruction::Draw { x, y, rows } => {
                if rows > 0 && self.i as usize + rows as usize > MEMORY_SIZE {
                    Some(Fault::OutOfBounds)
                } else {
                    None
                }
            },
            Instruction::SkipIfKeyDown { x } => {
                match keyboard.keyState(self.v[x as usize]) {
                    None => Some(Fault::UnknownKey),
                    Some(pressed) => self.skip_check(pressed),
                }
            },
            Instruction::SkipIfKeyUp { x } => {
                match keyboard.keyState(self.v[x as usize]) {
                    None => Some(Fault::UnknownKey),
                    Some(pressed) => self.skip_check(!pressed),
                }
            },
            Instruction::AddToIndex { x } => {
                if self.i as usize + self.v[x as usize] as usize > 0xFFFF {
                    Some(Fault::OutOfBounds)
                } else {
                    None
                }
            },
            Instruction::Decimal { x } => {
                if self.i as usize + 2 >= MEMORY_SIZE {
                    Some(Fault::OutOfBounds)
                } else {
                    None
                }
            },
            Instruction::Store { x } => {
                if self.i as usize + x as usize >= MEMORY_SIZE {
                    Some(Fault::OutOfBounds)
                } else {
                    None
                }
            },
            Instruction::Restore { x } => {
                if self.i as usize + x as usize >= MEMORY_SIZE {
                    Some(Fault::OutOfBounds)
                } else {
                    None
                }
            },
            _ => None,
        }
    }

    /// Moves past the next instruction if `taken`.
    fn skip(&mut self, taken: bool)
        requires
            taken ==> old(self)@.pc + 2 <= 0xFFFF,
        ensures
            final(self)@ == old(self)@.skip_if(taken),
    {
        if taken {
            self.pc = self.pc + 2;
        }
    }

    /// Draws the sprite of `rows` rows at `I` with its corner at `(Vx, Vy)`:
    /// reads the corner, clears the flag, then flips the pixel under each set
    /// bit at its wrapped place and sets the flag when a pixel went off.
    fn draw(&mut self, x: u8, y: u8, rows: u8, renderer: &mut Renderer)
        requires
            x < 16,
            y < 16,
            rows < 16,
            rows > 0 ==> old(self)@.i + rows <= MEMORY_SIZE,
        ensures
            final(self)@ == old(self)@.set_flag(
                flag_of(
                    collides(
                        old(renderer)@,
                        old(self)@.memory,
                        old(self)@.i as int,
                        old(self)@.v[x as int] as int,
                        old(self)@.v[y as int] as int,
                        rows as int,
                    ),
                ),
            ),
            final(renderer)@ == drawn(
                old(renderer)@,
                old(self)@.memory,
                old(self)@.i as int,
                old(self)@.v[x as int] as int,
                old(self)@.v[y as int] as int,
                rows as int,
            ),
    {
        let ghost start = self@;
        let ghost screen = renderer@;
        let ghost memory = self@.memory;
        let vx: usize = self.read(x) as usize;
        let vy: usize = self.read(y) as usize;
        let base: usize = self.i as usize;
        self.flag(0);
        proof {
            renderer.lemma_len();
            assert(!collides_among(screen, memory, base as int, vx as int, vy as int, 0));
            assert forall|cell: int| 0 <= cell < DISPLAY_CELLS implies !covers_among(
                memory,
                base as int,
                vx as int,
                vy as int,
                0,
                cell,
            ) by {}
        }
        let mut row: u8 = 0;
        while row < rows
            invariant
                row <= rows < 16,
                rows > 0 ==> base + rows <= MEMORY_SIZE,
                base == start.i,
                memory == start.memory,
                start.v.len() == 16,
                vx < 256,
                vy < 256,
                self@ == start.set_flag(
                    flag_of(
                        collides_among(screen, memory, base as int, vx as int, vy as int, row * 8),
                    ),
                ),
                screen.len() == DISPLAY_CELLS,
                renderer@.len() == DISPLAY_CELLS,
                forall|cell: int|
                    0 <= cell < DISPLAY_CELLS ==> renderer@[cell] == (screen[cell] != covers_among(
                        memory,
                        base as int,
                        vx as int,
                        vy as int,
                        row * 8,
                        cell,
                    )),
            decreases rows - row,
        {
            let byte: u8 = self.memory[base + row as usize];
            let mut col: u8 = 0;
            while col < 8
                invariant
                    col <= 8,
                    row < rows < 16,
                    base + rows <= MEMORY_SIZE,
                    base == start.i,
                    memory == start.memory,
                    start.v.len() == 16,
                    byte == memory[base + row],
                    vx < 256,
                    vy < 256,
                    self@ == start.set_flag(
                        flag_of(
                            collides_among(
                                screen,
                                memory,
                                base as int,
                                vx as int,
                                vy as int,
                                row * 8 + col,
                            ),
                        ),
                    ),
                    screen.len() == DISPLAY_CELLS,
                    renderer@.len() == DISPLAY_CELLS,
                    forall|cell: int|
                        0 <= cell < DISPLAY_CELLS ==> renderer@[cell] == (screen[cell]
                            != covers_among(
                            memory,
                            base as int,
                            vx as int,
                            vy as int,
                            row * 8 + col,
                            cell,
                        )),
                decreases 8 - col,
            {
                let ghost here = cell_of(vx + col, vy + row);
                let set: bool = byte & (0x80u8 >> col) != 0;
                assert(set == sprite_bit(byte, col as int));
                if set {
                    let column: usize = (vx + col as usize) % DISPLAY_WIDTH;
                    let line: usize = (vy + row as usize) % DISPLAY_HEIGHT;
                    assert(cell_of(column as int, line as int) == here);
                    let off: bool = renderer.setPixel(column, line);
                    if off {
                        self.flag(1);
                    }
                    proof {
                        renderer.lemma_len();
                        lemma_covers_fresh(
                            memory,
                            base as int,
                            vx as int,
                            vy as int,
                            row as int,
                            col as int,
                        );
                        assert(off == screen[here]);
                    }
                }
                proof {
                    lemma_collides_next(
                        screen,
                        memory,
                        base as int,
                        vx as int,
                        vy as int,
                        row as int,
                        col as int,
                    );
                    assert(self.v@ =~= start.v.update(
                        FLAG as int,
                        flag_of(
                            collides_among(
                                screen,
                                memory,
                                base as int,
                                vx as int,
                                vy as int,
                                row * 8 + col + 1,
                            ),
                        ),
                    ));
                    assert forall|cell: int| 0 <= cell < DISPLAY_CELLS implies renderer@[cell] == (
                    screen[cell] != covers_among(
                        memory,
                        base as int,
                        vx as int,
                        vy as int,
                        row * 8 + col + 1,
                        cell,
                    )) by {
                        lemma_covers_next(
                            memory,
                            base as int,
                            vx as int,
                            vy as int,
                            row as int,
                            col as int,
                            cell,
                        );
                    }
                }
                col += 1;
            }
            row += 1;
        }
        proof {
            lemma_collides_all(screen, memory, base as int, vx as int, vy as int, rows as int);
            assert forall|cell: int| 0 <= cell < DISPLAY_CELLS implies renderer@[cell] == (
            screen[cell] != sprite_covers(
                memory,
                base as int,
                vx as int,
                vy as int,
                rows as int,
                cell,
            )) by {
                lemma_covers_all(memory, base as int, vx as int, vy as int, rows as int, cell);
            }
            assert(renderer@ =~= drawn(
                screen,
                memory,
                base as int,
                vx as int,
                vy as int,
                rows as int,
            ));
        }
    }

    /// Writes `V0..=Vx` to memory at `I`.
    fn store(&mut self, x: u8)
        requires
            x < 16,
            old(self)@.i + x < MEMORY_SIZE,
        ensures
            final(self)@ == (Machine { memory: stored(old(self)@, x), ..old(self)@ }),
    {
        let base: usize = self.i as usize;
        let mut r: u8 = 0;
        while r <= x
            invariant
                r <= x + 1,
                x < 16,
                base == old(self)@.i,
                base + x < MEMORY_SIZE,
                self@ == (Machine { memory: self.memory@, ..old(self)@ }),
                forall|addr: int|
                    0 <= addr < MEMORY_SIZE ==> self.memory@[addr] == (if base <= addr < base + r {
                        old(self)@.v[addr - base]
                    } else {
                        old(self)@.memory[addr]
                    }),
            decreases x + 1 - r,
        {
            self.memory[base + r as usize] = self.v[r as usize];
            r += 1;
        }
        assert(self.memory@ =~= stored(old(self)@, x));
    }

    /// Reads `V0..=Vx` from memory at `I`.
    fn restore(&mut self, x: u8)
        requires
            x < 16,
            old(self)@.i + x < MEMORY_SIZE,
        ensures
            final(self)@ == (Machine { v: restored(old(self)@, x), ..old(self)@ }),
    {
        let base: usize = self.i as usize;
        let mut r: u8 = 0;
        while r <= x
            invariant
                r <= x + 1,
                x < 16,
                base == old(self)@.i,
                base + x < MEMORY_SIZE,
                self@ == (Machine { v: self.v@, ..old(self)@ }),
                forall|k: int|
                    0 <= k < 16 ==> self.v@[k] == (if k < r {
                        old(self)@.memory[base + k]
                    } else {
                        old(self)@.v[k]
                    }),
            decreases x + 1 - r,
        {
            self.v[r as usize] = self.memory[base + r as usize];
            r += 1;
        }
        assert(self.v@ =~= restored(old(self)@, x));
    }
}

impl CPU {
    /// Moves the program counter past one instruction.
    fn advance(&mut self)
        requires
            old(self)@.pc + 2 <= 0xFFFF,
        ensures
            final(self)@ == old(self)@.advance(),
    {
        self.pc = self.pc + 2;
    }

    /// Register `x`.
    fn read(&self, x: u8) -> (value: u8)
        requires
            x < 16,
        ensures
            value == self@.v[x as int],
    {
        self.v[x as usize]
    }

    /// Puts `value` in register `x`.
    fn write(&mut self, x: u8, value: u8)
        requires
            x < 16,
        ensures
            final(self)@ == old(self)@.set(x, value),
    {
        self.v[x as usize] = value;
    }

    /// Puts `value` in the flag register.
    fn flag(&mut self, value: u8)
        ensures
            final(self)@ == old(self)@.set_flag(value),
    {
        self.v[FLAG] = value;
    }

    /// Continues at `target`.
    fn jump(&mut self, target: u16)
        ensures
            final(self)@ == (Machine { pc: target, ..old(self)@ }),
    {
        self.pc = target;
    }

    /// Points the index register at `address`.
    fn point(&mut self, address: u16)
        ensures
            final(self)@ == (Machine { i: address, ..old(self)@ }),
    {
        self.i = address;
    }

    /// Puts `value` in memory at `address`.
    fn poke(&mut self, address: usize, value: u8)
        requires
            address < MEMORY_SIZE,
        ensures
            final(self)@ == (Machine {
                memory: old(self)@.memory.update(address as int, value),
                ..old(self)@
            }),
    {
        self.memory[address] = value;
    }

    /// Carries out an instruction that only moves the program counter or
    /// the call stack.
    fn flow(
        &mut self,
        instr: Instruction,
        keyboard: &Keyboard,
        Ghost(screen): Ghost<Seq<bool>>,
        Ghost(random): Ghost<u8>,
    )
        requires
            instr.wf(),
            is_flow(instr),
            fault_of(old(self)@, keyboard@, instr) is None,
        ensures
            final(self)@ == applied(old(self)@, screen, keyboard@, instr, random),
    {
        self.advance();
        match instr {
            Instruction::Return => {
                match self.stack.pop() {
                    Some(address) => {
                        self.pc = address;
                    },
                    None => {},
                }
            },
            Instruction::Jump { target } => {
                self.jump(target);
            },
            Instruction::Call { target } => {
                self.stack.push(self.pc);
                self.pc = target;
            },
            Instruction::SkipIfEqual { x, value } => {
                let taken: bool = self.read(x) == value;
                self.skip(taken);
            },
            Instruction::SkipIfNotEqual { x, value } => {
                let taken: bool = self.read(x) != value;
                self.skip(taken);
            },
            Instruction::SkipIfRegistersDiffer { x, y } => {
                let taken: bool = self.read(x) != self.read(y);
                self.skip(taken);
            },
            Instruction::JumpOffset { base } => {
                let offset: u16 = self.read(0) as u16;
                self.jump(base + offset);
            },
            Instruction::SkipIfKeyDown { x } => {
                let taken: bool = keyboard.isKeyPressed(self.read(x));
                self.skip(taken);
            },
            Instruction::SkipIfKeyUp { x } => {
                let taken: bool = !keyboard.isKeyPressed(self.read(x));
                self.skip(taken);
            },
            _ => {},
        }
    }

    /// Carries out an instruction that only writes registers.
    fn compute(
        &mut self,
        instr: Instruction,
        random: u8,
        Ghost(screen): Ghost<Seq<bool>>,
        Ghost(keys): Ghost<Map<u8, bool>>,
    )
        requires
            instr.wf(),
            is_compute(instr),
            fault_of(old(self)@, keys, instr) is None,
        ensures
            final(self)@ == applied(old(self)@, screen, keys, instr, random),
    {
        self.advance();
        match instr {
            Instruction::Load { x, value } => {
                self.write(x, value);
            },
            Instruction::AddValue { x, value } => {
                let sum: u8 = self.read(x).wrapping_add(value);
                self.write(x, sum);
            },
            Instruction::Move { x, y } => {
                let value: u8 = self.read(y);
                self.write(x, value);
            },
            Instruction::Or { x, y } => {
                let value: u8 = self.read(x) | self.read(y);
                self.write(x, value);
            },
            Instruction::And { x, y } => {
                let value: u8 = self.read(x) & self.read(y);
                self.write(x, value);
            },
            Instruction::Xor { x, y } => {
                let value: u8 = self.read(x) ^ self.read(y);
                self.write(x, value);
            },
            Instruction::AddRegister { x, y } => {
                let sum: u16 = self.read(x) as u16 + self.read(y) as u16;
                assert(sum & 0xFF == sum % 256) by (bit_vector);
                self.flag(
                    if sum > 0xFF {
                        1
                    } else {
                        0
                    },
                );
                self.write(x, (sum & 0xFF) as u8);
            },
            Instruction::Subtract { x, y } => {
                let minuend: u8 = self.read(x);
                let subtrahend: u8 = self.read(y);
                self.flag(
                    if minuend > subtrahend {
                        1
                    } else {
                        0
                    },
                );
                self.write(x, minuend.wrapping_sub(subtrahend));
            },
            Instruction::ShiftRight { x } => {
                let value: u8 = self.read(x);
                assert(value & 0x1 == value % 2) by (bit_vector);
                assert(value >> 1 == value / 2) by (bit_vector);
                self.flag(value & 0x1);
                self.write(x, value >> 1);
            },
            Instruction::SubtractFrom { x, y } => {
                let minuend: u8 = self.read(y);
                let subtrahend: u8 = self.read(x);
                self.flag(
                    if minuend > subtrahend {
                        1
                    } else {
                        0
                    },
                );
                self.write(x, minuend - subtrahend);
            },
            Instruction::ShiftLeft { x } => {
                let value: u8 = self.read(x);
                assert(value & 0x80 == (if value >= 0x80 {
                    0x80u8
                } else {
                    0u8
                })) by (bit_vector);
                assert(value << 1 == (value * 2) % 256) by (bit_vector);
                self.flag(value & 0x80);
                self.write(x, value << 1);
            },
            Instruction::Random { x, mask } => {
                self.write(x, random & mask);
            },
            Instruction::ReadDelay { x } => {
                let value: u8 = self.delayTimer;
                self.write(x, value);
            },
            _ => {},
        }
    }

    /// Carries out an instruction that writes the index register, the
    /// timers, the pause state or memory, or that does nothing.
    fn transfer(
        &mut self,
        instr: Instruction,
        Ghost(screen): Ghost<Seq<bool>>,
        Ghost(keys): Ghost<Map<u8, bool>>,
        Ghost(random): Ghost<u8>,
    )
        requires
            instr.wf(),
            is_transfer(instr),
            fault_of(old(self)@, keys, instr) is None,
        ensures
            final(self)@ == applied(old(self)@, screen, keys, instr, random),
    {
        self.advance();
        match instr {
            Instruction::SetIndex { address } => {
                self.point(address);
            },
            Instruction::AwaitKey { x } => {
                self.paused = true;
                self.unpauseVIndex = Register::new(x);
            },
            Instruction::SetDelay { x } => {
                self.delayTimer = self.read(x);
            },
            Instruction::SetSound { x } => {
                self.soundTimer = self.read(x);
            },
            Instruction::AddToIndex { x } => {
                let sum: u16 = self.i + self.read(x) as u16;
                self.point(sum);
            },
            Instruction::Glyph { x } => {
                let address: u16 = self.read(x) as u16 * GLYPH_BYTES;
                self.point(address);
            },
            Instruction::Decimal { x } => {
                let value: u8 = self.read(x);
                let base: usize = self.i as usize;
                self.poke(base, value / 100);
                self.poke(base + 1, (value % 100) / 10);
                self.poke(base + 2, value % 10);
            },
            Instruction::Store { x } => {
                self.store(x);
            },
            Instruction::Restore { x } => {
                self.restore(x);
            },
            _ => {},
        }
    }

    /// Carries out an instruction that raises no fault.
    fn perform(
        &mut self,
        instr: Instruction,
        random: u8,
        renderer: &mut Renderer,
        keyboard: &Keyboard,
    )
        requires
            instr.wf(),
            fault_of(old(self)@, keyboard@, instr) is None,
        ensures
            final(self)@ == applied(old(self)@, old(renderer)@, keyboard@, instr, random),
            final(renderer)@ == shown(old(self)@, old(renderer)@, instr),
    {
        match instr {
            Instruction::ClearScreen => {
                self.advance();
                renderer.clear();
            },
            Instruction::Draw { x, y, rows } => {
                self.advance();
                self.draw(x, y, rows, renderer);
            },
            Instruction::Return
            | Instruction::Jump { .. }
            | Instruction::Call { .. }
            | Instruction::SkipIfEqual { .. }
            | Instruction::SkipIfNotEqual { .. }
            | Instruction::SkipIfRegistersDiffer { .. }
            | Instruction::JumpOffset { .. }
            | Instruction::SkipIfKeyDown { .. }
            | Instruction::SkipIfKeyUp { .. } => {
                self.flow(instr, keyboard, Ghost(renderer@), Ghost(random));
            },
            Instruction::Load { .. }
            | Instruction::AddValue { .. }
            | Instruction::Move { .. }
            | Instruction::Or { .. }
            | Instruction::And { .. }
            | Instruction::Xor { .. }
            | Instruction::AddRegister { .. }
            | Instruction::Subtract { .. }
            | Instruction::ShiftRight { .. }
            | Instruction::SubtractFrom { .. }
            | Instruction::ShiftLeft { .. }
            | Instruction::Random { .. }
            | Instruction::ReadDelay { .. } => {
                self.compute(instr, random, Ghost(renderer@), Ghost(keyboard@));
            },
            _ => {
                self.transfer(instr, Ghost(renderer@), Ghost(keyboard@), Ghost(random));
            },
        }
    }

    /// Executes one opcode, with `random` standing for the byte that a
    /// random instruction draws. The program counter moves past the
    /// instruction before the instruction acts. A fault leaves the machine
    /// and the display as they were.
    pub fn executeWith(
        &mut self,
        opcode: u16,
        random: u8,
        renderer: &mut Renderer,
        keyboard: &mut Keyboard,
    ) -> (result: Result<Status, Fault>)
        ensures
            executed(old(self)@, old(renderer)@, old(keyboard)@, opcode, random).left(
                final(self)@,
                final(renderer)@,
                result,
            ),
            final(keyboard)@ == old(keyboard)@,
            final(self)@.wf(),
    {
        proof {
            self.lemma_wf();
        }
        let instr: Instruction = decode(opcode);
        match self.detect(instr, keyboard) {
            Some(fault) => {
                return Err(fault);
            },
            None => {},
        }
        self.perform(instr, random, renderer, keyboard);
        proof {
            self.lemma_wf();
        }
        match instr {
            Instruction::Unknown => Ok(Status::Unknown),
            _ => Ok(Status::Executed),
        }
    }

    /// Executes one opcode. A random instruction draws its byte below
    /// `RANDOM_LIMIT`; what is left is what `executeWith` leaves for the
    /// byte drawn.
    pub fn executeInstruction(
        &mut self,
        opcode: u16,
        renderer: &mut Renderer,
        keyboard: &mut Keyboard,
    ) -> (result: Result<Status, Fault>)
        ensures
            exists|random: u8|
                random < RANDOM_LIMIT && (#[trigger] executed(
                    old(self)@,
                    old(renderer)@,
                    old(keyboard)@,
                    opcode,
                    random,
                )).left(final(self)@, final(renderer)@, result),
            final(keyboard)@ == old(keyboard)@,
            final(self)@.wf(),
    {
        let random: u8 = match decode(opcode) {
            Instruction::Random { .. } => random_below(RANDOM_LIMIT),
            _ => 0,
        };
        self.executeWith(opcode, random, renderer, keyboard)
    }

    /// The opcode at the program counter, or `OutOfBounds` if its two bytes
    /// do not both lie in memory.
    pub fn fetch(&self) -> (result: Result<u16, Fault>)
        ensures
            result == (if self@.pc + 1 >= MEMORY_SIZE {
                Err::<u16, Fault>(Fault::OutOfBounds)
            } else {
                Ok::<u16, Fault>(self@.fetched())
            }),
    {
        let at: usize = self.pc as usize;
        if at + 1 >= MEMORY_SIZE {
            return Err(Fault::OutOfBounds);
        }
        let high: u8 = self.memory[at];
        let low: u8 = self.memory[at + 1];
        assert((high as u16) << 8 | (low as u16) == high * 256 + low) by (bit_vector);
        Ok((high as u16) << 8 | (low as u16))
    }

    /// One step: nothing while the machine waits for a key; otherwise the
    /// opcode at the program counter is fetched and executed.
    pub fn step(&mut self, renderer: &mut Renderer, keyboard: &mut Keyboard) -> (result: Result<
        Status,
        Fault,
    >)
        ensures
            exists|random: u8|
                random < RANDOM_LIMIT && (#[trigger] stepped(
                    old(self)@,
                    old(renderer)@,
                    old(keyboard)@,
                    random,
                )).left(final(self)@, final(renderer)@, result),
            old(self)@.paused ==> final(self)@ == old(self)@ && final(renderer)@ == old(renderer)@
                && result == Ok::<Status, Fault>(Status::Waiting),
            final(keyboard)@ == old(keyboard)@,
            final(self)@.wf(),
    {
        proof {
            self.lemma_wf();
        }
        if self.paused {
            assert(stepped(old(self)@, old(renderer)@, old(keyboard)@, 0u8).left(
                self@,
                renderer@,
                Ok(Status::Waiting),
            ));
            return Ok(Status::Waiting);
        }
        match self.fetch() {
            Err(fault) => {
                assert(stepped(old(self)@, old(renderer)@, old(keyboard)@, 0u8).left(
                    self@,
                    renderer@,
                    Err(fault),
                ));
                Err(fault)
            },
            Ok(opcode) => {
                let result = self.executeInstruction(opcode, renderer, keyboard);
                proof {
                    let random = choose|random: u8|
                        random < RANDOM_LIMIT && (#[trigger] executed(
                            old(self)@,
                            old(renderer)@,
                            old(keyboard)@,
                            opcode,
                            random,
                        )).left(self@, renderer@, result);
                    assert(stepped(old(self)@, old(renderer)@, old(keyboard)@, random).left(
                        self@,
                        renderer@,
                        result,
                    ));
                }
                result
            },
        }
    }
}

impl CPU {
    /// One frame: `STEPS_PER_TICK` steps, then, unless the machine is
    /// waiting for a key, one decay of the timers. The first fault ends the
    /// frame: the steps after it are not taken and the timers do not decay.
    /// The opcodes that matched no instruction are handed back, beside the
    /// fault where one ended the frame. Sounding the tone and presenting the
    /// display are left to the caller, who has `playSound` and `render`.
    pub fn cycle(&mut self, renderer: &mut Renderer, keyboard: &mut Keyboard) -> (result: Result<
        Vec<u16>,
        Halt,
    >)
        ensures
            exists|randoms: Seq<u8>|
                drawable(randoms, STEPS_PER_TICK as nat) && (#[trigger] cycled(
                    old(self)@,
                    old(renderer)@,
                    old(keyboard)@,
                    randoms,
                )).left(final(self)@, final(renderer)@, result),
            final(keyboard)@ == old(keyboard)@,
            final(self)@.wf(),
    {
        proof {
            self.lemma_wf();
        }
        let mut unknown: Vec<u16> = Vec::new();
        let mut fault: Option<Fault> = None;
        let ghost mut randoms: Seq<u8> = Seq::empty();
        let mut count: usize = 0;
        while count < STEPS_PER_TICK
            invariant
                count <= STEPS_PER_TICK,
                drawable(randoms, count as nat),
                keyboard@ == old(keyboard)@,
                self@.wf(),
                ran(old(self)@, old(renderer)@, old(keyboard)@, randoms, count as nat) == (Frame {
                    machine: self@,
                    screen: renderer@,
                    unknown: unknown@,
                    fault,
                }),
            decreases STEPS_PER_TICK - count,
        {
            let ghost drawn_before = randoms;
            let ghost machine_before = self@;
            let ghost screen_before = renderer@;
            if fault.is_none() && !self.paused {
                match self.fetch() {
                    Err(raised) => {
                        fault = Some(raised);
                        proof {
                            randoms = randoms.push(0u8);
                        }
                    },
                    Ok(opcode) => {
                        let result = self.executeInstruction(opcode, renderer, keyboard);
                        proof {
                            let random = choose|random: u8|
                                random < RANDOM_LIMIT && (#[trigger] executed(
                                    machine_before,
                                    screen_before,
                                    old(keyboard)@,
                                    opcode,
                                    random,
                                )).left(self@, renderer@, result);
                            randoms = randoms.push(random);
                        }
                        match result {
                            Ok(Status::Unknown) => {
                                unknown.push(opcode);
                            },
                            Ok(_) => {},
                            Err(raised) => {
                                fault = Some(raised);
                            },
                        }
                    },
                }
            } else {
                proof {
                    randoms = randoms.push(0u8);
                }
            }
            proof {
                lemma_ran_reads_prefix(
                    old(self)@,
                    old(renderer)@,
                    old(keyboard)@,
                    drawn_before,
                    randoms,
                    count as nat,
                );
            }
            count += 1;
        }
        if fault.is_none() && !self.paused {
            self.updateTimers();
        }
        let result: Result<Vec<u16>, Halt> = match fault {
            Some(raised) => Err(Halt { fault: raised, unknown }),
            None => Ok(unknown),
        };
        assert(cycled(old(self)@, old(renderer)@, old(keyboard)@, randoms).left(
            self@,
            renderer@,
            result,
        ));
        result
    }
}

impl CPU {
    /// The sixteen general registers.
    pub fn registers(&self) -> (v: [u8; 16])
        ensures
            v@ == self@.v,
    {
        self.v
    }

    /// The byte of memory at `address`, or `None` past the end of memory.
    pub fn peek(&self, address: usize) -> (byte: Option<u8>)
        ensures
            byte == (if address < MEMORY_SIZE {
                Some(self@.memory[address as int])
            } else {
                None
            }),
    {
        if address < MEMORY_SIZE {
            Some(self.memory[address])
        } else {
            None
        }
    }

    /// The program counter.
    pub fn programCounter(&self) -> (pc: u16)
        ensures
            pc == self@.pc,
    {
        self.pc
    }

    /// The index register.
    pub fn indexRegister(&self) -> (i: u16)
        ensures
            i == self@.i,
    {
        self.i
    }

    /// The delay timer.
    pub fn delay(&self) -> (delay: u8)
        ensures
            delay == self@.delay,
    {
        self.delayTimer
    }

    /// The sound timer.
    pub fn sound(&self) -> (sound: u8)
        ensures
            sound == self@.sound,
    {
        self.soundTimer
    }

    /// How many return addresses the call stack holds.
    pub fn stackDepth(&self) -> (depth: usize)
        ensures
            depth == self@.stack.len(),
    {
        self.stack.len()
    }

    /// The register that an accepted key will be written to.
    pub fn pendingRegister(&self) -> (x: usize)
        ensures
            x == self@.pending,
            x < 16,
    {
        self.unpauseVIndex.get()
    }
}

} // verus!
