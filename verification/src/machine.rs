use vstd::prelude::*;

use crate::fault::{Fault, Status};
use crate::instruction::{decoded, Instruction};
use crate::renderer::blank_screen;
use crate::speaker::{on_play, on_stop, Tone};
use crate::sprite::{collides, drawn};

verus! {

/// Bytes of memory; addresses run from zero up to this, exclusive.
pub const MEMORY_SIZE: usize = 4096;

/// Where a program is placed and where execution starts.
pub const PROGRAM_START: u16 = 0x200;

/// The longest program that fits between `PROGRAM_START` and the end of memory.
pub const PROGRAM_LIMIT: usize = 3584;

/// The index of the register that takes carry, borrow and collision flags.
pub const FLAG: usize = 0xF;

/// Instructions attempted in one frame.
pub const STEPS_PER_TICK: usize = 10;

/// Bytes of one glyph of the built-in font.
pub const GLYPH_BYTES: u16 = 5;

/// Random bytes are drawn from zero up to this, exclusive.
pub const RANDOM_LIMIT: u8 = 0xFF;

/// Pitch of the tone, in hertz.
pub const TONE_HZ: u16 = 440;

/// The built-in font: sixteen glyphs of five rows each, for the digits `0` to `F`.
pub const FONT: [u8; 80] = [
    0xF0, 0x90, 0x90, 0x90, 0xF0,
    0x20, 0x60, 0x20, 0x20, 0x70,
    0xF0, 0x10, 0xF0, 0x80, 0xF0,
    0xF0, 0x10, 0xF0, 0x10, 0xF0,
    0x90, 0x90, 0xF0, 0x10, 0x10,
    0xF0, 0x80, 0xF0, 0x10, 0xF0,
    0xF0, 0x80, 0xF0, 0x90, 0xF0,
    0xF0, 0x10, 0x20, 0x40, 0x40,
    0xF0, 0x90, 0xF0, 0x90, 0xF0,
    0xF0, 0x90, 0xF0, 0x10, 0xF0,
    0xF0, 0x90, 0xF0, 0x90, 0x90,
    0xE0, 0x90, 0xE0, 0x90, 0xE0,
    0xF0, 0x80, 0x80, 0x80, 0xF0,
    0xE0, 0x90, 0x90, 0x90, 0xE0,
    0xF0, 0x80, 0xF0, 0x80, 0xF0,
    0xF0, 0x80, 0xF0, 0x80, 0x80,
];

/// The state of the interpreter, as mathematics sees it.
pub struct Machine {
    /// The 4096 bytes of memory.
    pub memory: Seq<u8>,
    /// The sixteen general registers, `V0` to `VF`.
    pub v: Seq<u8>,
    /// The index register.
    pub i: u16,
    /// The program counter.
    pub pc: u16,
    /// Return addresses, the most recent last.
    pub stack: Seq<u16>,
    /// The delay timer.
    pub delay: u8,
    /// The sound timer.
    pub sound: u8,
    /// Whether the machine is waiting for a key.
    pub paused: bool,
    /// The register that the awaited key will be written to.
    pub pending: int,
}

/// What an attempt to execute leaves behind.
pub struct Step {
    /// The machine afterwards.
    pub machine: Machine,
    /// The display afterwards.
    pub screen: Seq<bool>,
    /// How the attempt ended.
    pub result: Result<Status, Fault>,
}

/// What one frame leaves behind.
pub struct Frame {
    /// The machine afterwards.
    pub machine: Machine,
    /// The display afterwards.
    pub screen: Seq<bool>,
    /// The opcodes that matched no instruction, in the order they were met.
    pub unknown: Seq<u16>,
    /// The fault that ended the frame early, if one did.
    pub fault: Option<Fault>,
}

/// One for true, zero for false.
pub open spec fn flag_of(b: bool) -> u8 {
    if b {
        1u8
    } else {
        0u8
    }
}

impl Machine {
    /// Memory and registers have their sizes and the pending register exists.
    pub open spec fn wf(self) -> bool {
        &&& self.memory.len() == MEMORY_SIZE
        &&& self.v.len() == 16
        &&& 0 <= self.pending < 16
    }

    /// The machine as it is built: everything zero, execution at `PROGRAM_START`.
    pub open spec fn startup() -> Machine {
        Machine {
            memory: Seq::new(MEMORY_SIZE as nat, |a: int| 0u8),
            v: Seq::new(16, |r: int| 0u8),
            i: 0,
            pc: PROGRAM_START,
            stack: Seq::empty(),
            delay: 0,
            sound: 0,
            paused: false,
            pending: 0,
        }
    }

    /// The machine with the font in the first eighty bytes of memory.
    pub open spec fn with_font(self) -> Machine {
        Machine { memory: FONT@ + self.memory.skip(80), ..self }
    }

    /// The machine with `program` copied to memory from `PROGRAM_START` on.
    pub open spec fn with_program(self, program: Seq<u8>) -> Machine {
        Machine {
            memory: self.memory.take(PROGRAM_START as int) + program + self.memory.skip(
                PROGRAM_START + program.len(),
            ),
            ..self
        }
    }

    /// The machine after a key was accepted: the key is in the pending
    /// register and the machine runs.
    pub open spec fn accept_key(self, key: u8) -> Machine {
        Machine { v: self.v.update(self.pending, key), paused: false, ..self }
    }

    /// The machine after both timers went down by one, stopping at zero.
    pub open spec fn decay(self) -> Machine {
        Machine {
            delay: if self.delay > 0 {
                (self.delay - 1) as u8
            } else {
                0u8
            },
            sound: if self.sound > 0 {
                (self.sound - 1) as u8
            } else {
                0u8
            },
            ..self
        }
    }

    /// The action that keeps the speaker in step with the sound timer: a
    /// tone of `TONE_HZ` is wanted while the timer runs, silence after.
    pub open spec fn tone(self, sounding: bool) -> Tone {
        if self.sound > 0 {
            on_play(sounding, Some(TONE_HZ))
        } else {
            on_stop(sounding)
        }
    }

    /// The machine with the program counter moved past one instruction.
    pub open spec fn advance(self) -> Machine {
        Machine { pc: (self.pc + 2) as u16, ..self }
    }

    /// The machine with the next instruction skipped if `taken`.
    pub open spec fn skip_if(self, taken: bool) -> Machine {
        if taken {
            self.advance()
        } else {
            self
        }
    }

    /// The machine with register `x` holding `value`.
    pub open spec fn set(self, x: u8, value: u8) -> Machine {
        Machine { v: self.v.update(x as int, value), ..self }
    }

    /// The machine with the flag register holding `value`.
    pub open spec fn set_flag(self, value: u8) -> Machine {
        Machine { v: self.v.update(FLAG as int, value), ..self }
    }

    /// The opcode at the program counter: the byte there is its high half.
    pub open spec fn fetched(self) -> u16 {
        (self.memory[self.pc as int] * 256 + self.memory[self.pc + 1]) as u16
    }
}

/// Memory after the decimal digits of `Vx` were written at `I`: hundreds,
/// tens, ones.
pub open spec fn with_digits(m: Machine, x: u8) -> Seq<u8> {
    let value = m.v[x as int];
    m.memory.update(m.i as int, (value / 100) as u8).update(
        m.i + 1,
        ((value % 100) / 10) as u8,
    ).update(m.i + 2, (value % 10) as u8)
}

/// Memory after `V0..=Vx` were written at `I`.
pub open spec fn stored(m: Machine, x: u8) -> Seq<u8> {
    Seq::new(
        MEMORY_SIZE as nat,
        |addr: int|
            if m.i <= addr <= m.i + x {
                m.v[addr - m.i]
            } else {
                m.memory[addr]
            },
    )
}

/// The registers after `V0..=Vx` were read from memory at `I`.
pub open spec fn restored(m: Machine, x: u8) -> Seq<u8> {
    Seq::new(
        16,
        |r: int|
            if r <= x {
                m.memory[m.i + r]
            } else {
                m.v[r]
            },
    )
}

/// The fault that skipping would raise: the program counter must still fit.
pub open spec fn skip_fault(m: Machine, taken: bool) -> Option<Fault> {
    if taken && m.pc + 4 > 0xFFFF {
        Some(Fault::OutOfBounds)
    } else {
        None
    }
}

/// The fault that `instr` raises on machine `m`, if it raises one.
///
/// Every instruction needs room for the program counter to move past it, and
/// a skip needs room for two. A return needs a return address. `8xy7` must
/// not come out negative. A sprite, the three decimal digits and the
/// registers stored or read back must lie in memory. The index register
/// must stay within sixteen bits. A key that is asked after must be known.
pub open spec fn fault_of(m: Machine, keys: Map<u8, bool>, instr: Instruction) -> Option<Fault> {
    if m.pc + 2 > 0xFFFF {
        Some(Fault::OutOfBounds)
    } else {
        match instr {
            Instruction::Return => if m.stack.len() == 0 {
                Some(Fault::StackUnderflow)
            } else {
                None
            },
            Instruction::SkipIfEqual { x, value } => skip_fault(m, m.v[x as int] == value),
            Instruction::SkipIfNotEqual { x, value } => skip_fault(m, m.v[x as int] != value),
            Instruction::SkipIfRegistersDiffer { x, y } => skip_fault(
                m,
                m.v[x as int] != m.v[y as int],
            ),
            Instruction::SubtractFrom { x, y } => if m.v[y as int] < m.v[x as int] {
                Some(Fault::ArithmeticUnderflow)
            } else {
                None
            },
            Instruction::Draw { x, y, rows } => if rows > 0 && m.i + rows > MEMORY_SIZE {
                Some(Fault::OutOfBounds)
            } else {
                None
            },
            Instruction::SkipIfKeyDown { x } => if !keys.contains_key(m.v[x as int]) {
                Some(Fault::UnknownKey)
            } else {
                skip_fault(m, keys[m.v[x as int]])
            },
            Instruction::SkipIfKeyUp { x } => if !keys.contains_key(m.v[x as int]) {
                Some(Fault::UnknownKey)
            } else {
                skip_fault(m, !keys[m.v[x as int]])
            },
            Instruction::AddToIndex { x } => if m.i + m.v[x as int] > 0xFFFF {
                Some(Fault::OutOfBounds)
            } else {
                None
            },
            Instruction::Decimal { x } => if m.i + 2 >= MEMORY_SIZE {
                Some(Fault::OutOfBounds)
            } else {
                None
            },
            Instruction::Store { x } | Instruction::Restore { x } => if m.i + x >= MEMORY_SIZE {
                Some(Fault::OutOfBounds)
            } else {
                None
            },
            _ => None,
        }
    }
}

/// The machine after `instr`, where `instr` raises no fault.
///
/// The program counter moves past the instruction first. Every instruction
/// reads its operands as they are before it: no instruction sees what it
/// writes itself. Where an instruction writes the flag and a result, the
/// flag is written first, so the result is what stays where both go to `VF`.
pub open spec fn applied(
    m: Machine,
    screen: Seq<bool>,
    keys: Map<u8, bool>,
    instr: Instruction,
    random: u8,
) -> Machine {
    let a = m.advance();
    match instr {
        Instruction::ClearScreen | Instruction::Unknown => a,
        Instruction::Return => Machine { pc: m.stack.last(), stack: m.stack.drop_last(), ..a },
        Instruction::Jump { target } => Machine { pc: target, ..a },
        Instruction::Call { target } => Machine { pc: target, stack: m.stack.push(a.pc), ..a },
        Instruction::SkipIfEqual { x, value } => a.skip_if(m.v[x as int] == value),
        Instruction::SkipIfNotEqual { x, value } => a.skip_if(m.v[x as int] != value),
        Instruction::SkipIfRegistersDiffer { x, y } => a.skip_if(m.v[x as int] != m.v[y as int]),
        Instruction::Load { x, value } => a.set(x, value),
        Instruction::AddValue { x, value } => a.set(x, ((m.v[x as int] + value) % 256) as u8),
        Instruction::Move { x, y } => a.set(x, m.v[y as int]),
        Instruction::Or { x, y } => a.set(x, m.v[x as int] | m.v[y as int]),
        Instruction::And { x, y } => a.set(x, m.v[x as int] & m.v[y as int]),
        Instruction::Xor { x, y } => a.set(x, m.v[x as int] ^ m.v[y as int]),
        Instruction::AddRegister { x, y } => {
            let sum = m.v[x as int] + m.v[y as int];
            a.set_flag(flag_of(sum > 255)).set(x, (sum % 256) as u8)
        },
        Instruction::Subtract { x, y } => a.set_flag(flag_of(m.v[x as int] > m.v[y as int])).set(
            x,
            ((m.v[x as int] - m.v[y as int]) % 256) as u8,
        ),
        Instruction::ShiftRight { x } => a.set_flag((m.v[x as int] % 2) as u8).set(
            x,
            (m.v[x as int] / 2) as u8,
        ),
        Instruction::SubtractFrom { x, y } => a.set_flag(
            flag_of(m.v[y as int] > m.v[x as int]),
        ).set(x, (m.v[y as int] - m.v[x as int]) as u8),
        Instruction::ShiftLeft { x } => a.set_flag(
            if m.v[x as int] >= 0x80 {
                0x80u8
            } else {
                0u8
            },
        ).set(x, ((m.v[x as int] * 2) % 256) as u8),
        Instruction::SetIndex { address } => Machine { i: address, ..a },
        Instruction::JumpOffset { base } => Machine { pc: (base + m.v[0]) as u16, ..a },
        Instruction::Random { x, mask } => a.set(x, random & mask),
        Instruction::Draw { x, y, rows } => a.set_flag(
            flag_of(
                collides(
                    screen,
                    m.memory,
                    m.i as int,
                    m.v[x as int] as int,
                    m.v[y as int] as int,
                    rows as int,
                ),
            ),
        ),
        Instruction::SkipIfKeyDown { x } => a.skip_if(keys[m.v[x as int]]),
        Instruction::SkipIfKeyUp { x } => a.skip_if(!keys[m.v[x as int]]),
        Instruction::ReadDelay { x } => a.set(x, m.delay),
        Instruction::AwaitKey { x } => Machine { paused: true, pending: x as int, ..a },
        Instruction::SetDelay { x } => Machine { delay: m.v[x as int], ..a },
        Instruction::SetSound { x } => Machine { sound: m.v[x as int], ..a },
        Instruction::AddToIndex { x } => Machine { i: (m.i + m.v[x as int]) as u16, ..a },
        Instruction::Glyph { x } => Machine { i: (m.v[x as int] * GLYPH_BYTES) as u16, ..a },
        Instruction::Decimal { x } => Machine { memory: with_digits(m, x), ..a },
        Instruction::Store { x } => Machine { memory: stored(m, x), ..a },
        Instruction::Restore { x } => Machine { v: restored(m, x), ..a },
    }
}

/// The display after `instr`, where `instr` raises no fault. A sprite is
/// placed by `Vx` and `Vy` as they are before the instruction, and flips
/// every cell that it covers.
pub open spec fn shown(m: Machine, screen: Seq<bool>, instr: Instruction) -> Seq<bool> {
    match instr {
        Instruction::ClearScreen => blank_screen(),
        Instruction::Draw { x, y, rows } => drawn(
            screen,
            m.memory,
            m.i as int,
            m.v[x as int] as int,
            m.v[y as int] as int,
            rows as int,
        ),
        _ => screen,
    }
}

/// What executing `instr` leaves behind. A fault leaves everything as it was.
pub open spec fn performed(
    m: Machine,
    screen: Seq<bool>,
    keys: Map<u8, bool>,
    instr: Instruction,
    random: u8,
) -> Step {
    match fault_of(m, keys, instr) {
        Some(fault) => Step { machine: m, screen, result: Err(fault) },
        None => Step {
            machine: applied(m, screen, keys, instr, random),
            screen: shown(m, screen, instr),
            result: Ok(
                if instr == Instruction::Unknown {
                    Status::Unknown
                } else {
                    Status::Executed
                },
            ),
        },
    }
}

/// What executing `opcode` leaves behind.
pub open spec fn executed(
    m: Machine,
    screen: Seq<bool>,
    keys: Map<u8, bool>,
    opcode: u16,
    random: u8,
) -> Step {
    performed(m, screen, keys, decoded(opcode), random)
}

/// What one step leaves behind: nothing happens while the machine waits for
/// a key; otherwise the opcode at the program counter is fetched, which
/// faults if it does not lie in memory, and executed.
pub open spec fn stepped(m: Machine, screen: Seq<bool>, keys: Map<u8, bool>, random: u8) -> Step {
    if m.paused {
        Step { machine: m, screen, result: Ok(Status::Waiting) }
    } else if m.pc + 1 >= MEMORY_SIZE {
        Step { machine: m, screen, result: Err(Fault::OutOfBounds) }
    } else {
        executed(m, screen, keys, m.fetched(), random)
    }
}

/// What `count` steps in a row leave behind, step `k` drawing `randoms[k]`.
/// The first fault ends the run; the steps after it are not taken.
pub open spec fn ran(
    m: Machine,
    screen: Seq<bool>,
    keys: Map<u8, bool>,
    randoms: Seq<u8>,
    count: nat,
) -> Frame
    decreases count,
{
    if count == 0 {
        Frame { machine: m, screen, unknown: Seq::empty(), fault: None }
    } else {
        let before = ran(m, screen, keys, randoms, (count - 1) as nat);
        if before.fault is Some {
            before
        } else {
            let step = stepped(before.machine, before.screen, keys, randoms[count - 1]);
            match step.result {
                Err(fault) => Frame { fault: Some(fault), ..before },
                Ok(status) => Frame {
                    machine: step.machine,
                    screen: step.screen,
                    unknown: if status == Status::Unknown {
                        before.unknown.push(before.machine.fetched())
                    } else {
                        before.unknown
                    },
                    fault: None,
                },
            }
        }
    }
}

/// A run of `count` steps looks at the first `count` random bytes only.
pub proof fn lemma_ran_reads_prefix(
    m: Machine,
    screen: Seq<bool>,
    keys: Map<u8, bool>,
    randoms: Seq<u8>,
    others: Seq<u8>,
    count: nat,
)
    requires
        forall|k: int| 0 <= k < count ==> randoms[k] == others[k],
    ensures
        ran(m, screen, keys, randoms, count) == ran(m, screen, keys, others, count),
    decreases count,
{
    if count > 0 {
        lemma_ran_reads_prefix(m, screen, keys, randoms, others, (count - 1) as nat);
    }
}

/// What one frame leaves behind: `STEPS_PER_TICK` steps, then, unless a step
/// faulted or the machine is waiting for a key, one decay of the timers.
pub open spec fn cycled(
    m: Machine,
    screen: Seq<bool>,
    keys: Map<u8, bool>,
    randoms: Seq<u8>,
) -> Frame {
    let frame = ran(m, screen, keys, randoms, STEPS_PER_TICK as nat);
    if frame.fault is Some || frame.machine.paused {
        frame
    } else {
        Frame { machine: frame.machine.decay(), ..frame }
    }
}

impl Step {
    /// Whether this is what an attempt left: that machine, that display,
    /// that result.
    pub open spec fn left(self, machine: Machine, screen: Seq<bool>, result: Result<Status, Fault>) -> bool {
        self.machine == machine && self.screen == screen && self.result == result
    }
}

/// What a frame that a fault ended hands to the host.
#[derive(Debug, PartialEq, Eq)]
pub struct Halt {
    /// The fault that ended the frame.
    pub fault: Fault,
    /// The opcodes that matched no instruction before the fault, in the
    /// order they were met.
    pub unknown: Vec<u16>,
}

impl Frame {
    /// Whether this is what a frame left: that machine, that display, and
    /// the unknown opcodes met, alone where no step faulted and beside the
    /// fault where one did.
    pub open spec fn left(
        self,
        machine: Machine,
        screen: Seq<bool>,
        result: Result<Vec<u16>, Halt>,
    ) -> bool {
        &&& self.machine == machine
        &&& self.screen == screen
        &&& match result {
            Ok(unknown) => self.fault is None && unknown@ == self.unknown,
            Err(halt) => self.fault == Some(halt.fault) && halt.unknown@ == self.unknown,
        }
    }
}

/// Whether `randoms` can be what `count` draws gave.
pub open spec fn drawable(randoms: Seq<u8>, count: nat) -> bool {
    randoms.len() == count && forall|k: int| 0 <= k < count ==> randoms[k] < RANDOM_LIMIT
}

} // verus!
