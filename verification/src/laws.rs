use vstd::prelude::*;

use crate::fault::{Fault, Status};
use crate::instruction::{decoded, family, operand_kk, operand_n, operand_x, operand_y, Instruction};
use crate::machine::{cycled, executed, flag_of, ran, stepped, Frame, Machine, Step, FLAG};
use crate::renderer::{blank_screen, toggled_all, DISPLAY_CELLS};
use crate::sprite::{collides, sprite_covers};

verus! {

/// Executing keeps a well-formed machine well formed, whatever the opcode
/// and however the execution ends.
pub proof fn law_executed_keeps_wf(
    m: Machine,
    screen: Seq<bool>,
    keys: Map<u8, bool>,
    opcode: u16,
    random: u8,
)
    requires
        m.wf(),
    ensures
        executed(m, screen, keys, opcode, random).machine.wf(),
{
}

/// Only `Cxkk` looks at the random byte: every other opcode leaves the same
/// behind whatever byte is offered.
pub proof fn law_random_matters_to_cxkk_only(
    m: Machine,
    screen: Seq<bool>,
    keys: Map<u8, bool>,
    opcode: u16,
    random: u8,
    other: u8,
)
    requires
        family(opcode) != 0xC,
    ensures
        executed(m, screen, keys, opcode, random) == executed(m, screen, keys, opcode, other),
{
}

/// A fault changes nothing: the machine and the display are left as they
/// were found.
pub proof fn law_fault_changes_nothing(
    m: Machine,
    screen: Seq<bool>,
    keys: Map<u8, bool>,
    opcode: u16,
    random: u8,
)
    requires
        executed(m, screen, keys, opcode, random).result is Err,
    ensures
        executed(m, screen, keys, opcode, random).machine == m,
        executed(m, screen, keys, opcode, random).screen == screen,
{
}

/// An opcode that matches no instruction moves the program counter past
/// itself and does nothing else.
pub proof fn law_unknown_opcode_only_advances(
    m: Machine,
    screen: Seq<bool>,
    keys: Map<u8, bool>,
    opcode: u16,
    random: u8,
)
    requires
        m.pc + 2 <= 0xFFFF,
        decoded(opcode) == Instruction::Unknown,
    ensures
        executed(m, screen, keys, opcode, random) == (Step {
            machine: m.advance(),
            screen,
            result: Ok(Status::Unknown),
        }),
{
}

/// `8xy4` stores the sum modulo 256 in `Vx`, and, where `Vx` is not the flag
/// register itself, leaves one in the flag if the sum exceeds 255 and zero
/// if not. Where `x` is `F` the sum is written last and replaces the flag.
pub proof fn law_add_sets_sum_and_carry(
    m: Machine,
    screen: Seq<bool>,
    keys: Map<u8, bool>,
    opcode: u16,
    random: u8,
)
    requires
        m.wf(),
        m.pc + 2 <= 0xFFFF,
        family(opcode) == 0x8,
        operand_n(opcode) == 0x4,
    ensures
        ({
            let x = operand_x(opcode) as int;
            let y = operand_y(opcode) as int;
            let after = executed(m, screen, keys, opcode, random);
            &&& after.result == Ok::<Status, Fault>(Status::Executed)
            &&& after.machine.v[x] == (m.v[x] + m.v[y]) % 256
            &&& x != FLAG ==> after.machine.v[FLAG as int] == flag_of(m.v[x] + m.v[y] > 255)
        }),
{
}

/// `8xy5` stores the difference modulo 256 in `Vx`, and, where `Vx` is not
/// the flag register itself, leaves one in the flag if `Vx` was greater than
/// `Vy` and zero if not. `Vy` may be the flag register: it is read before
/// the flag is written. Where `x` is `F` the difference is written last and
/// replaces the flag.
pub proof fn law_subtract_sets_difference_and_flag(
    m: Machine,
    screen: Seq<bool>,
    keys: Map<u8, bool>,
    opcode: u16,
    random: u8,
)
    requires
        m.wf(),
        m.pc + 2 <= 0xFFFF,
        family(opcode) == 0x8,
        operand_n(opcode) == 0x5,
    ensures
        ({
            let x = operand_x(opcode) as int;
            let y = operand_y(opcode) as int;
            let after = executed(m, screen, keys, opcode, random);
            &&& after.result == Ok::<Status, Fault>(Status::Executed)
            &&& after.machine.v[x] == (m.v[x] - m.v[y]) % 256
            &&& x != FLAG ==> after.machine.v[FLAG as int] == flag_of(m.v[x] > m.v[y])
            &&& forall|r: int| 0 <= r < 16 && r != x && r != FLAG ==> after.machine.v[r] == m.v[r]
            &&& after.machine == (Machine { v: after.machine.v, ..m.advance() })
        }),
{
}

/// `8xy7` faults exactly if `Vy` is less than `Vx`; otherwise it stores
/// `Vy - Vx` in `Vx` and, where `Vx` is not the flag register itself, leaves
/// one in the flag if `Vy` was greater than `Vx` and zero if not. Either
/// operand may be the flag register: both are read before it is written.
pub proof fn law_reverse_subtract_faults_or_sets_difference(
    m: Machine,
    screen: Seq<bool>,
    keys: Map<u8, bool>,
    opcode: u16,
    random: u8,
)
    requires
        m.wf(),
        m.pc + 2 <= 0xFFFF,
        family(opcode) == 0x8,
        operand_n(opcode) == 0x7,
    ensures
        ({
            let x = operand_x(opcode) as int;
            let y = operand_y(opcode) as int;
            let after = executed(m, screen, keys, opcode, random);
            &&& m.v[y] < m.v[x] ==> after.result == Err::<Status, Fault>(
                Fault::ArithmeticUnderflow,
            )
            &&& m.v[y] >= m.v[x] ==> {
                &&& after.result == Ok::<Status, Fault>(Status::Executed)
                &&& after.machine.v[x] == m.v[y] - m.v[x]
                &&& x != FLAG ==> after.machine.v[FLAG as int] == flag_of(m.v[y] > m.v[x])
            }
        }),
{
}

/// `Dxyn` draws at the place that `Vx` and `Vy` name before the
/// instruction, also where one of them is the flag register: the cells that
/// the sprite covers there are flipped, and the flag is one if one of them
/// was lit and zero if not.
pub proof fn law_draw_flips_what_the_sprite_covers(
    m: Machine,
    screen: Seq<bool>,
    keys: Map<u8, bool>,
    opcode: u16,
    random: u8,
)
    requires
        m.wf(),
        family(opcode) == 0xD,
        executed(m, screen, keys, opcode, random).result is Ok,
    ensures
        ({
            let vx = m.v[operand_x(opcode) as int] as int;
            let vy = m.v[operand_y(opcode) as int] as int;
            let rows = operand_n(opcode) as int;
            let after = executed(m, screen, keys, opcode, random);
            &&& after.screen.len() == DISPLAY_CELLS
            &&& forall|cell: int|
                0 <= cell < DISPLAY_CELLS ==> after.screen[cell] == (screen[cell]
                    != #[trigger] sprite_covers(m.memory, m.i as int, vx, vy, rows, cell))
            &&& after.machine == m.advance().set_flag(
                flag_of(collides(screen, m.memory, m.i as int, vx, vy, rows)),
            )
        }),
{
}

/// Clearing, then flipping any pixels, then clearing again leaves the
/// display as a new display is: every pixel off.
pub proof fn law_clear_undoes_toggles(
    m: Machine,
    screen: Seq<bool>,
    keys: Map<u8, bool>,
    pixels: Seq<(int, int)>,
    random: u8,
    again: u8,
)
    requires
        m.wf(),
        m.pc + 4 <= 0xFFFF,
    ensures
        ({
            let cleared = executed(m, screen, keys, 0x00E0, random);
            let scribbled = toggled_all(cleared.screen, pixels);
            let after = executed(cleared.machine, scribbled, keys, 0x00E0, again);
            &&& cleared.screen == blank_screen()
            &&& scribbled.len() == DISPLAY_CELLS
            &&& after.screen == blank_screen()
        }),
{
    lemma_toggles_keep_size(blank_screen(), pixels);
}

/// Flipping pixels never changes how many pixels there are.
pub proof fn lemma_toggles_keep_size(screen: Seq<bool>, pixels: Seq<(int, int)>)
    requires
        screen.len() == DISPLAY_CELLS,
    ensures
        toggled_all(screen, pixels).len() == DISPLAY_CELLS,
    decreases pixels.len(),
{
    if pixels.len() > 0 {
        lemma_toggles_keep_size(screen, pixels.drop_last());
    }
}

/// Drawing the same sprite a second time undoes the first: `Dxyn` executed
/// twice in a row leaves the display as it was, where neither coordinate
/// comes from the flag register.
pub proof fn law_draw_twice_restores(
    m: Machine,
    screen: Seq<bool>,
    keys: Map<u8, bool>,
    opcode: u16,
    random: u8,
    again: u8,
)
    requires
        m.wf(),
        screen.len() == DISPLAY_CELLS,
        family(opcode) == 0xD,
        operand_x(opcode) != FLAG,
        operand_y(opcode) != FLAG,
        executed(m, screen, keys, opcode, random).result is Ok,
        m.pc + 4 <= 0xFFFF,
    ensures
        ({
            let once = executed(m, screen, keys, opcode, random);
            let twice = executed(once.machine, once.screen, keys, opcode, again);
            &&& twice.result == Ok::<Status, Fault>(Status::Executed)
            &&& twice.screen == screen
            &&& twice.machine.memory == m.memory
            &&& twice.machine.i == m.i
        }),
{
    let once = executed(m, screen, keys, opcode, random);
    let twice = executed(once.machine, once.screen, keys, opcode, again);
    assert(twice.screen =~= screen);
}

/// A call followed at once by a return leaves the call stack as it was and
/// the program counter on the instruction after the call; nothing else
/// changes either.
pub proof fn law_call_then_return(
    m: Machine,
    screen: Seq<bool>,
    keys: Map<u8, bool>,
    opcode: u16,
    random: u8,
    again: u8,
)
    requires
        m.wf(),
        m.pc + 2 <= 0xFFFF,
        family(opcode) == 0x2,
    ensures
        ({
            let called = executed(m, screen, keys, opcode, random);
            let returned = executed(called.machine, called.screen, keys, 0x00EE, again);
            &&& called.result == Ok::<Status, Fault>(Status::Executed)
            &&& called.machine.stack.len() == m.stack.len() + 1
            &&& returned.result == Ok::<Status, Fault>(Status::Executed)
            &&& returned.machine.pc == m.pc + 2
            &&& returned.machine.stack == m.stack
            &&& returned.machine == m.advance()
            &&& returned.screen == screen
        }),
{
    let called = executed(m, screen, keys, opcode, random);
    assert(called.machine.stack.drop_last() =~= m.stack);
}

/// `Fx0A` makes the machine wait for a key, with `Vx` pending, and changes
/// no register and no byte of memory.
pub proof fn law_await_key_pauses(
    m: Machine,
    screen: Seq<bool>,
    keys: Map<u8, bool>,
    opcode: u16,
    random: u8,
)
    requires
        m.wf(),
        m.pc + 2 <= 0xFFFF,
        family(opcode) == 0xF,
        operand_kk(opcode) == 0x0A,
    ensures
        executed(m, screen, keys, opcode, random) == (Step {
            machine: Machine { paused: true, pending: operand_x(opcode) as int, ..m.advance() },
            screen,
            result: Ok(Status::Executed),
        }),
{
}

/// A step taken while the machine waits for a key changes nothing.
pub proof fn law_waiting_step_stands_still(
    m: Machine,
    screen: Seq<bool>,
    keys: Map<u8, bool>,
    random: u8,
)
    requires
        m.paused,
    ensures
        stepped(m, screen, keys, random) == (Step {
            machine: m,
            screen,
            result: Ok(Status::Waiting),
        }),
{
}

/// While the machine waits for a key, steps change nothing: not a register,
/// not a byte of memory, not a pixel, whatever their number.
pub proof fn law_waiting_machine_stands_still(
    m: Machine,
    screen: Seq<bool>,
    keys: Map<u8, bool>,
    randoms: Seq<u8>,
    count: nat,
)
    requires
        m.paused,
    ensures
        ran(m, screen, keys, randoms, count) == (Frame {
            machine: m,
            screen,
            unknown: Seq::empty(),
            fault: None,
        }),
    decreases count,
{
    if count > 0 {
        law_waiting_machine_stands_still(m, screen, keys, randoms, (count - 1) as nat);
    }
}

/// A frame that begins while the machine waits for a key changes nothing
/// either: the timers do not decay.
pub proof fn law_waiting_frame_stands_still(
    m: Machine,
    screen: Seq<bool>,
    keys: Map<u8, bool>,
    randoms: Seq<u8>,
)
    requires
        m.paused,
    ensures
        cycled(m, screen, keys, randoms) == (Frame {
            machine: m,
            screen,
            unknown: Seq::empty(),
            fault: None,
        }),
{
    law_waiting_machine_stands_still(m, screen, keys, randoms, 10);
}

/// After `Fx0A`, any number of steps and then an accepted key `key`, the
/// machine runs again with `key` in `Vx`; every other register and all of
/// memory are as `Fx0A` found them.
pub proof fn law_accepted_key_lands_in_pending_register(
    m: Machine,
    screen: Seq<bool>,
    keys: Map<u8, bool>,
    opcode: u16,
    random: u8,
    randoms: Seq<u8>,
    count: nat,
    key: u8,
)
    requires
        m.wf(),
        m.pc + 2 <= 0xFFFF,
        family(opcode) == 0xF,
        operand_kk(opcode) == 0x0A,
    ensures
        ({
            let waiting = executed(m, screen, keys, opcode, random);
            let later = ran(waiting.machine, waiting.screen, keys, randoms, count);
            let woken = later.machine.accept_key(key);
            &&& waiting.machine.paused
            &&& later.fault is None
            &&& !woken.paused
            &&& woken.v == m.v.update(operand_x(opcode) as int, key)
            &&& woken.v[operand_x(opcode) as int] == key
            &&& woken.memory == m.memory
        }),
{
    let waiting = executed(m, screen, keys, opcode, random);
    law_waiting_machine_stands_still(waiting.machine, waiting.screen, keys, randoms, count);
}

/// The machine after `ticks` decays of its timers.
pub open spec fn decayed(m: Machine, ticks: nat) -> Machine
    decreases ticks,
{
    if ticks == 0 {
        m
    } else {
        decayed(m, (ticks - 1) as nat).decay()
    }
}

/// Each decay takes one from a timer that is not yet zero, so after `ticks`
/// decays a timer stands at what it was less `ticks`, or at zero if that
/// would be negative; nothing else changes.
pub proof fn law_timers_count_down_to_zero(m: Machine, ticks: nat)
    ensures
        decayed(m, ticks) == (Machine {
            delay: if m.delay >= ticks {
                (m.delay - ticks) as u8
            } else {
                0u8
            },
            sound: if m.sound >= ticks {
                (m.sound - ticks) as u8
            } else {
                0u8
            },
            ..m
        }),
    decreases ticks,
{
    if ticks > 0 {
        law_timers_count_down_to_zero(m, (ticks - 1) as nat);
    }
}

} // verus!
