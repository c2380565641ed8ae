use vstd::prelude::*;
use crate::error::CpuError;
use crate::font::{font_spec, glyph_address, GLYPH_SIZE};
use crate::instruction::Instruction;
use crate::machine::{Machine, FLAG_REGISTER, MEM_RESERVED, MEM_SIZE, SCREEN_SIZE};
use crate::semantics::{
    deliver_key_spec, draws_random, execute_spec, fetch_spec, initial_machine, step_spec,
    tick_spec, update_keys_spec, wrapping_diff, wrapping_sum,
};

verus! {

/// Register addition reports its carry: after `ADD Vx, Vy` the flag
/// register is 1 if the sum of the two bytes does not fit in a byte and 0 if
/// it does, and `Vx`, unless it is the flag register itself, holds the sum
/// wrapped to a byte.
pub proof fn law_add_sets_carry(m: Machine, x: usize, y: usize, random: u8)
    requires
        m.wf(),
        x < 16,
        y < 16,
    ensures
        execute_spec(m, (Instruction::AddReg { x, y }), random) matches Ok(next) ==> {
            &&& next.v[FLAG_REGISTER as int] == 1 <==> m.v[x as int] + m.v[y as int] > 255
            &&& next.v[FLAG_REGISTER as int] == 0 <==> m.v[x as int] + m.v[y as int] <= 255
            &&& x != FLAG_REGISTER ==> next.v[x as int] == wrapping_sum(m.v[x as int], m.v[y as int])
        },
{
}

/// Register subtraction reports the absence of a borrow: after
/// `SUB Vx, Vy` the flag register is 1 if `Vx >= Vy` held and 0 if not, and
/// `Vx`, unless it is the flag register itself, holds the difference
/// wrapped to a byte.
pub proof fn law_sub_sets_no_borrow(m: Machine, x: usize, y: usize, random: u8)
    requires
        m.wf(),
        x < 16,
        y < 16,
    ensures
        execute_spec(m, (Instruction::SubReg { x, y }), random) matches Ok(next) ==> {
            &&& next.v[FLAG_REGISTER as int] == 1 <==> m.v[x as int] >= m.v[y as int]
            &&& next.v[FLAG_REGISTER as int] == 0 <==> m.v[x as int] < m.v[y as int]
            &&& x != FLAG_REGISTER ==> next.v[x as int] == wrapping_diff(m.v[x as int], m.v[y as int])
        },
{
}

/// Reversed register subtraction reports the absence of a borrow: after
/// `SUBN Vx, Vy` the flag register is 1 if `Vy >= Vx` held and 0 if not, and
/// `Vx`, unless it is the flag register itself, holds `Vy - Vx` wrapped to a
/// byte.
pub proof fn law_subn_sets_no_borrow(m: Machine, x: usize, y: usize, random: u8)
    requires
        m.wf(),
        x < 16,
        y < 16,
    ensures
        execute_spec(m, (Instruction::SubnReg { x, y }), random) matches Ok(next) ==> {
            &&& next.v[FLAG_REGISTER as int] == 1 <==> m.v[y as int] >= m.v[x as int]
            &&& next.v[FLAG_REGISTER as int] == 0 <==> m.v[y as int] < m.v[x as int]
            &&& x != FLAG_REGISTER ==> next.v[x as int] == wrapping_diff(m.v[y as int], m.v[x as int])
        },
{
}

/// A call followed by a return comes back behind the call: if the machine
/// executes `CALL addr` and finds `RET` at `addr`, then the return
/// succeeds exactly if there is room for an instruction behind the call,
/// and it leaves the program counter on that instruction and the stack
/// pointer where it was before the call.
pub proof fn law_call_then_return(m: Machine, addr: usize, first: u8, second: u8)
    requires
        m.wf(),
        fetch_spec(m) == Ok::<Instruction, CpuError>(Instruction::Call { addr }),
        step_spec(m, first) matches Ok(callee) && fetch_spec(callee) == Ok::<
            Instruction,
            CpuError,
        >(Instruction::Ret),
    ensures
        step_spec(step_spec(m, first).unwrap(), second) is Ok <==> m.pc + 2 < MEM_SIZE,
        step_spec(step_spec(m, first).unwrap(), second) matches Ok(back) ==> back.pc == m.pc + 2
            && back.sp == m.sp,
{
}

/// Clearing the display leaves no pixel on: wherever `CLS` is executed, all
/// 2048 pixels are off afterwards and the display is marked as changed.
pub proof fn law_clear_leaves_no_pixel(m: Machine, random: u8)
    requires
        m.wf(),
    ensures
        execute_spec(m, Instruction::Cls, random) is Ok <==> m.pc + 2 < MEM_SIZE,
        execute_spec(m, Instruction::Cls, random) matches Ok(next) ==> {
            &&& next.screen.len() == SCREEN_SIZE
            &&& forall|k: int| 0 <= k < SCREEN_SIZE ==> !next.screen[k]
            &&& next.dirty
        },
{
}

/// The key-capture instruction blocks until a key is delivered. Executed
/// while the machine is not waiting, `LD Vx, K` starts the wait and leaves
/// the program counter on itself; executed again without a key, it changes
/// nothing. Once the host has delivered a key, the next execution succeeds
/// exactly if there is room for an instruction behind it; it stores the key
/// in `Vx`, ends the wait and moves on to the next instruction.
pub proof fn law_key_capture_blocks(m: Machine, x: usize, key: u8, first: u8, second: u8)
    requires
        m.wf(),
        !m.waiting,
        fetch_spec(m) == Ok::<Instruction, CpuError>(Instruction::LdKey { x }),
    ensures
        step_spec(m, first) == Ok::<Machine, CpuError>(
            Machine { waiting: true, captured: None, ..m },
        ),
        ({
            let waiting = step_spec(m, first).unwrap();
            let delivered = deliver_key_spec(waiting, key).unwrap();
            &&& waiting.pc == m.pc
            &&& waiting.waiting
            &&& step_spec(waiting, second) == Ok::<Machine, CpuError>(waiting)
            &&& deliver_key_spec(waiting, key) is Ok
            &&& step_spec(delivered, second) is Ok <==> m.pc + 2 < MEM_SIZE
            &&& step_spec(delivered, second) matches Ok(next) ==> next.v[x as int] == key
                && !next.waiting && next.pc == m.pc + 2
        }),
{
    let waiting = Machine { waiting: true, captured: None, ..m };
    assert(fetch_spec(waiting) == fetch_spec(m));
    let delivered = deliver_key_spec(waiting, key).unwrap();
    assert(fetch_spec(delivered) == fetch_spec(m));
}

/// A delivered key is refused while the machine does not wait for one.
pub proof fn law_key_needs_a_wait(m: Machine, key: u8)
    ensures
        deliver_key_spec(m, key) is Ok <==> m.waiting,
        !m.waiting ==> deliver_key_spec(m, key) == Err::<Machine, CpuError>(
            CpuError::ProtocolViolation,
        ),
{
}

/// A timer stops at zero: a tick leaves a timer that is 0 at 0, and takes
/// exactly 1 from any other. The two timers do not affect each other, and
/// a tick changes nothing else.
pub proof fn law_timers_floor_at_zero(m: Machine)
    ensures
        m.dt == 0 ==> tick_spec(m).dt == 0,
        m.st == 0 ==> tick_spec(m).st == 0,
        m.dt > 0 ==> tick_spec(m).dt == m.dt - 1,
        m.st > 0 ==> tick_spec(m).st == m.st - 1,
        tick_spec(m) == (Machine { dt: tick_spec(m).dt, st: tick_spec(m).st, ..m }),
{
}

/// No instruction can send the program counter into the reserved area:
/// whichever instruction computes a jump target (`JP`, `CALL`, `JP V0`),
/// a target below 512 is refused as out of bounds.
pub proof fn law_jump_below_reserved_is_refused(m: Machine, addr: usize, random: u8)
    requires
        m.wf(),
        addr < MEM_SIZE,
    ensures
        addr < MEM_RESERVED ==> execute_spec(m, (Instruction::Jp { addr }), random) == Err::<
            Machine,
            CpuError,
        >(CpuError::OutOfBounds),
        addr < MEM_RESERVED ==> execute_spec(m, (Instruction::Call { addr }), random) == Err::<
            Machine,
            CpuError,
        >(CpuError::OutOfBounds),
        addr + m.v[0] < MEM_RESERVED ==> execute_spec(m, (Instruction::JpV0 { addr }), random)
            == Err::<Machine, CpuError>(CpuError::OutOfBounds),
{
}

/// Every state that the machine reaches is well formed: an instruction that
/// is executed in a well-formed state leaves a well-formed state. In
/// particular the address register and the program counter stay below
/// 4096, the stack pointer stays within 0 and 16, and the program counter
/// stays out of the reserved area.
pub proof fn law_execute_preserves_wf(m: Machine, instr: Instruction, random: u8)
    requires
        m.wf(),
        instr.wf(),
    ensures
        execute_spec(m, instr, random) matches Ok(next) ==> next.wf(),
{
}

/// A machine starts well formed, whatever program it is given: the program
/// counter is on the first byte behind the reserved area, the program lies
/// from there on as it was given, and glyph `d` of the font lies in the
/// five bytes from address `5 * d` on.
pub proof fn law_initial_state(rom: Seq<u8>, original_shift: bool, original_mem_acc: bool)
    requires
        rom.len() <= MEM_SIZE - MEM_RESERVED,
    ensures
        initial_machine(rom, original_shift, original_mem_acc).wf(),
        initial_machine(rom, original_shift, original_mem_acc).pc == MEM_RESERVED,
        forall|k: int|
            0 <= k < rom.len() ==> initial_machine(
                rom,
                original_shift,
                original_mem_acc,
            ).memory[MEM_RESERVED + k] == #[trigger] rom[k],
        forall|d: int, row: int|
            0 <= d < 16 && 0 <= row < GLYPH_SIZE ==> #[trigger] initial_machine(
                rom,
                original_shift,
                original_mem_acc,
            ).memory[glyph_address(d) + row] == font_spec()[GLYPH_SIZE * d + row],
{
}

/// A whole cycle preserves well-formedness, as do a tick, a delivered key
/// and a new state of the keypad.
pub proof fn law_step_preserves_wf(m: Machine, random: u8, key: u8, keys: Seq<u8>)
    requires
        m.wf(),
    ensures
        step_spec(m, random) matches Ok(next) ==> next.wf(),
        tick_spec(m).wf(),
        deliver_key_spec(m, key) matches Ok(next) ==> next.wf(),
        update_keys_spec(m, keys) matches Ok(next) ==> next.wf(),
{
    if let Ok(instr) = fetch_spec(m) {
        crate::instruction::lemma_decoded_is_wf(m.word_at(m.pc));
        law_execute_preserves_wf(m, instr, random);
    }
}

/// Chance enters the machine through the random instruction only: a cycle
/// that executes any other instruction has the same outcome whatever byte
/// is offered.
pub proof fn law_random_byte_only_matters_to_rnd(m: Machine, a: u8, b: u8)
    requires
        !draws_random(m),
    ensures
        step_spec(m, a) == step_spec(m, b),
{
}

/// Adding a byte to a register reports no carry: `ADD Vx, byte` leaves
/// every register but `Vx` as it was, the flag register among them.
pub proof fn law_add_byte_keeps_flag(m: Machine, x: usize, byte: u8, random: u8)
    requires
        m.wf(),
        x < 16,
    ensures
        execute_spec(m, (Instruction::AddByte { x, byte }), random) matches Ok(next) ==> {
            &&& next.v[x as int] == wrapping_sum(m.v[x as int], byte)
            &&& forall|k: int| 0 <= k < 16 && k != x ==> next.v[k] == m.v[k]
        },
{
}

/// The three bytes that `LD B, Vx` stores are the decimal digits of `Vx`,
/// most significant first.
pub proof fn law_bcd_digits(m: Machine, x: usize, random: u8)
    requires
        m.wf(),
        x < 16,
    ensures
        execute_spec(m, (Instruction::Bcd { x }), random) is Ok <==> m.i + 2 < MEM_SIZE && m.pc + 2
            < MEM_SIZE,
        execute_spec(m, (Instruction::Bcd { x }), random) matches Ok(next) ==> {
            &&& next.memory[m.i] < 10
            &&& next.memory[m.i + 1] < 10
            &&& next.memory[m.i + 2] < 10
            &&& 100 * next.memory[m.i] + 10 * next.memory[m.i + 1] + next.memory[m.i + 2]
                == m.v[x as int]
        },
{
}

} // verus!
