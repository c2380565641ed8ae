use vstd::prelude::*;
use crate::display::Sprite;
use crate::error::CpuError;
use crate::font::{font_spec, glyph_address, FONT_SIZE};
use crate::instruction::{decode_spec, Instruction};
use crate::machine::{
    Machine, MEM_RESERVED, MEM_SIZE, NUM_REGISTERS, SCREEN_HEIGHT, SCREEN_SIZE, SCREEN_WIDTH,
    STACK_DEPTH,
};

verus! {

/// The state in which the machine starts: the font at address 0, the
/// program at the end of the reserved area, and the program counter on the
/// program's first instruction.
pub open spec fn initial_machine(rom: Seq<u8>, original_shift: bool, original_mem_acc: bool) -> Machine {
    Machine {
        memory: Seq::new(
            MEM_SIZE as nat,
            |a: int|
                if a < FONT_SIZE {
                    font_spec()[a]
                } else if MEM_RESERVED <= a < MEM_RESERVED + rom.len() {
                    rom[a - MEM_RESERVED]
                } else {
                    0u8
                },
        ),
        stack: Seq::new(STACK_DEPTH as nat, |k: int| 0int),
        v: Seq::new(NUM_REGISTERS as nat, |k: int| 0u8),
        i: 0,
        pc: MEM_RESERVED as int,
        sp: 0,
        dt: 0,
        st: 0,
        screen: Seq::new(SCREEN_SIZE as nat, |k: int| false),
        dirty: false,
        keys: Seq::new(NUM_REGISTERS as nat, |k: int| false),
        waiting: false,
        captured: None,
        original_shift,
        original_mem_acc,
    }
}

/// Moves the program counter to `target`. The reserved area cannot be
/// entered and memory cannot be left.
pub open spec fn jump_spec(m: Machine, target: int) -> Result<Machine, CpuError> {
    if target < MEM_RESERVED || target >= MEM_SIZE {
        Err(CpuError::OutOfBounds)
    } else {
        Ok(Machine { pc: target, ..m })
    }
}

/// `00E0`: every pixel off, display marked as changed.
pub open spec fn cls_spec(m: Machine) -> Result<Machine, CpuError> {
    Machine { screen: Seq::new(SCREEN_SIZE as nat, |k: int| false), dirty: true, ..m }.advance(2)
}

/// `00EE`: pops the latest call site and goes on behind it.
pub open spec fn ret_spec(m: Machine) -> Result<Machine, CpuError> {
    if m.sp == 0 {
        Err(CpuError::ProtocolViolation)
    } else {
        Machine { sp: m.sp - 1, pc: m.stack[m.sp - 1], ..m }.advance(2)
    }
}

/// `2nnn`: pushes the address of the call itself, then jumps.
pub open spec fn call_spec(m: Machine, addr: int) -> Result<Machine, CpuError> {
    if addr < MEM_RESERVED || addr >= MEM_SIZE {
        Err(CpuError::OutOfBounds)
    } else if m.sp >= STACK_DEPTH {
        Err(CpuError::ProtocolViolation)
    } else {
        Ok(Machine { stack: m.stack.update(m.sp, m.pc), sp: m.sp + 1, pc: addr, ..m })
    }
}

/// The skip instructions: behind the next instruction if `taken`, else on it.
pub open spec fn skip_spec(m: Machine, taken: bool) -> Result<Machine, CpuError> {
    m.advance(if taken { 4 } else { 2 })
}

/// The sum of two bytes, wrapped to a byte.
pub open spec fn wrapping_sum(a: u8, b: u8) -> u8 {
    ((a + b) % 256) as u8
}

/// The difference of two bytes, wrapped to a byte.
pub open spec fn wrapping_diff(a: u8, b: u8) -> u8 {
    ((a - b) % 256) as u8
}

/// `8xy4`: `Vx` = the wrapped sum, then `VF` = 1 iff the sum did not fit.
pub open spec fn add_reg_spec(m: Machine, x: int, y: int) -> Result<Machine, CpuError> {
    m.with_register(x, wrapping_sum(m.v[x], m.v[y])).with_flag(m.v[x] + m.v[y] > 255).advance(2)
}

/// `8xy5`: `Vx` = the wrapped `Vx - Vy`, then `VF` = 1 iff `Vx >= Vy`.
pub open spec fn sub_reg_spec(m: Machine, x: int, y: int) -> Result<Machine, CpuError> {
    m.with_register(x, wrapping_diff(m.v[x], m.v[y])).with_flag(m.v[x] >= m.v[y]).advance(2)
}

/// `8xy7`: `Vx` = the wrapped `Vy - Vx`, then `VF` = 1 iff `Vy >= Vx`.
pub open spec fn subn_reg_spec(m: Machine, x: int, y: int) -> Result<Machine, CpuError> {
    m.with_register(x, wrapping_diff(m.v[y], m.v[x])).with_flag(m.v[y] >= m.v[x]).advance(2)
}

/// The register that a shift reads: `Vy` where the machine shifts as the
/// first interpreters did, else `Vx` itself.
pub open spec fn shift_source(m: Machine, x: int, y: int) -> int {
    if m.original_shift {
        y
    } else {
        x
    }
}

/// `8xy6`: `Vx` = the source halved, then `VF` = the source's lowest bit.
pub open spec fn shr_spec(m: Machine, x: int, y: int) -> Result<Machine, CpuError> {
    let source = m.v[shift_source(m, x, y)];
    m.with_register(x, (source / 2) as u8).with_flag(source % 2 == 1).advance(2)
}

/// `8xyE`: `Vx` = the source doubled and wrapped, then `VF` = the source's
/// highest bit.
pub open spec fn shl_spec(m: Machine, x: int, y: int) -> Result<Machine, CpuError> {
    let source = m.v[shift_source(m, x, y)];
    m.with_register(x, ((source * 2) % 256) as u8).with_flag(source >= 128).advance(2)
}

/// `Bnnn`: jumps to `addr + V0`.
pub open spec fn jp_v0_spec(m: Machine, addr: int) -> Result<Machine, CpuError> {
    jump_spec(m, addr + m.v[0])
}

/// `Dxyn`: XORs the sprite into the frame buffer; `VF` = 1 iff a pixel went
/// off. The sprite's position wraps, its body is cut off at the screen's
/// edges. Refused where the sprite's last row lies beyond memory.
pub open spec fn drw_spec(m: Machine, x: int, y: int, n: int) -> Result<Machine, CpuError> {
    let sprite = Sprite {
        left: m.v[x] as int % SCREEN_WIDTH as int,
        top: m.v[y] as int % SCREEN_HEIGHT as int,
        height: n,
        addr: m.i,
    };
    if m.i + n - 1 >= MEM_SIZE {
        Err(CpuError::OutOfBounds)
    } else {
        Machine { screen: sprite.drawn(m.memory, m.screen), dirty: true, ..m }.with_flag(
            sprite.collides(m.memory, m.screen),
        ).advance(2)
    }
}

/// `Ex9E` and `ExA1`: skips if the key named by `Vx` is down (`Ex9E`,
/// `when_down`) or up (`ExA1`). A key number above 15 names no key.
pub open spec fn key_skip_spec(m: Machine, x: int, when_down: bool) -> Result<Machine, CpuError> {
    if m.v[x] >= NUM_REGISTERS {
        Err(CpuError::OutOfBounds)
    } else {
        skip_spec(m, m.keys[m.v[x] as int] == when_down)
    }
}

/// `Fx0A`: the first execution starts the wait and stays on the
/// instruction; so does every execution while no key has been delivered.
/// The execution after a delivery stores the key, ends the wait and moves on.
pub open spec fn ld_key_spec(m: Machine, x: int) -> Result<Machine, CpuError> {
    if !m.waiting {
        Ok(Machine { waiting: true, captured: None, ..m })
    } else {
        match m.captured {
            None => Ok(m),
            Some(key) => Machine { waiting: false, captured: None, ..m }.with_register(x, key).advance(2),
        }
    }
}

/// `Fx1E`: `I += Vx`, refused where the sum leaves memory.
pub open spec fn add_i_spec(m: Machine, x: int) -> Result<Machine, CpuError> {
    if m.i + m.v[x] >= MEM_SIZE {
        Err(CpuError::OutOfBounds)
    } else {
        Machine { i: m.i + m.v[x], ..m }.advance(2)
    }
}

/// `Fx33`: hundreds, tens and ones of `Vx` at `I`, `I + 1` and `I + 2`.
pub open spec fn bcd_spec(m: Machine, x: int) -> Result<Machine, CpuError> {
    if m.i + 2 >= MEM_SIZE {
        Err(CpuError::OutOfBounds)
    } else {
        Machine {
            memory: m.memory.update(m.i, (m.v[x] / 100) as u8).update(
                m.i + 1,
                ((m.v[x] / 10) % 10) as u8,
            ).update(m.i + 2, (m.v[x] % 10) as u8),
            ..m
        }.advance(2)
    }
}

/// Whether a bulk transfer of `V0..=Vx` at `I` is refused: the bytes must
/// lie in memory, and so must the address register where it moves behind
/// them.
pub open spec fn bulk_out_of_bounds(m: Machine, x: int) -> bool {
    m.i + x >= MEM_SIZE || (m.original_mem_acc && m.i + x + 1 >= MEM_SIZE)
}

/// The address register after a bulk transfer of `V0..=Vx`.
pub open spec fn bulk_next_i(m: Machine, x: int) -> int {
    if m.original_mem_acc {
        m.i + x + 1
    } else {
        m.i
    }
}

/// `Fx55`: copies `V0..=Vx` to memory at `I`.
pub open spec fn store_spec(m: Machine, x: int) -> Result<Machine, CpuError> {
    if bulk_out_of_bounds(m, x) {
        Err(CpuError::OutOfBounds)
    } else {
        Machine {
            memory: Seq::new(
                MEM_SIZE as nat,
                |a: int|
                    if m.i <= a <= m.i + x {
                        m.v[a - m.i]
                    } else {
                        m.memory[a]
                    },
            ),
            i: bulk_next_i(m, x),
            ..m
        }.advance(2)
    }
}

/// `Fx65`: copies memory at `I` to `V0..=Vx`.
pub open spec fn load_spec(m: Machine, x: int) -> Result<Machine, CpuError> {
    if bulk_out_of_bounds(m, x) {
        Err(CpuError::OutOfBounds)
    } else {
        Machine {
            v: Seq::new(
                NUM_REGISTERS as nat,
                |k: int|
                    if k <= x {
                        m.memory[m.i + k]
                    } else {
                        m.v[k]
                    },
            ),
            i: bulk_next_i(m, x),
            ..m
        }.advance(2)
    }
}

/// What executing `instr` makes of the state `m`: the next state, or the
/// rule that the instruction broke. `random` is the byte that the random
/// instruction draws.
pub open spec fn execute_spec(m: Machine, instr: Instruction, random: u8) -> Result<
    Machine,
    CpuError,
> {
    match instr {
        Instruction::Cls => cls_spec(m),
        Instruction::Ret => ret_spec(m),
        Instruction::Jp { addr } => jump_spec(m, addr as int),
        Instruction::Call { addr } => call_spec(m, addr as int),
        Instruction::SeByte { x, byte } => skip_spec(m, m.v[x as int] == byte),
        Instruction::SneByte { x, byte } => skip_spec(m, m.v[x as int] != byte),
        Instruction::SeReg { x, y } => skip_spec(m, m.v[x as int] == m.v[y as int]),
        Instruction::LdByte { x, byte } => m.with_register(x as int, byte).advance(2),
        Instruction::AddByte { x, byte } => m.with_register(
            x as int,
            wrapping_sum(m.v[x as int], byte),
        ).advance(2),
        Instruction::LdReg { x, y } => m.with_register(x as int, m.v[y as int]).advance(2),
        Instruction::Or { x, y } => m.with_register(x as int, m.v[x as int] | m.v[y as int]).advance(2),
        Instruction::And { x, y } => m.with_register(x as int, m.v[x as int] & m.v[y as int]).advance(2),
        Instruction::Xor { x, y } => m.with_register(x as int, m.v[x as int] ^ m.v[y as int]).advance(2),
        Instruction::AddReg { x, y } => add_reg_spec(m, x as int, y as int),
        Instruction::SubReg { x, y } => sub_reg_spec(m, x as int, y as int),
        Instruction::Shr { x, y } => shr_spec(m, x as int, y as int),
        Instruction::SubnReg { x, y } => subn_reg_spec(m, x as int, y as int),
        Instruction::Shl { x, y } => shl_spec(m, x as int, y as int),
        Instruction::SneReg { x, y } => skip_spec(m, m.v[x as int] != m.v[y as int]),
        Instruction::LdI { addr } => Machine { i: addr as int, ..m }.advance(2),
        Instruction::JpV0 { addr } => jp_v0_spec(m, addr as int),
        Instruction::Rnd { x, byte } => m.with_register(x as int, random & byte).advance(2),
        Instruction::Drw { x, y, n } => drw_spec(m, x as int, y as int, n as int),
        Instruction::Skp { x } => key_skip_spec(m, x as int, true),
        Instruction::Sknp { x } => key_skip_spec(m, x as int, false),
        Instruction::LdFromDt { x } => m.with_register(x as int, m.dt).advance(2),
        Instruction::LdKey { x } => ld_key_spec(m, x as int),
        Instruction::LdDt { x } => Machine { dt: m.v[x as int], ..m }.advance(2),
        Instruction::LdSt { x } => Machine { st: m.v[x as int], ..m }.advance(2),
        Instruction::AddI { x } => add_i_spec(m, x as int),
        Instruction::LdFont { x } => Machine { i: glyph_address(m.v[x as int] as int), ..m }.advance(2),
        Instruction::Bcd { x } => bcd_spec(m, x as int),
        Instruction::Store { x } => store_spec(m, x as int),
        Instruction::Load { x } => load_spec(m, x as int),
    }
}

/// The instruction that the program counter points to: refused where its
/// two bytes do not both lie in memory, or where they encode nothing.
pub open spec fn fetch_spec(m: Machine) -> Result<Instruction, CpuError> {
    if m.pc + 1 >= MEM_SIZE {
        Err(CpuError::OutOfBounds)
    } else {
        match decode_spec(m.word_at(m.pc)) {
            None => Err(CpuError::InvalidOpcode),
            Some(instr) => Ok(instr),
        }
    }
}

/// Whether the instruction that the program counter points to draws a
/// random byte.
pub open spec fn draws_random(m: Machine) -> bool {
    fetch_spec(m) matches Ok(instr) && instr is Rnd
}

/// One cycle of the machine: fetch, decode, execute.
pub open spec fn step_spec(m: Machine, random: u8) -> Result<Machine, CpuError> {
    match fetch_spec(m) {
        Err(e) => Err(e),
        Ok(instr) => execute_spec(m, instr, random),
    }
}

/// One tick of the 60 Hz clock: both timers count down, each stopping at 0.
pub open spec fn tick_spec(m: Machine) -> Machine {
    Machine { dt: crate::timers::ticked(m.dt), st: crate::timers::ticked(m.st), ..m }
}

/// The host delivers the key that it captured: refused unless a
/// key-capture instruction is pending.
pub open spec fn deliver_key_spec(m: Machine, key: u8) -> Result<Machine, CpuError> {
    if m.waiting {
        Ok(Machine { captured: Some(key), ..m })
    } else {
        Err(CpuError::ProtocolViolation)
    }
}

/// The host replaces the key states: byte `k` of `keys` tells whether key
/// `k` is down (non-zero) or up (zero). Refused unless there are 16 of them.
pub open spec fn update_keys_spec(m: Machine, keys: Seq<u8>) -> Result<Machine, CpuError> {
    if keys.len() == NUM_REGISTERS {
        Ok(Machine { keys: Seq::new(NUM_REGISTERS as nat, |k: int| keys[k] != 0), ..m })
    } else {
        Err(CpuError::InputContractViolation)
    }
}

/// Whether an operation that returned `result` and turned the state `before`
/// into `after` did what `expected` asks for: on success the expected state
/// is reached, on failure the expected error is reported and the state is
/// untouched.
pub open spec fn agrees(
    before: Machine,
    after: Machine,
    result: Result<(), CpuError>,
    expected: Result<Machine, CpuError>,
) -> bool {
    match expected {
        Ok(next) => result is Ok && after == next,
        Err(e) => result == Err::<(), CpuError>(e) && after == before,
    }
}

} // verus!
