use vstd::prelude::*;
use crate::display::{Sprite, SPRITE_WIDTH};
use crate::entropy::random_byte;
use crate::error::CpuError;
use crate::font::{font_spec, font_table, FONT_SIZE, GLYPH_SIZE};
use crate::instruction::{decode, Instruction};
use crate::machine::{
    Machine, MEM_RESERVED, MEM_SIZE, NUM_REGISTERS, SCREEN_HEIGHT, SCREEN_SIZE, SCREEN_WIDTH,
    STACK_DEPTH,
};
use crate::semantics::{
    add_i_spec, add_reg_spec, agrees, bcd_spec, call_spec, cls_spec, deliver_key_spec,
    draws_random, drw_spec, execute_spec, fetch_spec, initial_machine, jp_v0_spec, jump_spec,
    key_skip_spec, ld_key_spec, load_spec, ret_spec, shl_spec, shr_spec, skip_spec, step_spec,
    store_spec, sub_reg_spec, subn_reg_spec, tick_spec, update_keys_spec, wrapping_sum,
};
use crate::timers::tick;

verus! {

/// A CHIP-8 machine: memory, registers, call stack, timers, display and
/// keypad, together with the two options that select between historical
/// behaviours of some instructions.
pub struct Cpu {
    // The whole range is addressable. The first 512 bytes are reserved; they
    // hold the font sprites that the font instruction points to.
    memory: [u8; 4096],
    // Holds the address of each pending call itself, not of the instruction
    // behind it, so that a call at the last address needs no wrapping.
    call_stack: [usize; 16],
    // V0 through VF. VF serves as a flag in some instructions.
    v_registers: [u8; 16],
    // The I register addresses memory in some instructions.
    i_register: usize,
    // The address of the next instruction to execute.
    pc_register: usize,
    // The index of the first free cell of `call_stack`.
    sp_register: usize,
    // The delay and the sound timer count down at 60 Hz while not zero.
    dt_register: u8,
    st_register: u8,
    // A pixel is `true` if it is turned on.
    screen_buffer: [bool; 2048],
    // Set whenever the screen buffer changes; the host clears it.
    screen_dirty: bool,
    // Current state of the keypad.
    key_state: [bool; 16],
    // Set by the key-capture instruction and cleared by it once it has
    // picked up the captured key.
    waiting_for_keypress: bool,
    // The key that the host captured for the pending key-capture instruction.
    captured_key: Option<u8>,
    original_shift: bool,
    original_mem_acc: bool,
}

impl View for Cpu {
    type V = Machine;

    closed spec fn view(&self) -> Machine {
        Machine {
            memory: self.memory@,
            stack: Seq::new(STACK_DEPTH as nat, |k: int| self.call_stack@[k] as int),
            v: self.v_registers@,
            i: self.i_register as int,
            pc: self.pc_register as int,
            sp: self.sp_register as int,
            dt: self.dt_register,
            st: self.st_register,
            screen: self.screen_buffer@,
            dirty: self.screen_dirty,
            keys: self.key_state@,
            waiting: self.waiting_for_keypress,
            captured: self.captured_key,
            original_shift: self.original_shift,
            original_mem_acc: self.original_mem_acc,
        }
    }
}

impl Cpu {
    #[verifier::type_invariant]
    spec fn inv(self) -> bool {
        &&& self.i_register < MEM_SIZE
        &&& MEM_RESERVED <= self.pc_register < MEM_SIZE
        &&& self.sp_register <= STACK_DEPTH
        &&& forall|k: int| 0 <= k < STACK_DEPTH ==> #[trigger] self.call_stack@[k] < MEM_SIZE
        &&& forall|k: int|
            0 <= k < self.sp_register ==> MEM_RESERVED <= #[trigger] self.call_stack@[k]
        &&& self.captured_key is Some ==> self.waiting_for_keypress
    }

    /// Constructs a machine in its initial state, with no program loaded.
    pub fn new() -> (cpu: Cpu)
        ensures
            cpu@ == initial_machine(Seq::<u8>::empty(), false, false),
            cpu@.wf(),
    {
        let mut memory = [0u8; 4096];
        let font = font_table();
        let mut a: usize = 0;
        while a < FONT_SIZE
            invariant
                a <= FONT_SIZE,
                font@ == font_spec(),
                forall|k: int| 0 <= k < a ==> memory@[k] == font_spec()[k],
                forall|k: int| a <= k < MEM_SIZE ==> memory@[k] == 0,
            decreases FONT_SIZE - a,
        {
            memory[a] = font[a];
            a += 1;
        }
        let cpu = Cpu {
            memory,
            call_stack: [0usize; 16],
            v_registers: [0u8; 16],
            i_register: 0,
            pc_register: MEM_RESERVED,
            sp_register: 0,
            dt_register: 0,
            st_register: 0,
            screen_buffer: [false; 2048],
            screen_dirty: false,
            key_state: [false; 16],
            waiting_for_keypress: false,
            captured_key: None,
            original_shift: false,
            original_mem_acc: false,
        };
        proof {
            let m = initial_machine(Seq::<u8>::empty(), false, false);
            assert(cpu@.memory =~= m.memory);
            assert(cpu@.stack =~= m.stack);
            assert(cpu@.v =~= m.v);
            assert(cpu@.screen =~= m.screen);
            assert(cpu@.keys =~= m.keys);
        }
        cpu
    }

    /// Constructs a machine in its initial state with `rom` loaded behind
    /// the reserved area, where execution starts. A program that does not
    /// fit between there and the end of memory is refused.
    pub fn with_rom(rom: &[u8]) -> (r: Result<Cpu, CpuError>)
        ensures
            r is Ok <==> rom@.len() <= MEM_SIZE - MEM_RESERVED,
            r matches Ok(cpu) ==> cpu@ == initial_machine(rom@, false, false) && cpu@.wf(),
            r matches Err(e) ==> e == CpuError::OutOfBounds,
    {
        Cpu::with_rom_and_options(rom, false, false)
    }

    /// Constructs a machine as `with_rom` does, and selects its behaviour.
    ///
    /// With `original_shift` the shift instructions shift `Vy` into `Vx`
    /// instead of shifting `Vx` in place. With `original_mem_acc` the bulk
    /// load and store instructions advance `I` past the registers they moved.
    pub fn with_rom_and_options(rom: &[u8], original_shift: bool, original_mem_acc: bool) -> (r:
        Result<Cpu, CpuError>)
        ensures
            r is Ok <==> rom@.len() <= MEM_SIZE - MEM_RESERVED,
            r matches Ok(cpu) ==> cpu@ == initial_machine(rom@, original_shift, original_mem_acc)
                && cpu@.wf(),
            r matches Err(e) ==> e == CpuError::OutOfBounds,
    {
        if rom.len() > MEM_SIZE - MEM_RESERVED {
            return Err(CpuError::OutOfBounds);
        }
        let mut cpu = Cpu::new();
        let mut k: usize = 0;
        while k < rom.len()
            invariant
                k <= rom@.len() <= MEM_SIZE - MEM_RESERVED,
                cpu@ == (Machine {
                    memory: cpu@.memory,
                    ..initial_machine(Seq::<u8>::empty(), false, false)
                }),
                cpu@.memory.len() == MEM_SIZE,
                forall|a: int|
                    0 <= a < MEM_SIZE ==> cpu@.memory[a] == if MEM_RESERVED <= a < MEM_RESERVED
                        + k {
                        rom@[a - MEM_RESERVED]
                    } else {
                        initial_machine(Seq::<u8>::empty(), false, false).memory[a]
                    },
            decreases rom@.len() - k,
        {
            proof {
                use_type_invariant(&cpu);
            }
            cpu.memory[MEM_RESERVED + k] = rom[k];
            k += 1;
        }
        proof {
            use_type_invariant(&cpu);
        }
        cpu.original_shift = original_shift;
        cpu.original_mem_acc = original_mem_acc;
        proof {
            let m = initial_machine(rom@, original_shift, original_mem_acc);
            assert(cpu@.memory =~= m.memory);
        }
        Ok(cpu)
    }

    /// Ticks the two timers. The host calls this at 60 Hz.
    pub fn tick_clock(&mut self)
        ensures
            final(self)@ == tick_spec(old(self)@),
            final(self)@.wf(),
    {
        proof {
            use_type_invariant(&*self);
        }
        self.dt_register = tick(self.dt_register);
        self.st_register = tick(self.st_register);
    }

    /// The frame buffer, row by row: pixel `(x, y)` is at index `64 * y + x`
    /// and is `true` while turned on.
    pub fn get_screen_buffer(&self) -> (buffer: &[bool; 2048])
        ensures
            buffer@ == self@.screen,
    {
        &self.screen_buffer
    }

    /// Tells whether the display changed since the last call, and forgets it.
    pub fn handle_screen_dirty_flag(&mut self) -> (dirty: bool)
        ensures
            dirty == old(self)@.dirty,
            final(self)@ == (Machine { dirty: false, ..old(self)@ }),
            final(self)@.wf(),
    {
        proof {
            use_type_invariant(&*self);
        }
        let captured_flag = self.screen_dirty;
        self.screen_dirty = false;
        captured_flag
    }

    /// Replaces the state of the keypad. Byte `k` of `new_key_state` is zero
    /// while key `k` is up and anything else while it is down. A slice that
    /// does not hold exactly 16 bytes is refused.
    pub fn update_key_state(&mut self, new_key_state: &[u8]) -> (r: Result<(), CpuError>)
        ensures
            agrees(old(self)@, final(self)@, r, update_keys_spec(old(self)@, new_key_state@)),
            final(self)@.wf(),
    {
        proof {
            use_type_invariant(&*self);
        }
        if new_key_state.len() != NUM_REGISTERS {
            return Err(CpuError::InputContractViolation);
        }
        let mut k: usize = 0;
        while k < NUM_REGISTERS
            invariant
                k <= NUM_REGISTERS,
                new_key_state@.len() == NUM_REGISTERS,
                self@ == (Machine { keys: self@.keys, ..old(self)@ }),
                self@.keys.len() == NUM_REGISTERS,
                forall|j: int| 0 <= j < k ==> self@.keys[j] == (new_key_state@[j] != 0),
            decreases NUM_REGISTERS - k,
        {
            proof {
                use_type_invariant(&*self);
            }
            self.key_state[k] = new_key_state[k] != 0;
            k += 1;
        }
        proof {
            assert(self@.keys =~= update_keys_spec(old(self)@, new_key_state@).unwrap().keys);
        }
        Ok(())
    }

    /// Tells whether a key-capture instruction is pending.
    pub fn is_waiting_for_keypress(&self) -> (waiting: bool)
        ensures
            waiting == self@.waiting,
    {
        self.waiting_for_keypress
    }

    /// Delivers the key that the host captured for the pending key-capture
    /// instruction, which picks it up when it is executed next. Refused
    /// while no such instruction is pending.
    pub fn set_captured_key(&mut self, captured_key: u8) -> (r: Result<(), CpuError>)
        ensures
            agrees(old(self)@, final(self)@, r, deliver_key_spec(old(self)@, captured_key)),
            final(self)@.wf(),
    {
        proof {
            use_type_invariant(&*self);
        }
        if !self.waiting_for_keypress {
            return Err(CpuError::ProtocolViolation);
        }
        self.captured_key = Some(captured_key);
        Ok(())
    }

    /// Tells whether the host should play a tone: the sound timer runs.
    pub fn should_play_tone(&self) -> (tone: bool)
        ensures
            tone == (self@.st > 0),
    {
        self.st_register > 0
    }
}

// The instructions. Each one checks what it needs before it changes
// anything, so that a refused instruction leaves the machine untouched.
impl Cpu {
    /// The program counter moved forward by `delta`, if that stays in memory.
    fn pc_after(&self, delta: usize) -> (r: Result<usize, CpuError>)
        requires
            delta <= 4,
        ensures
            self@.wf(),
            r matches Ok(pc) ==> pc == self@.pc + delta && pc < MEM_SIZE,
            r matches Err(e) ==> e == CpuError::OutOfBounds && self@.pc + delta >= MEM_SIZE,
    {
        proof {
            use_type_invariant(self);
        }
        if self.pc_register + delta < MEM_SIZE {
            Ok(self.pc_register + delta)
        } else {
            Err(CpuError::OutOfBounds)
        }
    }

    /// Moves the program counter to `target`.
    fn jump(&mut self, target: usize) -> (r: Result<(), CpuError>)
        ensures
            agrees(old(self)@, final(self)@, r, jump_spec(old(self)@, target as int)),
    {
        proof {
            use_type_invariant(&*self);
        }
        if target < MEM_RESERVED || target >= MEM_SIZE {
            return Err(CpuError::OutOfBounds);
        }
        self.pc_register = target;
        Ok(())
    }

    /// Goes on with the next instruction, or with the one behind it.
    fn skip(&mut self, taken: bool) -> (r: Result<(), CpuError>)
        ensures
            agrees(old(self)@, final(self)@, r, skip_spec(old(self)@, taken)),
    {
        proof {
            use_type_invariant(&*self);
        }
        let pc = self.pc_after(if taken { 4 } else { 2 })?;
        self.pc_register = pc;
        Ok(())
    }

    /// Sets `Vx` and goes on with the next instruction.
    fn load_register(&mut self, x: usize, value: u8) -> (r: Result<(), CpuError>)
        requires
            x < NUM_REGISTERS,
        ensures
            agrees(
                old(self)@,
                final(self)@,
                r,
                old(self)@.with_register(x as int, value).advance(2),
            ),
    {
        proof {
            use_type_invariant(&*self);
        }
        let pc = self.pc_after(2)?;
        self.v_registers[x] = value;
        self.pc_register = pc;
        Ok(())
    }

    /// Sets `Vx`, then the flag register, and goes on with the next
    /// instruction.
    fn load_register_and_flag(&mut self, x: usize, value: u8, flag: bool) -> (r: Result<
        (),
        CpuError,
    >)
        requires
            x < NUM_REGISTERS,
        ensures
            agrees(
                old(self)@,
                final(self)@,
                r,
                old(self)@.with_register(x as int, value).with_flag(flag).advance(2),
            ),
    {
        proof {
            use_type_invariant(&*self);
        }
        let pc = self.pc_after(2)?;
        self.v_registers[x] = value;
        self.v_registers[0xF] = if flag { 1 } else { 0 };
        self.pc_register = pc;
        Ok(())
    }

    /// Executes `CLS`.
    fn instr_00e0(&mut self) -> (r: Result<(), CpuError>)
        ensures
            agrees(old(self)@, final(self)@, r, cls_spec(old(self)@)),
    {
        proof {
            use_type_invariant(&*self);
        }
        let pc = self.pc_after(2)?;
        self.screen_buffer = [false; 2048];
        self.screen_dirty = true;
        self.pc_register = pc;
        proof {
            assert(self@.screen =~= cls_spec(old(self)@).unwrap().screen);
        }
        Ok(())
    }

    /// Executes `RET`.
    fn instr_00ee(&mut self) -> (r: Result<(), CpuError>)
        ensures
            agrees(old(self)@, final(self)@, r, ret_spec(old(self)@)),
    {
        proof {
            use_type_invariant(&*self);
        }
        if self.sp_register == 0 {
            return Err(CpuError::ProtocolViolation);
        }
        // The stack holds the address of the call itself: execution goes on
        // with the instruction behind it.
        let call_site = self.call_stack[self.sp_register - 1];
        if call_site + 2 >= MEM_SIZE {
            return Err(CpuError::OutOfBounds);
        }
        self.sp_register -= 1;
        self.pc_register = call_site + 2;
        Ok(())
    }

    /// Executes `JP addr`.
    fn instr_1nnn(&mut self, addr: usize) -> (r: Result<(), CpuError>)
        ensures
            agrees(old(self)@, final(self)@, r, jump_spec(old(self)@, addr as int)),
    {
        self.jump(addr)
    }

    /// Executes `CALL addr`.
    fn instr_2nnn(&mut self, addr: usize) -> (r: Result<(), CpuError>)
        ensures
            agrees(old(self)@, final(self)@, r, call_spec(old(self)@, addr as int)),
    {
        proof {
            use_type_invariant(&*self);
        }
        if addr < MEM_RESERVED || addr >= MEM_SIZE {
            return Err(CpuError::OutOfBounds);
        }
        if self.sp_register >= STACK_DEPTH {
            return Err(CpuError::ProtocolViolation);
        }
        self.call_stack[self.sp_register] = self.pc_register;
        self.sp_register += 1;
        self.pc_register = addr;
        proof {
            assert(self@.stack =~= old(self)@.stack.update(old(self)@.sp, old(self)@.pc));
        }
        Ok(())
    }

    /// Executes `SE Vx, byte`.
    fn instr_3xkk(&mut self, x: usize, byte: u8) -> (r: Result<(), CpuError>)
        requires
            x < NUM_REGISTERS,
        ensures
            agrees(
                old(self)@,
                final(self)@,
                r,
                skip_spec(old(self)@, old(self)@.v[x as int] == byte),
            ),
    {
        let taken = self.v_registers[x] == byte;
        self.skip(taken)
    }

    /// Executes `SNE Vx, byte`.
    fn instr_4xkk(&mut self, x: usize, byte: u8) -> (r: Result<(), CpuError>)
        requires
            x < NUM_REGISTERS,
        ensures
            agrees(
                old(self)@,
                final(self)@,
                r,
                skip_spec(old(self)@, old(self)@.v[x as int] != byte),
            ),
    {
        let taken = self.v_registers[x] != byte;
        self.skip(taken)
    }

    /// Executes `SE Vx, Vy`.
    fn instr_5xy0(&mut self, x: usize, y: usize) -> (r: Result<(), CpuError>)
        requires
            x < NUM_REGISTERS,
            y < NUM_REGISTERS,
        ensures
            agrees(
                old(self)@,
                final(self)@,
                r,
                skip_spec(old(self)@, old(self)@.v[x as int] == old(self)@.v[y as int]),
            ),
    {
        let taken = self.v_registers[x] == self.v_registers[y];
        self.skip(taken)
    }

    /// Executes `LD Vx, byte`.
    fn instr_6xkk(&mut self, x: usize, byte: u8) -> (r: Result<(), CpuError>)
        requires
            x < NUM_REGISTERS,
        ensures
            agrees(
                old(self)@,
                final(self)@,
                r,
                old(self)@.with_register(x as int, byte).advance(2),
            ),
    {
        self.load_register(x, byte)
    }

    /// Executes `ADD Vx, byte`.
    fn instr_7xkk(&mut self, x: usize, byte: u8) -> (r: Result<(), CpuError>)
        requires
            x < NUM_REGISTERS,
        ensures
            agrees(
                old(self)@,
                final(self)@,
                r,
                old(self)@.with_register(
                    x as int,
                    wrapping_sum(old(self)@.v[x as int], byte),
                ).advance(2),
            ),
    {
        let sum = self.v_registers[x].wrapping_add(byte);
        self.load_register(x, sum)
    }

    /// Executes `LD Vx, Vy`.
    fn instr_8xy0(&mut self, x: usize, y: usize) -> (r: Result<(), CpuError>)
        requires
            x < NUM_REGISTERS,
            y < NUM_REGISTERS,
        ensures
            agrees(
                old(self)@,
                final(self)@,
                r,
                old(self)@.with_register(x as int, old(self)@.v[y as int]).advance(2),
            ),
    {
        let value = self.v_registers[y];
        self.load_register(x, value)
    }

    /// Executes `OR Vx, Vy`.
    fn instr_8xy1(&mut self, x: usize, y: usize) -> (r: Result<(), CpuError>)
        requires
            x < NUM_REGISTERS,
            y < NUM_REGISTERS,
        ensures
            agrees(
                old(self)@,
                final(self)@,
                r,
                old(self)@.with_register(
                    x as int,
                    old(self)@.v[x as int] | old(self)@.v[y as int],
                ).advance(2),
            ),
    {
        let value = self.v_registers[x] | self.v_registers[y];
        self.load_register(x, value)
    }

    /// Executes `AND Vx, Vy`.
    fn instr_8xy2(&mut self, x: usize, y: usize) -> (r: Result<(), CpuError>)
        requires
            x < NUM_REGISTERS,
            y < NUM_REGISTERS,
        ensures
            agrees(
                old(self)@,
                final(self)@,
                r,
                old(self)@.with_register(
                    x as int,
                    old(self)@.v[x as int] & old(self)@.v[y as int],
                ).advance(2),
            ),
    {
        let value = self.v_registers[x] & self.v_registers[y];
        self.load_register(x, value)
    }

    /// Executes `XOR Vx, Vy`.
    fn instr_8xy3(&mut self, x: usize, y: usize) -> (r: Result<(), CpuError>)
        requires
            x < NUM_REGISTERS,
            y < NUM_REGISTERS,
        ensures
            agrees(
                old(self)@,
                final(self)@,
                r,
                old(self)@.with_register(
                    x as int,
                    old(self)@.v[x as int] ^ old(self)@.v[y as int],
                ).advance(2),
            ),
    {
        let value = self.v_registers[x] ^ self.v_registers[y];
        self.load_register(x, value)
    }

    /// Executes `ADD Vx, Vy`. The flag register tells whether the sum
    /// overflowed.
    fn instr_8xy4(&mut self, x: usize, y: usize) -> (r: Result<(), CpuError>)
        requires
            x < NUM_REGISTERS,
            y < NUM_REGISTERS,
        ensures
            agrees(old(self)@, final(self)@, r, add_reg_spec(old(self)@, x as int, y as int)),
    {
        let a = self.v_registers[x];
        let b = self.v_registers[y];
        let sum = a.wrapping_add(b);
        let carry = a > u8::MAX - b;
        self.load_register_and_flag(x, sum, carry)
    }

    /// Executes `SUB Vx, Vy`. The flag register tells whether the
    /// subtraction did without a borrow.
    fn instr_8xy5(&mut self, x: usize, y: usize) -> (r: Result<(), CpuError>)
        requires
            x < NUM_REGISTERS,
            y < NUM_REGISTERS,
        ensures
            agrees(old(self)@, final(self)@, r, sub_reg_spec(old(self)@, x as int, y as int)),
    {
        let a = self.v_registers[x];
        let b = self.v_registers[y];
        let diff = a.wrapping_sub(b);
        self.load_register_and_flag(x, diff, a >= b)
    }

    /// Executes `SHR Vx, Vy`. The flag register receives the bit that was
    /// shifted out.
    fn instr_8xy6(&mut self, x: usize, y: usize) -> (r: Result<(), CpuError>)
        requires
            x < NUM_REGISTERS,
            y < NUM_REGISTERS,
        ensures
            agrees(old(self)@, final(self)@, r, shr_spec(old(self)@, x as int, y as int)),
    {
        // Newer interpreters ignore Vy and shift Vx in place.
        let source = if self.original_shift {
            self.v_registers[y]
        } else {
            self.v_registers[x]
        };
        let shifted_bit = source & 1;
        assert(source >> 1 == source / 2) by (bit_vector);
        assert((source & 1 != 0) == (source % 2 == 1)) by (bit_vector);
        self.load_register_and_flag(x, source >> 1, shifted_bit != 0)
    }

    /// Executes `SUBN Vx, Vy`. The flag register tells whether the
    /// subtraction did without a borrow.
    fn instr_8xy7(&mut self, x: usize, y: usize) -> (r: Result<(), CpuError>)
        requires
            x < NUM_REGISTERS,
            y < NUM_REGISTERS,
        ensures
            agrees(old(self)@, final(self)@, r, subn_reg_spec(old(self)@, x as int, y as int)),
    {
        let a = self.v_registers[x];
        let b = self.v_registers[y];
        let diff = b.wrapping_sub(a);
        self.load_register_and_flag(x, diff, b >= a)
    }

    /// Executes `SHL Vx, Vy`. The flag register receives the bit that was
    /// shifted out.
    fn instr_8xye(&mut self, x: usize, y: usize) -> (r: Result<(), CpuError>)
        requires
            x < NUM_REGISTERS,
            y < NUM_REGISTERS,
        ensures
            agrees(old(self)@, final(self)@, r, shl_spec(old(self)@, x as int, y as int)),
    {
        // Newer interpreters ignore Vy and shift Vx in place.
        let source = if self.original_shift {
            self.v_registers[y]
        } else {
            self.v_registers[x]
        };
        let shifted_bit = (source >> 7) & 1;
        assert(source << 1 == (source * 2) % 256) by (bit_vector);
        assert(((source >> 7) & 1 != 0) == (source >= 128)) by (bit_vector);
        self.load_register_and_flag(x, source << 1, shifted_bit != 0)
    }

    /// Executes `SNE Vx, Vy`.
    fn instr_9xy0(&mut self, x: usize, y: usize) -> (r: Result<(), CpuError>)
        requires
            x < NUM_REGISTERS,
            y < NUM_REGISTERS,
        ensures
            agrees(
                old(self)@,
                final(self)@,
                r,
                skip_spec(old(self)@, old(self)@.v[x as int] != old(self)@.v[y as int]),
            ),
    {
        let taken = self.v_registers[x] != self.v_registers[y];
        self.skip(taken)
    }

    /// Executes `LD I, addr`.
    fn instr_annn(&mut self, addr: usize) -> (r: Result<(), CpuError>)
        requires
            addr < MEM_SIZE,
        ensures
            agrees(
                old(self)@,
                final(self)@,
                r,
                (Machine { i: addr as int, ..old(self)@ }).advance(2),
            ),
    {
        proof {
            use_type_invariant(&*self);
        }
        let pc = self.pc_after(2)?;
        self.i_register = addr;
        self.pc_register = pc;
        Ok(())
    }

    /// Executes `JP V0, addr`.
    fn instr_bnnn(&mut self, addr: usize) -> (r: Result<(), CpuError>)
        requires
            addr < MEM_SIZE,
        ensures
            agrees(old(self)@, final(self)@, r, jp_v0_spec(old(self)@, addr as int)),
    {
        let target = addr + self.v_registers[0] as usize;
        self.jump(target)
    }

    /// Executes `RND Vx, byte` with `random` as the byte that was drawn.
    fn instr_cxkk(&mut self, x: usize, byte: u8, random: u8) -> (r: Result<(), CpuError>)
        requires
            x < NUM_REGISTERS,
        ensures
            agrees(
                old(self)@,
                final(self)@,
                r,
                old(self)@.with_register(x as int, random & byte).advance(2),
            ),
    {
        self.load_register(x, random & byte)
    }

    /// Executes `SKP Vx` (`when_down`) and `SKNP Vx`.
    fn key_skip(&mut self, x: usize, when_down: bool) -> (r: Result<(), CpuError>)
        requires
            x < NUM_REGISTERS,
        ensures
            agrees(old(self)@, final(self)@, r, key_skip_spec(old(self)@, x as int, when_down)),
    {
        let key_digit = self.v_registers[x] as usize;
        if key_digit >= NUM_REGISTERS {
            return Err(CpuError::OutOfBounds);
        }
        let down = self.key_state[key_digit];
        self.skip(down == when_down)
    }

    /// Executes `SKP Vx`.
    fn instr_ex9e(&mut self, x: usize) -> (r: Result<(), CpuError>)
        requires
            x < NUM_REGISTERS,
        ensures
            agrees(old(self)@, final(self)@, r, key_skip_spec(old(self)@, x as int, true)),
    {
        self.key_skip(x, true)
    }

    /// Executes `SKNP Vx`.
    fn instr_exa1(&mut self, x: usize) -> (r: Result<(), CpuError>)
        requires
            x < NUM_REGISTERS,
        ensures
            agrees(old(self)@, final(self)@, r, key_skip_spec(old(self)@, x as int, false)),
    {
        self.key_skip(x, false)
    }

    /// Executes `LD Vx, DT`.
    fn instr_fx07(&mut self, x: usize) -> (r: Result<(), CpuError>)
        requires
            x < NUM_REGISTERS,
        ensures
            agrees(
                old(self)@,
                final(self)@,
                r,
                old(self)@.with_register(x as int, old(self)@.dt).advance(2),
            ),
    {
        let value = self.dt_register;
        self.load_register(x, value)
    }

    /// Executes `LD Vx, K`.
    fn instr_fx0a(&mut self, x: usize) -> (r: Result<(), CpuError>)
        requires
            x < NUM_REGISTERS,
        ensures
            agrees(old(self)@, final(self)@, r, ld_key_spec(old(self)@, x as int)),
    {
        proof {
            use_type_invariant(&*self);
        }
        if !self.waiting_for_keypress {
            // The program counter stays where it is, so that this
            // instruction is executed again until a key has arrived.
            self.waiting_for_keypress = true;
            return Ok(());
        }
        match self.captured_key {
            None => Ok(()),
            Some(key) => {
                let pc = self.pc_after(2)?;
                self.v_registers[x] = key;
                self.captured_key = None;
                self.waiting_for_keypress = false;
                self.pc_register = pc;
                Ok(())
            },
        }
    }

    /// Executes `LD DT, Vx`.
    fn instr_fx15(&mut self, x: usize) -> (r: Result<(), CpuError>)
        requires
            x < NUM_REGISTERS,
        ensures
            agrees(
                old(self)@,
                final(self)@,
                r,
                (Machine { dt: old(self)@.v[x as int], ..old(self)@ }).advance(2),
            ),
    {
        proof {
            use_type_invariant(&*self);
        }
        let pc = self.pc_after(2)?;
        self.dt_register = self.v_registers[x];
        self.pc_register = pc;
        Ok(())
    }

    /// Executes `LD ST, Vx`.
    fn instr_fx18(&mut self, x: usize) -> (r: Result<(), CpuError>)
        requires
            x < NUM_REGISTERS,
        ensures
            agrees(
                old(self)@,
                final(self)@,
                r,
                (Machine { st: old(self)@.v[x as int], ..old(self)@ }).advance(2),
            ),
    {
        proof {
            use_type_invariant(&*self);
        }
        let pc = self.pc_after(2)?;
        self.st_register = self.v_registers[x];
        self.pc_register = pc;
        Ok(())
    }

    /// Executes `ADD I, Vx`.
    fn instr_fx1e(&mut self, x: usize) -> (r: Result<(), CpuError>)
        requires
            x < NUM_REGISTERS,
        ensures
            agrees(old(self)@, final(self)@, r, add_i_spec(old(self)@, x as int)),
    {
        proof {
            use_type_invariant(&*self);
        }
        let sum = self.i_register + self.v_registers[x] as usize;
        if sum >= MEM_SIZE {
            return Err(CpuError::OutOfBounds);
        }
        let pc = self.pc_after(2)?;
        self.i_register = sum;
        self.pc_register = pc;
        Ok(())
    }

    /// Executes `LD F, Vx`.
    fn instr_fx29(&mut self, x: usize) -> (r: Result<(), CpuError>)
        requires
            x < NUM_REGISTERS,
        ensures
            agrees(
                old(self)@,
                final(self)@,
                r,
                (Machine {
                    i: crate::font::glyph_address(old(self)@.v[x as int] as int),
                    ..old(self)@
                }).advance(2),
            ),
    {
        proof {
            use_type_invariant(&*self);
        }
        let pc = self.pc_after(2)?;
        let hex_digit = self.v_registers[x];
        // The font sprites start at address 0.
        self.i_register = GLYPH_SIZE * (hex_digit as usize);
        self.pc_register = pc;
        Ok(())
    }

    /// Executes `LD B, Vx`.
    fn instr_fx33(&mut self, x: usize) -> (r: Result<(), CpuError>)
        requires
            x < NUM_REGISTERS,
        ensures
            agrees(old(self)@, final(self)@, r, bcd_spec(old(self)@, x as int)),
    {
        proof {
            use_type_invariant(&*self);
        }
        if self.i_register + 2 >= MEM_SIZE {
            return Err(CpuError::OutOfBounds);
        }
        let pc = self.pc_after(2)?;
        let reg_val = self.v_registers[x];
        self.memory[self.i_register] = reg_val / 100;
        self.memory[self.i_register + 1] = (reg_val / 10) % 10;
        self.memory[self.i_register + 2] = reg_val % 10;
        self.pc_register = pc;
        Ok(())
    }

    /// Tells whether `V0..=Vx` can be moved to or from memory at `I`; if
    /// so, gives the value that `I` has afterwards.
    fn bulk_bounds(&self, x: usize) -> (r: Result<usize, CpuError>)
        requires
            x < NUM_REGISTERS,
        ensures
            self@.wf(),
            r is Err <==> crate::semantics::bulk_out_of_bounds(self@, x as int),
            r matches Ok(next_i) ==> next_i == crate::semantics::bulk_next_i(self@, x as int)
                && next_i < MEM_SIZE,
            r matches Err(e) ==> e == CpuError::OutOfBounds,
    {
        proof {
            use_type_invariant(self);
        }
        if self.i_register + x >= MEM_SIZE {
            return Err(CpuError::OutOfBounds);
        }
        // The first interpreters incremented I while they moved the
        // registers; some newer ones leave it alone.
        if self.original_mem_acc {
            if self.i_register + x + 1 >= MEM_SIZE {
                return Err(CpuError::OutOfBounds);
            }
            Ok(self.i_register + x + 1)
        } else {
            Ok(self.i_register)
        }
    }

    /// Executes `LD [I], Vx`.
    fn instr_fx55(&mut self, last_reg: usize) -> (r: Result<(), CpuError>)
        requires
            last_reg < NUM_REGISTERS,
        ensures
            agrees(old(self)@, final(self)@, r, store_spec(old(self)@, last_reg as int)),
    {
        let next_i = self.bulk_bounds(last_reg)?;
        let pc = self.pc_after(2)?;
        let mut reg: usize = 0;
        while reg < last_reg + 1
            invariant
                reg <= last_reg + 1,
                last_reg < NUM_REGISTERS,
                old(self)@.wf(),
                old(self)@.i + last_reg < MEM_SIZE,
                self@ == (Machine { memory: self@.memory, ..old(self)@ }),
                self@.memory.len() == MEM_SIZE,
                forall|a: int|
                    0 <= a < MEM_SIZE ==> self@.memory[a] == if old(self)@.i <= a < old(self)@.i
                        + reg {
                        old(self)@.v[a - old(self)@.i]
                    } else {
                        old(self)@.memory[a]
                    },
            decreases last_reg + 1 - reg,
        {
            proof {
                use_type_invariant(&*self);
            }
            self.memory[self.i_register + reg] = self.v_registers[reg];
            reg += 1;
        }
        proof {
            use_type_invariant(&*self);
        }
        self.i_register = next_i;
        self.pc_register = pc;
        proof {
            assert(self@.memory =~= store_spec(old(self)@, last_reg as int).unwrap().memory);
        }
        Ok(())
    }

    /// Executes `LD Vx, [I]`.
    fn instr_fx65(&mut self, last_reg: usize) -> (r: Result<(), CpuError>)
        requires
            last_reg < NUM_REGISTERS,
        ensures
            agrees(old(self)@, final(self)@, r, load_spec(old(self)@, last_reg as int)),
    {
        let next_i = self.bulk_bounds(last_reg)?;
        let pc = self.pc_after(2)?;
        let mut reg: usize = 0;
        while reg < last_reg + 1
            invariant
                reg <= last_reg + 1,
                last_reg < NUM_REGISTERS,
                old(self)@.wf(),
                old(self)@.i + last_reg < MEM_SIZE,
                self@ == (Machine { v: self@.v, ..old(self)@ }),
                self@.v.len() == NUM_REGISTERS,
                forall|k: int|
                    0 <= k < NUM_REGISTERS ==> self@.v[k] == if k < reg {
                        old(self)@.memory[old(self)@.i + k]
                    } else {
                        old(self)@.v[k]
                    },
            decreases last_reg + 1 - reg,
        {
            proof {
                use_type_invariant(&*self);
            }
            self.v_registers[reg] = self.memory[self.i_register + reg];
            reg += 1;
        }
        proof {
            use_type_invariant(&*self);
        }
        self.i_register = next_i;
        self.pc_register = pc;
        proof {
            assert(self@.v =~= load_spec(old(self)@, last_reg as int).unwrap().v);
        }
        Ok(())
    }
}

/// Where a run of `extent` pixels that starts at `start` ends on a screen
/// that ends at `limit`.
spec fn clipped_end(start: int, extent: int, limit: int) -> int {
    if start + extent < limit {
        start + extent
    } else {
        limit
    }
}

/// Whether the pixel `(px, py)` comes before the pixel `(at_x, at_y)` in
/// the order in which a sprite is drawn: row by row, each from left to right.
spec fn drawn_before(px: int, py: int, at_x: int, at_y: int) -> bool {
    py < at_y || (py == at_y && px < at_x)
}

/// The frame buffer `screen` is `before` with the sprite's pixels in front
/// of `(at_x, at_y)` drawn, and `collision` tells whether one of them was on.
spec fn drawn_up_to(
    sprite: Sprite,
    memory: Seq<u8>,
    before: Seq<bool>,
    screen: Seq<bool>,
    collision: bool,
    at_x: int,
    at_y: int,
) -> bool {
    &&& screen.len() == SCREEN_SIZE
    &&& forall|k: int|
        0 <= k < SCREEN_SIZE ==> #[trigger] screen[k] == (before[k] ^ (sprite.lit(
            memory,
            k % SCREEN_WIDTH as int,
            k / SCREEN_WIDTH as int,
        ) && drawn_before(k % SCREEN_WIDTH as int, k / SCREEN_WIDTH as int, at_x, at_y)))
    &&& collision <==> exists|px: int, py: int|
        0 <= px < SCREEN_WIDTH && 0 <= py < SCREEN_HEIGHT && #[trigger] sprite.lit(memory, px, py)
            && drawn_before(px, py, at_x, at_y) && before[crate::display::pixel_index(px, py)]
}

impl Cpu {
    /// Executes `DRW Vx, Vy, nibble`.
    fn instr_dxyn(&mut self, x: usize, y: usize, n: u8) -> (r: Result<(), CpuError>)
        requires
            x < NUM_REGISTERS,
            y < NUM_REGISTERS,
            n < 16,
        ensures
            agrees(old(self)@, final(self)@, r, drw_spec(old(self)@, x as int, y as int, n as int)),
    {
        proof {
            use_type_invariant(&*self);
        }
        // The position of a sprite wraps; a sprite that extends beyond the
        // edge of the screen is clipped.
        let sprite_x = (self.v_registers[x] as usize) % SCREEN_WIDTH;
        let sprite_y = (self.v_registers[y] as usize) % SCREEN_HEIGHT;
        let sprite_height = n as usize;
        if self.i_register + sprite_height > MEM_SIZE {
            return Err(CpuError::OutOfBounds);
        }
        let pc = self.pc_after(2)?;
        let y_end = if sprite_y + sprite_height < SCREEN_HEIGHT {
            sprite_y + sprite_height
        } else {
            SCREEN_HEIGHT
        };
        let x_end = if sprite_x + SPRITE_WIDTH < SCREEN_WIDTH {
            sprite_x + SPRITE_WIDTH
        } else {
            SCREEN_WIDTH
        };
        let ghost sprite = Sprite {
            left: sprite_x as int,
            top: sprite_y as int,
            height: sprite_height as int,
            addr: self.i_register as int,
        };
        let ghost memory = self@.memory;
        let ghost before = self@.screen;

        let mut collision = false;
        let mut pixel_y = sprite_y;
        while pixel_y < y_end
            invariant
                sprite_y <= pixel_y <= y_end,
                sprite_x < SCREEN_WIDTH,
                y_end == clipped_end(sprite_y as int, sprite_height as int, SCREEN_HEIGHT as int),
                x_end == clipped_end(sprite_x as int, SPRITE_WIDTH as int, SCREEN_WIDTH as int),
                sprite == (Sprite {
                    left: sprite_x as int,
                    top: sprite_y as int,
                    height: sprite_height as int,
                    addr: old(self)@.i,
                }),
                old(self)@.wf(),
                old(self)@.i + sprite_height <= MEM_SIZE,
                memory == old(self)@.memory,
                before == old(self)@.screen,
                self@ == (Machine { screen: self@.screen, ..old(self)@ }),
                drawn_up_to(sprite, memory, before, self@.screen, collision, 0, pixel_y as int),
            decreases y_end - pixel_y,
        {
            proof {
                use_type_invariant(&*self);
            }
            // A sprite is a bitmap of width 8, one byte per row.
            let sprite_row = self.memory[self.i_register + (pixel_y - sprite_y)];
            let mut pixel_x = sprite_x;
            while pixel_x < x_end
                invariant
                    sprite_y <= pixel_y < y_end,
                    sprite_x <= pixel_x <= x_end,
                    sprite_x < SCREEN_WIDTH,
                    y_end == clipped_end(sprite_y as int, sprite_height as int, SCREEN_HEIGHT as int),
                    x_end == clipped_end(sprite_x as int, SPRITE_WIDTH as int, SCREEN_WIDTH as int),
                    old(self)@.i + sprite_height <= MEM_SIZE,
                    sprite == (Sprite {
                        left: sprite_x as int,
                        top: sprite_y as int,
                        height: sprite_height as int,
                        addr: old(self)@.i,
                    }),
                    old(self)@.wf(),
                    memory == old(self)@.memory,
                    before == old(self)@.screen,
                    sprite_row == memory[sprite.addr + (pixel_y - sprite_y)],
                    self@ == (Machine { screen: self@.screen, ..old(self)@ }),
                    drawn_up_to(
                        sprite,
                        memory,
                        before,
                        self@.screen,
                        collision,
                        pixel_x as int,
                        pixel_y as int,
                    ),
                decreases x_end - pixel_x,
            {
                proof {
                    use_type_invariant(&*self);
                }
                // The most significant bit is the leftmost pixel.
                let row_bit_shift = 7 - (pixel_x - sprite_x);
                let pixel_on = ((sprite_row >> row_bit_shift) & 1) != 0;
                let index = pixel_y * SCREEN_WIDTH + pixel_x;
                let pixel_was_on = self.screen_buffer[index];
                // A pixel that is on and drawn over goes off.
                if pixel_was_on && pixel_on {
                    collision = true;
                }
                self.screen_buffer[index] = pixel_was_on ^ pixel_on;
                proof {
                    if pixel_was_on && pixel_on {
                        assert(sprite.lit(memory, pixel_x as int, pixel_y as int));
                    }
                }
                pixel_x += 1;
            }
            pixel_y += 1;
        }
        proof {
            use_type_invariant(&*self);
            assert(self@.screen =~= sprite.drawn(memory, before));
        }
        // The flag register tells whether a pixel went off.
        self.v_registers[0xF] = if collision { 1 } else { 0 };
        self.screen_dirty = true;
        self.pc_register = pc;
        Ok(())
    }
}

// Fetch, decode, execute.
impl Cpu {
    /// Reads and decodes the instruction that the program counter points
    /// to. Instructions are two bytes, big-endian.
    pub fn fetch(&self) -> (r: Result<Instruction, CpuError>)
        ensures
            r == fetch_spec(self@),
            r matches Ok(instr) ==> instr.wf(),
            self@.wf(),
    {
        proof {
            use_type_invariant(self);
        }
        if self.pc_register + 1 >= MEM_SIZE {
            return Err(CpuError::OutOfBounds);
        }
        let high = self.memory[self.pc_register];
        let low = self.memory[self.pc_register + 1];
        assert(((high as u16) << 8) | (low as u16) == high * 256 + low) by (bit_vector);
        let instruction: u16 = ((high as u16) << 8) | (low as u16);
        match decode(instruction) {
            Some(instr) => Ok(instr),
            None => Err(CpuError::InvalidOpcode),
        }
    }

    /// Executes one decoded instruction; `random` is the byte that the
    /// random instruction uses.
    fn execute(&mut self, instr: Instruction, random: u8) -> (r: Result<(), CpuError>)
        requires
            instr.wf(),
        ensures
            agrees(old(self)@, final(self)@, r, execute_spec(old(self)@, instr, random)),
    {
        match instr {
            Instruction::Cls => self.instr_00e0(),
            Instruction::Ret => self.instr_00ee(),
            Instruction::Jp { addr } => self.instr_1nnn(addr),
            Instruction::Call { addr } => self.instr_2nnn(addr),
            Instruction::SeByte { x, byte } => self.instr_3xkk(x, byte),
            Instruction::SneByte { x, byte } => self.instr_4xkk(x, byte),
            Instruction::SeReg { x, y } => self.instr_5xy0(x, y),
            Instruction::LdByte { x, byte } => self.instr_6xkk(x, byte),
            Instruction::AddByte { x, byte } => self.instr_7xkk(x, byte),
            Instruction::LdReg { x, y } => self.instr_8xy0(x, y),
            Instruction::Or { x, y } => self.instr_8xy1(x, y),
            Instruction::And { x, y } => self.instr_8xy2(x, y),
            Instruction::Xor { x, y } => self.instr_8xy3(x, y),
            Instruction::AddReg { x, y } => self.instr_8xy4(x, y),
            Instruction::SubReg { x, y } => self.instr_8xy5(x, y),
            Instruction::Shr { x, y } => self.instr_8xy6(x, y),
            Instruction::SubnReg { x, y } => self.instr_8xy7(x, y),
            Instruction::Shl { x, y } => self.instr_8xye(x, y),
            Instruction::SneReg { x, y } => self.instr_9xy0(x, y),
            Instruction::LdI { addr } => self.instr_annn(addr),
            Instruction::JpV0 { addr } => self.instr_bnnn(addr),
            Instruction::Rnd { x, byte } => self.instr_cxkk(x, byte, random),
            Instruction::Drw { x, y, n } => self.instr_dxyn(x, y, n),
            Instruction::Skp { x } => self.instr_ex9e(x),
            Instruction::Sknp { x } => self.instr_exa1(x),
            Instruction::LdFromDt { x } => self.instr_fx07(x),
            Instruction::LdKey { x } => self.instr_fx0a(x),
            Instruction::LdDt { x } => self.instr_fx15(x),
            Instruction::LdSt { x } => self.instr_fx18(x),
            Instruction::AddI { x } => self.instr_fx1e(x),
            Instruction::LdFont { x } => self.instr_fx29(x),
            Instruction::Bcd { x } => self.instr_fx33(x),
            Instruction::Store { x } => self.instr_fx55(x),
            Instruction::Load { x } => self.instr_fx65(x),
        }
    }

    /// Decodes and executes one instruction, with `random` as the byte that
    /// the random instruction draws. On an error the machine is left as it
    /// was.
    pub fn step_with_random_byte(&mut self, random: u8) -> (r: Result<(), CpuError>)
        ensures
            agrees(old(self)@, final(self)@, r, step_spec(old(self)@, random)),
            old(self)@.wf(),
            final(self)@.wf(),
    {
        proof {
            use_type_invariant(&*self);
        }
        let instr = self.fetch()?;
        let r = self.execute(instr, random);
        proof {
            use_type_invariant(&*self);
        }
        r
    }

    /// Decodes and executes one instruction. The random instruction draws
    /// its byte from the thread-local random number generator. On an error
    /// the machine is left as it was.
    ///
    /// It is up to the host to look at the dirty flag of the display and at
    /// the sound timer between steps, and to deliver a key while the
    /// machine waits for one.
    pub fn step(&mut self) -> (r: Result<(), CpuError>)
        ensures
            exists|random: u8| agrees(old(self)@, final(self)@, r, step_spec(old(self)@, random)),
            !draws_random(old(self)@) ==> agrees(
                old(self)@,
                final(self)@,
                r,
                step_spec(old(self)@, 0),
            ),
            old(self)@.wf(),
            final(self)@.wf(),
    {
        proof {
            use_type_invariant(&*self);
        }
        let instr = self.fetch()?;
        let random = match instr {
            Instruction::Rnd { .. } => random_byte(),
            _ => 0,
        };
        let r = self.execute(instr, random);
        proof {
            use_type_invariant(&*self);
            assert(agrees(old(self)@, self@, r, step_spec(old(self)@, random)));
        }
        r
    }
}

// What tells the host, or a test, where the machine stands.
impl Cpu {
    /// The value of register `Vindex`, if there is such a register.
    pub fn register(&self, index: usize) -> (value: Option<u8>)
        ensures
            value == if index < NUM_REGISTERS {
                Some(self@.v[index as int])
            } else {
                None
            },
    {
        if index < NUM_REGISTERS {
            Some(self.v_registers[index])
        } else {
            None
        }
    }

    /// The byte at `addr`, if the address lies in memory.
    pub fn memory_byte(&self, addr: usize) -> (value: Option<u8>)
        ensures
            value == if addr < MEM_SIZE {
                Some(self@.memory[addr as int])
            } else {
                None
            },
    {
        if addr < MEM_SIZE {
            Some(self.memory[addr])
        } else {
            None
        }
    }

    /// The address register `I`.
    pub fn address_register(&self) -> (i: usize)
        ensures
            i == self@.i,
    {
        self.i_register
    }

    /// The address of the next instruction.
    pub fn program_counter(&self) -> (pc: usize)
        ensures
            pc == self@.pc,
    {
        self.pc_register
    }

    /// The number of calls that have not returned yet.
    pub fn stack_pointer(&self) -> (sp: usize)
        ensures
            sp == self@.sp,
    {
        self.sp_register
    }

    /// The delay timer.
    pub fn delay_timer(&self) -> (dt: u8)
        ensures
            dt == self@.dt,
    {
        self.dt_register
    }

    /// The sound timer.
    pub fn sound_timer(&self) -> (st: u8)
        ensures
            st == self@.st,
    {
        self.st_register
    }
}

} // verus!
