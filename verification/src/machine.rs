use vstd::prelude::*;

verus! {

/// Number of addressable bytes.
pub const MEM_SIZE: usize = 4096;

/// Size of the low memory area that programs can neither occupy nor jump into.
pub const MEM_RESERVED: usize = 512;

/// Width of the display, in pixels.
pub const SCREEN_WIDTH: usize = 64;

/// Height of the display, in pixels.
pub const SCREEN_HEIGHT: usize = 32;

/// Number of pixels of the display.
pub const SCREEN_SIZE: usize = 2048;

/// Number of general purpose registers, and of keys on the keypad.
pub const NUM_REGISTERS: usize = 16;

/// Deepest nesting of calls.
pub const STACK_DEPTH: usize = 16;

/// Index of the register that instructions use as a flag.
pub const FLAG_REGISTER: usize = 15;

/// The mathematical state of the machine. Every contract of the interpreter
/// is stated over values of this type.
pub struct Machine {
    /// The 4096 bytes of memory.
    pub memory: Seq<u8>,
    /// The 16 slots for call-site addresses.
    pub stack: Seq<int>,
    /// The general purpose registers `V0` to `VF`.
    pub v: Seq<u8>,
    /// The address register `I`.
    pub i: int,
    /// The address of the next instruction.
    pub pc: int,
    /// The number of call sites on the stack.
    pub sp: int,
    /// The delay timer.
    pub dt: u8,
    /// The sound timer.
    pub st: u8,
    /// The pixels, row by row; pixel `(x, y)` is at index `64 * y + x`.
    pub screen: Seq<bool>,
    /// Whether the display changed since the host last asked.
    pub dirty: bool,
    /// Which keys are held down.
    pub keys: Seq<bool>,
    /// Whether a key-capture instruction is pending.
    pub waiting: bool,
    /// The key delivered by the host for the pending key-capture instruction.
    pub captured: Option<u8>,
    /// Shift instructions read the second register instead of the first.
    pub original_shift: bool,
    /// Bulk load and store move the address register past what they touched.
    pub original_mem_acc: bool,
}

impl Machine {
    /// The shape and the ranges that every reachable state has: the
    /// registers stay within their ranges, and neither the program counter
    /// nor a pending call site lies in the reserved area.
    pub open spec fn wf(self) -> bool {
        &&& self.memory.len() == MEM_SIZE
        &&& self.stack.len() == STACK_DEPTH
        &&& self.v.len() == NUM_REGISTERS
        &&& self.screen.len() == SCREEN_SIZE
        &&& self.keys.len() == NUM_REGISTERS
        &&& 0 <= self.i < MEM_SIZE
        &&& MEM_RESERVED <= self.pc < MEM_SIZE
        &&& 0 <= self.sp <= STACK_DEPTH
        &&& forall|k: int| 0 <= k < STACK_DEPTH ==> 0 <= #[trigger] self.stack[k] < MEM_SIZE
        &&& forall|k: int| 0 <= k < self.sp ==> MEM_RESERVED <= #[trigger] self.stack[k]
        &&& self.captured is Some ==> self.waiting
    }

    /// The 16-bit big-endian word stored at `addr` and `addr + 1`.
    pub open spec fn word_at(self, addr: int) -> u16 {
        (self.memory[addr] as int * 256 + self.memory[addr + 1] as int) as u16
    }

    /// This state with register `x` set to `value`.
    pub open spec fn with_register(self, x: int, value: u8) -> Machine {
        Machine { v: self.v.update(x, value), ..self }
    }

    /// This state with the flag register set to 1 or 0.
    pub open spec fn with_flag(self, flag: bool) -> Machine {
        self.with_register(FLAG_REGISTER as int, if flag { 1u8 } else { 0u8 })
    }

    /// This state with the program counter moved forward by `delta`, which
    /// is refused where it would leave memory.
    pub open spec fn advance(self, delta: int) -> Result<Machine, crate::error::CpuError> {
        if self.pc + delta < MEM_SIZE {
            Ok(Machine { pc: self.pc + delta, ..self })
        } else {
            Err(crate::error::CpuError::OutOfBounds)
        }
    }
}

} // verus!
