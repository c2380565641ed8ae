use vstd::prelude::*;

verus! {

/// The ways in which a program or the host can break the machine's rules.
/// None of them is recoverable: the machine is left as it was before the
/// offending operation and the host decides what to report.
#[derive(Clone, Copy, Debug, PartialEq, Eq, Structural)]
pub enum CpuError {
    /// An address, a program counter or a key number outside of its range,
    /// a program too large for memory, or a jump into the reserved area.
    OutOfBounds,
    /// The instruction word matches no known instruction.
    InvalidOpcode,
    /// A return without a call, a call nested too deep, or a captured key
    /// delivered while the machine is not waiting for one.
    ProtocolViolation,
    /// A key-state vector whose length is not the number of keys.
    InputContractViolation,
}

} // verus!
