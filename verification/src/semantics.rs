//! Mathematical model of the processor: machine states, the effect of one
//! instruction, and the result of running the fetch-decode-execute loop
//! until it halts or faults.

use vstd::prelude::*;

verus! {

/// Number of addressable bytes of memory.  Addresses `0 .. MEM_SIZE` are
/// valid; the historical memory size is one byte short of a full 64 KiB.
pub const MEM_SIZE: usize = 0xFFFF;

/// Base address at which program images are placed by `load`.
pub const ROM_BASE: u16 = 0x8000;

/// Largest program image that fits between `ROM_BASE` and the end of memory.
pub const ROM_CAPACITY: usize = 0x7FFF;

/// Address of the two-byte little-endian reset vector, read at reset time to
/// seed the program counter.
pub const RESET_VECTOR: u16 = 0xFFFC;

/// Zero flag: bit 1 of the status register.
pub const FLAG_ZERO: u8 = 0b0000_0010;

/// Negative flag: bit 7 of the status register.
pub const FLAG_NEGATIVE: u8 = 0b1000_0000;

/// The complete observable machine state: the register file, the status
/// byte, the program counter and the memory contents.
#[verifier::ext_equal]
pub struct MachineState {
    /// Accumulator: target of loads, source of transfers.
    pub a: u8,
    /// Index register X: target of transfers and increments.
    pub x: u8,
    /// Status byte; only the Zero and Negative bits are defined here.
    pub status: u8,
    /// Address of the next byte to fetch.
    pub pc: u16,
    /// Memory contents, byte by byte.
    pub mem: Seq<u8>,
}

impl MachineState {
    /// A state is well formed when its memory has exactly `MEM_SIZE` bytes.
    pub open spec fn wf(self) -> bool {
        self.mem.len() == MEM_SIZE as int
    }
}

/// The errors the processor reports.  Instruction execution is
/// deterministic, so none of these is recoverable by retrying.
#[derive(Clone, Copy, Debug, PartialEq, Eq)]
pub enum CpuError {
    /// A fetched opcode byte has no handler: the byte itself and the address
    /// it was fetched from.
    UnimplementedOpcode(u8, u16),
    /// A fetch or a memory access would touch an address past the end of
    /// memory: the offending address.
    AddressOutOfRange(u16),
    /// The program image handed to `load` does not fit in ROM space.
    ImageTooLarge,
}

/// The status byte after the Zero and Negative flags are recomputed for a
/// value just written to a register.  Bit 1 records whether the value is
/// zero, bit 7 whether its top bit is set; all other bits are preserved.
pub open spec fn flags_updated(status: u8, value: u8) -> u8 {
    let after_zero = if value == 0 {
        status | FLAG_ZERO
    } else {
        status & !FLAG_ZERO
    };
    if value & FLAG_NEGATIVE != 0 {
        after_zero | FLAG_NEGATIVE
    } else {
        after_zero & !FLAG_NEGATIVE
    }
}

/// The 16-bit value stored little-endian at `addr`: low byte at `addr`,
/// high byte at `addr + 1`.
pub open spec fn read16_of(mem: Seq<u8>, addr: u16) -> u16 {
    ((mem[addr as int + 1] as u16) << 8) | (mem[addr as int] as u16)
}

/// The memory after a 16-bit little-endian store of `value` at `addr`: the
/// full low byte of `value` at `addr`, the high byte at `addr + 1`.
pub open spec fn write16_of(mem: Seq<u8>, addr: u16, value: u16) -> Seq<u8> {
    mem.update(addr as int, (value & 0x00FF) as u8).update(addr as int + 1, (value >> 8) as u8)
}

/// The memory after a program image is loaded: the image placed at
/// `ROM_BASE`, every other byte unchanged, and then `ROM_BASE` stored in the
/// reset vector.
pub open spec fn loaded_mem(mem: Seq<u8>, program: Seq<u8>) -> Seq<u8> {
    let with_program = Seq::new(
        mem.len(),
        |i: int|
            if ROM_BASE <= i < ROM_BASE + program.len() {
                program[i - ROM_BASE]
            } else {
                mem[i]
            },
    );
    write16_of(with_program, RESET_VECTOR, ROM_BASE)
}

/// The state after a reset: registers and status cleared, the program
/// counter seeded from the reset vector, memory untouched.
pub open spec fn after_reset(s: MachineState) -> MachineState {
    MachineState { a: 0, x: 0, status: 0, pc: read16_of(s.mem, RESET_VECTOR), mem: s.mem }
}

/// What one fetch-decode-execute step does.
pub enum StepResult {
    /// The instruction retired and execution continues in the given state.
    Next(MachineState),
    /// The halt instruction retired; the given state is final.
    Halted(MachineState),
    /// Execution faults; the given state is where the processor stops.
    Fault(CpuError, MachineState),
}

/// One step of the fetch-decode-execute loop from state `s`.
///
/// The opcode is fetched at `s.pc` and the program counter advances past
/// it; an operand, where the instruction has one, is fetched the same way.
/// Opcode `0xA9` loads the operand into the accumulator, `0xAA` copies the
/// accumulator into X, `0xE8` increments X with wraparound, and `0x00`
/// halts.  Every retiring instruction except halt recomputes the Zero and
/// Negative flags from the value it wrote.  A fetch outside memory or an
/// unknown opcode faults.
pub open spec fn step(s: MachineState) -> StepResult {
    if (s.pc as int) >= MEM_SIZE as int {
        StepResult::Fault(CpuError::AddressOutOfRange(s.pc), s)
    } else {
        let opcode = s.mem[s.pc as int];
        let fetched = MachineState { pc: (s.pc + 1) as u16, ..s };
        if opcode == 0x00 {
            StepResult::Halted(fetched)
        } else if opcode == 0xA9 {
            if (fetched.pc as int) >= MEM_SIZE as int {
                StepResult::Fault(CpuError::AddressOutOfRange(fetched.pc), fetched)
            } else {
                let operand = s.mem[fetched.pc as int];
                StepResult::Next(
                    MachineState {
                        a: operand,
                        status: flags_updated(s.status, operand),
                        pc: (fetched.pc + 1) as u16,
                        ..fetched
                    },
                )
            }
        } else if opcode == 0xAA {
            StepResult::Next(
                MachineState { x: s.a, status: flags_updated(s.status, s.a), ..fetched },
            )
        } else if opcode == 0xE8 {
            let incremented: u8 = if s.x == 0xFF {
                0
            } else {
                (s.x + 1) as u8
            };
            StepResult::Next(
                MachineState {
                    x: incremented,
                    status: flags_updated(s.status, incremented),
                    ..fetched
                },
            )
        } else {
            StepResult::Fault(CpuError::UnimplementedOpcode(opcode, s.pc), fetched)
        }
    }
}

/// How a run of the fetch-decode-execute loop ends.
pub enum ExecOutcome {
    /// The halt instruction retired in the given final state.
    Halted(MachineState),
    /// Execution faulted with the given error in the given final state.
    Failed(CpuError, MachineState),
}

/// The result of running the fetch-decode-execute loop from `s` until it
/// halts or faults.  Every retiring instruction moves the program counter
/// strictly forward, so the loop always ends.
pub open spec fn execute(s: MachineState) -> ExecOutcome
    decreases MEM_SIZE as int + 1 - s.pc as int,
{
    match step(s) {
        StepResult::Next(next) => execute(next),
        StepResult::Halted(fin) => ExecOutcome::Halted(fin),
        StepResult::Fault(e, fin) => ExecOutcome::Failed(e, fin),
    }
}

} // verus!
