//! The executable processor: a register file and a flat memory, with the
//! operations to load a program image, reset, and run the
//! fetch-decode-execute loop.  Every contract is stated over the model in
//! [`crate::semantics`].

use vstd::prelude::*;

use crate::laws::lemma_reset_after_load;
use crate::semantics::after_reset;
use crate::semantics::execute;
use crate::semantics::flags_updated;
use crate::semantics::loaded_mem;
use crate::semantics::read16_of;
use crate::semantics::step;
use crate::semantics::write16_of;
use crate::semantics::CpuError;
use crate::semantics::ExecOutcome;
use crate::semantics::MachineState;
use crate::semantics::StepResult;
use crate::semantics::FLAG_NEGATIVE;
use crate::semantics::FLAG_ZERO;
use crate::semantics::MEM_SIZE;
use crate::semantics::RESET_VECTOR;
use crate::semantics::ROM_BASE;
use crate::semantics::ROM_CAPACITY;

verus! {

/// The processor: registers, status flags, program counter and its own
/// exclusively owned memory.
pub struct CPU {
    /// Accumulator: target of loads, source of transfers.
    pub register_a: u8,
    /// Index register X: target of transfers and increments.
    pub register_x: u8,
    /// Status byte; bit 1 is the Zero flag, bit 7 the Negative flag.
    pub status: u8,
    /// Address of the next byte to fetch.
    pub program_counter: u16,
    /// The flat byte-addressable memory, exclusively owned by this core.
    pub memory: Vec<u8>,
}

impl View for CPU {
    type V = Seq<u8>;

    /// The memory contents, byte by byte.
    open spec fn view(&self) -> Seq<u8> {
        self.memory@
    }
}

impl CPU {
    /// A processor is well formed when its memory has exactly `MEM_SIZE`
    /// bytes.  Every operation preserves this.
    pub open spec fn wf(&self) -> bool {
        self@.len() == MEM_SIZE as int
    }

    /// The machine state this processor is in: its registers together with
    /// its memory.
    pub open spec fn state(&self) -> MachineState {
        MachineState {
            a: self.register_a,
            x: self.register_x,
            status: self.status,
            pc: self.program_counter,
            mem: self@,
        }
    }

    /// A fresh processor: registers, status and program counter zero, and
    /// memory zero-filled.
    pub fn new() -> (cpu: CPU)
        ensures
            cpu.wf(),
            cpu.register_a == 0,
            cpu.register_x == 0,
            cpu.status == 0,
            cpu.program_counter == 0,
            forall|i: int| 0 <= i < MEM_SIZE ==> cpu@[i] == 0,
    {
        let mut memory: Vec<u8> = Vec::new();
        while memory.len() < MEM_SIZE
            invariant
                memory@.len() <= MEM_SIZE as int,
                forall|i: int| 0 <= i < memory@.len() ==> memory@[i] == 0,
            decreases MEM_SIZE as int - memory@.len(),
        {
            memory.push(0);
        }
        CPU { register_a: 0, register_x: 0, status: 0, program_counter: 0, memory }
    }

    /// The byte at `addr`.
    pub fn mem_read(&self, addr: u16) -> (data: u8)
        requires
            self.wf(),
            (addr as int) < MEM_SIZE as int,
        ensures
            data == self@[addr as int],
    {
        self.memory[addr as usize]
    }

    /// The 16-bit value stored little-endian at `pos`: low byte at `pos`,
    /// high byte at `pos + 1`.
    pub fn mem_read_u16(&mut self, pos: u16) -> (data: u16)
        requires
            old(self).wf(),
            pos as int + 1 < MEM_SIZE as int,
        ensures
            *final(self) == *old(self),
            data == read16_of(old(self)@, pos),
    {
        let lo = self.mem_read(pos) as u16;
        let hi = self.mem_read(pos + 1) as u16;
        (hi << 8) | lo
    }

    /// Stores `data` little-endian at `pos`: the full low byte at `pos`,
    /// the high byte at `pos + 1`.  Registers are untouched.
    pub fn mem_write_u16(&mut self, pos: u16, data: u16)
        requires
            old(self).wf(),
            pos as int + 1 < MEM_SIZE as int,
        ensures
            final(self).wf(),
            final(self)@ == write16_of(old(self)@, pos, data),
            final(self).register_a == old(self).register_a,
            final(self).register_x == old(self).register_x,
            final(self).status == old(self).status,
            final(self).program_counter == old(self).program_counter,
    {
        let hi = (data >> 8) as u8;
        let lo = (data & 0x00FF) as u8;
        self.mem_write(pos, lo);
        self.mem_write(pos + 1, hi);
    }

    /// Stores `data` at `addr`.  Registers are untouched.
    pub fn mem_write(&mut self, addr: u16, data: u8)
        requires
            old(self).wf(),
            (addr as int) < MEM_SIZE as int,
        ensures
            final(self).wf(),
            final(self)@ == old(self)@.update(addr as int, data),
            final(self).register_a == old(self).register_a,
            final(self).register_x == old(self).register_x,
            final(self).status == old(self).status,
            final(self).program_counter == old(self).program_counter,
    {
        self.memory.set(addr as usize, data);
    }

    /// Clears the registers and the status byte and seeds the program
    /// counter from the reset vector; memory is untouched.
    pub fn reset(&mut self)
        requires
            old(self).wf(),
        ensures
            final(self).wf(),
            final(self).state() == after_reset(old(self).state()),
    {
        self.register_x = 0;
        self.register_a = 0;
        self.status = 0;

        self.program_counter = self.mem_read_u16(RESET_VECTOR);
    }

    /// Recomputes the Zero and Negative flags from the value just written
    /// to a register, leaving all other status bits alone.
    fn update_zero_and_negative_flags(&mut self, register: u8)
        ensures
            final(self).status == flags_updated(old(self).status, register),
            final(self).register_a == old(self).register_a,
            final(self).register_x == old(self).register_x,
            final(self).program_counter == old(self).program_counter,
            final(self)@ == old(self)@,
    {
        if register == 0 {
            self.status = self.status | FLAG_ZERO;
        } else {
            self.status = self.status & !FLAG_ZERO;
        }
        if register & FLAG_NEGATIVE != 0 {
            self.status = self.status | FLAG_NEGATIVE;
        } else {
            self.status = self.status & !FLAG_NEGATIVE;
        }
    }

    /// LDA: loads `value` into the accumulator and refreshes the flags
    /// from it.
    fn lda(&mut self, value: u8)
        ensures
            final(self).register_a == value,
            final(self).status == flags_updated(old(self).status, value),
            final(self).register_x == old(self).register_x,
            final(self).program_counter == old(self).program_counter,
            final(self)@ == old(self)@,
    {
        self.register_a = value;
        self.update_zero_and_negative_flags(self.register_a);
    }

    /// TAX: copies the accumulator into X and refreshes the flags from the
    /// copied value.
    fn tax(&mut self)
        ensures
            final(self).register_x == old(self).register_a,
            final(self).status == flags_updated(old(self).status, old(self).register_a),
            final(self).register_a == old(self).register_a,
            final(self).program_counter == old(self).program_counter,
            final(self)@ == old(self)@,
    {
        self.register_x = self.register_a;
        self.update_zero_and_negative_flags(self.register_x);
    }

    /// INX: increments X with wraparound at 256 and refreshes the flags
    /// from the incremented value.
    fn inx(&mut self)
        ensures
            final(self).register_x == (if old(self).register_x == 0xFF {
                0u8
            } else {
                (old(self).register_x + 1) as u8
            }),
            final(self).status == flags_updated(old(self).status, final(self).register_x),
            final(self).register_a == old(self).register_a,
            final(self).program_counter == old(self).program_counter,
            final(self)@ == old(self)@,
    {
        self.register_x = self.register_x.wrapping_add(1);
        self.update_zero_and_negative_flags(self.register_x);
    }

    /// Copies a program image into ROM space at `ROM_BASE` and stores
    /// `ROM_BASE` in the reset vector.  Registers and program counter are
    /// untouched.  An image longer than `ROM_CAPACITY` is rejected before
    /// any byte is written.
    #[verifier::loop_isolation(false)]
    pub fn load(&mut self, program: Vec<u8>) -> (r: Result<(), CpuError>)
        requires
            old(self).wf(),
        ensures
            final(self).wf(),
            final(self).register_a == old(self).register_a,
            final(self).register_x == old(self).register_x,
            final(self).status == old(self).status,
            final(self).program_counter == old(self).program_counter,
            program@.len() <= ROM_CAPACITY as int ==> r == Ok::<(), CpuError>(())
                && final(self)@ == loaded_mem(old(self)@, program@),
            program@.len() > ROM_CAPACITY as int ==> r == Err::<(), CpuError>(
                CpuError::ImageTooLarge,
            ) && final(self)@ == old(self)@,
    {
        if program.len() > ROM_CAPACITY {
            return Err(CpuError::ImageTooLarge);
        }
        let mut i: usize = 0;
        while i < program.len()
            invariant
                self.wf(),
                i <= program@.len(),
                self.register_a == old(self).register_a,
                self.register_x == old(self).register_x,
                self.status == old(self).status,
                self.program_counter == old(self).program_counter,
                forall|j: int|
                    ROM_BASE <= j < ROM_BASE + i ==> #[trigger] self@[j] == program@[j
                        - ROM_BASE],
                forall|j: int|
                    0 <= j < MEM_SIZE as int && !(ROM_BASE <= j < ROM_BASE + i)
                        ==> #[trigger] self@[j] == old(self)@[j],
            decreases program@.len() - i,
        {
            self.mem_write(ROM_BASE + (i as u16), program[i]);
            i = i + 1;
        }
        proof {
            let with_program = Seq::new(
                old(self)@.len(),
                |j: int|
                    if ROM_BASE <= j < ROM_BASE + program@.len() {
                        program@[j - ROM_BASE]
                    } else {
                        old(self)@[j]
                    },
            );
            assert(self@ =~= with_program);
        }
        self.mem_write_u16(RESET_VECTOR, ROM_BASE);
        Ok(())
    }

    /// Runs the fetch-decode-execute loop from the current state until the
    /// halt instruction retires (`Ok`) or the processor faults on an
    /// unimplemented opcode or an out-of-range fetch (`Err`), exactly as
    /// [`execute`] says.  The program counter moves strictly forward at
    /// every step, so the loop provably terminates on every input.
    #[verifier::loop_isolation(false)]
    pub fn run(&mut self) -> (r: Result<(), CpuError>)
        requires
            old(self).wf(),
        ensures
            final(self).wf(),
            (match r {
                Ok(()) => execute(old(self).state()) == ExecOutcome::Halted(final(self).state()),
                Err(e) => execute(old(self).state()) == ExecOutcome::Failed(
                    e,
                    final(self).state(),
                ),
            }),
    {
        loop
            invariant
                self.wf(),
                execute(self.state()) == execute(old(self).state()),
            decreases MEM_SIZE as int + 1 - self.program_counter as int,
        {
            if self.program_counter as usize >= MEM_SIZE {
                proof {
                    assert(step(self.state()) == StepResult::Fault(
                        CpuError::AddressOutOfRange(self.program_counter),
                        self.state(),
                    ));
                }
                return Err(CpuError::AddressOutOfRange(self.program_counter));
            }
            let ghost pre = self.state();
            let op_addr = self.program_counter;
            let opscode = self.mem_read(op_addr);
            self.program_counter = self.program_counter + 1;

            match opscode {
                0xA9 => {
                    if self.program_counter as usize >= MEM_SIZE {
                        proof {
                            assert(step(pre) == StepResult::Fault(
                                CpuError::AddressOutOfRange(self.program_counter),
                                self.state(),
                            ));
                        }
                        return Err(CpuError::AddressOutOfRange(self.program_counter));
                    }
                    let param = self.mem_read(self.program_counter);
                    self.program_counter = self.program_counter + 1;

                    self.lda(param);
                },
                0xAA => self.tax(),
                0xE8 => self.inx(),
                0x00 => {
                    proof {
                        assert(step(pre) == StepResult::Halted(self.state()));
                    }
                    return Ok(());
                },
                _ => {
                    proof {
                        assert(step(pre) == StepResult::Fault(
                            CpuError::UnimplementedOpcode(opscode, op_addr),
                            self.state(),
                        ));
                    }
                    return Err(CpuError::UnimplementedOpcode(opscode, op_addr));
                },
            }
            proof {
                assert(step(pre) == StepResult::Next(self.state()));
            }
        }
    }

    /// Loads a program image, resets, and runs it: the one-shot entry
    /// point.  The freshly written reset vector holds `ROM_BASE`, so the
    /// machine starts from cleared registers with the program counter at
    /// `ROM_BASE`.
    pub fn load_and_run(&mut self, program: Vec<u8>) -> (r: Result<(), CpuError>)
        requires
            old(self).wf(),
        ensures
            final(self).wf(),
            program@.len() > ROM_CAPACITY as int ==> r == Err::<(), CpuError>(
                CpuError::ImageTooLarge,
            ) && final(self).state() == old(self).state(),
            program@.len() <= ROM_CAPACITY as int ==> ({
                let started = MachineState {
                    a: 0,
                    x: 0,
                    status: 0,
                    pc: ROM_BASE,
                    mem: loaded_mem(old(self)@, program@),
                };
                match r {
                    Ok(()) => execute(started) == ExecOutcome::Halted(final(self).state()),
                    Err(e) => execute(started) == ExecOutcome::Failed(e, final(self).state()),
                }
            }),
    {
        match self.load(program) {
            Ok(()) => {},
            Err(e) => {
                return Err(e);
            },
        }
        proof {
            lemma_reset_after_load(old(self).state(), program@);
        }
        self.reset();
        self.run()
    }
}

} // verus!
