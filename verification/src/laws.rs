//! Proofs of the general properties the core promises.

use vstd::prelude::*;

use crate::semantics::after_reset;
use crate::semantics::execute;
use crate::semantics::flags_updated;
use crate::semantics::loaded_mem;
use crate::semantics::read16_of;
use crate::semantics::step;
use crate::semantics::write16_of;
use crate::semantics::ExecOutcome;
use crate::semantics::MachineState;
use crate::semantics::StepResult;
use crate::semantics::FLAG_NEGATIVE;
use crate::semantics::FLAG_ZERO;
use crate::semantics::MEM_SIZE;
use crate::semantics::RESET_VECTOR;
use crate::semantics::ROM_BASE;
use crate::semantics::ROM_CAPACITY;

verus! {

/// The flag update is faithful: after `flags_updated(status, value)` the
/// Zero flag is set exactly when `value` is zero, the Negative flag exactly
/// when bit 7 of `value` is set, and every other status bit keeps the value
/// it had.
pub proof fn lemma_flags_faithful(status: u8, value: u8)
    by (bit_vector)
    ensures
        flags_updated(status, value) & FLAG_ZERO == (if value == 0 {
            FLAG_ZERO
        } else {
            0
        }),
        flags_updated(status, value) & FLAG_NEGATIVE == (if value >= 0x80 {
            FLAG_NEGATIVE
        } else {
            0
        }),
        flags_updated(status, value) & !(FLAG_ZERO | FLAG_NEGATIVE) == status & !(FLAG_ZERO
            | FLAG_NEGATIVE),
{
}

/// 16-bit write round-trip: reading back a 16-bit value just stored at
/// `addr` yields exactly that value, for every value — in particular the
/// full low byte is stored, not a masked part of it.
pub proof fn lemma_write16_read16_round_trip(mem: Seq<u8>, addr: u16, value: u16)
    requires
        addr as int + 1 < mem.len(),
    ensures
        read16_of(write16_of(mem, addr, value), addr) == value,
{
    let written = write16_of(mem, addr, value);
    assert(written[addr as int] == (value & 0x00FF) as u8);
    assert(written[addr as int + 1] == (value >> 8) as u8);
    assert(((((value >> 8) as u8) as u16) << 8) | (((value & 0x00FF) as u8) as u16) == value)
        by (bit_vector);
}

/// Reset depends on memory alone and is idempotent: any two states holding
/// the same memory reset to the same state, whatever their registers, and
/// resetting twice is the same as resetting once.
pub proof fn lemma_reset_idempotent(s1: MachineState, s2: MachineState)
    requires
        s1.mem == s2.mem,
    ensures
        after_reset(s1) == after_reset(s2),
        after_reset(after_reset(s1)) == after_reset(s1),
{
}

/// After a program image is loaded, the reset vector holds `ROM_BASE`, so
/// every later reset restores cleared registers and starts the program
/// counter at `ROM_BASE`, regardless of what a prior run did to the
/// registers.
pub proof fn lemma_reset_after_load(s: MachineState, program: Seq<u8>)
    requires
        s.wf(),
        program.len() <= ROM_CAPACITY as int,
    ensures
        after_reset((MachineState { mem: loaded_mem(s.mem, program), ..s })) == (MachineState {
            a: 0,
            x: 0,
            status: 0,
            pc: ROM_BASE,
            mem: loaded_mem(s.mem, program),
        }),
{
    let with_program = Seq::new(
        s.mem.len(),
        |i: int|
            if ROM_BASE <= i < ROM_BASE + program.len() {
                program[i - ROM_BASE]
            } else {
                s.mem[i]
            },
    );
    lemma_write16_read16_round_trip(with_program, RESET_VECTOR, ROM_BASE);
}

/// TAX: wherever the bytes `0xAA 0x00` stand at the program counter,
/// execution halts with the accumulator copied into X and the flags
/// recomputed from the copied value — not from the prior X.
pub proof fn lemma_tax_copies_accumulator(s: MachineState)
    requires
        s.wf(),
        s.pc as int + 1 < MEM_SIZE as int,
        s.mem[s.pc as int] == 0xAA,
        s.mem[s.pc as int + 1] == 0x00,
    ensures
        execute(s) == ExecOutcome::Halted(
            (MachineState {
                x: s.a,
                status: flags_updated(s.status, s.a),
                pc: (s.pc + 2) as u16,
                ..s
            }),
        ),
{
    let mid = MachineState {
        x: s.a,
        status: flags_updated(s.status, s.a),
        pc: (s.pc + 1) as u16,
        ..s
    };
    assert(step(s) == StepResult::Next(mid));
    assert(execute(s) == execute(mid));
    assert(step(mid) == StepResult::Halted(
        (MachineState {
            x: s.a,
            status: flags_updated(s.status, s.a),
            pc: (s.pc + 2) as u16,
            ..s
        }),
    ));
}

/// INX: wherever the bytes `0xE8 0x00` stand at the program counter,
/// execution halts with X incremented; `0xFF` wraps to zero with the Zero
/// flag set, with no overflow failure.
pub proof fn lemma_inx_wraps(s: MachineState)
    requires
        s.wf(),
        s.pc as int + 1 < MEM_SIZE as int,
        s.mem[s.pc as int] == 0xE8,
        s.mem[s.pc as int + 1] == 0x00,
    ensures
        execute(s) == ExecOutcome::Halted(
            (MachineState {
                x: (if s.x == 0xFF {
                    0u8
                } else {
                    (s.x + 1) as u8
                }),
                status: flags_updated(
                    s.status,
                    (if s.x == 0xFF {
                        0u8
                    } else {
                        (s.x + 1) as u8
                    }),
                ),
                pc: (s.pc + 2) as u16,
                ..s
            }),
        ),
        s.x == 0xFF ==> flags_updated(s.status, 0) & FLAG_ZERO == FLAG_ZERO,
{
    let incremented: u8 = if s.x == 0xFF {
        0u8
    } else {
        (s.x + 1) as u8
    };
    let mid = MachineState {
        x: incremented,
        status: flags_updated(s.status, incremented),
        pc: (s.pc + 1) as u16,
        ..s
    };
    assert(step(s) == StepResult::Next(mid));
    assert(execute(s) == execute(mid));
    assert(step(mid) == StepResult::Halted(
        (MachineState {
            x: incremented,
            status: flags_updated(s.status, incremented),
            pc: (s.pc + 2) as u16,
            ..s
        }),
    ));
    lemma_flags_faithful(s.status, 0);
}

/// Halt terminates cleanly: whenever a run ends in a halt, memory is
/// unchanged and the program counter rests one past the halt byte's
/// address.  (That a run always ends is proved by `execute` itself and by
/// the termination measure of `CPU::run`.)
pub proof fn lemma_halt_leaves_pc_past_halt(s: MachineState, fin: MachineState)
    requires
        execute(s) == ExecOutcome::Halted(fin),
    ensures
        fin.mem == s.mem,
        fin.pc >= 1,
        fin.mem[fin.pc as int - 1] == 0x00,
    decreases MEM_SIZE as int + 1 - s.pc as int,
{
    match step(s) {
        StepResult::Next(next) => {
            lemma_halt_leaves_pc_past_halt(next, fin);
        },
        StepResult::Halted(f) => {},
        StepResult::Fault(e, f) => {},
    }
}

} // verus!
