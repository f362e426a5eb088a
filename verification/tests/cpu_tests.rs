use mos6502::cpu::CPU;
use mos6502::semantics::CpuError;

#[test]
fn test_0xa9_lda_immediate_load_data() {
    let mut cpu = CPU::new();
    cpu.load_and_run(vec![0xa9, 0x05, 0x00]).unwrap();
    assert_eq!(cpu.register_a, 0x05);
    assert!(cpu.status & 0b0000_0010 == 0);
    assert!(cpu.status & 0b1000_0000 == 0);
}

#[test]
fn test_0xa9_lda_zero_flag() {
    let mut cpu = CPU::new();
    cpu.load_and_run(vec![0xa9, 0x00, 0x00]).unwrap();
    assert!(cpu.status & 0b0000_0010 == 0b10);
}

#[test]
fn test_0xa9_lda_negative_flag() {
    let mut cpu = CPU::new();
    cpu.load_and_run(vec![0xa9, 0x80, 0x00]).unwrap();
    assert!(cpu.status & 0b1000_0000 != 0);
    assert!(cpu.status & 0b0000_0010 == 0);
}

#[test]
fn test_0xaa_tax_move_a_to_x() {
    let mut cpu = CPU::new();

    cpu.load(vec![0xaa, 0x00]).unwrap();
    cpu.reset();

    cpu.register_a = 10;
    cpu.run().unwrap();

    assert_eq!(cpu.register_x, 10);
}

#[test]
fn test_0xaa_tax_recomputes_flags_from_copied_value() {
    let mut cpu = CPU::new();

    cpu.load(vec![0xaa, 0x00]).unwrap();
    cpu.reset();

    // The prior X is nonzero; the flags must come from the copied zero.
    cpu.register_a = 0;
    cpu.register_x = 0x55;
    cpu.run().unwrap();

    assert_eq!(cpu.register_x, 0);
    assert!(cpu.status & 0b0000_0010 == 0b10);
    assert!(cpu.status & 0b1000_0000 == 0);
}

#[test]
fn test_5_ops_working_together() {
    let mut cpu = CPU::new();
    cpu.load_and_run(vec![0xa9, 0xc0, 0xaa, 0xe8, 0x00]).unwrap();
    assert_eq!(cpu.register_x, 0xc1);
}

#[test]
fn test_inx_overflow() {
    let mut cpu = CPU::new();

    cpu.load(vec![0xe8, 0xe8, 0x00]).unwrap();
    cpu.reset();

    cpu.register_x = 0xff;
    cpu.run().unwrap();

    assert_eq!(cpu.register_x, 1);
}

#[test]
fn test_inx_wraps_to_zero_and_sets_zero_flag() {
    let mut cpu = CPU::new();

    cpu.load(vec![0xe8, 0x00]).unwrap();
    cpu.reset();

    cpu.register_x = 0xff;
    cpu.run().unwrap();

    assert_eq!(cpu.register_x, 0x00);
    assert!(cpu.status & 0b0000_0010 == 0b10);
}

#[test]
fn test_halt_leaves_pc_one_past_halt_byte() {
    let mut cpu = CPU::new();
    cpu.load_and_run(vec![0x00]).unwrap();
    // The halt byte sits at 0x8000; the counter rests one past it.
    assert_eq!(cpu.program_counter, 0x8001);

    let mut cpu = CPU::new();
    cpu.load_and_run(vec![0xa9, 0x07, 0x00]).unwrap();
    assert_eq!(cpu.program_counter, 0x8003);
}

#[test]
fn test_reset_is_idempotent_after_load() {
    let mut cpu = CPU::new();
    cpu.load(vec![0xa9, 0xc0, 0xaa, 0xe8, 0x00]).unwrap();
    cpu.reset();
    cpu.run().unwrap();
    // A run has mutated every register; each reset restores the same state.
    for _ in 0..3 {
        cpu.reset();
        assert_eq!(cpu.register_a, 0);
        assert_eq!(cpu.register_x, 0);
        assert_eq!(cpu.status, 0);
        assert_eq!(cpu.program_counter, 0x8000);
    }
}

#[test]
fn test_load_places_image_and_reset_vector() {
    let mut cpu = CPU::new();
    cpu.load(vec![0xa9, 0x05, 0x00]).unwrap();
    assert_eq!(cpu.mem_read(0x8000), 0xa9);
    assert_eq!(cpu.mem_read(0x8001), 0x05);
    assert_eq!(cpu.mem_read(0x8002), 0x00);
    assert_eq!(cpu.mem_read_u16(0xFFFC), 0x8000);
}

#[test]
fn test_mem_read_write_round_trip() {
    let mut cpu = CPU::new();
    cpu.mem_write(0x0200, 0xAB);
    assert_eq!(cpu.mem_read(0x0200), 0xAB);
    assert_eq!(cpu.mem_read(0x0201), 0x00);
}

#[test]
fn test_mem_write16_read16_round_trip() {
    let mut cpu = CPU::new();
    // 0xBEEF has bits 4..7 of the low byte set: a masked low-byte store
    // would corrupt it.
    cpu.mem_write_u16(0x0200, 0xBEEF);
    assert_eq!(cpu.mem_read_u16(0x0200), 0xBEEF);
    assert_eq!(cpu.mem_read(0x0200), 0xEF);
    assert_eq!(cpu.mem_read(0x0201), 0xBE);

    cpu.mem_write_u16(0x0300, 0x00FF);
    assert_eq!(cpu.mem_read_u16(0x0300), 0x00FF);

    cpu.mem_write_u16(0x0400, 0x1234);
    assert_eq!(cpu.mem_read_u16(0x0400), 0x1234);
}

#[test]
fn test_unimplemented_opcode_reports_opcode_and_pc() {
    let mut cpu = CPU::new();
    let result = cpu.load_and_run(vec![0xff]);
    assert_eq!(result, Err(CpuError::UnimplementedOpcode(0xff, 0x8000)));
}

#[test]
fn test_image_too_large_is_rejected() {
    let mut cpu = CPU::new();
    let result = cpu.load(vec![0xe8; 0x8000]);
    assert_eq!(result, Err(CpuError::ImageTooLarge));
    // Nothing was written: the reset vector is still zero.
    assert_eq!(cpu.mem_read_u16(0xFFFC), 0x0000);
}

#[test]
fn test_fetch_past_end_of_memory_fails() {
    let mut cpu = CPU::new();
    cpu.program_counter = 0xFFFE;
    // An operand fetch for LDA would fall past the last byte.
    cpu.mem_write(0xFFFE, 0xa9);
    let result = cpu.run();
    assert_eq!(result, Err(CpuError::AddressOutOfRange(0xFFFF)));

    let mut cpu = CPU::new();
    cpu.program_counter = 0xFFFF;
    let result = cpu.run();
    assert_eq!(result, Err(CpuError::AddressOutOfRange(0xFFFF)));
}
