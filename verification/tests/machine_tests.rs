use lc3_vm::registers::{Flags, Register};
use lc3_vm::trap_routines;
use lc3_vm::vm::{Action, Vm, KEYBOARD_DATA_ADDR, KEYBOARD_STATUS_ADDR, START_POSITION};

#[test]
fn new_machine_is_blank() {
    let vm = Vm::new();
    assert!(!vm.active);
    assert_eq!(vm.registers.read(Register::R_PC), 0);
    assert_eq!(vm.memory[0], 0);
    assert_eq!(vm.memory[0xFFFF], 0);
    assert!(vm.input.is_empty());
    assert!(vm.output.is_empty());
}

#[test]
fn boot_prepares_execution() {
    let mut vm = Vm::new();
    vm.boot();
    assert!(vm.active);
    assert_eq!(vm.registers.read(Register::R_PC), START_POSITION);
    assert_eq!(vm.registers.read(Register::R_COND), Flags::FL_ZRO.value());
}

#[test]
fn read_image_places_words_at_origin() {
    let mut vm = Vm::new();
    let data: Vec<u8> = vec![0x30, 0x00, 0x12, 0x34, 0x56, 0x78];

    assert!(vm.read_image(&data));

    assert_eq!(vm.memory[0x3000], 0x1234);
    assert_eq!(vm.memory[0x3001], 0x5678);
    // Nothing beyond the image is touched.
    assert_eq!(vm.memory[0x2FFF], 0);
    assert_eq!(vm.memory[0x3002], 0);
}

#[test]
fn read_image_wraps_at_top_of_memory() {
    let mut vm = Vm::new();
    let data: Vec<u8> = vec![0xFF, 0xFF, 0x00, 0x01, 0x00, 0x02];

    assert!(vm.read_image(&data));

    assert_eq!(vm.memory[0xFFFF], 1);
    assert_eq!(vm.memory[0x0000], 2);
}

#[test]
fn read_image_rejects_half_a_word() {
    let mut vm = Vm::new();
    let data: Vec<u8> = vec![0x30, 0x00, 0x12];

    assert!(!vm.read_image(&data));

    // The machine is untouched.
    assert_eq!(vm.memory[0x3000], 0);
}

#[test]
fn read_image_rejects_missing_origin() {
    let mut vm = Vm::new();
    assert!(!vm.read_image(&vec![]));
    assert!(!vm.read_image(&vec![0x30]));
}

#[test]
fn keyboard_status_reads_zero_without_input() {
    let mut vm = Vm::new();
    assert_eq!(vm.mem_read(KEYBOARD_STATUS_ADDR), 0);
}

#[test]
fn keyboard_status_reports_pending_byte() {
    let mut vm = Vm::new();
    vm.input.push(b'a');

    assert_eq!(vm.mem_read(KEYBOARD_STATUS_ADDR), 0x8000);
    assert_eq!(vm.mem_read(KEYBOARD_DATA_ADDR), b'a' as u16);
    assert!(vm.input.is_empty());

    // The byte was consumed; the next poll reports nothing.
    assert_eq!(vm.mem_read(KEYBOARD_STATUS_ADDR), 0);
}

#[test]
fn keyboard_swallows_line_feed() {
    let mut vm = Vm::new();
    vm.input.push(10);

    assert_eq!(vm.mem_read(KEYBOARD_STATUS_ADDR), 0);
    assert!(vm.input.is_empty());
}

#[test]
fn plain_reads_and_writes_have_no_side_effect() {
    let mut vm = Vm::new();
    vm.input.push(b'x');

    vm.mem_write(0x1234, 99);
    assert_eq!(vm.mem_read(0x1234), 99);
    // A pending byte stays pending: only the status address polls.
    assert_eq!(vm.input.len(), 1);

    // The mapped cells accept explicit stores like any other cell.
    vm.mem_write(KEYBOARD_STATUS_ADDR, 7);
    assert_eq!(vm.memory[KEYBOARD_STATUS_ADDR as usize], 7);
}

#[test]
fn halt_trap_stops_the_run_loop() {
    let mut vm = Vm::new();
    // Image: TRAP x25 (HALT) at the start position.
    let image: Vec<u8> = vec![0x30, 0x00, 0xF0, 0x25];
    assert!(vm.read_image(&image));
    vm.boot();

    let mut steps = 0;
    while vm.active {
        let action = vm.step();
        if steps == 0 {
            assert!(matches!(action, Action::Halt));
        }
        steps += 1;
    }

    // Exactly one instruction ran; the loop exited on the halt.
    assert_eq!(steps, 1);
    assert!(!vm.active);
}

#[test]
fn step_runs_a_small_program() {
    let mut vm = Vm::new();
    // ADD R0, R0, #7; ADD R0, R0, #-1; HALT
    let image: Vec<u8> = vec![0x30, 0x00, 0x10, 0x27, 0x10, 0x3F, 0xF0, 0x25];
    assert!(vm.read_image(&image));
    vm.boot();

    while vm.active {
        let action = vm.step();
        assert!(!matches!(action, Action::Fatal));
    }

    assert_eq!(vm.registers.read(Register::R_R0), 6);
}

#[test]
fn reserved_opcodes_are_fatal() {
    let mut vm = Vm::new();
    // RTI at the start position.
    let image: Vec<u8> = vec![0x30, 0x00, 0x80, 0x00];
    assert!(vm.read_image(&image));
    vm.boot();
    assert!(matches!(vm.step(), Action::Fatal));
    // The machine was not halted normally; the embedder stops the run.
    assert!(vm.active);

    let mut vm = Vm::new();
    // The unassigned opcode 13 at the start position.
    let image: Vec<u8> = vec![0x30, 0x00, 0xD0, 0x00];
    assert!(vm.read_image(&image));
    vm.boot();
    assert!(matches!(vm.step(), Action::Fatal));
}

#[test]
fn unknown_trap_vector_is_fatal() {
    let mut vm = Vm::new();
    let image: Vec<u8> = vec![0x30, 0x00, 0xF0, 0x26];
    assert!(vm.read_image(&image));
    vm.boot();
    assert!(matches!(vm.step(), Action::Fatal));
}

#[test]
fn getc_serves_from_the_input_queue() {
    let mut vm = Vm::new();
    let image: Vec<u8> = vec![0x30, 0x00, 0xF0, 0x20];
    assert!(vm.read_image(&image));
    vm.boot();
    vm.input.push(b'q');

    assert!(matches!(vm.step(), Action::Continue));
    assert_eq!(vm.registers.read(Register::R_R0), b'q' as u16);
    // GETC does not echo.
    assert!(vm.output.is_empty());
}

#[test]
fn getc_asks_the_embedder_when_queue_is_empty() {
    let mut vm = Vm::new();
    let image: Vec<u8> = vec![0x30, 0x00, 0xF0, 0x20];
    assert!(vm.read_image(&image));
    vm.boot();

    assert!(matches!(vm.step(), Action::ReadChar));
    vm.provide_input(b'z', false);
    assert_eq!(vm.registers.read(Register::R_R0), b'z' as u16);
    assert!(vm.output.is_empty());
}

#[test]
fn trap_in_prompts_and_echoes() {
    let mut vm = Vm::new();
    let image: Vec<u8> = vec![0x30, 0x00, 0xF0, 0x23];
    assert!(vm.read_image(&image));
    vm.boot();

    assert!(matches!(vm.step(), Action::Prompt));
    vm.provide_input(b'k', true);
    assert_eq!(vm.registers.read(Register::R_R0), b'k' as u16);
    assert_eq!(vm.output, vec![b'k']);
}

#[test]
fn out_trap_writes_low_byte() {
    let mut vm = Vm::new();
    let image: Vec<u8> = vec![0x30, 0x00, 0xF0, 0x21];
    assert!(vm.read_image(&image));
    vm.boot();
    vm.registers.write(Register::R_R0, 0x3141);

    assert!(matches!(vm.step(), Action::Continue));
    assert_eq!(vm.output, vec![0x41]);
}

#[test]
fn puts_trap_writes_string_until_zero_cell() {
    let mut vm = Vm::new();
    vm.mem_write(0x5000, b'H' as u16);
    vm.mem_write(0x5001, b'i' as u16);
    vm.mem_write(0x5002, 0);
    vm.registers.write(Register::R_R0, 0x5000);

    trap_routines::trap_put(&mut vm);

    assert_eq!(vm.output, vec![b'H', b'i']);
}

#[test]
fn putsp_trap_writes_packed_string() {
    let mut vm = Vm::new();
    // "Hi" packed into one cell: low byte first.
    vm.mem_write(0x5000, ((b'i' as u16) << 8) | b'H' as u16);
    // "!" alone: high byte zero stops mid-cell.
    vm.mem_write(0x5001, b'!' as u16);
    vm.registers.write(Register::R_R0, 0x5000);

    trap_routines::trap_putsp(&mut vm);

    assert_eq!(vm.output, vec![b'H', b'i', b'!']);
}

#[test]
fn trap_sets_return_address_in_r7() {
    let mut vm = Vm::new();
    let image: Vec<u8> = vec![0x30, 0x00, 0xF0, 0x21];
    assert!(vm.read_image(&image));
    vm.boot();

    vm.step();

    // The return address is the already advanced program counter.
    assert_eq!(vm.registers.read(Register::R_R7), 0x3001);
}

#[test]
fn halt_routine_clears_active() {
    let mut vm = Vm::new();
    vm.boot();
    trap_routines::halt(&mut vm);
    assert!(!vm.active);
}
