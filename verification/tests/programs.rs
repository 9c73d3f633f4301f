use lc3_vm::traps::Trap;
use lc3_vm::vm::{VMError, PC_START, VM};

const R0: u16 = 0;
const R1: u16 = 1;
const R2: u16 = 2;
const R7: u16 = 7;
const PC: u16 = 8;
const COND: u16 = 9;

const N: u16 = 4;
const Z: u16 = 2;
const P: u16 = 1;

fn image(origin: u16, words: &[u16]) -> Vec<u8> {
    let mut bytes = Vec::new();
    bytes.extend_from_slice(&origin.to_be_bytes());
    for w in words {
        bytes.extend_from_slice(&w.to_be_bytes());
    }
    bytes
}

fn fresh() -> Box<VM> {
    Box::new(VM::new())
}

#[test]
fn new_machine_is_blank() {
    let mut vm = fresh();
    for r in 0..8 {
        assert_eq!(vm.get_register(r), 0);
    }
    assert_eq!(vm.get_register(PC), 0x3000);
    assert_eq!(vm.get_register(COND), Z);
    for a in [0u16, 0x3000, 0xFE00 - 1, 0xFE02, 0xFFFF] {
        assert_eq!(vm.read_from_memory(a), 0);
    }
    assert!(!vm.halted());
    assert_eq!(vm.pending_keys(), 0);
    assert!(vm.output().is_empty());
    let other = VM::default();
    assert_eq!(other.get_register(PC), PC_START);
    assert_eq!(other.get_register(COND), Z);
    assert_eq!(other.get_register(R0), 0);
    assert!(!other.halted());
}

#[test]
fn registers_hold_what_was_set() {
    let mut vm = fresh();
    for r in 0..10u16 {
        vm.set_register(r, 0x1000 + r);
    }
    for r in 0..10u16 {
        assert_eq!(vm.get_register(r), 0x1000 + r);
    }
}

#[test]
fn memory_holds_what_was_written() {
    let mut vm = fresh();
    vm.write_to_memory(0x0000, 1);
    vm.write_to_memory(0xFFFF, 2);
    vm.write_to_memory(0x3000, 3);
    vm.write_to_memory(0xFE02, 4);
    assert_eq!(vm.read_from_memory(0x0000), 1);
    assert_eq!(vm.read_from_memory(0xFFFF), 2);
    assert_eq!(vm.read_from_memory(0x3000), 3);
    assert_eq!(vm.read_from_memory(0xFE02), 4);
    assert_eq!(vm.read_from_memory(0x3001), 0);
}

#[test]
fn status_register_reports_a_pending_key() {
    let mut vm = fresh();
    vm.push_key(b'x');
    assert_eq!(vm.pending_keys(), 1);
    assert_eq!(vm.read_from_memory(0xFE00), 0x8000);
    assert_eq!(vm.read_from_memory(0xFE02), b'x' as u16);
    assert_eq!(vm.pending_keys(), 0);
}

#[test]
fn status_register_is_clear_without_a_key() {
    let mut vm = fresh();
    vm.write_to_memory(0xFE00, 0x1234);
    vm.write_to_memory(0xFE02, 0x0055);
    assert_eq!(vm.read_from_memory(0xFE00), 0);
    assert_eq!(vm.read_from_memory(0xFE02), 0x0055);
}

#[test]
fn each_status_read_takes_one_key() {
    let mut vm = fresh();
    vm.push_key(b'a');
    vm.push_key(b'b');
    assert_eq!(vm.read_from_memory(0xFE00), 0x8000);
    assert_eq!(vm.read_from_memory(0xFE02), b'a' as u16);
    assert_eq!(vm.read_from_memory(0xFE02), b'a' as u16);
    assert_eq!(vm.read_from_memory(0xFE00), 0x8000);
    assert_eq!(vm.read_from_memory(0xFE02), b'b' as u16);
    assert_eq!(vm.read_from_memory(0xFE00), 0);
    assert_eq!(vm.read_from_memory(0xFE02), b'b' as u16);
}

#[test]
fn check_keyboard_status_moves_a_key_to_the_data_register() {
    let mut vm = fresh();
    vm.push_key(0x7F);
    vm.check_keyboard_status();
    assert_eq!(vm.pending_keys(), 0);
    assert_eq!(vm.read_from_memory(0xFE02), 0x7F);
    vm.check_keyboard_status();
    assert_eq!(vm.read_from_memory(0xFE02), 0x7F);
}

#[test]
fn a_zero_key_is_a_key() {
    let mut vm = fresh();
    vm.write_to_memory(0xFE02, 0x0055);
    vm.push_key(0);
    assert_eq!(vm.read_from_memory(0xFE00), 0x8000);
    assert_eq!(vm.read_from_memory(0xFE02), 0);
}

#[test]
fn set_cond_flags_classifies_a_register() {
    let mut vm = fresh();
    vm.set_register(R0, 0);
    vm.set_register(R1, 0x0001);
    vm.set_register(R2, 0x8000);
    vm.set_cond_flags(R0);
    assert_eq!(vm.get_register(COND), Z);
    vm.set_cond_flags(R1);
    assert_eq!(vm.get_register(COND), P);
    vm.set_cond_flags(R2);
    assert_eq!(vm.get_register(COND), N);
}

#[test]
fn increment_pc_wraps() {
    let mut vm = fresh();
    vm.set_register(PC, 0x3000);
    vm.increment_pc();
    assert_eq!(vm.get_register(PC), 0x3001);
    vm.set_register(PC, 0xFFFF);
    vm.increment_pc();
    assert_eq!(vm.get_register(PC), 0x0000);
}

#[test]
fn exit_raises_the_halt_flag() {
    let mut vm = fresh();
    assert!(!vm.halted());
    vm.exit();
    assert!(vm.halted());
}

#[test]
fn fetch_and_decode_reads_the_word_at_the_pc() {
    let mut vm = fresh();
    vm.set_register(PC, 0x3000);
    vm.write_to_memory(0x3000, 0x1065);
    let (op, raw) = vm.fetch_and_decode();
    assert_eq!(raw, 0x1065);
    assert_eq!(op, lc3_vm::instructions::OpCode::ADD);
    assert_eq!(vm.get_register(PC), 0x3000);
}

#[test]
fn step_increments_the_pc_once() {
    let mut vm = fresh();
    vm.set_register(PC, 0x3000);
    // ADD R0, R0, #1; NOT R1, R0; RTI
    vm.write_to_memory(0x3000, 0x1021);
    vm.write_to_memory(0x3001, 0x923F);
    vm.write_to_memory(0x3002, 0x8000);
    assert_eq!(vm.step(), Ok(()));
    assert_eq!(vm.get_register(PC), 0x3001);
    assert_eq!(vm.step(), Ok(()));
    assert_eq!(vm.get_register(PC), 0x3002);
    assert_eq!(vm.step(), Ok(()));
    assert_eq!(vm.get_register(PC), 0x3003);
    assert_eq!(vm.get_register(R0), 1);
    assert_eq!(vm.get_register(R1), 0xFFFE);
}

#[test]
fn step_wraps_the_pc_at_the_end_of_memory() {
    let mut vm = fresh();
    vm.set_register(PC, 0xFFFF);
    vm.write_to_memory(0xFFFF, 0xE000);
    assert_eq!(vm.step(), Ok(()));
    assert_eq!(vm.get_register(PC), 0x0000);
    assert_eq!(vm.get_register(R0), 0x0000);
    assert_eq!(vm.get_register(COND), Z);
}

#[test]
fn branch_works_from_the_incremented_pc() {
    let mut vm = fresh();
    vm.set_register(PC, 0x3000);
    vm.set_register(COND, P);
    // BRp #3
    vm.write_to_memory(0x3000, 0x0203);
    assert_eq!(vm.step(), Ok(()));
    assert_eq!(vm.get_register(PC), 0x3004);
}

#[test]
fn fetch_from_the_status_register_polls_the_keyboard() {
    let mut vm = fresh();
    vm.set_register(PC, 0xFE00);
    vm.push_key(b'k');
    // With a key pending the cell reads 0x8000, which is RTI.
    assert_eq!(vm.step(), Ok(()));
    assert_eq!(vm.get_register(PC), 0xFE01);
    assert_eq!(vm.pending_keys(), 0);
    assert_eq!(vm.read_from_memory(0xFE02), b'k' as u16);
}

#[test]
fn pure_halt() {
    let mut vm = fresh();
    let img = image(0x3000, &[0xF025]);
    assert_eq!(vm.run(&img, 1000), Ok(true));
    assert!(vm.halted());
    assert!(vm.output().is_empty());
    assert_eq!(vm.get_register(PC), 0x3001);
}

#[test]
fn print_a_then_halt() {
    let mut vm = fresh();
    // LEA R0, msg; PUTS; HALT; msg: 'A', 0
    let img = image(0x3000, &[0xE002, 0xF022, 0xF025, 0x0041, 0x0000]);
    assert_eq!(vm.run(&img, 1000), Ok(true));
    assert_eq!(vm.output().as_slice(), b"A");
    assert_eq!(vm.get_register(R0), 0x3003);
}

#[test]
fn add_immediate_chain() {
    let mut vm = fresh();
    vm.set_register(R0, 0x7777);
    // AND R0,R0,#0; ADD R0,R0,#5; ADD R0,R0,#-3; HALT
    let img = image(0x3000, &[0x5020, 0x1025, 0x103D, 0xF025]);
    assert_eq!(vm.run(&img, 1000), Ok(true));
    assert_eq!(vm.get_register(R0), 2);
    assert_eq!(vm.get_register(COND), P);
}

#[test]
fn indirect_load() {
    let mut vm = fresh();
    vm.write_to_memory(0x3100, 0x3200);
    vm.write_to_memory(0x3200, 0x00AB);
    // LDI R1, #255; HALT
    let img = image(0x3000, &[0xA2FF, 0xF025]);
    assert_eq!(vm.run(&img, 1000), Ok(true));
    assert_eq!(vm.get_register(R1), 0x00AB);
    assert_eq!(vm.get_register(COND), P);
}

#[test]
fn subroutine_call_and_return() {
    let mut vm = fresh();
    vm.set_register(R2, 41);
    // JSR sub; HALT; sub: ADD R2,R2,#1; RET
    let img = image(0x3000, &[0x4801, 0xF025, 0x14A1, 0xC1C0]);
    // Three cycles: the call, the addition, the return.
    assert_eq!(vm.run(&img, 3), Ok(false));
    assert_eq!(vm.get_register(R2), 42);
    assert_eq!(vm.get_register(R7), 0x3001);
    assert_eq!(vm.get_register(PC), 0x3001);
    // The fourth is the halt, which links like every trap.
    assert_eq!(vm.resume(1000), Ok(true));
    assert!(vm.halted());
    assert_eq!(vm.get_register(R2), 42);
    assert_eq!(vm.get_register(R7), 0x3002);
}

#[test]
fn echo_one_char() {
    let mut vm = fresh();
    vm.push_key(b'Z');
    // GETC; OUT; HALT
    let img = image(0x3000, &[0xF020, 0xF021, 0xF025]);
    assert_eq!(vm.run(&img, 1000), Ok(true));
    assert_eq!(vm.output().as_slice(), b"Z");
    assert_eq!(vm.get_register(R0), 0x5A);
    assert_eq!(vm.pending_keys(), 0);
}

#[test]
fn run_starts_at_0x3000_with_the_zero_flag() {
    let mut vm = fresh();
    vm.set_register(PC, 0x1234);
    vm.set_register(COND, N);
    vm.set_register(R0, 0x8000);
    let img = image(0x3000, &[0xF025]);
    assert_eq!(vm.run(&img, 0), Ok(false));
    assert_eq!(vm.get_register(PC), PC_START);
    assert_eq!(vm.get_register(PC), 0x3000);
    assert_eq!(vm.get_register(COND), Z);
    assert_eq!(vm.read_from_memory(0x3000), 0xF025);
    assert!(!vm.halted());
}

#[test]
fn run_refuses_a_malformed_image() {
    let mut vm = fresh();
    vm.write_to_memory(0x3000, 0xF025);
    assert_eq!(vm.run(&[0x30, 0x00, 0xF0], 1000), Err(VMError::ImageIOError));
    assert_eq!(vm.run(&[], 1000), Err(VMError::ImageIOError));
    assert!(!vm.halted());
    assert_eq!(vm.get_register(PC), 0x3000);
    assert_eq!(vm.get_register(R7), 0);
    assert_eq!(vm.read_from_memory(0x3000), 0xF025);
}

#[test]
fn run_stops_when_the_budget_is_spent() {
    let mut vm = fresh();
    // BRnzp #-1
    let img = image(0x3000, &[0x0FFF]);
    assert_eq!(vm.run(&img, 500), Ok(false));
    assert_eq!(vm.get_register(PC), 0x3000);
    assert!(!vm.halted());
}

#[test]
fn run_stops_at_an_unknown_trap() {
    let mut vm = fresh();
    // ADD R0,R0,#1; TRAP x30; HALT
    let img = image(0x3000, &[0x1021, 0xF030, 0xF025]);
    assert_eq!(vm.run(&img, 1000), Err(VMError::TrapDoesNotExist));
    assert_eq!(vm.get_register(R0), 1);
    assert_eq!(vm.get_register(PC), 0x3002);
    assert!(!vm.halted());
}

#[test]
fn image_is_placed_at_its_origin_not_at_the_start_address() {
    let mut vm = fresh();
    vm.write_to_memory(0x3000, 0xF025);
    let img = image(0x4000, &[0x1111, 0x2222]);
    assert_eq!(vm.run(&img, 1000), Ok(true));
    assert_eq!(vm.read_from_memory(0x4000), 0x1111);
    assert_eq!(vm.read_from_memory(0x4001), 0x2222);
    assert_eq!(vm.get_register(PC), 0x3001);
}

#[test]
fn load_assembly_places_words_and_keeps_registers() {
    let mut vm = fresh();
    vm.set_register(PC, 0x0123);
    assert_eq!(vm.load_assembly(&image(0x3000, &[1, 2, 3])), Ok(()));
    assert_eq!(vm.read_from_memory(0x3000), 1);
    assert_eq!(vm.read_from_memory(0x3001), 2);
    assert_eq!(vm.read_from_memory(0x3002), 3);
    assert_eq!(vm.read_from_memory(0x3003), 0);
    assert_eq!(vm.get_register(PC), 0x0123);
    assert_eq!(vm.load_assembly(&[1, 2, 3]), Err(VMError::ImageIOError));
    assert_eq!(vm.read_from_memory(0x3000), 1);
}

#[test]
fn getc_takes_a_key_without_echo() {
    let mut vm = fresh();
    vm.push_key(b'q');
    vm.push_key(b'r');
    assert_eq!(Trap::GETC.execute(&mut vm), Ok(()));
    assert_eq!(vm.get_register(R0), b'q' as u16);
    assert!(vm.output().is_empty());
    assert_eq!(vm.pending_keys(), 1);
    assert_eq!(Trap::GETC.execute(&mut vm), Ok(()));
    assert_eq!(vm.get_register(R0), b'r' as u16);
}

#[test]
fn getc_without_a_key_is_an_io_error() {
    let mut vm = fresh();
    vm.set_register(R0, 0x1234);
    assert_eq!(Trap::GETC.execute(&mut vm), Err(VMError::IOError));
    assert_eq!(vm.get_register(R0), 0x1234);
    let img = image(0x3000, &[0xF020, 0xF025]);
    assert_eq!(vm.run(&img, 1000), Err(VMError::IOError));
    assert!(!vm.halted());
}

#[test]
fn out_prints_the_low_byte_of_r0() {
    let mut vm = fresh();
    vm.set_register(R0, 0x1248);
    assert_eq!(Trap::OUT.execute(&mut vm), Ok(()));
    vm.set_register(R0, 0x0069);
    assert_eq!(Trap::OUT.execute(&mut vm), Ok(()));
    assert_eq!(vm.output().as_slice(), b"Hi");
}

#[test]
fn in_prompts_reads_and_echoes() {
    let mut vm = fresh();
    vm.push_key(b'y');
    assert_eq!(Trap::IN.execute(&mut vm), Ok(()));
    assert_eq!(vm.get_register(R0), b'y' as u16);
    assert_eq!(vm.output().as_slice(), b"Enter a character: y");
}

#[test]
fn in_without_a_key_is_an_io_error_after_the_prompt() {
    let mut vm = fresh();
    assert_eq!(Trap::IN.execute(&mut vm), Err(VMError::IOError));
    assert_eq!(vm.output().as_slice(), b"Enter a character: ");
    assert_eq!(vm.get_register(R0), 0);
}

#[test]
fn puts_prints_up_to_the_zero_word() {
    let mut vm = fresh();
    for (i, c) in b"Hello".iter().enumerate() {
        vm.write_to_memory(0x4000 + i as u16, *c as u16);
    }
    vm.write_to_memory(0x4006, b'!' as u16);
    vm.set_register(R0, 0x4000);
    assert_eq!(Trap::PUTS.execute(&mut vm), Ok(()));
    assert_eq!(vm.output().as_slice(), b"Hello");
    assert_eq!(vm.get_register(R0), 0x4000);
}

#[test]
fn puts_prints_the_low_byte_of_each_word() {
    let mut vm = fresh();
    vm.write_to_memory(0x4000, 0x1241);
    vm.write_to_memory(0x4001, 0xFF42);
    vm.set_register(R0, 0x4000);
    assert_eq!(Trap::PUTS.execute(&mut vm), Ok(()));
    assert_eq!(vm.output().as_slice(), b"AB");
}

#[test]
fn puts_of_an_empty_string_prints_nothing() {
    let mut vm = fresh();
    vm.set_register(R0, 0x4000);
    assert_eq!(Trap::PUTS.execute(&mut vm), Ok(()));
    assert!(vm.output().is_empty());
}

#[test]
fn puts_wraps_around_the_end_of_memory() {
    let mut vm = fresh();
    vm.write_to_memory(0xFFFF, b'a' as u16);
    vm.write_to_memory(0x0000, b'b' as u16);
    vm.set_register(R0, 0xFFFF);
    assert_eq!(Trap::PUTS.execute(&mut vm), Ok(()));
    assert_eq!(vm.output().as_slice(), b"ab");
}

#[test]
fn puts_over_the_status_register_polls_the_keyboard() {
    let mut vm = fresh();
    vm.write_to_memory(0xFDFF, b'A' as u16);
    vm.write_to_memory(0xFE00, 0x0042);
    vm.set_register(R0, 0xFDFF);
    assert_eq!(Trap::PUTS.execute(&mut vm), Ok(()));
    assert_eq!(vm.output().as_slice(), b"A");

    let mut vm = fresh();
    vm.write_to_memory(0xFDFF, b'A' as u16);
    vm.push_key(b'k');
    vm.set_register(R0, 0xFDFF);
    assert_eq!(Trap::PUTS.execute(&mut vm), Ok(()));
    assert_eq!(vm.output().as_slice(), &[b'A', 0x00]);
    assert_eq!(vm.pending_keys(), 0);
}

#[test]
fn puts_ends_even_when_no_word_is_zero() {
    let mut vm = fresh();
    for a in 0..=0xFFFFu16 {
        vm.write_to_memory(a, b'.' as u16);
    }
    vm.set_register(R0, 0xFE01);
    assert_eq!(Trap::PUTS.execute(&mut vm), Ok(()));
    assert_eq!(vm.output().len(), 65535);
    assert!(vm.output().iter().all(|b| *b == b'.'));
}

#[test]
fn putsp_prints_two_bytes_per_word() {
    let mut vm = fresh();
    // "Hello" packed low byte first: "He", "ll", "o\0"
    vm.write_to_memory(0x4000, 0x6548);
    vm.write_to_memory(0x4001, 0x6C6C);
    vm.write_to_memory(0x4002, 0x006F);
    vm.write_to_memory(0x4003, 0x0000);
    vm.write_to_memory(0x4004, 0x4141);
    vm.set_register(R0, 0x4000);
    assert_eq!(Trap::PUTSP.execute(&mut vm), Ok(()));
    assert_eq!(vm.output().as_slice(), b"Hello");
}

#[test]
fn putsp_prints_a_zero_low_byte_before_a_high_byte() {
    let mut vm = fresh();
    vm.write_to_memory(0x4000, 0x4100);
    vm.set_register(R0, 0x4000);
    assert_eq!(Trap::PUTSP.execute(&mut vm), Ok(()));
    assert_eq!(vm.output().as_slice(), &[0x00, 0x41]);
}

#[test]
fn halt_sets_the_flag_and_nothing_else() {
    let mut vm = fresh();
    vm.set_register(R0, 3);
    assert_eq!(Trap::HALT.execute(&mut vm), Ok(()));
    assert!(vm.halted());
    assert_eq!(vm.get_register(R0), 3);
    assert_eq!(vm.get_register(R7), 0);
    assert_eq!(vm.get_register(PC), 0x3000);
    assert!(vm.output().is_empty());
}

#[test]
fn traps_through_the_instruction_reach_each_service() {
    let mut vm = fresh();
    vm.push_key(b'1');
    vm.push_key(b'2');
    vm.write_to_memory(0x5000, 0x6261);
    // GETC; OUT; IN; LEA R0,#3; PUTS; PUTSP; HALT; "X"
    let mut words = vec![0xF020, 0xF021, 0xF023, 0xE003, 0xF022, 0xF024, 0xF025, 0x0058, 0x0000];
    words.push(0);
    let img = image(0x3000, &words);
    assert_eq!(vm.run(&img, 1000), Ok(true));
    assert_eq!(vm.output().as_slice(), b"1Enter a character: 2XX");
}

#[test]
fn awaits_input_only_before_a_reading_trap_with_no_key() {
    let mut vm = fresh();
    vm.set_register(PC, 0x3000);
    vm.write_to_memory(0x3000, 0xF020);
    vm.write_to_memory(0x3001, 0xF023);
    vm.write_to_memory(0x3002, 0xF021);
    vm.write_to_memory(0x3003, 0x1021);
    assert!(vm.awaits_input());
    vm.push_key(b'a');
    assert!(!vm.awaits_input());
    assert_eq!(vm.step(), Ok(()));
    assert!(vm.awaits_input());
    vm.push_key(b'b');
    assert!(!vm.awaits_input());
    assert_eq!(vm.step(), Ok(()));
    assert!(!vm.awaits_input());
    assert_eq!(vm.step(), Ok(()));
    assert!(!vm.awaits_input());
    vm.set_register(PC, 0xFE00);
    assert!(!vm.awaits_input());
}

#[test]
fn take_output_hands_over_and_clears() {
    let mut vm = fresh();
    vm.print_byte(b'o');
    vm.print_byte(b'k');
    assert_eq!(vm.take_output(), b"ok".to_vec());
    assert!(vm.output().is_empty());
    vm.print_byte(b'!');
    assert_eq!(vm.take_output(), b"!".to_vec());
}

#[test]
fn take_key_takes_the_oldest() {
    let mut vm = fresh();
    assert_eq!(vm.take_key(), None);
    vm.push_key(1);
    vm.push_key(2);
    assert_eq!(vm.take_key(), Some(1));
    assert_eq!(vm.take_key(), Some(2));
    assert_eq!(vm.take_key(), None);
}

#[test]
fn resume_runs_at_least_one_cycle_on_a_halted_machine() {
    let mut vm = fresh();
    vm.set_register(PC, 0x3000);
    vm.write_to_memory(0x3000, 0x1021);
    vm.exit();
    assert_eq!(vm.resume(10), Ok(true));
    assert_eq!(vm.get_register(R0), 1);
    assert_eq!(vm.get_register(PC), 0x3001);
    assert_eq!(vm.resume(0), Ok(false));
    assert_eq!(vm.get_register(PC), 0x3001);
}
