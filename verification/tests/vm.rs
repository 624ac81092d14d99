use fluxvm::machine::{Status, VmError};
use fluxvm::vm::VM;

const HALT: u32 = 0x00;
const ICONST: u32 = 0x01;
const SYSCALL: u32 = 0x03;
const JUMP_IF_ZERO: u32 = 0x04;
const IADD: u32 = 0x10;
const IMUL: u32 = 0x11;
const ISUB: u32 = 0x12;
const IDIV: u32 = 0x13;
const DUP: u32 = 0x20;

const STEPS: u64 = 100_000;

/// A well-formed image: magic, version 0, entry point 12, then the given
/// words followed by the given trailing data bytes.
fn image_with_data(words: &[u32], data: &[u8]) -> Vec<u8> {
    let mut b = vec![0xf1, 0x0f, 0x0a, 0x00, 0x00, 0x00, 0x00, 0x00, 0x00, 0x00, 0x00, 12];
    for w in words {
        b.extend_from_slice(&w.to_be_bytes());
    }
    b.extend_from_slice(data);
    b
}

fn image(words: &[u32]) -> Vec<u8> {
    image_with_data(words, &[])
}

fn run(words: &[u32]) -> (VM, Status) {
    let mut vm = VM::new(image(words)).expect("header is valid");
    let r = vm.execute(STEPS);
    (vm, r)
}

#[test]
fn halt_at_entry_succeeds_with_empty_stack() {
    let (vm, r) = run(&[HALT]);
    assert_eq!(r, Status::Halted);
    assert!(vm.stack.is_empty());
}

#[test]
fn running_off_the_image_end_succeeds() {
    // No Halt anywhere: the loop stops when the instruction pointer reaches
    // the image length.
    let (vm, r) = run(&[ICONST, 5]);
    assert_eq!(r, Status::Halted);
    assert_eq!(vm.stack, vec![5]);
}

#[test]
fn entry_point_past_the_end_succeeds() {
    let mut b = image(&[]);
    b[11] = 200; // entry point far past the 12-byte image
    let mut vm = VM::new(b).unwrap();
    assert_eq!(vm.execute(STEPS), Status::Halted);
    assert!(vm.stack.is_empty());
}

#[test]
fn bad_magic_fails_construction() {
    let mut b = image(&[HALT]);
    b[1] = 0xff;
    match VM::new(b) {
        Err(e) => assert_eq!(e, VmError::BadMagic),
        Ok(_) => panic!("construction must fail"),
    }
}

#[test]
fn bad_version_fails_construction() {
    let mut b = image(&[HALT]);
    b[7] = 0x01;
    match VM::new(b) {
        Err(e) => assert_eq!(e, VmError::BadVersion),
        Ok(_) => panic!("construction must fail"),
    }
}

#[test]
fn short_image_fails_construction() {
    match VM::new(vec![0xf1, 0x0f, 0x0a, 0x00]) {
        Err(e) => assert_eq!(e, VmError::HeaderTooShort),
        Ok(_) => panic!("construction must fail"),
    }
}

#[test]
fn iconst_pushes_the_immediate() {
    let (vm, r) = run(&[ICONST, 5, HALT]);
    assert_eq!(r, Status::Halted);
    assert_eq!(vm.stack, vec![5]);
}

#[test]
fn isub_subtracts_in_push_order() {
    // 5 then 3 pushed: the result is 5 - 3, not 3 - 5.
    let (vm, r) = run(&[ICONST, 5, ICONST, 3, ISUB, HALT]);
    assert_eq!(r, Status::Halted);
    assert_eq!(vm.stack, vec![2]);
}

#[test]
fn iadd_wraps_around() {
    let (vm, r) = run(&[ICONST, 0xffff_ffff, ICONST, 1, IADD, HALT]);
    assert_eq!(r, Status::Halted);
    assert_eq!(vm.stack, vec![0]);
}

#[test]
fn isub_wraps_below_zero() {
    let (vm, r) = run(&[ICONST, 3, ICONST, 5, ISUB, HALT]);
    assert_eq!(r, Status::Halted);
    assert_eq!(vm.stack, vec![0xffff_fffe]);
}

#[test]
fn imul_multiplies() {
    let (vm, r) = run(&[ICONST, 6, ICONST, 7, IMUL, HALT]);
    assert_eq!(r, Status::Halted);
    assert_eq!(vm.stack, vec![42]);
}

#[test]
fn imul_wraps_around() {
    let (vm, r) = run(&[ICONST, 0x8000_0000, ICONST, 2, IMUL, HALT]);
    assert_eq!(r, Status::Halted);
    assert_eq!(vm.stack, vec![0]);
}

#[test]
fn idiv_divides_truncating() {
    let (vm, r) = run(&[ICONST, 7, ICONST, 2, IDIV, HALT]);
    assert_eq!(r, Status::Halted);
    assert_eq!(vm.stack, vec![3]);
}

#[test]
fn idiv_by_zero_fails() {
    let (vm, r) = run(&[ICONST, 6, ICONST, 0, IDIV, HALT]);
    assert_eq!(r, Status::Failed(VmError::DivisionByZero));
    // Both operands were popped before the check; nothing was pushed.
    assert!(vm.stack.is_empty());
}

#[test]
fn dup_duplicates_the_top() {
    let (vm, r) = run(&[ICONST, 7, DUP, HALT]);
    assert_eq!(r, Status::Halted);
    assert_eq!(vm.stack, vec![7, 7]);
}

#[test]
fn dup_on_empty_stack_underflows() {
    let (_, r) = run(&[DUP, HALT]);
    assert_eq!(r, Status::Failed(VmError::StackUnderflow));
}

#[test]
fn arith_on_short_stack_underflows() {
    let (vm, r) = run(&[ICONST, 1, IADD, HALT]);
    assert_eq!(r, Status::Failed(VmError::StackUnderflow));
    assert!(vm.stack.is_empty());
}

#[test]
fn jump_if_zero_taken_on_zero() {
    // Words at 12, 16, 20, 24, 28, 32, 36, 40: jump over the ICONST 99 pair
    // to the Halt at byte 40.
    let (vm, r) = run(&[ICONST, 0, JUMP_IF_ZERO, 40, ICONST, 99, HALT, HALT]);
    assert_eq!(r, Status::Halted);
    assert!(vm.stack.is_empty());
    // The Halt at 40 was fetched, so the instruction pointer stands at 44.
    assert_eq!(vm.ip, 44);
}

#[test]
fn jump_if_zero_not_taken_on_nonzero() {
    let (vm, r) = run(&[ICONST, 1, JUMP_IF_ZERO, 40, ICONST, 99, HALT, HALT]);
    assert_eq!(r, Status::Halted);
    // The target word was consumed and execution simply continued.
    assert_eq!(vm.stack, vec![99]);
    assert_eq!(vm.ip, 40);
}

#[test]
fn unknown_opcode_fails_with_the_code() {
    let (_, r) = run(&[0xff]);
    assert_eq!(r, Status::Failed(VmError::UnknownOpcode(0xff)));
}

#[test]
fn unknown_syscall_fails_with_the_selector() {
    let (_, r) = run(&[SYSCALL, 7, HALT]);
    assert_eq!(r, Status::Failed(VmError::UnknownSyscall(7)));
}

#[test]
fn truncated_fetch_fails_out_of_bounds() {
    // An IConst word followed by only two bytes: the immediate fetch finds
    // fewer than four bytes before the image end.
    let b = image_with_data(&[ICONST], &[0x00, 0x00]);
    let mut vm = VM::new(b).unwrap();
    assert_eq!(vm.execute(STEPS), Status::Failed(VmError::OutOfBounds));
    assert!(vm.stack.is_empty());
}

#[test]
fn open_pauses_with_the_path_offset() {
    // Path bytes sit at offset 28, right after the four words.
    let b = image_with_data(&[ICONST, 28, SYSCALL, 0], b"out.txt\0");
    let mut vm = VM::new(b).unwrap();
    let r = vm.execute(STEPS);
    assert_eq!(r, Status::PendingOpen(28));
    assert_eq!(vm.read_path(28), b"out.txt".to_vec());
}

#[test]
fn open_path_without_null_is_truncated_at_the_end() {
    let b = image_with_data(&[ICONST, 28, SYSCALL, 0], b"abc");
    let mut vm = VM::new(b).unwrap();
    assert_eq!(vm.execute(STEPS), Status::PendingOpen(28));
    assert_eq!(vm.read_path(28), b"abc".to_vec());
}

#[test]
fn open_offset_at_the_end_gives_an_empty_path() {
    let b = image(&[ICONST, 28, SYSCALL, 0]);
    assert_eq!(b.len(), 28);
    let mut vm = VM::new(b).unwrap();
    assert_eq!(vm.execute(STEPS), Status::PendingOpen(28));
    assert_eq!(vm.read_path(28), Vec::<u8>::new());
}

#[test]
fn open_offset_past_the_end_fails() {
    let b = image(&[ICONST, 1000, SYSCALL, 0]);
    let mut vm = VM::new(b).unwrap();
    assert_eq!(vm.execute(STEPS), Status::Failed(VmError::OutOfBounds));
}

#[test]
fn completed_opens_allocate_descriptors_sequentially() {
    let b = image_with_data(&[ICONST, 48, SYSCALL, 0, ICONST, 48, SYSCALL, 0, HALT], b"a\0");
    let mut vm = VM::new(b).unwrap();
    assert_eq!(vm.execute(STEPS), Status::PendingOpen(48));
    vm.complete_open();
    assert_eq!(vm.stack, vec![3]);
    assert_eq!(vm.execute(STEPS), Status::PendingOpen(48));
    vm.complete_open();
    assert_eq!(vm.execute(STEPS), Status::Halted);
    assert_eq!(vm.stack, vec![3, 4]);
    assert_eq!(vm.next_fd, 5);
}

#[test]
fn write_after_open_with_range_past_the_end_fails() {
    // Open a file, then ask to write 9999 bytes from offset 0: the buffer
    // range leaves the image, so the engine fails before any write reaches
    // the host.
    let b = image_with_data(
        &[ICONST, 56, SYSCALL, 0, ICONST, 0, ICONST, 9999, SYSCALL, 1, HALT],
        b"f\0",
    );
    let mut vm = VM::new(b).unwrap();
    assert_eq!(vm.execute(STEPS), Status::PendingOpen(56));
    vm.complete_open();
    assert_eq!(vm.execute(STEPS), Status::Failed(VmError::BufferOutOfRange));
}

#[test]
fn write_to_unallocated_descriptor_fails() {
    // Descriptor 9 was never opened (only 0, 1, 2 exist at the start).
    let (_, r) = run(&[ICONST, 9, ICONST, 0, ICONST, 1, SYSCALL, 1, HALT]);
    assert_eq!(r, Status::Failed(VmError::UnknownFd(9)));
}

#[test]
fn write_to_a_standard_stream_pauses_for_the_host() {
    // Descriptor 1 is standard output, bound from the start.
    let (mut vm, r) = run(&[ICONST, 1, ICONST, 12, ICONST, 4, SYSCALL, 1, HALT]);
    assert_eq!(r, Status::PendingWrite(1, 12, 4));
    // The host performs the write; the engine itself just continues.
    assert_eq!(vm.execute(STEPS), Status::Halted);
}

#[test]
fn write_pops_length_then_buffer_then_descriptor() {
    // Pushed in order: descriptor 1, buffer 12, length 0. A zero-length
    // range at the end of the image is in range.
    let b = image(&[ICONST, 1, ICONST, 12, ICONST, 0, SYSCALL, 1, HALT]);
    let mut vm = VM::new(b).unwrap();
    assert_eq!(vm.execute(STEPS), Status::PendingWrite(1, 12, 0));
}

#[test]
fn execute_with_no_budget_reports_running() {
    let b = image(&[HALT]);
    let mut vm = VM::new(b).unwrap();
    assert_eq!(vm.execute(0), Status::Running);
    assert_eq!(vm.execute(STEPS), Status::Halted);
}

#[test]
fn guest_infinite_loop_keeps_running() {
    // Push 0, jump back to the entry point, forever.
    let b = image(&[ICONST, 0, JUMP_IF_ZERO, 12]);
    let mut vm = VM::new(b).unwrap();
    assert_eq!(vm.execute(10_000), Status::Running);
    assert_eq!(vm.execute(10_000), Status::Running);
}
