//! The mathematical model of the engine: machine states, the one-step
//! transition function, and its iteration. The executable engine in
//! [`crate::vm`] is proved to follow this model step by step.

use vstd::prelude::*;

use crate::arch::{opcode_of, Opcode};

verus! {

/// Everything that can end an execution step with an error.
#[derive(Clone, Copy, Debug, PartialEq, Eq, Structural)]
pub enum VmError {
    /// The image is shorter than the 12-byte header.
    HeaderTooShort,
    /// The image does not start with the fixed magic number.
    BadMagic,
    /// The image's version field is not the sole supported version.
    BadVersion,
    /// A fetched code word is no opcode; carries the offending word.
    UnknownOpcode(u32),
    /// A fetched syscall selector is neither open nor write; carries it.
    UnknownSyscall(u32),
    /// A pop was attempted on an empty operand stack.
    StackUnderflow,
    /// A fetch or memory access reached past the end of the image.
    OutOfBounds,
    /// Integer division by zero.
    DivisionByZero,
    /// A write syscall named a buffer range outside the image.
    BufferOutOfRange,
    /// A write syscall named a descriptor that was never allocated.
    UnknownFd(u32),
}

/// Where a run of the machine stands.
#[derive(Clone, Copy, Debug, PartialEq, Eq, Structural)]
pub enum Status {
    /// The next instruction can be fetched.
    Running,
    /// Execution ended successfully: a Halt opcode, or the instruction
    /// pointer ran past the end of the image.
    Halted,
    /// Execution ended with an error.
    Failed(VmError),
    /// An open syscall awaits the host: the field is the image offset of the
    /// null-terminated path to open. On success the host allocates the next
    /// descriptor by resuming the engine.
    PendingOpen(u32),
    /// A write syscall awaits the host: descriptor, buffer offset and length,
    /// with the range already validated against the image.
    PendingWrite(u32, u32, u32),
}

/// A machine state: instruction pointer, operand stack, the immutable image,
/// the next free file descriptor, and where the run stands.
///
/// The file-descriptor table never loses an entry, and descriptors are handed
/// out sequentially, so its key set is exactly the descriptors below
/// `next_fd`; the table's host-side values do not appear in the model.
#[verifier::ext_equal]
pub ghost struct MachineState {
    pub ip: int,
    pub stack: Seq<u32>,
    pub mem: Seq<u8>,
    pub next_fd: u32,
    pub status: Status,
}

/// The 32-bit big-endian word at byte offset `i` of the image.
pub open spec fn word_at(mem: Seq<u8>, i: int) -> u32
    recommends
        0 <= i,
        i + 4 <= mem.len(),
{
    ((mem[i] as u32) << 24) | ((mem[i + 1] as u32) << 16) | ((mem[i + 2] as u32) << 8) | (mem[i
        + 3] as u32)
}

/// The bytes of the null-terminated string at offset `i`: everything up to
/// but excluding the first zero byte, truncated at the end of the image when
/// no zero byte follows.
pub open spec fn path_at(mem: Seq<u8>, i: int) -> Seq<u8>
    decreases mem.len() - i,
{
    if i < 0 || i >= mem.len() || mem[i] == 0 {
        Seq::empty()
    } else {
        seq![mem[i]].add(path_at(mem, i + 1))
    }
}

/// A state in which no further step happens on its own: anything but Running.
pub open spec fn is_blocked(s: MachineState) -> bool {
    !(s.status is Running)
}

/// Division by zero is an error; the operands are already popped when the
/// check happens.
pub open spec fn step_div(s: MachineState, ip2: int, a: u32, b: u32, rest: Seq<u32>) -> MachineState {
    if b == 0 {
        MachineState { ip: ip2, stack: rest, status: Status::Failed(VmError::DivisionByZero), ..s }
    } else {
        MachineState { ip: ip2, stack: rest.push((a as int / b as int) as u32), status: Status::Running, ..s }
    }
}

/// The open syscall: pop a path offset; an offset past the image end is a
/// memory error, otherwise the step blocks waiting for the host to open the
/// path found there.
pub open spec fn step_open(s: MachineState, ip3: int) -> MachineState {
    if s.stack.len() == 0 {
        MachineState { ip: ip3, stack: Seq::empty(), status: Status::Failed(VmError::StackUnderflow), ..s }
    } else {
        let buf = s.stack.last();
        let rest = s.stack.drop_last();
        if buf as int > s.mem.len() {
            MachineState { ip: ip3, stack: rest, status: Status::Failed(VmError::OutOfBounds), ..s }
        } else {
            MachineState { ip: ip3, stack: rest, status: Status::PendingOpen(buf), ..s }
        }
    }
}

/// The write syscall: pop length, then buffer offset, then descriptor; the
/// buffer range must lie within the image and the descriptor must have been
/// allocated (the standard streams 0, 1, 2 always are). The step then blocks
/// waiting for the host to perform the write.
pub open spec fn step_write(s: MachineState, ip3: int) -> MachineState {
    if s.stack.len() < 3 {
        MachineState { ip: ip3, stack: Seq::empty(), status: Status::Failed(VmError::StackUnderflow), ..s }
    } else {
        let len = s.stack.last();
        let buf = s.stack[s.stack.len() - 2];
        let fd = s.stack[s.stack.len() - 3];
        let rest = s.stack.drop_last().drop_last().drop_last();
        if buf as int + len as int > s.mem.len() {
            MachineState { ip: ip3, stack: rest, status: Status::Failed(VmError::BufferOutOfRange), ..s }
        } else if fd >= s.next_fd {
            MachineState { ip: ip3, stack: rest, status: Status::Failed(VmError::UnknownFd(fd)), ..s }
        } else {
            MachineState { ip: ip3, stack: rest, status: Status::PendingWrite(fd, buf, len), ..s }
        }
    }
}

/// A syscall instruction: fetch the selector word, then dispatch.
pub open spec fn step_syscall(s: MachineState, ip2: int) -> MachineState {
    if ip2 + 4 > s.mem.len() {
        MachineState { ip: ip2, status: Status::Failed(VmError::OutOfBounds), ..s }
    } else {
        let sel = word_at(s.mem, ip2);
        let ip3 = ip2 + 4;
        if sel == 0 {
            step_open(s, ip3)
        } else if sel == 1 {
            step_write(s, ip3)
        } else {
            MachineState { ip: ip3, status: Status::Failed(VmError::UnknownSyscall(sel)), ..s }
        }
    }
}

/// A binary arithmetic instruction: pop b, pop a, push the result. An
/// underflow leaves the stack empty, since the pops that fit still happen.
pub open spec fn step_arith(s: MachineState, ip2: int, op: Opcode) -> MachineState {
    if s.stack.len() < 2 {
        MachineState { ip: ip2, stack: Seq::empty(), status: Status::Failed(VmError::StackUnderflow), ..s }
    } else {
        let b = s.stack.last();
        let a = s.stack[s.stack.len() - 2];
        let rest = s.stack.drop_last().drop_last();
        match op {
            Opcode::IAdd => MachineState {
                ip: ip2,
                stack: rest.push(vstd::wrapping::u32_specs::wrapping_add(a, b)),
                status: Status::Running,
                ..s
            },
            Opcode::IMul => MachineState {
                ip: ip2,
                stack: rest.push(vstd::wrapping::u32_specs::wrapping_mul(a, b)),
                status: Status::Running,
                ..s
            },
            Opcode::ISub => MachineState {
                ip: ip2,
                stack: rest.push(vstd::wrapping::u32_specs::wrapping_sub(a, b)),
                status: Status::Running,
                ..s
            },
            _ => step_div(s, ip2, a, b, rest),
        }
    }
}

/// A jump-if-zero instruction: pop the scrutinee, then fetch the target word;
/// the target word is consumed whether or not the branch is taken.
pub open spec fn step_jump_if_zero(s: MachineState, ip1: int) -> MachineState {
    if s.stack.len() == 0 {
        MachineState { ip: ip1, status: Status::Failed(VmError::StackUnderflow), ..s }
    } else {
        let a = s.stack.last();
        let rest = s.stack.drop_last();
        if ip1 + 4 > s.mem.len() {
            MachineState { ip: ip1, stack: rest, status: Status::Failed(VmError::OutOfBounds), ..s }
        } else {
            let dest = word_at(s.mem, ip1);
            let ip2 = ip1 + 4;
            MachineState {
                ip: if a == 0 { dest as int } else { ip2 },
                stack: rest,
                status: Status::Running,
                ..s
            }
        }
    }
}

/// One fetch-decode-execute step of the machine. A blocked state steps to
/// itself; a running state whose instruction pointer has run past the end of
/// the image halts successfully.
pub open spec fn step(s: MachineState) -> MachineState {
    if is_blocked(s) {
        s
    } else if s.ip >= s.mem.len() {
        MachineState { status: Status::Halted, ..s }
    } else if s.ip + 4 > s.mem.len() {
        MachineState { status: Status::Failed(VmError::OutOfBounds), ..s }
    } else {
        let w = word_at(s.mem, s.ip);
        let ip1 = s.ip + 4;
        match opcode_of(w) {
            None => MachineState { ip: ip1, status: Status::Failed(VmError::UnknownOpcode(w)), ..s },
            Some(Opcode::Halt) => MachineState { ip: ip1, status: Status::Halted, ..s },
            Some(Opcode::IConst) => {
                if ip1 + 4 > s.mem.len() {
                    MachineState { ip: ip1, status: Status::Failed(VmError::OutOfBounds), ..s }
                } else {
                    MachineState {
                        ip: ip1 + 4,
                        stack: s.stack.push(word_at(s.mem, ip1)),
                        status: Status::Running,
                        ..s
                    }
                }
            },
            Some(Opcode::Syscall) => step_syscall(s, ip1),
            Some(Opcode::JumpIfZero) => step_jump_if_zero(s, ip1),
            Some(Opcode::Dup) => {
                if s.stack.len() == 0 {
                    MachineState { ip: ip1, status: Status::Failed(VmError::StackUnderflow), ..s }
                } else {
                    MachineState { ip: ip1, stack: s.stack.push(s.stack.last()), status: Status::Running, ..s }
                }
            },
            Some(op) => step_arith(s, ip1, op),
        }
    }
}

/// The machine after `n` steps from `s`.
pub open spec fn iterate(n: nat, s: MachineState) -> MachineState
    decreases n,
{
    if n == 0 {
        s
    } else {
        step(iterate((n - 1) as nat, s))
    }
}

/// However many steps pass, the image is never written and the descriptor
/// counter never moves: only resuming a completed open advances it.
pub proof fn lemma_iterate_preserves_image(s: MachineState, n: nat)
    ensures
        iterate(n, s).mem == s.mem,
        iterate(n, s).next_fd == s.next_fd,
    decreases n,
{
    if n > 0 {
        lemma_iterate_preserves_image(s, (n - 1) as nat);
    }
}

/// A blocked state stays where it is, however many steps pass.
pub proof fn lemma_blocked_stays(s: MachineState, n: nat)
    requires
        is_blocked(s),
    ensures
        iterate(n, s) == s,
    decreases n,
{
    if n > 0 {
        lemma_blocked_stays(s, (n - 1) as nat);
    }
}

/// When one step blocks the machine, that step's result is the machine's
/// state after any positive number of steps.
pub proof fn lemma_settles(s: MachineState, n: nat)
    requires
        is_blocked(step(s)),
        n >= 1,
    ensures
        iterate(n, s) == step(s),
    decreases n,
{
    if n == 1 {
        assert(iterate(0, s) == s);
        assert(iterate(1, s) == step(iterate(0, s)));
    } else {
        lemma_settles(s, (n - 1) as nat);
    }
}

/// Law: from a running state whose instruction pointer addresses a Halt
/// opcode, every state the machine ever blocks in is a successful halt with
/// the operand stack and the image unchanged. In particular a valid image
/// whose entry point addresses a Halt opcode executes successfully with its
/// stack still empty.
pub proof fn lemma_halt_at_entry(s: MachineState)
    requires
        s.status is Running,
        0 <= s.ip,
        s.ip + 4 <= s.mem.len(),
        opcode_of(word_at(s.mem, s.ip)) == Some(Opcode::Halt),
    ensures
        forall|n: nat|
            is_blocked(#[trigger] iterate(n, s)) ==> iterate(n, s).status is Halted && iterate(
                n,
                s,
            ).stack == s.stack && iterate(n, s).mem == s.mem,
{
    assert(step(s) == (MachineState { ip: s.ip + 4, status: Status::Halted, ..s }));
    assert forall|n: nat| is_blocked(#[trigger] iterate(n, s)) implies iterate(n, s).status
        is Halted && iterate(n, s).stack == s.stack && iterate(n, s).mem == s.mem by {
        if n == 0 {
            assert(iterate(0, s) == s);
        } else {
            lemma_settles(s, n);
        }
    }
}

/// Law: a jump-if-zero first pops the scrutinee and then consumes the target
/// word whether or not the branch is taken; a popped zero moves the
/// instruction pointer to the target address, anything else moves it past
/// the target word.
pub proof fn lemma_jump_if_zero(s: MachineState)
    requires
        s.status is Running,
        0 <= s.ip,
        s.ip + 8 <= s.mem.len(),
        opcode_of(word_at(s.mem, s.ip)) == Some(Opcode::JumpIfZero),
        s.stack.len() >= 1,
    ensures
        step(s) == (MachineState {
            ip: if s.stack.last() == 0 {
                word_at(s.mem, s.ip + 4) as int
            } else {
                s.ip + 8
            },
            stack: s.stack.drop_last(),
            ..s
        }),
{
}

/// Law: a write syscall whose buffer range reaches past the image end fails
/// with the out-of-range error; the machine never blocks waiting for the
/// host on such a write, so nothing is written.
pub proof fn lemma_write_buffer_out_of_range(s: MachineState)
    requires
        s.status is Running,
        0 <= s.ip,
        s.ip + 8 <= s.mem.len(),
        opcode_of(word_at(s.mem, s.ip)) == Some(Opcode::Syscall),
        word_at(s.mem, s.ip + 4) == 1,
        s.stack.len() >= 3,
        s.stack[s.stack.len() - 2] as int + s.stack.last() as int > s.mem.len(),
    ensures
        step(s) == (MachineState {
            ip: s.ip + 8,
            stack: s.stack.drop_last().drop_last().drop_last(),
            status: Status::Failed(VmError::BufferOutOfRange),
            ..s
        }),
{
}

/// Law: a write syscall naming a descriptor that was never allocated fails
/// with the unknown-descriptor error, even when its buffer range is valid;
/// the machine never blocks waiting for the host on such a write.
pub proof fn lemma_write_unknown_fd(s: MachineState)
    requires
        s.status is Running,
        0 <= s.ip,
        s.ip + 8 <= s.mem.len(),
        opcode_of(word_at(s.mem, s.ip)) == Some(Opcode::Syscall),
        word_at(s.mem, s.ip + 4) == 1,
        s.stack.len() >= 3,
        s.stack[s.stack.len() - 2] as int + s.stack.last() as int <= s.mem.len(),
        s.stack[s.stack.len() - 3] >= s.next_fd,
    ensures
        step(s) == (MachineState {
            ip: s.ip + 8,
            stack: s.stack.drop_last().drop_last().drop_last(),
            status: Status::Failed(VmError::UnknownFd(s.stack[s.stack.len() - 3])),
            ..s
        }),
{
}

/// Law: a fetch attempted with fewer than four bytes left before the image
/// end fails with the out-of-bounds error instead of reading short, and
/// changes nothing else.
pub proof fn lemma_fetch_out_of_bounds(s: MachineState)
    requires
        s.status is Running,
        0 <= s.ip < s.mem.len(),
        s.ip + 4 > s.mem.len(),
    ensures
        step(s) == (MachineState { status: Status::Failed(VmError::OutOfBounds), ..s }),
{
}

} // verus!
