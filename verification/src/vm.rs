//! The executable engine: image validation, the fetch-decode-execute loop,
//! and the pending-syscall interface for the embedding host.

use vstd::prelude::*;

use crate::arch::Opcode;
use crate::machine::{
    iterate, path_at, step, step_arith, step_open, step_write, word_at, MachineState, Status,
    VmError,
};

verus! {

/// Does the byte sequence carry a well-formed 12-byte header: the fixed magic
/// number, the sole supported version, and an entry-point word?
pub open spec fn magic_ok(mem: Seq<u8>) -> bool {
    &&& mem[0] == 0xf1u8
    &&& mem[1] == 0x0fu8
    &&& mem[2] == 0x0au8
    &&& mem[3] == 0x00u8
}

pub open spec fn version_ok(mem: Seq<u8>) -> bool {
    &&& mem[4] == 0x00u8
    &&& mem[5] == 0x00u8
    &&& mem[6] == 0x00u8
    &&& mem[7] == 0x00u8
}

pub open spec fn header_ok(mem: Seq<u8>) -> bool {
    &&& mem.len() >= 12
    &&& magic_ok(mem)
    &&& version_ok(mem)
}

/// The virtual machine's state for one run.
///
/// The host-side half of the file-descriptor table (the open handles for the
/// descriptors below `next_fd`) lives with the embedding host; the engine
/// only allocates descriptor numbers, sequentially from 3, with 0, 1 and 2
/// reserved for the standard streams.
pub struct VM {
    /// The instruction pointer.
    pub ip: usize,
    /// The operand stack.
    pub stack: Vec<u32>,
    /// The loaded binary image; never mutated after construction.
    pub memory: Vec<u8>,
    /// The next free file descriptor.
    pub next_fd: u32,
}

impl VM {
    /// The descriptors 0, 1 and 2 are always allocated.
    pub open spec fn wf(self) -> bool {
        self.next_fd >= 3
    }

    /// This state as a machine state with the given status.
    pub open spec fn abs_with(self, st: Status) -> MachineState {
        MachineState {
            ip: self.ip as int,
            stack: self.stack@,
            mem: self.memory@,
            next_fd: self.next_fd,
            status: st,
        }
    }

    /// This state as a running machine state.
    pub open spec fn abs(self) -> MachineState {
        self.abs_with(Status::Running)
    }

    /// Validate the header of a binary image and build the machine: the magic
    /// number and version must match exactly, the entry point word becomes
    /// the initial instruction pointer, the stack starts empty and the first
    /// free descriptor is 3.
    pub fn new(binary: Vec<u8>) -> (r: Result<VM, VmError>)
        ensures
            match r {
                Ok(vm) => {
                    &&& header_ok(binary@)
                    &&& vm.wf()
                    &&& vm.memory@ == binary@
                    &&& vm.stack@ == Seq::<u32>::empty()
                    &&& vm.ip == word_at(binary@, 8) as usize
                    &&& vm.next_fd == 3u32
                },
                Err(e) => {
                    &&& !header_ok(binary@)
                    &&& (e == VmError::HeaderTooShort <==> binary@.len() < 12)
                    &&& (e == VmError::BadMagic <==> binary@.len() >= 12 && !magic_ok(binary@))
                    &&& (e == VmError::BadVersion <==> binary@.len() >= 12 && magic_ok(binary@)
                        && !version_ok(binary@))
                },
            },
    {
        if binary.len() < 12 {
            return Err(VmError::HeaderTooShort);
        }
        if !(binary[0] == 0xf1 && binary[1] == 0x0f && binary[2] == 0x0a && binary[3] == 0x00) {
            return Err(VmError::BadMagic);
        }
        if !(binary[4] == 0x00 && binary[5] == 0x00 && binary[6] == 0x00 && binary[7] == 0x00) {
            return Err(VmError::BadVersion);
        }
        let ep = word_be(&binary, 8);
        Ok(VM { ip: ep as usize, stack: Vec::new(), memory: binary, next_fd: 3 })
    }

    /// Read the 32-bit big-endian word at the instruction pointer and advance
    /// it by 4; fewer than 4 bytes left before the image end is an error.
    fn fetch(&mut self) -> (r: Result<u32, VmError>)
        ensures
            final(self).stack@ == old(self).stack@,
            final(self).memory@ == old(self).memory@,
            final(self).next_fd == old(self).next_fd,
            match r {
                Ok(w) => {
                    &&& old(self).ip + 4 <= old(self).memory@.len()
                    &&& w == word_at(old(self).memory@, old(self).ip as int)
                    &&& final(self).ip == old(self).ip + 4
                },
                Err(e) => {
                    &&& e == VmError::OutOfBounds
                    &&& old(self).ip + 4 > old(self).memory@.len()
                    &&& final(self).ip == old(self).ip
                },
            },
    {
        if self.memory.len() < 4 || self.ip > self.memory.len() - 4 {
            return Err(VmError::OutOfBounds);
        }
        let w = word_be(&self.memory, self.ip);
        self.ip = self.ip + 4;
        Ok(w)
    }

    /// Perform one fetch-decode-execute step: the executable counterpart of
    /// the machine model's step function. A result of `Running` means the
    /// next instruction can be fetched; every other result blocks the run.
    fn step(&mut self) -> (r: Status)
        requires
            old(self).wf(),
        ensures
            final(self).wf(),
            final(self).abs_with(r) == step(old(self).abs()),
    {
        let ghost pre = self.abs();
        if self.ip >= self.memory.len() {
            proof {
                assert(self.abs_with(Status::Halted) =~= step(pre));
            }
            return Status::Halted;
        }
        let w = match self.fetch() {
            Ok(w) => w,
            Err(e) => {
                proof {
                    assert(self.abs_with(Status::Failed(e)) =~= step(pre));
                }
                return Status::Failed(e);
            },
        };
        let op = match Opcode::try_from(w) {
            Ok(op) => op,
            Err(code) => {
                proof {
                    assert(self.abs_with(Status::Failed(VmError::UnknownOpcode(code))) =~= step(
                        pre,
                    ));
                }
                return Status::Failed(VmError::UnknownOpcode(code));
            },
        };
        match op {
            Opcode::Halt => {
                proof {
                    assert(self.abs_with(Status::Halted) =~= step(pre));
                }
                Status::Halted
            },
            Opcode::IConst => {
                match self.fetch() {
                    Ok(value) => {
                        self.stack.push(value);
                        proof {
                            assert(self.abs_with(Status::Running) =~= step(pre));
                        }
                        Status::Running
                    },
                    Err(e) => {
                        proof {
                            assert(self.abs_with(Status::Failed(e)) =~= step(pre));
                        }
                        Status::Failed(e)
                    },
                }
            },
            Opcode::Syscall => {
                let code = match self.fetch() {
                    Ok(code) => code,
                    Err(e) => {
                        proof {
                            assert(self.abs_with(Status::Failed(e)) =~= step(pre));
                        }
                        return Status::Failed(e);
                    },
                };
                if code == 0 {
                    let r = self.syscall_open();
                    proof {
                        assert(self.abs_with(r) =~= step(pre));
                    }
                    r
                } else if code == 1 {
                    let r = self.syscall_write();
                    proof {
                        assert(self.abs_with(r) =~= step(pre));
                    }
                    r
                } else {
                    proof {
                        assert(self.abs_with(Status::Failed(VmError::UnknownSyscall(code))) =~= step(
                            pre,
                        ));
                    }
                    Status::Failed(VmError::UnknownSyscall(code))
                }
            },
            Opcode::JumpIfZero => {
                let a = match self.pop() {
                    Ok(a) => a,
                    Err(e) => {
                        proof {
                            assert(self.abs_with(Status::Failed(e)) =~= step(pre));
                        }
                        return Status::Failed(e);
                    },
                };
                match self.fetch() {
                    Ok(dest) => {
                        if a == 0 {
                            self.ip = dest as usize;
                        }
                        proof {
                            assert(self.abs_with(Status::Running) =~= step(pre));
                        }
                        Status::Running
                    },
                    Err(e) => {
                        proof {
                            assert(self.abs_with(Status::Failed(e)) =~= step(pre));
                        }
                        Status::Failed(e)
                    },
                }
            },
            Opcode::Dup => {
                match self.pop() {
                    Ok(a) => {
                        self.stack.push(a);
                        self.stack.push(a);
                        proof {
                            assert(self.abs_with(Status::Running) =~= step(pre));
                        }
                        Status::Running
                    },
                    Err(e) => {
                        proof {
                            assert(self.abs_with(Status::Failed(e)) =~= step(pre));
                        }
                        Status::Failed(e)
                    },
                }
            },
            _ => {
                let r = self.arith(op);
                proof {
                    assert(self.abs_with(r) =~= step(pre));
                }
                r
            },
        }
    }

    /// The shared shape of the four arithmetic instructions: pop b, pop a,
    /// push the result. Addition, subtraction and multiplication wrap;
    /// division by zero is an error.
    fn arith(&mut self, op: Opcode) -> (r: Status)
        requires
            old(self).wf(),
            op is IAdd || op is IMul || op is ISub || op is IDiv,
        ensures
            final(self).wf(),
            final(self).abs_with(r) == step_arith(old(self).abs(), old(self).ip as int, op),
    {
        let ghost pre = self.abs();
        let ghost ip2 = self.ip as int;
        let b = match self.pop() {
            Ok(b) => b,
            Err(e) => {
                proof {
                    assert(self.abs_with(Status::Failed(e)) =~= step_arith(pre, ip2, op));
                }
                return Status::Failed(e);
            },
        };
        let a = match self.pop() {
            Ok(a) => a,
            Err(e) => {
                proof {
                    assert(self.abs_with(Status::Failed(e)) =~= step_arith(pre, ip2, op));
                }
                return Status::Failed(e);
            },
        };
        let v = match op {
            Opcode::IAdd => a.wrapping_add(b),
            Opcode::IMul => a.wrapping_mul(b),
            Opcode::ISub => a.wrapping_sub(b),
            _ => {
                if b == 0 {
                    proof {
                        assert(self.abs_with(Status::Failed(VmError::DivisionByZero)) =~= step_arith(
                            pre,
                            ip2,
                            op,
                        ));
                    }
                    return Status::Failed(VmError::DivisionByZero);
                }
                a / b
            },
        };
        self.stack.push(v);
        proof {
            assert(self.abs_with(Status::Running) =~= step_arith(pre, ip2, op));
        }
        Status::Running
    }

    /// The open syscall, up to the point where the host takes over: pop the
    /// path offset and check it against the image.
    fn syscall_open(&mut self) -> (r: Status)
        requires
            old(self).wf(),
        ensures
            final(self).wf(),
            final(self).abs_with(r) == step_open(old(self).abs(), old(self).ip as int),
    {
        let ghost pre = self.abs();
        let ghost ip3 = self.ip as int;
        let buf = match self.pop() {
            Ok(buf) => buf,
            Err(e) => {
                proof {
                    assert(self.abs_with(Status::Failed(e)) =~= step_open(pre, ip3));
                }
                return Status::Failed(e);
            },
        };
        if buf as usize > self.memory.len() {
            proof {
                assert(self.abs_with(Status::Failed(VmError::OutOfBounds)) =~= step_open(pre, ip3));
            }
            return Status::Failed(VmError::OutOfBounds);
        }
        proof {
            assert(self.abs_with(Status::PendingOpen(buf)) =~= step_open(pre, ip3));
        }
        Status::PendingOpen(buf)
    }

    /// The write syscall, up to the point where the host takes over: pop
    /// length, buffer offset and descriptor, and validate both.
    fn syscall_write(&mut self) -> (r: Status)
        requires
            old(self).wf(),
        ensures
            final(self).wf(),
            final(self).abs_with(r) == step_write(old(self).abs(), old(self).ip as int),
    {
        let ghost pre = self.abs();
        let ghost ip3 = self.ip as int;
        let len = match self.pop() {
            Ok(len) => len,
            Err(e) => {
                proof {
                    assert(self.abs_with(Status::Failed(e)) =~= step_write(pre, ip3));
                }
                return Status::Failed(e);
            },
        };
        let buf = match self.pop() {
            Ok(buf) => buf,
            Err(e) => {
                proof {
                    assert(self.abs_with(Status::Failed(e)) =~= step_write(pre, ip3));
                }
                return Status::Failed(e);
            },
        };
        let fd = match self.pop() {
            Ok(fd) => fd,
            Err(e) => {
                proof {
                    assert(self.abs_with(Status::Failed(e)) =~= step_write(pre, ip3));
                }
                return Status::Failed(e);
            },
        };
        if buf as usize > self.memory.len() || len as usize > self.memory.len() - buf as usize {
            proof {
                assert(self.abs_with(Status::Failed(VmError::BufferOutOfRange)) =~= step_write(pre, ip3));
            }
            return Status::Failed(VmError::BufferOutOfRange);
        }
        if fd >= self.next_fd {
            proof {
                assert(self.abs_with(Status::Failed(VmError::UnknownFd(fd))) =~= step_write(pre, ip3));
            }
            return Status::Failed(VmError::UnknownFd(fd));
        }
        proof {
            assert(self.abs_with(Status::PendingWrite(fd, buf, len)) =~= step_write(pre, ip3));
        }
        Status::PendingWrite(fd, buf, len)
    }

    /// Run the fetch-decode-execute loop until it blocks or the step budget
    /// runs out. A blocked result is a Halt opcode or running past the image
    /// end (`Halted`), an error (`Failed`), or a syscall that needs the host
    /// (`PendingOpen`, `PendingWrite`); `Running` comes back only when
    /// exactly `max_steps` instructions ran without blocking, and the caller
    /// may simply call again. The result and the machine's final state are
    /// exactly what iterating the machine model's step function from the
    /// initial state gives.
    #[verifier::loop_isolation(false)]
    pub fn execute(&mut self, max_steps: u64) -> (r: Status)
        requires
            old(self).wf(),
        ensures
            final(self).wf(),
            final(self).memory@ == old(self).memory@,
            final(self).next_fd == old(self).next_fd,
            exists|n: nat|
                {
                    &&& n <= max_steps
                    &&& iterate(n, old(self).abs()) == final(self).abs_with(r)
                    &&& (r is Running ==> n == max_steps)
                },
    {
        let mut i: u64 = 0;
        proof {
            assert(iterate(0, old(self).abs()) == self.abs());
        }
        while i < max_steps
            invariant
                self.wf(),
                i <= max_steps,
                self.memory@ == old(self).memory@,
                self.next_fd == old(self).next_fd,
                iterate(i as nat, old(self).abs()) == self.abs(),
            decreases max_steps - i,
        {
            let ghost before = self.abs();
            let r = self.step();
            proof {
                assert(iterate(i as nat + 1, old(self).abs()) == step(
                    iterate(i as nat, old(self).abs()),
                ));
                assert(iterate(i as nat + 1, old(self).abs()) == self.abs_with(r));
            }
            i = i + 1;
            match r {
                Status::Running => {
                    proof {
                        assert(self.abs_with(Status::Running) == self.abs());
                    }
                },
                _ => {
                    return r;
                },
            }
        }
        Status::Running
    }

    /// Resume after a pending open that the host completed successfully:
    /// push the descriptor just allocated for the opened file and advance
    /// the descriptor counter.
    pub fn complete_open(&mut self)
        requires
            old(self).wf(),
            old(self).next_fd < u32::MAX,
        ensures
            final(self).wf(),
            final(self).ip == old(self).ip,
            final(self).memory@ == old(self).memory@,
            final(self).stack@ == old(self).stack@.push(old(self).next_fd),
            final(self).next_fd == old(self).next_fd + 1,
    {
        let fd = self.next_fd;
        self.stack.push(fd);
        self.next_fd = self.next_fd + 1;
    }

    /// The bytes of the null-terminated path at `start`: everything up to but
    /// excluding the first zero byte, truncated at the image end when no zero
    /// byte follows, and empty when `start` lies at or past the image end.
    #[verifier::loop_isolation(false)]
    pub fn read_path(&self, start: u32) -> (r: Vec<u8>)
        ensures
            r@ == path_at(self.memory@, start as int),
    {
        let mut r: Vec<u8> = Vec::new();
        if start as usize >= self.memory.len() {
            proof {
                assert(r@ =~= path_at(self.memory@, start as int));
            }
            return r;
        }
        let mut j: usize = start as usize;
        proof {
            assert(r@ + path_at(self.memory@, j as int) =~= path_at(self.memory@, start as int));
        }
        loop
            invariant
                start as int <= j as int <= self.memory@.len(),
                r@ + path_at(self.memory@, j as int) == path_at(self.memory@, start as int),
            decreases self.memory@.len() - j as int,
        {
            if j >= self.memory.len() {
                break ;
            }
            let b = self.memory[j];
            if b == 0 {
                break ;
            }
            r.push(b);
            proof {
                assert(path_at(self.memory@, j as int) == seq![b].add(
                    path_at(self.memory@, j as int + 1),
                ));
                assert(r@ + path_at(self.memory@, j as int + 1) =~= path_at(
                    self.memory@,
                    start as int,
                ));
            }
            j = j + 1;
        }
        proof {
            assert(path_at(self.memory@, j as int) =~= Seq::<u8>::empty());
            assert(r@ =~= path_at(self.memory@, start as int));
        }
        r
    }

    /// Remove and return the top of the operand stack; an empty stack is an
    /// underflow error.
    fn pop(&mut self) -> (r: Result<u32, VmError>)
        ensures
            final(self).ip == old(self).ip,
            final(self).memory@ == old(self).memory@,
            final(self).next_fd == old(self).next_fd,
            match r {
                Ok(v) => {
                    &&& old(self).stack@.len() > 0
                    &&& v == old(self).stack@.last()
                    &&& final(self).stack@ == old(self).stack@.drop_last()
                },
                Err(e) => {
                    &&& e == VmError::StackUnderflow
                    &&& old(self).stack@.len() == 0
                    &&& final(self).stack@ == old(self).stack@
                },
            },
    {
        match self.stack.pop() {
            Some(v) => Ok(v),
            None => Err(VmError::StackUnderflow),
        }
    }
}

/// The 32-bit big-endian word at byte offset `i` of a byte sequence.
fn word_be(bytes: &Vec<u8>, i: usize) -> (r: u32)
    requires
        i + 4 <= bytes@.len(),
    ensures
        r == word_at(bytes@, i as int),
{
    proof {
        // The sequence is a vector's view, so the offsets below fit in usize.
        assert(bytes@.len() == bytes.len());
    }
    ((bytes[i] as u32) << 24u32) | ((bytes[i + 1] as u32) << 16u32) | ((bytes[i + 2] as u32)
        << 8u32) | (bytes[i + 3] as u32)
}

} // verus!
