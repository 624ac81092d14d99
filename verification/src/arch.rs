//! The instruction set: opcodes and their fixed 32-bit encodings.

use vstd::prelude::*;

verus! {

/// One instruction of the virtual machine.
#[derive(Clone, Copy, Debug, PartialEq, Eq, Structural)]
pub enum Opcode {
    /// Stop program execution.
    Halt,
    /// Push an immediate integer (the next word) onto the stack.
    IConst,
    /// Dispatch a syscall; the next word selects which one.
    Syscall,
    /// Pop a value and fetch a target word; jump there when the value is zero.
    JumpIfZero,
    /// Pop b, pop a, push a + b (wrapping).
    IAdd,
    /// Pop b, pop a, push a * b (wrapping).
    IMul,
    /// Pop b, pop a, push a - b (wrapping).
    ISub,
    /// Pop b, pop a, push a / b; division by zero is an error.
    IDiv,
    /// Duplicate the top stack element.
    Dup,
}

/// The opcode encoded by a raw 32-bit code word, if any.
pub open spec fn opcode_of(code: u32) -> Option<Opcode> {
    if code == 0x00 {
        Some(Opcode::Halt)
    } else if code == 0x01 {
        Some(Opcode::IConst)
    } else if code == 0x03 {
        Some(Opcode::Syscall)
    } else if code == 0x04 {
        Some(Opcode::JumpIfZero)
    } else if code == 0x10 {
        Some(Opcode::IAdd)
    } else if code == 0x11 {
        Some(Opcode::IMul)
    } else if code == 0x12 {
        Some(Opcode::ISub)
    } else if code == 0x13 {
        Some(Opcode::IDiv)
    } else if code == 0x20 {
        Some(Opcode::Dup)
    } else {
        None
    }
}

/// The 32-bit code word that encodes an opcode.
pub open spec fn code_of(op: Opcode) -> u32 {
    match op {
        Opcode::Halt => 0x00,
        Opcode::IConst => 0x01,
        Opcode::Syscall => 0x03,
        Opcode::JumpIfZero => 0x04,
        Opcode::IAdd => 0x10,
        Opcode::IMul => 0x11,
        Opcode::ISub => 0x12,
        Opcode::IDiv => 0x13,
        Opcode::Dup => 0x20,
    }
}

impl Opcode {
    /// Decode a raw code word; fails on every value outside the opcode table.
    pub fn try_from(code: u32) -> (r: Result<Opcode, u32>)
        ensures
            r == (match opcode_of(code) {
                Some(op) => Ok::<Opcode, u32>(op),
                None => Err::<Opcode, u32>(code),
            }),
    {
        match code {
            0x00 => Ok(Opcode::Halt),
            0x01 => Ok(Opcode::IConst),
            0x03 => Ok(Opcode::Syscall),
            0x04 => Ok(Opcode::JumpIfZero),
            0x10 => Ok(Opcode::IAdd),
            0x11 => Ok(Opcode::IMul),
            0x12 => Ok(Opcode::ISub),
            0x13 => Ok(Opcode::IDiv),
            0x20 => Ok(Opcode::Dup),
            _ => Err(code),
        }
    }

    /// Encode this opcode as its raw code word; total.
    pub fn code(self) -> (r: u32)
        ensures
            r == code_of(self),
    {
        match self {
            Opcode::Halt => 0x00,
            Opcode::IConst => 0x01,
            Opcode::Syscall => 0x03,
            Opcode::JumpIfZero => 0x04,
            Opcode::IAdd => 0x10,
            Opcode::IMul => 0x11,
            Opcode::ISub => 0x12,
            Opcode::IDiv => 0x13,
            Opcode::Dup => 0x20,
        }
    }
}

/// Law: decoding the encoding of any opcode gives that opcode back.
pub proof fn lemma_code_round_trip(op: Opcode)
    ensures
        opcode_of(code_of(op)) == Some(op),
{
}

/// Law: every successfully decoded code word is the encoding of its opcode,
/// so the code points of distinct opcodes never collide.
pub proof fn lemma_decode_inverts_encode(code: u32)
    ensures
        opcode_of(code) matches Some(op) ==> code_of(op) == code,
{
}

} // verus!
