//! The instruction set: one opcode byte per operation.
use vstd::prelude::*;

verus! {

/// `registers[rx] += 1`
pub const INC: u8 = 0x01;

/// `registers[rx] -= 1`
pub const DEC: u8 = 0x02;

/// `registers[rx] = registers[ry]`
pub const MOV: u8 = 0x03;

/// `registers[0] = parameter`
pub const MOVC: u8 = 0x04;

/// `registers[rx] <<= 1`
pub const LSL: u8 = 0x05;

/// `registers[rx] >>= 1`
pub const LSR: u8 = 0x06;

/// Relative jump.
pub const JMP: u8 = 0x07;

/// Relative jump if the flag is set.
pub const JZ: u8 = 0x08;

/// Relative jump if the flag is clear.
pub const JNZ: u8 = 0x09;

/// Relative jump if the input has been found exhausted.
pub const JFE: u8 = 0x0A;

/// Stop the machine.
pub const RET: u8 = 0x0B;

/// `registers[rx] += registers[ry]`
pub const ADD: u8 = 0x0C;

/// `registers[rx] -= registers[ry]`
pub const SUB: u8 = 0x0D;

/// `registers[rx] ^= registers[ry]`
pub const XOR: u8 = 0x0E;

/// `registers[rx] |= registers[ry]`
pub const OR: u8 = 0x0F;

/// Read one input byte into the register that the parameter names.
pub const IN: u8 = 0x10;

/// Write `registers[rx]` to the output.
pub const OUT: u8 = 0x11;

/// The operations that write a register and set the flag from what they wrote.
pub open spec fn writes_register(opcode: u8) -> bool {
    opcode == INC || opcode == DEC || opcode == MOV || opcode == MOVC || opcode == LSL
        || opcode == LSR || opcode == ADD || opcode == SUB || opcode == XOR || opcode == OR
}

/// The four jumps.
pub open spec fn is_jump(opcode: u8) -> bool {
    opcode == JMP || opcode == JZ || opcode == JNZ || opcode == JFE
}

/// Tells whether `opcode` writes a register and sets the flag from it.
pub fn sets_flag(opcode: u8) -> (r: bool)
    ensures
        r == writes_register(opcode),
{
    opcode == INC || opcode == DEC || opcode == MOV || opcode == MOVC || opcode == LSL
        || opcode == LSR || opcode == ADD || opcode == SUB || opcode == XOR || opcode == OR
}

} // verus!
