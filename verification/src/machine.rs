//! The machine as a mathematical object: its state, and the transition that
//! one instruction makes.
use crate::opcode::{
    writes_register, ADD, DEC, IN, INC, JFE, JMP, JNZ, JZ, LSL, LSR, MOV, MOVC, OR, OUT, RET, SUB,
    XOR,
};
use crate::status::{Status, Termination};
use vstd::prelude::*;

verus! {

/// The register that the low four bits of a parameter name.
pub open spec fn rx(parameter: u8) -> int {
    parameter as int % 16
}

/// The register that the high four bits of a parameter name.
pub open spec fn ry(parameter: u8) -> int {
    parameter as int / 16
}

/// The signed displacement that the parameter of a jump stands for: the
/// parameter itself up to 127, and `parameter - 256` above.
pub open spec fn displacement(parameter: u8) -> int {
    if parameter > 127 {
        parameter - 256
    } else {
        parameter as int
    }
}

/// What a fetch finds at a position.
pub enum Fetch {
    /// No instruction can be read, for the reason given.
    Stop(Termination),
    /// An opcode and its parameter.
    Instruction { opcode: u8, parameter: u8 },
}

/// All that a machine holds between two instructions.
#[verifier::ext_equal]
pub struct MachineState {
    /// The sixteen registers.
    pub registers: Seq<u8>,
    /// The program image. No instruction writes to it.
    pub memory: Seq<u8>,
    /// 1 if the last instruction wrote zero to a register, else 0.
    pub flag: u8,
    /// 1 once an `IN` has found no input left, else 0.
    pub input_exhausted: u8,
    /// The whole input, read or not.
    pub input: Seq<u8>,
    /// How many bytes of the input have been read.
    pub consumed: nat,
    /// Where the next instruction is fetched. A jump may carry it to either
    /// side of the image.
    pub position: int,
    /// Whether the machine runs, and if not, why.
    pub status: Status,
}

impl MachineState {
    /// The state in which a machine starts on a program and an input.
    pub open spec fn initial(memory: Seq<u8>, input: Seq<u8>) -> MachineState {
        MachineState {
            registers: Seq::new(16, |i: int| 0u8),
            memory,
            flag: 0,
            input_exhausted: 0,
            input,
            consumed: 0,
            position: 0,
            status: Status::Running,
        }
    }

    /// The shape that every state of a machine has.
    pub open spec fn wf(self) -> bool {
        &&& self.registers.len() == 16
        &&& self.memory.len() == 256
        &&& self.flag <= 1
        &&& self.input_exhausted <= 1
        &&& self.consumed <= self.input.len()
    }

    /// Whether a byte of input is left to read.
    pub open spec fn has_input(self) -> bool {
        self.consumed < self.input.len()
    }

    /// What the fetch at the current position finds.
    pub open spec fn fetch(self) -> Fetch {
        if !(0 <= self.position < self.memory.len()) {
            Fetch::Stop(Termination::InstructionsExhausted)
        } else if self.memory[self.position] == 0 {
            Fetch::Stop(Termination::UndefinedOpcode)
        } else if self.position + 1 >= self.memory.len() {
            Fetch::Stop(Termination::MissingParameter)
        } else {
            Fetch::Instruction {
                opcode: self.memory[self.position],
                parameter: self.memory[self.position + 1],
            }
        }
    }

    /// Whether the machine runs and the instruction that it executes next is
    /// `opcode` with `parameter`.
    pub open spec fn next_is(self, opcode: u8, parameter: u8) -> bool {
        &&& self.status == Status::Running
        &&& self.fetch() == (Fetch::Instruction { opcode, parameter })
    }

    /// The register that an operation of `writes_register` writes: register 0
    /// for `MOVC`, and `rx` for the others.
    pub open spec fn destination(opcode: u8, parameter: u8) -> int
        recommends
            writes_register(opcode),
    {
        if opcode == MOVC {
            0
        } else {
            rx(parameter)
        }
    }

    /// The value that an operation of `writes_register` writes. Sums and
    /// differences are taken modulo 256.
    pub open spec fn written_value(self, opcode: u8, parameter: u8) -> u8
        recommends
            writes_register(opcode),
    {
        let x = self.registers[rx(parameter)];
        let y = self.registers[ry(parameter)];
        if opcode == INC {
            ((x + 1) % 256) as u8
        } else if opcode == DEC {
            ((x - 1) % 256) as u8
        } else if opcode == MOV {
            y
        } else if opcode == MOVC {
            parameter
        } else if opcode == LSL {
            ((x * 2) % 256) as u8
        } else if opcode == LSR {
            x / 2
        } else if opcode == ADD {
            ((x + y) % 256) as u8
        } else if opcode == SUB {
            ((x - y) % 256) as u8
        } else if opcode == XOR {
            x ^ y
        } else if opcode == OR {
            x | y
        } else {
            x
        }
    }

    /// Whether `opcode` is a jump whose condition holds in this state.
    pub open spec fn takes_jump(self, opcode: u8) -> bool {
        ||| opcode == JMP
        ||| opcode == JZ && self.flag == 1
        ||| opcode == JNZ && self.flag == 0
        ||| opcode == JFE && self.input_exhausted == 1
    }

    /// Whether `IN` with this parameter cannot be executed: a byte is there
    /// to be read, and the parameter names no register.
    pub open spec fn names_no_register(self, opcode: u8, parameter: u8) -> bool {
        opcode == IN && self.has_input() && parameter >= 16
    }

    /// The registers after the instruction.
    pub open spec fn registers_after(self, opcode: u8, parameter: u8) -> Seq<u8> {
        if writes_register(opcode) {
            self.registers.update(
                Self::destination(opcode, parameter),
                self.written_value(opcode, parameter),
            )
        } else if opcode == IN && self.has_input() {
            self.registers.update(parameter as int, self.input[self.consumed as int])
        } else {
            self.registers
        }
    }

    /// The flag after the instruction: whether it wrote zero to a register.
    /// An instruction that is not of `writes_register` clears the flag.
    pub open spec fn flag_after(self, opcode: u8, parameter: u8) -> u8 {
        if writes_register(opcode) && self.written_value(opcode, parameter) == 0 {
            1
        } else {
            0
        }
    }

    /// The position after the instruction: that of the instruction plus the
    /// displacement where a jump is taken, and the next instruction otherwise.
    pub open spec fn position_after(self, opcode: u8, parameter: u8) -> int {
        if self.takes_jump(opcode) {
            self.position + displacement(parameter)
        } else {
            self.position + 2
        }
    }

    /// The state after the instruction that was fetched at the current
    /// position.
    pub open spec fn execute(self, opcode: u8, parameter: u8) -> MachineState {
        if self.names_no_register(opcode, parameter) {
            MachineState { status: Status::InvalidRegister(parameter), ..self }
        } else {
            MachineState {
                registers: self.registers_after(opcode, parameter),
                flag: self.flag_after(opcode, parameter),
                input_exhausted: if opcode == IN && !self.has_input() {
                    1
                } else {
                    self.input_exhausted
                },
                consumed: if opcode == IN && self.has_input() {
                    self.consumed + 1
                } else {
                    self.consumed
                },
                position: self.position_after(opcode, parameter),
                status: if opcode == RET {
                    Status::Terminated(Termination::Halted)
                } else {
                    Status::Running
                },
                ..self
            }
        }
    }

    /// One transition. A machine that does not run stays as it is. A fetch
    /// that finds no instruction terminates the machine and changes nothing
    /// else.
    pub open spec fn step(self) -> MachineState {
        if self.status != Status::Running {
            self
        } else {
            match self.fetch() {
                Fetch::Stop(reason) => MachineState { status: Status::Terminated(reason), ..self },
                Fetch::Instruction { opcode, parameter } => self.execute(opcode, parameter),
            }
        }
    }

    /// The bytes that the next transition writes to the output: one for an
    /// `OUT` that is executed, and none otherwise.
    pub open spec fn emitted(self) -> Seq<u8> {
        if self.status == Status::Running {
            match self.fetch() {
                Fetch::Instruction { opcode, parameter } if opcode == OUT => seq![
                    self.registers[rx(parameter)],
                ],
                _ => Seq::empty(),
            }
        } else {
            Seq::empty()
        }
    }

    /// The state after `steps` transitions.
    pub open spec fn run(self, steps: nat) -> MachineState
        decreases steps,
    {
        if steps == 0 {
            self
        } else {
            self.run((steps - 1) as nat).step()
        }
    }

    /// The bytes that the first `steps` transitions write to the output.
    pub open spec fn written(self, steps: nat) -> Seq<u8>
        decreases steps,
    {
        if steps == 0 {
            Seq::empty()
        } else {
            self.written((steps - 1) as nat) + self.run((steps - 1) as nat).emitted()
        }
    }
}

} // verus!
