//! The executable machine.
use crate::laws::{lemma_run_adds, lemma_stopped_stays};
use crate::machine::{displacement, Fetch, MachineState};
use crate::opcode::{
    sets_flag, ADD, DEC, IN, INC, JFE, JMP, JNZ, JZ, LSL, LSR, MOV, MOVC, OR, OUT, RET, SUB, XOR,
};
use crate::status::{Status, Termination};
use vstd::prelude::*;

verus! {

/// A machine with its program and its input. Its state is seen through its
/// view, a `MachineState`.
pub struct VirtualMachine {
    registers: [u8; 16],
    memory: [u8; 256],
    flag: u8,
    input_exhausted: u8,
    input: Vec<u8>,
    cursor: usize,
    position: isize,
    status: Status,
}

impl View for VirtualMachine {
    type V = MachineState;

    closed spec fn view(&self) -> MachineState {
        MachineState {
            registers: self.registers@,
            memory: self.memory@,
            flag: self.flag,
            input_exhausted: self.input_exhausted,
            input: self.input@,
            consumed: self.cursor as nat,
            position: self.position as int,
            status: self.status,
        }
    }
}

impl VirtualMachine {
    #[verifier::type_invariant]
    spec fn inv(self) -> bool {
        &&& self.flag <= 1
        &&& self.input_exhausted <= 1
        &&& self.cursor <= self.input.len()
    }

    /// A machine at the start of `memory`, with all registers zero and
    /// nothing read from `input`.
    pub fn new(memory: [u8; 256], input: Vec<u8>) -> (vm: VirtualMachine)
        ensures
            vm@ == MachineState::initial(memory@, input@),
            vm@.wf(),
    {
        VirtualMachine {
            registers: [0; 16],
            memory,
            flag: 0,
            input_exhausted: 0,
            input,
            cursor: 0,
            position: 0,
            status: Status::Running,
        }
    }

    /// The sixteen registers.
    pub fn registers(&self) -> (registers: [u8; 16])
        ensures
            registers@ == self@.registers,
    {
        self.registers
    }

    /// The flag, which is 0 or 1.
    pub fn flag(&self) -> (flag: u8)
        ensures
            flag == self@.flag,
            flag <= 1,
    {
        proof {
            use_type_invariant(self);
        }
        self.flag
    }

    /// The exhaustion mark, which is 0 or 1.
    pub fn input_exhausted(&self) -> (mark: u8)
        ensures
            mark == self@.input_exhausted,
            mark <= 1,
    {
        proof {
            use_type_invariant(self);
        }
        self.input_exhausted
    }

    /// How many bytes of the input have been read.
    pub fn consumed(&self) -> (count: usize)
        ensures
            count == self@.consumed,
            count <= self@.input.len(),
    {
        proof {
            use_type_invariant(self);
        }
        self.cursor
    }

    /// Where the next instruction is fetched.
    pub fn position(&self) -> (position: isize)
        ensures
            position == self@.position,
    {
        self.position
    }

    /// Whether the machine runs, and if not, why.
    pub fn status(&self) -> (status: Status)
        ensures
            status == self@.status,
            self@.wf(),
    {
        proof {
            use_type_invariant(self);
        }
        self.status
    }

    /// Carries a position from behind a jump to the jump's target.
    /// `position_in_memory` is that of the instruction that follows the jump;
    /// the target is the jump's own position plus the displacement that
    /// `parameter` stands for.
    pub fn jump(&self, position_in_memory: &mut isize, parameter: u8)
        requires
            isize::MIN + 2 <= *old(position_in_memory),
            isize::MIN <= *old(position_in_memory) - 2 + displacement(parameter) <= isize::MAX,
        ensures
            *final(position_in_memory) == *old(position_in_memory) - 2 + displacement(parameter),
    {
        *position_in_memory = *position_in_memory - 2;
        if parameter > 127 {
            *position_in_memory = *position_in_memory - (256 - parameter as isize);
        } else {
            *position_in_memory = *position_in_memory + parameter as isize;
        }
    }

    /// Reads the opcode and the parameter at the current position.
    fn fetch(&self) -> (found: Fetch)
        ensures
            found == self@.fetch(),
    {
        if self.position < 0 || self.position >= 256 {
            return Fetch::Stop(Termination::InstructionsExhausted);
        }
        let at: usize = self.position as usize;
        let opcode: u8 = self.memory[at];
        if opcode == 0 {
            return Fetch::Stop(Termination::UndefinedOpcode);
        }
        if at + 1 >= 256 {
            return Fetch::Stop(Termination::MissingParameter);
        }
        Fetch::Instruction { opcode, parameter: self.memory[at + 1] }
    }

    /// Makes one transition, and appends to `output` the byte that it writes,
    /// if it writes one. Returns the status after the transition.
    pub fn step(&mut self, output: &mut Vec<u8>) -> (status: Status)
        ensures
            final(self)@ == old(self)@.step(),
            final(output)@ == old(output)@ + old(self)@.emitted(),
            status == final(self)@.status,
            final(self)@.wf(),
    {
        proof {
            use_type_invariant(&*self);
        }
        match self.status {
            Status::Running => {},
            _ => {
                assert(output@ =~= old(output)@ + old(self)@.emitted());
                return self.status;
            },
        }
        let (opcode, parameter) = match self.fetch() {
            Fetch::Stop(reason) => {
                self.status = Status::Terminated(reason);
                assert(output@ =~= old(output)@ + old(self)@.emitted());
                return self.status;
            },
            Fetch::Instruction { opcode, parameter } => (opcode, parameter),
        };
        let mut next: isize = self.position + 2;
        let rx: usize = (parameter & 0xf) as usize;
        let ry: usize = ((parameter >> 4) & 0xf) as usize;
        assert(parameter & 0xf == parameter % 16) by (bit_vector);
        assert((parameter >> 4) & 0xf == parameter / 16) by (bit_vector);

        if opcode == INC {
            self.registers[rx] = self.registers[rx].wrapping_add(1);
        } else if opcode == DEC {
            self.registers[rx] = self.registers[rx].wrapping_sub(1);
        } else if opcode == MOV {
            self.registers[rx] = self.registers[ry];
        } else if opcode == MOVC {
            self.registers[0] = parameter;
        } else if opcode == LSL {
            let value: u8 = self.registers[rx];
            assert(value << 1 == ((value * 2) % 256) as u8) by (bit_vector);
            self.registers[rx] = value << 1;
        } else if opcode == LSR {
            let value: u8 = self.registers[rx];
            assert(value >> 1 == value / 2) by (bit_vector);
            self.registers[rx] = value >> 1;
        } else if opcode == JMP {
            self.jump(&mut next, parameter);
        } else if opcode == JZ {
            if self.flag == 1 {
                self.jump(&mut next, parameter);
            }
        } else if opcode == JNZ {
            if self.flag == 0 {
                self.jump(&mut next, parameter);
            }
        } else if opcode == JFE {
            if self.input_exhausted == 1 {
                self.jump(&mut next, parameter);
            }
        } else if opcode == RET {
            self.status = Status::Terminated(Termination::Halted);
        } else if opcode == ADD {
            self.registers[rx] = self.registers[rx].wrapping_add(self.registers[ry]);
        } else if opcode == SUB {
            self.registers[rx] = self.registers[rx].wrapping_sub(self.registers[ry]);
        } else if opcode == XOR {
            self.registers[rx] = self.registers[rx] ^ self.registers[ry];
        } else if opcode == OR {
            self.registers[rx] = self.registers[rx] | self.registers[ry];
        } else if opcode == IN {
            if self.cursor < self.input.len() {
                if parameter >= 16 {
                    self.status = Status::InvalidRegister(parameter);
                    assert(output@ =~= old(output)@ + old(self)@.emitted());
                    return self.status;
                }
                self.registers[parameter as usize] = self.input[self.cursor];
                self.cursor = self.cursor + 1;
            } else {
                self.input_exhausted = 1;
            }
        } else if opcode == OUT {
            output.push(self.registers[rx]);
        }

        if sets_flag(opcode) {
            let written: usize = if opcode == MOVC { 0 } else { rx };
            if self.registers[written] == 0 {
                self.flag = 1;
            } else {
                self.flag = 0;
            }
        } else {
            self.flag = 0;
        }
        self.position = next;
        assert(self@ =~= old(self)@.step());
        assert(output@ =~= old(output)@ + old(self)@.emitted());
        self.status
    }

    /// Makes transitions until the machine no longer runs, but `max_steps` at
    /// most, and appends to `output` what they write. Returns the status
    /// after the last of them: `Running` if the steps ran out first.
    pub fn run(&mut self, output: &mut Vec<u8>, max_steps: u64) -> (status: Status)
        ensures
            final(self)@ == old(self)@.run(max_steps as nat),
            final(output)@ == old(output)@ + old(self)@.written(max_steps as nat),
            status == final(self)@.status,
            final(self)@.wf(),
    {
        let ghost start = self@;
        let ghost before = output@;
        proof {
            use_type_invariant(&*self);
            assert(before + start.written(0) =~= before);
        }
        let mut done: u64 = 0;
        let mut status: Status = self.status;
        while done < max_steps && status == Status::Running
            invariant
                done <= max_steps,
                self@ == start.run(done as nat),
                output@ == before + start.written(done as nat),
                status == self@.status,
                self@.wf(),
            decreases max_steps - done,
        {
            status = self.step(output);
            done = done + 1;
            assert(output@ =~= before + start.written(done as nat));
        }
        proof {
            if done < max_steps {
                let rest = (max_steps - done) as nat;
                lemma_run_adds(start, done as nat, rest);
                lemma_stopped_stays(self@, rest);
                assert(done as nat + rest == max_steps as nat);
                assert(output@ =~= before + start.written(max_steps as nat));
            }
        }
        status
    }
}

} // verus!
