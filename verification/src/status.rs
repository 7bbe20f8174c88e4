//! How a machine stands: running, terminated, or stuck on an instruction
//! that it cannot execute.
use vstd::prelude::*;

verus! {

/// Why a machine terminated. None of the four is a failure: they differ in
/// what the machine met, and in the line that reports it.
#[derive(Clone, Copy, Debug, PartialEq, Eq, Structural)]
pub enum Termination {
    /// The position lies outside the image: there is nothing to fetch.
    InstructionsExhausted,
    /// The byte at the position is zero, which is no opcode.
    UndefinedOpcode,
    /// The opcode is the last byte of the image: its parameter is missing.
    MissingParameter,
    /// The program executed `RET`.
    Halted,
}

/// The state of a machine between two instructions.
#[derive(Clone, Copy, Debug, PartialEq, Eq, Structural)]
pub enum Status {
    /// The next instruction has yet to be fetched.
    Running,
    /// The machine terminated, and makes no further transition.
    Terminated(Termination),
    /// The machine met `IN` with input left to read and a parameter that names
    /// no register. The parameter is kept. The machine makes no further
    /// transition.
    InvalidRegister(u8),
}

impl Termination {
    /// The text of the line that reports this termination.
    pub open spec fn diagnostic_text(self) -> Seq<char> {
        match self {
            Termination::InstructionsExhausted => "There are no more instructions"@,
            Termination::UndefinedOpcode => "Undefined instruction"@,
            Termination::MissingParameter => "No parameter provided for instruction"@,
            Termination::Halted => "Virtual machine finished working"@,
        }
    }

    /// The line that reports this termination, without its line end.
    pub fn diagnostic(&self) -> (line: &'static str)
        ensures
            line@ == self.diagnostic_text(),
    {
        match self {
            Termination::InstructionsExhausted => "There are no more instructions",
            Termination::UndefinedOpcode => "Undefined instruction",
            Termination::MissingParameter => "No parameter provided for instruction",
            Termination::Halted => "Virtual machine finished working",
        }
    }
}

} // verus!
