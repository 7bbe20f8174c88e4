//! What holds of every machine, proved from the transition.
use crate::machine::{displacement, rx, ry, MachineState};
use crate::opcode::{
    is_jump, writes_register, ADD, DEC, IN, INC, JFE, JMP, JNZ, JZ, MOVC, OUT, RET, SUB,
};
use crate::status::{Status, Termination};
use vstd::prelude::*;

verus! {

/// A machine that has terminated, or is stuck, makes no further transition
/// and writes nothing more, however many steps it is given.
pub proof fn lemma_stopped_stays(s: MachineState, steps: nat)
    requires
        s.status != Status::Running,
    ensures
        s.run(steps) == s,
        s.written(steps) == Seq::<u8>::empty(),
    decreases steps,
{
    if steps > 0 {
        lemma_stopped_stays(s, (steps - 1) as nat);
    }
}

/// Running `a + b` steps is running `a` steps and then `b` more, and the
/// output is that of the first `a` followed by that of the other `b`.
pub proof fn lemma_run_adds(s: MachineState, a: nat, b: nat)
    ensures
        s.run(a + b) == s.run(a).run(b),
        s.written(a + b) == s.written(a) + s.run(a).written(b),
    decreases b,
{
    if b == 0 {
        assert(s.written(a) + s.run(a).written(0) =~= s.written(a));
    } else {
        lemma_run_adds(s, a, (b - 1) as nat);
        assert(a + b - 1 == a + (b - 1));
        let mid = s.run(a);
        assert(s.written(a + b) =~= s.written(a) + mid.written(b));
    }
}

/// Once a machine has stopped, more steps change neither its state nor its
/// output: the result of a run does not depend on a limit that is large
/// enough.
pub proof fn lemma_enough_steps(s: MachineState, enough: nat, more: nat)
    requires
        s.run(enough).status != Status::Running,
        enough <= more,
    ensures
        s.run(more) == s.run(enough),
        s.written(more) == s.written(enough),
{
    let rest = (more - enough) as nat;
    lemma_run_adds(s, enough, rest);
    lemma_stopped_stays(s.run(enough), rest);
    assert(enough + rest == more);
    assert(s.written(enough) + Seq::<u8>::empty() =~= s.written(enough));
}

/// What has been written stays written: the output of a shorter run is a
/// prefix of the output of a longer one.
pub proof fn lemma_output_grows(s: MachineState, fewer: nat, more: nat)
    requires
        fewer <= more,
    ensures
        s.written(fewer).is_prefix_of(s.written(more)),
{
    let rest = (more - fewer) as nat;
    lemma_run_adds(s, fewer, rest);
    assert(fewer + rest == more);
}

/// A machine starts in a well-formed state.
pub proof fn lemma_initial_wf(memory: Seq<u8>, input: Seq<u8>)
    requires
        memory.len() == 256,
    ensures
        MachineState::initial(memory, input).wf(),
{
}

/// A transition keeps the state well-formed: sixteen registers, a flag and
/// an exhaustion mark that are 0 or 1, and a cursor within the input. It
/// changes neither the program nor the input, never moves the cursor back,
/// and never clears the exhaustion mark.
pub proof fn lemma_step_invariants(s: MachineState)
    requires
        s.wf(),
    ensures
        s.step().wf(),
        s.step().memory == s.memory,
        s.step().input == s.input,
        s.consumed <= s.step().consumed <= s.consumed + 1,
        s.input_exhausted == 1 ==> s.step().input_exhausted == 1,
{
}

/// What a transition keeps, a run of any length keeps.
pub proof fn lemma_run_invariants(s: MachineState, steps: nat)
    requires
        s.wf(),
    ensures
        s.run(steps).wf(),
        s.run(steps).memory == s.memory,
        s.run(steps).input == s.input,
        s.consumed <= s.run(steps).consumed <= s.consumed + steps,
        s.input_exhausted == 1 ==> s.run(steps).input_exhausted == 1,
    decreases steps,
{
    if steps > 0 {
        lemma_run_invariants(s, (steps - 1) as nat);
        lemma_step_invariants(s.run((steps - 1) as nat));
    }
}

/// `INC` adds one modulo 256 and sets the flag exactly when it reaches zero:
/// 255 becomes 0, with the flag set.
pub proof fn lemma_inc_wraps(s: MachineState, parameter: u8)
    requires
        s.wf(),
        s.next_is(INC, parameter),
    ensures
        s.step().registers == s.registers.update(
            rx(parameter),
            if s.registers[rx(parameter)] == 255 {
                0u8
            } else {
                (s.registers[rx(parameter)] + 1) as u8
            },
        ),
        s.step().flag == (if s.registers[rx(parameter)] == 255 {
            1u8
        } else {
            0u8
        }),
{
}

/// `DEC` takes one away modulo 256 and sets the flag exactly when it reaches
/// zero: 0 becomes 255, with the flag clear.
pub proof fn lemma_dec_wraps(s: MachineState, parameter: u8)
    requires
        s.wf(),
        s.next_is(DEC, parameter),
    ensures
        s.step().registers == s.registers.update(
            rx(parameter),
            if s.registers[rx(parameter)] == 0 {
                255u8
            } else {
                (s.registers[rx(parameter)] - 1) as u8
            },
        ),
        s.step().flag == (if s.registers[rx(parameter)] == 1 {
            1u8
        } else {
            0u8
        }),
{
}

/// `ADD` stores the sum of the two registers, less 256 where it does not fit
/// in a byte, and sets the flag exactly when it stores zero.
pub proof fn lemma_add_wraps(s: MachineState, parameter: u8)
    requires
        s.wf(),
        s.next_is(ADD, parameter),
    ensures
        ({
            let x = s.registers[rx(parameter)];
            let y = s.registers[ry(parameter)];
            let sum = if x + y >= 256 {
                (x + y - 256) as u8
            } else {
                (x + y) as u8
            };
            &&& s.step().registers == s.registers.update(rx(parameter), sum)
            &&& s.step().flag == (if sum == 0 {
                1u8
            } else {
                0u8
            })
        }),
{
}

/// `SUB` stores the difference of the two registers, plus 256 where it is
/// negative, and sets the flag exactly when the two were equal.
pub proof fn lemma_sub_wraps(s: MachineState, parameter: u8)
    requires
        s.wf(),
        s.next_is(SUB, parameter),
    ensures
        ({
            let x = s.registers[rx(parameter)];
            let y = s.registers[ry(parameter)];
            let difference = if x < y {
                (x - y + 256) as u8
            } else {
                (x - y) as u8
            };
            &&& s.step().registers == s.registers.update(rx(parameter), difference)
            &&& s.step().flag == (if x == y {
                1u8
            } else {
                0u8
            })
        }),
{
}

/// After an instruction that writes a register, the flag tells whether that
/// register now holds zero; after any other instruction the flag is clear.
/// What the flag was before plays no part.
pub proof fn lemma_flag_follows_written_register(s: MachineState, opcode: u8, parameter: u8)
    requires
        s.wf(),
        s.next_is(opcode, parameter),
        !s.names_no_register(opcode, parameter),
    ensures
        writes_register(opcode) ==> s.step().flag == (if s.step().registers[MachineState::destination(
            opcode,
            parameter,
        )] == 0 {
            1u8
        } else {
            0u8
        }),
        !writes_register(opcode) ==> s.step().flag == 0,
{
}

/// An opcode above `OUT` names no operation, and the machine passes over
/// it: it clears the flag, goes on to the next instruction, changes nothing
/// else and writes nothing.
pub proof fn lemma_unknown_opcode_is_passed_over(s: MachineState, opcode: u8, parameter: u8)
    requires
        s.next_is(opcode, parameter),
        opcode > OUT,
    ensures
        s.step() == (MachineState { flag: 0, position: s.position + 2, ..s }),
        s.emitted() == Seq::<u8>::empty(),
{
}

/// `OUT` writes the register that the low four bits of its parameter name,
/// clears the flag and goes on to the next instruction. No other
/// instruction writes anything.
pub proof fn lemma_output_comes_from_out(s: MachineState, opcode: u8, parameter: u8)
    requires
        s.next_is(opcode, parameter),
    ensures
        opcode == OUT ==> s.emitted() == seq![s.registers[rx(parameter)]] && s.step() == (
        MachineState { flag: 0, position: s.position + 2, ..s }),
        opcode != OUT ==> s.emitted() == Seq::<u8>::empty(),
{
}

/// `RET` halts the machine behind itself, with the flag clear, and changes
/// nothing else.
pub proof fn lemma_ret_halts(s: MachineState, parameter: u8)
    requires
        s.next_is(RET, parameter),
    ensures
        s.step() == (MachineState {
            flag: 0,
            position: s.position + 2,
            status: Status::Terminated(Termination::Halted),
            ..s
        }),
{
}

/// `JMP` moves the position by the displacement, counted from the jump
/// itself: parameter 2 skips the next instruction, parameter 254 goes back
/// by one instruction.
pub proof fn lemma_jmp_is_relative(s: MachineState, parameter: u8)
    requires
        s.next_is(JMP, parameter),
    ensures
        s.step().position == s.position + displacement(parameter),
        parameter == 2 ==> s.step().position == s.position + 2,
        parameter == 254 ==> s.step().position == s.position - 2,
        s.step().status == Status::Running,
{
}

/// `JZ` jumps if and only if the flag is 1, and `JNZ` if and only if it is
/// 0. The one that does not jump goes on with the next instruction.
pub proof fn lemma_conditional_jumps(s: MachineState, parameter: u8)
    requires
        s.wf(),
    ensures
        s.next_is(JZ, parameter) ==> s.step().position == (if s.flag == 1 {
            s.position + displacement(parameter)
        } else {
            s.position + 2
        }),
        s.next_is(JNZ, parameter) ==> s.step().position == (if s.flag == 0 {
            s.position + displacement(parameter)
        } else {
            s.position + 2
        }),
        s.next_is(JZ, parameter) || s.next_is(JNZ, parameter) ==> s.step().registers
            == s.registers && s.step().status == Status::Running,
{
}

/// `IN` with a byte left to read and a parameter below 16 stores that byte
/// in the register that the parameter names, and moves the cursor on by one.
pub proof fn lemma_in_reads_next_byte(s: MachineState, parameter: u8)
    requires
        s.wf(),
        s.next_is(IN, parameter),
        s.has_input(),
        parameter < 16,
    ensures
        s.step().registers == s.registers.update(parameter as int, s.input[s.consumed as int]),
        s.step().consumed == s.consumed + 1,
        s.step().input_exhausted == s.input_exhausted,
        s.step().status == Status::Running,
{
}

/// `IN` with nothing left to read leaves the registers and the cursor as
/// they are and marks the input as exhausted, whatever its parameter.
pub proof fn lemma_in_on_empty_input(s: MachineState, parameter: u8)
    requires
        s.wf(),
        s.next_is(IN, parameter),
        !s.has_input(),
    ensures
        s.step().registers == s.registers,
        s.step().consumed == s.consumed,
        s.step().input_exhausted == 1,
        s.step().status == Status::Running,
{
}

/// Once the input is read to its end, it stays so: in every later state no
/// byte is left, so every later `IN` finds none.
pub proof fn lemma_empty_input_stays_empty(s: MachineState, steps: nat)
    requires
        s.wf(),
        !s.has_input(),
    ensures
        !s.run(steps).has_input(),
{
    lemma_run_invariants(s, steps);
}

/// Once the input has been found exhausted, every `JFE` that is executed
/// later takes its jump.
pub proof fn lemma_jfe_jumps_once_exhausted(s: MachineState, steps: nat, parameter: u8)
    requires
        s.wf(),
        s.input_exhausted == 1,
        s.run(steps).next_is(JFE, parameter),
    ensures
        s.run(steps).step().position == s.run(steps).position + displacement(parameter),
{
    lemma_run_invariants(s, steps);
}

/// After the input has been read to its end, every `IN` that is executed
/// leaves the registers as they are and marks the input as exhausted; the
/// mark then stays, and every `JFE` that is executed after it takes its jump.
pub proof fn lemma_in_after_the_input_ends(
    s: MachineState,
    steps: nat,
    parameter: u8,
    later: nat,
    jump_parameter: u8,
)
    requires
        s.wf(),
        !s.has_input(),
        s.run(steps).next_is(IN, parameter),
    ensures
        s.run(steps).step().registers == s.run(steps).registers,
        s.run(steps).step().input_exhausted == 1,
        s.run(steps).step().run(later).input_exhausted == 1,
        s.run(steps).step().run(later).next_is(JFE, jump_parameter) ==> s.run(steps).step().run(
            later,
        ).step().position == s.run(steps).step().run(later).position + displacement(
            jump_parameter,
        ),
{
    let at_in = s.run(steps);
    lemma_run_invariants(s, steps);
    lemma_empty_input_stays_empty(s, steps);
    lemma_in_on_empty_input(at_in, parameter);
    lemma_step_invariants(at_in);
    lemma_run_invariants(at_in.step(), later);
}

/// An instruction is fetched inside the image only, and leaves the position
/// within 128 bytes before the image and 126 bytes behind it.
pub proof fn lemma_fetch_is_inside_image(s: MachineState, opcode: u8, parameter: u8)
    requires
        s.wf(),
        s.next_is(opcode, parameter),
    ensures
        0 <= s.position <= 254,
        opcode != 0,
        -128 <= s.step().position <= 381,
{
}

/// Every instruction takes two bytes. So a machine at an even position
/// never finds an opcode without its parameter, and stays at an even
/// position unless it takes a jump whose parameter is odd.
pub proof fn lemma_even_positions(s: MachineState, opcode: u8, parameter: u8)
    requires
        s.wf(),
        s.status == Status::Running,
        s.position % 2 == 0,
    ensures
        s.step().status != Status::Terminated(Termination::MissingParameter),
        s.next_is(opcode, parameter) && !(s.takes_jump(opcode) && parameter % 2 == 1)
            ==> s.step().position % 2 == 0,
{
}

/// A jump back by one instruction, behind an instruction that neither jumps
/// nor stops the machine, is a loop without end: the machine runs however
/// many steps it is given, and is at the jump after every second one.
pub proof fn lemma_backward_jump_loops(s: MachineState, steps: nat)
    requires
        s.wf(),
        s.next_is(JMP, 254),
        s.position >= 2,
        ({
            let before = s.memory[s.position - 2];
            &&& before != 0
            &&& before != RET
            &&& !is_jump(before)
            &&& before == IN ==> s.memory[s.position - 1] < 16
        }),
    ensures
        s.run(steps).status == Status::Running,
        s.run(steps).position == (if steps % 2 == 0 {
            s.position
        } else {
            s.position - 2
        }),
    decreases steps,
{
    if steps > 0 {
        lemma_backward_jump_loops(s, (steps - 1) as nat);
        lemma_run_invariants(s, (steps - 1) as nat);
    }
}

/// An image has 256 bytes, whatever the length of the program that was laid
/// out in it. So the first transition of a machine never ends for want of an
/// instruction or of a parameter: it finds the byte zero, or an opcode with
/// its parameter.
pub proof fn lemma_first_fetch_finds_bytes(memory: Seq<u8>, input: Seq<u8>)
    requires
        memory.len() == 256,
    ensures
        MachineState::initial(memory, input).step().status != Status::Terminated(
            Termination::InstructionsExhausted,
        ),
        MachineState::initial(memory, input).step().status != Status::Terminated(
            Termination::MissingParameter,
        ),
        memory[0] != 0 ==> MachineState::initial(memory, input).next_is(memory[0], memory[1]),
{
}

/// A machine whose position lies outside the image terminates for want of
/// instructions. Nothing else changes, and nothing is written.
pub proof fn lemma_outside_image(s: MachineState)
    requires
        s.wf(),
        s.status == Status::Running,
        s.position < 0 || s.position >= 256,
    ensures
        s.step() == (MachineState {
            status: Status::Terminated(Termination::InstructionsExhausted),
            ..s
        }),
        s.emitted() == Seq::<u8>::empty(),
{
}

/// A machine that finds the byte zero at its position terminates on an
/// undefined opcode. Nothing else changes, and nothing is written.
pub proof fn lemma_zero_is_no_opcode(s: MachineState)
    requires
        s.wf(),
        s.status == Status::Running,
        0 <= s.position < 256,
        s.memory[s.position] == 0,
    ensures
        s.step() == (MachineState {
            status: Status::Terminated(Termination::UndefinedOpcode),
            ..s
        }),
        s.emitted() == Seq::<u8>::empty(),
{
}

/// A machine that finds an opcode in the last byte of the image terminates
/// for want of a parameter. Nothing else changes, and nothing is written.
/// No other position gives this termination.
pub proof fn lemma_dangling_opcode(s: MachineState)
    requires
        s.wf(),
        s.status == Status::Running,
    ensures
        s.position == 255 && s.memory[255] != 0 ==> s.step() == (MachineState {
            status: Status::Terminated(Termination::MissingParameter),
            ..s
        }) && s.emitted() == Seq::<u8>::empty(),
        s.step().status == Status::Terminated(Termination::MissingParameter) ==> s.position == 255
            && s.memory[255] != 0,
{
}

/// A program that begins with the byte zero terminates at once on an
/// undefined opcode, with no output, whatever the input and however many
/// steps it is given.
pub proof fn lemma_zero_program(memory: Seq<u8>, input: Seq<u8>, steps: nat)
    requires
        memory.len() == 256,
        memory[0] == 0,
        steps >= 1,
    ensures
        MachineState::initial(memory, input).run(steps) == (MachineState {
            status: Status::Terminated(Termination::UndefinedOpcode),
            ..MachineState::initial(memory, input)
        }),
        MachineState::initial(memory, input).written(steps) == Seq::<u8>::empty(),
{
    let start = MachineState::initial(memory, input);
    assert(start.run(1) == start.step()) by {
        reveal_with_fuel(MachineState::run, 2);
    }
    assert(start.written(1) =~= Seq::<u8>::empty()) by {
        reveal_with_fuel(MachineState::written, 2);
    }
    lemma_enough_steps(start, 1, steps);
}

/// The program `MOVC r0, k; OUT r0; RET` writes the one byte `k` and halts,
/// whatever the input, whatever follows it in the image, and however many
/// steps beyond three it is given.
pub proof fn lemma_movc_out_ret(memory: Seq<u8>, input: Seq<u8>, k: u8, steps: nat)
    requires
        memory.len() == 256,
        memory[0] == MOVC,
        memory[1] == k,
        memory[2] == OUT,
        rx(memory[3]) == 0,
        memory[4] == RET,
        steps >= 3,
    ensures
        MachineState::initial(memory, input).written(steps) == seq![k],
        MachineState::initial(memory, input).run(steps).status == Status::Terminated(
            Termination::Halted,
        ),
{
    let start = MachineState::initial(memory, input);
    let one = start.step();
    let two = one.step();
    let three = two.step();
    assert(start.next_is(MOVC, k));
    assert(one.next_is(OUT, memory[3]));
    assert(two.next_is(RET, memory[5]));
    assert(start.run(3) == three) by {
        reveal_with_fuel(MachineState::run, 4);
    }
    assert(start.written(3) =~= seq![k]) by {
        reveal_with_fuel(MachineState::run, 4);
        reveal_with_fuel(MachineState::written, 4);
    }
    lemma_enough_steps(start, 3, steps);
}

} // verus!
