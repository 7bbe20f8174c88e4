use bytecode_vm::image::load_image;
use bytecode_vm::status::{Status, Termination};
use bytecode_vm::vm::VirtualMachine;

fn run_program(program: &[u8], input: &[u8], max_steps: u64) -> (VirtualMachine, Vec<u8>, Status) {
    let mut vm = VirtualMachine::new(load_image(program), input.to_vec());
    let mut output = Vec::new();
    let status = vm.run(&mut output, max_steps);
    (vm, output, status)
}

#[test]
fn movc_out_ret_writes_the_letter_a() {
    let program = [0x04, 0x41, 0x11, 0x00, 0x0B, 0x00];
    let (_, output, status) = run_program(&program, &[], 1000);
    assert_eq!(output, vec![0x41]);
    assert_eq!(status, Status::Terminated(Termination::Halted));
}

#[test]
fn movc_out_ret_ignores_the_input() {
    let program = [0x04, 0x41, 0x11, 0x00, 0x0B, 0x00];
    let (vm, output, status) = run_program(&program, &[1, 2, 3, 4, 5], 1000);
    assert_eq!(output, vec![0x41]);
    assert_eq!(status, Status::Terminated(Termination::Halted));
    assert_eq!(vm.consumed(), 0);
    assert_eq!(vm.input_exhausted(), 0);
}

#[test]
fn movc_out_ret_writes_every_constant() {
    for k in 0..=255u8 {
        let program = [0x04, k, 0x11, 0x00, 0x0B, 0x00];
        let (_, output, status) = run_program(&program, &[9], 3);
        assert_eq!(output, vec![k]);
        assert_eq!(status, Status::Terminated(Termination::Halted));
    }
}

#[test]
fn movc_out_ret_with_other_bytes_in_the_unused_fields() {
    // OUT reads only the low four bits of its parameter, RET reads none.
    let program = [0x04, 0x7E, 0x11, 0xF0, 0x0B, 0xAB, 0x11, 0x00];
    let (_, output, status) = run_program(&program, &[], 50);
    assert_eq!(output, vec![0x7E]);
    assert_eq!(status, Status::Terminated(Termination::Halted));
}

#[test]
fn output_is_appended_to_what_the_buffer_holds() {
    let mut vm = VirtualMachine::new(load_image(&[0x04, 0x41, 0x11, 0x00, 0x0B, 0x00]), vec![]);
    let mut output = vec![7, 8];
    let status = vm.run(&mut output, 10);
    assert_eq!(output, vec![7, 8, 0x41]);
    assert_eq!(status, Status::Terminated(Termination::Halted));
}

#[test]
fn echo_copies_the_input_until_it_ends() {
    // 0: IN r1   2: JFE +6   4: OUT r1   6: JMP -6   8: RET
    let program = [0x10, 0x01, 0x0A, 0x06, 0x11, 0x01, 0x07, 0xFA, 0x0B, 0x00];
    let (vm, output, status) = run_program(&program, b"hi!", 1000);
    assert_eq!(output, b"hi!".to_vec());
    assert_eq!(status, Status::Terminated(Termination::Halted));
    assert_eq!(vm.consumed(), 3);
    assert_eq!(vm.input_exhausted(), 1);
    assert_eq!(vm.registers()[1], b'!');
    assert_eq!(vm.position(), 10);
}

#[test]
fn echo_of_empty_input_writes_nothing() {
    let program = [0x10, 0x01, 0x0A, 0x06, 0x11, 0x01, 0x07, 0xFA, 0x0B, 0x00];
    let (vm, output, status) = run_program(&program, &[], 1000);
    assert_eq!(output, Vec::<u8>::new());
    assert_eq!(status, Status::Terminated(Termination::Halted));
    assert_eq!(vm.registers(), [0u8; 16]);
}

#[test]
fn countdown_writes_three_two_one() {
    // 0: MOVC 3   2: OUT r0   4: DEC r0   6: JNZ -4   8: RET
    let program = [0x04, 0x03, 0x11, 0x00, 0x02, 0x00, 0x09, 0xFC, 0x0B, 0x00];
    let (vm, output, status) = run_program(&program, &[], 1000);
    assert_eq!(output, vec![3, 2, 1]);
    assert_eq!(status, Status::Terminated(Termination::Halted));
    assert_eq!(vm.registers()[0], 0);
}

#[test]
fn countdown_takes_eleven_steps() {
    let program = [0x04, 0x03, 0x11, 0x00, 0x02, 0x00, 0x09, 0xFC, 0x0B, 0x00];
    let (_, output, status) = run_program(&program, &[], 10);
    assert_eq!(output, vec![3, 2, 1]);
    assert_eq!(status, Status::Running);
    let (_, output, status) = run_program(&program, &[], 11);
    assert_eq!(output, vec![3, 2, 1]);
    assert_eq!(status, Status::Terminated(Termination::Halted));
}

#[test]
fn run_with_no_steps_changes_nothing() {
    let (vm, output, status) = run_program(&[0x04, 0x41, 0x11, 0x00, 0x0B, 0x00], &[], 0);
    assert_eq!(status, Status::Running);
    assert_eq!(output, Vec::<u8>::new());
    assert_eq!(vm.position(), 0);
    assert_eq!(vm.registers(), [0u8; 16]);
}

#[test]
fn run_resumes_where_the_steps_ran_out() {
    let program = [0x04, 0x03, 0x11, 0x00, 0x02, 0x00, 0x09, 0xFC, 0x0B, 0x00];
    let mut vm = VirtualMachine::new(load_image(&program), vec![]);
    let mut output = Vec::new();
    assert_eq!(vm.run(&mut output, 2), Status::Running);
    assert_eq!(output, vec![3]);
    assert_eq!(vm.position(), 4);
    assert_eq!(vm.run(&mut output, 4), Status::Running);
    assert_eq!(output, vec![3, 2]);
    assert_eq!(vm.run(&mut output, 100), Status::Terminated(Termination::Halted));
    assert_eq!(output, vec![3, 2, 1]);
}

#[test]
fn run_in_pieces_equals_run_at_once() {
    let program = [0x10, 0x01, 0x0A, 0x06, 0x11, 0x01, 0x07, 0xFA, 0x0B, 0x00];
    let input = b"pieces";
    let (whole, whole_output, whole_status) = run_program(&program, input, 17);
    let mut vm = VirtualMachine::new(load_image(&program), input.to_vec());
    let mut output = Vec::new();
    vm.run(&mut output, 5);
    let status = vm.run(&mut output, 12);
    assert_eq!(output, whole_output);
    assert_eq!(status, whole_status);
    assert_eq!(vm.registers(), whole.registers());
    assert_eq!(vm.position(), whole.position());
    assert_eq!(vm.consumed(), whole.consumed());
    assert_eq!(vm.flag(), whole.flag());
}

#[test]
fn more_steps_than_needed_change_nothing() {
    let program = [0x04, 0x03, 0x11, 0x00, 0x02, 0x00, 0x09, 0xFC, 0x0B, 0x00];
    let (exact, exact_output, exact_status) = run_program(&program, &[], 11);
    let (ample, ample_output, ample_status) = run_program(&program, &[], u64::MAX);
    assert_eq!(exact_output, ample_output);
    assert_eq!(exact_status, ample_status);
    assert_eq!(exact.registers(), ample.registers());
    assert_eq!(exact.position(), ample.position());
    assert_eq!(exact.flag(), ample.flag());
}

#[test]
fn jump_to_itself_never_ends() {
    let (vm, output, status) = run_program(&[0x07, 0x00], &[], 100_000);
    assert_eq!(status, Status::Running);
    assert_eq!(output, Vec::<u8>::new());
    assert_eq!(vm.position(), 0);
}

#[test]
fn backward_jump_repeats_the_instruction_before_it() {
    // 0: INC r0   2: JMP -2
    let (vm, _, status) = run_program(&[0x01, 0x00, 0x07, 0xFE], &[], 600);
    assert_eq!(status, Status::Running);
    assert_eq!(vm.registers()[0], (300 % 256) as u8);
    assert_eq!(vm.position(), 0);
}

#[test]
fn a_halted_machine_stays_halted() {
    // The OUT behind RET would write a byte if it were executed.
    let program = [0x04, 0x41, 0x0B, 0x00, 0x11, 0x00, 0x0B, 0x00];
    let mut vm = VirtualMachine::new(load_image(&program), vec![]);
    let mut output = Vec::new();
    assert_eq!(vm.run(&mut output, 10), Status::Terminated(Termination::Halted));
    let position = vm.position();
    assert_eq!(position, 4);
    assert_eq!(vm.step(&mut output), Status::Terminated(Termination::Halted));
    assert_eq!(vm.run(&mut output, 10), Status::Terminated(Termination::Halted));
    assert_eq!(vm.position(), position);
    assert_eq!(output, Vec::<u8>::new());
    assert_eq!(vm.status(), Status::Terminated(Termination::Halted));
}
