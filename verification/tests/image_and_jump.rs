use bytecode_vm::image::load_image;
use bytecode_vm::vm::VirtualMachine;

#[test]
fn short_program_is_followed_by_zeros() {
    let image = load_image(&[0x04, 0x41, 0x11]);
    assert_eq!(image.len(), 256);
    assert_eq!(&image[..3], &[0x04, 0x41, 0x11]);
    assert!(image[3..].iter().all(|byte| *byte == 0));
}

#[test]
fn empty_program_gives_an_image_of_zeros() {
    assert_eq!(load_image(&[]), [0u8; 256]);
}

#[test]
fn program_of_256_bytes_is_its_own_image() {
    let mut program = [0u8; 256];
    for i in 0..256 {
        program[i] = (255 - i) as u8;
    }
    assert_eq!(load_image(&program), program);
}

#[test]
fn bytes_beyond_the_image_are_left_out() {
    let mut program = vec![0xEEu8; 300];
    program[255] = 0x11;
    program[256] = 0x22;
    let image = load_image(&program);
    assert_eq!(image[254], 0xEE);
    assert_eq!(image[255], 0x11);
    assert_eq!(image.len(), 256);
}

#[test]
fn jump_forward_counts_from_the_jump() {
    let vm = VirtualMachine::new([0u8; 256], vec![]);
    let mut position: isize = 12;
    vm.jump(&mut position, 2);
    assert_eq!(position, 12);
    vm.jump(&mut position, 0);
    assert_eq!(position, 10);
    vm.jump(&mut position, 127);
    assert_eq!(position, 135);
}

#[test]
fn jump_backward_counts_from_the_jump() {
    let vm = VirtualMachine::new([0u8; 256], vec![]);
    let mut position: isize = 12;
    vm.jump(&mut position, 254);
    assert_eq!(position, 8);
    vm.jump(&mut position, 255);
    assert_eq!(position, 5);
    vm.jump(&mut position, 128);
    assert_eq!(position, -125);
}

#[test]
fn jump_may_leave_the_image_on_either_side() {
    let vm = VirtualMachine::new([0u8; 256], vec![]);
    let mut position: isize = 2;
    vm.jump(&mut position, 128);
    assert_eq!(position, -128);
    let mut position: isize = 256;
    vm.jump(&mut position, 127);
    assert_eq!(position, 381);
}

#[test]
fn new_takes_the_image_as_it_is() {
    let mut image = [0u8; 256];
    image[0] = 0x11;
    image[1] = 0x03;
    image[2] = 0x0B;
    let mut vm = VirtualMachine::new(image, vec![5, 6]);
    let mut output = Vec::new();
    vm.run(&mut output, 5);
    assert_eq!(output, vec![0]);
    assert_eq!(vm.position(), 4);
}
