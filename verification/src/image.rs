//! From a program of any length to the image that a machine executes.
use vstd::prelude::*;

verus! {

/// The image that a program stands for: its first 256 bytes, and zeros
/// after them where it has fewer.
pub open spec fn image_of(program: Seq<u8>) -> Seq<u8> {
    Seq::new(
        256,
        |i: int|
            if i < program.len() {
                program[i]
            } else {
                0u8
            },
    )
}

/// Lays a program out as an image.
pub fn load_image(program: &[u8]) -> (image: [u8; 256])
    ensures
        image@ == image_of(program@),
{
    let mut image: [u8; 256] = [0; 256];
    let mut i: usize = 0;
    while i < 256 && i < program.len()
        invariant
            i <= 256,
            i <= program.len(),
            forall|j: int| 0 <= j < i ==> image@[j] == program@[j],
            forall|j: int| i <= j < 256 ==> image@[j] == 0,
        decreases 256 - i,
    {
        image[i] = program[i];
        i = i + 1;
    }
    assert(image@ =~= image_of(program@));
    image
}

} // verus!
