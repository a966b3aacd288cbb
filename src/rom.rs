use vstd::prelude::*;

verus! {

/// A program image, copied into memory from the program base on start-up.
pub struct ROM {
    pub buffer: Vec<u8>,
}

impl ROM {
    /// Wraps the bytes of a program image.
    pub fn from_bytes(buffer: Vec<u8>) -> (r: ROM)
        ensures
            r.buffer@ == buffer@,
    {
        ROM { buffer }
    }
}

} // verus!
