use vstd::prelude::*;

verus! {

/// The byte-addressed data memory of a hart.
pub struct Memory {
    pub bytes: Vec<u8>,
}

impl Memory {
    /// An empty memory.
    pub fn new() -> (m: Memory)
        ensures
            m.bytes@ == Seq::<u8>::empty(),
    {
        Memory { bytes: Vec::new() }
    }
}

} // verus!
