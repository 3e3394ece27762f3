use vstd::prelude::*;

verus! {

/// The msgpack-encoded arguments or result of an invocation, as the C
/// interface hands them over.
#[derive(Clone, Debug)]
pub struct ArgsBuffer {
    pub data: Vec<u8>,
}

impl ArgsBuffer {
    pub fn new(data: Vec<u8>) -> (res: ArgsBuffer)
        ensures
            res.data == data,
    {
        ArgsBuffer { data }
    }

    /// The number of bytes in the buffer.
    pub fn len(&self) -> (res: usize)
        ensures
            res == self.data@.len(),
    {
        self.data.len()
    }
}

} // verus!
