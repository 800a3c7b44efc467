//! What the sample program exercises: vectors that outgrow their first block.
use vstd::prelude::*;

verus! {

/// A small record of the sample program. Here it has the natural alignment of its
/// fields; the program's own copy of it is laid out on 0x400 bytes.
#[derive(Clone, Copy, Debug, PartialEq, Eq, Structural)]
pub struct AlignedHigher {
    pub a: u8,
    pub b: u16,
    pub c: u32,
}

impl Default for AlignedHigher {
    fn default() -> (r: AlignedHigher)
        ensures
            r == (AlignedHigher { a: 0, b: 0, c: 0 }),
    {
        AlignedHigher { a: 0, b: 0, c: 0 }
    }
}

/// The value that `default` gives.
pub open spec fn zero_record() -> AlignedHigher {
    AlignedHigher { a: 0, b: 0, c: 0 }
}

/// Makes a vector of records with room for two, fills it, allocates a second
/// vector of 2345 copies of 123, and pushes a third record into the first, which
/// makes it grow. Returns both vectors.
pub fn test_realloc() -> (r: (Vec<AlignedHigher>, Vec<i32>))
    ensures
        r.0@ == seq![zero_record(), zero_record(), zero_record()],
        r.1@.len() == 2345,
        forall|i: int| 0 <= i < 2345 ==> #[trigger] r.1@[i] == 123,
{
    let mut v1: Vec<AlignedHigher> = Vec::with_capacity(2);
    v1.push(AlignedHigher::default());
    v1.push(AlignedHigher::default());
    let v2: Vec<i32> = vec![123; 2345];
    v1.push(AlignedHigher::default());
    (v1, v2)
}

} // verus!
