use vstd::prelude::*;

verus! {

/// A 32-byte value: a coin identifier, a puzzle hash or an asset identifier.
#[derive(Clone, Copy, Debug, PartialEq, Eq, Hash)]
pub struct Bytes32 {
    pub bytes: [u8; 32],
}

impl View for Bytes32 {
    type V = Seq<u8>;

    open spec fn view(&self) -> Seq<u8> {
        self.bytes@
    }
}

impl Bytes32 {
    pub fn new(bytes: [u8; 32]) -> (r: Bytes32)
        ensures
            r@ == bytes@,
            r.bytes == bytes,
    {
        Bytes32 { bytes }
    }

    /// Whether two values hold the same 32 bytes.
    pub fn same(&self, other: &Bytes32) -> (r: bool)
        ensures
            r == (self@ == other@),
    {
        let mut i: usize = 0;
        while i < 32
            invariant
                i <= 32,
                forall|j: int| 0 <= j < i ==> self.bytes@[j] == other.bytes@[j],
            decreases 32 - i,
        {
            if self.bytes[i] != other.bytes[i] {
                return false;
            }
            i = i + 1;
        }
        assert(self@ =~= other@);
        true
    }
}

/// The bytes of `value` as a vector.
pub fn to_vec(value: &Bytes32) -> (r: Vec<u8>)
    ensures
        r@ == value@,
{
    let mut out: Vec<u8> = Vec::new();
    let mut i: usize = 0;
    while i < 32
        invariant
            i <= 32,
            out@.len() == i,
            forall|j: int| 0 <= j < i ==> out@[j] == value.bytes@[j],
        decreases 32 - i,
    {
        out.push(value.bytes[i]);
        i = i + 1;
    }
    assert(out@ =~= value@);
    out
}

/// The views of a sequence of 32-byte values, in order.
pub open spec fn views_of(hashes: Seq<Bytes32>) -> Seq<Seq<u8>> {
    hashes.map_values(|h: Bytes32| h@)
}

/// Whether `list` holds a value with the bytes of `needle`.
pub fn contains_hash(list: &Vec<Bytes32>, needle: &Bytes32) -> (r: bool)
    ensures
        r == exists|i: int| 0 <= i < list@.len() && (#[trigger] list@[i])@ == needle@,
{
    let mut i: usize = 0;
    while i < list.len()
        invariant
            i <= list@.len(),
            forall|j: int| 0 <= j < i ==> (#[trigger] list@[j])@ != needle@,
        decreases list@.len() - i,
    {
        if list[i].same(needle) {
            return true;
        }
        i = i + 1;
    }
    false
}

} // verus!
