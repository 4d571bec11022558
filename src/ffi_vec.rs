use vstd::prelude::*;

verus! {

/// An owned byte buffer that crosses the guest/host boundary as one value.
///
/// Whoever holds the handle owns the bytes; `into_vec` gives them back to the
/// holder, which then releases them when the vector is dropped.
pub struct FfiVec {
    data: Vec<u8>,
}

impl View for FfiVec {
    type V = Seq<u8>;

    closed spec fn view(&self) -> Seq<u8> {
        self.data@
    }
}

impl FfiVec {
    /// Takes ownership of `vec`; the handle holds exactly its bytes.
    pub fn from_vec(vec: Vec<u8>) -> (r: FfiVec)
        ensures
            r@ == vec@,
    {
        FfiVec { data: vec }
    }

    /// Gives the bytes back to the holder of the handle, consuming it.
    pub fn into_vec(self) -> (r: Vec<u8>)
        ensures
            r@ == self@,
    {
        self.data
    }

    /// The number of bytes held.
    pub fn len(&self) -> (r: usize)
        ensures
            r == self@.len(),
    {
        self.data.len()
    }

    /// Whether the handle holds no bytes.
    pub fn is_empty(&self) -> (r: bool)
        ensures
            r == (self@.len() == 0),
    {
        self.data.len() == 0
    }

    /// Borrows the bytes held.
    pub fn as_slice(&self) -> (r: &[u8])
        ensures
            r@ == self@,
    {
        self.data.as_slice()
    }
}

} // verus!
