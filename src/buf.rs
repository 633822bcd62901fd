//! An immutable byte buffer shared by reference counting.
use vstd::prelude::*;
use std::sync::Arc;

verus! {

/// An immutable byte buffer. Cloning shares the bytes; nothing copies them.
#[derive(Debug)]
pub struct Buf {
    data: Arc<Vec<u8>>,
}

impl View for Buf {
    type V = Seq<u8>;

    closed spec fn view(&self) -> Seq<u8> {
        self.data@
    }
}

/// Relies on `Arc::clone`: the clone points to the same value.
#[verifier::external_body]
fn share_bytes(a: &Arc<Vec<u8>>) -> (r: Arc<Vec<u8>>)
    ensures
        r@ == a@,
{
    Arc::clone(a)
}

impl Buf {
    /// A buffer of `size` zero bytes; none when `size`, rounded up to a
    /// multiple of 8, would exceed `isize::MAX`.
    pub fn new(size: usize) -> (r: Option<Buf>)
        ensures
            r.is_some() <==> size <= isize::MAX - 7,
            r.is_some() ==> r.unwrap()@ == Seq::new(size as nat, |i: int| 0u8),
    {
        if size > (isize::MAX as usize) - 7 {
            return None;
        }
        let mut v: Vec<u8> = Vec::new();
        let mut i: usize = 0;
        while i < size
            invariant
                i <= size,
                v@ == Seq::new(i as nat, |j: int| 0u8),
            decreases size - i,
        {
            v.push(0u8);
            i = i + 1;
            assert(v@ =~= Seq::new(i as nat, |j: int| 0u8));
        }
        Some(Buf { data: Arc::new(v) })
    }

    /// A buffer holding a copy of `vec`'s bytes.
    pub fn from_vec(vec: &Vec<u8>) -> (r: Option<Buf>)
        ensures
            r.is_some(),
            r.unwrap()@ == vec@,
    {
        Some(Buf::from_bytes(vec.clone()))
    }

    /// A buffer that takes over `bytes`.
    pub fn from_bytes(bytes: Vec<u8>) -> (r: Buf)
        ensures
            r@ == bytes@,
    {
        Buf { data: Arc::new(bytes) }
    }

    /// The number of bytes.
    pub fn len(&self) -> (r: usize)
        ensures
            r == self@.len(),
    {
        self.data.len()
    }

    /// The bytes.
    pub fn get_data(&self) -> (r: &[u8])
        ensures
            r@ == self@,
    {
        self.data.as_slice()
    }

    /// A second handle on the same bytes.
    pub fn share(&self) -> (r: Buf)
        ensures
            r@ == self@,
    {
        Buf { data: share_bytes(&self.data) }
    }
}

} // verus!
