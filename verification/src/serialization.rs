//! The sink side of the writer: a capability that accepts byte blocks and
//! commits each one as a single indivisible unit.

use vstd::prelude::*;

verus! {

/// A sink that accepts byte blocks. Each `write_atomic` call must land in
/// the sink as one indivisible unit: an implementation backed by a stream
/// shared between concurrent writers must guarantee that no two calls
/// interleave their bytes and that no reader ever observes a partially
/// written block.
pub trait SerializationSink: Sized {
    /// The bytes the sink has accepted so far, in order.
    spec fn bytes(&self) -> Seq<u8>;

    /// Append `data` to the sink as one atomic unit.
    fn write_atomic(&mut self, data: &[u8])
        ensures
            final(self).bytes() == old(self).bytes() + data@,
    ;
}

/// An in-memory sink: collects everything written into a single buffer.
pub struct VecSink {
    data: Vec<u8>,
}

impl VecSink {
    /// A fresh sink holding no bytes.
    pub fn new() -> (sink: VecSink)
        ensures
            sink.bytes() == Seq::<u8>::empty(),
    {
        VecSink { data: Vec::new() }
    }

    /// Hand out everything written so far.
    pub fn into_bytes(self) -> (bytes: Vec<u8>)
        ensures
            bytes@ == self.bytes(),
    {
        self.data
    }
}

impl SerializationSink for VecSink {
    closed spec fn bytes(&self) -> Seq<u8> {
        self.data@
    }

    fn write_atomic(&mut self, data: &[u8]) {
        let mut i: usize = 0;
        while i < data.len()
            invariant
                i <= data@.len(),
                self.data@ == old(self).data@ + data@.subrange(0, i as int),
            decreases data@.len() - i,
        {
            let b: u8 = *vstd::slice::slice_index_get(data, i);
            self.data.push(b);
            proof {
                assert(old(self).data@ + data@.subrange(0, i as int) + seq![data@[i as int]]
                    =~= old(self).data@ + data@.subrange(0, i + 1));
            }
            i = i + 1;
        }
        proof {
            assert(data@.subrange(0, data@.len() as int) =~= data@);
        }
    }
}

} // verus!
