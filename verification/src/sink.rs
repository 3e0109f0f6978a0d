use vstd::prelude::*;

verus! {

/// A growable in-memory byte sink: the destination a renderable value writes
/// into. A sink accepts partial writes and only ever appends; bytes already
/// written are never changed.
pub struct Sink {
    data: Vec<u8>,
}

impl View for Sink {
    type V = Seq<u8>;

    closed spec fn view(&self) -> Seq<u8> {
        self.data@
    }
}

impl Sink {
    /// An empty sink.
    pub fn new() -> (r: Sink)
        ensures
            r@ == Seq::<u8>::empty(),
    {
        Sink { data: Vec::new() }
    }

    /// The number of bytes received so far.
    pub fn len(&self) -> (r: usize)
        ensures
            r == self@.len(),
    {
        self.data.len()
    }

    /// Appends `bytes` to the sink, leaving everything already written as it
    /// was.
    pub fn write_bytes(&mut self, bytes: &[u8])
        ensures
            final(self)@ == old(self)@ + bytes@,
    {
        let mut i: usize = 0;
        while i < bytes.len()
            invariant
                i <= bytes.len(),
                self@ == old(self)@ + bytes@.take(i as int),
            decreases bytes.len() - i,
        {
            self.data.push(bytes[i]);
            proof {
                assert(old(self)@ + bytes@.take(i as int) + seq![bytes@[i as int]]
                    =~= old(self)@ + bytes@.take(i as int + 1));
            }
            i = i + 1;
        }
        proof {
            assert(bytes@.take(bytes@.len() as int) =~= bytes@);
        }
    }

    /// Hands the received bytes out, consuming the sink.
    pub fn into_bytes(self) -> (r: Vec<u8>)
        ensures
            r@ == self@,
    {
        self.data
    }
}

} // verus!
