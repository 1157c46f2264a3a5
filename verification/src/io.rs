//! Byte sources and byte sinks, with in-memory implementations.

use vstd::prelude::*;

verus! {

/// A source of bytes.
pub trait Read {
    /// The error that the source reports.
    type Error;

    /// The bytes that the source has yet to deliver. An implementation that
    /// says nothing of them is held to deliver none.
    open spec fn pending(&self) -> Seq<u8> {
        Seq::empty()
    }

    /// Whether the source fails only when it holds too few bytes, as a
    /// buffer in memory does. A source that may fail for other reasons, such
    /// as a socket, is not reliable, and that is what an implementation is
    /// held to be unless it says otherwise.
    open spec fn reliable(&self) -> bool {
        false
    }

    /// Fills `data` with the next `data.len()` bytes of the source.
    ///
    /// On success the buffer holds those bytes and the source has moved past
    /// them. The buffer never changes its length. A reliable source succeeds
    /// exactly when it holds enough bytes, and stays reliable.
    fn read_exact(&mut self, data: &mut [u8]) -> (r: Result<(), Self::Error>)
        ensures
            final(data)@.len() == old(data)@.len(),
            r is Ok ==> old(data)@.len() <= old(self).pending().len(),
            r is Ok ==> final(data)@ == old(self).pending().take(old(data)@.len() as int),
            r is Ok ==> final(self).pending() == old(self).pending().skip(old(data)@.len() as int),
            old(self).reliable() ==> final(self).reliable(),
            old(self).reliable() ==> (r is Ok <==> old(data)@.len() <= old(self).pending().len()),
    ;
}

/// A sink for bytes.
pub trait Write {
    /// The error that the sink reports.
    type Error;

    /// The bytes that the sink has accepted so far. An implementation that
    /// says nothing of them is held to keep none.
    open spec fn written(&self) -> Seq<u8> {
        Seq::empty()
    }

    /// Whether the sink accepts whatever it is given, as a growing buffer
    /// in memory does. An implementation is held not to be unless it says
    /// otherwise.
    open spec fn reliable(&self) -> bool {
        false
    }

    /// Appends all of `data` to the sink. A reliable sink succeeds and stays
    /// reliable.
    fn write_all(&mut self, data: &[u8]) -> (r: Result<(), Self::Error>)
        ensures
            r is Ok ==> final(self).written() == old(self).written() + data@,
            old(self).reliable() ==> r is Ok && final(self).reliable(),
    ;
}

/// The source ran out of bytes before the buffer was full.
#[derive(Copy, Clone, Debug, PartialEq, Eq, Structural)]
pub struct EndOfFile;

/// A slice is a byte source that shrinks from the front as it is read.
impl<'a> Read for &'a [u8] {
    type Error = EndOfFile;

    open spec fn pending(&self) -> Seq<u8> {
        (*self)@
    }

    open spec fn reliable(&self) -> bool {
        true
    }

    /// A failed read consumes nothing and leaves the buffer as it was.
    fn read_exact(&mut self, data: &mut [u8]) -> (r: Result<(), EndOfFile>)
        ensures
            r is Err ==> final(self).pending() == old(self).pending() && final(data)@ == old(data)@,
    {
        let n: usize = data.len();
        if n > self.len() {
            return Err(EndOfFile);
        }
        let (head, tail) = self.split_at(n);
        let mut i: usize = 0;
        while i < n
            invariant
                i <= n,
                n == data@.len(),
                n == head@.len(),
                forall|j: int| 0 <= j < i ==> data@[j] == head@[j],
            decreases n - i,
        {
            data[i] = head[i];
            i += 1;
        }
        *self = tail;
        assert(data@ =~= old(self).pending().take(n as int));
        assert(self.pending() =~= old(self).pending().skip(n as int));
        Ok(())
    }
}

impl Write for Vec<u8> {
    type Error = core::convert::Infallible;

    open spec fn written(&self) -> Seq<u8> {
        self@
    }

    open spec fn reliable(&self) -> bool {
        true
    }

    fn write_all(&mut self, data: &[u8]) -> (r: Result<(), core::convert::Infallible>) {
        self.extend_from_slice(data);
        assert(self@ =~= old(self)@ + data@);
        Ok(())
    }
}

} // verus!
