use vstd::prelude::*;

verus! {

/// A blocking byte stream, as the protocol needs one: exact-length reads
/// and whole-buffer writes. `incoming` models the bytes still queued for
/// this side to read, `outgoing` the bytes this side has written so far.
/// An implementation may fail any call; what a successful call did to the
/// two streams is pinned down here.
pub trait Transport: Sized {
    /// The bytes still queued for reading. The default model is the empty
    /// stream; a transport outside the verified world may leave it at that.
    open spec fn incoming(&self) -> Seq<u8> {
        Seq::empty()
    }

    /// The bytes written so far. The default model is the empty stream; a
    /// transport outside the verified world may leave it at that.
    open spec fn outgoing(&self) -> Seq<u8> {
        Seq::empty()
    }

    /// Reads exactly `n` bytes, blocking until they are all there.
    fn read_exact_bytes(&mut self, n: usize) -> (r: Result<Vec<u8>, std::io::Error>)
        ensures
            final(self).outgoing() == old(self).outgoing(),
            r matches Ok(bytes) ==> n <= old(self).incoming().len() && bytes@ == old(
                self,
            ).incoming().take(n as int) && final(self).incoming() == old(self).incoming().skip(
                n as int,
            ),
    ;

    /// Writes the whole buffer; a partial write is a failure.
    fn write_all_bytes(&mut self, bytes: &Vec<u8>) -> (r: Result<(), std::io::Error>)
        ensures
            final(self).incoming() == old(self).incoming(),
            r is Ok ==> final(self).outgoing() == old(self).outgoing() + bytes@,
    ;
}

/// Relies on std::io::Error::new: builds the error a too-short in-memory
/// stream reports.
#[verifier::external_body]
fn unexpected_eof_error() -> std::io::Error {
    std::io::Error::new(std::io::ErrorKind::UnexpectedEof, "not enough buffered bytes")
}

/// An in-memory byte stream: reads come from a fixed input buffer, writes
/// collect into an output buffer. The verified stand-in for a socket, and
/// the transport the tests run the protocol over.
pub struct MemoryTransport {
    input: Vec<u8>,
    read_pos: usize,
    output: Vec<u8>,
}

impl MemoryTransport {
    /// A stream that will yield exactly `input` to reads and has written
    /// nothing yet.
    pub fn with_input(input: Vec<u8>) -> (r: Self)
        ensures
            r.incoming() == input@,
            r.outgoing() == Seq::<u8>::empty(),
    {
        MemoryTransport { input: input, read_pos: 0, output: Vec::new() }
    }

    /// Hands back everything written to this stream.
    pub fn take_output(self) -> (r: Vec<u8>)
        ensures
            r@ == self.outgoing(),
    {
        self.output
    }
}

impl Transport for MemoryTransport {
    closed spec fn incoming(&self) -> Seq<u8> {
        if self.read_pos <= self.input@.len() {
            self.input@.skip(self.read_pos as int)
        } else {
            Seq::empty()
        }
    }

    closed spec fn outgoing(&self) -> Seq<u8> {
        self.output@
    }

    fn read_exact_bytes(&mut self, n: usize) -> (r: Result<Vec<u8>, std::io::Error>) {
        if n == 0 {
            let bytes: Vec<u8> = Vec::new();
            assert(bytes@ =~= old(self).incoming().take(0));
            assert(self.incoming() =~= old(self).incoming().skip(0));
            return Ok(bytes);
        }
        if self.read_pos > self.input.len() || n > self.input.len() - self.read_pos {
            return Err(unexpected_eof_error());
        }
        let bytes = vstd::slice::slice_to_vec(
            vstd::slice::slice_subrange(self.input.as_slice(), self.read_pos, self.read_pos + n),
        );
        self.read_pos = self.read_pos + n;
        assert(bytes@ =~= old(self).incoming().take(n as int));
        assert(self.incoming() =~= old(self).incoming().skip(n as int));
        Ok(bytes)
    }

    fn write_all_bytes(&mut self, bytes: &Vec<u8>) -> (r: Result<(), std::io::Error>) {
        let mut to_append = bytes.clone();
        self.output.append(&mut to_append);
        Ok(())
    }
}

} // verus!
