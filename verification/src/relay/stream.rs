//! Byte streams that a relay reads from and writes to.

use vstd::prelude::*;

verus! {

/// A byte stream, as far as the relay uses it: one finite run of bytes to
/// read, and bytes to write.
///
/// An operation that fails may leave the stream in any state.
pub trait ByteStream {
    /// The bytes that reading has still to deliver.
    spec fn unread(&self) -> Seq<u8>;

    /// The bytes that writing has delivered so far.
    spec fn written(&self) -> Seq<u8>;

    /// Whether the end of what is written has been announced.
    spec fn finished(&self) -> bool;

    /// Whether a stream of this type can deliver the first `n` of the bytes
    /// ahead when it is asked for up to `room`.
    spec fn may_deliver(ahead: Seq<u8>, room: nat, n: nat) -> bool;

    /// Whether an operation on a stream of this type can fail with this text.
    spec fn may_fail_with(text: Seq<char>) -> bool;

    /// Read some of the bytes ahead into the front of `buf` and return how
    /// many, zero only if there are none left or `buf` is empty.
    fn read(&mut self, buf: &mut [u8]) -> (result: Result<usize, String>)
        ensures
            final(buf)@.len() == old(buf)@.len(),
            result matches Err(text) ==> Self::may_fail_with(text@),
            result matches Ok(n) ==> {
                &&& Self::may_deliver(old(self).unread(), old(buf)@.len(), n as nat)
                &&& n <= old(buf)@.len()
                &&& n <= old(self).unread().len()
                &&& n == 0 ==> old(self).unread().len() == 0 || old(buf)@.len() == 0
                &&& final(buf)@ == old(self).unread().take(n as int) + old(buf)@.skip(n as int)
                &&& final(self).unread() == old(self).unread().skip(n as int)
                &&& final(self).written() == old(self).written()
                &&& final(self).finished() == old(self).finished()
            },
    ;

    /// Write all of `buf`.
    fn write_all(&mut self, buf: &[u8]) -> (result: Result<(), String>)
        ensures
            result matches Err(text) ==> Self::may_fail_with(text@),
            result is Ok ==> {
                &&& final(self).written() == old(self).written() + buf@
                &&& final(self).unread() == old(self).unread()
                &&& final(self).finished() == old(self).finished()
            },
    ;

    /// Announce that nothing more will be written.
    fn finish(&mut self) -> (result: Result<(), String>)
        ensures
            result matches Err(text) ==> Self::may_fail_with(text@),
            result is Ok ==> {
                &&& final(self).written() == old(self).written()
                &&& final(self).unread() == old(self).unread()
                &&& final(self).finished()
            },
    ;
}

/// What can be told of a [`ByteStream`].
#[verifier::ext_equal]
pub struct StreamState {
    pub unread: Seq<u8>,
    pub written: Seq<u8>,
    pub finished: bool,
}

/// The state of a stream.
pub open spec fn state_of<S: ByteStream>(stream: S) -> StreamState {
    StreamState {
        unread: stream.unread(),
        written: stream.written(),
        finished: stream.finished(),
    }
}

/// Lightweight in-memory [`ByteStream`]: reads from one buffer, writes to
/// another. Used by tests and by callers that want to drive the relay without
/// a real network stream.
#[derive(Debug)]
pub struct MemoryStream {
    read_buffer: Vec<u8>,
    read_pos: usize,
    written: Vec<u8>,
    finished: bool,
}

impl Default for MemoryStream {
    fn default() -> (stream: Self)
        ensures
            stream.unread() == Seq::<u8>::empty(),
            stream.written() == Seq::<u8>::empty(),
            !stream.finished(),
    {
        MemoryStream {
            read_buffer: Vec::new(),
            read_pos: 0,
            written: Vec::new(),
            finished: false,
        }
    }
}

impl MemoryStream {
    /// A stream that delivers `payload`.
    pub fn with_payload(payload: Vec<u8>) -> (stream: Self)
        ensures
            stream.unread() == payload@,
            stream.written() == Seq::<u8>::empty(),
            !stream.finished(),
    {
        MemoryStream { read_buffer: payload, read_pos: 0, written: Vec::new(), finished: false }
    }

    /// Everything that was written.
    pub fn into_written(self) -> (written: Vec<u8>)
        ensures
            written@ == self.written(),
    {
        self.written
    }
}

impl ByteStream for MemoryStream {
    closed spec fn unread(&self) -> Seq<u8> {
        if self.read_pos <= self.read_buffer@.len() {
            self.read_buffer@.skip(self.read_pos as int)
        } else {
            Seq::empty()
        }
    }

    closed spec fn written(&self) -> Seq<u8> {
        self.written@
    }

    closed spec fn finished(&self) -> bool {
        self.finished
    }

    open spec fn may_deliver(ahead: Seq<u8>, room: nat, n: nat) -> bool {
        n == if ahead.len() <= room {
            ahead.len()
        } else {
            room
        }
    }

    open spec fn may_fail_with(text: Seq<char>) -> bool {
        false
    }

    fn read(&mut self, buf: &mut [u8]) -> (result: Result<usize, String>) {
        if self.read_pos >= self.read_buffer.len() {
            assert(buf@ =~= self.unread().take(0) + buf@.skip(0));
            assert(self.unread() =~= self.unread().skip(0));
            return Ok(0);
        }
        let ghost start = buf@;
        let remaining: usize = self.read_buffer.len() - self.read_pos;
        let n: usize = if remaining < buf.len() {
            remaining
        } else {
            buf.len()
        };
        let mut at: usize = 0;
        while at < n
            invariant
                at <= n,
                n <= start.len(),
                self.read_pos + n <= self.read_buffer.len(),
                buf@ == self.read_buffer@.skip(self.read_pos as int).take(at as int) + start.skip(
                    at as int,
                ),
            decreases n - at,
        {
            buf[at] = self.read_buffer[self.read_pos + at];
            at = at + 1;
            assert(buf@ =~= self.read_buffer@.skip(self.read_pos as int).take(at as int)
                + start.skip(at as int));
        }
        self.read_pos = self.read_pos + n;
        assert(self.unread() =~= old(self).unread().skip(n as int));
        Ok(n)
    }

    fn write_all(&mut self, buf: &[u8]) -> (result: Result<(), String>) {
        self.written.extend_from_slice(buf);
        Ok(())
    }

    fn finish(&mut self) -> (result: Result<(), String>) {
        self.finished = true;
        Ok(())
    }
}

/// Law: an in-memory stream delivers as much as there is and fits, and never
/// fails.
pub proof fn law_memory_delivers_what_fits(ahead: Seq<u8>, room: nat, n: nat, text: Seq<char>)
    ensures
        MemoryStream::may_deliver(ahead, room, n) <==> {
            &&& n <= ahead.len()
            &&& n <= room
            &&& n == ahead.len() || n == room
        },
        !MemoryStream::may_fail_with(text),
{
}

/// Law: the state of a stream is what is ahead in it, what was written to it
/// and whether it was finished.
pub proof fn law_states_show_the_stream<S: ByteStream>(stream: S)
    ensures
        state_of(stream).unread == stream.unread(),
        state_of(stream).written == stream.written(),
        state_of(stream).finished == stream.finished(),
{
}

} // verus!
