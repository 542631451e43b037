//! The byte buffers of a stream: a bounded queue for what the application
//! wrote and the provider has not taken yet, and a cursor over what one
//! completed read brought in.

use vstd::prelude::*;

verus! {

/// How many bytes a stream's write buffer holds at most.
pub const WRITE_BUFFER_SIZE: usize = 16384;

/// How many bytes one read request asks for at most.
pub const READ_BUFFER_SIZE: usize = 16384;

/// The smaller of two numbers.
pub open spec fn min(a: int, b: int) -> int {
    if a <= b {
        a
    } else {
        b
    }
}

/// How many bytes the buffers `bufs` hold together.
pub open spec fn total_len(bufs: Seq<Seq<u8>>) -> nat
    decreases bufs.len(),
{
    if bufs.len() == 0 {
        0
    } else {
        total_len(bufs.drop_last()) + bufs.last().len()
    }
}

/// The bytes of the buffers `bufs`, one buffer after the other.
pub open spec fn gathered(bufs: Seq<Seq<u8>>) -> Seq<u8>
    decreases bufs.len(),
{
    if bufs.len() == 0 {
        Seq::empty()
    } else {
        gathered(bufs.drop_last()) + bufs.last()
    }
}

/// The contents of each of the slices `bufs`.
pub open spec fn slices_view(bufs: Seq<&[u8]>) -> Seq<Seq<u8>> {
    Seq::new(bufs.len(), |i: int| bufs[i]@)
}

/// The contents of each of the vectors `bufs`.
pub open spec fn vecs_view(bufs: Seq<Vec<u8>>) -> Seq<Seq<u8>> {
    Seq::new(bufs.len(), |i: int| bufs[i]@)
}

/// A write buffer as a value: the queued bytes, oldest first, the most it
/// holds, and how many of its first bytes are lent out as a chunk.
pub struct WriteBufferView {
    pub data: Seq<u8>,
    pub capacity: nat,
    pub lent: nat,
}

impl WriteBufferView {
    /// No more bytes than the capacity, and no more lent out than there are.
    pub open spec fn wf(self) -> bool {
        &&& self.data.len() <= self.capacity
        &&& self.lent <= self.data.len()
        &&& self.capacity <= usize::MAX
    }

    /// How many bytes of `offered` a write takes in: all that fit.
    pub open spec fn accepts(self, offered: nat) -> nat {
        min(offered as int, self.capacity - self.data.len()) as nat
    }

    /// The buffer after the first `accepts(..)` bytes of `bytes` were queued.
    pub open spec fn written(self, bytes: Seq<u8>) -> WriteBufferView {
        WriteBufferView {
            data: self.data + bytes.subrange(0, self.accepts(bytes.len()) as int),
            ..self
        }
    }

    /// The buffer after all its bytes were lent out as a chunk.
    pub open spec fn lending(self) -> WriteBufferView {
        WriteBufferView { lent: self.data.len(), ..self }
    }

    /// The buffer after the chunk came back with its first `n` bytes used.
    pub open spec fn consumed(self, n: nat) -> WriteBufferView {
        WriteBufferView { data: self.data.skip(n as int), lent: 0, ..self }
    }

    /// Writing `a` and then `b` is writing `a` followed by `b` at once.
    pub proof fn lemma_written_twice(self, a: Seq<u8>, b: Seq<u8>)
        requires
            self.wf(),
        ensures
            self.written(a).wf(),
            self.written(a).written(b) == self.written(a + b),
            self.accepts(a.len()) + self.written(a).accepts(b.len()) == self.accepts(
                (a + b).len(),
            ),
    {
        let first = self.accepts(a.len());
        let second = self.written(a).accepts(b.len());
        assert(self.written(a).written(b).data =~= self.written(a + b).data) by {
            if first < a.len() {
                assert(second == 0);
                assert(b.subrange(0, 0) =~= Seq::<u8>::empty());
                assert((a + b).subrange(0, first as int) =~= a.subrange(0, first as int));
            } else {
                assert(a.subrange(0, first as int) =~= a);
                assert((a + b).subrange(0, (first + second) as int) =~= a + b.subrange(
                    0,
                    second as int,
                ));
            }
        }
    }
}

/// A bounded first-in first-out queue of bytes. The application writes into
/// it; its contents are lent out as a chunk to be sent, and the bytes that
/// were sent leave it when the chunk comes back.
#[derive(Debug)]
pub struct WriteBuffer {
    data: Vec<u8>,
    capacity: usize,
    lent: usize,
}

impl View for WriteBuffer {
    type V = WriteBufferView;

    closed spec fn view(&self) -> WriteBufferView {
        WriteBufferView {
            data: self.data@,
            capacity: self.capacity as nat,
            lent: self.lent as nat,
        }
    }
}

impl WriteBuffer {
    /// The buffer's value is well formed.
    pub open spec fn wf(&self) -> bool {
        self@.wf()
    }

    /// An empty buffer that holds up to `capacity` bytes.
    pub fn new(capacity: usize) -> (b: WriteBuffer)
        ensures
            b.wf(),
            b@ == (WriteBufferView { data: Seq::empty(), capacity: capacity as nat, lent: 0 }),
    {
        WriteBuffer { data: Vec::new(), capacity, lent: 0 }
    }

    /// Queues as many of the first bytes of `buf` as fit, and returns how
    /// many that was.
    pub fn write(&mut self, buf: &[u8]) -> (n: usize)
        requires
            old(self).wf(),
        ensures
            final(self).wf(),
            n == old(self)@.accepts(buf@.len()),
            final(self)@ == old(self)@.written(buf@),
    {
        let room: usize = self.capacity - self.data.len();
        let n: usize = if buf.len() <= room {
            buf.len()
        } else {
            room
        };
        let mut i: usize = 0;
        while i < n
            invariant
                i <= n <= buf@.len(),
                n == old(self)@.accepts(buf@.len()),
                self.capacity == old(self).capacity,
                self.lent == old(self).lent,
                self.data@ == old(self).data@ + buf@.subrange(0, i as int),
                old(self).data@.len() + n <= self.capacity,
            decreases n - i,
        {
            self.data.push(buf[i]);
            i = i + 1;
            assert(self.data@ =~= old(self).data@ + buf@.subrange(0, i as int));
        }
        n
    }

    /// Lends all queued bytes out as a chunk, or nothing when none is
    /// queued. The bytes stay queued until the chunk comes back.
    pub fn consumable_chunk(&mut self) -> (chunk: Option<Vec<u8>>)
        requires
            old(self).wf(),
            old(self)@.lent == 0,
        ensures
            final(self).wf(),
            old(self)@.data.len() == 0 ==> chunk.is_none() && final(self)@ == old(self)@,
            old(self)@.data.len() > 0 ==> (chunk matches Some(c) && c@ == old(self)@.data),
            old(self)@.data.len() > 0 ==> final(self)@ == old(self)@.lending(),
    {
        if self.data.len() == 0 {
            return None;
        }
        let chunk = self.data.clone();
        self.lent = self.data.len();
        Some(chunk)
    }

    /// Takes the chunk back: its first `n` bytes were sent and leave the
    /// queue, the rest stays.
    pub fn consume(&mut self, n: usize)
        requires
            old(self).wf(),
            n <= old(self)@.lent,
        ensures
            final(self).wf(),
            final(self)@ == old(self)@.consumed(n as nat),
    {
        let rest = self.data.split_off(n);
        self.data = rest;
        self.lent = 0;
        assert(self.data@ =~= old(self).data@.skip(n as int));
    }

    /// Whether no byte is queued.
    pub fn is_empty(&self) -> (e: bool)
        ensures
            e == (self@.data.len() == 0),
    {
        self.data.len() == 0
    }

    /// How many bytes are queued.
    pub fn len(&self) -> (n: usize)
        ensures
            n == self@.data.len(),
    {
        self.data.len()
    }

    /// How many bytes are lent out as a chunk.
    pub fn lent(&self) -> (n: usize)
        ensures
            n == self@.lent,
    {
        self.lent
    }
}

/// A read buffer as a value: the storage, how many of its first bytes were
/// read in, and how many of those were handed on already.
pub struct ReadBufferView {
    pub storage: Seq<u8>,
    pub position: nat,
    pub len: nat,
}

impl ReadBufferView {
    /// The cursor is within the bytes read in, which are within the storage.
    pub open spec fn wf(self) -> bool {
        self.position <= self.len <= self.storage.len() <= usize::MAX
    }

    /// The bytes that were read in and not handed on yet.
    pub open spec fn remaining(self) -> Seq<u8> {
        self.storage.subrange(self.position as int, self.len as int)
    }

    /// How many bytes a read into a buffer of `room` bytes hands on.
    pub open spec fn gives(self, room: nat) -> nat {
        min(room as int, self.len - self.position) as nat
    }

    /// The buffer after a read into a buffer of `room` bytes.
    pub open spec fn advanced(self, room: nat) -> ReadBufferView {
        ReadBufferView { position: self.position + self.gives(room), ..self }
    }

    /// What a buffer that held `before` holds after a read into it: the
    /// bytes handed on, then what it held behind them.
    pub open spec fn filled(self, before: Seq<u8>) -> Seq<u8> {
        self.remaining().subrange(0, self.gives(before.len()) as int) + before.skip(
            self.gives(before.len()) as int,
        )
    }

    /// What the buffer at index `k` of `bufs` holds after a read into all of
    /// them in order: what a read into it alone gives once the buffers
    /// before it have had theirs.
    pub open spec fn scattered(self, bufs: Seq<Seq<u8>>, k: int) -> Seq<u8> {
        self.advanced(total_len(bufs.take(k))).filled(bufs[k])
    }

    /// Reading into room for `a` and then for `b` bytes is reading into room
    /// for both at once.
    pub proof fn lemma_advanced_twice(self, a: nat, b: nat)
        requires
            self.wf(),
        ensures
            self.advanced(a).wf(),
            self.advanced(a).advanced(b) == self.advanced(a + b),
            self.gives(a) + self.advanced(a).gives(b) == self.gives(a + b),
    {
    }
}

/// What one completed read brought in, with a cursor over it.
#[derive(Debug)]
pub struct ReadBuffer {
    storage: Vec<u8>,
    position: usize,
    len: usize,
}

impl View for ReadBuffer {
    type V = ReadBufferView;

    closed spec fn view(&self) -> ReadBufferView {
        ReadBufferView {
            storage: self.storage@,
            position: self.position as nat,
            len: self.len as nat,
        }
    }
}

impl ReadBuffer {
    /// The buffer's value is well formed.
    pub open spec fn wf(&self) -> bool {
        self@.wf()
    }

    /// A buffer over `storage`, of which the first `len` bytes were read in.
    pub fn new(storage: Vec<u8>, len: usize) -> (b: ReadBuffer)
        requires
            len <= storage@.len(),
        ensures
            b.wf(),
            b@ == (ReadBufferView { storage: storage@, position: 0, len: len as nat }),
    {
        // A vector's length is a `usize`: this is where the bound in `wf` comes from.
        let size: usize = storage.len();
        assert(size == storage@.len());
        ReadBuffer { storage, position: 0, len }
    }

    /// Copies as many of the remaining bytes as fit to the front of `buf`,
    /// and returns how many that was.
    pub fn read(&mut self, buf: &mut [u8]) -> (n: usize)
        requires
            old(self).wf(),
        ensures
            final(self).wf(),
            n == old(self)@.gives(old(buf)@.len()),
            final(self)@ == old(self)@.advanced(old(buf)@.len()),
            final(buf)@ == old(self)@.filled(old(buf)@),
    {
        let left: usize = self.len - self.position;
        let n: usize = if buf.len() <= left {
            buf.len()
        } else {
            left
        };
        let start: usize = self.position;
        let mut i: usize = 0;
        while i < n
            invariant
                i <= n,
                n == old(self)@.gives(old(buf)@.len()),
                start == old(self).position,
                start + n <= self.len,
                self.len <= self.storage@.len(),
                self.storage == old(self).storage,
                self.len == old(self).len,
                self.position == old(self).position,
                buf@.len() == old(buf)@.len(),
                n <= buf@.len(),
                buf@ == old(self)@.remaining().subrange(0, i as int) + old(buf)@.skip(i as int),
            decreases n - i,
        {
            let byte: u8 = self.storage[start + i];
            buf[i] = byte;
            i = i + 1;
            assert(buf@ =~= old(self)@.remaining().subrange(0, i as int) + old(buf)@.skip(
                i as int,
            ));
        }
        self.position = start + n;
        n
    }

    /// How many bytes were read in and not handed on yet.
    pub fn remaining_bytes(&self) -> (n: usize)
        requires
            self.wf(),
        ensures
            n == self@.len - self@.position,
    {
        self.len - self.position
    }

    /// How many bytes were read in.
    pub fn len(&self) -> (n: usize)
        ensures
            n == self@.len,
    {
        self.len
    }

    /// The storage.
    pub fn into_inner(self) -> (storage: Vec<u8>)
        ensures
            storage@ == self@.storage,
    {
        self.storage
    }
}

} // verus!
