//! The append-only storage block, the writer handle, and the reader cursor.

use vstd::prelude::*;

verus! {

/// The recoverable failures of the buffer API.
#[derive(Clone, Copy, Debug, PartialEq, Eq, Structural)]
pub enum BufferError {
    /// A read was asked to start past the readable prefix.
    OutOfRange,
    /// A seek computed a position that is negative or past the end.
    InvalidSeek,
}

/// The smaller of two quantities.
pub open spec fn min_of(a: int, b: int) -> int {
    if a < b {
        a
    } else {
        b
    }
}

/// How many bytes a read delivers: a read at `from` out of `len` published
/// bytes fills the destination of `dest_len` bytes as far as the published
/// prefix reaches.
pub open spec fn count_read(len: int, from: int, dest_len: int) -> int
    recommends
        0 <= from <= len,
{
    min_of(dest_len, len - from)
}

/// The capacity of a replacement block: the larger of twice the bytes already
/// held and the bytes held plus the incoming bytes.
pub open spec fn grow_capacity(len: int, incoming: int) -> int {
    if 2 * len > len + incoming {
        2 * len
    } else {
        len + incoming
    }
}

/// A byte region of fixed capacity that can only be appended to.
/// Once published, bytes are never removed or replaced.
pub struct AppendVec {
    data: Vec<u8>,
    cap: usize,
}

impl View for AppendVec {
    type V = Seq<u8>;

    closed spec fn view(&self) -> Seq<u8> {
        self.data@
    }
}

impl AppendVec {
    /// The fixed capacity this block was created with.
    pub closed spec fn capacity(&self) -> nat {
        self.cap as nat
    }

    /// The published prefix never exceeds the block's capacity.
    pub open spec fn well_formed(&self) -> bool {
        self@.len() <= self.capacity()
    }

    /// Creates an empty block that can hold up to `cap` bytes.
    pub fn with_capacity(cap: usize) -> (v: AppendVec)
        ensures
            v@ == Seq::<u8>::empty(),
            v.capacity() == cap,
            v.well_formed(),
    {
        AppendVec { data: Vec::new(), cap }
    }

    /// The number of bytes published so far.
    pub fn len(&self) -> (n: usize)
        ensures
            n == self@.len(),
    {
        self.data.len()
    }

    /// Writes as much of `buf` as fits into the unwritten tail, publishing the
    /// written bytes, and returns how many bytes were taken.
    pub fn write(&mut self, buf: &Vec<u8>) -> (n: usize)
        requires
            old(self).well_formed(),
        ensures
            final(self).well_formed(),
            final(self).capacity() == old(self).capacity(),
            n == min_of(buf@.len() as int, old(self).capacity() - old(self)@.len()),
            final(self)@ == old(self)@ + buf@.take(n as int),
    {
        let len = self.data.len();
        let remaining = self.cap - len;
        let n = if buf.len() < remaining {
            buf.len()
        } else {
            remaining
        };
        let mut i: usize = 0;
        while i < n
            invariant
                i <= n,
                n <= buf@.len(),
                self.cap == old(self).cap,
                self.data@ == old(self).data@ + buf@.take(i as int),
                old(self).data@.len() + n <= self.cap,
            decreases n - i,
        {
            self.data.push(buf[i]);
            proof {
                assert(self.data@ =~= old(self).data@ + buf@.take(i + 1));
            }
            i = i + 1;
        }
        n
    }

    /// Appends `buf`. If it fits into the unwritten tail, the block takes it
    /// in place and no replacement is made. Otherwise the block is left
    /// untouched and a larger replacement is returned, holding the old bytes
    /// followed by `buf`; the replacement's capacity follows `grow_capacity`,
    /// clamped to what a machine word can address.
    pub fn append(&mut self, buf: &Vec<u8>) -> (grown: Option<AppendVec>)
        requires
            old(self).well_formed(),
            old(self)@.len() + buf@.len() <= usize::MAX,
        ensures
            final(self).well_formed(),
            old(self)@.len() + buf@.len() <= old(self).capacity() ==> {
                &&& grown is None
                &&& final(self)@ == old(self)@ + buf@
                &&& final(self).capacity() == old(self).capacity()
            },
            old(self)@.len() + buf@.len() > old(self).capacity() ==> {
                &&& *final(self) == *old(self)
                &&& grown matches Some(v) && {
                    &&& v.well_formed()
                    &&& v@ == old(self)@ + buf@
                    &&& v.capacity() == min_of(
                        grow_capacity(old(self)@.len() as int, buf@.len() as int),
                        usize::MAX as int,
                    )
                }
            },
    {
        let len = self.data.len();
        if self.cap - len >= buf.len() {
            let n = self.write(buf);
            proof {
                assert(buf@.take(buf@.len() as int) =~= buf@);
            }
            return None;
        }
        let needed = len + buf.len();
        let doubled = if len <= usize::MAX - len {
            len * 2
        } else {
            usize::MAX
        };
        let new_cap = if doubled > needed {
            doubled
        } else {
            needed
        };
        let mut new_vec = AppendVec::with_capacity(new_cap);
        new_vec.write(&self.data);
        new_vec.write(buf);
        proof {
            assert(self.data@.take(self.data@.len() as int) =~= self.data@);
            assert(buf@.take(buf@.len() as int) =~= buf@);
            assert(new_vec@ =~= self.data@ + buf@);
        }
        Some(new_vec)
    }

    /// Copies bytes of the published prefix, starting at `from`, into the
    /// front of `dest`, leaving the rest of `dest` as it was; returns how many
    /// bytes were copied. Zero is a normal outcome, meaning no bytes are
    /// published at or past `from`. A `from` past the published prefix is
    /// reported as `OutOfRange`, with nothing changed.
    pub fn read(&self, dest: &mut Vec<u8>, from: usize) -> (r: Result<usize, BufferError>)
        ensures
            from <= self@.len() ==> {
                &&& r matches Ok(n) && {
                    &&& n == count_read(self@.len() as int, from as int, old(dest)@.len() as int)
                    &&& final(dest)@ == self@.subrange(from as int, from + n)
                        + old(dest)@.skip(n as int)
                }
            },
            from > self@.len() ==> r == Err::<usize, BufferError>(BufferError::OutOfRange)
                && *final(dest) == *old(dest),
            final(dest)@.len() == old(dest)@.len(),
            self@.len() <= usize::MAX,
    {
        if from > self.data.len() {
            return Err(BufferError::OutOfRange);
        }
        let available = self.data.len() - from;
        let n = if dest.len() < available {
            dest.len()
        } else {
            available
        };
        let mut i: usize = 0;
        while i < n
            invariant
                i <= n,
                n <= self.data@.len() - from,
                from + n <= usize::MAX,
                n <= dest@.len(),
                dest@.len() == old(dest)@.len(),
                forall|j: int| 0 <= j < i ==> dest@[j] == self.data@[from + j],
                forall|j: int| i <= j < dest@.len() ==> dest@[j] == old(dest)@[j],
            decreases n - i,
        {
            let b = self.data[from + i];
            dest.set(i, b);
            i = i + 1;
        }
        proof {
            assert(dest@ =~= self.data@.subrange(from as int, from + n)
                + old(dest)@.skip(n as int));
        }
        Ok(n)
    }
}

/// The single writer handle: owns the current storage block and caches the
/// total length for synchronous queries.
pub struct Buffer {
    data: AppendVec,
    len: usize,
}

impl View for Buffer {
    type V = Seq<u8>;

    closed spec fn view(&self) -> Seq<u8> {
        self.data@
    }
}

impl Buffer {
    #[verifier::type_invariant]
    spec fn wf(self) -> bool {
        &&& self.data.well_formed()
        &&& self.len == self.data@.len()
    }

    /// The capacity of the current storage block.
    pub closed spec fn capacity(&self) -> nat {
        self.data.capacity()
    }

    /// Creates an empty buffer whose first block holds up to `cap` bytes.
    pub fn new(cap: usize) -> (b: Buffer)
        ensures
            b@ == Seq::<u8>::empty(),
            b.capacity() == cap,
    {
        Buffer { data: AppendVec::with_capacity(cap), len: 0 }
    }

    /// The total number of bytes written so far.
    pub fn len(&self) -> (n: usize)
        ensures
            n == self@.len(),
    {
        proof {
            use_type_invariant(&*self);
        }
        self.len
    }

    /// Appends the whole of `buf`, growing the storage if the current block
    /// is too small, and returns how many bytes were accepted: always all of
    /// them. Bytes already written are never moved or changed.
    pub fn write(&mut self, buf: &Vec<u8>) -> (r: Result<usize, BufferError>)
        requires
            old(self)@.len() + buf@.len() <= usize::MAX,
        ensures
            r == Ok::<usize, BufferError>(buf.len()),
            final(self)@ == old(self)@ + buf@,
            old(self)@.len() + buf@.len() <= old(self).capacity() ==> final(self).capacity()
                == old(self).capacity(),
            old(self)@.len() + buf@.len() > old(self).capacity() ==> final(self).capacity()
                == min_of(
                grow_capacity(old(self)@.len() as int, buf@.len() as int),
                usize::MAX as int,
            ),
    {
        proof {
            use_type_invariant(&*self);
        }
        let mut taken = Buffer { data: AppendVec::with_capacity(0), len: 0 };
        core::mem::swap(&mut taken, self);
        let Buffer { mut data, len: _ } = taken;
        if let Some(new_data) = data.append(buf) {
            data = new_data;
        }
        let len = data.len();
        *self = Buffer { data, len };
        Ok(buf.len())
    }

    /// Does nothing: bytes are visible to readers as soon as they are
    /// written; there is no separate durability step.
    pub fn flush(&mut self) -> (r: Result<(), BufferError>)
        ensures
            r == Ok::<(), BufferError>(()),
            *final(self) == *old(self),
    {
        Ok(())
    }

    /// Copies bytes starting at offset `from` into the front of `dest`, as
    /// the current block's `read` does.
    pub fn read_at(&self, dest: &mut Vec<u8>, from: usize) -> (r: Result<usize, BufferError>)
        ensures
            from <= self@.len() ==> {
                &&& r matches Ok(n) && {
                    &&& n == count_read(self@.len() as int, from as int, old(dest)@.len() as int)
                    &&& final(dest)@ == self@.subrange(from as int, from + n)
                        + old(dest)@.skip(n as int)
                }
            },
            from > self@.len() ==> r == Err::<usize, BufferError>(BufferError::OutOfRange)
                && *final(dest) == *old(dest),
            final(dest)@.len() == old(dest)@.len(),
            self@.len() <= usize::MAX,
    {
        self.data.read(dest, from)
    }

    /// Creates an independent cursor over this buffer, positioned at the
    /// start. Cursors never affect the buffer or one another.
    pub fn reader(&self) -> (r: Result<Reader, BufferError>)
        ensures
            r matches Ok(c) && c.position() == 0,
    {
        Ok(Reader { read_start: 0 })
    }
}

/// Where a seek resolves its offset from: the start of the buffer, the
/// cursor's current position, or the buffer's end at the moment of the call.
#[derive(Clone, Copy, Debug, PartialEq, Eq, Structural)]
pub enum SeekFrom {
    Start(u64),
    Current(i64),
    End(i64),
}

/// The absolute position a seek asks for, given the cursor's current position
/// and the buffer's length at the moment of the call.
pub open spec fn seek_target(pos: SeekFrom, current: int, end: int) -> int {
    match pos {
        SeekFrom::Start(n) => n as int,
        SeekFrom::Current(d) => current + d,
        SeekFrom::End(d) => end + d,
    }
}

/// An independent read position over a buffer. Every cursor owns its position
/// alone: reads and seeks on one cursor never move another.
#[derive(Clone, Copy, Debug)]
pub struct Reader {
    read_start: usize,
}

impl Reader {
    /// The absolute position the next read starts from.
    pub closed spec fn position(&self) -> nat {
        self.read_start as nat
    }

    /// Reads from `buffer` at this cursor's position into the front of
    /// `dest`, advances the position by the count delivered, and returns that
    /// count. Zero at the frontier is a normal outcome, not an error; a
    /// position past the buffer's published bytes is reported as
    /// `OutOfRange`, with cursor and destination unchanged.
    pub fn read(&mut self, buffer: &Buffer, dest: &mut Vec<u8>) -> (r: Result<
        usize,
        BufferError,
    >)
        ensures
            old(self).position() <= buffer@.len() ==> {
                &&& r matches Ok(n) && {
                    &&& n == count_read(
                        buffer@.len() as int,
                        old(self).position() as int,
                        old(dest)@.len() as int,
                    )
                    &&& final(self).position() == old(self).position() + n
                    &&& final(dest)@ == buffer@.subrange(
                        old(self).position() as int,
                        old(self).position() + n,
                    ) + old(dest)@.skip(n as int)
                }
            },
            old(self).position() > buffer@.len() ==> {
                &&& r == Err::<usize, BufferError>(BufferError::OutOfRange)
                &&& *final(self) == *old(self)
                &&& *final(dest) == *old(dest)
            },
            final(dest)@.len() == old(dest)@.len(),
    {
        match buffer.read_at(dest, self.read_start) {
            Ok(n) => {
                self.read_start = self.read_start + n;
                Ok(n)
            },
            Err(e) => Err(e),
        }
    }

    /// Repositions the cursor. The target is resolved against the buffer's
    /// length at the moment of the call; a target below zero or past that
    /// length is rejected as `InvalidSeek` and the position is left
    /// unchanged. Otherwise the cursor moves there and the new absolute
    /// position is returned.
    pub fn seek(&mut self, buffer: &Buffer, pos: SeekFrom) -> (r: Result<u64, BufferError>)
        ensures
            ({
                let target = seek_target(pos, old(self).position() as int, buffer@.len() as int);
                &&& (0 <= target <= buffer@.len() ==> {
                    &&& r matches Ok(p) && p == target
                    &&& final(self).position() == target
                })
                &&& (!(0 <= target <= buffer@.len()) ==> {
                    &&& r == Err::<u64, BufferError>(BufferError::InvalidSeek)
                    &&& *final(self) == *old(self)
                })
            }),
    {
        let end = buffer.len();
        let target: i128 = match pos {
            SeekFrom::Start(n) => n as i128,
            SeekFrom::Current(d) => self.read_start as i128 + d as i128,
            SeekFrom::End(d) => end as i128 + d as i128,
        };
        if target < 0 || target > end as i128 {
            return Err(BufferError::InvalidSeek);
        }
        self.read_start = target as usize;
        Ok(target as u64)
    }
}

} // verus!
