//! How a data source over a seekable byte stream serves a read: the
//! decisions of the read, from the stream's length and the requested offset
//! to the number of bytes handed back, with the stream operations themselves
//! performed by the caller.
use vstd::prelude::*;
use crate::error::{IoErrorKind, is_retried};

verus! {

/// What to do next while serving a read.
#[derive(Clone, Copy, Debug, PartialEq, Eq, Structural)]
pub enum ReadStep {
    /// The read is over: report this many bytes.
    Finished(usize),
    /// Ask the stream for its current position.
    QueryPosition,
    /// Seek the stream to this position from its start.
    SeekTo(u64),
    /// Read from the stream into the buffer, from this index to its end.
    ReadInto(usize),
    /// The read is over: report the stream's error, and no count.
    Fail,
}

/// The step asks the stream for an operation.
pub open spec fn is_stream_operation(step: ReadStep) -> bool {
    step is QueryPosition || step is SeekTo || step is ReadInto
}

/// The state of one read of `buf_len` bytes at `offset`, from a stream of
/// `len` bytes, with `filled` bytes of the buffer filled so far.
pub struct ReadSeekRead {
    len: u64,
    offset: u64,
    buf_len: usize,
    filled: usize,
}

impl ReadSeekRead {
    /// The length of the stream.
    pub closed spec fn stream_len(&self) -> u64 {
        self.len
    }

    /// The offset at which the read starts.
    pub closed spec fn offset(&self) -> u64 {
        self.offset
    }

    /// The length of the buffer.
    pub closed spec fn buf_len(&self) -> usize {
        self.buf_len
    }

    /// The number of bytes read so far.
    pub closed spec fn filled(&self) -> usize {
        self.filled
    }

    /// Every read so far has stayed within the buffer.
    pub closed spec fn wf(&self) -> bool {
        self.filled <= self.buf_len
    }

    /// Starts a read of `buf_len` bytes at `offset` from a stream of `len`
    /// bytes. An offset at or beyond the end reads nothing; otherwise the
    /// stream's position is asked for first.
    pub fn start(len: u64, offset: u64, buf_len: usize) -> (r: (Self, ReadStep))
        ensures
            r.0.wf(),
            r.0.stream_len() == len,
            r.0.offset() == offset,
            r.0.buf_len() == buf_len,
            r.0.filled() == 0,
            r.1 == if len <= offset {
                ReadStep::Finished(0)
            } else {
                ReadStep::QueryPosition
            },
    {
        let read = ReadSeekRead { len, offset, buf_len, filled: 0 };
        if len <= offset {
            (read, ReadStep::Finished(0))
        } else {
            (read, ReadStep::QueryPosition)
        }
    }

    /// The next read into the buffer, or the end when it is full.
    fn next_read(&self) -> (r: ReadStep)
        requires
            self.wf(),
        ensures
            r == if self.filled() == self.buf_len() {
                ReadStep::Finished(self.filled())
            } else {
                ReadStep::ReadInto(self.filled())
            },
    {
        if self.filled == self.buf_len {
            ReadStep::Finished(self.filled)
        } else {
            ReadStep::ReadInto(self.filled)
        }
    }

    /// The stream reported its position `pos`: seek to the offset unless the
    /// stream is already there, else start reading.
    pub fn on_position(&self, pos: u64) -> (r: ReadStep)
        requires
            self.wf(),
        ensures
            r matches ReadStep::ReadInto(start) ==> start < self.buf_len(),
            pos != self.offset() ==> r == ReadStep::SeekTo(self.offset()),
            pos == self.offset() ==> r == if self.filled() == self.buf_len() {
                ReadStep::Finished(self.filled())
            } else {
                ReadStep::ReadInto(self.filled())
            },
    {
        if self.offset != pos {
            ReadStep::SeekTo(self.offset)
        } else {
            self.next_read()
        }
    }

    /// The stream is at the offset: start reading.
    pub fn on_seeked(&self) -> (r: ReadStep)
        requires
            self.wf(),
        ensures
            r matches ReadStep::ReadInto(start) ==> start < self.buf_len(),
            r == if self.filled() == self.buf_len() {
                ReadStep::Finished(self.filled())
            } else {
                ReadStep::ReadInto(self.filled())
            },
    {
        self.next_read()
    }

    /// The stream operation of step `failed` failed with an error of the
    /// given kind: an interrupted operation is done again; any other error
    /// ends the read with that error, whatever was read before.
    pub fn on_error(&self, kind: IoErrorKind, failed: ReadStep) -> (r: ReadStep)
        requires
            is_stream_operation(failed),
        ensures
            kind == IoErrorKind::Interrupted ==> r == failed,
            kind != IoErrorKind::Interrupted ==> r == ReadStep::Fail,
    {
        if is_retried(kind) {
            failed
        } else {
            ReadStep::Fail
        }
    }

    /// The stream read `n` bytes into the rest of the buffer: `0` ends the
    /// read; otherwise reading goes on until the buffer is full.
    pub fn on_read(&mut self, n: usize) -> (r: ReadStep)
        requires
            old(self).wf(),
            n <= old(self).buf_len() - old(self).filled(),
        ensures
            final(self).wf(),
            r matches ReadStep::ReadInto(start) ==> start < final(self).buf_len(),
            r matches ReadStep::Finished(total) ==> total <= final(self).buf_len(),
            final(self).stream_len() == old(self).stream_len(),
            final(self).offset() == old(self).offset(),
            final(self).buf_len() == old(self).buf_len(),
            final(self).filled() == old(self).filled() + n,
            n == 0 ==> r == ReadStep::Finished(old(self).filled()),
            n != 0 ==> r == if final(self).filled() == final(self).buf_len() {
                ReadStep::Finished(final(self).filled())
            } else {
                ReadStep::ReadInto(final(self).filled())
            },
    {
        if n == 0 {
            return ReadStep::Finished(self.filled);
        }
        self.filled = self.filled + n;
        self.next_read()
    }
}

} // verus!
