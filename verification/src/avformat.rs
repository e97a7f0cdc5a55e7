//! Container-side data model: the capability-based I/O contract that
//! caller code plugs into the native demuxer, the in-memory capability,
//! the seek-mode decoding and result translation done on behalf of the
//! native callback protocol, and the stream table.

use vstd::prelude::*;

use crate::avcodec::AVCodecParameters;
use crate::avcodec::InputCodecParameters;
use crate::avutil::Error;
use crate::avutil::Rational;
use crate::avutil::AVERROR_ENOMEM;
use crate::avutil::AVERROR_INVALIDDATA;

verus! {

/// Seek mode: set the position from the start.
pub const SEEK_SET: i32 = 0;

/// Seek mode: move the position relative to the current one.
pub const SEEK_CUR: i32 = 1;

/// Seek mode: set the position relative to the end.
pub const SEEK_END: i32 = 2;

/// Seek-mode flag: report the total size without moving.
pub const AVSEEK_SIZE: i32 = 65536;

/// Seek-mode flag: seek even when it is expensive.
pub const AVSEEK_FORCE: i32 = 131072;

/// Mode argument to a capability's seek operation.
#[derive(Copy, Clone, PartialEq, Eq, Structural, Debug)]
pub enum Whence {
    /// Return the size (if possible) without actually seeking.
    Size,
    /// Sets a position relative to the start of the file, returning the
    /// new position.
    Begin,
    /// Sets a position relative to the current position, returning the
    /// new position.
    Cur,
    /// Sets a position relative to the end of the file, returning the
    /// new position.
    End,
}

/// The seek mode and force flag a raw native whence argument encodes,
/// or nothing when the argument is meaningless.
pub open spec fn spec_decode_whence(whence: i32) -> Option<(Whence, bool)> {
    let force = (whence & AVSEEK_FORCE) != 0;
    let w = whence & !AVSEEK_FORCE;
    if (w & AVSEEK_SIZE) != 0 {
        Some((Whence::Size, force))
    } else if w == SEEK_SET {
        Some((Whence::Begin, force))
    } else if w == SEEK_CUR {
        Some((Whence::Cur, force))
    } else if w == SEEK_END {
        Some((Whence::End, force))
    } else {
        None
    }
}

/// Decodes the whence argument the native side hands its seek callback:
/// the force flag is split off, the size-query flag wins over every
/// positional mode, and an unknown mode decodes to nothing.
pub fn decode_whence(whence: i32) -> (r: Option<(Whence, bool)>)
    ensures
        r == spec_decode_whence(whence),
{
    let force = (whence & AVSEEK_FORCE) != 0;
    let w = whence & !AVSEEK_FORCE;
    if (w & AVSEEK_SIZE) != 0 {
        Some((Whence::Size, force))
    } else if w == SEEK_SET {
        Some((Whence::Begin, force))
    } else if w == SEEK_CUR {
        Some((Whence::Cur, force))
    } else if w == SEEK_END {
        Some((Whence::End, force))
    } else {
        None
    }
}

/// Translates a capability's read or write outcome to the integer the
/// native callback protocol wants: the byte count on success, the
/// negative error code on failure.
pub fn transfer_code(r: Result<usize, Error>) -> (t: i32)
    requires
        r matches Ok(n) ==> n <= i32::MAX,
    ensures
        r matches Ok(n) ==> t == n,
        r matches Err(e) ==> t == e.spec_code(),
{
    match r {
        Ok(n) => n as i32,
        Err(e) => e.get(),
    }
}

/// Translates a capability's seek outcome to the 64-bit integer the
/// native callback protocol wants: the position on success, the
/// negative error code on failure.
pub fn seek_code(r: Result<u64, Error>) -> (t: i64)
    requires
        r matches Ok(p) ==> p <= i64::MAX,
    ensures
        r matches Ok(p) ==> t == p,
        r matches Err(e) ==> t == e.spec_code(),
{
    match r {
        Ok(p) => p as i64,
        Err(e) => e.get() as i64,
    }
}

/// An implementation of the I/O operations the native demuxer needs.
/// The capability flags say which operations exist at all: an operation
/// whose flag is false is never registered with the native side and is
/// answered here with a not-supported error.
pub trait IoContext {
    /// Returns true iff this is readable; then `read` should be
    /// implemented.
    fn readable(&self) -> bool {
        false
    }

    /// Returns true iff this is writable; then `write` should be
    /// implemented.
    fn writable(&self) -> bool {
        false
    }

    /// Returns true iff this is seekable; then `seek` should be
    /// implemented.
    fn seekable(&self) -> bool {
        false
    }

    /// Returns true iff the native buffer should be skipped; this is a
    /// hint only.
    fn direct(&self) -> bool {
        false
    }

    /// Returns the desired length of the intermediate buffer.
    fn buf_len(&self) -> usize;

    /// Reads up to `buf.len()` bytes into `buf`, returning how many were
    /// read.
    fn read(&mut self, buf: &mut [u8]) -> Result<usize, Error> {
        Err(Error::enosys())
    }

    /// Writes up to `buf.len()` bytes from `buf`, returning how many
    /// were written.
    fn write(&mut self, buf: &[u8]) -> Result<usize, Error> {
        Err(Error::enosys())
    }

    /// Performs the operation described by `whence`; `force` asks for
    /// the seek even when it is expensive.
    fn seek(&mut self, offset: i64, whence: Whence, force: bool) -> Result<u64, Error> {
        Err(Error::enosys())
    }
}

/// How a capability's operations are wired to the native I/O context:
/// which of the three callbacks are registered at all (an absent
/// operation becomes a null function pointer, so the native side can see
/// it is missing), the write flag, the buffering hint, and the buffer
/// length to allocate.
pub struct IoPlan {
    pub write_flag: i32,
    pub register_read: bool,
    pub register_write: bool,
    pub register_seek: bool,
    pub direct: bool,
    pub buf_len: usize,
}

/// Lays out the native I/O context for a capability with the given
/// flags: exactly the declared operations are registered.
pub fn plan_io(readable: bool, writable: bool, seekable: bool, direct: bool, buf_len: usize) -> (r:
    IoPlan)
    ensures
        r.register_read == readable,
        r.register_write == writable,
        r.register_seek == seekable,
        r.write_flag == if writable {
            1i32
        } else {
            0i32
        },
        r.direct == direct,
        r.buf_len == buf_len,
{
    IoPlan {
        write_flag: if writable {
            1
        } else {
            0
        },
        register_read: readable,
        register_write: writable,
        register_seek: seekable,
        direct,
        buf_len,
    }
}

/// What opening a format context concludes from the native results: a
/// negative open return carries through as the error, a failed packet
/// slot allocation is out-of-memory, and otherwise the context is ready.
pub fn open_outcome(open_ret: i32, pkt_alloc_ok: bool) -> (r: Result<(), Error>)
    ensures
        open_ret < 0 ==> (r matches Err(e) && e.spec_code() == open_ret),
        open_ret >= 0 && !pkt_alloc_ok ==> (r matches Err(e) && e.spec_code() == AVERROR_ENOMEM),
        open_ret >= 0 && pkt_alloc_ok ==> r is Ok,
{
    match Error::wrap(open_ret) {
        Err(e) => Err(e),
        Ok(_) => {
            if pkt_alloc_ok {
                Ok(())
            } else {
                Err(Error::enomem())
            }
        },
    }
}

/// Where a seek lands: the offset counted from the start, the current
/// position, or the end of the data.
pub open spec fn spec_seek_target(whence: Whence, len: int, pos: int, offset: int) -> int {
    match whence {
        Whence::Size => pos,
        Whence::Begin => offset,
        Whence::Cur => pos + offset,
        Whence::End => len + offset,
    }
}

/// A readable, seekable capability over an immutable byte slice.
pub struct SliceIoContext<'a> {
    slice: &'a [u8],
    pos: usize,
}

impl<'a> SliceIoContext<'a> {
    pub closed spec fn spec_slice(&self) -> Seq<u8> {
        self.slice@
    }

    pub closed spec fn spec_pos(&self) -> usize {
        self.pos
    }

    /// The position never passes the end of the slice.
    #[verifier::type_invariant]
    pub closed spec fn wf(&self) -> bool {
        self.spec_pos() <= self.spec_slice().len()
    }

    pub fn new(slice: &'a [u8]) -> (r: SliceIoContext<'a>)
        ensures
            r.spec_slice() == slice@,
            r.spec_pos() == 0,
    {
        SliceIoContext { slice, pos: 0 }
    }
}

impl<'a> IoContext for SliceIoContext<'a> {
    fn readable(&self) -> (r: bool)
        ensures
            r,
    {
        true
    }

    fn writable(&self) -> (r: bool)
        ensures
            !r,
    {
        false
    }

    fn seekable(&self) -> (r: bool)
        ensures
            r,
    {
        true
    }

    fn direct(&self) -> (r: bool)
        ensures
            r,
    {
        true
    }

    fn buf_len(&self) -> (r: usize)
        ensures
            r == if self.spec_slice().len() < 4096 {
                self.spec_slice().len() as int
            } else {
                4096int
            },
    {
        let n = self.slice.len();
        if n < 4096 {
            n
        } else {
            4096
        }
    }

    /// Copies the next bytes of the slice into the front of `buf`: as
    /// many as fit and remain.  The bytes after the copied prefix keep
    /// their old values.
    fn read(&mut self, buf: &mut [u8]) -> (r: Result<usize, Error>)
        ensures
            ({
                let n = if old(buf)@.len() <= old(self).spec_slice().len() - old(self).spec_pos() {
                    old(buf)@.len() as int
                } else {
                    old(self).spec_slice().len() - old(self).spec_pos()
                };
                &&& r == Ok::<usize, Error>(n as usize)
                &&& final(self).spec_slice() == old(self).spec_slice()
                &&& final(self).spec_pos() == old(self).spec_pos() + n
                &&& final(buf)@.len() == old(buf)@.len()
                &&& forall|i: int|
                    0 <= i < n ==> final(buf)@[i] == old(self).spec_slice()[old(self).spec_pos() + i]
                &&& forall|i: int| n <= i < old(buf)@.len() ==> final(buf)@[i] == old(buf)@[i]
            }),
    {
        proof {
            use_type_invariant(&*self);
        }
        let slen: usize = self.slice.len();
        let remaining = slen - self.pos;
        let copy_len = if buf.len() <= remaining {
            buf.len()
        } else {
            remaining
        };
        let ghost start = self.pos as int;
        let mut i: usize = 0;
        while i < copy_len
            invariant
                i <= copy_len,
                copy_len <= buf@.len(),
                start + copy_len <= self.spec_slice().len(),
                self.spec_slice().len() <= usize::MAX,
                start == self.spec_pos(),
                *self == *old(self),
                buf@.len() == old(buf)@.len(),
                forall|j: int| 0 <= j < i ==> buf@[j] == self.spec_slice()[start + j],
                forall|j: int| i <= j < buf@.len() ==> buf@[j] == old(buf)@[j],
            decreases copy_len - i,
        {
            buf[i] = self.slice[self.pos + i];
            i += 1;
        }
        self.pos = self.pos + copy_len;
        Ok(copy_len)
    }

    /// Moves or reports the position.  A size query reports the slice
    /// length without moving.  The other modes move to `offset` counted
    /// from the start, the current position, or the end; a target
    /// outside the slice is rejected as invalid data and nothing moves.
    fn seek(&mut self, offset: i64, whence: Whence, force: bool) -> (r: Result<u64, Error>)
        ensures
            final(self).spec_slice() == old(self).spec_slice(),
            whence is Size ==> r == Ok::<u64, Error>(old(self).spec_slice().len() as u64)
                && final(self).spec_pos() == old(self).spec_pos(),
            !(whence is Size) ==> ({
                let len = old(self).spec_slice().len() as int;
                let target = spec_seek_target(
                    whence,
                    len,
                    old(self).spec_pos() as int,
                    offset as int,
                );
                if 0 <= target <= len {
                    r == Ok::<u64, Error>(target as u64) && final(self).spec_pos() == target
                } else {
                    (r matches Err(e) && e.spec_code() == AVERROR_INVALIDDATA) && final(self).spec_pos() == old(self).spec_pos()
                }
            }),
    {
        proof {
            use_type_invariant(&*self);
        }
        let slen: usize = self.slice.len();
        let base: usize = match whence {
            Whence::Size => {
                return Ok(slen as u64);
            },
            Whence::Begin => 0,
            Whence::Cur => self.pos,
            Whence::End => slen,
        };
        let target: i128 = base as i128 + offset as i128;
        if target < 0 || target > slen as i128 {
            return Err(Error::invalid_data());
        }
        let new_pos: usize = target as usize;
        self.pos = new_pos;
        Ok(new_pos as u64)
    }
}

/// One input stream of an opened format context: its codec parameters
/// and timing, captured as plain values.
pub struct InputStream {
    codecpar: AVCodecParameters,
    time_base: Rational,
    duration: i64,
}

impl InputStream {
    pub closed spec fn spec_codecpar(&self) -> AVCodecParameters {
        self.codecpar
    }

    pub closed spec fn spec_time_base(&self) -> Rational {
        self.time_base
    }

    pub closed spec fn spec_duration(&self) -> i64 {
        self.duration
    }

    pub fn new(codecpar: AVCodecParameters, time_base: Rational, duration: i64) -> (r:
        InputStream)
        ensures
            r.spec_codecpar() == codecpar,
            r.spec_time_base() == time_base,
            r.spec_duration() == duration,
    {
        InputStream { codecpar, time_base, duration }
    }

    pub fn codecpar(&self) -> (r: InputCodecParameters<'_>)
        ensures
            r.spec_par() == self.spec_codecpar(),
    {
        InputCodecParameters::new(&self.codecpar)
    }

    pub fn time_base(&self) -> (r: Rational)
        ensures
            r == self.spec_time_base(),
    {
        self.time_base
    }

    pub fn duration(&self) -> (r: i64)
        ensures
            r == self.spec_duration(),
    {
        self.duration
    }
}

/// The stream table of an opened format context.
pub struct Streams<'owner> {
    streams: &'owner [InputStream],
}

impl<'owner> Streams<'owner> {
    pub closed spec fn spec_streams(&self) -> Seq<InputStream> {
        self.streams@
    }

    pub fn new(streams: &'owner [InputStream]) -> (r: Streams<'owner>)
        ensures
            r.spec_streams() == streams@,
    {
        Streams { streams }
    }

    /// The stream at `i`; the index must be in range.
    pub fn get(&self, i: usize) -> (r: &'owner InputStream)
        requires
            i < self.spec_streams().len(),
        ensures
            *r == self.spec_streams()[i as int],
    {
        &self.streams[i]
    }

    pub fn len(&self) -> (r: usize)
        ensures
            r == self.spec_streams().len(),
    {
        self.streams.len()
    }

    pub fn is_empty(&self) -> (r: bool)
        ensures
            r == (self.spec_streams().len() == 0),
    {
        self.len() == 0
    }
}

} // verus!
