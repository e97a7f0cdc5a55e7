//! Error model and utility data types of the native library's core.

use vstd::prelude::*;

verus! {

/// End-of-stream error code: the negated four-byte tag `'E','O','F',' '`
/// that the native library builds its well-known error codes from.
pub const AVERROR_EOF: i32 = -(69 + 79 * 256 + 70 * 65536 + 32 * 16777216);

/// Allocation-failure code: the negated `ENOMEM` errno value.
pub const AVERROR_ENOMEM: i32 = -12;

/// Unknown-error code: the negated four-byte tag `'U','N','K','N'`.
pub const AVERROR_UNKNOWN: i32 = -(85 + 78 * 256 + 75 * 65536 + 78 * 16777216);

/// Decoder-not-found code: the negated four-byte tag `0xF8,'D','E','C'`.
pub const AVERROR_DECODER_NOT_FOUND: i32 = -(248 + 68 * 256 + 69 * 65536 + 67 * 16777216);

/// Operation-not-supported code: the negated `ENOSYS` errno value.
pub const AVERROR_ENOSYS: i32 = -38;

/// Invalid-data code: the negated four-byte tag `'I','N','D','A'`.
pub const AVERROR_INVALIDDATA: i32 = -(73 + 78 * 256 + 68 * 65536 + 65 * 16777216);

/// A negative return code of the native library, tagged by the well-known
/// constants above.  Non-negative native return values are successes and
/// never become an `Error`.
#[derive(Copy, Clone, Debug)]
pub struct Error {
    code: i32,
}

impl Error {
    /// The raw signed code this error carries.
    pub closed spec fn spec_code(&self) -> i32 {
        self.code
    }

    /// Every error constructed by this crate carries a negative code.
    #[verifier::type_invariant]
    pub open spec fn wf(&self) -> bool {
        self.spec_code() < 0
    }

    pub fn eof() -> (r: Error)
        ensures
            r.spec_code() == AVERROR_EOF,
    {
        Error { code: AVERROR_EOF }
    }

    pub fn enomem() -> (r: Error)
        ensures
            r.spec_code() == AVERROR_ENOMEM,
    {
        Error { code: AVERROR_ENOMEM }
    }

    pub fn unknown() -> (r: Error)
        ensures
            r.spec_code() == AVERROR_UNKNOWN,
    {
        Error { code: AVERROR_UNKNOWN }
    }

    pub fn decoder_not_found() -> (r: Error)
        ensures
            r.spec_code() == AVERROR_DECODER_NOT_FOUND,
    {
        Error { code: AVERROR_DECODER_NOT_FOUND }
    }

    pub fn enosys() -> (r: Error)
        ensures
            r.spec_code() == AVERROR_ENOSYS,
    {
        Error { code: AVERROR_ENOSYS }
    }

    pub fn invalid_data() -> (r: Error)
        ensures
            r.spec_code() == AVERROR_INVALIDDATA,
    {
        Error { code: AVERROR_INVALIDDATA }
    }

    /// Wraps a raw native return code as a result: non-negative values are
    /// successes carrying the value itself, negative values carry the code
    /// unchanged as an `Error`.
    pub fn wrap(raw: i32) -> (r: Result<i32, Error>)
        ensures
            raw >= 0 ==> r == Ok::<i32, Error>(raw),
            raw < 0 ==> (r matches Err(e) && e.spec_code() == raw),
    {
        if raw < 0 {
            return Err(Error { code: raw });
        }
        Ok(raw)
    }

    /// True exactly when this is the graceful end-of-stream code, the one
    /// error callers are expected to branch on.
    pub fn is_eof(self) -> (r: bool)
        ensures
            r == (self.spec_code() == AVERROR_EOF),
    {
        self.code == AVERROR_EOF
    }

    /// The raw signed code, for handing back across the native boundary;
    /// always negative.
    pub fn get(self) -> (r: i32)
        ensures
            r == self.spec_code(),
            r < 0,
    {
        proof {
            use_type_invariant(&self);
        }
        self.code
    }
}

/// Native logging levels, coarser as the value grows.
pub const AV_LOG_QUIET: i32 = -8;

pub const AV_LOG_PANIC: i32 = 0;

pub const AV_LOG_FATAL: i32 = 8;

pub const AV_LOG_ERROR: i32 = 16;

pub const AV_LOG_WARNING: i32 = 24;

pub const AV_LOG_INFO: i32 = 32;

pub const AV_LOG_VERBOSE: i32 = 40;

pub const AV_LOG_DEBUG: i32 = 48;

pub const AV_LOG_TRACE: i32 = 56;

/// Severity of an emitted log record, finest last.
#[derive(Copy, Clone, PartialEq, Eq, Structural, Debug)]
pub enum LogLevel {
    Error,
    Warn,
    Info,
    Debug,
    Trace,
}

impl LogLevel {
    /// Numeric rank of the level: higher means finer.
    pub open spec fn spec_rank(self) -> u32 {
        match self {
            LogLevel::Error => 1,
            LogLevel::Warn => 2,
            LogLevel::Info => 3,
            LogLevel::Debug => 4,
            LogLevel::Trace => 5,
        }
    }

    pub fn rank(self) -> (r: u32)
        ensures
            r == self.spec_rank(),
    {
        match self {
            LogLevel::Error => 1,
            LogLevel::Warn => 2,
            LogLevel::Info => 3,
            LogLevel::Debug => 4,
            LogLevel::Trace => 5,
        }
    }
}

/// The record level that a native logging level maps to.
pub open spec fn spec_convert_level(l: i32) -> LogLevel {
    if l <= AV_LOG_ERROR {
        LogLevel::Error
    } else if l <= AV_LOG_WARNING {
        LogLevel::Warn
    } else if l <= AV_LOG_INFO {
        LogLevel::Info
    } else if l <= AV_LOG_VERBOSE {
        LogLevel::Debug
    } else {
        LogLevel::Trace
    }
}

/// Maps a native logging level to a record severity: everything at least
/// as severe as an error stays an error, and everything finer than
/// verbose becomes trace.
pub fn convert_level(l: i32) -> (r: LogLevel)
    ensures
        r == spec_convert_level(l),
{
    if l <= AV_LOG_ERROR {
        LogLevel::Error
    } else if l <= AV_LOG_WARNING {
        LogLevel::Warn
    } else if l <= AV_LOG_INFO {
        LogLevel::Info
    } else if l <= AV_LOG_VERBOSE {
        LogLevel::Debug
    } else {
        LogLevel::Trace
    }
}

/// A rational number as the native library passes it: numerator over
/// denominator.
#[derive(Copy, Clone, Debug, PartialEq, Eq, Structural)]
pub struct Rational {
    pub num: i32,
    pub den: i32,
}

/// The media-type tag of the video kind.
pub const AVMEDIA_TYPE_VIDEO: i32 = 0;

/// Kind of an elementary stream (audio, video, subtitles, ...), as the
/// native library tags it.
#[derive(Copy, Clone, Debug, PartialEq, Eq, Structural)]
pub struct MediaType {
    raw: i32,
}

impl MediaType {
    pub closed spec fn spec_raw(self) -> i32 {
        self.raw
    }

    pub fn from_raw(raw: i32) -> (r: MediaType)
        ensures
            r.spec_raw() == raw,
    {
        MediaType { raw }
    }

    pub fn is_video(self) -> (r: bool)
        ensures
            r == (self.spec_raw() == AVMEDIA_TYPE_VIDEO),
    {
        self.raw == AVMEDIA_TYPE_VIDEO
    }
}

/// Pixel-format tag of no format at all.
pub const AV_PIX_FMT_NONE: i32 = -1;

/// Pixel-format tag of packed 8-bit red, green, blue.
pub const AV_PIX_FMT_RGB24: i32 = 2;

/// Pixel-format tag of packed 8-bit blue, green, red.
pub const AV_PIX_FMT_BGR24: i32 = 3;

/// A pixel-format tag of the native library.
#[derive(Copy, Clone, Debug, PartialEq, Eq, Structural)]
pub struct PixelFormat {
    raw: i32,
}

impl PixelFormat {
    pub closed spec fn spec_raw(self) -> i32 {
        self.raw
    }

    pub fn from_raw(raw: i32) -> (r: PixelFormat)
        ensures
            r.spec_raw() == raw,
    {
        PixelFormat { raw }
    }

    pub fn raw(self) -> (r: i32)
        ensures
            r == self.spec_raw(),
    {
        self.raw
    }

    pub fn none() -> (r: PixelFormat)
        ensures
            r.spec_raw() == AV_PIX_FMT_NONE,
    {
        PixelFormat { raw: AV_PIX_FMT_NONE }
    }

    pub fn rgb24() -> (r: PixelFormat)
        ensures
            r.spec_raw() == AV_PIX_FMT_RGB24,
    {
        PixelFormat { raw: AV_PIX_FMT_RGB24 }
    }

    pub fn bgr24() -> (r: PixelFormat)
        ensures
            r.spec_raw() == AV_PIX_FMT_BGR24,
    {
        PixelFormat { raw: AV_PIX_FMT_BGR24 }
    }
}

/// Width, height and pixel format of one image.
#[derive(Copy, Clone, Debug, PartialEq, Eq, Structural)]
pub struct ImageDimensions {
    pub width: i32,
    pub height: i32,
    pub pix_fmt: PixelFormat,
}

/// Borrowed view of one plane of a decoded image: its pixel rows, the
/// stride between rows, and the image dimensions.
pub struct Plane<'f> {
    pub data: &'f [u8],
    pub linesize: usize,
    pub width: usize,
    pub height: usize,
}

/// One image's worth of pixel storage plus the metadata captured when the
/// storage was allocated or filled by a decode: dimensions, per-plane
/// strides, and the presentation timestamp.
///
/// A frame is either empty (no plane storage at all) or holds storage
/// whose per-plane length is exactly stride times height.
pub struct VideoFrame {
    dims: ImageDimensions,
    linesizes: Vec<usize>,
    planes: Vec<Vec<u8>>,
    pts: i64,
}

/// The layout rule every frame obeys: at most eight planes, one stride
/// per plane, positive strides, non-negative dimensions, and plane
/// storage of exactly stride times height bytes.
pub open spec fn layout_consistent(
    dims: ImageDimensions,
    linesizes: Seq<usize>,
    planes: Seq<Seq<u8>>,
) -> bool {
    &&& planes.len() == linesizes.len()
    &&& planes.len() <= 8
    &&& dims.width >= 0
    &&& dims.height >= 0
    &&& forall|i: int|
        0 <= i < planes.len() ==> {
            &&& linesizes[i] > 0
            &&& (#[trigger] planes[i]).len() == linesizes[i] * (dims.height as int)
        }
}

impl VideoFrame {
    pub closed spec fn spec_dims(&self) -> ImageDimensions {
        self.dims
    }

    pub closed spec fn spec_linesizes(&self) -> Seq<usize> {
        self.linesizes@
    }

    pub closed spec fn spec_planes(&self) -> Seq<Seq<u8>> {
        self.planes.deep_view()
    }

    pub closed spec fn spec_pts(&self) -> i64 {
        self.pts
    }

    pub open spec fn wf(&self) -> bool {
        layout_consistent(self.spec_dims(), self.spec_linesizes(), self.spec_planes())
    }

    /// A frame with no backing pixel storage at all, dimensions zero and
    /// no pixel format, ready to be filled later.
    pub fn empty() -> (r: Result<VideoFrame, Error>)
        ensures
            r matches Ok(f) && f.wf() && f.spec_dims().width == 0 && f.spec_dims().height == 0
                && f.spec_dims().pix_fmt.spec_raw() == AV_PIX_FMT_NONE && f.spec_planes().len()
                == 0 && f.spec_pts() == 0,
    {
        Ok(
            VideoFrame {
                dims: ImageDimensions { width: 0, height: 0, pix_fmt: PixelFormat::none() },
                linesizes: Vec::new(),
                planes: Vec::new(),
                pts: 0,
            },
        )
    }

    /// Decides whether plane storage and strides obey the layout rule.
    fn layout_ok(dims: ImageDimensions, linesizes: &Vec<usize>, planes: &Vec<Vec<u8>>) -> (r:
        bool)
        ensures
            r == layout_consistent(dims, linesizes@, planes.deep_view()),
    {
        if planes.len() != linesizes.len() || planes.len() > 8 || dims.width < 0 || dims.height
            < 0 {
            return false;
        }
        let height: usize = dims.height as usize;
        let mut i: usize = 0;
        while i < planes.len()
            invariant
                i <= planes.len(),
                planes.len() == linesizes.len(),
                dims.height >= 0,
                height == dims.height,
                forall|j: int| 0 <= j < i ==> #[trigger] linesizes@[j] > 0,
                forall|j: int|
                    0 <= j < i ==> (#[trigger] planes.deep_view()[j]).len() == linesizes@[j] * (
                    dims.height as int),
            decreases planes.len() - i,
        {
            assert(planes.deep_view()[i as int] =~= planes@[i as int]@);
            let stride: usize = linesizes[i];
            let plen: usize = planes[i].len();
            let mut ok: bool = stride > 0;
            if ok {
                ok = match stride.checked_mul(height) {
                    Some(n) => plen == n,
                    None => false,
                };
            }
            if !ok {
                assert(!layout_consistent(dims, linesizes@, planes.deep_view())) by {
                    if layout_consistent(dims, linesizes@, planes.deep_view()) {
                        assert(linesizes@[i as int] > 0 && planes.deep_view()[i as int].len()
                            == linesizes@[i as int] * (dims.height as int));
                    }
                }
                return false;
            }
            assert(planes.deep_view()[i as int].len() == linesizes@[i as int] * (
            dims.height as int));
            i += 1;
        }
        true
    }

    /// Captures a frame from plane storage and strides, checking the
    /// layout rule; a layout that breaks the rule is rejected as invalid
    /// data.
    pub fn from_layout(
        dims: ImageDimensions,
        linesizes: Vec<usize>,
        planes: Vec<Vec<u8>>,
        pts: i64,
    ) -> (r: Result<VideoFrame, Error>)
        ensures
            layout_consistent(dims, linesizes@, planes.deep_view()) ==> (r matches Ok(f)
                && f.spec_dims() == dims && f.spec_linesizes() == linesizes@ && f.spec_planes()
                == planes.deep_view() && f.spec_pts() == pts && f.wf()),
            !layout_consistent(dims, linesizes@, planes.deep_view()) ==> (r matches Err(e)
                && e.spec_code() == AVERROR_INVALIDDATA),
    {
        if Self::layout_ok(dims, &linesizes, &planes) {
            Ok(VideoFrame { dims, linesizes, planes, pts })
        } else {
            Err(Error::invalid_data())
        }
    }

    /// Borrows one plane of the frame.  The plane index must be in range
    /// and the plane must have backing storage; the returned slice is
    /// exactly stride times height bytes long.
    pub fn plane(&self, plane: usize) -> (r: Plane<'_>)
        requires
            self.wf(),
            plane < 8,
            plane < self.spec_planes().len(),
        ensures
            r.data@ == self.spec_planes()[plane as int],
            r.linesize == self.spec_linesizes()[plane as int],
            r.width == self.spec_dims().width,
            r.height == self.spec_dims().height,
            r.data@.len() == r.linesize * r.height,
    {
        assert(self.spec_planes()[plane as int] == self.planes@[plane as int]@);
        Plane {
            data: self.planes[plane].as_slice(),
            linesize: self.linesizes[plane],
            width: self.dims.width as usize,
            height: self.dims.height as usize,
        }
    }

    pub fn dims(&self) -> (r: ImageDimensions)
        ensures
            r == self.spec_dims(),
    {
        self.dims
    }

    pub fn pts(&self) -> (r: i64)
        ensures
            r == self.spec_pts(),
    {
        self.pts
    }
}

/// Every plane of a well-formed frame is bounded: its storage is
/// exactly stride times height bytes long, so no view of it can exceed
/// that bound.
pub proof fn lemma_plane_storage_bounded(f: &VideoFrame, plane: int)
    requires
        f.wf(),
        0 <= plane < f.spec_planes().len(),
    ensures
        f.spec_planes()[plane].len() == f.spec_linesizes()[plane] * (f.spec_dims().height as int),
        f.spec_planes()[plane].len() <= f.spec_linesizes()[plane] * (f.spec_dims().height as int),
        f.spec_linesizes()[plane] > 0,
{
    let p = f.spec_planes()[plane];
    assert(p.len() == f.spec_linesizes()[plane] * (f.spec_dims().height as int));
    assert(f.spec_linesizes()[plane] > 0);
}

/// The text a dictionary renders to: `key=value` pairs joined by a comma
/// and a space, in storage order.
pub open spec fn spec_render_entries(s: Seq<(Seq<char>, Seq<char>)>) -> Seq<char>
    decreases s.len(),
{
    if s.len() == 0 {
        Seq::empty()
    } else {
        let sep: Seq<char> = if s.len() == 1 {
            Seq::empty()
        } else {
            ", "@
        };
        spec_render_entries(s.drop_last()) + sep + s.last().0 + "="@ + s.last().1
    }
}

/// An ordered key/value option store, as handed to open and decode calls.
/// Keys are unique; setting an existing key replaces its value in place,
/// setting a fresh key appends.
pub struct Dictionary {
    entries: Vec<(String, String)>,
}

impl Dictionary {
    /// The stored pairs, in storage order.
    pub closed spec fn spec_entries(&self) -> Seq<(Seq<char>, Seq<char>)> {
        Seq::new(self.entries@.len(), |i: int| (self.entries@[i].0@, self.entries@[i].1@))
    }

    /// Keys are pairwise distinct.
    pub open spec fn wf(&self) -> bool {
        forall|i: int, j: int|
            0 <= i < j < self.spec_entries().len() ==> (#[trigger] self.spec_entries()[i]).0 != (
            #[trigger] self.spec_entries()[j]).0
    }

    pub open spec fn spec_has_key(&self, key: Seq<char>) -> bool {
        exists|i: int|
            0 <= i < self.spec_entries().len() && (#[trigger] self.spec_entries()[i]).0 == key
    }

    pub fn new() -> (r: Dictionary)
        ensures
            r.spec_entries().len() == 0,
            r.wf(),
    {
        Dictionary { entries: Vec::new() }
    }

    /// How many entries the dictionary holds.
    pub fn size(&self) -> (r: usize)
        ensures
            r == self.spec_entries().len(),
    {
        self.entries.len()
    }

    pub fn empty(&self) -> (r: bool)
        ensures
            r == (self.spec_entries().len() == 0),
    {
        self.size() == 0
    }

    /// Stores `value` under `key`: the value of an existing key is
    /// replaced, a fresh key is appended at the end.  Key uniqueness is
    /// preserved, and no other entry moves or changes.
    pub fn set(&mut self, key: &str, value: &str) -> (r: Result<(), Error>)
        requires
            old(self).wf(),
        ensures
            r is Ok,
            final(self).wf(),
            old(self).spec_has_key(key@) ==> {
                &&& final(self).spec_entries().len() == old(self).spec_entries().len()
                &&& forall|j: int|
                    0 <= j < old(self).spec_entries().len() && (#[trigger] old(self).spec_entries()[j]).0 != key@ ==> final(self).spec_entries()[j] == old(self).spec_entries()[j]
                &&& forall|j: int|
                    0 <= j < old(self).spec_entries().len() && (#[trigger] old(self).spec_entries()[j]).0 == key@ ==> final(self).spec_entries()[j] == (
                    key@, value@)
            },
            !old(self).spec_has_key(key@) ==> final(self).spec_entries() == old(self).spec_entries().push((key@, value@)),
    {
        let key_owned: String = key.to_owned();
        let value_owned: String = value.to_owned();
        let mut i: usize = 0;
        while i < self.entries.len()
            invariant
                i <= self.entries.len(),
                *self == *old(self),
                old(self).wf(),
                key_owned@ == key@,
                value_owned@ == value@,
                forall|j: int| 0 <= j < i ==> (#[trigger] self.spec_entries()[j]).0 != key@,
            decreases self.entries.len() - i,
        {
            if self.entries[i].0 == key_owned {
                assert(self.spec_entries()[i as int].0 == key@);
                self.entries[i] = (key_owned, value_owned);
                proof {
                    let oe = old(self).spec_entries();
                    let ne = self.spec_entries();
                    assert forall|j: int| 0 <= j < oe.len() implies #[trigger] ne[j] == (if oe[j].0
                        == key@ {
                        (key@, value@)
                    } else {
                        oe[j]
                    }) by {
                        assert(oe[j] == (old(self).entries@[j].0@, old(self).entries@[j].1@));
                        assert(ne[j] == (self.entries@[j].0@, self.entries@[j].1@));
                        assert(oe[i as int].0 == key@);
                        if oe[j].0 == key@ {
                            if j < i as int {
                                assert((old(self).spec_entries()[j]).0 != (old(self).spec_entries()[i as int]).0);
                                assert(false);
                            } else if j > i as int {
                                assert((old(self).spec_entries()[i as int]).0 != (old(self).spec_entries()[j]).0);
                                assert(false);
                            }
                            assert(ne[j] == (key@, value@));
                        } else {
                            assert(j != i as int);
                            assert(self.entries@[j] == old(self).entries@[j]);
                            assert(ne[j] == oe[j]);
                        }
                    }
                    assert forall|j: int| 0 <= j < ne.len() implies (#[trigger] ne[j]).0
                        == oe[j].0 by {
                        assert(ne[j] == (if oe[j].0 == key@ {
                            (key@, value@)
                        } else {
                            oe[j]
                        }));
                    }
                }
                return Ok(());
            }
            i += 1;
        }
        assert(!old(self).spec_has_key(key@));
        self.entries.push((key_owned, value_owned));
        assert(final(self).spec_entries() =~= old(self).spec_entries().push((key@, value@)));
        return Ok(());
    }

    /// The key of the entry at `i`, in storage order.
    pub fn key_at(&self, i: usize) -> (r: &str)
        requires
            i < self.spec_entries().len(),
        ensures
            r@ == self.spec_entries()[i as int].0,
    {
        self.entries[i].0.as_str()
    }

    /// The value of the entry at `i`, in storage order.
    pub fn value_at(&self, i: usize) -> (r: &str)
        requires
            i < self.spec_entries().len(),
        ensures
            r@ == self.spec_entries()[i as int].1,
    {
        self.entries[i].1.as_str()
    }

    /// Renders the entries as `key=value` pairs joined by a comma and a
    /// space, in storage order.
    pub fn render(&self) -> (r: String)
        ensures
            r@ == spec_render_entries(self.spec_entries()),
    {
        let mut out: String = String::new();
        let mut i: usize = 0;
        while i < self.entries.len()
            invariant
                i <= self.entries.len(),
                out@ == spec_render_entries(self.spec_entries().take(i as int)),
            decreases self.entries.len() - i,
        {
            if i > 0 {
                out.append(", ");
            }
            out.append(self.entries[i].0.as_str());
            out.append("=");
            out.append(self.entries[i].1.as_str());
            proof {
                let s = self.spec_entries();
                assert(s.take(i + 1).drop_last() =~= s.take(i as int));
                assert(s.take(i + 1).last() == s[i as int]);
            }
            i += 1;
        }
        proof {
            assert(self.spec_entries().take(self.entries@.len() as int) =~= self.spec_entries());
        }
        out
    }
}

impl Default for Dictionary {
    fn default() -> (r: Dictionary)
        ensures
            r.spec_entries().len() == 0,
            r.wf(),
    {
        Dictionary::new()
    }
}

/// End of stream is classified apart from every other well-known
/// failure: the well-known codes are pairwise distinct, so a return code
/// surfaces as `is_eof` exactly when it is the end-of-stream constant
/// and an exhausted stream is never reported as any other error.
pub proof fn lemma_error_codes_distinct()
    ensures
        AVERROR_EOF != AVERROR_UNKNOWN,
        AVERROR_EOF != AVERROR_ENOMEM,
        AVERROR_EOF != AVERROR_DECODER_NOT_FOUND,
        AVERROR_EOF != AVERROR_ENOSYS,
        AVERROR_EOF != AVERROR_INVALIDDATA,
        AVERROR_UNKNOWN != AVERROR_ENOMEM,
        AVERROR_UNKNOWN != AVERROR_DECODER_NOT_FOUND,
        AVERROR_UNKNOWN != AVERROR_ENOSYS,
        AVERROR_UNKNOWN != AVERROR_INVALIDDATA,
        AVERROR_ENOMEM != AVERROR_DECODER_NOT_FOUND,
        AVERROR_ENOMEM != AVERROR_ENOSYS,
        AVERROR_ENOMEM != AVERROR_INVALIDDATA,
        AVERROR_DECODER_NOT_FOUND != AVERROR_ENOSYS,
        AVERROR_DECODER_NOT_FOUND != AVERROR_INVALIDDATA,
        AVERROR_ENOSYS != AVERROR_INVALIDDATA,
{
}

} // verus!
