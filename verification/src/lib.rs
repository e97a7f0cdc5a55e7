//! Safe, verified boundary layer for a native C multimedia library.
//!
//! The native library demuxes containers, decodes video, and rescales
//! images behind opaque handles, signed integer return codes, callback
//! based I/O, and a variadic logging hook.  This crate holds the logic of
//! that boundary as verified code over plain values: the error model, the
//! version compatibility rule, the capability-based I/O contract, the
//! packet and frame data model, and the log-line accumulation protocol.
//! The raw foreign calls themselves live outside the verified library and
//! hand plain values in and out.

use vstd::prelude::*;

pub mod avcodec;
pub mod avformat;
pub mod avutil;
pub mod handle;

pub use avutil::Error;
use avcodec::AV_CODEC_ID_AAC;
use avcodec::AV_CODEC_ID_H264;
use avcodec::AV_NOPTS_VALUE;
use avformat::AVSEEK_FORCE;
use avformat::AVSEEK_SIZE;
use avformat::SEEK_CUR;
use avformat::SEEK_END;
use avformat::SEEK_SET;
use avutil::spec_convert_level;
use avutil::LogLevel;
use avutil::AVERROR_DECODER_NOT_FOUND;
use avutil::AVERROR_ENOMEM;
use avutil::AVERROR_ENOSYS;
use avutil::AVERROR_EOF;
use avutil::AVERROR_INVALIDDATA;
use avutil::AVERROR_UNKNOWN;
use avutil::AVMEDIA_TYPE_VIDEO;
use avutil::AV_PIX_FMT_BGR24;
use avutil::AV_PIX_FMT_RGB24;

verus! {

/// A packed native library version: major, minor and micro, one byte
/// each, from the most significant end.
#[derive(Copy, Clone, PartialEq, Eq, Structural, Debug)]
pub struct Version {
    raw: i32,
}

impl Version {
    pub closed spec fn spec_raw(self) -> i32 {
        self.raw
    }

    pub open spec fn spec_major(self) -> i32 {
        (self.spec_raw() >> 16) & 0xFF
    }

    pub open spec fn spec_minor(self) -> i32 {
        (self.spec_raw() >> 8) & 0xFF
    }

    pub open spec fn spec_micro(self) -> i32 {
        self.spec_raw() & 0xFF
    }

    pub fn from_raw(raw: i32) -> (r: Version)
        ensures
            r.spec_raw() == raw,
    {
        Version { raw }
    }

    pub fn major(self) -> (r: i32)
        ensures
            r == self.spec_major(),
    {
        (self.raw >> 16) & 0xFF
    }

    pub fn minor(self) -> (r: i32)
        ensures
            r == self.spec_minor(),
    {
        (self.raw >> 8) & 0xFF
    }

    pub fn micro(self) -> (r: i32)
        ensures
            r == self.spec_micro(),
    {
        self.raw & 0xFF
    }
}

/// One native sub-library: the version this layer was compiled against,
/// the version found running, and the build configuration reported by
/// the running copy.
pub struct Library {
    name: String,
    compiled: Version,
    running: Version,
    configuration: String,
}

impl Library {
    pub closed spec fn spec_name(&self) -> Seq<char> {
        self.name@
    }

    pub closed spec fn spec_compiled(&self) -> Version {
        self.compiled
    }

    pub closed spec fn spec_running(&self) -> Version {
        self.running
    }

    pub closed spec fn spec_configuration(&self) -> Seq<char> {
        self.configuration@
    }

    /// The compatibility rule: equal major version, and a running minor
    /// version at least the compiled minor version.
    pub open spec fn spec_compatible(&self) -> bool {
        self.spec_running().spec_major() == self.spec_compiled().spec_major()
            && self.spec_running().spec_minor() >= self.spec_compiled().spec_minor()
    }

    pub fn new(name: &str, compiled: i32, running: i32, configuration: &str) -> (r: Library)
        ensures
            r.spec_name() == name@,
            r.spec_compiled().spec_raw() == compiled,
            r.spec_running().spec_raw() == running,
            r.spec_configuration() == configuration@,
    {
        Library {
            name: name.to_owned(),
            compiled: Version::from_raw(compiled),
            running: Version::from_raw(running),
            configuration: configuration.to_owned(),
        }
    }

    /// True exactly when the running library is usable by code compiled
    /// against the compiled version: the major versions are equal and the
    /// running minor version is no older than the compiled one.
    pub fn is_compatible(&self) -> (r: bool)
        ensures
            r == self.spec_compatible(),
    {
        self.running.major() == self.compiled.major() && self.running.minor()
            >= self.compiled.minor()
    }

    pub fn name(&self) -> (r: &str)
        ensures
            r@ == self.spec_name(),
    {
        self.name.as_str()
    }

    pub fn compiled(&self) -> (r: Version)
        ensures
            r == self.spec_compiled(),
    {
        self.compiled
    }

    pub fn running(&self) -> (r: Version)
        ensures
            r == self.spec_running(),
    {
        self.running
    }

    pub fn configuration(&self) -> (r: &str)
        ensures
            r@ == self.spec_configuration(),
    {
        self.configuration.as_str()
    }
}

/// True exactly when every listed sub-library passes the compatibility
/// rule; one-time initialization must fail when this is false.
pub fn all_compatible(libs: &Vec<Library>) -> (r: bool)
    ensures
        r == forall|i: int| 0 <= i < libs@.len() ==> (#[trigger] libs@[i]).spec_compatible(),
{
    let mut i: usize = 0;
    while i < libs.len()
        invariant
            i <= libs@.len(),
            forall|j: int| 0 <= j < i ==> (#[trigger] libs@[j]).spec_compatible(),
        decreases libs@.len() - i,
    {
        if !libs[i].is_compatible() {
            assert(!libs@[i as int].spec_compatible());
            return false;
        }
        i += 1;
    }
    true
}

/// Token of completed one-time initialization of the native library.
/// The unverified side performs the native setup and hands this out; all
/// further constructions are no-ops yielding the same token value.
pub struct Ffmpeg {}

/// The well-known constants as the running native build reports them.
/// The contracts of this crate use compiled-in values for these; the
/// tag-built error codes and enum tags are fixed by the native ABI, but
/// the errno-derived codes vary by platform, so one-time initialization
/// must check the running build agrees and fail fatally where it does
/// not, exactly as it does for an incompatible version.
pub struct NativeConstants {
    pub averror_eof: i32,
    pub averror_enomem: i32,
    pub averror_decoder_not_found: i32,
    pub averror_unknown: i32,
    pub averror_enosys: i32,
    pub averror_invaliddata: i32,
    pub avmedia_type_video: i32,
    pub pix_fmt_rgb24: i32,
    pub pix_fmt_bgr24: i32,
    pub nopts_value: i64,
    pub codec_id_aac: i32,
    pub codec_id_h264: i32,
    pub seek_set: i32,
    pub seek_cur: i32,
    pub seek_end: i32,
    pub avseek_size: i32,
    pub avseek_force: i32,
}

/// True exactly when every constant the running native build reports
/// equals the compiled-in value this crate's contracts are stated over.
pub fn constants_agree(c: &NativeConstants) -> (r: bool)
    ensures
        r == {
            &&& c.averror_eof == AVERROR_EOF
            &&& c.averror_enomem == AVERROR_ENOMEM
            &&& c.averror_decoder_not_found == AVERROR_DECODER_NOT_FOUND
            &&& c.averror_unknown == AVERROR_UNKNOWN
            &&& c.averror_enosys == AVERROR_ENOSYS
            &&& c.averror_invaliddata == AVERROR_INVALIDDATA
            &&& c.avmedia_type_video == AVMEDIA_TYPE_VIDEO
            &&& c.pix_fmt_rgb24 == AV_PIX_FMT_RGB24
            &&& c.pix_fmt_bgr24 == AV_PIX_FMT_BGR24
            &&& c.nopts_value == AV_NOPTS_VALUE
            &&& c.codec_id_aac == AV_CODEC_ID_AAC
            &&& c.codec_id_h264 == AV_CODEC_ID_H264
            &&& c.seek_set == SEEK_SET
            &&& c.seek_cur == SEEK_CUR
            &&& c.seek_end == SEEK_END
            &&& c.avseek_size == AVSEEK_SIZE
            &&& c.avseek_force == AVSEEK_FORCE
        },
{
    c.averror_eof == AVERROR_EOF && c.averror_enomem == AVERROR_ENOMEM
        && c.averror_decoder_not_found == AVERROR_DECODER_NOT_FOUND && c.averror_unknown
        == AVERROR_UNKNOWN && c.averror_enosys == AVERROR_ENOSYS && c.averror_invaliddata
        == AVERROR_INVALIDDATA && c.avmedia_type_video == AVMEDIA_TYPE_VIDEO && c.pix_fmt_rgb24
        == AV_PIX_FMT_RGB24 && c.pix_fmt_bgr24 == AV_PIX_FMT_BGR24 && c.nopts_value
        == AV_NOPTS_VALUE && c.codec_id_aac == AV_CODEC_ID_AAC && c.codec_id_h264
        == AV_CODEC_ID_H264 && c.seek_set == SEEK_SET && c.seek_cur == SEEK_CUR && c.seek_end
        == SEEK_END && c.avseek_size == AVSEEK_SIZE && c.avseek_force == AVSEEK_FORCE
}

/// A byte that ends an accumulated log line.
pub open spec fn spec_is_terminator(b: u8) -> bool {
    b == 10 || b == 13
}

/// The native library's own sanitization of log text: low control
/// characters other than the whitespace range become a question mark.
pub open spec fn spec_sanitize_byte(b: u8) -> u8 {
    if b < 0x08 || (b > 0x0D && b < 0x20) {
        0x3F
    } else {
        b
    }
}

pub fn sanitize_byte(b: u8) -> (r: u8)
    ensures
        r == spec_sanitize_byte(b),
{
    if b < 0x08 || (b > 0x0D && b < 0x20) {
        0x3F
    } else {
        b
    }
}

/// One structured record reconstructed from the native logging callback:
/// mapped severity, derived target, and the accumulated line without its
/// terminator.
pub struct LogRecord {
    pub level: LogLevel,
    pub target: String,
    pub text: Vec<u8>,
}

/// The target string of a record: a fixed prefix naming this layer,
/// followed by the native item name, or a placeholder when the native
/// side passed none.
pub open spec fn spec_log_target(item_name: Option<Seq<char>>) -> Seq<char> {
    "moonfire_ffmpeg::"@ + (match item_name {
        Some(n) => n,
        None => "null"@,
    })
}

pub fn log_target(item_name: Option<&str>) -> (r: String)
    ensures
        item_name matches Some(n) ==> r@ == spec_log_target(Some(n@)),
        item_name is None ==> r@ == spec_log_target(None),
{
    let mut s: String = String::from_str("moonfire_ffmpeg::");
    match item_name {
        Some(n) => s.append(n),
        None => s.append("null"),
    }
    s
}

/// Whether a record of this severity is wanted at all: false when no
/// sink is enabled, or when the finest enabled level is coarser than the
/// record.
pub open spec fn spec_should_log(record: LogLevel, max_enabled: Option<LogLevel>) -> bool {
    match max_enabled {
        Some(m) => record.spec_rank() <= m.spec_rank(),
        None => false,
    }
}

pub fn should_log(record: LogLevel, max_enabled: Option<LogLevel>) -> (r: bool)
    ensures
        r == spec_should_log(record, max_enabled),
{
    match max_enabled {
        Some(m) => record.rank() <= m.rank(),
        None => false,
    }
}

/// Accumulates the native logging callback's partial lines for one
/// thread and emits each full line exactly once.
///
/// The native side may call its hook several times to build one logical
/// line; a line is complete only when the accumulated bytes end in a
/// terminator.  On completion the whole line is sanitized, stripped of
/// the terminator, and handed out, and the buffer empties.
pub struct LogBridge {
    buf: Vec<u8>,
}

impl LogBridge {
    /// The bytes accumulated so far for the incomplete current line.
    pub closed spec fn spec_buf(&self) -> Seq<u8> {
        self.buf@
    }

    pub fn new() -> (r: LogBridge)
        ensures
            r.spec_buf() == Seq::<u8>::empty(),
    {
        LogBridge { buf: Vec::new() }
    }

    /// Appends one formatted chunk.  If the accumulated bytes now end in
    /// a terminator the completed line is returned, sanitized and with
    /// the terminator stripped, and the buffer empties; otherwise
    /// nothing is emitted and everything is kept for the next chunk.
    pub fn push_chunk(&mut self, chunk: &[u8]) -> (r: Option<Vec<u8>>)
        ensures
            ({
                let all = old(self).spec_buf() + chunk@;
                let complete = all.len() > 0 && spec_is_terminator(all.last());
                &&& complete ==> (r matches Some(out) && out@ == all.take(all.len() - 1).map_values(
                    |b: u8| spec_sanitize_byte(b),
                ) && final(self).spec_buf() == Seq::<u8>::empty())
                &&& !complete ==> (r is None && final(self).spec_buf() == all)
            }),
    {
        let ghost all = self.buf@ + chunk@;
        let mut k: usize = 0;
        while k < chunk.len()
            invariant
                k <= chunk.len(),
                self.buf@ == old(self).buf@ + chunk@.take(k as int),
            decreases chunk.len() - k,
        {
            self.buf.push(chunk[k]);
            proof {
                assert(old(self).buf@ + chunk@.take(k + 1) =~= (old(self).buf@ + chunk@.take(
                    k as int,
                )).push(chunk@[k as int]));
            }
            k += 1;
        }
        proof {
            assert(chunk@.take(chunk@.len() as int) =~= chunk@);
            assert(self.buf@ =~= all);
        }
        let n = self.buf.len();
        if n == 0 {
            return None;
        }
        let last = self.buf[n - 1];
        if !(last == 10 || last == 13) {
            return None;
        }
        let mut out: Vec<u8> = Vec::new();
        let mut i: usize = 0;
        while i < n - 1
            invariant
                n == self.buf@.len(),
                n >= 1,
                i <= n - 1,
                out@.len() == i,
                forall|j: int| 0 <= j < i ==> out@[j] == spec_sanitize_byte(#[trigger] self.buf@[j]),
                self.buf@ == all,
            decreases n - 1 - i,
        {
            out.push(sanitize_byte(self.buf[i]));
            i += 1;
        }
        self.buf.clear();
        proof {
            assert(out@ =~= all.take(all.len() - 1).map_values(|b: u8| spec_sanitize_byte(b)));
        }
        Some(out)
    }

    /// The whole decision made for one native logging callback, given
    /// the native level, the finest level any sink wants, the native
    /// item name, and the chunk the native arguments formatted to.
    ///
    /// A record whose severity nothing wants is dropped without touching
    /// the buffer; otherwise the chunk accumulates, and a record is
    /// emitted exactly when it completes a line.
    pub fn log_event(
        &mut self,
        native_level: i32,
        max_enabled: Option<LogLevel>,
        item_name: Option<&str>,
        chunk: &[u8],
    ) -> (r: Option<LogRecord>)
        ensures
            ({
                let lvl = spec_convert_level(native_level);
                let all = old(self).spec_buf() + chunk@;
                let complete = all.len() > 0 && spec_is_terminator(all.last());
                &&& !spec_should_log(lvl, max_enabled) ==> (r is None && final(self).spec_buf()
                    == old(self).spec_buf())
                &&& (spec_should_log(lvl, max_enabled) && !complete) ==> (r is None
                    && final(self).spec_buf() == all)
                &&& (spec_should_log(lvl, max_enabled) && complete) ==> (r matches Some(rec) && {
                    &&& rec.level == lvl
                    &&& (item_name matches Some(n) ==> rec.target@ == spec_log_target(Some(n@)))
                    &&& (item_name is None ==> rec.target@ == spec_log_target(None))
                    &&& rec.text@ == all.take(all.len() - 1).map_values(
                        |b: u8| spec_sanitize_byte(b),
                    )
                    &&& final(self).spec_buf() == Seq::<u8>::empty()
                })
            }),
    {
        let level = avutil::convert_level(native_level);
        if !should_log(level, max_enabled) {
            return None;
        }
        match self.push_chunk(chunk) {
            None => None,
            Some(text) => Some(
                LogRecord { level, target: log_target(item_name), text },
            ),
        }
    }
}

} // verus!
