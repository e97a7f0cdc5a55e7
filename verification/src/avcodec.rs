//! Codec-side data model: packets, codec identifiers, codec parameters
//! and contexts, and the decisions taken while a decoder is set up and
//! driven.

use vstd::prelude::*;

use crate::avutil::AVERROR_DECODER_NOT_FOUND;
use crate::avutil::AVERROR_ENOMEM;
use crate::avutil::Error;
use crate::avutil::ImageDimensions;
use crate::avutil::MediaType;
use crate::avutil::PixelFormat;
use crate::avutil::Rational;
use crate::avutil::AVMEDIA_TYPE_VIDEO;

verus! {

/// The sentinel timestamp meaning "no timestamp at all".
pub const AV_NOPTS_VALUE: i64 = i64::MIN;

/// Codec identifier of the AAC audio codec.
pub const AV_CODEC_ID_AAC: i32 = 86018;

/// Codec identifier of the H.264 video codec.
pub const AV_CODEC_ID_H264: i32 = 27;

/// A codec identifier of the native library.
#[derive(Copy, Clone, PartialEq, Eq, Structural, Debug)]
pub struct CodecId {
    raw: i32,
}

impl CodecId {
    pub closed spec fn spec_raw(self) -> i32 {
        self.raw
    }

    pub fn from_raw(raw: i32) -> (r: CodecId)
        ensures
            r.spec_raw() == raw,
    {
        CodecId { raw }
    }

    pub fn raw(self) -> (r: i32)
        ensures
            r == self.spec_raw(),
    {
        self.raw
    }

    pub fn is_aac(self) -> (r: bool)
        ensures
            r == (self.spec_raw() == AV_CODEC_ID_AAC),
    {
        self.raw == AV_CODEC_ID_AAC
    }

    pub fn is_h264(self) -> (r: bool)
        ensures
            r == (self.spec_raw() == AV_CODEC_ID_H264),
    {
        self.raw == AV_CODEC_ID_H264
    }
}

/// One demultiplexed unit of stream data: payload bytes and timing
/// metadata, captured as plain values from the context's single reusable
/// packet slot.
pub struct Packet {
    pts: i64,
    dts: i64,
    duration: i32,
    stream_index: usize,
    key: bool,
    data: Option<Vec<u8>>,
}

impl Packet {
    pub closed spec fn spec_pts(&self) -> i64 {
        self.pts
    }

    pub closed spec fn spec_dts(&self) -> i64 {
        self.dts
    }

    pub closed spec fn spec_duration(&self) -> i32 {
        self.duration
    }

    pub closed spec fn spec_stream_index(&self) -> usize {
        self.stream_index
    }

    pub closed spec fn spec_key(&self) -> bool {
        self.key
    }

    pub closed spec fn spec_data(&self) -> Option<Seq<u8>> {
        match self.data {
            Some(v) => Some(v@),
            None => None,
        }
    }

    /// Captures one demultiplexed unit from its plain fields.  The raw
    /// presentation timestamp uses the sentinel for "none".
    pub fn from_fields(
        pts: i64,
        dts: i64,
        duration: i32,
        stream_index: usize,
        key: bool,
        data: Option<Vec<u8>>,
    ) -> (r: Packet)
        ensures
            r.spec_pts() == pts,
            r.spec_dts() == dts,
            r.spec_duration() == duration,
            r.spec_stream_index() == stream_index,
            r.spec_key() == key,
            data matches Some(v) ==> r.spec_data() matches Some(d) && d == v@,
            data is None ==> r.spec_data() is None,
    {
        Packet { pts, dts, duration, stream_index, key, data }
    }

    pub fn is_key(&self) -> (r: bool)
        ensures
            r == self.spec_key(),
    {
        self.key
    }

    /// The presentation timestamp, with the native sentinel decoded to
    /// "none".
    pub fn pts(&self) -> (r: Option<i64>)
        ensures
            self.spec_pts() == AV_NOPTS_VALUE ==> r is None,
            self.spec_pts() != AV_NOPTS_VALUE ==> r == Some(self.spec_pts()),
    {
        if self.pts == AV_NOPTS_VALUE {
            None
        } else {
            Some(self.pts)
        }
    }

    /// Stores a presentation timestamp, encoding "none" as the native
    /// sentinel.
    pub fn set_pts(&mut self, pts: Option<i64>)
        ensures
            pts matches Some(v) ==> final(self).spec_pts() == v,
            pts is None ==> final(self).spec_pts() == AV_NOPTS_VALUE,
            final(self).spec_dts() == old(self).spec_dts(),
            final(self).spec_duration() == old(self).spec_duration(),
            final(self).spec_stream_index() == old(self).spec_stream_index(),
            final(self).spec_key() == old(self).spec_key(),
            final(self).spec_data() == old(self).spec_data(),
    {
        self.pts = match pts {
            None => AV_NOPTS_VALUE,
            Some(v) => v,
        };
    }

    pub fn dts(&self) -> (r: i64)
        ensures
            r == self.spec_dts(),
    {
        self.dts
    }

    pub fn set_dts(&mut self, dts: i64)
        ensures
            final(self).spec_dts() == dts,
            final(self).spec_pts() == old(self).spec_pts(),
            final(self).spec_duration() == old(self).spec_duration(),
            final(self).spec_stream_index() == old(self).spec_stream_index(),
            final(self).spec_key() == old(self).spec_key(),
            final(self).spec_data() == old(self).spec_data(),
    {
        self.dts = dts;
    }

    pub fn duration(&self) -> (r: i32)
        ensures
            r == self.spec_duration(),
    {
        self.duration
    }

    pub fn set_duration(&mut self, dur: i32)
        ensures
            final(self).spec_duration() == dur,
            final(self).spec_pts() == old(self).spec_pts(),
            final(self).spec_dts() == old(self).spec_dts(),
            final(self).spec_stream_index() == old(self).spec_stream_index(),
            final(self).spec_key() == old(self).spec_key(),
            final(self).spec_data() == old(self).spec_data(),
    {
        self.duration = dur;
    }

    pub fn stream_index(&self) -> (r: usize)
        ensures
            r == self.spec_stream_index(),
    {
        self.stream_index
    }

    /// The payload, or nothing when the native side carried no data
    /// pointer.
    pub fn data(&self) -> (r: Option<&[u8]>)
        ensures
            self.spec_data() matches Some(d) ==> (r matches Some(s) && s@ == d),
            self.spec_data() is None ==> r is None,
    {
        match &self.data {
            Some(v) => Some(v.as_slice()),
            None => None,
        }
    }
}

/// Parameters of one video stream as a codec context carries them.
#[derive(Copy, Clone, Debug)]
pub struct VideoParameters {
    width: i32,
    height: i32,
    sample_aspect_ratio: Rational,
    pix_fmt: PixelFormat,
    time_base: Rational,
}

impl VideoParameters {
    pub closed spec fn spec_width(self) -> i32 {
        self.width
    }

    pub closed spec fn spec_height(self) -> i32 {
        self.height
    }

    pub closed spec fn spec_sample_aspect_ratio(self) -> Rational {
        self.sample_aspect_ratio
    }

    pub closed spec fn spec_pix_fmt(self) -> PixelFormat {
        self.pix_fmt
    }

    pub closed spec fn spec_time_base(self) -> Rational {
        self.time_base
    }

    pub fn new(
        width: i32,
        height: i32,
        sample_aspect_ratio: Rational,
        pix_fmt: PixelFormat,
        time_base: Rational,
    ) -> (r: VideoParameters)
        ensures
            r.spec_width() == width,
            r.spec_height() == height,
            r.spec_sample_aspect_ratio() == sample_aspect_ratio,
            r.spec_pix_fmt() == pix_fmt,
            r.spec_time_base() == time_base,
    {
        VideoParameters { width, height, sample_aspect_ratio, pix_fmt, time_base }
    }

    pub fn width(self) -> (r: i32)
        ensures
            r == self.spec_width(),
    {
        self.width
    }

    pub fn height(self) -> (r: i32)
        ensures
            r == self.spec_height(),
    {
        self.height
    }

    pub fn sample_aspect_ratio(self) -> (r: Rational)
        ensures
            r == self.spec_sample_aspect_ratio(),
    {
        self.sample_aspect_ratio
    }

    pub fn pix_fmt(self) -> (r: PixelFormat)
        ensures
            r == self.spec_pix_fmt(),
    {
        self.pix_fmt
    }

    pub fn time_base(self) -> (r: Rational)
        ensures
            r == self.spec_time_base(),
    {
        self.time_base
    }
}

/// The state of one codec context, read from the native side as plain
/// values: what codec it is for and the video parameters it carries.
pub struct AVCodecContext {
    codec_id: CodecId,
    codec_type: MediaType,
    params: VideoParameters,
}

impl AVCodecContext {
    pub closed spec fn spec_codec_id(&self) -> CodecId {
        self.codec_id
    }

    pub closed spec fn spec_codec_type(&self) -> MediaType {
        self.codec_type
    }

    pub closed spec fn spec_params(&self) -> VideoParameters {
        self.params
    }

    pub fn new(codec_id: CodecId, codec_type: MediaType, params: VideoParameters) -> (r:
        AVCodecContext)
        ensures
            r.spec_codec_id() == codec_id,
            r.spec_codec_type() == codec_type,
            r.spec_params() == params,
    {
        AVCodecContext { codec_id, codec_type, params }
    }

    pub fn width(&self) -> (r: i32)
        ensures
            r == self.spec_params().spec_width(),
    {
        self.params.width
    }

    pub fn height(&self) -> (r: i32)
        ensures
            r == self.spec_params().spec_height(),
    {
        self.params.height
    }

    pub fn pix_fmt(&self) -> (r: PixelFormat)
        ensures
            r == self.spec_params().spec_pix_fmt(),
    {
        self.params.pix_fmt
    }

    pub fn codec_id(&self) -> (r: CodecId)
        ensures
            r == self.spec_codec_id(),
    {
        self.codec_id
    }

    pub fn codec_type(&self) -> (r: MediaType)
        ensures
            r == self.spec_codec_type(),
    {
        self.codec_type
    }

    pub fn params(&self) -> (r: VideoParameters)
        ensures
            r == self.spec_params(),
    {
        self.params
    }

    pub fn set_params(&mut self, p: &VideoParameters)
        ensures
            final(self).spec_params() == *p,
            final(self).spec_codec_id() == old(self).spec_codec_id(),
            final(self).spec_codec_type() == old(self).spec_codec_type(),
    {
        self.params = *p;
    }
}

/// Codec parameters of one stream, read from the native side as plain
/// values.
pub struct AVCodecParameters {
    codec_id: CodecId,
    codec_type: MediaType,
    dims: ImageDimensions,
    extradata: Vec<u8>,
}

impl AVCodecParameters {
    pub closed spec fn spec_codec_id(&self) -> CodecId {
        self.codec_id
    }

    pub closed spec fn spec_codec_type(&self) -> MediaType {
        self.codec_type
    }

    pub closed spec fn spec_dims(&self) -> ImageDimensions {
        self.dims
    }

    pub closed spec fn spec_extradata(&self) -> Seq<u8> {
        self.extradata@
    }

    pub fn new(
        codec_id: CodecId,
        codec_type: MediaType,
        dims: ImageDimensions,
        extradata: Vec<u8>,
    ) -> (r: AVCodecParameters)
        ensures
            r.spec_codec_id() == codec_id,
            r.spec_codec_type() == codec_type,
            r.spec_dims() == dims,
            r.spec_extradata() == extradata@,
    {
        AVCodecParameters { codec_id, codec_type, dims, extradata }
    }

    pub fn extradata(&self) -> (r: &[u8])
        ensures
            r@ == self.spec_extradata(),
    {
        self.extradata.as_slice()
    }

    /// The image dimensions.  Only a video stream has them; asking for
    /// them on any other stream kind is a caller error.
    pub fn dims(&self) -> (r: ImageDimensions)
        requires
            self.spec_codec_type().spec_raw() == AVMEDIA_TYPE_VIDEO,
        ensures
            r == self.spec_dims(),
    {
        self.dims
    }

    pub fn codec_id(&self) -> (r: CodecId)
        ensures
            r == self.spec_codec_id(),
    {
        self.codec_id
    }

    pub fn codec_type(&self) -> (r: MediaType)
        ensures
            r == self.spec_codec_type(),
    {
        self.codec_type
    }
}

/// Borrowed codec parameters of one input stream.
pub struct InputCodecParameters<'s> {
    par: &'s AVCodecParameters,
}

impl<'s> InputCodecParameters<'s> {
    pub closed spec fn spec_par(&self) -> AVCodecParameters {
        *self.par
    }

    pub fn new(par: &'s AVCodecParameters) -> (r: InputCodecParameters<'s>)
        ensures
            r.spec_par() == *par,
    {
        InputCodecParameters { par }
    }

    pub fn params(&self) -> (r: &'s AVCodecParameters)
        ensures
            *r == self.spec_par(),
    {
        self.par
    }

    pub fn codec_id(&self) -> (r: CodecId)
        ensures
            r == self.spec_par().spec_codec_id(),
    {
        self.par.codec_id()
    }

    pub fn codec_type(&self) -> (r: MediaType)
        ensures
            r == self.spec_par().spec_codec_type(),
    {
        self.par.codec_type()
    }

    pub fn extradata(&self) -> (r: &[u8])
        ensures
            r@ == self.spec_par().spec_extradata(),
    {
        self.par.extradata()
    }
}

/// A decoder implementation resolved from the native registry for one
/// codec identifier.
#[derive(Copy, Clone)]
pub struct Decoder {
    id: CodecId,
}

impl Decoder {
    pub closed spec fn spec_id(self) -> CodecId {
        self.id
    }

    pub fn from_id(id: CodecId) -> (r: Decoder)
        ensures
            r.spec_id() == id,
    {
        Decoder { id }
    }

    pub fn id(self) -> (r: CodecId)
        ensures
            r == self.spec_id(),
    {
        self.id
    }
}

/// An encoder implementation resolved from the native registry for one
/// codec identifier.
#[derive(Copy, Clone)]
pub struct Encoder {
    id: CodecId,
}

impl Encoder {
    pub closed spec fn spec_id(self) -> CodecId {
        self.id
    }

    pub fn from_id(id: CodecId) -> (r: Encoder)
        ensures
            r.spec_id() == id,
    {
        Encoder { id }
    }

    pub fn id(self) -> (r: CodecId)
        ensures
            r == self.spec_id(),
    {
        self.id
    }
}

/// Stations a decoder passes while it is being set up for one stream:
/// parameters known, an implementation resolved, a context allocated,
/// the stream parameters copied in, and finally opened and ready.
#[derive(Copy, Clone, PartialEq, Eq, Structural, Debug)]
pub enum SetupStep {
    Found,
    Resolved,
    Allocated,
    Configured,
    Ready,
}

/// What the native side reports for one setup step: whether the registry
/// had a decoder, whether the context allocation yielded memory, and the
/// return codes of the two configuring calls.
#[derive(Copy, Clone, PartialEq, Eq, Structural, Debug)]
pub enum SetupEvent {
    Resolve(bool),
    Alloc(bool),
    CopyParams(i32),
    Open(i32),
}

/// The event kind each setup station waits for.
pub open spec fn spec_setup_event_fits(step: SetupStep, ev: SetupEvent) -> bool {
    match step {
        SetupStep::Found => ev is Resolve,
        SetupStep::Resolved => ev is Alloc,
        SetupStep::Allocated => ev is CopyParams,
        SetupStep::Configured => ev is Open,
        SetupStep::Ready => false,
    }
}

impl SetupStep {
    /// Takes one setup step given what the native side reported: a
    /// missing decoder fails as decoder-not-found, a failed allocation
    /// as out-of-memory, and a negative return code of either
    /// configuring call carries that code; otherwise the next station is
    /// reached.
    pub fn advance(self, ev: SetupEvent) -> (r: Result<SetupStep, Error>)
        requires
            spec_setup_event_fits(self, ev),
        ensures
            ev matches SetupEvent::Resolve(found) ==> (if found {
                r == Ok::<SetupStep, Error>(SetupStep::Resolved)
            } else {
                r matches Err(e) && e.spec_code() == AVERROR_DECODER_NOT_FOUND
            }),
            ev matches SetupEvent::Alloc(got) ==> (if got {
                r == Ok::<SetupStep, Error>(SetupStep::Allocated)
            } else {
                r matches Err(e) && e.spec_code() == AVERROR_ENOMEM
            }),
            ev matches SetupEvent::CopyParams(ret) ==> (if ret >= 0 {
                r == Ok::<SetupStep, Error>(SetupStep::Configured)
            } else {
                r matches Err(e) && e.spec_code() == ret
            }),
            ev matches SetupEvent::Open(ret) ==> (if ret >= 0 {
                r == Ok::<SetupStep, Error>(SetupStep::Ready)
            } else {
                r matches Err(e) && e.spec_code() == ret
            }),
    {
        match ev {
            SetupEvent::Resolve(found) => {
                if found {
                    Ok(SetupStep::Resolved)
                } else {
                    Err(Error::decoder_not_found())
                }
            },
            SetupEvent::Alloc(got) => {
                if got {
                    Ok(SetupStep::Allocated)
                } else {
                    Err(Error::enomem())
                }
            },
            SetupEvent::CopyParams(ret) => {
                match Error::wrap(ret) {
                    Ok(_) => Ok(SetupStep::Configured),
                    Err(e) => Err(e),
                }
            },
            SetupEvent::Open(ret) => {
                match Error::wrap(ret) {
                    Ok(_) => Ok(SetupStep::Ready),
                    Err(e) => Err(e),
                }
            },
        }
    }
}

/// A decoder that finished setup: its resolved implementation and the
/// codec context state it was configured with.
pub struct DecodeContext {
    decoder: Decoder,
    ctx: AVCodecContext,
}

impl DecodeContext {
    pub closed spec fn spec_decoder(&self) -> Decoder {
        self.decoder
    }

    pub closed spec fn spec_ctx(&self) -> AVCodecContext {
        self.ctx
    }

    pub fn new(decoder: Decoder, ctx: AVCodecContext) -> (r: DecodeContext)
        ensures
            r.spec_decoder() == decoder,
            r.spec_ctx() == ctx,
    {
        DecodeContext { decoder, ctx }
    }

    pub fn decoder(&self) -> (r: Decoder)
        ensures
            r == self.spec_decoder(),
    {
        self.decoder
    }

    pub fn ctx(&self) -> (r: &AVCodecContext)
        ensures
            *r == self.spec_ctx(),
    {
        &self.ctx
    }

    /// Classifies what one native decode call produced: a negative
    /// return code carries through as the error, a complete picture
    /// yields true, and a consumed-but-buffered packet yields false.
    pub fn classify_decode(decode_ret: i32, got_picture: i32) -> (r: Result<bool, Error>)
        ensures
            decode_ret < 0 ==> (r matches Err(e) && e.spec_code() == decode_ret),
            decode_ret >= 0 && got_picture != 0 ==> r == Ok::<bool, Error>(true),
            decode_ret >= 0 && got_picture == 0 ==> r == Ok::<bool, Error>(false),
    {
        match Error::wrap(decode_ret) {
            Err(e) => Err(e),
            Ok(_) => {
                if got_picture != 0 {
                    Ok(true)
                } else {
                    Ok(false)
                }
            },
        }
    }
}

/// A codec context being configured for encoding.
pub struct EncodeContext {
    ctx: AVCodecContext,
}

impl EncodeContext {
    pub closed spec fn spec_ctx(&self) -> AVCodecContext {
        self.ctx
    }

    pub fn new(ctx: AVCodecContext) -> (r: EncodeContext)
        ensures
            r.spec_ctx() == ctx,
    {
        EncodeContext { ctx }
    }

    /// Copies the video parameters into the context.
    pub fn set_params(&mut self, p: &VideoParameters)
        ensures
            final(self).spec_ctx().spec_params() == *p,
            final(self).spec_ctx().spec_codec_id() == old(self).spec_ctx().spec_codec_id(),
            final(self).spec_ctx().spec_codec_type() == old(self).spec_ctx().spec_codec_type(),
    {
        self.ctx.set_params(p);
    }

    pub fn ctx(&self) -> (r: &AVCodecContext)
        ensures
            *r == self.spec_ctx(),
    {
        &self.ctx
    }
}

} // verus!
