//! Tests for packets, codec identifiers, decoder setup and decode
//! classification, and the native handle model.

use moonfire_ffmpeg::avcodec::AVCodecContext;
use moonfire_ffmpeg::avcodec::AVCodecParameters;
use moonfire_ffmpeg::avcodec::CodecId;
use moonfire_ffmpeg::avcodec::DecodeContext;
use moonfire_ffmpeg::avcodec::Decoder;
use moonfire_ffmpeg::avcodec::EncodeContext;
use moonfire_ffmpeg::avcodec::InputCodecParameters;
use moonfire_ffmpeg::avcodec::Packet;
use moonfire_ffmpeg::avcodec::SetupEvent;
use moonfire_ffmpeg::avcodec::SetupStep;
use moonfire_ffmpeg::avcodec::VideoParameters;
use moonfire_ffmpeg::avutil::Error;
use moonfire_ffmpeg::avutil::ImageDimensions;
use moonfire_ffmpeg::avutil::MediaType;
use moonfire_ffmpeg::avutil::PixelFormat;
use moonfire_ffmpeg::avutil::Rational;
use moonfire_ffmpeg::handle::NativeHandle;

#[test]
fn packet_fields_round_trip() {
    let p = Packet::from_fields(100, 90, 3600, 2, true, Some(vec![0xDE, 0xAD]));
    assert_eq!(p.pts(), Some(100));
    assert_eq!(p.dts(), 90);
    assert_eq!(p.duration(), 3600);
    assert_eq!(p.stream_index(), 2);
    assert!(p.is_key());
    assert_eq!(p.data(), Some(&[0xDE, 0xAD][..]));
}

#[test]
fn packet_pts_uses_sentinel_for_none() {
    let mut p = Packet::from_fields(i64::MIN, 0, 0, 0, false, None);
    assert_eq!(p.pts(), None);
    assert_eq!(p.data(), None);
    p.set_pts(Some(29700));
    assert_eq!(p.pts(), Some(29700));
    p.set_pts(None);
    assert_eq!(p.pts(), None);
    p.set_dts(-3);
    assert_eq!(p.dts(), -3);
    p.set_duration(1001);
    assert_eq!(p.duration(), 1001);
}

#[test]
fn codec_id_predicates() {
    assert!(CodecId::from_raw(86018).is_aac());
    assert!(!CodecId::from_raw(86018).is_h264());
    assert!(CodecId::from_raw(27).is_h264());
    assert!(!CodecId::from_raw(27).is_aac());
    assert_eq!(CodecId::from_raw(12).raw(), 12);
}

#[test]
fn decoder_setup_happy_path() {
    let s = SetupStep::Found;
    let s = s.advance(SetupEvent::Resolve(true)).ok().unwrap();
    assert_eq!(s, SetupStep::Resolved);
    let s = s.advance(SetupEvent::Alloc(true)).ok().unwrap();
    assert_eq!(s, SetupStep::Allocated);
    let s = s.advance(SetupEvent::CopyParams(0)).ok().unwrap();
    assert_eq!(s, SetupStep::Configured);
    let s = s.advance(SetupEvent::Open(0)).ok().unwrap();
    assert_eq!(s, SetupStep::Ready);
}

#[test]
fn decoder_setup_failures_carry_their_cause() {
    let e = SetupStep::Found.advance(SetupEvent::Resolve(false)).err().unwrap();
    assert_eq!(e.get(), Error::decoder_not_found().get());
    let e = SetupStep::Resolved.advance(SetupEvent::Alloc(false)).err().unwrap();
    assert_eq!(e.get(), Error::enomem().get());
    let e = SetupStep::Allocated.advance(SetupEvent::CopyParams(-5)).err().unwrap();
    assert_eq!(e.get(), -5);
    let e = SetupStep::Configured.advance(SetupEvent::Open(-22)).err().unwrap();
    assert_eq!(e.get(), -22);
}

#[test]
fn classify_decode_outcomes() {
    assert_eq!(DecodeContext::classify_decode(0, 1).ok(), Some(true));
    assert_eq!(DecodeContext::classify_decode(4, 2).ok(), Some(true));
    assert_eq!(DecodeContext::classify_decode(0, 0).ok(), Some(false));
    let e = DecodeContext::classify_decode(-3, 0).err().unwrap();
    assert_eq!(e.get(), -3);
}

#[test]
fn codec_context_parameters() {
    let sar = Rational { num: 1, den: 1 };
    let tb = Rational { num: 1, den: 25 };
    let params = VideoParameters::new(640, 480, sar, PixelFormat::rgb24(), tb);
    let ctx = AVCodecContext::new(CodecId::from_raw(27), MediaType::from_raw(0), params);
    assert_eq!(ctx.width(), 640);
    assert_eq!(ctx.height(), 480);
    assert_eq!(ctx.pix_fmt().raw(), 2);
    assert!(ctx.codec_id().is_h264());
    assert!(ctx.codec_type().is_video());

    let dec = DecodeContext::new(Decoder::from_id(CodecId::from_raw(27)), ctx);
    assert!(dec.ctx().codec_id().is_h264());

    let ctx2 = AVCodecContext::new(CodecId::from_raw(27), MediaType::from_raw(0), params);
    let mut enc = EncodeContext::new(ctx2);
    let smaller = VideoParameters::new(320, 240, sar, PixelFormat::bgr24(), tb);
    enc.set_params(&smaller);
    assert_eq!(enc.ctx().width(), 320);
    assert_eq!(enc.ctx().pix_fmt().raw(), 3);
}

#[test]
fn codec_parameters_accessors() {
    let dims = ImageDimensions { width: 320, height: 240, pix_fmt: PixelFormat::from_raw(0) };
    let par = AVCodecParameters::new(
        CodecId::from_raw(86018),
        MediaType::from_raw(0),
        dims,
        vec![9, 8],
    );
    assert!(par.codec_id().is_aac());
    assert!(par.codec_type().is_video());
    assert_eq!(par.dims(), dims);
    assert_eq!(par.extradata(), &[9, 8]);
    let input = InputCodecParameters::new(&par);
    assert!(input.codec_id().is_aac());
    assert_eq!(input.extradata(), &[9, 8]);
    assert_eq!(input.params().dims(), dims);
}

#[test]
fn handle_capture_and_release() {
    // A null address from a native alloc call fails as out-of-memory.
    let e = NativeHandle::capture(0).err().unwrap();
    assert_eq!(e.get(), Error::enomem().get());
    // A non-null one is owned and handed back exactly once on release.
    let h = NativeHandle::capture(0x1000).ok().unwrap();
    assert_eq!(h.addr(), 0x1000);
    assert_eq!(h.release(), 0x1000);
}
