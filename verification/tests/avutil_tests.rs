//! Tests for the error model, the dictionary, and the frame model.

use moonfire_ffmpeg::avutil::Dictionary;
use moonfire_ffmpeg::avutil::Error;
use moonfire_ffmpeg::avutil::ImageDimensions;
use moonfire_ffmpeg::avutil::MediaType;
use moonfire_ffmpeg::avutil::PixelFormat;
use moonfire_ffmpeg::avutil::VideoFrame;

#[test]
fn wrap_splits_on_sign() {
    assert_eq!(Error::wrap(0).ok(), Some(0));
    assert_eq!(Error::wrap(41).ok(), Some(41));
    assert_eq!(Error::wrap(i32::MAX).ok(), Some(i32::MAX));
    let e = Error::wrap(-1).unwrap_err();
    assert_eq!(e.get(), -1);
    let e = Error::wrap(i32::MIN).unwrap_err();
    assert_eq!(e.get(), i32::MIN);
}

#[test]
fn well_known_codes_have_expected_values() {
    assert_eq!(Error::eof().get(), -541478725);
    assert_eq!(Error::enomem().get(), -12);
    assert_eq!(Error::unknown().get(), -1313558101);
    assert_eq!(Error::decoder_not_found().get(), -1128613112);
    assert_eq!(Error::enosys().get(), -38);
    assert_eq!(Error::invalid_data().get(), -1094995529);
}

#[test]
fn is_eof_holds_exactly_for_the_eof_code() {
    assert!(Error::eof().is_eof());
    assert!(!Error::enomem().is_eof());
    assert!(!Error::unknown().is_eof());
    assert!(!Error::decoder_not_found().is_eof());
    assert!(Error::wrap(Error::eof().get()).unwrap_err().is_eof());
    assert!(!Error::wrap(-1).unwrap_err().is_eof());
}

#[test]
fn exhausted_stream_code_is_eof_not_unknown() {
    // A demuxer reporting end of stream hands back the end-of-stream
    // code; wrapping it must classify as end of stream, never as the
    // generic unknown failure.
    let e = Error::wrap(Error::eof().get()).unwrap_err();
    assert!(e.is_eof());
    assert_ne!(e.get(), Error::unknown().get());
}

#[test]
fn dictionary_set_appends_and_replaces() {
    let mut d = Dictionary::new();
    assert!(d.empty());
    assert_eq!(d.size(), 0);
    assert!(d.set("codec", "h264").is_ok());
    assert!(d.set("threads", "4").is_ok());
    assert_eq!(d.size(), 2);
    assert!(!d.empty());
    assert!(d.set("codec", "aac").is_ok());
    assert_eq!(d.size(), 2);
    assert_eq!(d.render(), "codec=aac, threads=4");
}

#[test]
fn dictionary_renders_in_storage_order() {
    let mut d = Dictionary::default();
    assert_eq!(d.render(), "");
    assert!(d.set("a", "1").is_ok());
    assert_eq!(d.render(), "a=1");
    assert!(d.set("b", "2").is_ok());
    assert!(d.set("c", "3").is_ok());
    assert_eq!(d.render(), "a=1, b=2, c=3");
}

#[test]
fn media_type_video_detection() {
    assert!(MediaType::from_raw(0).is_video());
    assert!(!MediaType::from_raw(1).is_video());
}

#[test]
fn pixel_format_constants() {
    assert_eq!(PixelFormat::rgb24().raw(), 2);
    assert_eq!(PixelFormat::bgr24().raw(), 3);
    assert_eq!(PixelFormat::none().raw(), -1);
    assert_eq!(PixelFormat::from_raw(7).raw(), 7);
}

#[test]
fn empty_frame_has_no_storage() {
    let f = VideoFrame::empty().unwrap();
    let d = f.dims();
    assert_eq!(d.width, 0);
    assert_eq!(d.height, 0);
    assert_eq!(d.pix_fmt.raw(), -1);
    assert_eq!(f.pts(), 0);
}

#[test]
fn frame_plane_is_bounded_by_stride_times_height() {
    let dims = ImageDimensions { width: 2, height: 2, pix_fmt: PixelFormat::rgb24() };
    let f = VideoFrame::from_layout(dims, vec![8], vec![vec![7u8; 16]], 90000).unwrap();
    let p = f.plane(0);
    assert_eq!(p.linesize, 8);
    assert_eq!(p.width, 2);
    assert_eq!(p.height, 2);
    assert_eq!(p.data.len(), p.linesize * p.height);
    assert!(p.data.len() <= p.linesize * p.height);
    assert_eq!(f.pts(), 90000);
}

#[test]
fn frame_rejects_inconsistent_layout() {
    let dims = ImageDimensions { width: 2, height: 2, pix_fmt: PixelFormat::rgb24() };
    // Storage shorter than stride times height.
    let r = VideoFrame::from_layout(dims, vec![8], vec![vec![0u8; 15]], 0);
    assert_eq!(r.err().unwrap().get(), Error::invalid_data().get());
    // A zero stride.
    let r = VideoFrame::from_layout(dims, vec![0], vec![vec![]], 0);
    assert_eq!(r.err().unwrap().get(), Error::invalid_data().get());
    // One stride for two planes.
    let r = VideoFrame::from_layout(dims, vec![8], vec![vec![0u8; 16], vec![0u8; 16]], 0);
    assert_eq!(r.err().unwrap().get(), Error::invalid_data().get());
    // Negative dimensions.
    let bad = ImageDimensions { width: -1, height: 2, pix_fmt: PixelFormat::rgb24() };
    let r = VideoFrame::from_layout(bad, vec![], vec![], 0);
    assert_eq!(r.err().unwrap().get(), Error::invalid_data().get());
}
