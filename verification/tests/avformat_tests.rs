//! Tests for the capability I/O contract, the in-memory capability, the
//! native seek-mode decoding, and the stream table.

use moonfire_ffmpeg::avcodec::AVCodecParameters;
use moonfire_ffmpeg::avcodec::CodecId;
use moonfire_ffmpeg::avformat::decode_whence;
use moonfire_ffmpeg::avformat::open_outcome;
use moonfire_ffmpeg::avformat::plan_io;
use moonfire_ffmpeg::avformat::seek_code;
use moonfire_ffmpeg::avformat::transfer_code;
use moonfire_ffmpeg::avformat::InputStream;
use moonfire_ffmpeg::avformat::IoContext;
use moonfire_ffmpeg::avformat::SliceIoContext;
use moonfire_ffmpeg::avformat::Streams;
use moonfire_ffmpeg::avformat::Whence;
use moonfire_ffmpeg::avutil::Error;
use moonfire_ffmpeg::avutil::ImageDimensions;
use moonfire_ffmpeg::avutil::MediaType;
use moonfire_ffmpeg::avutil::PixelFormat;
use moonfire_ffmpeg::avutil::Rational;

#[test]
fn slice_read_copies_in_order() {
    let data = [1u8, 2, 3, 4, 5];
    let mut io = SliceIoContext::new(&data);
    let mut buf = [0u8; 2];
    assert_eq!(io.read(&mut buf).ok(), Some(2));
    assert_eq!(buf, [1, 2]);
    assert_eq!(io.read(&mut buf).ok(), Some(2));
    assert_eq!(buf, [3, 4]);
    // Only one byte remains; the second slot keeps its old value.
    assert_eq!(io.read(&mut buf).ok(), Some(1));
    assert_eq!(buf, [5, 4]);
    // The stream is exhausted: every further read returns zero bytes.
    assert_eq!(io.read(&mut buf).ok(), Some(0));
    assert_eq!(io.read(&mut buf).ok(), Some(0));
}

#[test]
fn slice_capability_flags() {
    let data = [0u8; 10];
    let io = SliceIoContext::new(&data);
    assert!(io.readable());
    assert!(!io.writable());
    assert!(io.seekable());
    assert!(io.direct());
    assert_eq!(io.buf_len(), 10);
    let big = [0u8; 5000];
    let io = SliceIoContext::new(&big);
    assert_eq!(io.buf_len(), 4096);
}

#[test]
fn slice_unsupported_write_fails_with_enosys() {
    let data = [0u8; 4];
    let mut io = SliceIoContext::new(&data);
    let e = io.write(&[1, 2]).err().unwrap();
    assert_eq!(e.get(), Error::enosys().get());
}

#[test]
fn slice_seek_modes() {
    let data = [9u8; 8];
    let mut io = SliceIoContext::new(&data);
    // A size query reports the length without moving.
    assert_eq!(io.seek(0, Whence::Size, false).ok(), Some(8));
    let mut buf = [0u8; 1];
    assert_eq!(io.read(&mut buf).ok(), Some(1));
    // Absolute positioning.
    assert_eq!(io.seek(5, Whence::Begin, false).ok(), Some(5));
    // Relative positioning adds to the current position, both ways.
    assert_eq!(io.seek(2, Whence::Cur, false).ok(), Some(7));
    assert_eq!(io.seek(-3, Whence::Cur, false).ok(), Some(4));
    // End-relative positioning counts from the end of the data.
    assert_eq!(io.seek(0, Whence::End, false).ok(), Some(8));
    assert_eq!(io.seek(-8, Whence::End, false).ok(), Some(0));
    assert_eq!(io.seek(-2, Whence::End, false).ok(), Some(6));
    // A target outside the data is rejected and nothing moves.
    assert_eq!(
        io.seek(1, Whence::End, false).err().unwrap().get(),
        Error::invalid_data().get()
    );
    assert_eq!(
        io.seek(-9, Whence::End, false).err().unwrap().get(),
        Error::invalid_data().get()
    );
    assert_eq!(
        io.seek(-7, Whence::Cur, false).err().unwrap().get(),
        Error::invalid_data().get()
    );
    assert_eq!(
        io.seek(-1, Whence::Begin, false).err().unwrap().get(),
        Error::invalid_data().get()
    );
    assert_eq!(
        io.seek(9, Whence::Begin, false).err().unwrap().get(),
        Error::invalid_data().get()
    );
    assert_eq!(io.seek(0, Whence::Cur, false).ok(), Some(6));
}

#[test]
fn decode_whence_splits_mode_and_force() {
    assert_eq!(decode_whence(0), Some((Whence::Begin, false)));
    assert_eq!(decode_whence(1), Some((Whence::Cur, false)));
    assert_eq!(decode_whence(2), Some((Whence::End, false)));
    assert_eq!(decode_whence(65536), Some((Whence::Size, false)));
    assert_eq!(decode_whence(131072 | 1), Some((Whence::Cur, true)));
    assert_eq!(decode_whence(131072 | 65536), Some((Whence::Size, true)));
    assert_eq!(decode_whence(7), None);
}

#[test]
fn transfer_and_seek_codes() {
    assert_eq!(transfer_code(Ok(42)), 42);
    assert_eq!(transfer_code(Err(Error::eof())), Error::eof().get());
    assert_eq!(seek_code(Ok(90000)), 90000);
    assert_eq!(seek_code(Err(Error::enosys())), Error::enosys().get() as i64);
}

#[test]
fn plan_registers_exactly_declared_operations() {
    let p = plan_io(true, false, true, true, 4096);
    assert!(p.register_read);
    assert!(!p.register_write);
    assert!(p.register_seek);
    assert_eq!(p.write_flag, 0);
    assert!(p.direct);
    assert_eq!(p.buf_len, 4096);
    let p = plan_io(false, true, false, false, 64);
    assert!(!p.register_read);
    assert!(p.register_write);
    assert_eq!(p.write_flag, 1);
}

#[test]
fn open_outcome_orders_failures() {
    assert!(open_outcome(0, true).is_ok());
    assert_eq!(open_outcome(-7, true).err().unwrap().get(), -7);
    // The open return wins over the packet slot.
    assert_eq!(open_outcome(-7, false).err().unwrap().get(), -7);
    assert_eq!(
        open_outcome(0, false).err().unwrap().get(),
        Error::enomem().get()
    );
}

#[test]
fn streams_table_lookup() {
    let par = AVCodecParameters::new(
        CodecId::from_raw(27),
        MediaType::from_raw(0),
        ImageDimensions { width: 1920, height: 1080, pix_fmt: PixelFormat::from_raw(0) },
        vec![1, 2, 3],
    );
    let streams = vec![InputStream::new(par, Rational { num: 1, den: 90000 }, 540000)];
    let table = Streams::new(&streams);
    assert_eq!(table.len(), 1);
    assert!(!table.is_empty());
    let s = table.get(0);
    assert_eq!(s.time_base().num, 1);
    assert_eq!(s.time_base().den, 90000);
    assert_eq!(s.duration(), 540000);
    let par = s.codecpar();
    assert!(par.codec_id().is_h264());
    assert!(par.codec_type().is_video());
    assert_eq!(par.extradata(), &[1, 2, 3]);

    let none: Vec<InputStream> = Vec::new();
    let empty = Streams::new(&none);
    assert_eq!(empty.len(), 0);
    assert!(empty.is_empty());
}
