use std::cell::Cell;
use std::rc::Rc;

use libaom::decoder::{DecoderState, NativeImage};
use libaom::encoder::EncoderState;
use libaom::error::{check_code, CodecError, NativeCall};
use libaom::packet::{classify, AOMPacket, NativeRecord, RecordKind};
use libaom::picture::{
    format_from_native, image_from_picture, picture_from_image, plane_shapes, Picture, PixelFormat,
    Plane, PlaneShape, NATIVE_FMT_I420,
};
use libaom::session::{Phase, SessionState};

struct Counted {
    value: u32,
    drops: Rc<Cell<u32>>,
}

impl Drop for Counted {
    fn drop(&mut self) {
        self.drops.set(self.drops.get() + 1);
    }
}

fn i420_planes(w: usize, h: usize) -> Vec<Plane> {
    plane_shapes(PixelFormat::Yuv420, w, h)
        .unwrap()
        .iter()
        .map(|s| Plane { stride: s.width, data: vec![0x80; s.byte_len(s.width).unwrap()] })
        .collect()
}

fn image(token: u64) -> NativeImage {
    NativeImage { fmt: NATIVE_FMT_I420, d_w: 64, d_h: 48, planes: i420_planes(64, 48), user_token: token }
}

fn record(kind: u32, payload: Vec<u8>) -> NativeRecord {
    NativeRecord {
        kind,
        payload,
        pts: 0,
        flags: 0,
        samples: [0; 4],
        sse: [0; 4],
        psnr_bits: [0; 4],
    }
}

#[test]
fn session_released_once() {
    let mut d: DecoderState<()> = DecoderState::new();
    assert!(d.release());
    assert!(!d.release());
    let mut e = EncoderState::new();
    assert!(e.release());
    assert!(!e.release());
    let mut opened = EncoderState::from_init(0).unwrap();
    assert!(opened.session.cursor_at_start());
    assert!(opened.release());
    assert!(!opened.release());
}

#[test]
fn init_failure_codes() {
    assert!(matches!(DecoderState::<u8>::from_init(0), Ok(_)));
    assert!(matches!(DecoderState::<u8>::from_init(2), Err(CodecError::InitFailed(2))));
    assert!(matches!(EncoderState::from_init(4), Err(CodecError::InitFailed(4))));
    assert_eq!(check_code(NativeCall::ConfigInit, 1), Err(CodecError::ConfigInitFailed(1)));
    assert_eq!(check_code(NativeCall::ConfigInit, 0), Ok(()));
}

#[test]
fn input_resets_cursor() {
    let mut s = SessionState::new();
    s.record_input(true);
    s.record_drain(true);
    s.record_drain(true);
    assert_eq!(s.drained, 2);
    assert!(!s.cursor_at_start());
    s.record_input(false);
    assert!(s.cursor_at_start());
    assert_eq!(s.phase, Phase::Draining);
    s.record_drain(false);
    assert_eq!(s.phase, Phase::Idle);
    s.record_input(true);
    assert!(s.cursor_at_start());
    assert!(s.is_draining());
}

#[test]
fn user_data_returned_with_one_frame() {
    let drops = Rc::new(Cell::new(0));
    let mut d: DecoderState<Counted> = DecoderState::new();
    let tok = d.attach(Some(Counted { value: 7, drops: drops.clone() }));
    assert_ne!(tok, 0);
    assert_eq!(d.finish_decode(tok, 0), Ok(()));
    assert!(d.session.is_draining());
    assert!(d.session.cursor_at_start());

    let (_, first) = d.next_frame(Some(image(0))).unwrap().unwrap();
    assert!(first.is_none());
    let (p, data) = d.next_frame(Some(image(tok))).unwrap().unwrap();
    assert_eq!(p.width, 64);
    assert_eq!(p.height, 48);
    assert_eq!(data.as_ref().map(|c| c.value), Some(7));
    let (_, again) = d.next_frame(Some(image(tok))).unwrap().unwrap();
    assert!(again.is_none());
    assert!(d.next_frame(None).unwrap().is_none());
    assert!(!d.session.is_draining());
    assert_eq!(drops.get(), 0);
    drop(data);
    assert_eq!(drops.get(), 1);
}

#[test]
fn failed_decode_releases_user_data() {
    let drops = Rc::new(Cell::new(0));
    let mut d: DecoderState<Counted> = DecoderState::new();
    let tok = d.attach(Some(Counted { value: 1, drops: drops.clone() }));
    assert_eq!(d.ledger.entries.len(), 1);
    assert_eq!(d.finish_decode(tok, 5), Err(CodecError::DecodeFailed(5)));
    assert_eq!(drops.get(), 1);
    assert_eq!(d.ledger.entries.len(), 0);
    assert!(d.session.cursor_at_start());
    assert!(!d.session.is_draining());
}

#[test]
fn flush_keeps_pending_user_data() {
    let mut d: DecoderState<u32> = DecoderState::new();
    let tok = d.attach(Some(9));
    assert_eq!(d.finish_decode(tok, 0), Ok(()));
    assert_eq!(d.finish_flush(3), Err(CodecError::DecodeFailed(3)));
    assert_eq!(d.ledger.entries.len(), 1);
    assert_eq!(d.finish_flush(0), Ok(()));
    let (_, data) = d.next_frame(Some(image(tok))).unwrap().unwrap();
    assert_eq!(data, Some(9));
}

#[test]
fn decoded_format_gate() {
    assert_eq!(format_from_native(NATIVE_FMT_I420), Ok(PixelFormat::Yuv420));
    assert_eq!(format_from_native(0x106), Err(CodecError::UnsupportedFormat));
    assert!(matches!(picture_from_image(0x902, 4, 4, Vec::new()), Err(CodecError::UnsupportedFormat)));

    let drops = Rc::new(Cell::new(0));
    let mut d: DecoderState<Counted> = DecoderState::new();
    let tok = d.attach(Some(Counted { value: 3, drops: drops.clone() }));
    d.finish_decode(tok, 0).unwrap();
    let mut img = image(tok);
    img.fmt = 0x106;
    assert!(matches!(d.next_frame(Some(img)), Err(CodecError::UnsupportedFormat)));
    assert_eq!(drops.get(), 1);
    assert_eq!(d.ledger.entries.len(), 0);
}

#[test]
fn encode_format_gate() {
    let mut e = EncoderState::new();
    e.finish_encode(0).unwrap();
    e.next_packet(Some(record(1, vec![1]))).unwrap();
    assert!(!e.session.cursor_at_start());
    let pic = Picture { width: 64, height: 64, format: PixelFormat::Other, planes: i420_planes(64, 64) };
    assert!(matches!(e.start_encode(&pic), Err(CodecError::UnsupportedFormat)));
    assert!(e.session.cursor_at_start());
}

#[test]
fn plane_geometry_of_420() {
    let shapes = plane_shapes(PixelFormat::Yuv420, 65, 33).unwrap();
    assert_eq!(
        shapes,
        vec![
            PlaneShape { width: 65, rows: 33 },
            PlaneShape { width: 33, rows: 17 },
            PlaneShape { width: 33, rows: 17 },
        ]
    );
    assert_eq!(plane_shapes(PixelFormat::Other, 2, 2), Err(CodecError::UnsupportedFormat));
    assert_eq!(shapes[1].byte_len(40), Some(680));
    assert_eq!(PlaneShape { width: 1, rows: 2 }.byte_len(usize::MAX), None);
}

#[test]
fn descriptor_of_420_picture() {
    let pic = Picture {
        width: 800,
        height: 600,
        format: PixelFormat::Yuv420,
        planes: vec![
            Plane { stride: 832, data: Vec::new() },
            Plane { stride: 416, data: Vec::new() },
            Plane { stride: 416, data: Vec::new() },
        ],
    };
    let d = image_from_picture(&pic).unwrap();
    assert_eq!(d.fmt, 0x102);
    assert_eq!(d.bit_depth, 8);
    assert_eq!(d.bps, 12);
    assert_eq!(d.x_chroma_shift, 1);
    assert_eq!(d.y_chroma_shift, 1);
    assert_eq!(d.d_w, 800);
    assert_eq!(d.d_h, 600);
    assert_eq!(d.strides, vec![832, 416, 416]);
}

#[test]
fn packet_kinds() {
    assert_eq!(classify(0), Ok(RecordKind::Frame));
    assert_eq!(classify(1), Ok(RecordKind::Stats));
    assert_eq!(classify(2), Ok(RecordKind::MbStats));
    assert_eq!(classify(3), Ok(RecordKind::Psnr));
    assert_eq!(classify(256), Ok(RecordKind::Custom));
    assert_eq!(classify(4), Err(CodecError::UnknownPacketKind));

    let mut frame = record(0, vec![1, 2, 3]);
    frame.pts = 42;
    frame.flags = 0x11;
    match AOMPacket::new(frame) {
        Ok(AOMPacket::Packet(p)) => {
            assert_eq!(p.data, vec![1, 2, 3]);
            assert_eq!(p.pts, 42);
            assert!(p.is_key);
        }
        other => panic!("{:?}", other),
    }
    let mut inter = record(0, vec![9]);
    inter.flags = 0x10;
    assert!(matches!(AOMPacket::new(inter), Ok(AOMPacket::Packet(p)) if !p.is_key));
    assert!(matches!(AOMPacket::new(record(1, vec![5, 6])), Ok(AOMPacket::Stats(b)) if b == vec![5, 6]));
    assert!(matches!(AOMPacket::new(record(2, vec![7])), Ok(AOMPacket::MBStats(b)) if b == vec![7]));
    assert!(matches!(AOMPacket::new(record(256, vec![8])), Ok(AOMPacket::Custom(b)) if b == vec![8]));

    let mut q = record(3, Vec::new());
    q.samples = [10, 4, 3, 3];
    q.sse = [100, 40, 30, 30];
    q.psnr_bits = [30.0f64.to_bits(), 31.0f64.to_bits(), 29.0f64.to_bits(), 29.5f64.to_bits()];
    match AOMPacket::new(q) {
        Ok(AOMPacket::PSNR(m)) => {
            assert_eq!(m.samples, [10, 4, 3, 3]);
            assert_eq!(m.sse, [100, 40, 30, 30]);
            assert_eq!(f64::from_bits(m.psnr_bits[3]), 29.5);
        }
        other => panic!("{:?}", other),
    }
    assert!(matches!(AOMPacket::new(record(77, Vec::new())), Err(CodecError::UnknownPacketKind)));
}

#[test]
fn encoder_drain_and_flush() {
    let mut e = EncoderState::new();
    assert_eq!(e.finish_control(0), Ok(()));
    assert_eq!(e.finish_control(8), Err(CodecError::ControlFailed(8)));
    assert_eq!(e.finish_encode(1), Err(CodecError::EncodeFailed(1)));
    assert!(!e.session.is_draining());
    e.finish_encode(0).unwrap();
    assert!(e.session.is_draining());
    assert_eq!(e.next_packet(Some(record(1, vec![1]))).unwrap().map(|p| p.kind()), Some(RecordKind::Stats));
    assert!(matches!(e.next_packet(Some(record(9, vec![1]))), Err(CodecError::UnknownPacketKind)));
    assert!(e.next_packet(None).unwrap().is_none());
    assert!(!e.session.is_draining());
    assert_eq!(e.finish_flush(0), Ok(()));
    assert!(e.session.cursor_at_start());
    assert_eq!(e.finish_flush(6), Err(CodecError::EncodeFailed(6)));
}
