use vstd::prelude::*;
use crate::error::CodecError;

verus! {

/// Native discriminant of a compressed-frame record.
pub const KIND_FRAME: u32 = 0;

/// Native discriminant of a two-pass statistics record.
pub const KIND_STATS: u32 = 1;

/// Native discriminant of a first-pass macroblock statistics record.
pub const KIND_MB_STATS: u32 = 2;

/// Native discriminant of a quality-metric record.
pub const KIND_PSNR: u32 = 3;

/// Native discriminant of an application-defined record.
pub const KIND_CUSTOM: u32 = 256;

/// Flag bit of a compressed frame that is a key frame.
pub const FRAME_IS_KEY: u32 = 0x1;

/// The kinds of output record that the native engine hands out.
#[derive(Debug, Clone, Copy, PartialEq, Eq, Structural)]
pub enum RecordKind {
    Frame,
    Stats,
    MbStats,
    Psnr,
    Custom,
}

/// The record kind that a native discriminant stands for.
pub open spec fn kind_of_tag(tag: u32) -> Result<RecordKind, CodecError> {
    if tag == KIND_FRAME {
        Ok(RecordKind::Frame)
    } else if tag == KIND_STATS {
        Ok(RecordKind::Stats)
    } else if tag == KIND_MB_STATS {
        Ok(RecordKind::MbStats)
    } else if tag == KIND_PSNR {
        Ok(RecordKind::Psnr)
    } else if tag == KIND_CUSTOM {
        Ok(RecordKind::Custom)
    } else {
        Err(CodecError::UnknownPacketKind)
    }
}

/// Classifies a native output record by its discriminant. A discriminant
/// outside the fixed set means the native build does not match this layer.
pub fn classify(tag: u32) -> (r: Result<RecordKind, CodecError>)
    ensures
        r == kind_of_tag(tag),
{
    if tag == KIND_FRAME {
        Ok(RecordKind::Frame)
    } else if tag == KIND_STATS {
        Ok(RecordKind::Stats)
    } else if tag == KIND_MB_STATS {
        Ok(RecordKind::MbStats)
    } else if tag == KIND_PSNR {
        Ok(RecordKind::Psnr)
    } else if tag == KIND_CUSTOM {
        Ok(RecordKind::Custom)
    } else {
        Err(CodecError::UnknownPacketKind)
    }
}

/// A compressed frame: payload, presentation timestamp and key-frame flag.
#[derive(Debug, Clone)]
pub struct CompressedPacket {
    pub data: Vec<u8>,
    pub pts: i64,
    pub is_key: bool,
}

/// A quality-metric record: per channel (all, Y, U, V) the sample count,
/// the sum of squared errors, and the derived metric as the bit pattern of
/// an IEEE 754 double, carried through unread.
#[derive(Debug, Clone)]
pub struct PSNR {
    pub samples: [u32; 4],
    pub sse: [u64; 4],
    pub psnr_bits: [u64; 4],
}

/// One drained output record, with its native memory already copied.
#[derive(Debug, Clone)]
pub enum AOMPacket {
    Packet(CompressedPacket),
    Stats(Vec<u8>),
    MBStats(Vec<u8>),
    PSNR(PSNR),
    Custom(Vec<u8>),
}

/// A native output record as the host reads it: the discriminant and the
/// union member that it selects, copied into owned values. For a blob kind
/// `payload` holds the blob; for a frame it holds the compressed bytes, with
/// `pts` and `flags`; for a quality record the three arrays.
#[derive(Debug, Clone)]
pub struct NativeRecord {
    pub kind: u32,
    pub payload: Vec<u8>,
    pub pts: i64,
    pub flags: u32,
    pub samples: [u32; 4],
    pub sse: [u64; 4],
    pub psnr_bits: [u64; 4],
}

/// Whether `p` is the tagged value that record `rec` describes.
pub open spec fn packet_of(rec: NativeRecord, p: AOMPacket) -> bool {
    match p {
        AOMPacket::Packet(c) => rec.kind == KIND_FRAME && c.data@ == rec.payload@ && c.pts
            == rec.pts && c.is_key == (rec.flags & FRAME_IS_KEY != 0),
        AOMPacket::Stats(b) => rec.kind == KIND_STATS && b@ == rec.payload@,
        AOMPacket::MBStats(b) => rec.kind == KIND_MB_STATS && b@ == rec.payload@,
        AOMPacket::PSNR(q) => rec.kind == KIND_PSNR && q.samples@ == rec.samples@ && q.sse@
            == rec.sse@ && q.psnr_bits@ == rec.psnr_bits@,
        AOMPacket::Custom(b) => rec.kind == KIND_CUSTOM && b@ == rec.payload@,
    }
}

impl AOMPacket {
    /// Turns a native output record into the matching variant. An unknown
    /// discriminant is refused with `UnknownPacketKind`.
    pub fn new(rec: NativeRecord) -> (r: Result<AOMPacket, CodecError>)
        ensures
            kind_of_tag(rec.kind) is Ok <==> r is Ok,
            r is Err ==> r == Err::<AOMPacket, CodecError>(CodecError::UnknownPacketKind),
            r matches Ok(p) ==> packet_of(rec, p),
    {
        let NativeRecord { kind, payload, pts, flags, samples, sse, psnr_bits } = rec;
        match classify(kind) {
            Ok(RecordKind::Frame) => Ok(
                AOMPacket::Packet(
                    CompressedPacket { data: payload, pts, is_key: flags & FRAME_IS_KEY != 0 },
                ),
            ),
            Ok(RecordKind::Stats) => Ok(AOMPacket::Stats(payload)),
            Ok(RecordKind::MbStats) => Ok(AOMPacket::MBStats(payload)),
            Ok(RecordKind::Psnr) => Ok(AOMPacket::PSNR(PSNR { samples, sse, psnr_bits })),
            Ok(RecordKind::Custom) => Ok(AOMPacket::Custom(payload)),
            Err(e) => Err(e),
        }
    }

    /// The record kind of this value.
    pub fn kind(&self) -> (r: RecordKind)
        ensures
            match self {
                AOMPacket::Packet(_) => r == RecordKind::Frame,
                AOMPacket::Stats(_) => r == RecordKind::Stats,
                AOMPacket::MBStats(_) => r == RecordKind::MbStats,
                AOMPacket::PSNR(_) => r == RecordKind::Psnr,
                AOMPacket::Custom(_) => r == RecordKind::Custom,
            },
    {
        match self {
            AOMPacket::Packet(_) => RecordKind::Frame,
            AOMPacket::Stats(_) => RecordKind::Stats,
            AOMPacket::MBStats(_) => RecordKind::MbStats,
            AOMPacket::PSNR(_) => RecordKind::Psnr,
            AOMPacket::Custom(_) => RecordKind::Custom,
        }
    }
}

/// Each known discriminant yields exactly one variant, and the payload it
/// carries is the record's, byte for byte.
pub proof fn lemma_one_variant_per_record(rec: NativeRecord, p: AOMPacket, q: AOMPacket)
    requires
        packet_of(rec, p),
        packet_of(rec, q),
    ensures
        p is Packet <==> q is Packet,
        p is Stats <==> q is Stats,
        p is MBStats <==> q is MBStats,
        p is PSNR <==> q is PSNR,
        p is Custom <==> q is Custom,
{
}

} // verus!
