use vstd::prelude::*;
use crate::error::CodecError;

verus! {

/// Native format tag of planar 4:2:0 with 8 bits per sample (the planar flag
/// `0x100` with format number 2).
pub const NATIVE_FMT_I420: u32 = 0x102;

/// Bit depth written into the descriptor of a 4:2:0 8-bit picture.
pub const I420_BIT_DEPTH: u32 = 8;

/// Bits per pixel, averaged over the three planes, of 4:2:0 8-bit.
pub const I420_BITS_PER_SAMPLE: i32 = 12;

/// Horizontal and vertical chroma subsampling shift of 4:2:0.
pub const I420_CHROMA_SHIFT: u32 = 1;

/// The pixel formats a picture can declare. Only planar 4:2:0 with 8 bits
/// per sample can cross the native boundary.
#[derive(Debug, Clone, Copy, PartialEq, Eq, Structural)]
pub enum PixelFormat {
    Yuv420,
    Other,
}

/// One colour plane: the distance in bytes between rows, and the bytes.
#[derive(Debug, Clone)]
pub struct Plane {
    pub stride: usize,
    pub data: Vec<u8>,
}

/// A raster picture owned by the caller.
#[derive(Debug, Clone)]
pub struct Picture {
    pub width: usize,
    pub height: usize,
    pub format: PixelFormat,
    pub planes: Vec<Plane>,
}

/// The extent of one plane: samples per row and number of rows.
#[derive(Debug, Clone, Copy, PartialEq, Eq, Structural)]
pub struct PlaneShape {
    pub width: usize,
    pub rows: usize,
}

/// The value-typed part of a native image descriptor. The plane pointers
/// themselves are filled in by the host for the duration of one call.
#[derive(Debug, Clone)]
pub struct ImageDescriptor {
    pub fmt: u32,
    pub bit_depth: u32,
    pub bps: i32,
    pub x_chroma_shift: u32,
    pub y_chroma_shift: u32,
    pub d_w: u32,
    pub d_h: u32,
    pub strides: Vec<i32>,
}

/// Half of `n`, rounded up: the chroma extent of a 4:2:0 luma extent.
pub open spec fn half_up(n: int) -> int {
    (n + 1) / 2
}

/// The planes of a picture of the given format and size.
pub open spec fn plane_shapes_spec(format: PixelFormat, width: usize, height: usize) -> Result<
    Seq<PlaneShape>,
    CodecError,
> {
    match format {
        PixelFormat::Yuv420 => {
            let chroma = PlaneShape {
                width: half_up(width as int) as usize,
                rows: half_up(height as int) as usize,
            };
            Ok(seq![PlaneShape { width, rows: height }, chroma, chroma])
        },
        PixelFormat::Other => Err(CodecError::UnsupportedFormat),
    }
}

/// The pixel format that a native format tag stands for.
pub open spec fn format_of_tag(tag: u32) -> Result<PixelFormat, CodecError> {
    if tag == NATIVE_FMT_I420 {
        Ok(PixelFormat::Yuv420)
    } else {
        Err(CodecError::UnsupportedFormat)
    }
}

/// Maps a native format tag to a pixel format; any tag but 4:2:0 8-bit is
/// refused.
pub fn format_from_native(tag: u32) -> (r: Result<PixelFormat, CodecError>)
    ensures
        r == format_of_tag(tag),
{
    if tag == NATIVE_FMT_I420 {
        Ok(PixelFormat::Yuv420)
    } else {
        Err(CodecError::UnsupportedFormat)
    }
}

fn half_up_exec(n: usize) -> (r: usize)
    ensures
        r as int == half_up(n as int),
{
    n / 2 + n % 2
}

/// The planes, in order, of a picture of the given format and size.
pub fn plane_shapes(format: PixelFormat, width: usize, height: usize) -> (r: Result<
    Vec<PlaneShape>,
    CodecError,
>)
    ensures
        match (r, plane_shapes_spec(format, width, height)) {
            (Ok(v), Ok(s)) => v@ == s,
            (Err(e), Err(f)) => e == f,
            _ => false,
        },
{
    match format {
        PixelFormat::Yuv420 => {
            let chroma = PlaneShape { width: half_up_exec(width), rows: half_up_exec(height) };
            let mut v: Vec<PlaneShape> = Vec::new();
            v.push(PlaneShape { width, rows: height });
            v.push(chroma);
            v.push(chroma);
            proof {
                assert(v@ =~= plane_shapes_spec(format, width, height)->Ok_0);
            }
            Ok(v)
        },
        PixelFormat::Other => Err(CodecError::UnsupportedFormat),
    }
}

impl PlaneShape {
    /// The number of bytes that a plane of this shape occupies with the
    /// given stride, or `None` where that does not fit in `usize`.
    pub fn byte_len(&self, stride: usize) -> (r: Option<usize>)
        ensures
            match r {
                Some(n) => n as int == stride as int * self.rows as int,
                None => stride as int * self.rows as int > usize::MAX as int,
            },
    {
        stride.checked_mul(self.rows)
    }
}

/// The picture that a decoded native image describes, owning copies of its
/// planes. Only the 4:2:0 8-bit tag is accepted.
pub fn picture_from_image(fmt: u32, d_w: u32, d_h: u32, planes: Vec<Plane>) -> (r: Result<
    Picture,
    CodecError,
>)
    ensures
        fmt == NATIVE_FMT_I420 <==> r is Ok,
        r is Err ==> r == Err::<Picture, CodecError>(CodecError::UnsupportedFormat),
        r matches Ok(p) ==> p.width == d_w as usize && p.height == d_h as usize && p.format
            == PixelFormat::Yuv420 && p.planes@ == planes@,
{
    match format_from_native(fmt) {
        Ok(format) => Ok(Picture { width: d_w as usize, height: d_h as usize, format, planes }),
        Err(e) => Err(e),
    }
}

/// The descriptor fields that the native engine reads for an input picture.
pub open spec fn descriptor_fits(pic: Picture, d: ImageDescriptor) -> bool {
    &&& d.fmt == NATIVE_FMT_I420
    &&& d.bit_depth == I420_BIT_DEPTH
    &&& d.bps == I420_BITS_PER_SAMPLE
    &&& d.x_chroma_shift == I420_CHROMA_SHIFT
    &&& d.y_chroma_shift == I420_CHROMA_SHIFT
    &&& d.d_w == pic.width as u32
    &&& d.d_h == pic.height as u32
    &&& d.strides@.len() == pic.planes@.len()
    &&& forall|i: int|
        0 <= i < pic.planes@.len() ==> d.strides@[i] == (#[trigger] pic.planes@[i]).stride as i32
}

/// Fills the value fields of the native image descriptor for a picture to
/// encode. Any format but 4:2:0 8-bit is refused.
pub fn image_from_picture(pic: &Picture) -> (r: Result<ImageDescriptor, CodecError>)
    ensures
        pic.format == PixelFormat::Yuv420 <==> r is Ok,
        r is Err ==> r == Err::<ImageDescriptor, CodecError>(CodecError::UnsupportedFormat),
        r matches Ok(d) ==> descriptor_fits(*pic, d),
{
    match pic.format {
        PixelFormat::Other => { return Err(CodecError::UnsupportedFormat) },
        PixelFormat::Yuv420 => {},
    }
    let mut strides: Vec<i32> = Vec::new();
    let n = pic.planes.len();
    let mut i: usize = 0;
    while i < n
        invariant
            n == pic.planes@.len(),
            0 <= i <= n,
            strides@.len() == i,
            forall|k: int| 0 <= k < i ==> strides@[k] == (#[trigger] pic.planes@[k]).stride as i32,
        decreases n - i,
    {
        strides.push(pic.planes[i].stride as i32);
        i = i + 1;
    }
    Ok(
        ImageDescriptor {
            fmt: NATIVE_FMT_I420,
            bit_depth: I420_BIT_DEPTH,
            bps: I420_BITS_PER_SAMPLE,
            x_chroma_shift: I420_CHROMA_SHIFT,
            y_chroma_shift: I420_CHROMA_SHIFT,
            d_w: pic.width as u32,
            d_h: pic.height as u32,
            strides,
        },
    )
}

/// Both directions of the buffer marshaller refuse every format but 4:2:0
/// 8-bit with `UnsupportedFormat`, and accept that one.
pub proof fn lemma_format_gate(tag: u32, format: PixelFormat, width: usize, height: usize)
    ensures
        format_of_tag(tag) is Ok <==> tag == NATIVE_FMT_I420,
        tag != NATIVE_FMT_I420 ==> format_of_tag(tag) == Err::<PixelFormat, CodecError>(
            CodecError::UnsupportedFormat,
        ),
        format != PixelFormat::Yuv420 ==> plane_shapes_spec(format, width, height) == Err::<
            Seq<PlaneShape>,
            CodecError,
        >(CodecError::UnsupportedFormat),
{
}

} // verus!
