//! The depth codec: decoding a PNG source image into a reused buffer of packed
//! RGBA bytes, and encoding a grayscale buffer as a PNG destination image.
use vstd::prelude::*;

verus! {

#[verifier::external_type_specification]
#[verifier::external_body]
pub struct ExPngDecodingError(png::DecodingError);

#[verifier::external_type_specification]
#[verifier::external_body]
pub struct ExPngEncodingError(png::EncodingError);

/// Why one conversion job failed.
#[derive(Clone, Copy, Debug, PartialEq, Eq, Structural)]
pub enum JobError {
    /// The source is not a well-formed image, or could not be read.
    DecodeError,
    /// The source image is not 8-bit RGBA.
    UnsupportedFormat,
    /// The destination image could not be written.
    EncodeError,
}

/// Colour layout of a decoded frame.
#[derive(Clone, Copy, Debug, PartialEq, Eq, Structural)]
pub enum ColorKind {
    Grayscale,
    Rgb,
    Indexed,
    GrayscaleAlpha,
    Rgba,
}

/// What the decoder reports of the frame it wrote into the buffer.
#[derive(Clone, Copy, Debug, PartialEq, Eq, Structural)]
pub struct FrameInfo {
    pub width: u32,
    pub height: u32,
    pub color: ColorKind,
    /// Bits per channel.
    pub bit_depth: u8,
    /// Bytes per decoded row.
    pub line_size: usize,
}

/// The frame holds four 8-bit channels per pixel.
pub open spec fn is_rgba8(info: FrameInfo) -> bool {
    info.color == ColorKind::Rgba && info.bit_depth == 8
}

/// Bytes of the decoded frame: one row of `line_size` bytes per line.
pub open spec fn frame_size(info: FrameInfo) -> int {
    info.line_size as int * info.height as int
}

/// The PNG file that the encoder writes for a grayscale image of the given
/// width, height and 8-bit samples.
pub uninterp spec fn gray_png(width: u32, height: u32, samples: Seq<u8>) -> Seq<u8>;

/// The number of bytes that one decoded frame of a PNG file needs, as its
/// header gives it; `None` where the header cannot be read.
pub uninterp spec fn png_buffer_size(bytes: Seq<u8>) -> Option<usize>;

/// The first frame of a PNG file: its layout and the bytes that the decoder
/// writes for it into a buffer of zeros, row after row; `None` where the file
/// does not decode.
pub uninterp spec fn png_frame(bytes: Seq<u8>) -> Option<(FrameInfo, Seq<u8>)>;

/// Relies on png::Decoder::read_info and png::Reader::output_buffer_size:
/// reads the image header and gives the number of bytes that one decoded
/// frame needs.
#[verifier::external_body]
fn png_output_size(bytes: &[u8]) -> (r: Result<usize, png::DecodingError>)
    ensures
        r is Ok ==> png_buffer_size(bytes@) == Some(r->Ok_0),
        png_buffer_size(bytes@) is Some ==> r is Ok,
{
    Ok(png::Decoder::new(bytes).read_info()?.output_buffer_size())
}

/// Relies on png::Decoder::read_info and png::Reader::next_frame: decodes the
/// first frame into the buffer, which keeps its length, and reports the
/// frame's layout. The buffer must hold zeros: some layouts (interlaced,
/// under 8 bits per pixel) merge the decoded bits into what the buffer held.
/// Given a buffer of the size the header asks for, it
/// succeeds exactly on a file whose frame decodes. The header never gives a
/// zero dimension, and an 8-bit RGBA row holds four bytes per pixel.
#[verifier::external_body]
fn png_next_frame(bytes: &[u8], buf: &mut Vec<u8>) -> (r: Result<FrameInfo, png::DecodingError>)
    requires
        forall|i: int| 0 <= i < old(buf)@.len() ==> old(buf)@[i] == 0,
    ensures
        final(buf)@.len() == old(buf)@.len(),
        png_buffer_size(bytes@) is Some && old(buf)@.len() >= png_buffer_size(bytes@)->Some_0
            && png_frame(bytes@) is Some ==> r is Ok,
        r is Ok ==> {
            &&& png_frame(bytes@) is Some
            &&& r->Ok_0 == png_frame(bytes@)->Some_0.0
            &&& frame_size(r->Ok_0) <= old(buf)@.len()
            &&& final(buf)@.take(frame_size(r->Ok_0)) == png_frame(bytes@)->Some_0.1
            &&& r->Ok_0.width > 0 && r->Ok_0.height > 0
            &&& is_rgba8(r->Ok_0) ==> r->Ok_0.line_size == 4 * r->Ok_0.width
        },
{
    let mut reader = png::Decoder::new(bytes).read_info()?;
    let info = reader.next_frame(buf.as_mut_slice())?;
    let color = match info.color_type {
        png::ColorType::Grayscale => ColorKind::Grayscale,
        png::ColorType::Rgb => ColorKind::Rgb,
        png::ColorType::Indexed => ColorKind::Indexed,
        png::ColorType::GrayscaleAlpha => ColorKind::GrayscaleAlpha,
        png::ColorType::Rgba => ColorKind::Rgba,
    };
    let bit_depth = info.bit_depth as u8;
    Ok(FrameInfo { width: info.width, height: info.height, color, bit_depth, line_size: info.line_size })
}

/// Relies on png::Encoder (new, set_color, set_depth, write_header) and
/// png::Writer (write_image_data, finish): writes an 8-bit grayscale,
/// non-interlaced image with the encoder's defaults into memory, which cannot
/// fail. The header refuses a zero width or height, and the image data must
/// hold one byte per pixel. With those defaults the bytes depend on the
/// arguments alone.
#[verifier::external_body]
fn png_encode_gray(width: u32, height: u32, samples: &[u8]) -> (r: Result<Vec<u8>, png::EncodingError>)
    ensures
        width > 0 && height > 0 && samples@.len() == width * height ==> r is Ok,
        r is Ok ==> width > 0 && height > 0 && samples@.len() == width * height,
        r is Ok ==> r->Ok_0@ == gray_png(width, height, samples@),
{
    let mut out: Vec<u8> = Vec::new();
    let mut encoder = png::Encoder::new(&mut out, width, height);
    encoder.set_color(png::ColorType::Grayscale);
    encoder.set_depth(png::BitDepth::Eight);
    let mut writer = encoder.write_header()?;
    writer.write_image_data(samples)?;
    writer.finish()?;
    Ok(out)
}

/// The bytes are a PNG file whose header and first frame decode, and that
/// frame is 8-bit RGBA.
pub open spec fn decodes_rgba8(bytes: Seq<u8>) -> bool {
    &&& png_buffer_size(bytes) is Some
    &&& png_frame(bytes) is Some
    &&& is_rgba8(png_frame(bytes)->Some_0.0)
}

/// The error that decoding the bytes gives, where it fails.
pub open spec fn decode_error(bytes: Seq<u8>) -> JobError {
    if png_buffer_size(bytes) is Some && png_frame(bytes) is Some {
        JobError::UnsupportedFormat
    } else {
        JobError::DecodeError
    }
}

/// Accepts a decoded frame only if it is 8-bit RGBA, and cuts the buffer down
/// to the frame's size; returns the frame's width and height.
pub fn check_frame(info: &FrameInfo, source_buffer: &mut Vec<u8>) -> (r: Result<(u32, u32), JobError>)
    ensures
        !is_rgba8(*info) ==> r == Err::<(u32, u32), JobError>(JobError::UnsupportedFormat)
            && final(source_buffer)@ == old(source_buffer)@,
        is_rgba8(*info) && frame_size(*info) > usize::MAX ==> r == Err::<(u32, u32), JobError>(
            JobError::DecodeError,
        ) && final(source_buffer)@ == old(source_buffer)@,
        is_rgba8(*info) && frame_size(*info) <= usize::MAX ==> r == Ok::<(u32, u32), JobError>(
            (info.width, info.height),
        ) && final(source_buffer)@ == (if frame_size(*info) < old(source_buffer)@.len() {
            old(source_buffer)@.take(frame_size(*info))
        } else {
            old(source_buffer)@
        }),
{
    if info.color != ColorKind::Rgba {
        return Err(JobError::UnsupportedFormat);
    }
    if info.bit_depth != 8 {
        return Err(JobError::UnsupportedFormat);
    }
    match info.line_size.checked_mul(info.height as usize) {
        Some(size) => {
            source_buffer.truncate(size);
            Ok((info.width, info.height))
        },
        None => Err(JobError::DecodeError),
    }
}

/// Decodes a PNG image into the reused source buffer, which is cleared and
/// then holds exactly the frame's bytes; returns the width and height in
/// pixels. Only an 8-bit RGBA frame is accepted.
pub fn decode(source: &[u8], source_buffer: &mut Vec<u8>) -> (r: Result<(u32, u32), JobError>)
    ensures
        decodes_rgba8(source@) ==> r is Ok,
        r is Ok ==> decodes_rgba8(source@),
        r is Err ==> r->Err_0 == decode_error(source@),
        r is Ok ==> {
            let frame = png_frame(source@)->Some_0;
            &&& r->Ok_0 == (frame.0.width, frame.0.height)
            &&& frame.0.width > 0 && frame.0.height > 0
            &&& final(source_buffer)@ == frame.1
            &&& final(source_buffer)@.len() == 4 * frame.0.width * frame.0.height
        },
{
    let size: usize = match png_output_size(source) {
        Ok(size) => size,
        Err(_) => return Err(JobError::DecodeError),
    };
    source_buffer.clear();
    let mut i: usize = 0;
    while i < size
        invariant
            i <= size,
            source_buffer@.len() == i,
            forall|j: int| 0 <= j < i ==> source_buffer@[j] == 0,
        decreases size - i,
    {
        source_buffer.push(0);
        i = i + 1;
    }
    let info = match png_next_frame(source, source_buffer) {
        Ok(info) => info,
        Err(_) => return Err(JobError::DecodeError),
    };
    let r = check_frame(&info, source_buffer);
    proof {
        if r is Ok {
            assert(frame_size(info) == 4 * info.width * info.height) by (nonlinear_arith)
                requires
                    info.line_size == 4 * info.width,
                    frame_size(info) == info.line_size as int * info.height as int,
            ;
        }
    }
    r
}

/// Encodes a grayscale buffer as an 8-bit grayscale PNG image of the given
/// width and height.
pub fn encode(width: u32, height: u32, dest_buffer: &[u8]) -> (r: Result<Vec<u8>, JobError>)
    ensures
        width > 0 && height > 0 && dest_buffer@.len() == width * height ==> r is Ok,
        r is Ok ==> width > 0 && height > 0 && dest_buffer@.len() == width * height,
        match r {
            Ok(bytes) => bytes@ == gray_png(width, height, dest_buffer@),
            Err(e) => e == JobError::EncodeError,
        },
{
    match png_encode_gray(width, height, dest_buffer) {
        Ok(bytes) => Ok(bytes),
        Err(_) => Err(JobError::EncodeError),
    }
}

} // verus!
