//! The image conversion step: turns a raw frame into a preview of the
//! requested size and encodes it for the remote viewers.
//!
//! The resampling is the library's own [`crate::scale`] pipeline; only the
//! final PNG encoding is an outside call.

use vstd::prelude::*;

use crate::frame::RgbImage;
use crate::geom::ImgSize;
use crate::messages::{ClientMessage, ConvertRawImage, StateMessage};
use crate::scale::{
    blue_offset, channel_sample, debayer_scale_fast, green_offset, red_offset,
};

verus! {

/// The PNG encoding of an interleaved 16-bit three-channel image.  The
/// encoder's output is a function of the samples and dimensions alone.
pub uninterp spec fn png_of(samples: Seq<u16>, width: int, height: int) -> Seq<u8>;

/// Relies on the image crate: `ImageBuffer::from_raw`, which accepts any
/// exactly-sized container, and the PNG encoder behind `ImageBuffer::write_to`,
/// whose output depends only on the samples and dimensions.  Writing to the
/// in-memory cursor cannot fail, and for nonzero dimensions within the PNG
/// limit of 2^31 - 1 every encoder failure path is unreachable, so such an
/// encoding always succeeds.
#[verifier::external_body]
fn png_encode_rgb16(samples: &Vec<u16>, width: usize, height: usize) -> (r: Result<
    Vec<u8>,
    String,
>)
    requires
        samples@.len() == 3 * width * height,
        width <= u32::MAX,
        height <= u32::MAX,
    ensures
        r matches Ok(b) ==> b@ == png_of(samples@, width as int, height as int),
        1 <= width <= 0x7FFF_FFFF && 1 <= height <= 0x7FFF_FFFF ==> r is Ok,
{
    let buffer: image::ImageBuffer<image::Rgb<u16>, Vec<u16>> = match image::ImageBuffer::from_raw(
        width as u32,
        height as u32,
        samples.clone(),
    ) {
        Some(b) => b,
        None => {
            return Err("preview buffer does not match its dimensions".to_string());
        },
    };
    let mut out = std::io::Cursor::new(Vec::new());
    match buffer.write_to(&mut out, image::ImageFormat::Png) {
        Ok(()) => Ok(out.into_inner()),
        Err(e) => Err(e.to_string()),
    }
}

/// The interleaved samples of the preview a frame converts to: red, green and
/// blue of each destination pixel in turn, each channel independently
/// resampled from the mosaic.
pub open spec fn preview_samples(message: ConvertRawImage) -> Seq<u16> {
    Seq::new(
        (3 * message.size.x * message.size.y) as nat,
        |k: int|
            {
                let pixel = k / 3;
                let line = pixel / (message.size.x as int);
                let col = pixel % (message.size.x as int);
                if k % 3 == 0 {
                    channel_sample(message.image, message.size, red_offset(), line, col)
                } else if k % 3 == 1 {
                    channel_sample(message.image, message.size, green_offset(), line, col)
                } else {
                    channel_sample(message.image, message.size, blue_offset(), line, col)
                }
            },
    )
}

/// The conversion request is one this pipeline can serve: a well-formed
/// mosaic frame of at least 2x2 with a non-trivial destination size, within
/// the machine's arithmetic limits.
pub open spec fn convertible(message: ConvertRawImage) -> bool {
    &&& message.image.wf()
    &&& 2 <= message.image.data.width <= u32::MAX
    &&& 2 <= message.image.data.height <= u32::MAX
    &&& 1 <= message.size.x <= 0x7FFF_FFFF
    &&& 1 <= message.size.y <= 0x7FFF_FFFF
    &&& message.size.x * (message.image.data.width / 2) <= usize::MAX
    &&& message.size.y * (message.image.data.height / 2) <= usize::MAX
    &&& message.size.x * message.size.y * 3 <= usize::MAX
}

/// Runtime check of [`convertible`].
fn check_convertible(message: &ConvertRawImage) -> (r: bool)
    ensures
        r == convertible(*message),
{
    let frame_ok = message.image.data.is_wf() && message.image.data.width
        == message.image.params.area.width && message.image.data.height
        == message.image.params.area.height;
    if !frame_ok {
        return false;
    }
    let w = message.image.data.width;
    let h = message.image.data.height;
    let sx = message.size.x;
    let sy = message.size.y;
    if !(2 <= w && w <= u32::MAX as usize && 2 <= h && h <= u32::MAX as usize && 1 <= sx && sx
        <= 0x7FFF_FFFF && 1 <= sy && sy <= 0x7FFF_FFFF) {
        return false;
    }
    let bound_x = match sx.checked_mul(w / 2) {
        Some(_) => true,
        None => false,
    };
    let bound_y = match sy.checked_mul(h / 2) {
        Some(_) => true,
        None => false,
    };
    let bound_area = match sx.checked_mul(sy) {
        Some(area) => match area.checked_mul(3) {
            Some(_) => true,
            None => false,
        },
        None => false,
    };
    bound_x && bound_y && bound_area
}

/// Converts one raw frame into the two messages the conversion loop sends
/// onward: the encoded preview for the remote viewers and the record of the
/// image just displayed for the control loop.
pub fn convert_raw_image(message: &ConvertRawImage) -> (r: Result<
    (ClientMessage, StateMessage),
    String,
>)
    ensures
        !convertible(*message) ==> r is Err,
        convertible(*message) ==> r is Ok,
        r matches Ok((cm, sm)) ==> {
            &&& convertible(*message)
            &&& cm matches ClientMessage::PngImage(png) && sm matches StateMessage::ImageDisplayed(
                shown,
            ) && png@ == shown@ && png@ == png_of(
                preview_samples(*message),
                message.size.x as int,
                message.size.y as int,
            )
        },
{
    if !check_convertible(message) {
        return Err(String::from_str("cannot convert malformed frame or preview size"));
    }
    let rgb = debayer_scale_fast(&message.image, message.size);
    proof {
        assert(rgb.width * rgb.height * 3 <= usize::MAX) by (nonlinear_arith)
            requires
                rgb.width == message.size.x,
                rgb.height == message.size.y,
                message.size.x * message.size.y * 3 <= usize::MAX,
        ;
    }
    let samples = rgb.interleave();
    proof {
        lemma_interleave_is_preview(&rgb, message, samples@);
    }
    let png = match png_encode_rgb16(&samples, rgb.width, rgb.height) {
        Ok(b) => b,
        Err(e) => {
            return Err(e);
        },
    };
    let shown = png.clone();
    proof {
        assert(shown@ =~= png@);
    }
    Ok((ClientMessage::PngImage(png), StateMessage::ImageDisplayed(shown)))
}

/// The interleaved buffer of the resampled channels is exactly the preview
/// sample sequence.
proof fn lemma_interleave_is_preview(rgb: &RgbImage, message: &ConvertRawImage, data: Seq<u16>)
    requires
        convertible(*message),
        rgb.wf(),
        rgb.width == message.size.x,
        rgb.height == message.size.y,
        data.len() == rgb.width * rgb.height * 3,
        forall|i: int, c: int|
            0 <= i < rgb.width * rgb.height && 0 <= c < 3 ==> data[3 * i + c]
                == rgb.interleaved_at(i, c),
        forall|line: int, col: int|
            0 <= line < message.size.y && 0 <= col < message.size.x ==> {
                &&& rgb.red@[line * message.size.x + col] == channel_sample(
                    message.image,
                    message.size,
                    red_offset(),
                    line,
                    col,
                )
                &&& rgb.green@[line * message.size.x + col] == channel_sample(
                    message.image,
                    message.size,
                    green_offset(),
                    line,
                    col,
                )
                &&& rgb.blue@[line * message.size.x + col] == channel_sample(
                    message.image,
                    message.size,
                    blue_offset(),
                    line,
                    col,
                )
            },
    ensures
        data == preview_samples(*message),
{
    let sx = message.size.x as int;
    let sy = message.size.y as int;
    assert(3 * sx * sy == sx * sy * 3) by (nonlinear_arith);
    assert(preview_samples(*message).len() == 3 * sx * sy);
    assert(data.len() == sx * sy * 3) by (nonlinear_arith)
        requires
            data.len() == rgb.width * rgb.height * 3,
            rgb.width == sx,
            rgb.height == sy,
    ;
    assert forall|k: int| 0 <= k < data.len() implies data[k] == preview_samples(*message)[k] by {
        let pixel = k / 3;
        let c = k % 3;
        vstd::arithmetic::div_mod::lemma_fundamental_div_mod(k, 3);
        assert(0 <= c < 3);
        assert(0 <= pixel < sx * sy) by (nonlinear_arith)
            requires
                0 <= k < 3 * (sx * sy),
                k == 3 * pixel + c,
                0 <= c < 3,
        ;
        assert(rgb.width * rgb.height == sx * sy);
        assert(data[3 * pixel + c] == rgb.interleaved_at(pixel, c));
        let line = pixel / sx;
        let col = pixel % sx;
        vstd::arithmetic::div_mod::lemma_fundamental_div_mod(pixel, sx);
        assert(0 <= col < sx);
        assert(0 <= line < sy) by (nonlinear_arith)
            requires
                0 <= pixel < sx * sy,
                pixel == sx * line + col,
                0 <= col < sx,
                0 < sx,
        ;
        assert(line * sx + col == pixel);
        assert(rgb.red@[line * sx + col] == channel_sample(
            message.image,
            message.size,
            red_offset(),
            line,
            col,
        ));
        assert(rgb.green@[line * sx + col] == channel_sample(
            message.image,
            message.size,
            green_offset(),
            line,
            col,
        ));
        assert(rgb.blue@[line * sx + col] == channel_sample(
            message.image,
            message.size,
            blue_offset(),
            line,
            col,
        ));
        if c == 0 {
            assert(data[k] == rgb.red@[pixel]);
        } else if c == 1 {
            assert(data[k] == rgb.green@[pixel]);
        } else {
            assert(data[k] == rgb.blue@[pixel]);
        }
    }
    assert(data =~= preview_samples(*message));
}

} // verus!
